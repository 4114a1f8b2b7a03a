//! The response model: status line, header mapping and body, and the exact
//! bytes that a response becomes on the wire.

use vstd::prelude::*;
use vstd::utf8::encode_utf8;
use crate::text::{append_decimal, decimal, str_eq};

verus! {

/// Header entries as name/value pairs, in the order in which they are sent.
pub type HeaderEntries = Seq<(Seq<char>, Seq<char>)>;

/// The protocol label of every response.
pub open spec fn protocol_version() -> Seq<char> {
    "HTTP/1.1"@
}

/// The fixed reason table: a known code gets its phrase, any other code "Not Defined".
pub open spec fn reason_of(code: Seq<char>) -> Seq<char> {
    if code == "200"@ {
        "OK"@
    } else if code == "400"@ {
        "Bad Request"@
    } else if code == "404"@ {
        "Not Found"@
    } else if code == "500"@ {
        "Internal Server Error"@
    } else {
        "Not Defined"@
    }
}

pub open spec fn keys_unique(s: HeaderEntries) -> bool {
    forall|i: int, j: int|
        0 <= i < s.len() && 0 <= j < s.len() && i != j ==> #[trigger] s[i].0 != #[trigger] s[j].0
}

pub open spec fn has_key(s: HeaderEntries, k: Seq<char>) -> bool {
    exists|i: int| 0 <= i < s.len() && #[trigger] s[i].0 == k
}

/// Setting a header: a present name gets the new value in place, a new name is added last.
pub open spec fn with_entry(s: HeaderEntries, k: Seq<char>, v: Seq<char>) -> HeaderEntries {
    if has_key(s, k) {
        s.update(choose|i: int| 0 <= i < s.len() && #[trigger] s[i].0 == k, (k, v))
    } else {
        s.push((k, v))
    }
}

/// The mapping that a response gets when it is built without headers.
pub open spec fn default_headers() -> HeaderEntries {
    seq![("Content-Type"@, "text/html"@)]
}

/// Each known code has its own phrase; every other code reads "Not Defined".
pub proof fn lemma_reason_table(code: Seq<char>)
    ensures
        code == "200"@ ==> reason_of(code) == "OK"@,
        code == "400"@ ==> reason_of(code) == "Bad Request"@,
        code == "404"@ ==> reason_of(code) == "Not Found"@,
        code == "500"@ ==> reason_of(code) == "Internal Server Error"@,
        code != "200"@ && code != "400"@ && code != "404"@ && code != "500"@ ==> reason_of(code)
            == "Not Defined"@,
{
    reveal_strlit("200");
    reveal_strlit("400");
    reveal_strlit("404");
    reveal_strlit("500");
    assert("200"@[0] == '2' && "400"@[0] == '4' && "404"@[0] == '4' && "500"@[0] == '5');
    assert("400"@[2] == '0' && "404"@[2] == '4');
}

/// A mapping from header name to header value; names are unique.
#[derive(Debug, PartialEq)]
pub struct Headers {
    entries: Vec<(String, String)>,
}

impl View for Headers {
    type V = HeaderEntries;

    closed spec fn view(&self) -> HeaderEntries {
        self.entries@.map_values(|e: (String, String)| (e.0@, e.1@))
    }
}

impl Headers {
    #[verifier::type_invariant]
    spec fn names_unique(&self) -> bool {
        keys_unique(self@)
    }

    pub fn new() -> (r: Headers)
        ensures
            r@ == Seq::<(Seq<char>, Seq<char>)>::empty(),
    {
        let r = Headers { entries: Vec::new() };
        assert(r@ =~= Seq::<(Seq<char>, Seq<char>)>::empty());
        r
    }

    /// Sets `name` to `value`, replacing the value of a name that is already there.
    pub fn insert(&mut self, name: &str, value: &str)
        ensures
            final(self)@ == with_entry(old(self)@, name@, value@),
    {
        proof {
            use_type_invariant(&*self);
        }
        let ghost s = self@;
        let mut entries: Vec<(String, String)> = Vec::new();
        std::mem::swap(&mut entries, &mut self.entries);
        assert(entries@.map_values(|e: (String, String)| (e.0@, e.1@)) == s);
        let n = entries.len();
        let mut i: usize = 0;
        while i < n
            invariant
                n == entries@.len(),
                s == old(self)@,
                s == entries@.map_values(|e: (String, String)| (e.0@, e.1@)),
                keys_unique(s),
                i <= n,
                forall|j: int| 0 <= j < i ==> #[trigger] s[j].0 != name@,
            decreases n - i,
        {
            assert(s[i as int].0 == entries@[i as int].0@);
            if str_eq(entries[i].0.as_str(), name) {
                assert(has_key(s, name@));
                let ghost c = choose|j: int| 0 <= j < s.len() && #[trigger] s[j].0 == name@;
                assert(c == i);
                entries.set(i, (String::from_str(name), String::from_str(value)));
                assert(entries@.map_values(|e: (String, String)| (e.0@, e.1@)) =~= with_entry(
                    s,
                    name@,
                    value@,
                ));
                self.entries = entries;
                return;
            }
            i = i + 1;
        }
        assert(!has_key(s, name@));
        entries.push((String::from_str(name), String::from_str(value)));
        assert(entries@.map_values(|e: (String, String)| (e.0@, e.1@)) =~= s.push((name@, value@)));
        self.entries = entries;
    }
}

/// The header lines of a response: `<name>:<value>\r\n` for each entry, in order.
pub open spec fn header_lines(s: HeaderEntries) -> Seq<char>
    decreases s.len(),
{
    if s.len() == 0 {
        Seq::empty()
    } else {
        header_lines(s.drop_last()) + s.last().0 + ":"@ + s.last().1 + "\r\n"@
    }
}

/// The number of bytes of the UTF-8 encoding of `s`.
pub open spec fn byte_len(s: Seq<char>) -> nat {
    encode_utf8(s).len()
}

/// The `Content-Length` line announcing `n` bytes.
pub open spec fn content_length_line(n: nat) -> Seq<char> {
    "Content-Length: "@ + decimal(n) + "\r\n"@
}

/// The exact text of a response on the wire.
pub open spec fn wire_text(
    version: Seq<char>,
    code: Seq<char>,
    reason: Seq<char>,
    headers: HeaderEntries,
    body: Seq<char>,
) -> Seq<char> {
    version + " "@ + code + " "@ + reason + "\r\n"@ + header_lines(headers) + content_length_line(
        byte_len(body),
    ) + "\r\n"@ + body
}

/// The view of an optional string.
pub open spec fn opt_view(o: Option<String>) -> Option<Seq<char>> {
    match o {
        Some(s) => Some(s@),
        None => None,
    }
}

/// The announced `Content-Length` is the number of bytes of the body that
/// follows it, and an empty or absent body is announced as `0`.
pub proof fn lemma_content_length_exact(r: HttpResponse)
    ensures
        exists|head: Seq<char>|
            r.wire() == head + "Content-Length: "@ + decimal(byte_len(r.body_text())) + "\r\n"@
                + "\r\n"@ + r.body_text(),
        r.body_text().len() == 0 ==> decimal(byte_len(r.body_text())) == seq!['0'],
{
    let head = r.version@ + " "@ + r.status_code@ + " "@ + r.status_text@ + "\r\n"@
        + header_lines(r.header_entries());
    assert(r.wire() =~= head + "Content-Length: "@ + decimal(byte_len(r.body_text())) + "\r\n"@
        + "\r\n"@ + r.body_text());
    if r.body_text().len() == 0 {
        assert(encode_utf8(r.body_text()) =~= Seq::<u8>::empty());
        assert(decimal(0) == seq![crate::text::digit_char(0)]);
    }
}

/// An HTTP response: protocol label, status code and reason phrase, header
/// mapping and body.
#[derive(Debug, PartialEq)]
pub struct HttpResponse {
    pub version: String,
    pub status_code: String,
    pub status_text: String,
    pub headers: Option<Headers>,
    pub body: Option<String>,
}

fn reason_phrase(code: &str) -> (r: &'static str)
    ensures
        r@ == reason_of(code@),
{
    if str_eq(code, "200") {
        "OK"
    } else if str_eq(code, "400") {
        "Bad Request"
    } else if str_eq(code, "404") {
        "Not Found"
    } else if str_eq(code, "500") {
        "Internal Server Error"
    } else {
        "Not Defined"
    }
}

impl Default for HttpResponse {
    /// A `200 OK` response with neither headers nor body.
    fn default() -> (r: HttpResponse)
        ensures
            r.version@ == protocol_version(),
            r.status_code@ == "200"@,
            r.status_text@ == "OK"@,
            r.headers is None,
            r.body is None,
    {
        HttpResponse {
            version: String::from_str("HTTP/1.1"),
            status_code: String::from_str("200"),
            status_text: String::from_str("OK"),
            headers: None,
            body: None,
        }
    }
}

impl HttpResponse {
    /// The reason phrase agrees with the code and the label is the protocol's.
    pub open spec fn wf(&self) -> bool {
        &&& self.version@ == protocol_version()
        &&& self.status_text@ == reason_of(self.status_code@)
    }

    /// A well-formed response with this code, these headers and this body.
    pub open spec fn answers(
        &self,
        code: Seq<char>,
        headers: HeaderEntries,
        body: Option<Seq<char>>,
    ) -> bool {
        &&& self.wf()
        &&& self.status_code@ == code
        &&& self.headers is Some
        &&& self.header_entries() == headers
        &&& opt_view(self.body) == body
    }

    pub open spec fn header_entries(&self) -> HeaderEntries {
        match self.headers {
            Some(h) => h@,
            None => Seq::empty(),
        }
    }

    /// The body as sent: an absent body is empty.
    pub open spec fn body_text(&self) -> Seq<char> {
        match self.body {
            Some(b) => b@,
            None => Seq::empty(),
        }
    }

    pub open spec fn wire(&self) -> Seq<char> {
        wire_text(
            self.version@,
            self.status_code@,
            self.status_text@,
            self.header_entries(),
            self.body_text(),
        )
    }

    /// Builds a response for `status_code`; without headers it gets the single
    /// header `Content-Type: text/html`.
    pub fn new(status_code: &str, headers: Option<Headers>, body: Option<String>) -> (r:
        HttpResponse)
        ensures
            r.wf(),
            r.status_code@ == status_code@,
            r.status_text@ == reason_of(status_code@),
            headers is Some ==> r.headers == headers,
            headers is None ==> r.headers is Some && r.header_entries() == default_headers(),
            r.body == body,
    {
        let mut response = HttpResponse::default();
        response.status_code = String::from_str(status_code);
        response.headers = match headers {
            Some(h) => Some(h),
            None => {
                let mut h = Headers::new();
                h.insert("Content-Type", "text/html");
                assert(h@ =~= default_headers());
                Some(h)
            },
        };
        response.status_text = String::from_str(reason_phrase(status_code));
        response.body = body;
        response
    }

    pub fn version(&self) -> (r: &str)
        ensures
            r@ == self.version@,
    {
        self.version.as_str()
    }

    pub fn status_code(&self) -> (r: &str)
        ensures
            r@ == self.status_code@,
    {
        self.status_code.as_str()
    }

    pub fn status_text(&self) -> (r: &str)
        ensures
            r@ == self.status_text@,
    {
        self.status_text.as_str()
    }

    /// The header lines, one `<name>:<value>\r\n` per entry.
    pub fn headers(&self) -> (r: String)
        ensures
            r@ == header_lines(self.header_entries()),
    {
        let mut out = String::new();
        match &self.headers {
            None => {
                assert(out@ =~= header_lines(self.header_entries()));
            },
            Some(h) => {
                let ghost s = h@;
                let n = h.entries.len();
                let mut i: usize = 0;
                assert(s.take(0) =~= Seq::<(Seq<char>, Seq<char>)>::empty());
                while i < n
                    invariant
                        n == h.entries@.len(),
                        s == h.entries@.map_values(|e: (String, String)| (e.0@, e.1@)),
                        i <= n,
                        out@ == header_lines(s.take(i as int)),
                    decreases n - i,
                {
                    let e = &h.entries[i];
                    out.append(e.0.as_str());
                    out.append(":");
                    out.append(e.1.as_str());
                    out.append("\r\n");
                    assert(s.take(i + 1).drop_last() =~= s.take(i as int));
                    assert(out@ =~= header_lines(s.take(i + 1)));
                    i = i + 1;
                }
                assert(s.take(n as int) =~= s);
            },
        }
        out
    }

    /// The body; an absent body reads as empty.
    pub fn body(&self) -> (r: &str)
        ensures
            r@ == self.body_text(),
    {
        match &self.body {
            Some(b) => b.as_str(),
            None => {
                proof {
                    reveal_strlit("");
                }
                ""
            },
        }
    }

    /// The exact text of this response on the wire.
    pub fn serialize(&self) -> (r: String)
        ensures
            r@ == self.wire(),
    {
        let body = self.body();
        let mut out = String::from_str(self.version());
        out.append(" ");
        out.append(self.status_code());
        out.append(" ");
        out.append(self.status_text());
        out.append("\r\n");
        let lines = self.headers();
        out.append(lines.as_str());
        out.append("Content-Length: ");
        append_decimal(&mut out, body.as_bytes().len());
        out.append("\r\n");
        out.append("\r\n");
        out.append(body);
        assert(out@ =~= self.wire());
        out
    }

    /// Writes the serialized response to the end of the buffer
    /// `write_stream`. Writing into a buffer cannot fail, so the result is
    /// always `Ok(())`; the buffer gains exactly the UTF-8 bytes of the wire
    /// text and nothing else.
    pub fn send_response(&self, write_stream: &mut Vec<u8>) -> (r: Result<(), ()>)
        ensures
            r is Ok,
            final(write_stream)@ == old(write_stream)@ + encode_utf8(self.wire()),
    {
        let text = self.serialize();
        append_bytes(write_stream, text.as_str().as_bytes());
        Ok(())
    }
}

fn append_bytes(out: &mut Vec<u8>, bytes: &[u8])
    ensures
        final(out)@ == old(out)@ + bytes@,
{
    let ghost start = out@;
    let mut i: usize = 0;
    while i < bytes.len()
        invariant
            i <= bytes@.len(),
            out@ == start + bytes@.subrange(0, i as int),
        decreases bytes@.len() - i,
    {
        out.push(bytes[i]);
        assert(bytes@.subrange(0, i + 1) =~= bytes@.subrange(0, i as int).push(bytes@[i as int]));
        i = i + 1;
    }
    assert(bytes@.subrange(0, bytes@.len() as int) =~= bytes@);
}

impl From<HttpResponse> for String {
    /// The wire text of the response, as `HttpResponse::serialize` gives it.
    fn from(response: HttpResponse) -> (r: String)
        ensures
            r@ == response.wire(),
    {
        response.serialize()
    }
}

impl vstd::std_specs::convert::FromSpecImpl<HttpResponse> for String {
    open spec fn obeys_from_spec() -> bool {
        false
    }

    open spec fn from_spec(v: HttpResponse) -> String {
        choose|s: String| s@ == v.wire()
    }
}

} // verus!
