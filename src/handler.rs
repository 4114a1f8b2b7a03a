//! The handlers: static pages, the orders service, and the not-found page.
//!
//! Handlers do no I/O of their own. The caller loads the named resource (or the
//! orders document) and hands its content in; an absent resource is `None`.

use vstd::prelude::*;
use crate::request::HttpRequest;
use crate::response::{default_headers, opt_view, HeaderEntries, Headers, HttpResponse};
use crate::text::{ends_with, has_suffix, split_on_slash, split_slash, str_eq};

verus! {

/// The `k`-th piece of `path` cut at `/`; empty where the path has fewer pieces.
pub open spec fn segment(path: Seq<char>, k: int) -> Seq<char> {
    let p = split_slash(path);
    if 0 <= k < p.len() {
        p[k]
    } else {
        Seq::empty()
    }
}

pub fn path_segment<'a>(path: &'a str, k: usize) -> (r: &'a str)
    ensures
        r@ == segment(path@, k as int),
{
    let parts = split_on_slash(path);
    if k < parts.len() {
        assert(parts@.map_values(|x: &str| x@)[k as int] == parts@[k as int]@);
        parts[k]
    } else {
        proof {
            reveal_strlit("");
        }
        ""
    }
}

/// A first segment naming a page that is always answered with `200`.
pub open spec fn is_fixed_page(first: Seq<char>) -> bool {
    first.len() == 0 || first == "headlth"@
}

/// The resource that the static handler serves for `path`.
pub open spec fn static_resource(path: Seq<char>) -> Seq<char> {
    let first = segment(path, 1);
    if first.len() == 0 {
        "index.html"@
    } else if first == "headlth"@ {
        "health.html"@
    } else {
        first
    }
}

/// The content type of a file, by its extension.
pub open spec fn content_type_for(name: Seq<char>) -> Seq<char> {
    if has_suffix(name, ".css"@) {
        "text/css"@
    } else if has_suffix(name, ".js"@) {
        "text/javascript"@
    } else {
        "text/html"@
    }
}

pub open spec fn single_header(name: Seq<char>, value: Seq<char>) -> HeaderEntries {
    seq![(name, value)]
}

pub open spec fn json_headers() -> HeaderEntries {
    single_header("Content-Type"@, "application/json"@)
}

/// Whether `path` names the orders of the shipping service.
pub open spec fn serves_orders(path: Seq<char>) -> bool {
    segment(path, 2) == "shipping"@ && segment(path, 3) == "orders"@
}

fn single(name: &str, value: &str) -> (r: Headers)
    ensures
        r@ == single_header(name@, value@),
{
    let mut h = Headers::new();
    h.insert(name, value);
    assert(h@ =~= single_header(name@, value@));
    h
}

/// Serves files from the content root.
pub struct StaticPageHandler {}

impl StaticPageHandler {
    /// The name of the resource to load for `request`: `index.html` for `/`,
    /// `health.html` for `/headlth`, else the first segment itself.
    pub fn resource_name(request: &HttpRequest) -> (r: String)
        ensures
            r@ == static_resource(request.resource@),
    {
        let first = path_segment(request.resource.as_str(), 1);
        if first.unicode_len() == 0 {
            String::from_str("index.html")
        } else if str_eq(first, "headlth") {
            String::from_str("health.html")
        } else {
            String::from_str(first)
        }
    }

    /// The response given what was loaded for `resource_name(request)`.
    /// The index and health pages are answered `200` even when absent; any
    /// other file is answered `200` with a content type by its extension, or
    /// `None` when it is absent, which calls for the not-found page.
    pub fn handle(request: &HttpRequest, contents: Option<String>) -> (r: Option<HttpResponse>)
        ensures
            ({
                let first = segment(request.resource@, 1);
                if is_fixed_page(first) {
                    r is Some && r.unwrap().answers("200"@, default_headers(), opt_view(contents))
                } else if contents is Some {
                    r is Some && r.unwrap().answers(
                        "200"@,
                        single_header("Content-Type"@, content_type_for(first)),
                        opt_view(contents),
                    )
                } else {
                    r is None
                }
            }),
    {
        let first = path_segment(request.resource.as_str(), 1);
        if first.unicode_len() == 0 || str_eq(first, "headlth") {
            return Some(HttpResponse::new("200", None, contents));
        }
        match contents {
            Some(c) => {
                let kind = if ends_with(first, ".css") {
                    "text/css"
                } else if ends_with(first, ".js") {
                    "text/javascript"
                } else {
                    "text/html"
                };
                let headers = single("Content-Type", kind);
                Some(HttpResponse::new("200", Some(headers), Some(c)))
            },
            None => None,
        }
    }
}

/// One record of the orders document.
#[derive(Debug, Clone, PartialEq)]
pub struct OrderStatus {
    pub order_id: i32,
    pub order_date: String,
    pub order_status: String,
}

/// Serves the orders of the shipping service as JSON.
pub struct WebServiceHandler {}

impl WebServiceHandler {
    /// Whether `request` asks for the orders: its second and third segments
    /// are `shipping` and `orders`.
    pub fn serves_orders(request: &HttpRequest) -> (r: bool)
        ensures
            r == serves_orders(request.resource@),
    {
        str_eq(path_segment(request.resource.as_str(), 2), "shipping") && str_eq(
            path_segment(request.resource.as_str(), 3),
            "orders",
        )
    }

    /// The `200` response carrying the orders document `orders_json`.
    pub fn handle(orders_json: String) -> (r: HttpResponse)
        ensures
            r.answers("200"@, json_headers(), Some(orders_json@)),
    {
        let headers = single("Content-Type", "application/json");
        HttpResponse::new("200", Some(headers), Some(orders_json))
    }
}

/// Answers with the not-found page.
pub struct PageNotFoundHandler {}

impl PageNotFoundHandler {
    /// The `404` response whose body is the not-found page, if there is one.
    pub fn handle(page: Option<String>) -> (r: HttpResponse)
        ensures
            r.answers("404"@, default_headers(), opt_view(page)),
    {
        HttpResponse::new("404", None, page)
    }
}

} // verus!
