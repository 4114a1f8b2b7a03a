//! The router: which handler answers a request, and the steps that lead from
//! a request to the response that is sent.
//!
//! Routing is a function from the request and the latest event to the next
//! action. The caller starts with `Event::Start`, performs each load that the
//! router asks for and hands its result back, until the router answers with
//! `Action::Send`.

use vstd::prelude::*;
use crate::handler::{
    is_fixed_page, json_headers, path_segment, segment, serves_orders, single_header,
    content_type_for, static_resource, PageNotFoundHandler, StaticPageHandler,
    WebServiceHandler,
};
use crate::request::{HttpRequest, Method};
use crate::response::{default_headers, opt_view, HeaderEntries, HttpResponse};
use crate::text::str_eq;

verus! {

/// The handler that answers a request.
#[derive(Debug, Clone, Copy, PartialEq, Eq, Structural)]
pub enum Route {
    Api,
    Static,
}

/// What the caller reports back to the router.
pub enum Event {
    /// A new request.
    Start,
    /// The content of the resource asked for by `Action::LoadResource`.
    ResourceLoaded(Option<String>),
    /// The orders document asked for by `Action::LoadOrders`.
    OrdersLoaded(String),
    /// The not-found page asked for by `Action::LoadFallback`.
    FallbackLoaded(Option<String>),
}

/// What the router asks the caller to do next.
pub enum Action {
    /// Load the named resource from the content root.
    LoadResource(String),
    /// Load the orders document.
    LoadOrders,
    /// Load the not-found page, `404.html`.
    LoadFallback,
    /// Write this response to the connection.
    Send(HttpResponse),
}

/// The next action, in the abstract: a response is given by its code,
/// headers and body.
pub ghost enum Step {
    Load(Seq<char>),
    LoadOrders,
    LoadFallback,
    Reply(Seq<char>, HeaderEntries, Option<Seq<char>>),
}

/// GET requests under `/api` go to the service, other GET requests to the
/// static pages, and every other method to the service.
pub open spec fn route_of(method: Method, path: Seq<char>) -> Route {
    match method {
        Method::Get => if segment(path, 1) == "api"@ {
            Route::Api
        } else {
            Route::Static
        },
        Method::Other => Route::Api,
    }
}

/// The static handler's step, given what was loaded.
pub open spec fn static_step(path: Seq<char>, contents: Option<Seq<char>>) -> Step {
    let first = segment(path, 1);
    if is_fixed_page(first) {
        Step::Reply("200"@, default_headers(), contents)
    } else if contents is Some {
        Step::Reply("200"@, single_header("Content-Type"@, content_type_for(first)), contents)
    } else {
        Step::LoadFallback
    }
}

/// The router's decision on a request with `method` and `path`, after `event`.
pub open spec fn next_step(method: Method, path: Seq<char>, event: Event) -> Step {
    match event {
        Event::Start => match route_of(method, path) {
            Route::Static => Step::Load(static_resource(path)),
            Route::Api => if serves_orders(path) {
                Step::LoadOrders
            } else {
                Step::LoadFallback
            },
        },
        Event::ResourceLoaded(c) => static_step(path, opt_view(c)),
        Event::OrdersLoaded(j) => Step::Reply("200"@, json_headers(), Some(j@)),
        Event::FallbackLoaded(p) => Step::Reply("404"@, default_headers(), opt_view(p)),
    }
}

/// Whether `action` is the step `s`.
pub open spec fn performs(action: Action, s: Step) -> bool {
    match (action, s) {
        (Action::LoadResource(n), Step::Load(m)) => n@ == m,
        (Action::LoadOrders, Step::LoadOrders) => true,
        (Action::LoadFallback, Step::LoadFallback) => true,
        (Action::Send(r), Step::Reply(code, headers, body)) => r.answers(code, headers, body),
        _ => false,
    }
}

/// A GET whose first segment is neither empty, nor the health page, nor the
/// service, asks for the file of that name; when it is absent the not-found
/// page is loaded and the answer is `404`.
pub proof fn lemma_missing_file_is_not_found(path: Seq<char>, page: Option<String>)
    requires
        segment(path, 1).len() > 0,
        segment(path, 1) != "headlth"@,
        segment(path, 1) != "api"@,
    ensures
        route_of(Method::Get, path) == Route::Static,
        next_step(Method::Get, path, Event::Start) == Step::Load(segment(path, 1)),
        next_step(Method::Get, path, Event::ResourceLoaded(None)) == Step::LoadFallback,
        next_step(Method::Get, path, Event::FallbackLoaded(page)) == Step::Reply(
            "404"@,
            default_headers(),
            opt_view(page),
        ),
{
}

/// Every method but GET goes to the service, whatever the path.
pub proof fn lemma_other_methods_go_to_service(method: Method, path: Seq<char>)
    requires
        method != Method::Get,
    ensures
        route_of(method, path) == Route::Api,
        next_step(method, path, Event::Start) == if serves_orders(path) {
            Step::LoadOrders
        } else {
            Step::LoadFallback
        },
{
}

/// Routes requests to handlers.
pub struct Router {}

impl Router {
    /// The handler for `request`.
    pub fn dispatch(request: &HttpRequest) -> (r: Route)
        ensures
            r == route_of(request.method, request.resource@),
    {
        match request.method {
            Method::Get => {
                if str_eq(path_segment(request.resource.as_str(), 1), "api") {
                    Route::Api
                } else {
                    Route::Static
                }
            },
            Method::Other => Route::Api,
        }
    }

    /// The next action on `request` after `event`.
    pub fn route(request: &HttpRequest, event: Event) -> (r: Action)
        ensures
            performs(r, next_step(request.method, request.resource@, event)),
    {
        match event {
            Event::Start => match Router::dispatch(request) {
                Route::Static => Action::LoadResource(StaticPageHandler::resource_name(request)),
                Route::Api => if WebServiceHandler::serves_orders(request) {
                    Action::LoadOrders
                } else {
                    Action::LoadFallback
                },
            },
            Event::ResourceLoaded(c) => match StaticPageHandler::handle(request, c) {
                Some(response) => Action::Send(response),
                None => Action::LoadFallback,
            },
            Event::OrdersLoaded(j) => Action::Send(WebServiceHandler::handle(j)),
            Event::FallbackLoaded(p) => Action::Send(PageNotFoundHandler::handle(p)),
        }
    }
}

} // verus!
