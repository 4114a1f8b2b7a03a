//! A minimal HTTP/1.1 responder: the response model and its wire format,
//! the handlers that build responses, and the router that picks a handler.

pub mod text;
pub mod response;
pub mod request;
pub mod handler;
pub mod router;
