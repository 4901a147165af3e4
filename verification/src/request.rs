//! One call of the queue service, before it is sent.

use vstd::prelude::*;

verus! {

/// The HTTP methods that the queue service takes.
#[derive(Debug, Clone, Copy, PartialEq, Eq, Structural)]
pub enum Method {
    Get,
    Post,
    Put,
    Patch,
    Delete,
}

/// A call of the service: the method, the full path, and the JSON body
/// (empty where the call has none).
#[derive(Debug, Clone, PartialEq, Eq)]
pub struct Request {
    pub method: Method,
    pub path: String,
    pub body: String,
}

/// The mathematical content of a `Request`.
pub struct RequestView {
    pub method: Method,
    pub path: Seq<char>,
    pub body: Seq<char>,
}

impl View for Request {
    type V = RequestView;

    open spec fn view(&self) -> RequestView {
        RequestView { method: self.method, path: self.path@, body: self.body@ }
    }
}

impl Method {
    /// Whether a call with this method leaves the service's state as it is.
    pub open spec fn is_read_only(self) -> bool {
        self == Method::Get
    }
}

} // verus!
