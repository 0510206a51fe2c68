//! Requests and responses as plain values: what the handler reads of the
//! one and what it says of the other.

use vstd::prelude::*;

verus! {

/// The method of a request.
#[derive(Clone, Debug, PartialEq, Eq, Hash)]
pub enum Method {
    Options,
    Get,
    Head,
    Trace,
    /// Any other method, by the name it was sent under.
    Other(String),
}

/// A `Method` as a mathematical value.
pub enum MethodView {
    Options,
    Get,
    Head,
    Trace,
    Other(Seq<char>),
}

impl View for Method {
    type V = MethodView;

    open spec fn view(&self) -> MethodView {
        match self {
            Method::Options => MethodView::Options,
            Method::Get => MethodView::Get,
            Method::Head => MethodView::Head,
            Method::Trace => MethodView::Trace,
            Method::Other(name) => MethodView::Other(name@),
        }
    }
}

/// The name that a method is sent under.
pub open spec fn method_name(method: MethodView) -> Seq<char> {
    match method {
        MethodView::Options => "OPTIONS"@,
        MethodView::Get => "GET"@,
        MethodView::Head => "HEAD"@,
        MethodView::Trace => "TRACE"@,
        MethodView::Other(name) => name,
    }
}

impl Method {
    /// The name that the method is sent under.
    pub fn name(&self) -> (r: String)
        ensures
            r@ == method_name(self@),
    {
        match self {
            Method::Options => "OPTIONS".to_string(),
            Method::Get => "GET".to_string(),
            Method::Head => "HEAD".to_string(),
            Method::Trace => "TRACE".to_string(),
            Method::Other(name) => name.clone(),
        }
    }

    /// Whether a request with this method is answered from the file system.
    pub fn reads_files(&self) -> (r: bool)
        ensures
            r == (self@ is Get || self@ is Head),
    {
        match self {
            Method::Get => true,
            Method::Head => true,
            _ => false,
        }
    }
}

/// The status of a response.
#[derive(Clone, Copy, Debug, PartialEq, Eq, Hash, Structural)]
pub enum Status {
    Okay,
    BadRequest,
    NotFound,
    NotImplemented,
}

impl Status {
    /// The number that the status is sent as.
    pub open spec fn spec_code(self) -> u16 {
        match self {
            Status::Okay => 200,
            Status::BadRequest => 400,
            Status::NotFound => 404,
            Status::NotImplemented => 501,
        }
    }

    /// The number that the status is sent as.
    pub fn code(&self) -> (r: u16)
        ensures
            r == self.spec_code(),
    {
        match self {
            Status::Okay => 200,
            Status::BadRequest => 400,
            Status::NotFound => 404,
            Status::NotImplemented => 501,
        }
    }
}

/// One header line: a name and its value.
#[derive(Clone, Debug, PartialEq, Eq, Hash)]
pub struct Header {
    pub name: String,
    pub value: String,
}

impl DeepView for Header {
    type V = (Seq<char>, Seq<char>);

    open spec fn deep_view(&self) -> (Seq<char>, Seq<char>) {
        (self.name@, self.value@)
    }
}

impl Header {
    /// The header with the name `name` and the value `value`.
    pub fn new(name: &str, value: &str) -> (r: Header)
        ensures
            r.deep_view() == (name@, value@),
    {
        Header { name: name.to_string(), value: value.to_string() }
    }
}

/// What a response carries after its headers.
#[derive(Clone, Debug, PartialEq, Eq, Hash)]
pub enum Body {
    /// Nothing.
    Empty,
    /// An HTML page.
    Html(String),
    /// The bytes of a file.
    Bytes(Vec<u8>),
}

/// A `Body` as a mathematical value.
pub enum BodyView {
    Empty,
    Html(Seq<char>),
    Bytes(Seq<u8>),
}

impl View for Body {
    type V = BodyView;

    open spec fn view(&self) -> BodyView {
        match self {
            Body::Empty => BodyView::Empty,
            Body::Html(page) => BodyView::Html(page@),
            Body::Bytes(bytes) => BodyView::Bytes(bytes@),
        }
    }
}

/// What the handler reads of a request.
#[derive(Clone, Debug, PartialEq, Eq, Hash)]
pub struct Request {
    pub method: Method,
    /// The segments of the URL's path, as they were sent: still
    /// percent-encoded, and empty where two slashes met or the path ended
    /// in one.
    pub path: Vec<String>,
    pub headers: Vec<Header>,
}

/// A `Request` as a mathematical value.
pub struct RequestView {
    pub method: MethodView,
    pub path: Seq<Seq<char>>,
    pub headers: Seq<(Seq<char>, Seq<char>)>,
}

impl View for Request {
    type V = RequestView;

    open spec fn view(&self) -> RequestView {
        RequestView {
            method: self.method@,
            path: self.path.deep_view(),
            headers: self.headers.deep_view(),
        }
    }
}

/// What the handler answers.
#[derive(Clone, Debug, PartialEq, Eq, Hash)]
pub struct Response {
    pub status: Status,
    pub headers: Vec<Header>,
    pub body: Body,
}

/// A `Response` as a mathematical value.
pub struct ResponseView {
    pub status: Status,
    pub headers: Seq<(Seq<char>, Seq<char>)>,
    pub body: BodyView,
}

impl View for Response {
    type V = ResponseView;

    open spec fn view(&self) -> ResponseView {
        ResponseView {
            status: self.status,
            headers: self.headers.deep_view(),
            body: self.body@,
        }
    }
}

} // verus!
