//! A request for the daemon, as plain data.

use crate::error::ClientError;
use crate::json::bytes_outcome;
use hyper::Uri;
use vstd::prelude::*;

verus! {

/// The HTTP methods that the daemon's API uses.
#[derive(Clone, Copy, Debug, PartialEq, Eq, Structural)]
pub enum Method {
    Get,
    Put,
    Patch,
    Delete,
}

impl Method {
    /// The method's name on the wire.
    pub open spec fn name(self) -> Seq<char> {
        match self {
            Method::Get => "GET"@,
            Method::Put => "PUT"@,
            Method::Patch => "PATCH"@,
            Method::Delete => "DELETE"@,
        }
    }

    /// The method's name on the wire.
    pub fn as_str(&self) -> (name: &'static str)
        ensures
            name@ == self.name(),
    {
        match self {
            Method::Get => "GET",
            Method::Put => "PUT",
            Method::Patch => "PATCH",
            Method::Delete => "DELETE",
        }
    }
}

/// One header line of a request.
#[derive(Debug, PartialEq, Eq)]
pub struct Header {
    pub name: String,
    pub value: String,
}

impl View for Header {
    type V = (Seq<char>, Seq<char>);

    open spec fn view(&self) -> (Seq<char>, Seq<char>) {
        (self.name@, self.value@)
    }
}

/// A request, ready to be carried to the daemon.
#[derive(Debug, PartialEq, Eq)]
pub struct Request {
    pub method: Method,
    pub uri: Uri,
    pub headers: Vec<Header>,
    pub body: Vec<u8>,
}

/// What a [`Request`] holds.
pub struct RequestView {
    pub method: Method,
    pub uri: Uri,
    pub headers: Seq<(Seq<char>, Seq<char>)>,
    pub body: Seq<u8>,
}

impl View for Request {
    type V = RequestView;

    open spec fn view(&self) -> RequestView {
        RequestView {
            method: self.method,
            uri: self.uri,
            headers: self.headers@.map_values(|header: Header| header@),
            body: self.body@,
        }
    }
}

/// The header that announces a JSON body.
pub open spec fn json_content_type() -> (Seq<char>, Seq<char>) {
    ("Content-Type"@, "application/json"@)
}

/// The request made of a method, the outcome of forming the address, and
/// the outcome of encoding the body where there is one.
///
/// A failure to form the address comes before a failure to encode the body.
/// Without a body the request has no header and an empty payload; with one
/// it announces JSON and its payload is the encoded body.
pub open spec fn assembled(
    method: Method,
    uri: Result<Uri, ClientError>,
    body: Option<Result<Seq<u8>, ClientError>>,
) -> Result<RequestView, ClientError> {
    match uri {
        Err(error) => Err(error),
        Ok(uri) => match body {
            None => Ok(RequestView { method, uri, headers: Seq::empty(), body: Seq::empty() }),
            Some(Err(error)) => Err(error),
            Some(Ok(bytes)) => Ok(
                RequestView { method, uri, headers: seq![json_content_type()], body: bytes },
            ),
        },
    }
}

/// The view of an encoded body, where there is one.
pub open spec fn body_outcome(body: Option<Result<Vec<u8>, ClientError>>) -> Option<
    Result<Seq<u8>, ClientError>,
> {
    match body {
        None => None,
        Some(outcome) => Some(bytes_outcome(outcome)),
    }
}

/// The view of an outcome that carries a request.
pub open spec fn request_outcome(outcome: Result<Request, ClientError>) -> Result<
    RequestView,
    ClientError,
> {
    match outcome {
        Ok(request) => Ok(request@),
        Err(error) => Err(error),
    }
}

impl Request {
    /// Makes a request of a method, the outcome of forming the address, and
    /// the outcome of encoding the body where there is one.
    pub fn assemble(
        method: Method,
        uri: Result<Uri, ClientError>,
        body: Option<Result<Vec<u8>, ClientError>>,
    ) -> (outcome: Result<Request, ClientError>)
        ensures
            request_outcome(outcome) == assembled(method, uri, body_outcome(body)),
    {
        let uri = match uri {
            Ok(uri) => uri,
            Err(error) => {
                return Err(error);
            },
        };
        match body {
            None => {
                let request = Request { method, uri, headers: Vec::new(), body: Vec::new() };
                assert(request@.headers =~= Seq::empty());
                Ok(request)
            },
            Some(Err(error)) => Err(error),
            Some(Ok(bytes)) => {
                let header = Header {
                    name: "Content-Type".to_owned(),
                    value: "application/json".to_owned(),
                };
                let mut headers = Vec::new();
                headers.push(header);
                let request = Request { method, uri, headers, body: bytes };
                assert(request@.headers =~= seq![json_content_type()]);
                Ok(request)
            },
        }
    }
}

} // verus!
