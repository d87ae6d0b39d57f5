//! The address of a resource that a daemon serves on a Unix domain socket.
//!
//! The address has the form that `hyperlocal` gives it: the scheme `unix`,
//! the socket's path in hexadecimal as the host, port `0`, and then the
//! resource's path, taken as it is.

use crate::error::ClientError;
use crate::text::{hex, push_hex};
use hyper::http::uri::InvalidUri;
use hyper::Uri;
use vstd::prelude::*;
use vstd::utf8::encode_utf8;

verus! {

/// `hyper::Uri`: a URI that was read from text. It is carried, never looked
/// into.
#[verifier::external_type_specification]
#[verifier::external_body]
pub struct ExUri(hyper::Uri);

/// `hyper::http::uri::InvalidUri`: why a text was rejected. It is never
/// looked into.
#[verifier::external_type_specification]
#[verifier::external_body]
pub struct ExInvalidUri(hyper::http::uri::InvalidUri);

/// The URI that `Uri::from_str` reads from `text`; `None` where it rejects
/// the text.
pub uninterp spec fn uri_parse(text: Seq<char>) -> Option<Uri>;

/// The text of the address of `path` behind the socket at `socket_path`.
pub open spec fn unix_uri_text(socket_path: Seq<char>, path: Seq<char>) -> Seq<char> {
    "unix://"@ + hex(encode_utf8(socket_path)) + ":0"@ + path
}

/// The address of `path` behind the socket at `socket_path`, or the failure
/// to form one.
pub open spec fn unix_uri(socket_path: Seq<char>, path: Seq<char>) -> Result<Uri, ClientError> {
    match uri_parse(unix_uri_text(socket_path, path)) {
        Some(uri) => Ok(uri),
        None => Err(ClientError::Protocol),
    }
}

/// Calls `Uri::from_str`. Not proved: the URI read depends on the text
/// alone, and so does whether the text is rejected.
#[verifier::external_body]
fn parse_uri(text: &str) -> (parsed: Result<Uri, InvalidUri>)
    ensures
        parsed matches Ok(uri) ==> uri_parse(text@) == Some(uri),
        parsed is Err ==> uri_parse(text@) is None,
{
    text.parse::<Uri>()
}

/// Calls `hyperlocal::Uri::new` and converts the result into a `hyper::Uri`.
/// Not proved: the call writes the text `unix_uri_text` and reads it with
/// `Uri::from_str`. It panics where the text is rejected, so callers must
/// know that it is not.
#[verifier::external_body]
fn hyperlocal_uri(socket_path: &str, path: &str) -> (uri: Uri)
    requires
        uri_parse(unix_uri_text(socket_path@, path@)) is Some,
    ensures
        uri_parse(unix_uri_text(socket_path@, path@)) == Some(uri),
{
    hyperlocal::Uri::new(socket_path, path).into()
}

/// Writes the text of the address of `path` behind the socket at
/// `socket_path`.
pub fn unix_uri_string(socket_path: &str, path: &str) -> (text: String)
    ensures
        text@ == unix_uri_text(socket_path@, path@),
{
    let mut text = "unix://".to_owned();
    push_hex(&mut text, socket_path.as_bytes());
    text.append(":0");
    text.append(path);
    text
}

/// Forms the address of `path` behind the socket at `socket_path`.
///
/// No character of `path` is escaped. A path that leaves the text no valid
/// URI is refused with [`ClientError::Protocol`]: the text is read once
/// beforehand, since `hyperlocal` panics on a text that is no URI.
pub fn generate_unix_uri(socket_path: &str, path: &str) -> (outcome: Result<Uri, ClientError>)
    ensures
        outcome == unix_uri(socket_path@, path@),
{
    let text = unix_uri_string(socket_path, path);
    match parse_uri(text.as_str()) {
        Ok(_) => Ok(hyperlocal_uri(socket_path, path)),
        Err(_) => Err(ClientError::Protocol),
    }
}

} // verus!
