//! What holds of the manager whatever it is asked, stated over its model.

use crate::endpoint::{spec_delay_path, DEFAULT_TEST_URL};
use crate::error::ClientError;
use crate::json::{json_decoding, json_encoding, json_is_null};
use crate::manager::{accepted, received, ManagerView};
use crate::request::{json_content_type, Method};
use crate::uri::unix_uri_text;
use serde_json::Value;
use vstd::prelude::*;

verus! {

/// A manager that was just made has a document in each slot, and it is
/// `null`: reading before the first refresh is no failure.
pub proof fn lemma_fresh_manager_holds_null(manager: ManagerView, socket_path: Seq<char>)
    requires
        manager.is_fresh(socket_path),
    ensures
        json_is_null(manager.proxies),
        json_is_null(manager.providers_proxies),
        manager.socket_path == socket_path,
{
}

/// A document written to a slot is the document then read from it. The
/// write leaves the other slot and the socket's path as they were, and of
/// two writes to one slot the later one stays.
pub proof fn lemma_read_after_write(manager: ManagerView, data: Value, earlier: Value)
    ensures
        manager.with_proxies(data).proxies == data,
        manager.with_proxies(data).providers_proxies == manager.providers_proxies,
        manager.with_proxies(data).socket_path == manager.socket_path,
        manager.with_proxies(earlier).with_proxies(data) == manager.with_proxies(data),
        manager.with_providers_proxies(data).providers_proxies == data,
        manager.with_providers_proxies(data).proxies == manager.proxies,
        manager.with_providers_proxies(data).socket_path == manager.socket_path,
        manager.with_providers_proxies(earlier).with_providers_proxies(data)
            == manager.with_providers_proxies(data),
{
}

/// A refresh whose exchange failed hands the failure on and leaves the
/// manager as it was.
pub proof fn lemma_failed_exchange_keeps_cache(manager: ManagerView, error: ClientError)
    ensures
        accepted(Err(error)) == Err::<(), ClientError>(error),
        manager.after_proxies(received(Err(error))) == manager,
        manager.after_providers_proxies(received(Err(error))) == manager,
{
}

/// A refresh that fails, for whatever reason, leaves the manager as it was.
pub proof fn lemma_failed_refresh_keeps_cache(
    manager: ManagerView,
    reply: Result<Seq<u8>, ClientError>,
)
    requires
        accepted(reply) is Err,
    ensures
        manager.after_proxies(received(reply)) == manager,
        manager.after_providers_proxies(received(reply)) == manager,
{
}

/// A refresh to which the daemon answers with a document succeeds, and
/// that document is then in the slot.
pub proof fn lemma_refresh_stores_document(manager: ManagerView, bytes: Seq<u8>, document: Value)
    requires
        json_decoding(bytes) == Some(document),
    ensures
        accepted(Ok(bytes)) is Ok,
        manager.after_proxies(received(Ok(bytes))) == manager.with_proxies(document),
        manager.after_proxies(received(Ok(bytes))).proxies == document,
        manager.after_providers_proxies(received(Ok(bytes))) == manager.with_providers_proxies(
            document,
        ),
        manager.after_providers_proxies(received(Ok(bytes))).providers_proxies == document,
{
}

/// A refresh succeeds exactly where the reply carries a document, and
/// changes nothing but its own slot.
pub proof fn lemma_refresh_touches_one_slot(
    manager: ManagerView,
    reply: Result<Seq<u8>, ClientError>,
)
    ensures
        accepted(reply) is Ok <==> (reply matches Ok(bytes) && json_decoding(bytes) is Some),
        manager.after_proxies(received(reply)).providers_proxies == manager.providers_proxies,
        manager.after_proxies(received(reply)).socket_path == manager.socket_path,
        manager.after_providers_proxies(received(reply)).proxies == manager.proxies,
        manager.after_providers_proxies(received(reply)).socket_path == manager.socket_path,
{
}

/// Of two attempts to refresh one slot, the one that ends later decides what
/// the slot holds where it succeeds; where it fails, what the earlier one
/// left stays.
pub proof fn lemma_later_refresh_wins(
    manager: ManagerView,
    earlier: Result<Value, ClientError>,
    later: Result<Value, ClientError>,
)
    ensures
        later is Ok ==> manager.after_proxies(earlier).after_proxies(later)
            == manager.after_proxies(later),
        later is Err ==> manager.after_proxies(earlier).after_proxies(later)
            == manager.after_proxies(earlier),
        later is Ok ==> manager.after_providers_proxies(earlier).after_providers_proxies(later)
            == manager.after_providers_proxies(later),
        later is Err ==> manager.after_providers_proxies(earlier).after_providers_proxies(later)
            == manager.after_providers_proxies(earlier),
{
}

/// A request without a body has no header and an empty payload. A request
/// with a body has the one header that announces JSON, and its payload is
/// the encoded body.
pub proof fn lemma_body_decides_payload(
    manager: ManagerView,
    path: Seq<char>,
    method: Method,
    body: Option<Value>,
)
    requires
        manager.request(path, method, body) is Ok,
    ensures
        manager.request(path, method, body)->Ok_0.method == method,
        body is None ==> {
            &&& manager.request(path, method, body)->Ok_0.headers == Seq::<
                (Seq<char>, Seq<char>),
            >::empty()
            &&& manager.request(path, method, body)->Ok_0.body == Seq::<u8>::empty()
        },
        body matches Some(value) ==> {
            &&& manager.request(path, method, body)->Ok_0.headers == seq![json_content_type()]
            &&& json_encoding(value) == Some(manager.request(path, method, body)->Ok_0.body)
        },
{
}

/// The path ends the text of an address as it was given, and what stands
/// before it depends on the socket alone.
pub proof fn lemma_path_is_taken_as_it_is(socket_path: Seq<char>, path: Seq<char>)
    ensures
        unix_uri_text(socket_path, path) == unix_uri_text(socket_path, Seq::empty()) + path,
{
    assert(unix_uri_text(socket_path, path) =~= unix_uri_text(socket_path, Seq::empty()) + path);
}

/// A delay test that names no URL asks for the default one.
pub proof fn lemma_default_test_url(name: Seq<char>, timeout: int)
    ensures
        spec_delay_path(name, None, timeout) == spec_delay_path(
            name,
            Some(DEFAULT_TEST_URL@),
            timeout,
        ),
{
}

} // verus!
