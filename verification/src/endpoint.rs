//! The resources of the daemon's API, by their paths.
//!
//! Identifiers and URLs go into a path as they are: nothing is escaped.

use crate::text::{decimal, push_decimal};
use vstd::prelude::*;

verus! {

/// Answers with the daemon's version; asked to learn whether it runs.
pub const VERSION: &'static str = "/version";

/// The running configuration.
pub const CONFIGS: &'static str = "/configs";

/// The running configuration, to be replaced even where that is unsafe.
pub const CONFIGS_FORCE: &'static str = "/configs?force=true";

/// The list of proxies.
pub const PROXIES: &'static str = "/proxies";

/// The list of proxy providers.
pub const PROVIDERS_PROXIES: &'static str = "/providers/proxies";

/// The open connections.
pub const CONNECTIONS: &'static str = "/connections";

/// The URL that a delay test fetches where the caller names none.
pub const DEFAULT_TEST_URL: &'static str = "http://cp.cloudflare.com/generate_204";

/// The path of the connection `id`.
pub open spec fn spec_connection_path(id: Seq<char>) -> Seq<char> {
    "/connections/"@ + id
}

/// The URL that a delay test fetches.
pub open spec fn spec_test_url(test_url: Option<Seq<char>>) -> Seq<char> {
    match test_url {
        Some(url) => url,
        None => DEFAULT_TEST_URL@,
    }
}

/// The path that tests the delay of the proxy `name` against `test_url`,
/// giving up after `timeout` milliseconds.
pub open spec fn spec_delay_path(name: Seq<char>, test_url: Option<Seq<char>>, timeout: int) -> Seq<
    char,
> {
    "/proxies/"@ + name + "/delay?url="@ + spec_test_url(test_url) + "&timeout="@ + decimal(
        timeout,
    )
}

/// The view of a string that may be absent.
pub open spec fn optional_text(text: Option<String>) -> Option<Seq<char>> {
    match text {
        Some(text) => Some(text@),
        None => None,
    }
}

/// Writes the path of the connection `id`.
pub fn connection_path(id: &str) -> (path: String)
    ensures
        path@ == spec_connection_path(id@),
{
    let mut path = "/connections/".to_owned();
    path.append(id);
    path
}

/// Writes the path that tests the delay of the proxy `name`.
pub fn delay_path(name: &str, test_url: Option<String>, timeout: i32) -> (path: String)
    ensures
        path@ == spec_delay_path(name@, optional_text(test_url), timeout as int),
{
    let mut path = "/proxies/".to_owned();
    path.append(name);
    path.append("/delay?url=");
    match test_url {
        Some(url) => path.append(url.as_str()),
        None => path.append(DEFAULT_TEST_URL),
    }
    path.append("&timeout=");
    push_decimal(&mut path, timeout);
    path
}

} // verus!
