use mihomo_api::uri::{generate_unix_uri, unix_uri_string};
use mihomo_api::{ClientError, MihomoManager};

fn hyperlocal_uri(socket_path: &str, path: &str) -> hyper::Uri {
    hyperlocal::Uri::new(socket_path, path).into()
}

#[test]
fn address_text_of_a_short_socket_name() {
    assert_eq!(unix_uri_string("foo.sock", "/"), "unix://666f6f2e736f636b:0/");
}

#[test]
fn address_text_takes_the_path_as_it_is() {
    assert_eq!(
        unix_uri_string("/tmp/m.sock", "/proxies/a b/delay?url=x&timeout=1"),
        "unix://2f746d702f6d2e736f636b:0/proxies/a b/delay?url=x&timeout=1"
    );
}

#[test]
fn address_text_of_an_empty_socket_path_and_an_empty_path() {
    assert_eq!(unix_uri_string("", ""), "unix://:0");
}

#[test]
fn address_text_writes_the_bytes_of_a_socket_path_that_is_not_ascii() {
    // U+00E9 is the two bytes c3 a9 in UTF-8.
    assert_eq!(unix_uri_string("\u{e9}", "/version"), "unix://c3a9:0/version");
}

#[test]
fn address_has_scheme_host_port_and_path() {
    let uri = generate_unix_uri("/tmp/verge/mihomo.sock", "/version").unwrap();
    assert_eq!(uri.scheme_str(), Some("unix"));
    assert_eq!(uri.host(), Some("2f746d702f76657267652f6d69686f6d6f2e736f636b"));
    assert_eq!(uri.port_u16(), Some(0));
    assert_eq!(uri.path(), "/version");
    assert_eq!(uri.query(), None);
}

#[test]
fn address_keeps_the_query() {
    let uri = generate_unix_uri("/run/mihomo.sock", "/configs?force=true").unwrap();
    assert_eq!(uri.path(), "/configs");
    assert_eq!(uri.query(), Some("force=true"));
}

#[test]
fn address_is_the_one_that_hyperlocal_gives() {
    let sockets = ["foo.sock", "/tmp/verge/mihomo.sock", "/var/run/\u{4ee3}\u{7406}.sock"];
    let paths = [
        "/",
        "/version",
        "/configs?force=true",
        "/connections/abc123",
        "/proxies/DIRECT/delay?url=http://cp.cloudflare.com/generate_204&timeout=5000",
    ];
    for socket in sockets {
        for path in paths {
            assert_eq!(generate_unix_uri(socket, path), Ok(hyperlocal_uri(socket, path)));
        }
    }
}

#[test]
fn address_is_read_from_its_text() {
    let text = unix_uri_string("/tmp/m.sock", "/connections");
    let parsed: hyper::Uri = text.parse().unwrap();
    assert_eq!(generate_unix_uri("/tmp/m.sock", "/connections"), Ok(parsed));
}

#[test]
fn path_with_a_space_is_refused() {
    assert_eq!(generate_unix_uri("/tmp/m.sock", "/connections/a b"), Err(ClientError::Protocol));
}

#[test]
fn path_without_a_leading_slash_runs_into_the_authority() {
    let uri = generate_unix_uri("/tmp/m.sock", "version").unwrap();
    assert_eq!(uri, hyperlocal_uri("/tmp/m.sock", "version"));
    assert_eq!(uri.authority().map(|a| a.as_str()), Some("2f746d702f6d2e736f636b:0version"));
    assert_eq!(uri.path(), "/");
}

#[test]
fn path_with_a_control_character_is_refused() {
    assert_eq!(generate_unix_uri("/tmp/m.sock", "/a\nb"), Err(ClientError::Protocol));
}

#[test]
fn address_that_is_too_long_is_refused() {
    let path = format!("/{}", "a".repeat(70000));
    assert_eq!(generate_unix_uri("/tmp/m.sock", &path), Err(ClientError::Protocol));
}

#[test]
fn manager_forms_addresses_behind_its_own_socket() {
    let manager = MihomoManager::new(String::from("/tmp/verge/mihomo.sock"));
    assert_eq!(manager.socket_path(), "/tmp/verge/mihomo.sock");
    assert_eq!(
        manager.generate_unix_path("/proxies"),
        Ok(hyperlocal_uri("/tmp/verge/mihomo.sock", "/proxies"))
    );
    assert_eq!(manager.generate_unix_path("/pro xies"), Err(ClientError::Protocol));
}
