use mihomo_api::{ClientError, MihomoData, MihomoManager};
use serde_json::Value;

fn document(text: &str) -> Value {
    serde_json::from_str(text).unwrap()
}

#[test]
fn default_data_is_null_in_both_slots() {
    let data = MihomoData::default();
    assert_eq!(data.proxies, Value::Null);
    assert_eq!(data.providers_proxies, Value::Null);
    assert!(data.proxies.is_null());
}

#[test]
fn fresh_manager_holds_the_default_document() {
    let manager = MihomoManager::new(String::from("/tmp/mihomo.sock"));
    assert_eq!(manager.get_data_proxies(), Value::Null);
    assert_eq!(manager.get_data_providers_proxies(), Value::Null);
    assert_eq!(manager.socket_path(), "/tmp/mihomo.sock");
}

#[test]
fn proxies_written_are_proxies_read() {
    let mut manager = MihomoManager::new(String::from("/tmp/mihomo.sock"));
    let documents = [
        "null",
        "true",
        "0",
        "-12.5",
        "\"text\"",
        "[]",
        "[1,[2,[3]],{\"k\":null}]",
        "{}",
        "{\"proxies\":{\"DIRECT\":{\"type\":\"Direct\",\"history\":[]}}}",
    ];
    for text in documents {
        let value = document(text);
        manager.set_data_proxies(value.clone());
        assert_eq!(manager.get_data_proxies(), value);
    }
}

#[test]
fn providers_proxies_written_are_providers_proxies_read() {
    let mut manager = MihomoManager::new(String::from("/tmp/mihomo.sock"));
    let value = document("{\"providers\":{\"default\":{\"proxies\":[{\"name\":\"a\"}]}}}");
    manager.set_data_providers_proxies(value.clone());
    assert_eq!(manager.get_data_providers_proxies(), value);
}

#[test]
fn a_write_to_one_slot_leaves_the_other() {
    let mut manager = MihomoManager::new(String::from("/tmp/mihomo.sock"));
    manager.set_data_proxies(document("{\"a\":1}"));
    assert_eq!(manager.get_data_providers_proxies(), Value::Null);
    manager.set_data_providers_proxies(document("{\"b\":2}"));
    assert_eq!(manager.get_data_proxies(), document("{\"a\":1}"));
    assert_eq!(manager.get_data_providers_proxies(), document("{\"b\":2}"));
    assert_eq!(manager.socket_path(), "/tmp/mihomo.sock");
}

#[test]
fn the_later_of_two_writes_stays() {
    let mut manager = MihomoManager::new(String::from("/tmp/mihomo.sock"));
    manager.set_data_proxies(document("[1]"));
    manager.set_data_proxies(document("[2]"));
    assert_eq!(manager.get_data_proxies(), document("[2]"));
}

#[test]
fn reading_does_not_empty_the_slot() {
    let mut manager = MihomoManager::new(String::from("/tmp/mihomo.sock"));
    manager.set_data_proxies(document("{\"id\":1}"));
    assert_eq!(manager.get_data_proxies(), document("{\"id\":1}"));
    assert_eq!(manager.get_data_proxies(), document("{\"id\":1}"));
}

#[test]
fn stored_document_is_in_the_slot() {
    let mut manager = MihomoManager::new(String::from("/tmp/mihomo.sock"));
    assert_eq!(manager.store_proxies(Ok(document("{\"id\":1}"))), Ok(()));
    assert_eq!(manager.get_data_proxies(), document("{\"id\":1}"));
    assert_eq!(manager.get_data_providers_proxies(), Value::Null);
    assert_eq!(manager.store_providers_proxies(Ok(document("{\"id\":2}"))), Ok(()));
    assert_eq!(manager.get_data_providers_proxies(), document("{\"id\":2}"));
    assert_eq!(manager.get_data_proxies(), document("{\"id\":1}"));
}

#[test]
fn stored_failure_is_handed_on_and_changes_nothing() {
    let mut manager = MihomoManager::new(String::from("/tmp/mihomo.sock"));
    manager.set_data_proxies(document("{\"id\":1}"));
    manager.set_data_providers_proxies(document("{\"id\":2}"));
    let failures = [
        ClientError::Serialization,
        ClientError::Transport,
        ClientError::Protocol,
        ClientError::Deserialization,
    ];
    for failure in failures {
        assert_eq!(manager.store_proxies(Err(failure)), Err(failure));
        assert_eq!(manager.store_providers_proxies(Err(failure)), Err(failure));
        assert_eq!(manager.get_data_proxies(), document("{\"id\":1}"));
        assert_eq!(manager.get_data_providers_proxies(), document("{\"id\":2}"));
    }
}
