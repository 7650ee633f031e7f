use acme_client::acme::AccountHandle;
use acme_client::client::{no_proxy_list, proxy_plan, ProxyPlan, ProxyProtocol, RequestScheme};
use acme_client::kvdb::{key_in_prefix, t};

#[test]
fn absent_proxy_list_uses_system() {
    assert_eq!(proxy_plan::<u8>(&None), ProxyPlan::System);
}

#[test]
fn empty_proxy_list_disables_proxying() {
    assert_eq!(proxy_plan::<u8>(&Some(vec![])), ProxyPlan::Disabled);
}

#[test]
fn nonempty_proxy_list_uses_rules() {
    assert_eq!(proxy_plan(&Some(vec![ProxyProtocol::Https])), ProxyPlan::Rules);
}

#[test]
fn protocol_filter_scoping() {
    assert!(!ProxyProtocol::Https.applies_to(RequestScheme::Http));
    assert!(ProxyProtocol::Https.applies_to(RequestScheme::Https));
    assert!(!ProxyProtocol::Http.applies_to(RequestScheme::Https));
    assert!(ProxyProtocol::Http.applies_to(RequestScheme::Http));
    assert!(ProxyProtocol::All.applies_to(RequestScheme::Http));
    assert!(ProxyProtocol::All.applies_to(RequestScheme::Https));
}

#[test]
fn default_protocol_is_all() {
    assert_eq!(ProxyProtocol::default(), ProxyProtocol::All);
}

#[test]
fn bypass_entries_join_with_commas() {
    assert_eq!(no_proxy_list(&vec![]), "");
    assert_eq!(no_proxy_list(&vec!["example.org".to_string()]), "example.org");
    let entries = vec![
        "10.0.0.1".to_string(),
        "192.168.0.0/16".to_string(),
        ".example.org".to_string(),
    ];
    assert_eq!(no_proxy_list(&entries), "10.0.0.1,192.168.0.0/16,.example.org");
}

#[test]
fn create_if_missing_defaults_to_true() {
    assert!(t());
}

#[test]
fn prefix_membership() {
    assert!(key_in_prefix(b"account:1", b"account:"));
    assert!(key_in_prefix(b"account:", b"account:"));
    assert!(key_in_prefix(b"anything", b""));
    assert!(!key_in_prefix(b"order:1", b"account:"));
    assert!(!key_in_prefix(b"acc", b"account:"));
    assert!(!key_in_prefix(b"", b"a"));
}

#[test]
fn account_handle_keeps_id() {
    assert_eq!(AccountHandle::new(42).id(), 42);
    assert_eq!(AccountHandle::new(-7).id(), -7);
}
