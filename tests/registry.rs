use kanjilab_server::registry::ClientRegistry;

#[test]
fn add_client_refuses_known_id() {
    let mut reg = ClientRegistry::new();
    assert!(reg.add_client("a", "Alice", "k1"));
    assert!(!reg.add_client("a", "Alice again", "k2"));
    assert_eq!(reg.len(), 1);
    let c = reg.get_client("a").unwrap();
    assert_eq!(c.name, "Alice");
    assert_eq!(c.key, "k1");
    assert!(!c.is_admin);
}

#[test]
fn make_admin_moves_admin_flag() {
    let mut reg = ClientRegistry::new();
    assert!(reg.add_client("a", "Alice", "k1"));
    assert!(reg.add_client("b", "Bob", "k2"));
    assert_eq!(reg.get_admin_id(), None);
    assert!(!reg.make_admin("zzz"));
    assert_eq!(reg.get_admin_id(), None);
    assert!(reg.make_admin("a"));
    assert_eq!(reg.get_admin_id(), Some("a".to_string()));
    assert!(reg.make_admin("b"));
    assert_eq!(reg.get_admin_id(), Some("b".to_string()));
    assert!(!reg.get_client("a").unwrap().is_admin);
    assert!(reg.is_admin("b"));
    assert!(!reg.is_admin("a"));
}

#[test]
fn remove_client_removes_one_entry() {
    let mut reg = ClientRegistry::new();
    assert!(reg.add_client("a", "Alice", "k1"));
    assert!(reg.add_client("b", "Bob", "k2"));
    assert!(reg.add_client("c", "Carol", "k3"));
    reg.remove_client("b");
    let list = reg.get_client_list();
    let ids: Vec<&str> = list.iter().map(|c| c.id.as_str()).collect();
    assert_eq!(ids, vec!["a", "c"]);
    reg.remove_client("b");
    assert_eq!(reg.len(), 2);
    assert!(!reg.contains("b"));
    assert!(reg.get_client("b").is_none());
}
