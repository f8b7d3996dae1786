use node_web_audio_api::registry::ListenerRegistry;

#[test]
fn new_registry_is_empty() {
    let reg: ListenerRegistry<String> = ListenerRegistry::new();
    assert_eq!(reg.len(), 0);
}

#[test]
fn register_records_the_handle() {
    let mut reg: ListenerRegistry<String> = ListenerRegistry::new();
    let id = reg.register(String::from("statechange"));
    assert_eq!(reg.len(), 1);
    assert!(reg.contains(id));
}

#[test]
fn release_returns_the_registered_handle() {
    let mut reg: ListenerRegistry<String> = ListenerRegistry::new();
    let id_a = reg.register(String::from("statechange"));
    let id_b = reg.register(String::from("sinkchange"));
    let got = reg.release(id_a);
    assert_eq!(got, Some(String::from("statechange")));
    assert_eq!(reg.len(), 1);
    assert!(!reg.contains(id_a));
    assert!(reg.contains(id_b));
}

#[test]
fn get_borrows_the_handle_without_removing_it() {
    let mut reg: ListenerRegistry<String> = ListenerRegistry::new();
    let id = reg.register(String::from("statechange"));
    assert_eq!(reg.get(id), Some(&String::from("statechange")));
    assert_eq!(reg.len(), 1);
    assert_eq!(reg.get(id.wrapping_add(1)), None);
}

#[test]
fn release_of_unknown_id_changes_nothing() {
    let mut reg: ListenerRegistry<String> = ListenerRegistry::new();
    let id = reg.register(String::from("statechange"));
    let unknown = id.wrapping_add(1);
    assert_eq!(reg.release(unknown), None);
    assert_eq!(reg.len(), 1);
    assert!(reg.contains(id));
}

#[test]
fn release_all_hands_back_every_handle_in_order() {
    let mut reg: ListenerRegistry<String> = ListenerRegistry::new();
    reg.register(String::from("first"));
    reg.register(String::from("second"));
    reg.register(String::from("third"));
    let handles = reg.release_all();
    assert_eq!(
        handles,
        vec![
            String::from("first"),
            String::from("second"),
            String::from("third"),
        ]
    );
    assert_eq!(reg.len(), 0);
}

#[test]
fn a_second_registration_appends_or_replaces() {
    // the contract promises an appended entry under a fresh identifier and a
    // replaced one under a colliding identifier, never anything else
    let mut reg: ListenerRegistry<u64> = ListenerRegistry::new();
    let id_a = reg.register(1);
    let id_b = reg.register(2);
    if id_a == id_b {
        assert_eq!(reg.len(), 1);
        assert_eq!(reg.get(id_b), Some(&2));
    } else {
        assert_eq!(reg.len(), 2);
        assert_eq!(reg.get(id_a), Some(&1));
        assert_eq!(reg.get(id_b), Some(&2));
    }
}
