use pwnotify::registry::{RegistryError, Subscriptions};

type Reg = Subscriptions<String, u32, i64>;

#[test]
fn register_then_remove_hands_everything_back() {
    let mut reg: Reg = Subscriptions::new();
    reg.register(5, "proxy-5".to_string());
    assert!(reg.contains(5));
    assert_eq!(reg.len(), 1);
    assert!(reg.add_listener(5, 100).is_ok());
    assert!(reg.add_listener(5, 101).is_ok());
    assert!(reg.on_remove(5, -1).is_ok());
    assert!(reg.on_remove(5, -2).is_ok());

    let rm = reg.remove(5).unwrap();
    assert_eq!(rm.proxy, "proxy-5");
    // registration order is kept for both lists
    assert_eq!(rm.listeners, vec![100, 101]);
    assert_eq!(rm.disposers, vec![-1, -2]);
    assert!(!reg.contains(5));
    assert_eq!(reg.len(), 0);
}

#[test]
fn register_is_idempotent() {
    let mut reg: Reg = Subscriptions::new();
    reg.register(5, "first".to_string());
    assert!(reg.add_listener(5, 1).is_ok());
    reg.register(5, "second".to_string());
    let rm = reg.remove(5).unwrap();
    // the original record stayed; the second proxy was dropped
    assert_eq!(rm.proxy, "first");
    assert_eq!(rm.listeners, vec![1]);
}

#[test]
fn listener_needs_a_registered_object() {
    let mut reg: Reg = Subscriptions::new();
    assert_eq!(
        reg.add_listener(9, 1),
        Err(RegistryError::UnregisteredObject(9))
    );
    assert_eq!(reg.on_remove(9, -1), Err(RegistryError::UnregisteredObject(9)));
    assert_eq!(reg.len(), 0);
}

#[test]
fn remove_of_unknown_id_is_a_no_op() {
    let mut reg: Reg = Subscriptions::new();
    reg.register(1, "one".to_string());
    assert!(reg.remove(2).is_none());
    assert!(reg.contains(1));
    assert_eq!(reg.len(), 1);
}

#[test]
fn clear_drops_listeners_and_callbacks_but_keeps_objects() {
    let mut reg: Reg = Subscriptions::new();
    reg.register(1, "one".to_string());
    reg.register(2, "two".to_string());
    assert!(reg.add_listener(1, 10).is_ok());
    assert!(reg.on_remove(2, -5).is_ok());

    reg.clear();

    assert_eq!(reg.len(), 2);
    assert!(reg.contains(1));
    assert!(reg.contains(2));
    let r1 = reg.remove(1).unwrap();
    assert_eq!(r1.proxy, "one");
    assert!(r1.listeners.is_empty());
    assert!(r1.disposers.is_empty());
    let r2 = reg.remove(2).unwrap();
    assert_eq!(r2.proxy, "two");
    assert!(r2.listeners.is_empty());
    assert!(r2.disposers.is_empty());
}

#[test]
fn records_are_kept_per_id() {
    let mut reg: Reg = Subscriptions::new();
    reg.register(1, "one".to_string());
    reg.register(2, "two".to_string());
    assert!(reg.add_listener(1, 10).is_ok());
    assert!(reg.add_listener(2, 20).is_ok());
    let r2 = reg.remove(2).unwrap();
    assert_eq!(r2.proxy, "two");
    assert_eq!(r2.listeners, vec![20]);
    assert!(reg.contains(1));
    let r1 = reg.remove(1).unwrap();
    assert_eq!(r1.listeners, vec![10]);
}
