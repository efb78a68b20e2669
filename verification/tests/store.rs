use pipewire::proxies::{ListenerHandle, Proxies, ProxyHandle};

fn handle(id: u32, slot: u64) -> ProxyHandle {
    ProxyHandle { id, slot }
}

fn listener(token: u64) -> ListenerHandle {
    ListenerHandle { token }
}

#[test]
fn store_starts_empty() {
    let s = Proxies::new();
    assert_eq!(s.len(), 0);
    assert!(!s.contains(0));
    assert!(!s.contains(7));
}

#[test]
fn add_makes_entry_visible() {
    let mut s = Proxies::new();
    s.add_proxy_t(handle(7, 100), listener(1));
    assert_eq!(s.len(), 1);
    assert!(s.contains(7));
    assert!(!s.contains(8));
}

#[test]
fn add_listener_extends_live_entry() {
    let mut s = Proxies::new();
    s.add_proxy_t(handle(7, 100), listener(1));
    assert!(s.add_proxy_listener(7, listener(2)));
    assert_eq!(s.len(), 1);
}

#[test]
fn add_listener_without_entry_is_refused() {
    let mut s = Proxies::new();
    s.add_proxy_t(handle(7, 100), listener(1));
    assert!(!s.add_proxy_listener(9, listener(2)));
    assert_eq!(s.len(), 1);
}

#[test]
fn remove_returns_listeners_before_proxy() {
    let mut s = Proxies::new();
    s.add_proxy_t(handle(7, 100), listener(1));
    s.add_proxy_listener(7, listener(2));
    let entry = s.remove(7).expect("entry should be present");
    assert_eq!(entry.proxy.id, 7);
    assert_eq!(entry.proxy.slot, 100);
    assert_eq!(entry.listeners.len(), 2);
    assert_eq!(entry.listeners[0].token, 1);
    assert_eq!(entry.listeners[1].token, 2);
    assert!(!s.contains(7));
    assert_eq!(s.len(), 0);
}

#[test]
fn remove_absent_id_is_noop() {
    let mut s = Proxies::new();
    s.add_proxy_t(handle(7, 100), listener(1));
    assert!(s.remove(8).is_none());
    assert_eq!(s.len(), 1);
    assert!(s.contains(7));
}

#[test]
fn remove_after_remove_is_noop() {
    let mut s = Proxies::new();
    s.add_proxy_t(handle(7, 100), listener(1));
    s.add_proxy_t(handle(9, 101), listener(2));
    assert!(s.remove(7).is_some());
    assert!(s.remove(7).is_none());
    assert_eq!(s.len(), 1);
    assert!(s.contains(9));
    assert!(!s.contains(7));
}

#[test]
fn removal_keeps_other_entries() {
    let mut s = Proxies::new();
    s.add_proxy_t(handle(1, 10), listener(1));
    s.add_proxy_t(handle(2, 20), listener(2));
    s.add_proxy_t(handle(3, 30), listener(3));
    let entry = s.remove(2).expect("middle entry should be present");
    assert_eq!(entry.proxy.slot, 20);
    assert_eq!(s.len(), 2);
    assert!(s.contains(1));
    assert!(!s.contains(2));
    assert!(s.contains(3));
}
