use pipewire_wrapper::listeners::Listeners;

#[test]
fn listeners_add_remove_contains() {
    let mut listeners: Listeners<u32> = Listeners::new();
    let a = listeners.add(10);
    let b = listeners.add(20);
    assert_eq!(a, 0);
    assert_eq!(b, 1);
    assert!(listeners.contains(a));
    assert!(listeners.contains(b));
    assert!(!listeners.contains(2));
    assert_eq!(listeners.remove(a), Some(10));
    assert!(!listeners.contains(a));
    assert_eq!(listeners.remove(a), None);
    assert_eq!(listeners.remove(7), None);
    let c = listeners.add(30);
    assert_eq!(c, 2);
}
