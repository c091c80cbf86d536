use bifrost_core::value::Value;

#[test]
fn string_value_set_and_get() {
    let original = String::from("The stored text");
    let altered = String::from("The altered text");
    let mut v = Value::new_by_name(&String::from("test"), original.clone());
    assert_eq!(v.get(), original);
    assert_eq!(v.set(altered.clone()), None);
    assert_eq!(v.get(), altered);
}

#[test]
fn set_with_callback_notifies_once() {
    let mut v = Value::new(3, 10u64);
    v.init_callback();
    assert_eq!(v.set(11), Some((10, 11)));
    assert_eq!(v.get(), 11);
    assert_eq!(v.set(12), Some((11, 12)));
    assert_eq!(v.get(), 12);
    assert_eq!(v.id(), 3);
}

#[test]
fn id_by_name_is_stable() {
    let a = Value::new_by_name(&String::from("test"), 0u8);
    let b = Value::new_by_name(&String::from("test"), 1u8);
    let c = Value::new_by_name(&String::from("other"), 0u8);
    assert_eq!(a.id(), b.id());
    assert_ne!(a.id(), c.id());
}

#[test]
fn recover_replaces_without_notification() {
    let mut v = Value::new(8, 1i32);
    v.init_callback();
    v.recover(-5);
    assert_eq!(v.get(), -5);
    assert_eq!(v.set(6), Some((-5, 6)));
}
