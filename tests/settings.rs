use particle_trails::settings::RuntimeSettings;

#[test]
fn function_keys_toggle_their_bit() {
    let mut s = RuntimeSettings::new();
    s.toggle_function_key(1);
    assert_eq!(s.f, 1);
    s.toggle_function_key(12);
    assert_eq!(s.f, 1 | 1 << 11);
    s.toggle_function_key(1);
    assert_eq!(s.f, 1 << 11);
    assert!(s.is_set(11));
    assert!(!s.is_set(0));
}

#[test]
fn other_keys_change_nothing() {
    let mut s = RuntimeSettings { f: 7 };
    s.toggle_function_key(0);
    s.toggle_function_key(13);
    s.toggle_function_key(u32::MAX);
    assert_eq!(s, RuntimeSettings { f: 7 });
}
