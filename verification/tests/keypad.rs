use interp::{first_held, is_held, KEY_COUNT};

#[test]
fn no_key_held_finds_none() {
    let keys = [false; 16];
    assert_eq!(first_held(&keys), None);
    for value in 0..=255u8 {
        assert!(!is_held(&keys, value));
    }
    assert_eq!(KEY_COUNT, 16);
}

#[test]
fn lowest_held_key_is_found() {
    let mut keys = [false; 16];
    keys[15] = true;
    assert_eq!(first_held(&keys), Some(15));
    keys[7] = true;
    assert_eq!(first_held(&keys), Some(7));
    keys[0] = true;
    assert_eq!(first_held(&keys), Some(0));
}

#[test]
fn held_key_is_reported_for_its_number() {
    let mut keys = [false; 16];
    keys[9] = true;
    assert!(is_held(&keys, 9));
    assert!(!is_held(&keys, 8));
    assert!(is_held(&keys, 0x19));
    assert!(is_held(&keys, 0xF9));
    assert!(!is_held(&keys, 0x90));
}
