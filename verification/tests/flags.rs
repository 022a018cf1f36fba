use cocoa_bridge::flags::{contains, to_category_mask, to_mask, to_mask_any, EventMask, EventModifierFlag};

#[test]
fn each_flag_has_its_fixed_pattern() {
    assert_eq!(to_mask(EventModifierFlag::CapsLock), 1 << 16);
    assert_eq!(to_mask(EventModifierFlag::Control), 1 << 18);
    assert_eq!(to_mask(EventModifierFlag::Option), 1 << 19);
    assert_eq!(to_mask(EventModifierFlag::Command), 1 << 20);
    assert_eq!(to_mask(EventModifierFlag::DeviceIndependentFlagsMask), 0xffff0000);
}

#[test]
fn conversion_by_value_and_by_reference_agree() {
    let flags = [
        EventModifierFlag::CapsLock,
        EventModifierFlag::Control,
        EventModifierFlag::Option,
        EventModifierFlag::Command,
        EventModifierFlag::DeviceIndependentFlagsMask,
    ];
    for flag in flags.iter() {
        assert_eq!(u64::from(flag), u64::from(*flag));
        assert_eq!(u64::from(flag), to_mask(*flag));
    }
    assert_eq!(u64::from(&EventModifierFlag::Command), 0x100000);
}

#[test]
fn key_down_category_is_bit_ten() {
    assert_eq!(to_category_mask(EventMask::KeyDown), 1024);
}

#[test]
fn mask_of_two_flags_is_the_or_of_their_masks() {
    let both = to_mask_any(&[EventModifierFlag::CapsLock, EventModifierFlag::Control]);
    assert_eq!(
        both,
        to_mask(EventModifierFlag::CapsLock) | to_mask(EventModifierFlag::Control)
    );
    assert_eq!(both, 0x50000);
}

#[test]
fn mask_of_no_flags_is_zero() {
    assert_eq!(to_mask_any(&[]), 0);
}

#[test]
fn mask_of_repeated_flags_is_the_mask_of_one() {
    let twice = to_mask_any(&[EventModifierFlag::Option, EventModifierFlag::Option]);
    assert_eq!(twice, to_mask(EventModifierFlag::Option));
}

#[test]
fn mask_of_a_set_contains_its_members() {
    let mask = to_mask_any(&[EventModifierFlag::Control, EventModifierFlag::Command]);
    assert!(contains(mask, EventModifierFlag::Command));
    assert!(contains(mask, EventModifierFlag::Control));
    assert!(!contains(mask, EventModifierFlag::CapsLock));
    assert!(!contains(mask, EventModifierFlag::Option));
}

#[test]
fn mask_of_one_key_does_not_contain_another() {
    assert!(!contains(to_mask(EventModifierFlag::CapsLock), EventModifierFlag::Control));
    assert!(contains(to_mask(EventModifierFlag::CapsLock), EventModifierFlag::CapsLock));
}

#[test]
fn union_flag_contains_every_flag_and_no_key_contains_it() {
    let union = to_mask(EventModifierFlag::DeviceIndependentFlagsMask);
    assert!(contains(union, EventModifierFlag::CapsLock));
    assert!(contains(union, EventModifierFlag::Control));
    assert!(contains(union, EventModifierFlag::Option));
    assert!(contains(union, EventModifierFlag::Command));
    assert!(contains(union, EventModifierFlag::DeviceIndependentFlagsMask));
    let keys = to_mask_any(&[
        EventModifierFlag::CapsLock,
        EventModifierFlag::Control,
        EventModifierFlag::Option,
        EventModifierFlag::Command,
    ]);
    assert_eq!(keys, 0x1d0000);
    assert!(!contains(keys, EventModifierFlag::DeviceIndependentFlagsMask));
    assert!(!contains(0, EventModifierFlag::CapsLock));
}
