use keyboard_core::mods::Mods;
use keyboard_core::mods::LEFT_ALT;
use keyboard_core::mods::LEFT_CTRL;
use keyboard_core::mods::LEFT_SHIFT;
use keyboard_core::mods::LEFT_SUPER;
use keyboard_core::mods::RIGHT_ALT;
use keyboard_core::mods::RIGHT_CTRL;
use keyboard_core::mods::RIGHT_SHIFT;
use keyboard_core::mods::RIGHT_SUPER;
use keyboard_core::Error;

#[test]
fn toggle_adds_then_removes() {
    let m = Mods { bits: LEFT_SHIFT | LEFT_CTRL };
    let single = Mods { bits: RIGHT_ALT };
    let once = m.toggle(single);
    assert_eq!(once.bits, LEFT_SHIFT | LEFT_CTRL | RIGHT_ALT);
    let twice = once.toggle(single);
    assert_eq!(twice, m);
}

#[test]
fn toggle_self_inverse_on_held_bit() {
    let m = Mods { bits: LEFT_SHIFT | LEFT_ALT };
    let single = Mods { bits: LEFT_ALT };
    let once = m.toggle(single);
    assert_eq!(once.bits, LEFT_SHIFT);
    assert_eq!(once.toggle(single), m);
}

#[test]
fn empty_contains_union() {
    let e = Mods::empty();
    assert!(e.is_empty());
    let m = e.union(Mods { bits: LEFT_SHIFT });
    assert!(!m.is_empty());
    assert!(m.contains(Mods { bits: LEFT_SHIFT }));
    assert!(!m.contains(Mods { bits: LEFT_CTRL }));
    let u = m.union(Mods { bits: RIGHT_CTRL });
    assert!(u.contains(m));
    assert!(u.contains(Mods { bits: RIGHT_CTRL }));
}

#[test]
fn side_predicate() {
    assert!(!Mods { bits: LEFT_SHIFT | LEFT_SUPER }.has_right_side());
    assert!(Mods { bits: LEFT_SHIFT | RIGHT_SHIFT }.has_right_side());
    assert!(Mods { bits: RIGHT_SUPER }.has_right_side());
    assert!(!Mods::empty().has_right_side());
}

#[test]
fn parse_all_eight_names() {
    let cases = [
        ("LEFT_SHIFT", LEFT_SHIFT),
        ("LEFT_CTRL", LEFT_CTRL),
        ("LEFT_SUPER", LEFT_SUPER),
        ("LEFT_ALT", LEFT_ALT),
        ("RIGHT_SHIFT", RIGHT_SHIFT),
        ("RIGHT_CTRL", RIGHT_CTRL),
        ("RIGHT_SUPER", RIGHT_SUPER),
        ("RIGHT_ALT", RIGHT_ALT),
    ];
    for (name, bits) in cases {
        assert_eq!(Mods::from_mod_str(name), Ok(Mods { bits }));
    }
}

#[test]
fn parse_rejects_unknown_name() {
    assert_eq!(Mods::from_mod_str("HYPER"), Err(Error::UnknownModifier));
    assert_eq!(Mods::from_mod_str(""), Err(Error::UnknownModifier));
    assert_eq!(Mods::from_mod_str("left_shift"), Err(Error::UnknownModifier));
}
