use keyboard_core::keycode::Keycode;
use keyboard_core::mods::Mods;
use keyboard_core::mods::LEFT_CTRL;
use keyboard_core::mods::LEFT_SHIFT;
use keyboard_core::mods::RIGHT_ALT;
use keyboard_core::Error;

#[test]
fn round_trip_mod_tap() {
    let k = Keycode::ModTap(Mods { bits: LEFT_SHIFT | LEFT_CTRL }, String::from("A"));
    let wire = k.encode();
    assert_eq!(Keycode::decode(&wire), Ok(k));
}

#[test]
fn round_trip_layer_tap() {
    let k = Keycode::LayerTap(2, String::from("SPACE"));
    let wire = k.encode();
    assert_eq!(Keycode::decode(&wire), Ok(k));
}

#[test]
fn round_trip_basic() {
    let k = Keycode::Basic(Mods::empty(), String::from("ESC"));
    let wire = k.encode();
    assert_eq!(Keycode::decode(&wire), Ok(k));

    let held = Keycode::Basic(Mods { bits: RIGHT_ALT }, String::from("F1"));
    let wire = held.encode();
    assert_eq!(Keycode::decode(&wire), Ok(held));
}

#[test]
fn exact_wire_forms() {
    let mt = Keycode::ModTap(Mods { bits: LEFT_SHIFT }, String::from("A"));
    assert_eq!(mt.encode(), "M10000000A");

    let lt = Keycode::LayerTap(2, String::from("SPACE"));
    assert_eq!(lt.encode(), "L2SPACE");

    let basic = Keycode::Basic(Mods::empty(), String::from("A"));
    assert_eq!(basic.encode(), "B00000000A");

    let ralt = Keycode::ModTap(Mods { bits: RIGHT_ALT }, String::from("ENTER"));
    assert_eq!(ralt.encode(), "M00000001ENTER");
}

#[test]
fn round_trip_all_eight_modifiers() {
    let k = Keycode::ModTap(Mods { bits: 0xff }, String::from("A"));
    assert_eq!(k.encode(), "M11111111A");
    assert_eq!(Keycode::decode("M11111111A"), Ok(k));
}

#[test]
fn decode_rejects_empty_and_bad_tag() {
    assert_eq!(Keycode::decode(""), Err(Error::UnknownKeycode));
    assert_eq!(Keycode::decode("X10000000A"), Err(Error::UnknownKeycode));
}

#[test]
fn decode_rejects_short_wire() {
    assert_eq!(Keycode::decode("M1000"), Err(Error::UnknownKeycode));
    assert_eq!(Keycode::decode("B0000000"), Err(Error::UnknownKeycode));
    assert_eq!(Keycode::decode("L"), Err(Error::UnknownKeycode));
}

#[test]
fn decode_rejects_bad_bit_character() {
    assert_eq!(Keycode::decode("Mx0000000A"), Err(Error::UnknownKeycode));
    assert_eq!(Keycode::decode("B0000200xA"), Err(Error::UnknownKeycode));
}

#[test]
fn decode_rejects_empty_modifier_mod_tap() {
    assert_eq!(Keycode::decode("M00000000A"), Err(Error::UnknownKeycode));
}

#[test]
fn decode_rejects_bad_layer() {
    assert_eq!(Keycode::decode("L9A"), Err(Error::UnknownKeycode));
    assert_eq!(Keycode::decode("LxSPACE"), Err(Error::UnknownKeycode));
}

#[test]
fn decode_accepts_empty_modifier_basic() {
    assert_eq!(
        Keycode::decode("B00000000A"),
        Ok(Keycode::Basic(Mods::empty(), String::from("A")))
    );
}

#[test]
fn decode_accepts_every_layer_slot() {
    for layer in 0..4u8 {
        let k = Keycode::LayerTap(layer, String::from("TAB"));
        assert_eq!(Keycode::decode(&k.encode()), Ok(k));
    }
}
