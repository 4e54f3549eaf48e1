//! Firmware key bindings and their wire codec.
//!
//! A binding is either a plain key, a hold-for-modifier tap binding, or a
//! hold-for-layer tap binding. The wire form is a character string: a tag
//! character, then the hold action (eight bit characters for a modifier
//! set, one digit for a layer slot), then the tap key name. Decoding
//! rejects every string that is not the encoding of a legal binding.

use vstd::prelude::*;

use crate::mods::Mods;
use crate::Error;

verus! {

/// Number of layer slots the firmware exposes.
pub const LAYER_COUNT: u8 = 4;

/// A firmware key binding. The tap key name is an opaque firmware
/// identifier; equality is structural.
#[derive(Clone, PartialEq, Eq, Debug)]
pub enum Keycode {
    /// An ordinary key with optional held modifiers.
    Basic(Mods, String),
    /// Hold for the modifiers, tap for the key. Only meaningful with a
    /// non-empty modifier set.
    ModTap(Mods, String),
    /// Hold to activate the layer, tap for the key.
    LayerTap(u8, String),
}

/// Mathematical model of a binding: the tap key as a character sequence.
pub enum KeycodeView {
    Basic(Mods, Seq<char>),
    ModTap(Mods, Seq<char>),
    LayerTap(u8, Seq<char>),
}

impl KeycodeView {
    /// A binding the firmware accepts: a modifier-tap binding holds at
    /// least one modifier, and a layer-tap binding names an existing
    /// layer slot.
    pub open spec fn wf(self) -> bool {
        match self {
            KeycodeView::Basic(_, _) => true,
            KeycodeView::ModTap(m, _) => m.bits != 0,
            KeycodeView::LayerTap(l, _) => l < LAYER_COUNT,
        }
    }
}

impl View for Keycode {
    type V = KeycodeView;

    open spec fn view(&self) -> KeycodeView {
        match self {
            Keycode::Basic(m, k) => KeycodeView::Basic(*m, k@),
            Keycode::ModTap(m, k) => KeycodeView::ModTap(*m, k@),
            Keycode::LayerTap(l, k) => KeycodeView::LayerTap(*l, k@),
        }
    }
}

impl DeepView for Keycode {
    type V = KeycodeView;

    open spec fn deep_view(&self) -> KeycodeView {
        self.view()
    }
}

/// The character standing for one masked-out modifier bit.
pub open spec fn bchar(masked: u8) -> char {
    if masked != 0 {
        '1'
    } else {
        '0'
    }
}

/// The eight bit characters of a modifier set, lowest bit first.
pub open spec fn bits_seq(bits: u8) -> Seq<char> {
    seq![
        bchar(bits & 0x01),
        bchar(bits & 0x02),
        bchar(bits & 0x04),
        bchar(bits & 0x08),
        bchar(bits & 0x10),
        bchar(bits & 0x20),
        bchar(bits & 0x40),
        bchar(bits & 0x80),
    ]
}

/// The contribution of one bit character to a modifier set.
pub open spec fn bit_contrib(c: char, mask: u8) -> u8 {
    if c == '1' {
        mask
    } else {
        0
    }
}

/// The modifier set read back from the bit characters of a wire string
/// (positions 1 through 8).
pub open spec fn wire_bits(w: Seq<char>) -> u8 {
    bit_contrib(w[1], 0x01) | bit_contrib(w[2], 0x02) | bit_contrib(w[3], 0x04) | bit_contrib(
        w[4],
        0x08,
    ) | bit_contrib(w[5], 0x10) | bit_contrib(w[6], 0x20) | bit_contrib(w[7], 0x40) | bit_contrib(
        w[8],
        0x80,
    )
}

/// The digit standing for a layer slot.
pub open spec fn layer_char(l: u8) -> char {
    if l == 0 {
        '0'
    } else if l == 1 {
        '1'
    } else if l == 2 {
        '2'
    } else {
        '3'
    }
}

pub open spec fn is_layer_char(c: char) -> bool {
    c == '0' || c == '1' || c == '2' || c == '3'
}

/// The layer slot a digit stands for.
pub open spec fn layer_of_char(c: char) -> u8 {
    if c == '0' {
        0
    } else if c == '1' {
        1
    } else if c == '2' {
        2
    } else {
        3
    }
}

/// The wire form of a binding.
pub open spec fn spec_encode(kc: KeycodeView) -> Seq<char> {
    match kc {
        KeycodeView::Basic(m, key) => seq!['B'] + bits_seq(m.bits) + key,
        KeycodeView::ModTap(m, key) => seq!['M'] + bits_seq(m.bits) + key,
        KeycodeView::LayerTap(l, key) => seq!['L', layer_char(l)] + key,
    }
}

/// The wire strings that decode accepts: exactly the encodings of legal
/// bindings.
pub open spec fn wire_ok(w: Seq<char>) -> bool {
    if w.len() < 1 {
        false
    } else if w[0] == 'B' || w[0] == 'M' {
        &&& w.len() >= 9
        &&& (forall|i: int| 1 <= i < 9 ==> w[i] == '0' || w[i] == '1')
        &&& (w[0] == 'M' ==> wire_bits(w) != 0)
    } else if w[0] == 'L' {
        w.len() >= 2 && is_layer_char(w[1])
    } else {
        false
    }
}

/// The binding a well-formed wire string stands for.
pub open spec fn spec_decode(w: Seq<char>) -> KeycodeView
    recommends
        wire_ok(w),
{
    if w[0] == 'B' {
        KeycodeView::Basic(Mods { bits: wire_bits(w) }, w.subrange(9, w.len() as int))
    } else if w[0] == 'M' {
        KeycodeView::ModTap(Mods { bits: wire_bits(w) }, w.subrange(9, w.len() as int))
    } else {
        KeycodeView::LayerTap(layer_of_char(w[1]), w.subrange(2, w.len() as int))
    }
}

/// The one-character string of a layer digit.
fn layer_str(l: u8) -> (r: &'static str)
    requires
        l < LAYER_COUNT,
    ensures
        r@ == seq![layer_char(l)],
{
    proof {
        reveal_strlit("0");
        reveal_strlit("1");
        reveal_strlit("2");
        reveal_strlit("3");
    }
    let r = if l == 0 {
        "0"
    } else if l == 1 {
        "1"
    } else if l == 2 {
        "2"
    } else {
        "3"
    };
    proof {
        assert(r@ =~= seq![layer_char(l)]);
    }
    r
}

/// Append the bit character of one masked-out modifier bit.
fn append_bit(s: &mut String, masked: u8)
    ensures
        final(s)@ == old(s)@ + seq![bchar(masked)],
{
    proof {
        reveal_strlit("0");
        reveal_strlit("1");
    }
    if masked != 0 {
        s.append("1");
        proof {
            assert(s@ =~= old(s)@ + seq![bchar(masked)]);
        }
    } else {
        s.append("0");
        proof {
            assert(s@ =~= old(s)@ + seq![bchar(masked)]);
        }
    }
}

/// Append the eight bit characters of a modifier set, lowest bit first.
fn append_bits(s: &mut String, bits: u8)
    ensures
        final(s)@ == old(s)@ + bits_seq(bits),
{
    append_bit(s, bits & 0x01);
    append_bit(s, bits & 0x02);
    append_bit(s, bits & 0x04);
    append_bit(s, bits & 0x08);
    append_bit(s, bits & 0x10);
    append_bit(s, bits & 0x20);
    append_bit(s, bits & 0x40);
    append_bit(s, bits & 0x80);
    proof {
        assert(s@ =~= old(s)@ + bits_seq(bits));
    }
}

impl Keycode {
    /// Encode this binding into its firmware wire form.
    pub fn encode(&self) -> (r: String)
        requires
            self@.wf(),
        ensures
            r@ == spec_encode(self@),
    {
        match self {
            Keycode::Basic(m, key) => {
                proof {
                    reveal_strlit("B");
                }
                let mut s = String::from_str("B");
                proof {
                    assert(s@ =~= seq!['B']);
                }
                append_bits(&mut s, m.bits);
                s.append(key.as_str());
                proof {
                    assert(s@ =~= spec_encode(self@));
                }
                s
            }
            Keycode::ModTap(m, key) => {
                proof {
                    reveal_strlit("M");
                }
                let mut s = String::from_str("M");
                proof {
                    assert(s@ =~= seq!['M']);
                }
                append_bits(&mut s, m.bits);
                s.append(key.as_str());
                proof {
                    assert(s@ =~= spec_encode(self@));
                }
                s
            }
            Keycode::LayerTap(l, key) => {
                proof {
                    reveal_strlit("L");
                }
                let mut s = String::from_str("L");
                proof {
                    assert(s@ =~= seq!['L']);
                }
                s.append(layer_str(*l));
                s.append(key.as_str());
                proof {
                    assert(s@ =~= spec_encode(self@));
                }
                s
            }
        }
    }

    /// Decode a firmware wire value. Succeeds on exactly the well-formed
    /// wire strings; anything else is rejected as an unknown keycode.
    pub fn decode(w: &str) -> (r: Result<Keycode, Error>)
        ensures
            wire_ok(w@) ==> (r matches Ok(k) && k@ == spec_decode(w@) && k@.wf()),
            !wire_ok(w@) ==> r == Err::<Keycode, Error>(Error::UnknownKeycode),
    {
        let n = w.unicode_len();
        if n == 0 {
            return Err(Error::UnknownKeycode);
        }
        let tag = w.get_char(0);
        if tag == 'B' || tag == 'M' {
            if n < 9 {
                return Err(Error::UnknownKeycode);
            }
            let c1 = w.get_char(1);
            let c2 = w.get_char(2);
            let c3 = w.get_char(3);
            let c4 = w.get_char(4);
            let c5 = w.get_char(5);
            let c6 = w.get_char(6);
            let c7 = w.get_char(7);
            let c8 = w.get_char(8);
            if !((c1 == '0' || c1 == '1') && (c2 == '0' || c2 == '1') && (c3 == '0' || c3 == '1')
                && (c4 == '0' || c4 == '1') && (c5 == '0' || c5 == '1') && (c6 == '0' || c6 == '1')
                && (c7 == '0' || c7 == '1') && (c8 == '0' || c8 == '1')) {
                return Err(Error::UnknownKeycode);
            }
            let v1: u8 = if c1 == '1' {
                0x01
            } else {
                0
            };
            let v2: u8 = if c2 == '1' {
                0x02
            } else {
                0
            };
            let v3: u8 = if c3 == '1' {
                0x04
            } else {
                0
            };
            let v4: u8 = if c4 == '1' {
                0x08
            } else {
                0
            };
            let v5: u8 = if c5 == '1' {
                0x10
            } else {
                0
            };
            let v6: u8 = if c6 == '1' {
                0x20
            } else {
                0
            };
            let v7: u8 = if c7 == '1' {
                0x40
            } else {
                0
            };
            let v8: u8 = if c8 == '1' {
                0x80
            } else {
                0
            };
            let bits: u8 = v1 | v2 | v3 | v4 | v5 | v6 | v7 | v8;
            proof {
                assert(bits == wire_bits(w@));
            }
            let key = w.substring_char(9, n).to_owned();
            if tag == 'M' {
                if bits == 0 {
                    return Err(Error::UnknownKeycode);
                }
                Ok(Keycode::ModTap(Mods { bits }, key))
            } else {
                Ok(Keycode::Basic(Mods { bits }, key))
            }
        } else if tag == 'L' {
            if n < 2 {
                return Err(Error::UnknownKeycode);
            }
            let c = w.get_char(1);
            let layer: u8 = if c == '0' {
                0
            } else if c == '1' {
                1
            } else if c == '2' {
                2
            } else if c == '3' {
                3
            } else {
                return Err(Error::UnknownKeycode);
            };
            let key = w.substring_char(2, n).to_owned();
            Ok(Keycode::LayerTap(layer, key))
        } else {
            Err(Error::UnknownKeycode)
        }
    }
}

/// Decoding inverts encoding: every legal binding round-trips exactly
/// through its wire form.
pub proof fn lemma_decode_encode(kc: KeycodeView)
    requires
        kc.wf(),
    ensures
        wire_ok(spec_encode(kc)),
        spec_decode(spec_encode(kc)) == kc,
{
    let w = spec_encode(kc);
    match kc {
        KeycodeView::Basic(m, key) => {
            assert(forall|i: int| 1 <= i < 9 ==> w[i] == bits_seq(m.bits)[i - 1]);
            lemma_wire_bits_of_bits_seq(m.bits, w);
            assert(w.subrange(9, w.len() as int) =~= key);
        }
        KeycodeView::ModTap(m, key) => {
            assert(forall|i: int| 1 <= i < 9 ==> w[i] == bits_seq(m.bits)[i - 1]);
            lemma_wire_bits_of_bits_seq(m.bits, w);
            assert(w.subrange(9, w.len() as int) =~= key);
        }
        KeycodeView::LayerTap(l, key) => {
            assert(w[0] == 'L');
            assert(w[1] == layer_char(l));
            assert(w.subrange(2, w.len() as int) =~= key);
        }
    }
}

/// Encoding inverts decoding: a well-formed wire string is exactly the
/// encoding of the binding it stands for.
pub proof fn lemma_encode_decode(w: Seq<char>)
    requires
        wire_ok(w),
    ensures
        spec_decode(w).wf(),
        spec_encode(spec_decode(w)) == w,
{
    if w[0] == 'B' || w[0] == 'M' {
        let b = wire_bits(w);
        lemma_bits_seq_of_wire_bits(w);
        assert(spec_encode(spec_decode(w)) =~= w);
    } else {
        assert(spec_encode(spec_decode(w)) =~= w);
    }
}

/// Reading the bit characters of an encoded modifier set gives the set
/// back.
proof fn lemma_wire_bits_of_bits_seq(b: u8, w: Seq<char>)
    requires
        w.len() >= 9,
        forall|i: int| 1 <= i < 9 ==> w[i] == bits_seq(b)[i - 1],
    ensures
        wire_bits(w) == b,
{
    assert(b & 0x01 == 0 || b & 0x01 == 0x01) by (bit_vector);
    assert(b & 0x02 == 0 || b & 0x02 == 0x02) by (bit_vector);
    assert(b & 0x04 == 0 || b & 0x04 == 0x04) by (bit_vector);
    assert(b & 0x08 == 0 || b & 0x08 == 0x08) by (bit_vector);
    assert(b & 0x10 == 0 || b & 0x10 == 0x10) by (bit_vector);
    assert(b & 0x20 == 0 || b & 0x20 == 0x20) by (bit_vector);
    assert(b & 0x40 == 0 || b & 0x40 == 0x40) by (bit_vector);
    assert(b & 0x80 == 0 || b & 0x80 == 0x80) by (bit_vector);
    assert(bit_contrib(w[1], 0x01) == (b & 0x01));
    assert(bit_contrib(w[2], 0x02) == (b & 0x02));
    assert(bit_contrib(w[3], 0x04) == (b & 0x04));
    assert(bit_contrib(w[4], 0x08) == (b & 0x08));
    assert(bit_contrib(w[5], 0x10) == (b & 0x10));
    assert(bit_contrib(w[6], 0x20) == (b & 0x20));
    assert(bit_contrib(w[7], 0x40) == (b & 0x40));
    assert(bit_contrib(w[8], 0x80) == (b & 0x80));
    assert((b & 0x01) | (b & 0x02) | (b & 0x04) | (b & 0x08) | (b & 0x10) | (b & 0x20) | (b & 0x40)
        | (b & 0x80) == b) by (bit_vector);
}

/// Re-encoding the modifier set read from a wire string reproduces its
/// bit characters.
proof fn lemma_bits_seq_of_wire_bits(w: Seq<char>)
    requires
        w.len() >= 9,
        forall|i: int| 1 <= i < 9 ==> w[i] == '0' || w[i] == '1',
    ensures
        forall|i: int| 1 <= i < 9 ==> bits_seq(wire_bits(w))[i - 1] == w[i],
{
    let t1 = bit_contrib(w[1], 0x01);
    let t2 = bit_contrib(w[2], 0x02);
    let t3 = bit_contrib(w[3], 0x04);
    let t4 = bit_contrib(w[4], 0x08);
    let t5 = bit_contrib(w[5], 0x10);
    let t6 = bit_contrib(w[6], 0x20);
    let t7 = bit_contrib(w[7], 0x40);
    let t8 = bit_contrib(w[8], 0x80);
    let b = wire_bits(w);
    assert(b == t1 | t2 | t3 | t4 | t5 | t6 | t7 | t8);
    assert((t1 | t2 | t3 | t4 | t5 | t6 | t7 | t8) & 0x01 == t1 && (t1 | t2 | t3 | t4 | t5 | t6
        | t7 | t8) & 0x02 == t2 && (t1 | t2 | t3 | t4 | t5 | t6 | t7 | t8) & 0x04 == t3 && (t1 | t2
        | t3 | t4 | t5 | t6 | t7 | t8) & 0x08 == t4 && (t1 | t2 | t3 | t4 | t5 | t6 | t7 | t8)
        & 0x10 == t5 && (t1 | t2 | t3 | t4 | t5 | t6 | t7 | t8) & 0x20 == t6 && (t1 | t2 | t3 | t4
        | t5 | t6 | t7 | t8) & 0x40 == t7 && (t1 | t2 | t3 | t4 | t5 | t6 | t7 | t8) & 0x80 == t8)
        by (bit_vector)
        requires
            (t1 == 0 || t1 == 0x01) && (t2 == 0 || t2 == 0x02) && (t3 == 0 || t3 == 0x04) && (t4
                == 0 || t4 == 0x08) && (t5 == 0 || t5 == 0x10) && (t6 == 0 || t6 == 0x20) && (t7
                == 0 || t7 == 0x40) && (t8 == 0 || t8 == 0x80),
    ;
    assert(bits_seq(b)[0] == bchar(b & 0x01) && bits_seq(b)[1] == bchar(b & 0x02) && bits_seq(b)[2]
        == bchar(b & 0x04) && bits_seq(b)[3] == bchar(b & 0x08) && bits_seq(b)[4] == bchar(b & 0x10)
        && bits_seq(b)[5] == bchar(b & 0x20) && bits_seq(b)[6] == bchar(b & 0x40) && bits_seq(b)[7]
        == bchar(b & 0x80));
}

} // verus!
