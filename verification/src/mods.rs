//! A bit-set of the eight modifier keys, with the toggle and side
//! predicates the binding editor needs.

use vstd::prelude::*;

use crate::Error;

verus! {

/// Bit of the left shift key.
pub const LEFT_SHIFT: u8 = 0x01;
/// Bit of the left ctrl key.
pub const LEFT_CTRL: u8 = 0x02;
/// Bit of the left super key.
pub const LEFT_SUPER: u8 = 0x04;
/// Bit of the left alt key.
pub const LEFT_ALT: u8 = 0x08;
/// Bit of the right shift key.
pub const RIGHT_SHIFT: u8 = 0x10;
/// Bit of the right ctrl key.
pub const RIGHT_CTRL: u8 = 0x20;
/// Bit of the right super key.
pub const RIGHT_SUPER: u8 = 0x40;
/// Bit of the right alt key.
pub const RIGHT_ALT: u8 = 0x80;
/// Mask of every right-side modifier bit.
pub const RIGHT_SIDE: u8 = 0xf0;

/// A set of modifier keys, one bit per key.
///
/// The empty set is a valid value, distinct from every non-empty set.
#[derive(Clone, Copy, PartialEq, Eq, Structural, Debug)]
pub struct Mods {
    pub bits: u8,
}

impl Mods {
    /// True iff exactly one modifier bit is set.
    pub open spec fn is_single(self) -> bool {
        ||| self.bits == LEFT_SHIFT
        ||| self.bits == LEFT_CTRL
        ||| self.bits == LEFT_SUPER
        ||| self.bits == LEFT_ALT
        ||| self.bits == RIGHT_SHIFT
        ||| self.bits == RIGHT_CTRL
        ||| self.bits == RIGHT_SUPER
        ||| self.bits == RIGHT_ALT
    }

    pub open spec fn spec_is_empty(self) -> bool {
        self.bits == 0
    }

    pub open spec fn spec_contains(self, other: Mods) -> bool {
        self.bits & other.bits == other.bits
    }

    /// What `toggle` returns: clear the bit of `m` if it is set, else set it.
    pub open spec fn spec_toggle(self, m: Mods) -> Mods {
        if self.bits & m.bits != 0 {
            Mods { bits: self.bits & !m.bits }
        } else {
            Mods { bits: self.bits | m.bits }
        }
    }

    pub open spec fn spec_has_right_side(self) -> bool {
        self.bits & RIGHT_SIDE != 0
    }

    /// The set with no modifier held.
    pub fn empty() -> (r: Mods)
        ensures
            r.bits == 0,
    {
        Mods { bits: 0 }
    }

    pub fn is_empty(&self) -> (r: bool)
        ensures
            r == self.spec_is_empty(),
    {
        self.bits == 0
    }

    /// True iff every bit set in `other` is also set in `self`.
    pub fn contains(&self, other: Mods) -> (r: bool)
        ensures
            r == self.spec_contains(other),
    {
        self.bits & other.bits == other.bits
    }

    /// The set holding every modifier of `self` and of `other`.
    pub fn union(&self, other: Mods) -> (r: Mods)
        ensures
            r.bits == self.bits | other.bits,
    {
        Mods { bits: self.bits | other.bits }
    }

    /// Flip the single modifier `m` within this set: if `m` is already
    /// held, release it; otherwise add it.
    pub fn toggle(&self, m: Mods) -> (r: Mods)
        ensures
            r == self.spec_toggle(m),
    {
        if self.bits & m.bits != 0 {
            Mods { bits: self.bits & !m.bits }
        } else {
            Mods { bits: self.bits | m.bits }
        }
    }

    /// True iff any right-side modifier is held.
    pub fn has_right_side(&self) -> (r: bool)
        ensures
            r == self.spec_has_right_side(),
    {
        self.bits & RIGHT_SIDE != 0
    }

    /// Look a canonical modifier name up in the fixed table of eight.
    pub fn from_mod_str(name: &str) -> (r: Result<Mods, Error>)
        ensures
            match r {
                Ok(m) => spec_mod_of_name(name@) == Some(m.bits) && m.is_single(),
                Err(e) => spec_mod_of_name(name@) is None && e == Error::UnknownModifier,
            },
    {
        if name_is(name, "LEFT_SHIFT") {
            Ok(Mods { bits: LEFT_SHIFT })
        } else if name_is(name, "LEFT_CTRL") {
            Ok(Mods { bits: LEFT_CTRL })
        } else if name_is(name, "LEFT_SUPER") {
            Ok(Mods { bits: LEFT_SUPER })
        } else if name_is(name, "LEFT_ALT") {
            Ok(Mods { bits: LEFT_ALT })
        } else if name_is(name, "RIGHT_SHIFT") {
            Ok(Mods { bits: RIGHT_SHIFT })
        } else if name_is(name, "RIGHT_CTRL") {
            Ok(Mods { bits: RIGHT_CTRL })
        } else if name_is(name, "RIGHT_SUPER") {
            Ok(Mods { bits: RIGHT_SUPER })
        } else if name_is(name, "RIGHT_ALT") {
            Ok(Mods { bits: RIGHT_ALT })
        } else {
            Err(Error::UnknownModifier)
        }
    }
}

/// The single-bit value a canonical modifier name stands for, or `None`
/// for any name outside the fixed table.
pub open spec fn spec_mod_of_name(name: Seq<char>) -> Option<u8> {
    if name == "LEFT_SHIFT"@ {
        Some(LEFT_SHIFT)
    } else if name == "LEFT_CTRL"@ {
        Some(LEFT_CTRL)
    } else if name == "LEFT_SUPER"@ {
        Some(LEFT_SUPER)
    } else if name == "LEFT_ALT"@ {
        Some(LEFT_ALT)
    } else if name == "RIGHT_SHIFT"@ {
        Some(RIGHT_SHIFT)
    } else if name == "RIGHT_CTRL"@ {
        Some(RIGHT_CTRL)
    } else if name == "RIGHT_SUPER"@ {
        Some(RIGHT_SUPER)
    } else if name == "RIGHT_ALT"@ {
        Some(RIGHT_ALT)
    } else {
        None
    }
}

fn name_is(name: &str, lit: &str) -> (r: bool)
    ensures
        r == (name@ == lit@),
{
    let a = name.to_owned();
    let b = lit.to_owned();
    a == b
}

/// Toggling the same single modifier twice restores the starting set.
pub proof fn lemma_toggle_self_inverse(m: Mods, m1: Mods)
    requires
        m1.is_single(),
    ensures
        m.spec_toggle(m1).spec_toggle(m1) == m,
{
    let b = m.bits;
    let s = m1.bits;
    if b & s != 0 {
        assert((b & !s) & s == 0) by (bit_vector);
        assert(((b & !s) | s) == b) by (bit_vector)
            requires
                b & s != 0,
                s == 1 || s == 2 || s == 4 || s == 8 || s == 16 || s == 32 || s == 64 || s == 128,
        ;
    } else {
        assert((b | s) & s != 0) by (bit_vector)
            requires
                s == 1 || s == 2 || s == 4 || s == 8 || s == 16 || s == 32 || s == 64 || s == 128,
        ;
        assert(((b | s) & !s) == b) by (bit_vector)
            requires
                b & s == 0,
        ;
    }
}

} // verus!
