//! Core logic for configuring a keyboard's firmware key bindings and
//! backlight: a modifier bit-set, a firmware keycode with its wire codec,
//! the tap-hold selection state machine, and an in-memory model of the
//! board-control daemon.

use vstd::prelude::*;

pub mod daemon;
pub mod hold_state;
pub mod keycode;
pub mod mods;

verus! {

/// The ways an operation of this library can fail.
#[derive(Clone, Copy, PartialEq, Eq, Structural, Debug)]
pub enum Error {
    /// A modifier name outside the fixed set of eight canonical names.
    UnknownModifier,
    /// A wire value that is not the encoding of any legal binding.
    UnknownKeycode,
    /// No control channel to the boards could be established.
    DaemonUnavailable,
    /// A board handle that does not address an enumerated board.
    UnknownBoard,
    /// A brightness value or layer index outside the board's bounds.
    InvalidRange,
    /// The control channel dropped during an operation. Raised only at the
    /// transport boundary; the in-memory daemon model never produces it.
    TransportError,
}

} // verus!
