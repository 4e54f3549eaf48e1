//! The tap-hold selection state machine: tracks the in-progress choice of
//! a hold action (a modifier combination or a layer) and a tap key, derives
//! the binding to emit, and derives which options stay selectable.
//!
//! The states are implicit in the field values: the state is *empty* when
//! the hold is the empty modifier set and no tap key is chosen, *hold-only*
//! while a tap key is missing, and *complete* once a non-empty hold action
//! and a tap key are both chosen. Only a complete state emits a binding;
//! every transition returns the binding it emits, or nothing.

use vstd::prelude::*;

use crate::keycode::lemma_decode_encode;
use crate::keycode::spec_decode;
use crate::keycode::spec_encode;
use crate::keycode::wire_ok;
use crate::keycode::Keycode;
use crate::keycode::KeycodeView;
use crate::keycode::LAYER_COUNT;
use crate::mods::Mods;

verus! {

/// The chosen hold action: a modifier combination or a layer slot.
#[derive(Clone, Copy, PartialEq, Eq, Structural, Debug)]
pub enum Hold {
    Mods(Mods),
    Layer(u8),
}

/// True iff the hold action is the empty modifier set, the one hold value
/// that expresses "nothing chosen".
pub open spec fn hold_is_empty(h: Hold) -> bool {
    h == Hold::Mods(Mods { bits: 0 })
}

/// Mathematical model of a selection in progress.
pub struct HoldStateView {
    pub hold: Hold,
    pub keycode: Option<Seq<char>>,
    pub shift: bool,
}

impl HoldStateView {
    /// A layer hold always names an existing layer slot.
    pub open spec fn inv(self) -> bool {
        match self.hold {
            Hold::Mods(_) => true,
            Hold::Layer(l) => l < LAYER_COUNT,
        }
    }

    /// Nothing chosen yet.
    pub open spec fn is_empty_state(self) -> bool {
        hold_is_empty(self.hold) && self.keycode is None
    }

    /// A hold action alone is incomplete and must not reach the firmware.
    pub open spec fn is_hold_only(self) -> bool {
        !hold_is_empty(self.hold) && self.keycode is None
    }

    /// A non-empty hold action and a tap key: a binding is derived.
    pub open spec fn is_complete(self) -> bool {
        !hold_is_empty(self.hold) && self.keycode is Some
    }

    /// The binding this state stands for, if it is complete. An empty
    /// modifier hold next to a chosen tap key derives nothing: the
    /// non-empty check happens here, at emission, not at assignment.
    pub open spec fn derived(self) -> Option<KeycodeView> {
        match (self.hold, self.keycode) {
            (Hold::Mods(m), Some(k)) => if m.bits != 0 {
                Some(KeycodeView::ModTap(m, k))
            } else {
                None
            },
            (Hold::Layer(l), Some(k)) => Some(KeycodeView::LayerTap(l, k)),
            _ => None,
        }
    }

    /// The state a previously stored binding loads into: a modifier-tap or
    /// layer-tap binding decomposes into its hold action and tap key; a
    /// plain key has no hold action in this editor and resets the
    /// selection. The shift context is kept.
    pub open spec fn loaded(kc: KeycodeView, shift: bool) -> HoldStateView {
        match kc {
            KeycodeView::Basic(_, _) => HoldStateView {
                hold: Hold::Mods(Mods { bits: 0 }),
                keycode: None,
                shift,
            },
            KeycodeView::ModTap(m, k) => HoldStateView {
                hold: Hold::Mods(m),
                keycode: Some(k),
                shift,
            },
            KeycodeView::LayerTap(l, k) => HoldStateView {
                hold: Hold::Layer(l),
                keycode: Some(k),
                shift,
            },
        }
    }

    /// The hold a modifier click produces: with `combine` set and a
    /// modifier hold in place the click toggles its modifier within the
    /// combination; any other click replaces the whole hold.
    pub open spec fn toggled_hold(self, m: Mods, combine: bool) -> Hold {
        match self.hold {
            Hold::Mods(existing) => if combine {
                Hold::Mods(existing.spec_toggle(m))
            } else {
                Hold::Mods(m)
            },
            Hold::Layer(_) => Hold::Mods(m),
        }
    }
}

/// Layer options stay selectable unless the shift context is set and some
/// hold action is already chosen.
pub open spec fn layer_options_enabled_spec(s: HoldStateView) -> bool {
    !(s.shift && !hold_is_empty(s.hold))
}

/// A modifier option stays selectable outside the shift context; within
/// it, a layer hold disables every modifier, and a modifier hold admits
/// only options on its own side.
pub open spec fn modifier_option_enabled_spec(s: HoldStateView, option: Mods) -> bool {
    if !s.shift {
        true
    } else {
        match s.hold {
            Hold::Layer(_) => false,
            Hold::Mods(m) => m.bits == 0 || (option.spec_has_right_side()
                == m.spec_has_right_side()),
        }
    }
}

/// The tap picker is selectable once a hold action is chosen; within the
/// shift context only until a tap key is committed.
pub open spec fn tap_picker_enabled_spec(s: HoldStateView) -> bool {
    !hold_is_empty(s.hold) && (s.shift ==> s.keycode is None)
}

/// One key-binding-edit session's selection in progress.
pub struct HoldState {
    hold: Hold,
    keycode: Option<String>,
    shift: bool,
}

impl View for HoldState {
    type V = HoldStateView;

    closed spec fn view(&self) -> HoldStateView {
        HoldStateView { hold: self.hold, keycode: self.keycode.deep_view(), shift: self.shift }
    }
}

impl HoldState {
    /// A fresh session: empty hold, no tap key, shift context off.
    pub fn new() -> (r: HoldState)
        ensures
            r@.is_empty_state(),
            !r@.shift,
            r@.inv(),
    {
        HoldState { hold: Hold::Mods(Mods { bits: 0 }), keycode: None, shift: false }
    }

    /// The current hold action.
    pub fn current_hold(&self) -> (r: Hold)
        ensures
            r == self@.hold,
    {
        self.hold
    }

    /// The chosen tap key, if one is chosen.
    pub fn chosen_tap(&self) -> (r: Option<&String>)
        ensures
            r.deep_view() == self@.keycode,
    {
        self.keycode.as_ref()
    }

    /// The external shift-context flag.
    pub fn shift_context(&self) -> (r: bool)
        ensures
            r == self@.shift,
    {
        self.shift
    }

    /// The binding the current state stands for, if it is complete.
    pub fn derive_current(&self) -> (r: Option<Keycode>)
        requires
            self@.inv(),
        ensures
            r.deep_view() == self@.derived(),
            r matches Some(k) ==> k@.wf(),
    {
        match &self.hold {
            Hold::Mods(m) => {
                if m.bits != 0 {
                    match &self.keycode {
                        Some(k) => Some(Keycode::ModTap(*m, k.clone())),
                        None => None,
                    }
                } else {
                    None
                }
            }
            Hold::Layer(l) => {
                match &self.keycode {
                    Some(k) => Some(Keycode::LayerTap(*l, k.clone())),
                    None => None,
                }
            }
        }
    }

    /// Choose the tap key. Returns the binding emitted, if the state is
    /// now complete.
    pub fn choose_tap(&mut self, key: String) -> (r: Option<Keycode>)
        requires
            old(self)@.inv(),
        ensures
            final(self)@.inv(),
            final(self)@.hold == old(self)@.hold,
            final(self)@.shift == old(self)@.shift,
            final(self)@.keycode == Some(key@),
            r.deep_view() == final(self)@.derived(),
    {
        self.keycode = Some(key);
        self.derive_current()
    }

    /// Click the single modifier `m`: with `combine` set and a modifier
    /// hold in place, toggle it within the combination; otherwise replace
    /// the hold with `m` alone. Returns the binding emitted, if the state
    /// is now complete.
    pub fn toggle_modifier(&mut self, m: Mods, combine: bool) -> (r: Option<Keycode>)
        requires
            old(self)@.inv(),
            m.is_single(),
        ensures
            final(self)@.inv(),
            final(self)@.hold == old(self)@.toggled_hold(m, combine),
            final(self)@.shift == old(self)@.shift,
            final(self)@.keycode == old(self)@.keycode,
            r.deep_view() == final(self)@.derived(),
    {
        let new_hold = match self.hold {
            Hold::Mods(existing) => if combine {
                Hold::Mods(existing.toggle(m))
            } else {
                Hold::Mods(m)
            },
            Hold::Layer(_) => Hold::Mods(m),
        };
        self.hold = new_hold;
        self.derive_current()
    }

    /// Choose the layer slot `n` as the hold action. Returns the binding
    /// emitted, if the state is now complete: re-selecting the same layer
    /// with a tap key already chosen re-emits the same binding.
    pub fn choose_layer(&mut self, n: u8) -> (r: Option<Keycode>)
        requires
            old(self)@.inv(),
            n < LAYER_COUNT,
        ensures
            final(self)@.inv(),
            final(self)@.hold == Hold::Layer(n),
            final(self)@.shift == old(self)@.shift,
            final(self)@.keycode == old(self)@.keycode,
            r.deep_view() == final(self)@.derived(),
    {
        self.hold = Hold::Layer(n);
        self.derive_current()
    }

    /// Update the external shift-context flag alone; the hold and tap
    /// choices are untouched and nothing is emitted.
    pub fn set_shift_context(&mut self, shift: bool)
        requires
            old(self)@.inv(),
        ensures
            final(self)@.inv(),
            final(self)@.hold == old(self)@.hold,
            final(self)@.keycode == old(self)@.keycode,
            final(self)@.shift == shift,
    {
        self.shift = shift;
    }

    /// Seed the session from a previously stored binding, without
    /// emitting: the binding decomposes into its hold action and tap key;
    /// a plain key resets the selection.
    pub fn load(&mut self, existing: &Keycode)
        requires
            old(self)@.inv(),
            existing@.wf(),
        ensures
            final(self)@.inv(),
            final(self)@ == HoldStateView::loaded(existing@, old(self)@.shift),
    {
        match existing {
            Keycode::Basic(_, _) => {
                self.hold = Hold::Mods(Mods { bits: 0 });
                self.keycode = None;
            }
            Keycode::ModTap(m, k) => {
                self.hold = Hold::Mods(*m);
                self.keycode = Some(k.clone());
            }
            Keycode::LayerTap(l, k) => {
                self.hold = Hold::Layer(*l);
                self.keycode = Some(k.clone());
            }
        }
    }

    /// Whether the layer options are currently selectable.
    pub fn layer_options_enabled(&self) -> (r: bool)
        ensures
            r == layer_options_enabled_spec(self@),
    {
        if self.shift {
            match self.hold {
                Hold::Mods(m) => m.bits == 0,
                Hold::Layer(_) => false,
            }
        } else {
            true
        }
    }

    /// Whether the single modifier option `option` is currently
    /// selectable.
    pub fn modifier_option_enabled(&self, option: Mods) -> (r: bool)
        requires
            option.is_single(),
        ensures
            r == modifier_option_enabled_spec(self@, option),
    {
        if self.shift {
            match self.hold {
                Hold::Layer(_) => false,
                Hold::Mods(m) => m.bits == 0 || (option.has_right_side() == m.has_right_side()),
            }
        } else {
            true
        }
    }

    /// Whether the tap-key picker is currently selectable.
    pub fn tap_picker_enabled(&self) -> (r: bool)
        ensures
            r == tap_picker_enabled_spec(self@),
    {
        let hold_empty = match self.hold {
            Hold::Mods(m) => m.bits == 0,
            Hold::Layer(_) => false,
        };
        if self.shift {
            !hold_empty && self.keycode.is_none()
        } else {
            !hold_empty
        }
    }
}

/// Loading a stored modifier-tap binding yields a complete state that
/// derives exactly that binding again.
pub proof fn lemma_load_mod_tap_round_trip(mods: Mods, key: Seq<char>, shift: bool)
    requires
        mods.bits != 0,
    ensures
        HoldStateView::loaded(KeycodeView::ModTap(mods, key), shift).is_complete(),
        HoldStateView::loaded(KeycodeView::ModTap(mods, key), shift).derived() == Some(
            KeycodeView::ModTap(mods, key),
        ),
{
}

/// Every binding a valid selection state derives is well formed and
/// round-trips exactly through the firmware's wire encoding.
pub proof fn lemma_emitted_binding_round_trips(s: HoldStateView, kc: KeycodeView)
    requires
        s.inv(),
        s.derived() == Some(kc),
    ensures
        kc.wf(),
        wire_ok(spec_encode(kc)),
        spec_decode(spec_encode(kc)) == kc,
{
    lemma_decode_encode(kc);
}

/// Loading a stored plain-key binding resets the selection: the state is
/// empty and derives nothing, so no binding is emitted.
pub proof fn lemma_load_basic_resets(mods: Mods, key: Seq<char>, shift: bool)
    ensures
        HoldStateView::loaded(KeycodeView::Basic(mods, key), shift).is_empty_state(),
        HoldStateView::loaded(KeycodeView::Basic(mods, key), shift).derived() is None,
{
}

} // verus!
