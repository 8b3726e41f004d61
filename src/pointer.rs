//! The button set of pointer events.
use vstd::prelude::*;
use vstd::std_specs::convert::FromSpec;

verus! {

/// Bit of the primary mouse button.
pub const MOUSE_PRIMARY: i64 = 1;
/// Bit of the secondary mouse button.
pub const MOUSE_SECONDARY: i64 = 2;
/// Bit of the middle mouse button.
pub const MOUSE_MIDDLE: i64 = 4;
/// Bit of the back mouse button.
pub const MOUSE_BACK: i64 = 8;
/// Bit of the forward mouse button.
pub const MOUSE_FORWARD: i64 = 16;
/// Bit of a touch contact.
pub const TOUCH_CONTACT: i64 = 1;
/// Bit of a stylus contact.
pub const STYLUS_CONTACT: i64 = 1;
/// Bit of the primary stylus button.
pub const STYLUS_PRIMARY: i64 = 2;
/// Bit of the secondary stylus button.
pub const STYLUS_SECONDARY: i64 = 4;

/// The buttons that are held down during a pointer event, one bit each.
///
/// The same bit means different buttons on different devices: bit 0 is the
/// primary mouse button, a touch contact and a stylus contact.
#[derive(Debug, Clone, Copy, PartialEq, Eq, Hash, Structural)]
pub struct PointerButtons(pub i64);

impl PointerButtons {
    /// The bits of the set, as the engine reads them.
    pub open spec fn bits(self) -> i64 {
        self.0
    }

    /// Whether every button of `buttons` is held in this set.
    pub open spec fn holds(self, buttons: PointerButtons) -> bool {
        self.0 & buttons.0 == buttons.0
    }

    /// The set with no button held.
    pub fn empty() -> (r: PointerButtons)
        ensures
            r.bits() == 0,
    {
        PointerButtons(0)
    }

    /// Whether no button is held.
    pub fn is_empty(&self) -> (r: bool)
        ensures
            r == (self.bits() == 0),
    {
        self.0 == 0
    }

    /// Adds the buttons of `button` to the set.
    pub fn press(&mut self, button: PointerButtons)
        ensures
            final(self).bits() == old(self).bits() | button.bits(),
    {
        self.0 = self.0 | button.0;
    }

    /// Takes the buttons of `button` out of the set.
    pub fn release(&mut self, button: PointerButtons)
        ensures
            final(self).bits() == old(self).bits() & !button.bits(),
    {
        self.0 = self.0 & !button.0;
    }

    /// Once pressed, the buttons are held, and the others keep their state.
    pub proof fn lemma_press_holds(set: PointerButtons, button: PointerButtons)
        ensures
            PointerButtons(set.0 | button.0).holds(button),
            PointerButtons(set.0 | button.0).holds(set),
    {
        let (a, b) = (set.0, button.0);
        assert((a | b) & b == b) by (bit_vector);
        assert((a | b) & a == a) by (bit_vector);
    }

    /// Pressing and then releasing the same buttons leaves the set as if
    /// they had only been released.
    pub proof fn lemma_press_release(set: PointerButtons, button: PointerButtons)
        ensures
            (set.0 | button.0) & !button.0 == set.0 & !button.0,
            (set.0 & !button.0) & button.0 == 0,
    {
        let (a, b) = (set.0, button.0);
        assert((a | b) & !b == a & !b) by (bit_vector);
        assert((a & !b) & b == 0) by (bit_vector);
    }

    /// The bits travel to the engine and back unchanged.
    pub proof fn lemma_bits_round_trip(bits: i64)
        ensures
            <i64 as FromSpec<PointerButtons>>::from_spec(
                <PointerButtons as FromSpec<i64>>::from_spec(bits),
            ) == bits,
    {
    }
}

impl From<i64> for PointerButtons {
    fn from(bits: i64) -> (r: PointerButtons) {
        PointerButtons(bits)
    }
}

impl vstd::std_specs::convert::FromSpecImpl<i64> for PointerButtons {
    open spec fn obeys_from_spec() -> bool {
        true
    }

    open spec fn from_spec(bits: i64) -> PointerButtons {
        PointerButtons(bits)
    }
}

impl From<PointerButtons> for i64 {
    fn from(buttons: PointerButtons) -> (r: i64) {
        buttons.0
    }
}

impl vstd::std_specs::convert::FromSpecImpl<PointerButtons> for i64 {
    open spec fn obeys_from_spec() -> bool {
        true
    }

    open spec fn from_spec(buttons: PointerButtons) -> i64 {
        buttons.0
    }
}

} // verus!
