//! If you can read **and** write the output state, a pin is
//! toggleable by software.
//!
//! A type that implements both `OutputPin` and `StatefulOutputPin` opts in with
//! an empty `impl toggleable::Default for ..` and has `toggle()` from then on:
//! a pin that reads as set low is set high, any other is set low.
//!
//! ```ignore
//! /// A virtual output pin that exists purely in software
//! struct MyPin {
//!     state: bool,
//! }
//!
//! impl OutputPin for MyPin {
//!     closed spec fn commanded_high(&self) -> bool {
//!         self.state
//!     }
//!
//!     closed spec fn commits(&self, high: bool, after: &Self) -> bool {
//!         after.state == high
//!     }
//!
//!     fn set_low(&mut self) {
//!         self.state = false;
//!     }
//!
//!     fn set_high(&mut self) {
//!         self.state = true;
//!     }
//! }
//!
//! impl StatefulOutputPin for MyPin {
//!     fn is_set_low(&self) -> (low: bool) {
//!         !self.state
//!     }
//!
//!     fn is_set_high(&self) -> (high: bool) {
//!         self.state
//!     }
//! }
//!
//! /// Opt-in to the software implementation.
//! impl toggleable::Default for MyPin {}
//!
//! let mut pin = MyPin { state: false };
//! pin.toggle();
//! assert(pin.state);
//! pin.toggle();
//! assert(!pin.state);
//! ```

use crate::digital::{OutputPin, StatefulOutputPin, ToggleableOutputPin};
use vstd::prelude::*;

verus! {

/// Software-driven `toggle()` implementation.
pub trait Default: OutputPin + StatefulOutputPin {
}

/// Whether `after` is a state that the software toggle can take `before` to:
/// one write, of the level opposite to the one `before` is set to.
pub open spec fn toggles<P: Default>(before: &P, after: &P) -> bool {
    &&& before.commits(!before.commanded_high(), after)
    &&& after.commanded_high() == !before.commanded_high()
}

impl<P> ToggleableOutputPin for P where P: Default {
    /// Toggle pin output
    fn toggle(&mut self)
        ensures
            toggles(old(self), final(self)),
    {
        if self.is_set_low() {
            self.set_high();
        } else {
            self.set_low();
        }
    }
}

/// Toggling flips the level and toggling twice restores it, from any state: a
/// pin set low is set high after one toggle and low again after the second, and
/// the same with the levels exchanged.
pub proof fn lemma_toggle_twice<P: Default>(start: &P, once: &P, twice: &P)
    requires
        toggles(start, once),
        toggles(once, twice),
    ensures
        once.commanded_high() == !start.commanded_high(),
        twice.commanded_high() == start.commanded_high(),
        !start.commanded_high() ==> once.commanded_high() && !twice.commanded_high(),
{
}

} // verus!
