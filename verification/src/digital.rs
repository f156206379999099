//! Digital I/O
//!
//! A level is a `bool` throughout: `true` is high, `false` is low. What is
//! modelled of an output pin is the level it is *set to*, that is the level last
//! written, which need not be the level that can be measured on the wire.

use vstd::prelude::*;

pub mod toggleable;

verus! {

/// Single digital output pin
pub trait OutputPin {
    /// The level that the pin is set to: the one last written to it or, before
    /// the first write, the one it is taken to start from. Ghost: a pin need not
    /// be able to read it back.
    spec fn commanded_high(&self) -> bool;

    /// Whether `after` is a state that one write of the level `high` can take
    /// the pin to from `self`. Each implementation defines it, and so tells its
    /// callers what a write changes besides the level and what it leaves alone.
    spec fn commits(&self, high: bool, after: &Self) -> bool;

    /// Sets the pin low
    fn set_low(&mut self)
        ensures
            old(self).commits(false, final(self)),
            !final(self).commanded_high(),
    ;

    /// Sets the pin high
    fn set_high(&mut self)
        ensures
            old(self).commits(true, final(self)),
            final(self).commanded_high(),
    ;
}

/// Output pin that can read its output state
///
/// Both methods answer with the level that the pin is set to, not with a
/// measurement.
pub trait StatefulOutputPin: OutputPin {
    /// Is the pin set to high?
    fn is_set_high(&self) -> (high: bool)
        ensures
            high == self.commanded_high(),
    ;

    /// Is the pin set to low?
    fn is_set_low(&self) -> (low: bool)
        ensures
            low == !self.commanded_high(),
    ;
}

/// Whatever state a pin is in, exactly one of `is_set_high()` and
/// `is_set_low()` holds: the answers `high` and `low` that the two give on the
/// same pin always differ.
pub proof fn lemma_set_high_xor_set_low<P: StatefulOutputPin>(pin: &P, high: bool, low: bool)
    requires
        high == pin.commanded_high(),
        low == !pin.commanded_high(),
    ensures
        high != low,
{
}

/// Output pin that can be toggled
///
/// See [toggleable](toggleable) to use a software implementation if
/// both [OutputPin](trait.OutputPin.html) and
/// [StatefulOutputPin](trait.StatefulOutputPin.html) are
/// implemented. Otherwise, implement this using hardware mechanisms.
pub trait ToggleableOutputPin: OutputPin {
    /// Toggle pin output.
    fn toggle(&mut self)
        ensures
            final(self).commanded_high() == !old(self).commanded_high(),
    ;
}

/// Wraps an [OutputPin](trait.OutputPin.html) with a state cache to
/// make it a readable
/// [StatefulOutputPin](trait.StatefulOutputPin.html) and thus a
/// [ToggleableOutputPin](trait.ToggleableOutputPin.html).
///
/// The cache mirrors the writes that went through the wrapper, never the wire.
pub struct CachedOutputPin<P: OutputPin> {
    state: bool,
    pin: P,
}

impl<P: OutputPin> CachedOutputPin<P> {
    /// The wrapped pin.
    pub closed spec fn inner(self) -> P {
        self.pin
    }

    /// The wrapper around `pin` whose cache holds `state`.
    pub closed spec fn spec_new(pin: P, state: bool) -> Self {
        CachedOutputPin { pin, state }
    }

    /// Wrap an output pin of which the current state cannot be read
    /// by adding a cache field. An initial `state` must be provided: it is taken
    /// on trust, and nothing is written to the pin.
    #[verifier::when_used_as_spec(spec_new)]
    pub fn new(pin: P, state: bool) -> (cached: Self)
        ensures
            cached == Self::spec_new(pin, state),
            cached.inner() == pin,
            cached.commanded_high() == state,
    {
        CachedOutputPin { pin, state }
    }

    /// Unwrap into [OutputPin](trait.OutputPin.html). The cache is dropped and
    /// nothing is written to the pin.
    #[verifier::when_used_as_spec(inner)]
    pub fn into_inner(self) -> (pin: P)
        ensures
            pin == self.inner(),
    {
        self.pin
    }

    /// Wrapping a pin and unwrapping it again, with no write in between, gives
    /// back the very pin that went in, whatever level the cache was started at.
    pub proof fn lemma_new_into_inner(pin: P, state: bool)
        ensures
            Self::new(pin, state).into_inner() == pin,
            Self::new(pin, state).commanded_high() == state,
    {
    }

    /// After a write through the wrapper, whatever state it was in before, the
    /// wrapper is set to the level written and so is the wrapped pin: the answer
    /// `high` of `is_set_high()` is then that level, the answer `low` of
    /// `is_set_low()` its negation.
    pub proof fn lemma_write_reads_back(
        before: &Self,
        written: bool,
        after: &Self,
        high: bool,
        low: bool,
    )
        requires
            before.commits(written, after),
            high == after.commanded_high(),
            low == !after.commanded_high(),
        ensures
            high == written,
            low == !written,
            after.inner().commanded_high() == written,
    {
    }
}

/// Set output state and cache it
impl<P: OutputPin> OutputPin for CachedOutputPin<P> {
    /// The cached level.
    closed spec fn commanded_high(&self) -> bool {
        self.state
    }

    /// One write to the wrapper is one write of the same level to the wrapped
    /// pin, after which the cache holds that level.
    open spec fn commits(&self, high: bool, after: &Self) -> bool {
        &&& self.inner().commits(high, &after.inner())
        &&& after.inner().commanded_high() == high
        &&& after.commanded_high() == high
    }

    fn set_high(&mut self) {
        self.pin.set_high();
        self.state = true;
    }

    fn set_low(&mut self) {
        self.pin.set_low();
        self.state = false;
    }
}

/// Obtain cached state
impl<P: OutputPin> StatefulOutputPin for CachedOutputPin<P> {
    fn is_set_low(&self) -> (low: bool) {
        !self.state
    }

    fn is_set_high(&self) -> (high: bool) {
        self.state
    }
}

/// Toggleable by default
impl<P: OutputPin> toggleable::Default for CachedOutputPin<P> {
}

/// Single digital input pin
///
/// Each call is a fresh reading of the input, so no method's result is a
/// function of the pin's value and none carries a postcondition. A driver for a
/// two-state input answers `is_high()` and `is_low()` on one reading with
/// opposite values.
pub trait InputPin {
    /// Is the input pin high?
    fn is_high(&self) -> bool;

    /// Is the input pin low?
    fn is_low(&self) -> bool;
}

} // verus!
