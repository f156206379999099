use embedded_hal::digital::toggleable;
use embedded_hal::digital::{OutputPin, StatefulOutputPin, ToggleableOutputPin};

/// A virtual output pin that exists purely in software
#[derive(Debug, Clone, Copy, PartialEq)]
struct MyPin {
    state: bool,
}

impl OutputPin for MyPin {
    fn commanded_high(&self) -> bool {
        self.state
    }

    fn commits(&self, high: bool, after: &Self) -> bool {
        after.state == high
    }

    fn set_low(&mut self) {
        self.state = false;
    }

    fn set_high(&mut self) {
        self.state = true;
    }
}

impl StatefulOutputPin for MyPin {
    fn is_set_low(&self) -> bool {
        !self.state
    }

    fn is_set_high(&self) -> bool {
        self.state
    }
}

/// Opt-in to the software implementation.
impl toggleable::Default for MyPin {}

/// A pin with a toggle of its own, which counts how often it was used.
struct HardwareToggle {
    high: bool,
    toggles: u32,
}

impl OutputPin for HardwareToggle {
    fn commanded_high(&self) -> bool {
        self.high
    }

    fn commits(&self, high: bool, after: &Self) -> bool {
        after.high == high && after.toggles == self.toggles
    }

    fn set_low(&mut self) {
        self.high = false;
    }

    fn set_high(&mut self) {
        self.high = true;
    }
}

impl ToggleableOutputPin for HardwareToggle {
    fn toggle(&mut self) {
        self.high = !self.high;
        self.toggles += 1;
    }
}

fn flip_twice<T: ToggleableOutputPin>(pin: &mut T) {
    pin.toggle();
    pin.toggle();
}

#[test]
fn toggle_from_low_goes_high_then_low() {
    let mut pin = MyPin { state: false };
    pin.toggle();
    assert!(pin.is_set_high());
    assert!(!pin.is_set_low());
    pin.toggle();
    assert!(pin.is_set_low());
    assert!(!pin.is_set_high());
}

#[test]
fn toggle_from_high_goes_low_then_high() {
    let mut pin = MyPin { state: true };
    pin.toggle();
    assert!(pin.is_set_low());
    assert!(!pin.is_set_high());
    pin.toggle();
    assert!(pin.is_set_high());
    assert!(!pin.is_set_low());
}

#[test]
fn double_toggle_restores_any_start() {
    for &start in [false, true].iter() {
        let mut pin = MyPin { state: start };
        flip_twice(&mut pin);
        assert_eq!(pin, MyPin { state: start });
    }
}

#[test]
fn toggle_after_a_write_flips_what_was_written() {
    let mut pin = MyPin { state: false };
    pin.set_high();
    pin.toggle();
    assert!(pin.is_set_low());
    pin.set_low();
    pin.toggle();
    assert!(pin.is_set_high());
}

#[test]
fn set_and_read_back_agree() {
    let mut pin = MyPin { state: false };
    pin.set_high();
    assert!(pin.is_set_high());
    assert_ne!(pin.is_set_high(), pin.is_set_low());
    pin.set_low();
    assert!(pin.is_set_low());
    assert_ne!(pin.is_set_high(), pin.is_set_low());
}

#[test]
fn a_pin_may_bring_its_own_toggle() {
    let mut pin = HardwareToggle { high: false, toggles: 0 };
    pin.toggle();
    assert!(pin.high);
    flip_twice(&mut pin);
    assert!(pin.high);
    assert_eq!(pin.toggles, 3);
    pin.set_low();
    assert!(!pin.high);
    assert_eq!(pin.toggles, 3);
}
