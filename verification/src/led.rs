//! The user LED (LD2, on pin PA5): whether it is on, and the level that its
//! push-pull output pin is driven to.
use vstd::prelude::*;

verus! {

/// The output stage of a push-pull pin: whether it drives the pin high.
#[derive(Debug, PartialEq, Eq, Structural, Copy, Clone)]
pub struct PushPullPin {
    pub is_high: bool,
}

impl PushPullPin {
    /// A pin driven high where `is_high` holds, low otherwise.
    pub fn new(is_high: bool) -> (p: PushPullPin)
        ensures
            p.is_high == is_high,
    {
        PushPullPin { is_high }
    }

    /// Drives the pin high.
    pub fn set_high(&mut self)
        ensures
            final(self).is_high,
    {
        self.is_high = true;
    }

    /// Drives the pin low.
    pub fn set_low(&mut self)
        ensures
            !final(self).is_high,
    {
        self.is_high = false;
    }
}

/// An LED that can be switched on and off.
pub trait LED {
    /// Whether the LED is on.
    spec fn lit(&self) -> bool;

    fn turn_on(&mut self)
        ensures
            final(self).lit(),
    ;

    fn turn_off(&mut self)
        ensures
            !final(self).lit(),
    ;

    fn blinky(&mut self)
        ensures
            final(self).lit() == !old(self).lit(),
    ;
}

/// The user LED LD2, driven by pin PA5.
#[derive(Debug, PartialEq, Eq, Structural, Copy, Clone)]
pub struct LED2 {
    pin: PushPullPin,
    is_turn_on: bool,
}

impl LED2 {
    /// The LED driven by `pin`, taken as off; the pin is left as it is.
    pub fn new(pin: PushPullPin) -> (led: Self)
        ensures
            led.pin() == pin,
            !led.is_on(),
    {
        Self { pin, is_turn_on: false }
    }

    /// The pin that drives the LED.
    pub closed spec fn pin(self) -> PushPullPin {
        self.pin
    }

    /// Whether the LED is taken to be on.
    pub closed spec fn is_on(self) -> bool {
        self.is_turn_on
    }

    /// The LED once switched to `on`, with its pin driven accordingly.
    pub closed spec fn switched(self, on: bool) -> LED2 {
        LED2 { pin: PushPullPin { is_high: on }, is_turn_on: on }
    }

    /// Whether the pin is driven as the LED's state says.
    pub open spec fn pin_agrees(self) -> bool {
        self.pin().is_high == self.is_on()
    }

    /// Whether the LED is on.
    pub fn is_turn_on(&self) -> (b: bool)
        ensures
            b == self.is_on(),
    {
        self.is_turn_on
    }

    /// Whether the pin is driven high.
    pub fn pin_is_high(&self) -> (b: bool)
        ensures
            b == self.pin().is_high,
    {
        self.pin.is_high
    }
}

impl LED for LED2 {
    open spec fn lit(&self) -> bool {
        self.is_on()
    }

    fn turn_on(&mut self)
        ensures
            *final(self) == old(self).switched(true),
            final(self).is_on(),
            final(self).pin().is_high,
    {
        self.is_turn_on = true;
        self.pin.set_high();
    }

    fn turn_off(&mut self)
        ensures
            *final(self) == old(self).switched(false),
            !final(self).is_on(),
            !final(self).pin().is_high,
    {
        self.is_turn_on = false;
        self.pin.set_low();
    }

    fn blinky(&mut self)
        ensures
            *final(self) == old(self).switched(!old(self).is_on()),
            final(self).is_on() == !old(self).is_on(),
            final(self).pin().is_high == final(self).is_on(),
    {
        self.is_turn_on = !self.is_turn_on;
        if self.is_turn_on == true {
            self.pin.set_high();
        } else {
            self.pin.set_low();
        }
    }
}

/// Law of the LED: after any switching the pin is driven as the LED's state
/// says, switching depends only on the state asked for, and the state read
/// back is the one asked for.
pub proof fn lemma_switched(led: LED2, other: LED2, on: bool)
    ensures
        led.switched(on).pin_agrees(),
        led.switched(on).is_on() == on,
        led.switched(on) == other.switched(on),
        led.switched(on).switched(on) == led.switched(on),
{
}

/// Law of `blinky`: blinking twice gives back the LED as it was, pin
/// included, where its pin agreed with its state.
pub proof fn lemma_blinky_twice(led: LED2)
    requires
        led.pin_agrees(),
    ensures
        led.switched(!led.is_on()).switched(!led.switched(!led.is_on()).is_on()) == led,
{
}

/// Law of `new`: a new LED is off and its pin is left as it was given; its
/// pin agrees with its state only where the pin was low.
pub proof fn lemma_new_led(pin: PushPullPin, led: LED2)
    requires
        led.pin() == pin,
        !led.is_on(),
    ensures
        led.pin_agrees() <==> !pin.is_high,
{
}

} // verus!
