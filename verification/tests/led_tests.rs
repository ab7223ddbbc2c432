use nucleo_rust::led::{PushPullPin, LED, LED2};

#[test]
fn new_led_is_off_and_keeps_pin() {
    let led = LED2::new(PushPullPin::new(true));
    assert!(!led.is_turn_on());
    assert!(led.pin_is_high());
    let led = LED2::new(PushPullPin::new(false));
    assert!(!led.is_turn_on());
    assert!(!led.pin_is_high());
}

#[test]
fn turn_on_and_off_drive_the_pin() {
    let mut led = LED2::new(PushPullPin::new(false));
    led.turn_on();
    assert!(led.is_turn_on());
    assert!(led.pin_is_high());
    led.turn_on();
    assert!(led.is_turn_on());
    led.turn_off();
    assert!(!led.is_turn_on());
    assert!(!led.pin_is_high());
}

#[test]
fn blinky_toggles() {
    let mut led = LED2::new(PushPullPin::new(true));
    led.blinky();
    assert!(led.is_turn_on());
    assert!(led.pin_is_high());
    led.blinky();
    assert!(!led.is_turn_on());
    assert!(!led.pin_is_high());
}

#[test]
fn blinky_twice_gives_back_the_led() {
    let mut led = LED2::new(PushPullPin::new(false));
    let before = led;
    led.blinky();
    led.blinky();
    assert_eq!(led, before);
}

#[test]
fn pin_set_high_and_low() {
    let mut pin = PushPullPin::new(false);
    pin.set_high();
    assert!(pin.is_high);
    pin.set_low();
    assert!(!pin.is_high);
}
