use alert_core::buzzer::{buzzer_should_sound, parse_gpio_location, BlinkDirective, BuzzerDriver};

#[test]
fn buzzer_is_a_pure_function_of_three_inputs() {
    // on iff enabled, alerts active, not muted
    assert!(buzzer_should_sound(true, false, false));
    assert!(!buzzer_should_sound(true, false, true));
    assert!(!buzzer_should_sound(true, true, false));
    assert!(!buzzer_should_sound(true, true, true));
    assert!(!buzzer_should_sound(false, false, false));
    assert!(!buzzer_should_sound(false, false, true));
    assert!(!buzzer_should_sound(false, true, false));
    assert!(!buzzer_should_sound(false, true, true));
}

#[test]
fn gpio_location_parses_two_tokens() {
    let (chip, line) = parse_gpio_location("gpiochip1 23\n").expect("two tokens");
    assert_eq!(chip, "gpiochip1");
    assert_eq!(line, "23");
    let (chip, line) = parse_gpio_location("  gpiochip0\t7  extra").expect("two tokens");
    assert_eq!(chip, "gpiochip0");
    assert_eq!(line, "7");
}

#[test]
fn gpio_location_rejects_short_output() {
    assert!(parse_gpio_location("").is_none());
    assert!(parse_gpio_location("   \n").is_none());
    assert!(parse_gpio_location("gpiochip1").is_none());
    assert!(parse_gpio_location("gpiochip1   ").is_none());
}

#[test]
fn disabled_driver_succeeds_without_hardware() {
    let mut d = BuzzerDriver::new(false);
    assert!(!d.needs_resolution());
    assert!(d.set_state_on(None, false));
    assert!(d.set_state_off(false));
}

#[test]
fn set_on_resolves_caches_and_blinks() {
    let mut d = BuzzerDriver::new(true);
    assert!(d.needs_resolution());
    let loc = Some(("gpiochip1".to_string(), "23".to_string()));
    assert!(d.set_state_on(loc, true));
    // blink task running: idempotent success, no new resolution needed
    assert!(!d.needs_resolution());
    assert!(d.set_state_on(None, true));
    // off keeps the cached line on a successful low command
    assert!(d.set_state_off(true));
    assert!(!d.needs_resolution());
    assert_eq!(d.cached_line(), Some(("gpiochip1".to_string(), "23".to_string())));
}

#[test]
fn failed_resolution_reports_failure() {
    let mut d = BuzzerDriver::new(true);
    assert!(!d.set_state_on(None, true));
    assert!(d.needs_resolution());
}

#[test]
fn failed_high_command_invalidates_cache() {
    let mut d = BuzzerDriver::new(true);
    let loc = Some(("gpiochip1".to_string(), "23".to_string()));
    assert!(!d.set_state_on(loc, false));
    assert!(d.needs_resolution());
}

#[test]
fn failed_low_command_invalidates_cache() {
    let mut d = BuzzerDriver::new(true);
    let loc = Some(("gpiochip1".to_string(), "23".to_string()));
    assert!(d.set_state_on(loc, true));
    assert!(!d.set_state_off(false));
    assert!(d.needs_resolution());
}

#[test]
fn five_consecutive_tick_failures_stop_the_blink_task() {
    let mut d = BuzzerDriver::new(true);
    let loc = Some(("gpiochip1".to_string(), "23".to_string()));
    assert!(d.set_state_on(loc, true));
    for _ in 0..4 {
        assert_eq!(d.blink_tick(false), BlinkDirective::Continue);
    }
    assert_eq!(d.blink_tick(false), BlinkDirective::StopAndForceLow);
    // self-healing: a later turn-on resolves again
    assert!(d.needs_resolution());
}

#[test]
fn successful_tick_resets_the_failure_count() {
    let mut d = BuzzerDriver::new(true);
    let loc = Some(("gpiochip1".to_string(), "23".to_string()));
    assert!(d.set_state_on(loc, true));
    for _ in 0..4 {
        assert_eq!(d.blink_tick(false), BlinkDirective::Continue);
    }
    assert_eq!(d.blink_tick(true), BlinkDirective::Continue);
    for _ in 0..4 {
        assert_eq!(d.blink_tick(false), BlinkDirective::Continue);
    }
    assert_eq!(d.blink_tick(false), BlinkDirective::StopAndForceLow);
}

#[test]
fn stale_tick_after_stop_is_a_noop() {
    let mut d = BuzzerDriver::new(true);
    let loc = Some(("gpiochip1".to_string(), "23".to_string()));
    assert!(d.set_state_on(loc, true));
    assert!(d.set_state_off(true));
    assert_eq!(d.blink_tick(true), BlinkDirective::Stop);
}
