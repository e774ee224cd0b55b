use pros_simulator::events::SimulatorEvent;
use pros_simulator::lcd::Lcd;

#[test]
fn new_display_is_disabled_and_silent() {
    let lcd = Lcd::new();
    assert!(!lcd.initialized);
    assert_eq!(lcd.lines.len(), 8);
    for line in &lcd.lines {
        assert_eq!(line, "");
    }
    assert_eq!(lcd.events.len(), 0);
}

#[test]
fn set_line_before_initialize_fails_without_event() {
    let mut lcd = Lcd::new();
    let r = lcd.set_line(0, "hi");
    assert_eq!(r, Err(6));
    assert_eq!(lcd.events.len(), 0);
    assert_eq!(lcd.lines[0], "");
}

#[test]
fn initialize_emits_event_and_rejects_second_call() {
    let mut lcd = Lcd::new();
    assert!(lcd.initialize().is_ok());
    assert_eq!(lcd.events.len(), 1);
    assert!(matches!(lcd.events[0], SimulatorEvent::LcdInitialized));
    assert!(lcd.initialize().is_err());
    assert_eq!(lcd.events.len(), 1);
}

#[test]
fn set_line_then_clear_line_each_emit_one_delta() {
    let mut lcd = Lcd::new();
    lcd.initialize().unwrap();
    let events_after_init = lcd.events.len();

    assert_eq!(lcd.set_line(0, "hi"), Ok(()));
    assert_eq!(lcd.lines[0], "hi");
    assert_eq!(lcd.events.len(), events_after_init + 1);
    match &lcd.events[events_after_init] {
        SimulatorEvent::LcdUpdated(lines) => assert_eq!(lines[0], "hi"),
        _ => panic!("expected a content delta"),
    }

    assert_eq!(lcd.clear_line(0), Ok(()));
    assert_eq!(lcd.lines[0], "");
    assert_eq!(lcd.events.len(), events_after_init + 2);
    match &lcd.events[events_after_init + 1] {
        SimulatorEvent::LcdUpdated(lines) => assert_eq!(lines[0], ""),
        _ => panic!("expected a content delta"),
    }
}

#[test]
fn set_line_rejects_bad_arguments() {
    let mut lcd = Lcd::new();
    lcd.initialize().unwrap();
    let events_after_init = lcd.events.len();

    assert_eq!(lcd.set_line(-1, "hi"), Err(23));
    assert_eq!(lcd.set_line(8, "hi"), Err(23));
    let wide = "x".repeat(51);
    assert_eq!(lcd.set_line(0, &wide), Err(23));
    let just_fits = "x".repeat(50);
    assert_eq!(lcd.set_line(0, &just_fits), Ok(()));
    assert_eq!(lcd.lines[0], just_fits);

    assert_eq!(lcd.clear_line(8), Err(23));
    // the three failures emitted nothing
    assert_eq!(lcd.events.len(), events_after_init + 1);
}

#[test]
fn clear_resets_every_line_with_one_delta() {
    let mut lcd = Lcd::new();
    assert_eq!(lcd.clear(), Err(6));
    lcd.initialize().unwrap();
    lcd.set_line(3, "abc").unwrap();
    let n = lcd.events.len();
    assert_eq!(lcd.clear(), Ok(()));
    for line in &lcd.lines {
        assert_eq!(line, "");
    }
    assert_eq!(lcd.events.len(), n + 1);
}

#[test]
fn button_callback_registration_requires_enabled() {
    let mut lcd = Lcd::new();
    assert_eq!(lcd.set_btn_press_callback(0, 11), Err(6));
    lcd.initialize().unwrap();
    assert_eq!(lcd.set_btn_press_callback(0, 11), Ok(()));
    assert_eq!(lcd.button_callbacks[0], Some(11));
}

#[test]
fn repeated_button_report_fires_callback_once() {
    let mut lcd = Lcd::new();
    lcd.initialize().unwrap();
    lcd.set_btn_press_callback(0, 42).unwrap();

    let first = lcd.press([true, false, false]);
    assert_eq!(first, vec![42]);

    let second = lcd.press([true, false, false]);
    assert_eq!(second, Vec::<u32>::new());

    let released = lcd.press([false, false, false]);
    assert_eq!(released, Vec::<u32>::new());

    let again = lcd.press([true, false, false]);
    assert_eq!(again, vec![42]);
}

#[test]
fn press_fires_in_button_order_and_skips_unregistered() {
    let mut lcd = Lcd::new();
    lcd.initialize().unwrap();
    lcd.set_btn_press_callback(0, 10).unwrap();
    lcd.set_btn_press_callback(2, 30).unwrap();

    // button 1 has no callback; all three go down at once
    let fired = lcd.press([true, true, true]);
    assert_eq!(fired, vec![10, 30]);
}
