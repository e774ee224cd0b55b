use pros_simulator::errno::Errno;
use pros_simulator::events::{DisplayEvent, Event, LogEvent};
use pros_simulator::state::{LcdPressedButtons, LcdStatus, RobotState, LINE_WIDTH};

#[test]
fn fresh_state_defaults() {
    let s = RobotState::new();
    assert!(s.memory.is_none());
    assert_eq!(s.lcd.status, LcdStatus::Disabled);
    assert!(s.lcd.callbacks.iter().all(|c| c.is_none()));
    assert_eq!(s.errno, Errno::Success);
    assert_eq!(s.events.len(), 0);
    assert_eq!(s.get_errno(), 0);
}

#[test]
fn errno_update_state() {
    let mut s = RobotState::new();
    Errno::EINVAL.update_state(&mut s);
    assert_eq!(s.errno, Errno::EINVAL);
    assert_eq!(s.get_errno(), 23);
    Errno::Success.update_state(&mut s);
    assert_eq!(s.get_errno(), 0);
}

#[test]
fn log_levels_emit_in_order() {
    let mut s = RobotState::new();
    s.info("a".to_string());
    s.warn("b".to_string());
    s.error("c".to_string());
    assert_eq!(s.events.len(), 3);
    assert!(matches!(&s.events[0], Event::Log(LogEvent::Info(m)) if m == "a"));
    assert!(matches!(&s.events[1], Event::Log(LogEvent::Warning(m)) if m == "b"));
    assert!(matches!(&s.events[2], Event::Log(LogEvent::Error(m)) if m == "c"));
}

#[test]
fn lcd_initialize_once() {
    let mut s = RobotState::new();
    assert!(s.lcd_initialize());
    assert_eq!(s.lcd.status, LcdStatus::Enabled(LcdPressedButtons::empty()));
    assert!(matches!(s.events.last(), Some(Event::Display(DisplayEvent::Init))));

    let n = s.events.len();
    assert!(!s.lcd_initialize());
    // the rejected call warned and changed nothing else
    assert_eq!(s.events.len(), n + 1);
    assert!(matches!(s.events.last(), Some(Event::Log(LogEvent::Warning(_)))));
    assert!(s.lcd.status.is_enabled());
}

#[test]
fn lcd_shutdown_requires_enabled() {
    let mut s = RobotState::new();
    assert_eq!(s.lcd_shutdown(), Err(Errno::ENXIO));
    assert!(matches!(s.events.last(), Some(Event::Log(LogEvent::Warning(_)))));

    s.lcd_initialize();
    assert_eq!(s.lcd_shutdown(), Ok(()));
    assert_eq!(s.lcd.status, LcdStatus::Disabled);
    assert!(matches!(s.events.last(), Some(Event::Display(DisplayEvent::Deinit))));
}

#[test]
fn trim_keeps_short_single_line_text() {
    let mut s = RobotState::new();
    let n = s.events.len();
    assert_eq!(s.trim_text("Hello"), "Hello");
    // nothing was cut, so nothing was emitted
    assert_eq!(s.events.len(), n);
}

#[test]
fn trim_cuts_at_the_display_width_with_a_warning() {
    let mut s = RobotState::new();
    let long = "x".repeat(50);
    let trimmed = s.trim_text(&long);
    assert_eq!(trimmed, "x".repeat(LINE_WIDTH));
    assert!(matches!(s.events.last(), Some(Event::Log(LogEvent::Warning(_)))));
}

#[test]
fn trim_stops_at_the_first_line_break() {
    let mut s = RobotState::new();
    assert_eq!(s.trim_text("a\nb"), "a");
    assert_eq!(s.trim_text("a\r\nb"), "a");
    assert_eq!(s.trim_text("a\rb\nc"), "a\rb");
    assert_eq!(s.trim_text("\nabc"), "");
    assert_eq!(s.trim_text("no break"), "no break");
}

#[test]
fn set_text_needs_an_enabled_display() {
    let mut s = RobotState::new();
    assert_eq!(s.lcd_set_text(0, "hi"), Err(Errno::ENXIO));
    assert!(matches!(s.events.last(), Some(Event::Log(LogEvent::Error(_)))));
}

#[test]
fn set_text_rejects_a_bad_line() {
    let mut s = RobotState::new();
    s.lcd_initialize();
    assert_eq!(s.lcd_set_text(-1, "hi"), Err(Errno::EINVAL));
    assert_eq!(s.lcd_set_text(8, "hi"), Err(Errno::EINVAL));
    assert!(matches!(s.events.last(), Some(Event::Log(LogEvent::Error(_)))));
}

#[test]
fn set_text_emits_one_delta_for_the_line() {
    let mut s = RobotState::new();
    s.lcd_initialize();
    let n = s.events.len();
    assert_eq!(s.lcd_set_text(3, "hi"), Ok(()));
    assert_eq!(s.events.len(), n + 1);
    match s.events.last() {
        Some(Event::Display(DisplayEvent::Update { lines_delta })) => {
            assert_eq!(lines_delta.len(), 1);
            assert_eq!(lines_delta[0].0, 3);
            assert_eq!(lines_delta[0].1, "hi");
        }
        _ => panic!("expected a content delta"),
    }
}

#[test]
fn set_text_warns_before_the_delta_when_cutting() {
    let mut s = RobotState::new();
    s.lcd_initialize();
    let n = s.events.len();
    let long = "y".repeat(60);
    assert_eq!(s.lcd_set_text(0, &long), Ok(()));
    assert_eq!(s.events.len(), n + 2);
    assert!(matches!(&s.events[n], Event::Log(LogEvent::Warning(_))));
    match s.events.last() {
        Some(Event::Display(DisplayEvent::Update { lines_delta })) => {
            assert_eq!(lines_delta[0].1, "y".repeat(LINE_WIDTH));
        }
        _ => panic!("expected a content delta"),
    }
}

#[test]
fn clear_emits_one_delta_with_every_line_empty() {
    let mut s = RobotState::new();
    assert_eq!(s.lcd_clear(), Err(Errno::ENXIO));
    s.lcd_initialize();
    let n = s.events.len();
    assert_eq!(s.lcd_clear(), Ok(()));
    assert_eq!(s.events.len(), n + 1);
    match s.events.last() {
        Some(Event::Display(DisplayEvent::Update { lines_delta })) => {
            assert_eq!(lines_delta.len(), 8);
            for (i, entry) in lines_delta.iter().enumerate() {
                assert_eq!(entry.0 as usize, i);
                assert_eq!(entry.1, "");
            }
        }
        _ => panic!("expected a content delta"),
    }
}

#[test]
fn color_changes_emit_events_only_while_enabled() {
    let mut s = RobotState::new();
    s.lcd_set_background(0x123456);
    assert!(matches!(s.events.last(), Some(Event::Log(LogEvent::Error(_)))));

    s.lcd_initialize();
    s.lcd_set_background(0x123456);
    assert!(matches!(
        s.events.last(),
        Some(Event::Display(DisplayEvent::SetBackgroundColor { rgba: 0x123456 }))
    ));
    s.lcd_set_text_color(-1);
    assert!(matches!(
        s.events.last(),
        Some(Event::Display(DisplayEvent::SetTextColor { rgba: 0xFFFF_FFFF }))
    ));
}

#[test]
fn read_buttons_reports_zero_while_disabled() {
    let mut s = RobotState::new();
    assert_eq!(s.lcd_read_buttons(), 0);
    s.lcd_initialize();
    assert_eq!(s.lcd_read_buttons(), 0);
    s.lcd.status = LcdStatus::Enabled(LcdPressedButtons::left());
    assert_eq!(s.lcd_read_buttons(), 4);
}

#[test]
fn button_masks() {
    assert_eq!(LcdPressedButtons::empty().bits(), 0);
    assert_eq!(LcdPressedButtons::right().bits(), 1);
    assert_eq!(LcdPressedButtons::center().bits(), 2);
    assert_eq!(LcdPressedButtons::left().bits(), 4);
    assert!(LcdPressedButtons::left().contains(LcdPressedButtons::empty()));
    assert!(!LcdPressedButtons::left().contains(LcdPressedButtons::right()));
}

#[test]
fn register_button_callback() {
    let mut s = RobotState::new();
    s.lcd_register_btn_callback(1, 77);
    assert_eq!(s.lcd.callbacks[1], Some(77));
    assert_eq!(s.lcd.callbacks[0], None);
    assert_eq!(s.lcd.callbacks[2], None);
}

#[test]
fn lcd_status_default_is_disabled() {
    assert_eq!(LcdStatus::default(), LcdStatus::Disabled);
    assert!(!LcdStatus::Disabled.is_enabled());
    assert!(LcdStatus::Enabled(LcdPressedButtons::empty()).is_enabled());
}
