use blinky_oled::blink::{hand_over, Blinker, TickAction};

#[derive(Debug, PartialEq)]
struct Pin {
    level: bool,
    toggled: u32,
}

fn fresh_pin() -> Pin {
    Pin { level: false, toggled: 0 }
}

fn acquired_blinker() -> Blinker<Pin> {
    let mut cell: Option<Pin> = None;
    hand_over(&mut cell, fresh_pin());
    let mut b = Blinker::new();
    assert_eq!(b.tick(), TickAction::Acquire);
    b.acquire(&mut cell);
    assert!(cell.is_none());
    b
}

fn run(b: &mut Blinker<Pin>) -> TickAction {
    let action = b.tick();
    if action == TickAction::Toggle {
        let led = b.led_mut();
        led.level = !led.level;
        led.toggled += 1;
    }
    action
}

#[test]
fn hand_over_fills_cell() {
    let mut cell = Some(Pin { level: true, toggled: 7 });
    hand_over(&mut cell, fresh_pin());
    assert_eq!(cell, Some(fresh_pin()));
}

#[test]
fn handler_without_handle_asks_for_it() {
    let mut b: Blinker<Pin> = Blinker::new();
    assert!(!b.holds_led());
    for _ in 0..5 {
        assert_eq!(b.tick(), TickAction::Acquire);
    }
    assert_eq!(b.count(), 0);
}

#[test]
fn acquire_from_empty_cell_keeps_asking() {
    let mut b: Blinker<Pin> = Blinker::new();
    let mut cell: Option<Pin> = None;
    b.acquire(&mut cell);
    assert!(!b.holds_led());
    assert_eq!(b.tick(), TickAction::Acquire);
}

#[test]
fn handoff_happens_exactly_once() {
    let mut b = acquired_blinker();
    assert!(b.holds_led());
    let mut other = Some(Pin { level: true, toggled: 3 });
    for _ in 0..300 {
        assert_ne!(run(&mut b), TickAction::Acquire);
        b.acquire(&mut other);
        assert!(b.holds_led());
    }
    assert_eq!(other, Some(Pin { level: true, toggled: 3 }));
}

#[test]
fn led_toggles_at_hundred_and_two_hundred() {
    let mut b = acquired_blinker();
    for _ in 1..100 {
        assert_eq!(run(&mut b), TickAction::Count);
    }
    assert!(!b.led_mut().level);
    assert_eq!(run(&mut b), TickAction::Toggle);
    assert!(b.led_mut().level);
    for _ in 101..200 {
        assert_eq!(run(&mut b), TickAction::Count);
    }
    assert!(b.led_mut().level);
    assert_eq!(run(&mut b), TickAction::Toggle);
    assert!(!b.led_mut().level);
    assert_eq!(b.led_mut().toggled, 2);
    assert_eq!(b.count(), 200);
}

#[test]
fn toggle_count_is_ticks_over_hundred() {
    let mut b = acquired_blinker();
    let mut toggles: u32 = 0;
    for n in 1..=12345u32 {
        if run(&mut b) == TickAction::Toggle {
            toggles += 1;
        }
        assert_eq!(toggles, n / 100);
    }
    assert_eq!(b.led_mut().toggled, 123);
}
