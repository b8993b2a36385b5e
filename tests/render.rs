use blinky_oled::render::{caption_text, pacing_hz, Action, Caption, Position, RenderPhase, Renderer};

fn pos(x: i32, y: i32) -> Position {
    Position { x, y }
}

#[test]
fn pacing_rates() {
    assert_eq!(pacing_hz(true), 10);
    assert_eq!(pacing_hz(false), 1);
}

#[test]
fn captions() {
    assert_eq!(caption_text(Caption::Greeting), "Hello world!");
    assert_eq!(caption_text(Caption::Language), "Hello Rust!");
}

#[test]
fn failed_display_only_waits() {
    let mut r = Renderer::new(false);
    assert_eq!(r.phase(), RenderPhase::Idle);
    for _ in 0..50 {
        assert_eq!(r.next(), Action::Wait);
    }
    assert_eq!(r.counter(), 0);
    assert_eq!(r.text(), "");
}

#[test]
fn ready_display_draws_captions_once_then_iterates() {
    let mut r = Renderer::new(true);
    assert_eq!(r.phase(), RenderPhase::FirstCaption);
    assert_eq!(
        r.next(),
        Action::DrawCaption { caption: Caption::Greeting, at: pos(0, 0) }
    );
    assert_eq!(
        r.next(),
        Action::DrawCaption { caption: Caption::Language, at: pos(0, 16) }
    );
    assert_eq!(r.next(), Action::Flush);
    for k in 1..=25u32 {
        assert_eq!(r.next(), Action::DrawCounter { at: pos(0, 32) });
        assert_eq!(r.counter(), k);
        assert_eq!(r.text(), format!("{}", k));
        assert_eq!(r.next(), Action::Flush);
        assert_eq!(r.next(), Action::Wait);
        assert_eq!(r.text(), format!("{}", k));
        assert_eq!(r.next(), Action::Clear);
        assert_eq!(r.text(), "");
        assert_eq!(r.phase(), RenderPhase::DrawCounter);
    }
}
