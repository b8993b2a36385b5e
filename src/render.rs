//! The display render loop as a state machine: it hands out one display
//! command at a time, and the firmware carries it out and asks for the next.
use vstd::prelude::*;
use crate::decimal::decimal_is_canonical;
use crate::decimal::decimal;
use crate::text::{byte_len, clear_text, empty_text, text_of, text_str, write_counter, TextBuf, TEXT_CAPACITY};

verus! {

/// A pixel position on the display: column and row of a text's top-left corner.
#[derive(PartialEq, Eq, Structural, Clone, Copy, Debug)]
pub struct Position {
    pub x: i32,
    pub y: i32,
}

/// The two fixed caption lines.
#[derive(PartialEq, Eq, Structural, Clone, Copy, Debug)]
pub enum Caption {
    Greeting,
    Language,
}

/// A command for the display or the pacing timer.
#[derive(PartialEq, Eq, Structural, Clone, Copy, Debug)]
pub enum Action {
    /// Draw a caption line into the frame buffer.
    DrawCaption { caption: Caption, at: Position },
    /// Draw the counter text into the frame buffer.
    DrawCounter { at: Position },
    /// Send the frame buffer to the display.
    Flush,
    /// Block until the pacing timer expires.
    Wait,
    /// Clear the frame buffer.
    Clear,
}

/// Where the render loop stands: the command it hands out next.
#[derive(PartialEq, Eq, Structural, Clone, Copy, Debug)]
pub enum RenderPhase {
    FirstCaption,
    SecondCaption,
    ShowCaptions,
    DrawCounter,
    ShowCounter,
    Pace,
    Clear,
    /// The display could not be initialised: nothing is ever drawn.
    Idle,
}

pub open spec fn at(x: i32, y: i32) -> Position {
    Position { x, y }
}

/// The command handed out in phase `p`.
pub open spec fn action_of(p: RenderPhase) -> Action {
    match p {
        RenderPhase::FirstCaption => Action::DrawCaption { caption: Caption::Greeting, at: at(0, 0) },
        RenderPhase::SecondCaption => Action::DrawCaption { caption: Caption::Language, at: at(0, 16) },
        RenderPhase::ShowCaptions => Action::Flush,
        RenderPhase::DrawCounter => Action::DrawCounter { at: at(0, 32) },
        RenderPhase::ShowCounter => Action::Flush,
        RenderPhase::Pace => Action::Wait,
        RenderPhase::Clear => Action::Clear,
        RenderPhase::Idle => Action::Wait,
    }
}

/// The phase that follows `p`.
pub open spec fn phase_after(p: RenderPhase) -> RenderPhase {
    match p {
        RenderPhase::FirstCaption => RenderPhase::SecondCaption,
        RenderPhase::SecondCaption => RenderPhase::ShowCaptions,
        RenderPhase::ShowCaptions => RenderPhase::DrawCounter,
        RenderPhase::DrawCounter => RenderPhase::ShowCounter,
        RenderPhase::ShowCounter => RenderPhase::Pace,
        RenderPhase::Pace => RenderPhase::Clear,
        RenderPhase::Clear => RenderPhase::DrawCounter,
        RenderPhase::Idle => RenderPhase::Idle,
    }
}

/// The first `n` commands handed out from phase `p` on.
pub open spec fn actions_from(p: RenderPhase, n: nat) -> Seq<Action>
    decreases n,
{
    if n == 0 {
        Seq::empty()
    } else {
        seq![action_of(p)] + actions_from(phase_after(p), (n - 1) as nat)
    }
}

/// The commands at start-up when the display came up: both captions, then a flush.
pub open spec fn startup_actions() -> Seq<Action> {
    seq![action_of(RenderPhase::FirstCaption), action_of(RenderPhase::SecondCaption), Action::Flush]
}

/// The commands of one loop iteration: draw the counter, flush, wait, clear.
pub open spec fn iteration_actions() -> Seq<Action> {
    seq![Action::DrawCounter { at: at(0, 32) }, Action::Flush, Action::Wait, Action::Clear]
}

/// `k` copies of `s`, one after the other.
pub open spec fn repeat(s: Seq<Action>, k: nat) -> Seq<Action>
    decreases k,
{
    if k == 0 {
        Seq::empty()
    } else {
        s + repeat(s, (k - 1) as nat)
    }
}

/// Whether the counter text is live (drawn and not yet cleared) in phase `p`.
pub open spec fn shows_counter(p: RenderPhase) -> bool {
    p == RenderPhase::ShowCounter || p == RenderPhase::Pace || p == RenderPhase::Clear
}

/// Rate of the pacing timer: 10 Hz when the display came up, 1 Hz otherwise.
pub fn pacing_hz(display_ready: bool) -> (r: u32)
    ensures
        r == if display_ready { 10u32 } else { 1u32 },
{
    if display_ready {
        10
    } else {
        1
    }
}

/// The text of a caption line.
pub fn caption_text(c: Caption) -> (r: &'static str)
    ensures
        c == Caption::Greeting ==> r@ == "Hello world!"@,
        c == Caption::Language ==> r@ == "Hello Rust!"@,
{
    match c {
        Caption::Greeting => "Hello world!",
        Caption::Language => "Hello Rust!",
    }
}

/// The render loop: its phase, the iteration counter and the counter text.
pub struct Renderer {
    phase: RenderPhase,
    count: u32,
    text: TextBuf,
}

/// What a render loop holds, as values.
pub struct RendererView {
    pub phase: RenderPhase,
    pub counter: u32,
    pub text: Seq<char>,
}

impl View for Renderer {
    type V = RendererView;

    closed spec fn view(&self) -> RendererView {
        RendererView { phase: self.phase, counter: self.count, text: text_of(self.text) }
    }
}

impl Renderer {
    /// The counter text holds the counter in decimal while the counter is shown,
    /// and is empty otherwise.
    pub closed spec fn wf(&self) -> bool {
        &&& shows_counter(self.phase) ==> text_of(self.text) == decimal(self.count as nat)
        &&& !shows_counter(self.phase) ==> text_of(self.text) == Seq::<char>::empty()
    }

    /// A render loop at start-up: it begins with the captions when the display
    /// came up, and stays idle otherwise.
    pub fn new(display_ready: bool) -> (r: Self)
        ensures
            r.wf(),
            r@.phase == if display_ready { RenderPhase::FirstCaption } else { RenderPhase::Idle },
            r@.counter == 0,
            r@.text == Seq::<char>::empty(),
    {
        let text = empty_text();
        let phase = if display_ready { RenderPhase::FirstCaption } else { RenderPhase::Idle };
        Renderer { phase, count: 0, text }
    }

    /// The phase the loop stands in.
    pub fn phase(&self) -> (r: RenderPhase)
        ensures
            r == self@.phase,
    {
        self.phase
    }

    /// The iteration counter.
    pub fn counter(&self) -> (r: u32)
        ensures
            r == self@.counter,
    {
        self.count
    }

    /// The counter text to draw.
    pub fn text(&self) -> (r: &str)
        ensures
            r@ == self@.text,
    {
        text_str(&self.text)
    }

    /// Hands out the next command and moves to the following phase. Drawing
    /// the counter first counts one more iteration (wrapping at 2^32) and
    /// writes it in decimal; clearing empties the counter text too.
    pub fn next(&mut self) -> (r: Action)
        requires
            old(self).wf(),
        ensures
            final(self).wf(),
            r == action_of(old(self)@.phase),
            final(self)@.phase == phase_after(old(self)@.phase),
            old(self)@.phase == RenderPhase::DrawCounter ==> {
                &&& final(self)@.counter == old(self)@.counter.wrapping_add(1)
                &&& final(self)@.text == decimal(final(self)@.counter as nat)
            },
            old(self)@.phase != RenderPhase::DrawCounter ==> final(self)@.counter == old(self)@.counter,
            old(self)@.phase == RenderPhase::Clear ==> final(self)@.text == Seq::<char>::empty(),
            old(self)@.phase != RenderPhase::DrawCounter && old(self)@.phase != RenderPhase::Clear
                ==> final(self)@.text == old(self)@.text,
    {
        match self.phase {
            RenderPhase::FirstCaption => {
                self.phase = RenderPhase::SecondCaption;
                Action::DrawCaption { caption: Caption::Greeting, at: Position { x: 0, y: 0 } }
            },
            RenderPhase::SecondCaption => {
                self.phase = RenderPhase::ShowCaptions;
                Action::DrawCaption { caption: Caption::Language, at: Position { x: 0, y: 16 } }
            },
            RenderPhase::ShowCaptions => {
                self.phase = RenderPhase::DrawCounter;
                Action::Flush
            },
            RenderPhase::DrawCounter => {
                self.count = self.count.wrapping_add(1);
                proof {
                    decimal_is_canonical(self.count as nat);
                    assert(byte_len(text_of(self.text)) == 0);
                    assert(TEXT_CAPACITY == 256);
                }
                let written = write_counter(&mut self.text, self.count);
                assert(written is Ok);
                proof {
                    assert(Seq::<char>::empty() + decimal(self.count as nat)
                        =~= decimal(self.count as nat));
                }
                self.phase = RenderPhase::ShowCounter;
                Action::DrawCounter { at: Position { x: 0, y: 32 } }
            },
            RenderPhase::ShowCounter => {
                self.phase = RenderPhase::Pace;
                Action::Flush
            },
            RenderPhase::Pace => {
                self.phase = RenderPhase::Clear;
                Action::Wait
            },
            RenderPhase::Clear => {
                clear_text(&mut self.text);
                self.phase = RenderPhase::DrawCounter;
                Action::Clear
            },
            RenderPhase::Idle => Action::Wait,
        }
    }
}

/// A render loop whose display did not come up only ever waits: no draw and
/// no flush, for any number of steps.
pub proof fn idle_never_draws(n: nat)
    ensures
        actions_from(RenderPhase::Idle, n) == Seq::new(n, |i: int| Action::Wait),
    decreases n,
{
    if n > 0 {
        idle_never_draws((n - 1) as nat);
    }
    assert(actions_from(RenderPhase::Idle, n) =~= Seq::new(n, |i: int| Action::Wait));
}

/// From the counter phase on, every four commands form one loop iteration.
pub proof fn iterations_repeat(k: nat)
    ensures
        actions_from(RenderPhase::DrawCounter, 4 * k) == repeat(iteration_actions(), k),
    decreases k,
{
    if k > 0 {
        iterations_repeat((k - 1) as nat);
        let rest = actions_from(RenderPhase::DrawCounter, 4 * (k - 1) as nat);
        assert(actions_from(RenderPhase::Clear, (4 * (k - 1) + 1) as nat) =~= seq![Action::Clear] + rest);
        assert(actions_from(RenderPhase::Pace, (4 * (k - 1) + 2) as nat)
            =~= seq![Action::Wait, Action::Clear] + rest);
        assert(actions_from(RenderPhase::ShowCounter, (4 * (k - 1) + 3) as nat)
            =~= seq![Action::Flush, Action::Wait, Action::Clear] + rest);
        assert(actions_from(RenderPhase::DrawCounter, 4 * k) =~= iteration_actions() + rest);
    }
}

/// With the display up, the loop draws the two captions and flushes once at
/// start-up, and then runs iterations of draw counter, flush, wait, clear.
pub proof fn startup_then_iterations(k: nat)
    ensures
        actions_from(RenderPhase::FirstCaption, 3 + 4 * k) == startup_actions() + repeat(iteration_actions(), k),
{
    iterations_repeat(k);
    let rest = actions_from(RenderPhase::DrawCounter, 4 * k);
    assert(actions_from(RenderPhase::ShowCaptions, 1 + 4 * k) =~= seq![Action::Flush] + rest);
    assert(actions_from(RenderPhase::SecondCaption, 2 + 4 * k)
        =~= seq![action_of(RenderPhase::SecondCaption), Action::Flush] + rest);
    assert(actions_from(RenderPhase::FirstCaption, 3 + 4 * k) =~= startup_actions() + rest);
}

} // verus!
