//! The periodic tick handler: it takes the LED handle out of the shared cell
//! on its first run, and from then on toggles the LED once every hundred ticks.
use vstd::prelude::*;

verus! {

/// Number of ticks between two toggles of the LED.
pub const BLINK_DIVIDER: u32 = 100;

/// What the firmware has to do after one run of the tick handler.
#[derive(PartialEq, Eq, Structural, Clone, Copy, Debug)]
pub enum TickAction {
    /// The handler holds no handle yet: exchange it with the shared cell,
    /// inside a critical section.
    Acquire,
    /// A tick was counted; the LED stays as it is.
    Count,
    /// A tick was counted and the LED is to be toggled.
    Toggle,
}

/// The tick counter's value after `n` counted ticks: it wraps at 2^32.
pub open spec fn counter_after(n: nat) -> nat {
    n % 0x1_0000_0000
}

/// Whether the `n`-th counted tick toggles the LED.
pub open spec fn toggles_at(n: nat) -> bool {
    counter_after(n) % (BLINK_DIVIDER as nat) == 0
}

/// Number of toggles over the first `n` counted ticks.
pub open spec fn toggle_count(n: nat) -> nat
    decreases n,
{
    if n == 0 {
        0
    } else {
        toggle_count((n - 1) as nat) + if toggles_at(n) { 1nat } else { 0nat }
    }
}

/// One run of the handler on the pair (local slot, shared cell): a handler
/// without a handle exchanges the two; one that holds a handle leaves both.
pub open spec fn handoff_step<T>(local: Option<T>, shared: Option<T>) -> (Option<T>, Option<T>) {
    if local is None {
        (shared, local)
    } else {
        (local, shared)
    }
}

/// `n` runs of the handler on the pair (local slot, shared cell).
pub open spec fn handoff_steps<T>(local: Option<T>, shared: Option<T>, n: nat) -> (Option<T>, Option<T>)
    decreases n,
{
    if n == 0 {
        (local, shared)
    } else {
        let (l, s) = handoff_step(local, shared);
        handoff_steps(l, s, (n - 1) as nat)
    }
}

/// State private to the tick handler: the LED handle once it has been taken
/// over, and the tick counter.
pub struct Blinker<T> {
    led: Option<T>,
    count: u32,
    ticks: Ghost<nat>,
    toggles: Ghost<nat>,
}

impl<T> Blinker<T> {
    /// The handle held by the handler, if any.
    pub closed spec fn handle(&self) -> Option<T> {
        self.led
    }

    /// The tick counter.
    pub closed spec fn counter(&self) -> u32 {
        self.count
    }

    /// Number of ticks counted since the handle was taken over.
    pub closed spec fn ticks(&self) -> nat {
        self.ticks@
    }

    /// Number of `Toggle` actions handed out so far.
    pub closed spec fn toggles(&self) -> nat {
        self.toggles@
    }

    /// The counter follows the ticks, and the toggles handed out are those
    /// that the ticks call for.
    pub closed spec fn wf(&self) -> bool {
        &&& self.count as nat == counter_after(self.ticks@)
        &&& self.toggles@ == toggle_count(self.ticks@)
        &&& (self.led is None ==> self.ticks@ == 0)
    }

    /// A handler that holds no handle and has counted nothing.
    pub fn new() -> (r: Self)
        ensures
            r.wf(),
            r.handle() is None,
            r.counter() == 0,
            r.ticks() == 0,
            r.toggles() == 0,
    {
        Blinker { led: None, count: 0, ticks: Ghost(0), toggles: Ghost(0) }
    }

    /// Whether the handler holds the LED handle.
    pub fn holds_led(&self) -> (r: bool)
        ensures
            r == self.handle() is Some,
    {
        self.led.is_some()
    }

    /// The tick counter.
    pub fn count(&self) -> (r: u32)
        ensures
            r == self.counter(),
    {
        self.count
    }

    /// One run of the handler. Without a handle it asks for the exchange and
    /// changes nothing; with one it counts the tick and says whether the LED
    /// is due to toggle.
    pub fn tick(&mut self) -> (r: TickAction)
        requires
            old(self).wf(),
        ensures
            final(self).wf(),
            final(self).handle() == old(self).handle(),
            old(self).handle() is None ==> {
                &&& r == TickAction::Acquire
                &&& final(self).counter() == old(self).counter()
                &&& final(self).ticks() == old(self).ticks()
                &&& final(self).toggles() == old(self).toggles()
            },
            old(self).handle() is Some ==> {
                &&& final(self).ticks() == old(self).ticks() + 1
                &&& final(self).counter() as nat == counter_after(final(self).ticks())
                &&& final(self).counter() == old(self).counter().wrapping_add(1)
                &&& (r == TickAction::Toggle <==> final(self).counter() % BLINK_DIVIDER == 0)
                &&& (r == TickAction::Count <==> final(self).counter() % BLINK_DIVIDER != 0)
                &&& final(self).toggles() == old(self).toggles() + if r == TickAction::Toggle {
                    1nat
                } else {
                    0nat
                }
            },
    {
        if self.led.is_none() {
            return TickAction::Acquire;
        }
        let ghost n = self.ticks@ + 1;
        self.count = self.count.wrapping_add(1);
        proof {
            assert(counter_after(n) == if self.ticks@ % 0x1_0000_0000 + 1 == 0x1_0000_0000 {
                0
            } else {
                self.ticks@ % 0x1_0000_0000 + 1
            });
        }
        self.ticks = Ghost(n);
        if self.count % BLINK_DIVIDER == 0 {
            self.toggles = Ghost(self.toggles@ + 1);
            TickAction::Toggle
        } else {
            TickAction::Count
        }
    }

    /// Exchanges the handler's slot with the shared cell when the handler
    /// holds no handle yet; otherwise leaves both as they are. The caller
    /// holds the cell inside a critical section for the whole call.
    pub fn acquire(&mut self, cell: &mut Option<T>)
        requires
            old(self).wf(),
        ensures
            final(self).wf(),
            (final(self).handle(), *final(cell)) == handoff_step(old(self).handle(), *old(cell)),
            final(self).counter() == old(self).counter(),
            final(self).ticks() == old(self).ticks(),
            final(self).toggles() == old(self).toggles(),
    {
        if self.led.is_none() {
            core::mem::swap(&mut self.led, cell);
        }
    }

    /// The LED handle, for toggling it.
    pub fn led_mut(&mut self) -> (r: &mut T)
        requires
            old(self).handle() is Some,
        ensures
            *r == old(self).handle()->Some_0,
            final(self).handle() == Some(*final(r)),
            final(self).counter() == old(self).counter(),
            final(self).ticks() == old(self).ticks(),
            final(self).toggles() == old(self).toggles(),
            old(self).wf() ==> final(self).wf(),
    {
        match &mut self.led {
            Some(l) => l,
            None => vstd::pervasive::unreached(),
        }
    }
}

/// Stores the LED handle into the shared cell; what the cell held before is
/// dropped. The caller holds the cell inside a critical section.
pub fn hand_over<T>(cell: &mut Option<T>, led: T)
    ensures
        *final(cell) == Some(led),
{
    let mut fresh = Some(led);
    core::mem::swap(&mut fresh, cell);
}

/// Over the ticks counted since the hand-off, up to the counter's wrap, the
/// LED toggles once per hundred ticks: `toggle_count(n)` is `n / 100`.
pub proof fn toggles_are_hundredths(n: nat)
    requires
        n <= u32::MAX,
    ensures
        toggle_count(n) == n / 100,
    decreases n,
{
    if n > 0 {
        toggles_are_hundredths((n - 1) as nat);
        assert(counter_after(n) == n);
    }
}

/// A handler that respects its invariant has handed out exactly one `Toggle`
/// per hundred counted ticks, as long as its counter has not wrapped.
pub proof fn blinker_toggles_are_hundredths<T>(b: Blinker<T>)
    requires
        b.wf(),
        b.ticks() <= u32::MAX,
    ensures
        b.toggles() == b.ticks() / 100,
{
    toggles_are_hundredths(b.ticks());
}

/// The hand-off happens once: starting with an empty slot and the handle in
/// the shared cell, after any number of runs (one or more) the handler holds
/// the handle and the cell is empty.
pub proof fn handoff_happens_once<T>(led: T, n: nat)
    requires
        n >= 1,
    ensures
        handoff_steps(None, Some(led), n) == (Some(led), None::<T>),
    decreases n,
{
    assert(handoff_step(None, Some(led)) == (Some(led), None::<T>));
    held_handle_stays(led, None, (n - 1) as nat);
    assert(handoff_steps(None, Some(led), n) == handoff_steps(Some(led), None::<T>, (n - 1) as nat));
}

/// Once the handler holds a handle, no run changes the slot or the cell.
pub proof fn held_handle_stays<T>(led: T, shared: Option<T>, n: nat)
    ensures
        handoff_steps(Some(led), shared, n) == (Some(led), shared),
    decreases n,
{
    if n > 0 {
        held_handle_stays(led, shared, (n - 1) as nat);
    }
}

} // verus!
