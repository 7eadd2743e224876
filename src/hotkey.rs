//! Rising-edge detection for a macro's toggle hotkey.

use vstd::prelude::*;

verus! {

/// Cadence at which the pressed keys are polled, in milliseconds.
pub const POLL_INTERVAL_MS: u64 = 100;

/// Pause after a detected press, in milliseconds, so that one physical press
/// spanning several polls toggles only once.
pub const DEBOUNCE_MS: u64 = 300;

/// A poll that reads `pressed` after a poll that read `last` is a new press.
pub open spec fn rising_edge(last: bool, pressed: bool) -> bool {
    pressed && !last
}

/// The number of toggles a watcher whose previous reading was `last` makes
/// over the successive `readings`.
pub open spec fn toggle_count(last: bool, readings: Seq<bool>) -> nat
    decreases readings.len(),
{
    if readings.len() == 0 {
        0
    } else {
        (if rising_edge(last, readings[0]) {
            1nat
        } else {
            0nat
        }) + toggle_count(readings[0], readings.drop_first())
    }
}

/// Per-macro hotkey state: the reading of the previous poll.
pub struct HotkeyWatcher {
    last_pressed: bool,
}

impl HotkeyWatcher {
    /// The reading of the previous poll.
    pub closed spec fn last_pressed(&self) -> bool {
        self.last_pressed
    }

    /// A watcher that has seen the hotkey released.
    pub fn new() -> (r: Self)
        ensures
            !r.last_pressed(),
    {
        HotkeyWatcher { last_pressed: false }
    }

    /// Takes one poll's reading and returns whether it is a new press, upon
    /// which the macro's toggle state is flipped and polling pauses for
    /// `DEBOUNCE_MS`.
    pub fn observe(&mut self, pressed: bool) -> (flip: bool)
        ensures
            flip == rising_edge(old(self).last_pressed(), pressed),
            final(self).last_pressed() == pressed,
    {
        let flip = pressed && !self.last_pressed;
        self.last_pressed = pressed;
        flip
    }
}

/// A hotkey pressed after a release and held over any number of polls
/// toggles exactly once.
pub proof fn lemma_held_hotkey_toggles_once(readings: Seq<bool>)
    requires
        readings.len() >= 1,
        forall|i: int| 0 <= i < readings.len() ==> readings[i],
    ensures
        toggle_count(false, readings) == 1,
{
    lemma_held_hotkey_no_more_toggles(readings.drop_first());
}

/// A hotkey that stays pressed makes no new toggle.
pub proof fn lemma_held_hotkey_no_more_toggles(readings: Seq<bool>)
    requires
        forall|i: int| 0 <= i < readings.len() ==> readings[i],
    ensures
        toggle_count(true, readings) == 0,
    decreases readings.len(),
{
    if readings.len() > 0 {
        lemma_held_hotkey_no_more_toggles(readings.drop_first());
    }
}

} // verus!
