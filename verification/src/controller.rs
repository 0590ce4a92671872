//! The controller loop's decision logic, as one verified step per poll.
//!
//! The hardware loop around it polls the serial receiver, and for each
//! received byte clears the surface, draws the resolved instruction and
//! flushes. Receive errors count as "no byte": the iteration is skipped and
//! nothing is touched. A draw or flush failure is fatal by policy: the
//! controller halts and never acts again. Both outside outcomes — the poll
//! result and the bus result — come in as arguments, so the step is verified
//! for every value of them.

use vstd::prelude::*;

use crate::interpreter::{resolve, resolve_spec};
use crate::surface::{Surface, SurfaceView, bump};

verus! {

/// The loop's persistent state: running, or halted for good after a fatal
/// render failure.
pub struct Controller {
    halted: bool,
}

/// What one loop step does to the controller's running flag and to the
/// surface, given the poll result and the bus outcome of this iteration.
///
/// A halted controller does nothing. A running one does nothing when no byte
/// arrived; on a byte `b` it leaves the frame holding `resolve_spec(b)` and
/// attempts a flush, after which the panel shows that frame exactly when the
/// bus succeeded, and the controller keeps running exactly then.
pub open spec fn step_spec(running: bool, s: SurfaceView, event: Option<u8>, bus_ok: bool) -> (
    bool,
    SurfaceView,
) {
    if !running {
        (false, s)
    } else {
        match event {
            None => (true, s),
            Some(b) => (
                bus_ok,
                SurfaceView {
                    buffer: resolve_spec(b),
                    shown: if bus_ok {
                        resolve_spec(b)
                    } else {
                        s.shown
                    },
                    flushes: bump(s.flushes),
                },
            ),
        }
    }
}

impl Controller {
    /// Whether the controller is still running the loop.
    pub closed spec fn running(&self) -> bool {
        !self.halted
    }

    /// A controller about to enter the loop.
    pub fn new() -> (c: Controller)
        ensures
            c.running(),
    {
        Controller { halted: false }
    }

    /// Whether the loop may poll again. Once this is false it stays false.
    pub fn is_running(&self) -> (r: bool)
        ensures
            r == self.running(),
    {
        !self.halted
    }

    /// Record the outcome of one render (draw and flush): any failure is fatal
    /// and halts the controller for good.
    pub fn note_render_outcome(&mut self, ok: bool)
        ensures
            final(self).running() == (old(self).running() && ok),
    {
        if !ok {
            self.halted = true;
        }
    }

    /// One loop step over the surface model: the whole iteration the hardware
    /// loop performs for one poll, with the poll result `event` and the bus
    /// outcome `bus_ok` taken as arguments.
    pub fn run_step(&mut self, s: &mut Surface, event: Option<u8>, bus_ok: bool)
        ensures
            (final(self).running(), final(s)@) == step_spec(
                old(self).running(),
                old(s)@,
                event,
                bus_ok,
            ),
            // When nothing arrived, nothing changes: no draw, no flush.
            old(self).running() && event is None ==> final(s)@ == old(s)@ && final(self).running(),
            // Once halted, nothing ever changes again.
            !old(self).running() ==> final(s)@ == old(s)@ && !final(self).running(),
    {
        if !self.is_running() {
            return ;
        }
        match event {
            None => {},
            Some(b) => {
                s.clear();
                match resolve(b) {
                    Some(i) => s.draw_text(i),
                    None => {},
                }
                let ok = s.flush(bus_ok);
                self.note_render_outcome(ok);
            },
        }
    }
}

/// Absence handling: a step with no byte leaves the controller and the surface
/// exactly as they were, whatever the bus would have reported.
pub proof fn lemma_no_byte_no_effect(running: bool, s: SurfaceView, bus_ok: bool)
    ensures
        step_spec(running, s, None, bus_ok) == (running, s),
{
}

/// An unmapped byte blanks the screen: after a step on a byte outside the
/// command table with a successful flush, the panel shows nothing.
pub proof fn lemma_unmapped_byte_blank(s: SurfaceView, b: u8)
    requires
        b != 1 && b != 2 && b != 3,
    ensures
        step_spec(true, s, Some(b), true).1.shown is None,
{
}

/// Idempotence: issuing the same byte twice in succession, each followed by a
/// successful flush, shows the same screen after each of the two steps — the
/// screen the byte resolves to, whatever the surface held before.
pub proof fn lemma_repeat_byte_same_screen(s: SurfaceView, b: u8)
    ensures
        ({
            let (run1, s1) = step_spec(true, s, Some(b), true);
            let (run2, s2) = step_spec(run1, s1, Some(b), true);
            run1 && run2 && s1.shown == resolve_spec(b) && s2.shown == s1.shown
        }),
{
}

/// Fatal-error policy: a step whose flush the bus refused leaves the
/// controller halted.
pub proof fn lemma_flush_failure_halts(running: bool, s: SurfaceView, b: u8)
    ensures
        !step_spec(running, s, Some(b), false).0,
{
}

/// A halted controller is halted forever: no event and no bus outcome makes a
/// step change anything.
pub proof fn lemma_halted_forever(s: SurfaceView, event: Option<u8>, bus_ok: bool)
    ensures
        step_spec(false, s, event, bus_ok) == (false, s),
{
}

} // verus!
