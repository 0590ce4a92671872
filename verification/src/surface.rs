//! A model of the display surface: the buffered frame that draw operations
//! mutate in memory, and the panel state that a flush over the bus commits it
//! to. The two may diverge until a flush succeeds.
//!
//! The bus itself is hardware, so `flush` takes the bus outcome as an argument
//! and the model is verified for both outcomes. The surface also counts flush
//! attempts, so that a harness can hold bus traffic against byte arrivals.

use vstd::prelude::*;

use crate::interpreter::{InstrView, Instruction, view_opt};

verus! {

/// The in-memory frame, the committed panel state, and the number of flush
/// attempts so far.
pub struct Surface {
    buffer: Option<Instruction>,
    shown: Option<Instruction>,
    flushes: u64,
}

/// The mathematical value of a [`Surface`]: what the frame buffer holds, what
/// the panel shows, and how many flushes were attempted.
pub struct SurfaceView {
    pub buffer: Option<InstrView>,
    pub shown: Option<InstrView>,
    pub flushes: u64,
}

impl View for Surface {
    type V = SurfaceView;

    closed spec fn view(&self) -> SurfaceView {
        SurfaceView {
            buffer: view_opt(self.buffer),
            shown: view_opt(self.shown),
            flushes: self.flushes,
        }
    }
}

/// A surface as it stands right after hardware bring-up: blank frame, blank
/// panel, no flush attempted yet.
pub open spec fn blank_surface() -> SurfaceView {
    SurfaceView { buffer: None, shown: None, flushes: 0 }
}

/// The flush counter after one more attempt; it pegs at its maximum rather
/// than wrap.
pub open spec fn bump(n: u64) -> u64 {
    if n == u64::MAX {
        u64::MAX
    } else {
        (n + 1) as u64
    }
}

impl Surface {
    /// A freshly initialized surface: everything blank, nothing flushed.
    pub fn new() -> (s: Surface)
        ensures
            s@ == blank_surface(),
    {
        Surface { buffer: None, shown: None, flushes: 0 }
    }

    /// Blank the in-memory frame. The panel keeps what it shows until the next
    /// successful flush.
    pub fn clear(&mut self)
        ensures
            final(self)@ == (SurfaceView {
                buffer: None,
                shown: old(self)@.shown,
                flushes: old(self)@.flushes,
            }),
    {
        self.buffer = None;
    }

    /// Put `i` into the in-memory frame. The panel keeps what it shows until
    /// the next successful flush.
    pub fn draw_text(&mut self, i: Instruction)
        ensures
            final(self)@ == (SurfaceView {
                buffer: Some(i@),
                shown: old(self)@.shown,
                flushes: old(self)@.flushes,
            }),
    {
        self.buffer = Some(i);
    }

    /// Attempt to commit the frame to the panel over the bus; `bus_ok` is the
    /// outcome the bus reported. On success the panel takes the frame's
    /// content; on failure it keeps what it showed. Either way the attempt is
    /// counted, and the outcome is handed back.
    pub fn flush(&mut self, bus_ok: bool) -> (r: bool)
        ensures
            r == bus_ok,
            final(self)@ == (SurfaceView {
                buffer: old(self)@.buffer,
                shown: if bus_ok {
                    old(self)@.buffer
                } else {
                    old(self)@.shown
                },
                flushes: bump(old(self)@.flushes),
            }),
    {
        if bus_ok {
            self.shown = self.buffer;
        }
        if self.flushes < u64::MAX {
            self.flushes = self.flushes + 1;
        }
        bus_ok
    }

    /// The text the panel currently shows, or `None` when it is blank.
    pub fn shown_text(&self) -> (r: Option<&'static str>)
        ensures
            match self@.shown {
                Some(v) => r matches Some(t) && t@ == v.text,
                None => r is None,
            },
    {
        match self.shown {
            Some(i) => Some(i.text),
            None => None,
        }
    }

    /// How many flushes were attempted so far.
    pub fn flush_count(&self) -> (r: u64)
        ensures
            r == self@.flushes,
    {
        self.flushes
    }
}

} // verus!
