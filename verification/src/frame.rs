//! Frame loop bookkeeping: the decisions of each iteration, separated
//! from the window, device and clock that drive them.
//!
//! The shell owns the window and the GPU; each iteration it feeds this
//! state machine the drained window events and one clock sample, and acts
//! on what comes back: stop on a quit, adopt a freshly computed
//! projection on a resize, report the frame rate when the tick says so.
//! The state is exactly the per-frame mutable state of the renderer:
//! whether it still runs, the last frame's instant, the next report
//! threshold, and the live projection matrix.

use vstd::prelude::*;
use crate::fixed::Mat4;

verus! {

/// One event of interest to the frame loop, already translated by the
/// shell: a quit request, a resize (carrying the projection recomputed
/// for the new surface, since projection arithmetic lives with the
/// shell's floating-point world), or anything else.
pub enum FrameEvent {
    /// Close request or interrupt key: stop the loop.
    Quit,
    /// The surface was resized; adopt this recomputed projection.
    Resized(Mat4),
    /// Any other input: ignored.
    Other,
}

/// The frame loop's mutable state, threaded through each iteration.
pub struct FrameLoop {
    /// False once a quit event has been seen.
    pub running: bool,
    /// Instant of the previous frame, nanoseconds.
    pub last_t_ns: i64,
    /// Threshold for the next FPS report, nanoseconds.
    pub next_report_ns: i64,
    /// The live projection matrix.
    pub projection: Mat4,
}

impl FrameLoop {
    /// Start the loop at instant `t0_ns` with the initial projection:
    /// running, with the first report due at the first frame after `t0_ns`.
    pub fn new(t0_ns: i64, projection: Mat4) -> (r: FrameLoop)
        ensures
            r.running,
            r.last_t_ns == t0_ns,
            r.next_report_ns == t0_ns,
            r.projection == projection,
    {
        FrameLoop { running: true, last_t_ns: t0_ns, next_report_ns: t0_ns, projection }
    }

    /// Absorb one drained window event: quit stops the loop, a resize
    /// replaces the projection, anything else changes nothing.
    pub fn handle_event(&mut self, event: FrameEvent)
        ensures
            final(self).last_t_ns == old(self).last_t_ns,
            final(self).next_report_ns == old(self).next_report_ns,
            match event {
                FrameEvent::Quit => !final(self).running && final(self).projection == old(
                    self).projection,
                FrameEvent::Resized(p) => final(self).running == old(self).running && final(
                    self).projection == p,
                FrameEvent::Other => final(self).running == old(self).running && final(
                    self).projection == old(self).projection,
            },
    {
        match event {
            FrameEvent::Quit => {
                self.running = false;
            },
            FrameEvent::Resized(p) => {
                self.projection = p;
            },
            FrameEvent::Other => {},
        }
    }

    /// Account for the frame drawn at instant `t_ns`: remember the
    /// instant, and decide whether the frame rate is due for a report.
    /// When it is, the threshold advances by exactly one interval — not
    /// to the current instant — so a late report does not shift the
    /// reporting cadence.
    pub fn frame_tick(&mut self, t_ns: i64, interval_ns: i64) -> (report: bool)
        requires
            0 < interval_ns,
            old(self).next_report_ns + interval_ns <= i64::MAX,
        ensures
            final(self).last_t_ns == t_ns,
            final(self).running == old(self).running,
            final(self).projection == old(self).projection,
            report == (t_ns > old(self).next_report_ns),
            report ==> final(self).next_report_ns == old(self).next_report_ns + interval_ns,
            !report ==> final(self).next_report_ns == old(self).next_report_ns,
    {
        self.last_t_ns = t_ns;
        if t_ns > self.next_report_ns {
            self.next_report_ns = self.next_report_ns + interval_ns;
            true
        } else {
            false
        }
    }
}

} // verus!
