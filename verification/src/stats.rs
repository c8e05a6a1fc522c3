//! Per-frame statistics: how many features the spatial query matched, and
//! how long the three strictly sequential phases of a frame took.
//!
//! The frame timer is a small state machine over monotone timestamps (a
//! nanosecond reading of a monotone clock). The three phases — index
//! query, data streaming, rendering — run one after the other, so each
//! duration is attributable to exactly one phase.

use vstd::prelude::*;

verus! {

/// One frame's statistics: matched feature count and the three phase
/// durations, in nanoseconds. Built afresh each frame, handed read-only
/// to the overlay drawer, and discarded; never accumulated across frames.
#[derive(Clone, Copy, Default)]
pub struct Stats {
    pub feature_count: usize,
    pub fbg_index_read_time: u64,
    pub fbg_data_read_time: u64,
    pub render_time: u64,
}

/// Which phase boundaries have been recorded so far.
#[derive(Clone, Copy, Debug, PartialEq, Eq, Structural)]
pub enum FrameStage {
    QueryRunning,
    StreamRunning,
    RenderRunning,
    Complete,
}

/// Timestamps of the phase boundaries of one frame, in nanoseconds of a
/// monotone clock. A clock reading that runs backwards is clamped to the
/// previous boundary, so the boundaries are always ordered.
pub struct FrameTimer {
    pub t_begin: u64,
    pub t_query_done: u64,
    pub t_stream_done: u64,
    pub t_render_done: u64,
    pub stage: FrameStage,
}

impl FrameTimer {
    /// The boundaries already recorded are ordered: the index query ends
    /// no earlier than it began, the data streaming no earlier than the
    /// query, the rendering no earlier than the streaming.
    pub open spec fn wf(self) -> bool {
        &&& self.t_begin <= self.t_query_done
        &&& self.t_query_done <= self.t_stream_done
        &&& self.t_stream_done <= self.t_render_done
    }

    /// Start timing a frame at clock reading `now`.
    pub fn new(now: u64) -> (t: FrameTimer)
        ensures
            t.t_begin == now,
            t.stage == FrameStage::QueryRunning,
            t.wf(),
    {
        FrameTimer {
            t_begin: now,
            t_query_done: now,
            t_stream_done: now,
            t_render_done: now,
            stage: FrameStage::QueryRunning,
        }
    }

    /// The index query has finished: record its end at `now` (clamped so
    /// the boundary never precedes the frame start).
    pub fn mark_query_done(&mut self, now: u64)
        requires
            old(self).stage == FrameStage::QueryRunning,
            old(self).wf(),
        ensures
            final(self).t_begin == old(self).t_begin,
            final(self).t_query_done == if now >= old(self).t_begin {
                now
            } else {
                old(self).t_begin
            },
            final(self).t_stream_done == final(self).t_query_done,
            final(self).t_render_done == final(self).t_query_done,
            final(self).stage == FrameStage::StreamRunning,
            final(self).wf(),
    {
        let t = if now >= self.t_begin {
            now
        } else {
            self.t_begin
        };
        self.t_query_done = t;
        self.t_stream_done = t;
        self.t_render_done = t;
        self.stage = FrameStage::StreamRunning;
    }

    /// The feature streaming has finished: record its end at `now`.
    pub fn mark_stream_done(&mut self, now: u64)
        requires
            old(self).stage == FrameStage::StreamRunning,
            old(self).wf(),
        ensures
            final(self).t_begin == old(self).t_begin,
            final(self).t_query_done == old(self).t_query_done,
            final(self).t_stream_done == if now >= old(self).t_query_done {
                now
            } else {
                old(self).t_query_done
            },
            final(self).t_render_done == final(self).t_stream_done,
            final(self).stage == FrameStage::RenderRunning,
            final(self).wf(),
    {
        let t = if now >= self.t_query_done {
            now
        } else {
            self.t_query_done
        };
        self.t_stream_done = t;
        self.t_render_done = t;
        self.stage = FrameStage::RenderRunning;
    }

    /// The rendering has finished: record its end at `now`.
    pub fn mark_render_done(&mut self, now: u64)
        requires
            old(self).stage == FrameStage::RenderRunning,
            old(self).wf(),
        ensures
            final(self).t_begin == old(self).t_begin,
            final(self).t_query_done == old(self).t_query_done,
            final(self).t_stream_done == old(self).t_stream_done,
            final(self).t_render_done == if now >= old(self).t_stream_done {
                now
            } else {
                old(self).t_stream_done
            },
            final(self).stage == FrameStage::Complete,
            final(self).wf(),
    {
        let t = if now >= self.t_stream_done {
            now
        } else {
            self.t_stream_done
        };
        self.t_render_done = t;
        self.stage = FrameStage::Complete;
    }

    /// The statistics of a completed frame: each phase duration is the
    /// exact difference of its two boundaries.
    pub fn stats(&self, feature_count: usize) -> (s: Stats)
        requires
            self.stage == FrameStage::Complete,
            self.wf(),
        ensures
            s.feature_count == feature_count,
            s.fbg_index_read_time == self.t_query_done - self.t_begin,
            s.fbg_data_read_time == self.t_stream_done - self.t_query_done,
            s.render_time == self.t_render_done - self.t_stream_done,
    {
        Stats {
            feature_count,
            fbg_index_read_time: self.t_query_done - self.t_begin,
            fbg_data_read_time: self.t_stream_done - self.t_query_done,
            render_time: self.t_render_done - self.t_stream_done,
        }
    }
}

/// The three measured phases of a completed frame are non-overlapping and
/// strictly ordered — index query, then data streaming, then rendering —
/// every duration is non-negative, and the three durations sum exactly to
/// the span from frame start to render end.
pub proof fn lemma_phases_sequential(t: FrameTimer, s: Stats)
    requires
        t.wf(),
        s.fbg_index_read_time == t.t_query_done - t.t_begin,
        s.fbg_data_read_time == t.t_stream_done - t.t_query_done,
        s.render_time == t.t_render_done - t.t_stream_done,
    ensures
        s.fbg_index_read_time >= 0,
        s.fbg_data_read_time >= 0,
        s.render_time >= 0,
        t.t_begin <= t.t_query_done <= t.t_stream_done <= t.t_render_done,
        s.fbg_index_read_time + s.fbg_data_read_time + s.render_time == t.t_render_done
            - t.t_begin,
{
}

} // verus!
