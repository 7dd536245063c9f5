//! The choice of the samples that calibrate the gyroscope: the longest run
//! of samples taken while the controller rests.
//!
//! Whether a sample is at rest, and the sums of the rotation speeds, are
//! measured by the caller; the tracker decides what becomes of the sums.
use vstd::prelude::*;

verus! {

/// Whether the controller is moving, or resting since `start` with `count`
/// samples summed.
#[derive(Debug, Copy, Clone, PartialEq, Eq, Structural)]
pub enum WindowState {
    Moving,
    Static { count: u64, start: u64 },
}

/// What to do with the sums for a new sample.
#[derive(Debug, Copy, Clone, PartialEq, Eq, Structural)]
pub enum CalibrationStep {
    /// The controller starts to rest: the sum of the current run starts at
    /// zero, without this sample.
    Start,
    /// The controller still rests: add the sample to the sum of the current
    /// run; `finished` when the run has lasted long enough.
    Add { finished: bool },
    /// The controller moves again and the run that ends is the longest yet:
    /// keep its sum.
    Keep,
    /// The controller moves again after a run no longer than the longest.
    Drop,
    /// The controller keeps moving.
    Nothing,
}

/// The state of the calibration: the length of the longest run kept, the
/// number of samples seen and the current run.
#[derive(Debug, Copy, Clone, PartialEq, Eq, Structural)]
pub struct CalibrationTracker {
    pub last_count: u64,
    pub total_nb_samples: u64,
    pub state: WindowState,
}

/// The time from `start` to `now`, zero when `now` comes first.
pub open spec fn elapsed(start: u64, now: u64) -> int {
    if now >= start {
        now - start
    } else {
        0
    }
}

impl CalibrationTracker {
    /// Runs have no more samples than all the samples seen.
    pub open spec fn wf(self) -> bool {
        &&& self.last_count <= self.total_nb_samples
        &&& self.state matches WindowState::Static { count, .. } ==> count <= self.total_nb_samples
    }

    /// Nothing seen yet.
    pub fn new() -> (r: CalibrationTracker)
        ensures
            r.wf(),
            r.last_count == 0 && r.total_nb_samples == 0 && r.state == WindowState::Moving,
    {
        CalibrationTracker { last_count: 0, total_nb_samples: 0, state: WindowState::Moving }
    }

    /// What a new sample does: the next state and the step for the sums.
    pub open spec fn next(self, is_static: bool, now: u64, limit: u64) -> (CalibrationTracker, CalibrationStep) {
        let total = (self.total_nb_samples + 1) as u64;
        if is_static {
            match self.state {
                WindowState::Moving => (
                    CalibrationTracker { total_nb_samples: total, state: WindowState::Static { count: 0, start: now }, ..self },
                    CalibrationStep::Start,
                ),
                WindowState::Static { count, start } => (
                    CalibrationTracker { total_nb_samples: total, state: WindowState::Static { count: (count + 1) as u64, start }, ..self },
                    CalibrationStep::Add { finished: elapsed(start, now) >= limit },
                ),
            }
        } else {
            match self.state {
                WindowState::Static { count, .. } => if count > self.last_count {
                    (CalibrationTracker { last_count: count, total_nb_samples: total, state: WindowState::Moving }, CalibrationStep::Keep)
                } else {
                    (CalibrationTracker { total_nb_samples: total, state: WindowState::Moving, ..self }, CalibrationStep::Drop)
                },
                WindowState::Moving => (CalibrationTracker { total_nb_samples: total, ..self }, CalibrationStep::Nothing),
            }
        }
    }

    /// A new sample at `now`, at rest or not; a run at rest is finished
    /// once it has lasted `limit`.
    pub fn push(&mut self, is_static: bool, now: u64, limit: u64) -> (r: CalibrationStep)
        requires
            old(self).wf(),
            old(self).total_nb_samples < u64::MAX,
        ensures
            final(self).wf(),
            (*final(self), r) == old(self).next(is_static, now, limit),
    {
        let mut step = CalibrationStep::Nothing;
        if is_static {
            match self.state {
                WindowState::Moving => {
                    self.state = WindowState::Static { count: 0, start: now };
                    step = CalibrationStep::Start;
                },
                WindowState::Static { count, start } => {
                    self.state = WindowState::Static { count: count + 1, start };
                    step = CalibrationStep::Add { finished: now.saturating_sub(start) >= limit };
                },
            }
        } else {
            match self.state {
                WindowState::Static { count, .. } => {
                    if count > self.last_count {
                        self.last_count = count;
                        step = CalibrationStep::Keep;
                    } else {
                        step = CalibrationStep::Drop;
                    }
                    self.state = WindowState::Moving;
                },
                WindowState::Moving => {},
            }
        }
        self.total_nb_samples = self.total_nb_samples + 1;
        step
    }

    /// At the end: whether the current run is longer than the one kept, and
    /// the number of samples of the run that calibrates.
    pub fn finish(&self) -> (r: (bool, u64))
        ensures
            r == (if self.state is Static && self.last_count < self.state->count {
                (true, self.state->count)
            } else {
                (false, self.last_count)
            }),
    {
        match self.state {
            WindowState::Static { count, .. } => {
                if self.last_count < count {
                    (true, count)
                } else {
                    (false, self.last_count)
                }
            },
            WindowState::Moving => (false, self.last_count),
        }
    }
}

/// The run kept is the longest one: a sample never shortens the run kept,
/// and a run at rest that ends is never longer than the run kept after it.
pub proof fn law_longest_run_kept(t: CalibrationTracker, is_static: bool, now: u64, limit: u64)
    requires
        t.wf(),
        t.total_nb_samples < u64::MAX,
    ensures
        t.next(is_static, now, limit).0.last_count >= t.last_count,
        t.next(is_static, now, limit).0.wf(),
        !is_static && t.state is Static ==> t.next(is_static, now, limit).0.last_count
            >= t.state->count,
{
}

} // verus!
