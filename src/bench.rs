//! The three-waypoint camera benchmark: a state machine advanced once per
//! rendered frame. Times are nanoseconds on a monotonic clock.

use vstd::prelude::*;

verus! {

/// Wall-clock length each phase aims for.
pub const PHASE_NANOS: u64 = 2_000_000_000;

/// Fewest frames a phase may last.
pub const MIN_FRAMES_PER_PHASE: u64 = 30;

/// Frames per phase for a frame of `frame_nanos`: the whole frames that fit
/// in two seconds, and at least 30.
pub open spec fn frames_per_phase_spec(frame_nanos: nat) -> nat {
    let fit = PHASE_NANOS as nat / frame_nanos;
    if fit >= MIN_FRAMES_PER_PHASE {
        fit
    } else {
        MIN_FRAMES_PER_PHASE as nat
    }
}

/// Frames per phase for the given frame duration.
pub fn frames_per_phase(frame_nanos: u64) -> (r: u64)
    requires
        frame_nanos > 0,
    ensures
        r == frames_per_phase_spec(frame_nanos as nat),
        MIN_FRAMES_PER_PHASE <= r <= PHASE_NANOS,
{
    let fit: u64 = PHASE_NANOS / frame_nanos;
    if fit >= MIN_FRAMES_PER_PHASE {
        fit
    } else {
        MIN_FRAMES_PER_PHASE
    }
}

/// The fixed camera poses that start each phase.
#[derive(Clone, Copy, Debug, PartialEq, Eq, Structural)]
pub enum Waypoint {
    First,
    Second,
    Third,
}

/// A run in progress.
#[derive(Clone, Copy, Debug, PartialEq, Eq, Structural)]
pub struct BenchmarkRun {
    pub started_nanos: u64,
    /// Ticks counted so far.
    pub frame: u64,
    pub frames_per_phase: u64,
}

/// Timing of a completed run.
#[derive(Clone, Copy, Debug, PartialEq, Eq, Structural)]
pub struct BenchReport {
    pub frames: u64,
    pub elapsed_nanos: u64,
    /// `elapsed_nanos / frames`, rounded down.
    pub average_frame_nanos: u64,
}

/// What the caller does after a tick.
#[derive(Clone, Copy, Debug, PartialEq, Eq, Structural)]
pub enum TickAction {
    /// No run is active, or there was no camera: nothing to do.
    Skip,
    /// Put the camera at this waypoint.
    MoveCamera(Waypoint),
    /// Leave the camera where it is.
    Hold,
    /// The run is complete: publish the report and put the camera back at
    /// the first waypoint.
    Report(BenchReport),
}

/// Elapsed time between two instants, zero if the clock did not advance.
pub open spec fn elapsed_spec(started: u64, now: u64) -> u64 {
    if now >= started {
        (now - started) as u64
    } else {
        0
    }
}

/// The state and action after one tick at `now`.
pub open spec fn step(run: Option<BenchmarkRun>, now: u64, camera_present: bool) -> (
    Option<BenchmarkRun>,
    TickAction,
) {
    match run {
        None => (None, TickAction::Skip),
        Some(r) => if !camera_present {
            (run, TickAction::Skip)
        } else if r.frame == 3 * r.frames_per_phase {
            let elapsed = elapsed_spec(r.started_nanos, now);
            (
                None,
                TickAction::Report(
                    BenchReport {
                        frames: r.frame,
                        elapsed_nanos: elapsed,
                        average_frame_nanos: (elapsed / r.frame) as u64,
                    },
                ),
            )
        } else {
            let action = if r.frame == 0 {
                TickAction::MoveCamera(Waypoint::First)
            } else if r.frame == r.frames_per_phase {
                TickAction::MoveCamera(Waypoint::Second)
            } else if r.frame == 2 * r.frames_per_phase {
                TickAction::MoveCamera(Waypoint::Third)
            } else {
                TickAction::Hold
            };
            (Some(BenchmarkRun { frame: (r.frame + 1) as u64, ..r }), action)
        },
    }
}

/// The run after a tick with a camera at each of the instants in `now`.
pub open spec fn run_after(run: Option<BenchmarkRun>, now: Seq<u64>) -> Option<BenchmarkRun>
    decreases now.len(),
{
    if now.len() == 0 {
        run
    } else {
        step(run_after(run, now.drop_last()), now.last(), true).0
    }
}

proof fn lemma_counts_ticks(r0: BenchmarkRun, now: Seq<u64>, n: nat)
    requires
        r0.frame == 0,
        MIN_FRAMES_PER_PHASE <= r0.frames_per_phase <= PHASE_NANOS,
        n <= 3 * r0.frames_per_phase,
        n <= now.len(),
    ensures
        run_after(Some(r0), now.take(n as int)) == Some(BenchmarkRun { frame: n as u64, ..r0 }),
    decreases n,
{
    if n > 0 {
        let prefix = now.take(n as int);
        assert(prefix.drop_last() =~= now.take(n - 1));
        lemma_counts_ticks(r0, now, (n - 1) as nat);
    } else {
        assert(now.take(0) =~= Seq::<u64>::empty());
    }
}

/// A run started with phase length `p`, ticked with a camera at the instants
/// in `now`, counts one frame per tick and reports nothing for its first
/// `3 * p` ticks; tick `3 * p + 1` reports exactly once, over `3 * p` frames
/// and the time since the start, and leaves the harness idle, so that a new
/// start signal is accepted.
pub proof fn lemma_run_lifecycle(r0: BenchmarkRun, now: Seq<u64>)
    requires
        r0.frame == 0,
        MIN_FRAMES_PER_PHASE <= r0.frames_per_phase <= PHASE_NANOS,
        now.len() == 3 * r0.frames_per_phase + 1,
    ensures
        forall|n: int|
            0 <= n <= 3 * r0.frames_per_phase ==> run_after(Some(r0), #[trigger] now.take(n))
                == Some(BenchmarkRun { frame: n as u64, ..r0 }),
        forall|n: int|
            0 <= n < 3 * r0.frames_per_phase ==> !(step(
                run_after(Some(r0), #[trigger] now.take(n)),
                now[n],
                true,
            ).1 is Report),
        step(
            run_after(Some(r0), now.take(3 * r0.frames_per_phase)),
            now[3 * r0.frames_per_phase],
            true,
        ).1 == TickAction::Report(
            BenchReport {
                frames: (3 * r0.frames_per_phase) as u64,
                elapsed_nanos: elapsed_spec(r0.started_nanos, now[3 * r0.frames_per_phase]),
                average_frame_nanos: (elapsed_spec(r0.started_nanos, now[3 * r0.frames_per_phase])
                    as int / (3 * r0.frames_per_phase)) as u64,
            },
        ),
        run_after(Some(r0), now) is None,
{
    let p = r0.frames_per_phase;
    assert forall|n: int| 0 <= n <= 3 * p implies run_after(Some(r0), #[trigger] now.take(n))
        == Some(BenchmarkRun { frame: n as u64, ..r0 }) by {
        lemma_counts_ticks(r0, now, n as nat);
    }
    assert(now.drop_last() =~= now.take(3 * p));
}

/// The benchmark harness: idle, or holding the run in progress.
#[derive(Clone, Copy, Debug, PartialEq, Eq, Structural)]
pub struct BenchmarkHarness {
    pub run: Option<BenchmarkRun>,
}

impl BenchmarkHarness {
    /// A run's phase length is in range and its counter has not gone beyond the
    /// report frame.
    pub open spec fn wf(&self) -> bool {
        match self.run {
            None => true,
            Some(r) => MIN_FRAMES_PER_PHASE <= r.frames_per_phase <= PHASE_NANOS && r.frame <= 3
                * r.frames_per_phase,
        }
    }

    /// An idle harness.
    pub fn new() -> (r: Self)
        ensures
            r.wf(),
            r.run is None,
    {
        BenchmarkHarness { run: None }
    }

    /// Whether a run is in progress.
    pub fn is_running(&self) -> (r: bool)
        ensures
            r == self.run is Some,
    {
        self.run.is_some()
    }

    /// The start signal. While idle, begins a run at `now_nanos` whose phase
    /// length follows from the current frame duration, and returns that
    /// length; during a run the signal is ignored and `None` returned.
    pub fn start(&mut self, now_nanos: u64, frame_nanos: u64) -> (r: Option<u64>)
        requires
            old(self).wf(),
            frame_nanos > 0,
        ensures
            final(self).wf(),
            old(self).run is Some ==> r is None && *final(self) == *old(self),
            old(self).run is None ==> {
                &&& r == Some(frames_per_phase_spec(frame_nanos as nat) as u64)
                &&& final(self).run == Some(
                    BenchmarkRun {
                        started_nanos: now_nanos,
                        frame: 0,
                        frames_per_phase: r->Some_0,
                    },
                )
            },
    {
        if self.run.is_some() {
            return None;
        }
        let per_phase = frames_per_phase(frame_nanos);
        self.run = Some(BenchmarkRun { started_nanos: now_nanos, frame: 0, frames_per_phase: per_phase });
        Some(per_phase)
    }

    /// Advances the run by one rendered frame at `now_nanos`. Without a
    /// camera the tick is skipped and nothing changes.
    pub fn tick(&mut self, now_nanos: u64, camera_present: bool) -> (r: TickAction)
        requires
            old(self).wf(),
        ensures
            final(self).wf(),
            (final(self).run, r) == step(old(self).run, now_nanos, camera_present),
    {
        let r = match self.run {
            None => return TickAction::Skip,
            Some(r) => r,
        };
        if !camera_present {
            return TickAction::Skip;
        }
        let per_phase = r.frames_per_phase;
        if r.frame == 3 * per_phase {
            let elapsed: u64 = if now_nanos >= r.started_nanos {
                now_nanos - r.started_nanos
            } else {
                0
            };
            self.run = None;
            return TickAction::Report(
                BenchReport {
                    frames: r.frame,
                    elapsed_nanos: elapsed,
                    average_frame_nanos: elapsed / r.frame,
                },
            );
        }
        let action = if r.frame == 0 {
            TickAction::MoveCamera(Waypoint::First)
        } else if r.frame == per_phase {
            TickAction::MoveCamera(Waypoint::Second)
        } else if r.frame == 2 * per_phase {
            TickAction::MoveCamera(Waypoint::Third)
        } else {
            TickAction::Hold
        };
        self.run = Some(BenchmarkRun { frame: r.frame + 1, ..r });
        action
    }
}

} // verus!
