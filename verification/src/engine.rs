use std::collections::VecDeque;
use vstd::prelude::*;

verus! {

/// Nanoseconds in a millisecond.
pub const NANOS_PER_MILLI: u64 = 1_000_000;

/// Nanoseconds in a second.
pub const NANOS_PER_SECOND: u64 = 1_000_000_000;

/// The settings an engine starts with. A frame rate of 0 means no bound;
/// a smoothing step of 0 means no smoothing.
#[derive(Clone, Copy, Debug, PartialEq, Eq, Structural)]
pub struct EngineSettings {
    pub min_fps: u32,
    pub max_fps: u32,
    pub max_inactive_fps: u32,
    pub time_smooth_step: u32,
}

impl Default for EngineSettings {
    /// At most 30 frames a second, no lower bound, no smoothing.
    fn default() -> (settings: EngineSettings)
        ensures
            settings == (EngineSettings {
                min_fps: 0,
                max_fps: 30,
                max_inactive_fps: 0,
                time_smooth_step: 0,
            }),
    {
        EngineSettings { min_fps: 0, max_fps: 30, max_inactive_fps: 0, time_smooth_step: 0 }
    }
}

/// What the main loop waits for.
#[derive(Clone, Copy, Debug, PartialEq, Eq, Structural)]
pub enum Phase {
    /// The loop has not begun.
    Idle,
    /// The events of this iteration are being polled.
    Polling,
    /// The application updates and submits a frame while the frame before
    /// it is flushed.
    Framing,
    /// The application looks at the frame that was completed.
    PostUpdating,
    /// The loop has ended.
    Stopped,
}

/// What the caller of the main loop has done.
#[derive(Clone, Copy, Debug, PartialEq, Eq, Structural)]
pub enum Done {
    /// Nothing yet.
    Started,
    /// The events were polled, and each was handed to `dispatch`.
    Polled,
    /// Update and submission of one frame and the flush of the one before
    /// have both come to an end; `failed` says that one of them failed.
    Frame { failed: bool },
    /// The application has looked at the completed frame.
    PostUpdate { failed: bool },
}

/// What the caller of the main loop has to do next.
#[derive(Clone, Copy, Debug, PartialEq, Eq, Structural)]
pub enum Task {
    /// Poll the events, hand each to `dispatch` up to the first that stops
    /// the engine, and report `Done::Polled`.
    Poll,
    /// Advance the timestep and swap the frames; then let a worker run the
    /// application's update and submission, flush the frame before it
    /// meanwhile, wait for both, and report `Done::Frame`.
    Frame,
    /// Let a worker run the application's post-update, and report
    /// `Done::PostUpdate`.
    PostUpdate,
    /// Leave the loop; `failed` says that it ends because of a failure.
    Exit { failed: bool },
}

/// The kinds of event that the main loop tells apart.
#[derive(Clone, Copy, Debug, PartialEq, Eq, Structural)]
pub enum EventKind {
    /// The application was asked to close.
    Closed,
    /// Something else happened to the application.
    Application,
    /// An input device reported something.
    InputDevice,
    /// Any other event.
    Other,
}

/// What is done with an event.
#[derive(Clone, Copy, Debug, PartialEq, Eq, Structural)]
pub enum Dispatch {
    /// The engine was stopped; the events behind this one are not looked at.
    Stop,
    /// The event goes to the input system.
    Process,
    /// The event is dropped.
    Drop,
}

/// What a caller that holds back the next frame does.
#[derive(Clone, Copy, Debug, PartialEq, Eq, Structural)]
pub enum Wait {
    /// Sleep for this many nanoseconds, then ask again.
    Sleep(u64),
    /// Give up the rest of the time slice, then ask again.
    Yield,
    /// Go on with the frame.
    Proceed,
}

/// The sum of `samples`.
pub open spec fn total(samples: Seq<u64>) -> nat
    decreases samples.len(),
{
    if samples.len() == 0 {
        0
    } else {
        total(samples.drop_last()) + samples.last() as nat
    }
}

/// The arithmetic mean of `samples`, rounded down; 0 if there are none.
pub open spec fn mean(samples: Seq<u64>) -> nat {
    if samples.len() == 0 {
        0
    } else {
        total(samples) / samples.len()
    }
}

/// The shortest time a frame may take, in nanoseconds, at `fps` frames a
/// second: a whole number of milliseconds.
pub open spec fn frame_interval(fps: u32) -> nat
    recommends
        fps > 0,
{
    ((1000int / fps as int) * NANOS_PER_MILLI) as nat
}

/// `elapsed`, but no more than a frame takes at `min_fps` frames a second,
/// if `min_fps` is not 0.
pub open spec fn clamped(min_fps: u32, elapsed: u64) -> u64 {
    if min_fps > 0 && elapsed > frame_interval(min_fps) {
        frame_interval(min_fps) as u64
    } else {
        elapsed
    }
}

/// The samples kept once `sample` has come in before `history`, with a
/// window of `window` samples.
pub open spec fn remembered(history: Seq<u64>, sample: u64, window: usize) -> Seq<u64> {
    let all = seq![sample] + history;
    if all.len() > window {
        all.take(window as int)
    } else {
        all
    }
}

/// What a caller that holds back the next frame does when `since`
/// nanoseconds have passed since the last frame began, with at most
/// `max_fps` frames a second.
pub open spec fn wait_for(max_fps: u32, since: u64) -> Wait {
    if max_fps == 0 || since > frame_interval(max_fps) {
        Wait::Proceed
    } else if since + 5 * NANOS_PER_MILLI < frame_interval(max_fps) {
        Wait::Sleep(NANOS_PER_MILLI)
    } else {
        Wait::Yield
    }
}

/// The step of the main loop: from whether the engine is alive, what the
/// loop waits for and what was done, to what it waits for next and what is
/// to do.
pub open spec fn next_task(alive: bool, phase: Phase, done: Done) -> (Phase, Task) {
    match (phase, done) {
        (Phase::Stopped, _) => (Phase::Stopped, Task::Exit { failed: false }),
        (Phase::Idle, Done::Started) | (Phase::PostUpdating, Done::PostUpdate { failed: false }) =>
            if alive {
                (Phase::Polling, Task::Poll)
            } else {
                (Phase::Stopped, Task::Exit { failed: false })
            },
        (Phase::Polling, Done::Polled) => if alive {
            (Phase::Framing, Task::Frame)
        } else {
            (Phase::Stopped, Task::Exit { failed: false })
        },
        (Phase::Framing, Done::Frame { failed: false }) => (Phase::PostUpdating, Task::PostUpdate),
        _ => (Phase::Stopped, Task::Exit { failed: true }),
    }
}

/// The timing and the life of the main loop. Times are in nanoseconds.
pub struct Engine {
    pub min_fps: u32,
    pub max_fps: u32,
    pub max_inactive_fps: u32,
    pub smoothing_step: usize,
    /// The last samples of elapsed time, the latest first.
    pub previous_timesteps: VecDeque<u64>,
    pub timestep: u64,
    pub alive: bool,
    pub phase: Phase,
}

impl Engine {
    /// An engine with the default settings.
    pub fn new() -> (engine: Engine)
        ensures
            engine.min_fps == 0,
            engine.max_fps == 30,
            engine.max_inactive_fps == 0,
            engine.smoothing_step == 0,
            engine.previous_timesteps@.len() == 0,
            engine.timestep == 0,
            engine.alive,
            engine.phase == Phase::Idle,
    {
        Engine::new_with(EngineSettings::default())
    }

    /// An engine with these settings, alive, before its first frame.
    pub fn new_with(settings: EngineSettings) -> (engine: Engine)
        ensures
            engine.min_fps == settings.min_fps,
            engine.max_fps == settings.max_fps,
            engine.max_inactive_fps == settings.max_inactive_fps,
            engine.smoothing_step == settings.time_smooth_step,
            engine.previous_timesteps@.len() == 0,
            engine.timestep == 0,
            engine.alive,
            engine.phase == Phase::Idle,
    {
        Engine {
            min_fps: settings.min_fps,
            max_fps: settings.max_fps,
            max_inactive_fps: settings.max_inactive_fps,
            smoothing_step: settings.time_smooth_step as usize,
            previous_timesteps: VecDeque::new(),
            timestep: 0,
            alive: true,
            phase: Phase::Idle,
        }
    }

    /// Takes the main loop one step on: `done` says what the caller has
    /// done, the task returned what it has to do next. The loop ends when
    /// the engine was stopped, when a frame or a post-update failed, or when
    /// `done` is not what the loop was waiting for; the last two end it as
    /// failed.
    pub fn run(&mut self, done: Done) -> (task: Task)
        ensures
            (final(self).phase, task) == next_task(old(self).alive, old(self).phase, done),
            *final(self) == (Engine { phase: final(self).phase, ..*old(self) }),
    {
        let (phase, task) = match (self.phase, done) {
            (Phase::Stopped, _) => (Phase::Stopped, Task::Exit { failed: false }),
            (Phase::Idle, Done::Started)
            | (Phase::PostUpdating, Done::PostUpdate { failed: false }) => if self.alive {
                (Phase::Polling, Task::Poll)
            } else {
                (Phase::Stopped, Task::Exit { failed: false })
            },
            (Phase::Polling, Done::Polled) => if self.alive {
                (Phase::Framing, Task::Frame)
            } else {
                (Phase::Stopped, Task::Exit { failed: false })
            },
            (Phase::Framing, Done::Frame { failed: false }) => (
                Phase::PostUpdating,
                Task::PostUpdate,
            ),
            _ => (Phase::Stopped, Task::Exit { failed: true }),
        };
        self.phase = phase;
        task
    }

    /// Decides what is done with an event. A request to close stops the
    /// engine; what an input device reports goes to the input system;
    /// everything else is dropped.
    pub fn dispatch(&mut self, event: EventKind) -> (r: Dispatch)
        ensures
            r == match event {
                EventKind::Closed => Dispatch::Stop,
                EventKind::InputDevice => Dispatch::Process,
                _ => Dispatch::Drop,
            },
            *final(self) == (Engine {
                alive: old(self).alive && event != EventKind::Closed,
                ..*old(self)
            }),
    {
        match event {
            EventKind::Closed => {
                self.stop();
                Dispatch::Stop
            },
            EventKind::InputDevice => Dispatch::Process,
            _ => Dispatch::Drop,
        }
    }

    /// Stops the engine: the main loop ends before its next frame.
    pub fn stop(&mut self)
        ensures
            *final(self) == (Engine { alive: false, ..*old(self) }),
    {
        self.alive = false;
    }

    /// What a caller that holds back the next frame does when `since`
    /// nanoseconds have passed since the last frame began. With no upper
    /// bound on the frame rate, or once a frame's time has passed, the frame
    /// goes on. With more than 5 milliseconds to go the caller sleeps for
    /// one; with less it yields.
    pub fn throttle(&self, since: u64) -> (wait: Wait)
        ensures
            wait == wait_for(self.max_fps, since),
    {
        if self.max_fps == 0 {
            return Wait::Proceed;
        }
        let interval = (1000 / self.max_fps) as u64 * NANOS_PER_MILLI;
        if since > interval {
            Wait::Proceed
        } else if since < interval && interval - since > 5 * NANOS_PER_MILLI {
            Wait::Sleep(NANOS_PER_MILLI)
        } else {
            Wait::Yield
        }
    }

    /// Begins a frame `elapsed` nanoseconds after the one before it, and
    /// returns the new timestep.
    ///
    /// `elapsed` is first brought down to what a frame takes at the lowest
    /// frame rate, if one is set. Without smoothing that is the timestep.
    /// With smoothing the sample is remembered before the earlier ones, of
    /// which only as many are kept as make up the window together with it,
    /// and the timestep is the mean of what is remembered.
    pub fn advance(&mut self, elapsed: u64) -> (timestep: u64)
        ensures
            timestep == final(self).timestep,
            final(self).previous_timesteps@ == if old(self).smoothing_step > 0 {
                remembered(
                    old(self).previous_timesteps@,
                    clamped(old(self).min_fps, elapsed),
                    old(self).smoothing_step,
                )
            } else {
                old(self).previous_timesteps@
            },
            timestep == if old(self).smoothing_step > 0 {
                mean(final(self).previous_timesteps@)
            } else {
                clamped(old(self).min_fps, elapsed) as nat
            },
            final(self).min_fps == old(self).min_fps,
            final(self).max_fps == old(self).max_fps,
            final(self).max_inactive_fps == old(self).max_inactive_fps,
            final(self).smoothing_step == old(self).smoothing_step,
            final(self).alive == old(self).alive,
            final(self).phase == old(self).phase,
    {
        let mut sample = elapsed;
        if self.min_fps > 0 {
            let ceiling = (1000 / self.min_fps) as u64 * NANOS_PER_MILLI;
            if sample > ceiling {
                sample = ceiling;
            }
        }
        if self.smoothing_step > 0 {
            self.previous_timesteps.push_front(sample);
            if self.previous_timesteps.len() > self.smoothing_step {
                self.previous_timesteps.truncate(self.smoothing_step);
            }
            self.timestep = mean_of(&self.previous_timesteps);
        } else {
            self.timestep = sample;
        }
        self.timestep
    }

    /// Sets the lowest frame rate; 0 for none. A frame that took longer
    /// than a frame takes at this rate counts as if it had taken that long.
    pub fn set_min_fps(&mut self, fps: u32)
        ensures
            *final(self) == (Engine { min_fps: fps, ..*old(self) }),
    {
        self.min_fps = fps;
    }

    /// Sets the highest frame rate; 0 for none.
    pub fn set_max_fps(&mut self, fps: u32)
        ensures
            *final(self) == (Engine { max_fps: fps, ..*old(self) }),
    {
        self.max_fps = fps;
    }

    /// Sets the highest frame rate while the application has no input
    /// focus; 0 for none.
    pub fn set_max_inactive_fps(&mut self, fps: u32)
        ensures
            *final(self) == (Engine { max_inactive_fps: fps, ..*old(self) }),
    {
        self.max_inactive_fps = fps;
    }

    /// Sets over how many frames the timestep is averaged; 0 for no
    /// smoothing.
    pub fn set_time_smoothing_step(&mut self, step: u32)
        ensures
            *final(self) == (Engine { smoothing_step: step as usize, ..*old(self) }),
    {
        self.smoothing_step = step as usize;
    }

    /// The frames a second that the part of the timestep below one second
    /// comes to, rounded down; 0 if that part is 0.
    pub fn get_fps(&self) -> (fps: u32)
        ensures
            fps == if self.timestep % NANOS_PER_SECOND == 0 {
                0
            } else {
                NANOS_PER_SECOND as int / (self.timestep % NANOS_PER_SECOND) as int
            },
    {
        let nanos = self.timestep % NANOS_PER_SECOND;
        if nanos == 0 {
            0
        } else {
            (NANOS_PER_SECOND / nanos) as u32
        }
    }

    /// The timestep of the last frame in nanoseconds.
    pub fn timestep(&self) -> (nanos: u64)
        ensures
            nanos == self.timestep,
    {
        self.timestep
    }
}

proof fn lemma_total_bound(samples: Seq<u64>)
    ensures
        total(samples) <= samples.len() * u64::MAX,
    decreases samples.len(),
{
    if samples.len() > 0 {
        lemma_total_bound(samples.drop_last());
        assert((samples.len() - 1) * u64::MAX + u64::MAX == samples.len() * u64::MAX)
            by (nonlinear_arith);
    }
}

/// The mean of samples lies between the least and the greatest of them.
pub proof fn lemma_mean_within(samples: Seq<u64>, low: u64, high: u64)
    requires
        samples.len() > 0,
        forall|i: int| 0 <= i < samples.len() ==> low <= (#[trigger] samples[i]) <= high,
    ensures
        low <= mean(samples) <= high,
{
    lemma_total_within(samples, low, high);
    let n = samples.len() as int;
    let t = total(samples) as int;
    assert(low <= t / n <= high) by (nonlinear_arith)
        requires
            n > 0,
            n * low <= t <= n * high,
    ;
}

proof fn lemma_total_within(samples: Seq<u64>, low: u64, high: u64)
    requires
        forall|i: int| 0 <= i < samples.len() ==> low <= (#[trigger] samples[i]) <= high,
    ensures
        samples.len() * low <= total(samples) <= samples.len() * high,
    decreases samples.len(),
{
    if samples.len() > 0 {
        let front = samples.drop_last();
        assert forall|i: int| 0 <= i < front.len() implies low <= (#[trigger] front[i]) <= high by {
            assert(front[i] == samples[i]);
        }
        lemma_total_within(front, low, high);
        let n = samples.len() as int;
        assert((n - 1) * low + low == n * low) by (nonlinear_arith);
        assert((n - 1) * high + high == n * high) by (nonlinear_arith);
    }
}

/// A sample is never raised, and with a lowest frame rate set it is no
/// longer than a frame takes at that rate.
pub proof fn lemma_clamped(min_fps: u32, elapsed: u64)
    ensures
        clamped(min_fps, elapsed) <= elapsed,
        min_fps > 0 ==> clamped(min_fps, elapsed) <= frame_interval(min_fps),
        min_fps == 0 || elapsed <= frame_interval(min_fps) ==> clamped(min_fps, elapsed)
            == elapsed,
{
}

/// The samples remembered begin with the latest, go on with the earlier
/// ones in their order, and are as many as the window holds, or all if
/// those are fewer.
pub proof fn lemma_remembered(history: Seq<u64>, sample: u64, window: usize)
    requires
        window > 0,
    ensures
        remembered(history, sample, window).len() == if history.len() + 1 > window {
            window as nat
        } else {
            history.len() + 1
        },
        remembered(history, sample, window)[0] == sample,
        forall|i: int|
            1 <= i < remembered(history, sample, window).len() ==> remembered(
                history,
                sample,
                window,
            )[i] == history[i - 1],
{
}

/// The main loop begins a frame only while the engine is alive, and once
/// it has ended it stays ended.
pub proof fn lemma_loop_ends(alive: bool, phase: Phase, done: Done)
    ensures
        next_task(alive, phase, done).1 == Task::Frame ==> alive && phase == Phase::Polling,
        next_task(alive, phase, done).1 == Task::Poll ==> alive,
        phase == Phase::Stopped ==> next_task(alive, phase, done) == (
            Phase::Stopped,
            Task::Exit { failed: false },
        ),
        next_task(alive, phase, done).1 is Exit <==> next_task(alive, phase, done).0
            == Phase::Stopped,
{
}

/// The arithmetic mean of `samples`, rounded down; 0 if there are none.
pub fn mean_of(samples: &VecDeque<u64>) -> (m: u64)
    ensures
        m == mean(samples@),
{
    let n = samples.len();
    if n == 0 {
        return 0;
    }
    let mut sum: u128 = 0;
    let mut i: usize = 0;
    while i < n
        invariant
            i <= n,
            n == samples@.len(),
            sum == total(samples@.take(i as int)),
        decreases n - i,
    {
        proof {
            assert(samples@.take(i + 1).drop_last() =~= samples@.take(i as int));
            lemma_total_bound(samples@.take(i + 1));
            assert((i + 1) * u64::MAX <= usize::MAX * u64::MAX) by (nonlinear_arith)
                requires
                    i + 1 <= usize::MAX,
            ;
            assert(usize::MAX * u64::MAX <= u64::MAX * u64::MAX) by (nonlinear_arith)
                requires
                    usize::MAX <= u64::MAX,
            ;
        }
        sum = sum + samples[i] as u128;
        i += 1;
    }
    proof {
        assert(samples@.take(n as int) =~= samples@);
        lemma_total_bound(samples@);
        let t = total(samples@) as int;
        let count = n as int;
        assert(t / count <= u64::MAX) by (nonlinear_arith)
            requires
                count > 0,
                0 <= t <= count * u64::MAX,
        ;
    }
    (sum / n as u128) as u64
}

} // verus!
