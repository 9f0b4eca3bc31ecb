use vstd::prelude::*;

verus! {

/// Frames per second that the loop paces itself to.
pub const FRAMES_PER_SECOND: u64 = 60;

/// Time between two scheduled wakes, in microseconds: one sixtieth of a
/// second rounded down to whole microseconds (16 666, two thirds of a
/// microsecond short of the exact period).
pub const FRAME_PERIOD_MICROS: u64 = 1_000_000 / FRAMES_PER_SECOND;

/// Width and height of the rendering surface, in physical pixels.
#[derive(Clone, Copy, Debug, PartialEq, Eq, Structural)]
pub struct SurfaceSize {
    pub width: u32,
    pub height: u32,
}

/// Where the loop stands between two events.
#[derive(Clone, Copy, Debug, PartialEq, Eq, Structural)]
pub enum Phase {
    /// No event has started the loop yet.
    Init,
    /// A wake is scheduled; the loop sleeps until it or an event comes.
    Waiting,
    /// The window was asked to close; the loop takes no further part.
    Exiting,
}

/// What the platform reports to the loop.
#[derive(Clone, Copy, Debug, PartialEq, Eq, Structural)]
pub enum LoopEvent {
    /// The loop has begun running.
    Started,
    /// The scheduled wake time has come.
    ResumeTimeReached,
    /// The window now has this size.
    Resized(SurfaceSize),
    /// The user asked to close the window.
    CloseRequested,
    /// The pointer moved; the distance travelled stays with the caller.
    PointerMoved,
    /// Anything else.
    Other,
}

/// What the caller is to do in answer to an event.
#[derive(Clone, Copy, Debug, PartialEq, Eq, Structural)]
pub enum LoopAction {
    /// Nothing.
    Idle,
    /// Sleep until this instant, in microseconds.
    Schedule(u64),
    /// Sleep until this instant, in microseconds, after rendering one frame now.
    ScheduleAndRender(u64),
    /// Resize the rendering surface to exactly this size.
    ResizeSurface(SurfaceSize),
    /// Report the pointer motion.
    LogPointerMotion,
    /// Leave the loop.
    Exit,
}

/// The state of the frame loop.
///
/// Instants are microseconds on the caller's monotonic clock.
#[derive(Clone, Copy, Debug, PartialEq, Eq, Structural)]
pub struct FrameLoop {
    pub phase: Phase,
    /// The instant the loop last scheduled itself to wake at.
    pub next_wake: u64,
    /// The size the rendering surface was last given.
    pub surface: SurfaceSize,
}

/// The wake instant scheduled by an event handled at `now`.
pub open spec fn wake_after(now: u64) -> u64 {
    (now + FRAME_PERIOD_MICROS) as u64
}

impl FrameLoop {
    /// The state after handling `event` at instant `now`, and the action that
    /// goes with it.
    pub open spec fn next(self, event: LoopEvent, now: u64) -> (FrameLoop, LoopAction) {
        if self.phase == Phase::Exiting {
            (self, LoopAction::Idle)
        } else {
            match event {
                LoopEvent::Started => (
                    FrameLoop { phase: Phase::Waiting, next_wake: wake_after(now), ..self },
                    LoopAction::Schedule(wake_after(now)),
                ),
                LoopEvent::ResumeTimeReached => (
                    FrameLoop { phase: Phase::Waiting, next_wake: wake_after(now), ..self },
                    LoopAction::ScheduleAndRender(wake_after(now)),
                ),
                LoopEvent::Resized(size) => (
                    FrameLoop { surface: size, ..self },
                    LoopAction::ResizeSurface(size),
                ),
                LoopEvent::CloseRequested => (
                    FrameLoop { phase: Phase::Exiting, ..self },
                    LoopAction::Exit,
                ),
                LoopEvent::PointerMoved => (self, LoopAction::LogPointerMotion),
                LoopEvent::Other => (self, LoopAction::Idle),
            }
        }
    }

    /// The state after handling each of `events`, an event with its instant,
    /// in order.
    pub open spec fn run(self, events: Seq<(LoopEvent, u64)>) -> FrameLoop
        decreases events.len(),
    {
        if events.len() == 0 {
            self
        } else {
            self.next(events[0].0, events[0].1).0.run(events.drop_first())
        }
    }

    /// The wake instants that the loop schedules while handling `events`, in
    /// the order it schedules them.
    pub open spec fn scheduled_wakes(self, events: Seq<(LoopEvent, u64)>) -> Seq<u64>
        decreases events.len(),
    {
        if events.len() == 0 {
            seq![]
        } else {
            let (l1, a) = self.next(events[0].0, events[0].1);
            let rest = l1.scheduled_wakes(events.drop_first());
            match a {
                LoopAction::Schedule(w) => seq![w] + rest,
                LoopAction::ScheduleAndRender(w) => seq![w] + rest,
                _ => rest,
            }
        }
    }

    /// `events` all come after the loop has started, each at an instant the
    /// clock can take one period beyond, and each tick at or after the wake
    /// that was scheduled when it comes.
    pub open spec fn ticks_follow_wakes(self, events: Seq<(LoopEvent, u64)>) -> bool
        decreases events.len(),
    {
        events.len() > 0 ==> {
            let (e, now) = events[0];
            &&& e != LoopEvent::Started
            &&& now <= u64::MAX - FRAME_PERIOD_MICROS
            &&& e == LoopEvent::ResumeTimeReached ==> now >= self.next_wake
            &&& self.next(e, now).0.ticks_follow_wakes(events.drop_first())
        }
    }

    /// A loop that has not started, drawing to a surface of the given size.
    pub fn new(surface: SurfaceSize) -> (r: FrameLoop)
        ensures
            r.phase == Phase::Init,
            r.next_wake == 0,
            r.surface == surface,
    {
        FrameLoop { phase: Phase::Init, next_wake: 0, surface }
    }

    /// Handles `event` at instant `now` and returns what the caller is to do.
    pub fn step(&mut self, event: LoopEvent, now: u64) -> (r: LoopAction)
        requires
            now <= u64::MAX - FRAME_PERIOD_MICROS,
        ensures
            (*final(self), r) == old(self).next(event, now),
    {
        if self.phase == Phase::Exiting {
            return LoopAction::Idle;
        }
        match event {
            LoopEvent::Started => {
                let wake = now + FRAME_PERIOD_MICROS;
                self.phase = Phase::Waiting;
                self.next_wake = wake;
                LoopAction::Schedule(wake)
            },
            LoopEvent::ResumeTimeReached => {
                let wake = now + FRAME_PERIOD_MICROS;
                self.phase = Phase::Waiting;
                self.next_wake = wake;
                LoopAction::ScheduleAndRender(wake)
            },
            LoopEvent::Resized(size) => {
                self.surface = size;
                LoopAction::ResizeSurface(size)
            },
            LoopEvent::CloseRequested => {
                self.phase = Phase::Exiting;
                LoopAction::Exit
            },
            LoopEvent::PointerMoved => LoopAction::LogPointerMotion,
            LoopEvent::Other => LoopAction::Idle,
        }
    }

    /// Whether the loop has not been asked to close.
    pub fn is_running(&self) -> (r: bool)
        ensures
            r <==> self.phase != Phase::Exiting,
    {
        self.phase != Phase::Exiting
    }
}

/// A tick taken once the scheduled wake has come schedules the next wake one
/// frame period after the tick: later than the wake just reached, by at least
/// one period, and by exactly one period where the tick came on time.
pub proof fn lemma_tick_advances_wake(l: FrameLoop, now: u64)
    requires
        l.phase == Phase::Waiting,
        now >= l.next_wake,
        now <= u64::MAX - FRAME_PERIOD_MICROS,
    ensures
        ({
            let (l2, a) = l.next(LoopEvent::ResumeTimeReached, now);
            &&& l2.phase == Phase::Waiting
            &&& a == LoopAction::ScheduleAndRender(l2.next_wake)
            &&& l2.next_wake == now + FRAME_PERIOD_MICROS
            &&& l2.next_wake > l.next_wake
            &&& l2.next_wake - l.next_wake >= FRAME_PERIOD_MICROS
            &&& now == l.next_wake ==> l2.next_wake - l.next_wake == FRAME_PERIOD_MICROS
        }),
{
}

/// Only the start of the loop and a tick move the scheduled wake.
pub proof fn lemma_other_events_keep_wake(l: FrameLoop, e: LoopEvent, now: u64)
    requires
        e != LoopEvent::Started,
        e != LoopEvent::ResumeTimeReached,
    ensures
        l.next(e, now).0.next_wake == l.next_wake,
{
}

/// A resize sets the surface to exactly the new size and changes nothing
/// else; no other event changes the surface.
pub proof fn lemma_resize_sets_surface(l: FrameLoop, e: LoopEvent, now: u64)
    requires
        l.phase != Phase::Exiting,
    ensures
        ({
            let (l2, a) = l.next(e, now);
            match e {
                LoopEvent::Resized(size) => {
                    &&& l2 == FrameLoop { surface: size, ..l }
                    &&& a == LoopAction::ResizeSurface(size)
                },
                _ => l2.surface == l.surface,
            }
        }),
{
}

/// Over every run of events after the loop has started, in which each tick
/// comes no earlier than its wake, the wakes the loop schedules form a
/// strictly increasing sequence, each later than the wake scheduled before
/// the run.
pub proof fn lemma_wakes_strictly_increase(l: FrameLoop, events: Seq<(LoopEvent, u64)>)
    requires
        l.ticks_follow_wakes(events),
    ensures
        forall|i: int, j: int|
            0 <= i < j < l.scheduled_wakes(events).len() ==> l.scheduled_wakes(events)[i]
                < l.scheduled_wakes(events)[j],
        forall|i: int|
            0 <= i < l.scheduled_wakes(events).len() ==> l.scheduled_wakes(events)[i]
                > l.next_wake,
    decreases events.len(),
{
    if events.len() > 0 {
        let (l1, a) = l.next(events[0].0, events[0].1);
        let rest = events.drop_first();
        lemma_wakes_strictly_increase(l1, rest);
        let tail = l1.scheduled_wakes(rest);
        let all = l.scheduled_wakes(events);
        match a {
            LoopAction::Schedule(w) => {
                assert(all == seq![w] + tail);
            },
            LoopAction::ScheduleAndRender(w) => {
                assert(all == seq![w] + tail);
            },
            _ => {
                assert(all == tail);
            },
        }
    }
}

/// A run of events with no resize among them leaves the surface as it was.
pub proof fn lemma_run_keeps_surface(l: FrameLoop, events: Seq<(LoopEvent, u64)>)
    requires
        forall|i: int| 0 <= i < events.len() ==> !(events[i].0 is Resized),
    ensures
        l.run(events).surface == l.surface,
    decreases events.len(),
{
    if events.len() > 0 {
        let rest = events.drop_first();
        assert forall|i: int| 0 <= i < rest.len() implies !(rest[i].0 is Resized) by {
            assert(rest[i] == events[i + 1]);
        }
        lemma_run_keeps_surface(l.next(events[0].0, events[0].1).0, rest);
    }
}

/// After a resize of a running loop, the surface keeps exactly the new size
/// until the next resize, whatever else comes.
pub proof fn lemma_surface_follows_last_resize(
    l: FrameLoop,
    size: SurfaceSize,
    now: u64,
    events: Seq<(LoopEvent, u64)>,
)
    requires
        l.phase != Phase::Exiting,
        forall|i: int| 0 <= i < events.len() ==> !(events[i].0 is Resized),
    ensures
        l.next(LoopEvent::Resized(size), now).0.run(events).surface == size,
{
    lemma_run_keeps_surface(l.next(LoopEvent::Resized(size), now).0, events);
}

/// A tick after any run of events from a running loop renders exactly when no
/// close request came in the run, and does nothing otherwise; a tick never
/// ends the loop.
pub proof fn lemma_tick_after_run(l: FrameLoop, events: Seq<(LoopEvent, u64)>, now: u64)
    requires
        l.phase != Phase::Exiting,
        now <= u64::MAX - FRAME_PERIOD_MICROS,
    ensures
        ({
            let a = l.run(events).next(LoopEvent::ResumeTimeReached, now).1;
            &&& a != LoopAction::Exit
            &&& (a is ScheduleAndRender) <==> !(exists|i: int|
                0 <= i < events.len() && events[i].0 == LoopEvent::CloseRequested)
            &&& !(a is ScheduleAndRender) ==> a == LoopAction::Idle
        }),
{
    lemma_run_ends_iff_close(l, events);
}

/// A close request ends a running loop, and nothing else does.
pub proof fn lemma_only_close_exits(l: FrameLoop, e: LoopEvent, now: u64)
    requires
        l.phase != Phase::Exiting,
    ensures
        (l.next(e, now).0.phase == Phase::Exiting) <==> (e == LoopEvent::CloseRequested),
        (l.next(e, now).1 == LoopAction::Exit) <==> (e == LoopEvent::CloseRequested),
{
}

/// Once ended, the loop stays as it is whatever comes after.
pub proof fn lemma_exit_is_final(l: FrameLoop, events: Seq<(LoopEvent, u64)>)
    requires
        l.phase == Phase::Exiting,
    ensures
        l.run(events) == l,
    decreases events.len(),
{
    if events.len() > 0 {
        lemma_exit_is_final(l, events.drop_first());
    }
}

/// Over any run of events from a running loop, the loop has ended exactly
/// when one of the events was a close request.
pub proof fn lemma_run_ends_iff_close(l: FrameLoop, events: Seq<(LoopEvent, u64)>)
    requires
        l.phase != Phase::Exiting,
    ensures
        (l.run(events).phase == Phase::Exiting) <==> (exists|i: int|
            0 <= i < events.len() && events[i].0 == LoopEvent::CloseRequested),
    decreases events.len(),
{
    if events.len() > 0 {
        let l1 = l.next(events[0].0, events[0].1).0;
        let rest = events.drop_first();
        if events[0].0 == LoopEvent::CloseRequested {
            lemma_exit_is_final(l1, rest);
        } else {
            lemma_run_ends_iff_close(l1, rest);
            if l.run(events).phase == Phase::Exiting {
                let j = choose|j: int| 0 <= j < rest.len() && rest[j].0 == LoopEvent::CloseRequested;
                assert(events[j + 1] == rest[j]);
            } else {
                assert forall|i: int| 0 <= i < events.len() implies events[i].0
                    != LoopEvent::CloseRequested by {
                    if i > 0 {
                        assert(rest[i - 1] == events[i]);
                    }
                }
            }
        }
    }
}

} // verus!
