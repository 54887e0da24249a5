//! The turns of the render thread: what it does, in which order, and how it counts.
use crate::pacing::{RenderClock, count_turn};
#[allow(unused_imports)]
use crate::pacing::{counted, counted_all, due_after, law_count_is_publications, next_due, publications};
use vstd::prelude::*;

verus! {

/// What the thread is to do next.
#[derive(Clone, Copy, Debug, PartialEq, Eq, Structural)]
pub enum TurnAction {
    /// Makes the renderer.
    Create,
    /// Takes the guard of the surface, under which frames are encoded and submitted.
    Guard,
    /// Renders the scene as it is now.
    Render,
    /// Lets go of the guard.
    Release,
    /// Asks the window to compose itself again, without drawing its chrome.
    Redraw,
    /// Sleeps until a time.
    SleepUntil(u128),
}

/// What the thread has done.
#[derive(Clone, Copy, Debug, PartialEq, Eq, Structural)]
pub enum TurnEvent {
    /// The renderer was made, at a time.
    Created(u128),
    Guarded,
    /// A frame was published, or none could be.
    Rendered(bool),
    Released,
    /// The window was asked, at a time.
    Redrawn(u128),
    Woken,
}

/// How far a turn has come.
#[derive(Clone, Copy, Debug, PartialEq, Eq, Structural)]
pub enum TurnPhase {
    Creating,
    Guarding,
    Rendering,
    Releasing,
    Redrawing,
    Sleeping,
}

/// A render thread: where it stands, when its next turn is due, and how many frames it has
/// published.
pub struct ThreadModel {
    pub phase: TurnPhase,
    pub deadline: int,
    pub period: int,
    pub frames: u64,
}

/// The event is an answer to what was to be done in the phase.
pub open spec fn fits(phase: TurnPhase, event: TurnEvent) -> bool {
    match phase {
        TurnPhase::Creating => event is Created,
        TurnPhase::Guarding => event is Guarded,
        TurnPhase::Rendering => event is Rendered,
        TurnPhase::Releasing => event is Released,
        TurnPhase::Redrawing => event is Redrawn,
        TurnPhase::Sleeping => event is Woken,
    }
}

/// How the thread goes on after an event.
pub open spec fn turned_on(before: ThreadModel, event: TurnEvent) -> (ThreadModel, TurnAction) {
    match event {
        TurnEvent::Created(now) => (
            ThreadModel { phase: TurnPhase::Guarding, deadline: now as int, ..before },
            TurnAction::Guard,
        ),
        TurnEvent::Guarded => (
            ThreadModel { phase: TurnPhase::Rendering, ..before },
            TurnAction::Render,
        ),
        TurnEvent::Rendered(published) => (
            ThreadModel {
                phase: TurnPhase::Releasing,
                frames: counted(before.frames, published),
                ..before
            },
            TurnAction::Release,
        ),
        TurnEvent::Released => (
            ThreadModel { phase: TurnPhase::Redrawing, ..before },
            TurnAction::Redraw,
        ),
        TurnEvent::Redrawn(now) => {
            let due = next_due(before.deadline, before.period, now as int);
            (
                ThreadModel { phase: TurnPhase::Sleeping, deadline: due, ..before },
                TurnAction::SleepUntil(due as u128),
            )
        },
        TurnEvent::Woken => (
            ThreadModel { phase: TurnPhase::Guarding, ..before },
            TurnAction::Guard,
        ),
    }
}

/// A render thread.
#[derive(Clone, Copy, Debug)]
pub struct RenderThread {
    pub phase: TurnPhase,
    pub clock: RenderClock,
    pub frames: u64,
}

impl View for RenderThread {
    type V = ThreadModel;

    open spec fn view(&self) -> ThreadModel {
        ThreadModel {
            phase: self.phase,
            deadline: self.clock.deadline as int,
            period: self.clock.period as int,
            frames: self.frames,
        }
    }
}

/// A thread that has done nothing yet.
pub open spec fn thread_start(period: int) -> ThreadModel {
    ThreadModel { phase: TurnPhase::Creating, deadline: 0, period, frames: 0 }
}

impl RenderThread {
    /// Starts a thread whose turns are `period` apart, and gives what is to be done first.
    pub fn start(period: u128) -> (r: (RenderThread, TurnAction))
        ensures
            r.0@ == thread_start(period as int),
            r.1 == TurnAction::Create,
    {
        let clock = RenderClock::new(0, period);
        (RenderThread { phase: TurnPhase::Creating, clock, frames: 0 }, TurnAction::Create)
    }

    /// Goes on after an event, and gives what is to be done next.
    pub fn advance(&mut self, event: TurnEvent) -> (r: TurnAction)
        requires
            fits(old(self).phase, event),
            event is Redrawn ==> old(self).clock.deadline + old(self).clock.period <= u128::MAX,
        ensures
            (final(self)@, r) == turned_on(old(self)@, event),
    {
        match event {
            TurnEvent::Created(now) => {
                self.clock = RenderClock::new(now, self.clock.period);
                self.phase = TurnPhase::Guarding;
                TurnAction::Guard
            },
            TurnEvent::Guarded => {
                self.phase = TurnPhase::Rendering;
                TurnAction::Render
            },
            TurnEvent::Rendered(published) => {
                self.frames = count_turn(self.frames, published);
                self.phase = TurnPhase::Releasing;
                TurnAction::Release
            },
            TurnEvent::Released => {
                self.phase = TurnPhase::Redrawing;
                TurnAction::Redraw
            },
            TurnEvent::Redrawn(now) => {
                let mut clock = self.clock;
                clock.frame_ended(now);
                self.clock = clock;
                self.phase = TurnPhase::Sleeping;
                TurnAction::SleepUntil(self.clock.deadline)
            },
            TurnEvent::Woken => {
                self.phase = TurnPhase::Guarding;
                TurnAction::Guard
            },
        }
    }
}

/// Where a thread stands, and all that was to be done so far.
pub struct ThreadRun {
    pub thread: ThreadModel,
    pub actions: Seq<TurnAction>,
}

/// A thread after events.
pub open spec fn thread_run(period: int, events: Seq<TurnEvent>) -> ThreadRun
    decreases events.len(),
{
    if events.len() == 0 {
        ThreadRun { thread: thread_start(period), actions: seq![TurnAction::Create] }
    } else {
        let before = thread_run(period, events.drop_last());
        let (thread, action) = turned_on(before.thread, events.last());
        ThreadRun { thread, actions: before.actions.push(action) }
    }
}

/// The events are answers, each to what was to be done before it.
pub open spec fn all_fit(period: int, events: Seq<TurnEvent>) -> bool
    decreases events.len(),
{
    events.len() == 0 || (all_fit(period, events.drop_last()) && fits(
        thread_run(period, events.drop_last()).thread.phase,
        events.last(),
    ))
}

/// For each call of the renderer, in order, whether it has published a frame.
pub open spec fn renderings(events: Seq<TurnEvent>) -> Seq<bool>
    decreases events.len(),
{
    if events.len() == 0 {
        Seq::empty()
    } else {
        let before = renderings(events.drop_last());
        match events.last() {
            TurnEvent::Rendered(published) => before.push(published),
            _ => before,
        }
    }
}

/// When the turns have ended, in order.
pub open spec fn endings(events: Seq<TurnEvent>) -> Seq<int>
    decreases events.len(),
{
    if events.len() == 0 {
        Seq::empty()
    } else {
        let before = endings(events.drop_last());
        match events.last() {
            TurnEvent::Redrawn(now) => before.push(now as int),
            _ => before,
        }
    }
}

/// The phase after `n` events: the renderer is made once, and then five phases make a turn.
pub open spec fn phase_after(n: int) -> TurnPhase {
    if n == 0 {
        TurnPhase::Creating
    } else if n % 5 == 1 {
        TurnPhase::Guarding
    } else if n % 5 == 2 {
        TurnPhase::Rendering
    } else if n % 5 == 3 {
        TurnPhase::Releasing
    } else if n % 5 == 4 {
        TurnPhase::Redrawing
    } else {
        TurnPhase::Sleeping
    }
}

/// The action is what is to be done in a phase.
pub open spec fn belongs(action: TurnAction, phase: TurnPhase) -> bool {
    match phase {
        TurnPhase::Creating => action is Create,
        TurnPhase::Guarding => action is Guard,
        TurnPhase::Rendering => action is Render,
        TurnPhase::Releasing => action is Release,
        TurnPhase::Redrawing => action is Redraw,
        TurnPhase::Sleeping => action is SleepUntil,
    }
}

/// The thread makes its renderer once, at the start. After that every turn takes the guard, renders
/// once under it, lets go of it, asks the window once to compose itself again, whether a frame was
/// published or not, and sleeps.
pub proof fn law_turns_are_regular(period: int, events: Seq<TurnEvent>, i: int)
    requires
        all_fit(period, events),
        0 <= i <= events.len(),
    ensures
        thread_run(period, events).actions.len() == events.len() + 1,
        thread_run(period, events).thread.phase == phase_after(events.len() as int),
        belongs(thread_run(period, events).actions[i], phase_after(i)),
        thread_run(period, events).actions[i] is Create <==> i == 0,
    decreases events.len(),
{
    if events.len() > 0 {
        let n = events.len() as int;
        law_turns_are_regular(
            period,
            events.drop_last(),
            if i < n {
                i
            } else {
                0
            },
        );
    }
}

/// The thread has counted exactly the frames that were published, over all its turns. (The counter
/// does not come round in less than 2^64 events.)
pub proof fn law_thread_counts_published(period: int, events: Seq<TurnEvent>)
    requires
        events.len() <= u64::MAX,
    ensures
        thread_run(period, events).thread.frames == publications(renderings(events)),
{
    lemma_counted(period, events);
    law_count_is_publications(renderings(events));
}

/// The count of the thread is that of its renderings.
proof fn lemma_counted(period: int, events: Seq<TurnEvent>)
    ensures
        thread_run(period, events).thread.frames == counted_all(renderings(events)),
        renderings(events).len() <= events.len(),
    decreases events.len(),
{
    if events.len() > 0 {
        lemma_counted(period, events.drop_last());
        let before = renderings(events.drop_last());
        if let TurnEvent::Rendered(published) = events.last() {
            assert(before.push(published).drop_last() =~= before);
        }
    }
}

/// The turns go by absolute deadlines: the next one is due when the clock that started with the
/// renderer says so for the turns that have ended.
pub proof fn law_turns_keep_the_clock(period: int, start: u128, events: Seq<TurnEvent>)
    requires
        events.len() > 0,
        events[0] == TurnEvent::Created(start),
        all_fit(period, events),
    ensures
        thread_run(period, events).thread.period == period,
        thread_run(period, events).thread.deadline == due_after(
            start as int,
            period,
            endings(events),
        ),
    decreases events.len(),
{
    let front = events.drop_last();
    if front.len() > 0 {
        law_turns_keep_the_clock(period, start, front);
        law_turns_are_regular(period, front, 0);
        let before = endings(front);
        if let TurnEvent::Redrawn(now) = events.last() {
            assert(before.push(now as int).drop_last() =~= before);
            assert(before.push(now as int).last() == now as int);
        }
    } else {
        assert(thread_run(period, front).thread == thread_start(period));
        assert(events.last() == events[0]);
        assert(endings(front).len() == 0);
    }
}

/// Each event takes the thread on by one step of a turn: the guard is taken for a new turn when
/// the renderer is there or the thread wakes up, the scene is rendered under the guard, the guard
/// is let go of, the window is asked, and the thread sleeps until the deadline that the clock has
/// set. The renderer's making starts the clock, only a rendering counts frames, and only the end
/// of a turn moves the deadline.
pub proof fn law_thread_takes_each_step(
    thread: &mut RenderThread,
    event: TurnEvent,
    action: TurnAction,
)
    requires
        fits(old(thread).phase, event),
        event is Redrawn ==> old(thread).clock.deadline + old(thread).clock.period <= u128::MAX,
        call_ensures(RenderThread::advance, (thread, event), action),
    ensures
        final(thread).clock.period == old(thread).clock.period,
        event !is Rendered ==> final(thread).frames == old(thread).frames,
        event !is Created && event !is Redrawn ==> final(thread).clock == old(thread).clock,
        match event {
            TurnEvent::Created(now) => {
                &&& action is Guard && final(thread).phase is Guarding
                &&& final(thread).clock.deadline == now
            },
            TurnEvent::Guarded => action is Render && final(thread).phase is Rendering,
            TurnEvent::Rendered(published) => {
                &&& action is Release && final(thread).phase is Releasing
                &&& !published ==> final(thread).frames == old(thread).frames
                &&& published && old(thread).frames < u64::MAX ==> final(thread).frames
                    == old(thread).frames + 1
            },
            TurnEvent::Released => action is Redraw && final(thread).phase is Redrawing,
            TurnEvent::Redrawn(now) => {
                let due = old(thread).clock.deadline + old(thread).clock.period;
                &&& action == TurnAction::SleepUntil(final(thread).clock.deadline)
                &&& final(thread).phase is Sleeping
                &&& now <= due ==> final(thread).clock.deadline == due
                &&& now > due ==> final(thread).clock.deadline == now
            },
            TurnEvent::Woken => action is Guard && final(thread).phase is Guarding,
        },
{
}

/// A thread first makes its renderer, and has published nothing by then.
pub proof fn law_thread_starts_by_creating(period: u128, r: (RenderThread, TurnAction))
    requires
        call_ensures(RenderThread::start, (period,), r),
    ensures
        r.1 is Create,
        r.0.phase is Creating,
        r.0.frames == 0,
        r.0.clock.period == period,
{
}

/// What the thread is to do next has an answer, and just one kind of answer.
pub proof fn law_each_phase_has_its_answer(phase: TurnPhase, event: TurnEvent)
    ensures
        fits(phase, event) <==> match event {
            TurnEvent::Created(_) => phase is Creating,
            TurnEvent::Guarded => phase is Guarding,
            TurnEvent::Rendered(_) => phase is Rendering,
            TurnEvent::Released => phase is Releasing,
            TurnEvent::Redrawn(_) => phase is Redrawing,
            TurnEvent::Woken => phase is Sleeping,
        },
{
}

} // verus!
