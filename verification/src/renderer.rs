//! One frame of a cube renderer, step by step: what each graphics API asks for, and in which
//! order.
use crate::frames::planned;
use crate::frames::{BackBuffer, FrameRing, FrameStep, plan_frame};
#[allow(unused_imports)]
use crate::frames::law_idle_after_last_submission;
use vstd::prelude::*;

verus! {

/// What a renderer draws with.
#[derive(Clone, Copy, Debug, PartialEq, Eq, Structural)]
pub enum Api {
    Wgpu,
    Metal,
    Vulkan,
    Dx12,
    OpenGl,
}

impl Api {
    /// The CPU has to see to it that the GPU is done with what it reuses.
    pub open spec fn fenced(self) -> bool {
        self is Vulkan || self is Dx12
    }

    /// Textures are drawn into through framebuffers, which have to be made.
    pub open spec fn framed(self) -> bool {
        self is Vulkan || self is OpenGl
    }

    /// The queue that the compositor uses too is not safe to share: commands are submitted while
    /// its lock is held.
    pub open spec fn locked(self) -> bool {
        self is Vulkan
    }

    /// Whether commands are submitted while the lock of the queue is held.
    pub fn submits_under_lock(self) -> (r: bool)
        ensures
            r == self.locked(),
    {
        match self {
            Api::Vulkan => true,
            _ => false,
        }
    }

    /// What makes a frame's commands count: they are submitted to the queue that the compositor
    /// uses too, or finished, where the compositor has a context of its own.
    pub open spec fn completion(self) -> Action {
        if self is OpenGl {
            Action::Finish
        } else {
            Action::Submit
        }
    }
}

/// What is to be done next.
#[derive(Clone, Copy, Debug, PartialEq, Eq, Structural)]
pub enum Action {
    /// Waits until the GPU has reached a fence value.
    WaitFence(u64),
    /// Lets go of what the frame's slot still keeps, and asks the surface for a buffer.
    Acquire,
    /// Replaces what depends on the size of the surface.
    ReplaceTarget(u32, u32),
    /// Makes the framebuffer of the buffer's texture.
    MakeFramebuffer,
    /// Encodes the commands that draw the frame.
    Encode,
    /// Takes the lock of the queue that the compositor uses too.
    LockQueue,
    /// Submits the commands.
    Submit,
    /// Lets go of the lock of the queue.
    UnlockQueue,
    /// Waits until the GPU has carried the commands out.
    Finish,
    /// Gives the buffer to the compositor.
    Publish,
    /// Returns whether a frame was published.
    Return(bool),
}

/// What has been done.
#[derive(Clone, Copy, Debug, PartialEq, Eq, Structural)]
pub enum Event {
    FenceReached,
    /// The surface has answered; `framebuffer` tells that there is one for the buffer's texture.
    Acquired { back: BackBuffer, framebuffer: bool },
    TargetReplaced,
    FramebufferMade,
    /// The commands were encoded, or could not be.
    Encoded(bool),
    QueueLocked,
    Submitted,
    QueueUnlocked,
    Finished,
    Published,
}

/// How far a frame has come.
#[derive(Clone, Copy, Debug, PartialEq, Eq, Structural)]
pub enum Phase {
    WaitingForSlot,
    Acquiring,
    Draining(u32, u32),
    Replacing(u32, u32),
    Framing,
    Encoding,
    Locking,
    Submitting,
    Unlocking,
    Finishing,
    Publishing,
    Done(bool),
}

/// What a frame starts from.
#[derive(Clone, Copy, Debug)]
pub struct FrameStart {
    pub api: Api,
    /// The fence value at which the frame's slot is free.
    pub pending: u64,
    /// The fence value at which no frame is in flight.
    pub submitted: u64,
    /// The size of the present target.
    pub target: Option<(u32, u32)>,
}

/// What a frame starts from whose back buffer goes into the next slot of a ring.
pub open spec fn start_on<B>(
    ring: FrameRing<B>,
    api: Api,
    target: Option<(u32, u32)>,
) -> FrameStart {
    FrameStart {
        api,
        pending: ring.done_at(ring.slot()) as u64,
        submitted: ring.count() as u64,
        target,
    }
}

impl<B> FrameRing<B> {
    /// What the next frame starts from.
    pub fn frame_start(&self, api: Api, target: Option<(u32, u32)>) -> (r: FrameStart)
        requires
            self.wf(),
        ensures
            r == start_on(*self, api, target),
            r.pending == self.done_at(self.slot()),
            r.submitted == self.count(),
    {
        FrameStart { api, pending: self.pending(), submitted: self.submitted(), target }
    }
}

/// How a frame begins.
pub open spec fn beginning(start: FrameStart) -> (Phase, Action) {
    if start.api.fenced() {
        (Phase::WaitingForSlot, Action::WaitFence(start.pending))
    } else {
        (Phase::Acquiring, Action::Acquire)
    }
}

/// The event is an answer to what was to be done in the phase.
pub open spec fn answers(phase: Phase, event: Event) -> bool {
    match phase {
        Phase::WaitingForSlot => event is FenceReached,
        Phase::Acquiring => event is Acquired,
        Phase::Draining(_, _) => event is FenceReached,
        Phase::Replacing(_, _) => event is TargetReplaced,
        Phase::Framing => event is FramebufferMade,
        Phase::Encoding => event is Encoded,
        Phase::Locking => event is QueueLocked,
        Phase::Submitting => event is Submitted,
        Phase::Unlocking => event is QueueUnlocked,
        Phase::Finishing => event is Finished,
        Phase::Publishing => event is Published,
        Phase::Done(_) => false,
    }
}

/// How a frame goes on after an event.
pub open spec fn continuation(start: FrameStart, phase: Phase, event: Event) -> (Phase, Action) {
    match (phase, event) {
        (Phase::WaitingForSlot, _) => (Phase::Acquiring, Action::Acquire),
        (Phase::Acquiring, Event::Acquired { back, framebuffer }) => match planned(
            start.target,
            back,
        ) {
            FrameStep::Skip => (Phase::Done(false), Action::Return(false)),
            FrameStep::Draw { width, height, resize: true } => if start.api.fenced() {
                (Phase::Draining(width, height), Action::WaitFence(start.submitted))
            } else {
                (Phase::Replacing(width, height), Action::ReplaceTarget(width, height))
            },
            FrameStep::Draw { .. } => if start.api.framed() && !framebuffer {
                (Phase::Framing, Action::MakeFramebuffer)
            } else {
                (Phase::Encoding, Action::Encode)
            },
        },
        (Phase::Draining(width, height), _) => (
            Phase::Replacing(width, height),
            Action::ReplaceTarget(width, height),
        ),
        (Phase::Replacing(_, _), _) => if start.api.framed() {
            (Phase::Framing, Action::MakeFramebuffer)
        } else {
            (Phase::Encoding, Action::Encode)
        },
        (Phase::Framing, _) => (Phase::Encoding, Action::Encode),
        (Phase::Encoding, Event::Encoded(true)) => if start.api is OpenGl {
            (Phase::Finishing, Action::Finish)
        } else if start.api.locked() {
            (Phase::Locking, Action::LockQueue)
        } else {
            (Phase::Submitting, Action::Submit)
        },
        (Phase::Locking, _) => (Phase::Submitting, Action::Submit),
        (Phase::Submitting, _) => if start.api.locked() {
            (Phase::Unlocking, Action::UnlockQueue)
        } else {
            (Phase::Publishing, Action::Publish)
        },
        (Phase::Unlocking, _) => (Phase::Publishing, Action::Publish),
        (Phase::Finishing, _) => (Phase::Publishing, Action::Publish),
        (Phase::Publishing, _) => (Phase::Done(true), Action::Return(true)),
        _ => (Phase::Done(false), Action::Return(false)),
    }
}

/// A frame in the making.
#[derive(Clone, Copy, Debug)]
pub struct Frame {
    pub start: FrameStart,
    pub phase: Phase,
}

impl Frame {
    /// Begins a frame, and gives what is to be done first.
    pub fn begin(start: FrameStart) -> (r: (Frame, Action))
        ensures
            r.0.start == start,
            (r.0.phase, r.1) == beginning(start),
    {
        match start.api {
            Api::Vulkan | Api::Dx12 => (
                Frame { start, phase: Phase::WaitingForSlot },
                Action::WaitFence(start.pending),
            ),
            _ => (Frame { start, phase: Phase::Acquiring }, Action::Acquire),
        }
    }

    /// Goes on after an event, and gives what is to be done next.
    pub fn advance(&mut self, event: Event) -> (r: Action)
        requires
            answers(old(self).phase, event),
        ensures
            final(self).start == old(self).start,
            (final(self).phase, r) == continuation(old(self).start, old(self).phase, event),
    {
        let framed = match self.start.api {
            Api::Vulkan | Api::OpenGl => true,
            _ => false,
        };
        let fenced = match self.start.api {
            Api::Vulkan | Api::Dx12 => true,
            _ => false,
        };
        let locked = self.start.api.submits_under_lock();
        let (phase, action) = match self.phase {
            Phase::WaitingForSlot => (Phase::Acquiring, Action::Acquire),
            Phase::Acquiring => match event {
                Event::Acquired { back, framebuffer } => match plan_frame(
                    self.start.target,
                    back,
                ) {
                    FrameStep::Skip => (Phase::Done(false), Action::Return(false)),
                    FrameStep::Draw { width, height, resize: true } => if fenced {
                        (Phase::Draining(width, height), Action::WaitFence(self.start.submitted))
                    } else {
                        (Phase::Replacing(width, height), Action::ReplaceTarget(width, height))
                    },
                    FrameStep::Draw { .. } => if framed && !framebuffer {
                        (Phase::Framing, Action::MakeFramebuffer)
                    } else {
                        (Phase::Encoding, Action::Encode)
                    },
                },
                _ => (Phase::Done(false), Action::Return(false)),
            },
            Phase::Draining(width, height) => (
                Phase::Replacing(width, height),
                Action::ReplaceTarget(width, height),
            ),
            Phase::Replacing(_, _) => if framed {
                (Phase::Framing, Action::MakeFramebuffer)
            } else {
                (Phase::Encoding, Action::Encode)
            },
            Phase::Framing => (Phase::Encoding, Action::Encode),
            Phase::Encoding => match event {
                Event::Encoded(true) => match self.start.api {
                    Api::OpenGl => (Phase::Finishing, Action::Finish),
                    _ => if locked {
                        (Phase::Locking, Action::LockQueue)
                    } else {
                        (Phase::Submitting, Action::Submit)
                    },
                },
                _ => (Phase::Done(false), Action::Return(false)),
            },
            Phase::Locking => (Phase::Submitting, Action::Submit),
            Phase::Submitting => if locked {
                (Phase::Unlocking, Action::UnlockQueue)
            } else {
                (Phase::Publishing, Action::Publish)
            },
            Phase::Unlocking => (Phase::Publishing, Action::Publish),
            Phase::Finishing => (Phase::Publishing, Action::Publish),
            Phase::Publishing => (Phase::Done(true), Action::Return(true)),
            Phase::Done(_) => (Phase::Done(false), Action::Return(false)),
        };
        self.phase = phase;
        action
    }
}

/// How many more steps a frame can take at most.
pub open spec fn steps_left(phase: Phase) -> int {
    match phase {
        Phase::WaitingForSlot => 10,
        Phase::Acquiring => 9,
        Phase::Draining(_, _) => 8,
        Phase::Replacing(_, _) => 7,
        Phase::Framing => 6,
        Phase::Encoding => 5,
        Phase::Locking => 4,
        Phase::Submitting => 3,
        Phase::Unlocking => 2,
        Phase::Finishing => 2,
        Phase::Publishing => 1,
        Phase::Done(_) => 0,
    }
}

/// Where a frame stands, and all that was to be done so far.
pub struct Run {
    pub phase: Phase,
    pub actions: Seq<Action>,
}

/// The events are answers, each to what was to be done before it.
pub open spec fn well_answered(start: FrameStart, events: Seq<Event>) -> bool
    decreases events.len(),
{
    events.len() == 0 || (well_answered(start, events.drop_last()) && answers(
        run(start, events.drop_last()).phase,
        events.last(),
    ))
}

/// A frame after events.
pub open spec fn run(start: FrameStart, events: Seq<Event>) -> Run
    decreases events.len(),
{
    if events.len() == 0 {
        let (phase, action) = beginning(start);
        Run { phase, actions: seq![action] }
    } else {
        let before = run(start, events.drop_last());
        let (phase, action) = continuation(start, before.phase, events.last());
        Run { phase, actions: before.actions.push(action) }
    }
}

/// Action `b` comes after action `a` wherever it comes.
pub open spec fn only_after(actions: Seq<Action>, b: Action, a: Action) -> bool {
    forall|j: int|
        0 <= j < actions.len() && #[trigger] actions[j] == b ==> exists|i: int|
            0 <= i < j && #[trigger] actions[i] == a
}

/// The action comes once at most.
pub open spec fn once(actions: Seq<Action>, a: Action) -> bool {
    forall|i: int, j: int|
        0 <= i < actions.len() && 0 <= j < actions.len() && #[trigger] actions[i] == a
            && #[trigger] actions[j] == a ==> i == j
}

/// The lock of the queue is taken just before action `j`, and let go of just after it.
pub open spec fn under_lock(actions: Seq<Action>, j: int) -> bool {
    &&& 0 < j < actions.len()
    &&& actions[j - 1] == Action::LockQueue
    &&& j + 1 < actions.len() ==> actions[j + 1] == Action::UnlockQueue
}

/// Which actions a frame that stands at a phase has had.
spec fn accounts(start: FrameStart, now: Run) -> bool {
    let api = start.api;
    let completed = now.actions.contains(api.completion());
    let published = now.actions.contains(Action::Publish);
    &&& published <==> now.phase is Publishing || now.phase == Phase::Done(true)
    &&& completed <==> now.phase is Submitting || now.phase is Unlocking || now.phase is Finishing
        || now.phase is Publishing || now.phase == Phase::Done(true)
    &&& now.phase is Submitting ==> api !is OpenGl
    &&& now.phase is Locking || now.phase is Unlocking ==> api.locked()
    &&& now.actions.last() == Action::Submit <==> now.phase is Submitting
    &&& now.phase is Locking ==> now.actions.last() == Action::LockQueue
    &&& now.actions.contains(Action::UnlockQueue) <==> api.locked() && (now.phase is Unlocking
        || now.phase is Publishing || now.phase == Phase::Done(true))
    &&& now.actions.contains(Action::LockQueue) <==> now.phase is Locking || (api.locked()
        && completed)
    &&& once(now.actions, api.completion())
    &&& once(now.actions, Action::Publish)
    &&& once(now.actions, Action::LockQueue)
    &&& once(now.actions, Action::UnlockQueue)
    &&& api is OpenGl ==> !now.actions.contains(Action::Submit)
    &&& api.locked() ==> forall|j: int|
        0 <= j < now.actions.len() && #[trigger] now.actions[j] == Action::Submit ==> under_lock(
            now.actions,
            j,
        )
    &&& api.locked() ==> only_after(now.actions, Action::Publish, Action::UnlockQueue)
    &&& now.phase is Finishing ==> api is OpenGl
    &&& now.phase is WaitingForSlot || now.phase is Draining ==> api.fenced()
    &&& api.fenced() ==> now.actions[0] == Action::WaitFence(start.pending)
    &&& only_after(now.actions, Action::Publish, api.completion())
    &&& now.phase matches Phase::Draining(_, _) ==> now.actions.last() == Action::WaitFence(
        start.submitted,
    )
    &&& now.phase is Replacing && api.fenced() ==> now.actions.contains(
        Action::WaitFence(start.submitted),
    )
    &&& forall|replace: Action|
        api.fenced() && replace is ReplaceTarget ==> #[trigger] only_after(
            now.actions,
            replace,
            Action::WaitFence(start.submitted),
        )
    &&& now.actions.contains(Action::Return(true)) <==> now.phase == Phase::Done(true)
    &&& now.actions.contains(Action::Return(false)) <==> now.phase == Phase::Done(false)
}

/// The account holds after every step.
proof fn lemma_accounts(start: FrameStart, events: Seq<Event>)
    requires
        well_answered(start, events),
    ensures
        accounts(start, run(start, events)),
        run(start, events).actions.len() == events.len() + 1,
        steps_left(run(start, events).phase) + events.len() <= 10,
    decreases events.len(),
{
    let now = run(start, events);
    if events.len() == 0 {
        assert(now.actions[0] == beginning(start).1);
        assert(accounts(start, now));
    } else {
        lemma_accounts(start, events.drop_last());
        let before = run(start, events.drop_last());
        let (phase, action) = continuation(start, before.phase, events.last());
        let n = before.actions.len() as int;
        assert(now.actions == before.actions.push(action));
        assert forall|a: Action| #[trigger]
            now.actions.contains(a) <==> before.actions.contains(a) || a == action by {
            if before.actions.contains(a) {
                let i = before.actions.index_of(a);
                assert(now.actions[i] == a);
            }
            assert(now.actions[n] == action);
            if now.actions.contains(a) && a != action {
                let i = now.actions.index_of(a);
                assert(before.actions[i] == a);
            }
        }
        assert forall|b: Action, a: Action|
            only_after(before.actions, b, a) && (action == b ==> before.actions.contains(
                a,
            )) implies #[trigger] only_after(now.actions, b, a) by {
            assert forall|j: int| 0 <= j < now.actions.len() && #[trigger] now.actions[j]
                == b implies exists|i: int| 0 <= i < j && #[trigger] now.actions[i] == a by {
                if j < n {
                    assert(before.actions[j] == b);
                    let i = choose|i: int| 0 <= i < j && #[trigger] before.actions[i] == a;
                    assert(now.actions[i] == a);
                } else {
                    let i = before.actions.index_of(a);
                    assert(now.actions[i] == a);
                }
            }
        }
        assert forall|a: Action|
            once(before.actions, a) && (action == a ==> !before.actions.contains(
                a,
            )) implies #[trigger] once(now.actions, a) by {
            assert forall|i: int, j: int|
                0 <= i < now.actions.len() && 0 <= j < now.actions.len()
                    && #[trigger] now.actions[i] == a && #[trigger] now.actions[j] == a implies i
                == j by {
                if i < n {
                    assert(before.actions[i] == a);
                }
                if j < n {
                    assert(before.actions[j] == a);
                }
            }
        }
        assert(now.actions.last() == action && now.actions[n] == action);
        assert(before.actions.last() == before.actions[n - 1]);
        if start.api.locked() {
            assert forall|j: int|
                0 <= j < now.actions.len() && #[trigger] now.actions[j]
                    == Action::Submit implies under_lock(now.actions, j) by {
                if j < n {
                    assert(before.actions[j] == Action::Submit);
                    assert(under_lock(before.actions, j));
                    assert(now.actions[j - 1] == before.actions[j - 1]);
                    if j + 1 < n {
                        assert(now.actions[j + 1] == before.actions[j + 1]);
                    }
                } else {
                    assert(now.actions[j - 1] == before.actions[n - 1]);
                }
            }
        }
        assert(once(now.actions, start.api.completion()));
        assert(once(now.actions, Action::Publish));
        assert(once(now.actions, Action::LockQueue));
        assert(once(now.actions, Action::UnlockQueue));
        if before.phase is Draining {
            assert(before.actions[n - 1] == Action::WaitFence(start.submitted));
            assert(before.actions.contains(Action::WaitFence(start.submitted)));
        }
        assert(now.actions[0] == before.actions[0]);
        assert(only_after(now.actions, Action::Publish, start.api.completion()));
    }
}

/// A frame is given to the compositor only after its commands were submitted, or carried out where
/// the API calls for it; and a renderer reports a frame exactly if it has published one.
pub proof fn law_published_after_completion(start: FrameStart, events: Seq<Event>)
    requires
        well_answered(start, events),
    ensures
        ({
            let now = run(start, events);
            &&& only_after(now.actions, Action::Publish, start.api.completion())
            &&& now.phase is Done ==> (now.actions.contains(Action::Return(true))
                <==> now.actions.contains(Action::Publish))
            &&& now.phase is Done ==> (now.actions.contains(Action::Return(false))
                <==> !now.actions.contains(Action::Publish))
        }),
{
    lemma_accounts(start, events);
}

/// Where the queue is not safe to share, commands are submitted while its lock is held, and the
/// frame is published once the lock is let go of; where it is safe, the lock is never taken.
pub proof fn law_submitted_under_lock(start: FrameStart, events: Seq<Event>, j: int)
    requires
        well_answered(start, events),
        0 <= j < run(start, events).actions.len(),
    ensures
        ({
            let actions = run(start, events).actions;
            &&& start.api.locked() && actions[j] == Action::Submit ==> under_lock(actions, j)
            &&& start.api.locked() ==> only_after(actions, Action::Publish, Action::UnlockQueue)
            &&& !start.api.locked() ==> actions[j] != Action::LockQueue && actions[j]
                != Action::UnlockQueue
        }),
{
    lemma_accounts(start, events);
    let actions = run(start, events).actions;
    if actions[j] == Action::LockQueue || actions[j] == Action::UnlockQueue {
        assert(actions.contains(actions[j]));
    }
}

/// A frame submits its commands once at most, or waits for them once, and is published once at
/// most; a frame that is reported has had exactly one of each.
pub proof fn law_frame_is_submitted_and_published_once(start: FrameStart, events: Seq<Event>)
    requires
        well_answered(start, events),
    ensures
        ({
            let now = run(start, events);
            &&& once(now.actions, start.api.completion())
            &&& once(now.actions, Action::Publish)
            &&& now.phase == Phase::Done(true) ==> now.actions.contains(start.api.completion())
                && now.actions.contains(Action::Publish)
            &&& start.api is OpenGl ==> !now.actions.contains(Action::Submit)
        }),
{
    lemma_accounts(start, events);
}

/// Where the GPU may still use what a frame reuses, the frame first waits for its slot, and it
/// replaces what all frames share only after it has waited for all of them.
pub proof fn law_nothing_in_use_is_reused(start: FrameStart, events: Seq<Event>, w: u32, h: u32)
    requires
        well_answered(start, events),
        start.api.fenced(),
    ensures
        ({
            let now = run(start, events);
            &&& now.actions[0] == Action::WaitFence(start.pending)
            &&& only_after(
                now.actions,
                Action::ReplaceTarget(w, h),
                Action::WaitFence(start.submitted),
            )
        }),
{
    lemma_accounts(start, events);
    let now = run(start, events);
    let replace = Action::ReplaceTarget(w, h);
    assert(only_after(now.actions, replace, Action::WaitFence(start.submitted)));
}

/// A frame on a ring of slots touches nothing that the GPU still uses: the first thing it does is
/// to wait until its own slot is free, and before it replaces what all frames share it waits for a
/// value at which no slot is in flight.
pub proof fn law_ring_is_not_overrun<B>(
    ring: FrameRing<B>,
    api: Api,
    target: Option<(u32, u32)>,
    events: Seq<Event>,
    w: u32,
    h: u32,
    i: int,
)
    requires
        ring.wf(),
        api.fenced(),
        well_answered(start_on(ring, api, target), events),
        0 <= i < ring.slots(),
    ensures
        ({
            let start = start_on(ring, api, target);
            let actions = run(start, events).actions;
            &&& actions[0] == Action::WaitFence(start.pending)
            &&& ring.done_at(ring.slot()) <= start.pending
            &&& only_after(
                actions,
                Action::ReplaceTarget(w, h),
                Action::WaitFence(start.submitted),
            )
            &&& ring.done_at(i) <= start.submitted
        }),
{
    let start = start_on(ring, api, target);
    law_nothing_in_use_is_reused(start, events, w, h);
    law_idle_after_last_submission(ring, ring.count(), i);
    law_idle_after_last_submission(ring, ring.count(), ring.slot());
}

/// Where the buffer has the size of the present target, nothing is replaced.
pub proof fn law_steady_size_replaces_nothing(
    start: FrameStart,
    width: u32,
    height: u32,
    framebuffer: bool,
)
    requires
        start.target == Some((width, height)),
    ensures
        continuation(
            start,
            Phase::Acquiring,
            Event::Acquired { back: BackBuffer::Ready(width, height), framebuffer },
        ).1 == (if start.api.framed() && !framebuffer {
            Action::MakeFramebuffer
        } else {
            Action::Encode
        }),
{
}

/// Every frame comes to an end: each event takes it closer, and none has more than ten.
pub proof fn law_frames_end(start: FrameStart, events: Seq<Event>, event: Event)
    requires
        well_answered(start, events),
    ensures
        events.len() <= 10,
        answers(run(start, events).phase, event) ==> steps_left(
            continuation(start, run(start, events).phase, event).0,
        ) < steps_left(run(start, events).phase),
{
    lemma_accounts(start, events);
}

/// The size that the present target has after actions: that of its last replacement, or else the
/// one that it had before them.
pub open spec fn target_size(target: Option<(u32, u32)>, actions: Seq<Action>) -> Option<(u32, u32)>
    decreases actions.len(),
{
    if actions.len() == 0 {
        target
    } else {
        match actions.last() {
            Action::ReplaceTarget(width, height) => Some((width, height)),
            _ => target_size(target, actions.drop_last()),
        }
    }
}

/// What the surface has answered: its buffer, and whether there is a framebuffer for it.
pub open spec fn answered(events: Seq<Event>) -> Option<(BackBuffer, bool)>
    decreases events.len(),
{
    if events.len() == 0 {
        None
    } else {
        match events.last() {
            Event::Acquired { back, framebuffer } => Some((back, framebuffer)),
            _ => answered(events.drop_last()),
        }
    }
}

/// Whether the commands could be encoded, once that was tried.
pub open spec fn encoded(events: Seq<Event>) -> Option<bool>
    decreases events.len(),
{
    if events.len() == 0 {
        None
    } else {
        match events.last() {
            Event::Encoded(done) => Some(done),
            _ => encoded(events.drop_last()),
        }
    }
}

/// What a frame does until it asks for a buffer.
pub open spec fn opening(start: FrameStart) -> Seq<Action> {
    match start.api {
        Api::Vulkan | Api::Dx12 => seq![Action::WaitFence(start.pending), Action::Acquire],
        _ => seq![Action::Acquire],
    }
}

/// What a frame does to have a present target of the buffer's size.
pub open spec fn fitting(start: FrameStart, width: u32, height: u32) -> Seq<Action> {
    if start.target == Some((width, height)) {
        seq![]
    } else {
        match start.api {
            Api::Vulkan | Api::Dx12 => seq![
                Action::WaitFence(start.submitted),
                Action::ReplaceTarget(width, height),
            ],
            _ => seq![Action::ReplaceTarget(width, height)],
        }
    }
}

/// What a frame does to have a framebuffer of the buffer and the present target.
pub open spec fn framing(
    start: FrameStart,
    width: u32,
    height: u32,
    framebuffer: bool,
) -> Seq<Action> {
    match start.api {
        Api::Vulkan | Api::OpenGl => if framebuffer && start.target == Some((width, height)) {
            seq![]
        } else {
            seq![Action::MakeFramebuffer]
        },
        _ => seq![],
    }
}

/// What a frame does with the commands that it has encoded.
pub open spec fn closing(api: Api) -> Seq<Action> {
    match api {
        Api::Vulkan => seq![Action::LockQueue, Action::Submit, Action::UnlockQueue],
        Api::OpenGl => seq![Action::Finish],
        _ => seq![Action::Submit],
    }
}

/// What a frame does up to and with the encoding of its commands.
pub open spec fn drawing(
    start: FrameStart,
    width: u32,
    height: u32,
    framebuffer: bool,
) -> Seq<Action> {
    opening(start) + fitting(start, width, height) + framing(start, width, height, framebuffer)
        + seq![Action::Encode]
}

/// All that a frame does that comes to its end.
pub open spec fn whole(
    start: FrameStart,
    back: BackBuffer,
    framebuffer: bool,
    encodes: bool,
) -> Seq<Action> {
    match back {
        BackBuffer::Ready(width, height) => if encodes {
            drawing(start, width, height, framebuffer) + closing(start.api) + seq![
                Action::Publish,
                Action::Return(true),
            ]
        } else {
            drawing(start, width, height, framebuffer) + seq![Action::Return(false)]
        },
        _ => opening(start) + seq![Action::Return(false)],
    }
}

/// What a frame has done that stands at a phase.
spec fn stands(start: FrameStart, events: Seq<Event>, now: Run) -> bool {
    let opened = opening(start);
    let waits = start.api is Vulkan || start.api is Dx12;
    match answered(events) {
        None => encoded(events) is None && match now.phase {
            Phase::WaitingForSlot => waits && now.actions == seq![Action::WaitFence(start.pending)],
            Phase::Acquiring => now.actions == opened,
            _ => false,
        },
        Some((BackBuffer::Ready(width, height), framebuffer)) => {
            let fitted = opened + fitting(start, width, height);
            let framed = fitted + framing(start, width, height, framebuffer);
            let drawn = framed.push(Action::Encode);
            let closed = drawn + closing(start.api);
            let fits = start.target == Some((width, height));
            match encoded(events) {
                None => match now.phase {
                    Phase::Draining(w, h) => {
                        &&& w == width && h == height
                        &&& !fits
                        &&& waits
                        &&& now.actions == opened.push(Action::WaitFence(start.submitted))
                    },
                    Phase::Replacing(w, h) => {
                        &&& w == width && h == height
                        &&& !fits
                        &&& now.actions == fitted
                    },
                    Phase::Framing => {
                        &&& framing(start, width, height, framebuffer).len() == 1
                        &&& now.actions == framed
                    },
                    Phase::Encoding => now.actions == drawn,
                    _ => false,
                },
                Some(false) => now.phase == Phase::Done(false) && now.actions == drawn.push(
                    Action::Return(false),
                ),
                Some(true) => match now.phase {
                    Phase::Locking => start.api is Vulkan && now.actions == drawn.push(
                        Action::LockQueue,
                    ),
                    Phase::Submitting => start.api !is OpenGl && now.actions == if start.api
                        is Vulkan {
                        drawn.push(Action::LockQueue).push(Action::Submit)
                    } else {
                        closed
                    },
                    Phase::Unlocking => start.api is Vulkan && now.actions == closed,
                    Phase::Finishing => start.api is OpenGl && now.actions == closed,
                    Phase::Publishing => now.actions == closed.push(Action::Publish),
                    Phase::Done(true) => now.actions == closed.push(Action::Publish).push(
                        Action::Return(true),
                    ),
                    _ => false,
                },
            }
        },
        Some(_) => {
            &&& encoded(events) is None
            &&& now.phase == Phase::Done(false)
            &&& now.actions == opened.push(Action::Return(false))
        },
    }
}

/// That holds after every step.
proof fn lemma_stands(start: FrameStart, events: Seq<Event>)
    requires
        well_answered(start, events),
    ensures
        stands(start, events, run(start, events)),
    decreases events.len(),
{
    let now = run(start, events);
    if events.len() > 0 {
        lemma_stands(start, events.drop_last());
        let before = run(start, events.drop_last());
        let (phase, action) = continuation(start, before.phase, events.last());
        assert(now.actions == before.actions.push(action));
        assert(opening(start) =~= if start.api is Vulkan || start.api is Dx12 {
            seq![Action::WaitFence(start.pending)].push(Action::Acquire)
        } else {
            seq![Action::Acquire]
        });
        if let Some((BackBuffer::Ready(width, height), framebuffer)) = answered(events) {
            let opened = opening(start);
            let fitted = opened + fitting(start, width, height);
            let framed = fitted + framing(start, width, height, framebuffer);
            let drawn = framed.push(Action::Encode);
            let closed = drawn + closing(start.api);
            if start.target == Some((width, height)) {
                assert(fitted =~= opened);
            } else if start.api is Vulkan || start.api is Dx12 {
                assert(fitted =~= opened.push(Action::WaitFence(start.submitted)).push(
                    Action::ReplaceTarget(width, height),
                ));
            } else {
                assert(fitted =~= opened.push(Action::ReplaceTarget(width, height)));
            }
            if framing(start, width, height, framebuffer).len() == 0 {
                assert(framed =~= fitted);
            } else {
                assert(framed =~= fitted.push(Action::MakeFramebuffer));
            }
            match start.api {
                Api::Vulkan => {
                    assert(closed =~= drawn.push(Action::LockQueue).push(Action::Submit).push(
                        Action::UnlockQueue,
                    ));
                },
                Api::OpenGl => {
                    assert(closed =~= drawn.push(Action::Finish));
                },
                _ => {
                    assert(closed =~= drawn.push(Action::Submit));
                },
            }
        }
    } else {
        assert(opening(start) =~= if start.api is Vulkan || start.api is Dx12 {
            seq![Action::WaitFence(start.pending), Action::Acquire]
        } else {
            now.actions
        });
    }
}

/// What a frame does from its first action to its last is fixed by what it starts from and by the
/// two answers that matter. It waits for its slot where the CPU has to, asks for a buffer,
/// replaces the present target exactly if that has not the buffer's size, and then only when the
/// GPU is idle where the CPU has to see to that, makes a framebuffer where there is none for the
/// target, encodes, submits or finishes, publishes and reports. Without a buffer it stops there,
/// and without commands it publishes nothing.
pub proof fn law_frame_runs_in_order(
    start: FrameStart,
    events: Seq<Event>,
    back: BackBuffer,
    framebuffer: bool,
)
    requires
        well_answered(start, events),
        answered(events) == Some((back, framebuffer)),
        run(start, events).phase is Done,
    ensures
        run(start, events).actions == whole(
            start,
            back,
            framebuffer,
            encoded(events) == Some(true),
        ),
        run(start, events).phase == Phase::Done(true) <==> back is Ready && encoded(events) == Some(
            true,
        ),
{
    lemma_stands(start, events);
    let now = run(start, events);
    let opened = opening(start);
    assert(opened.push(Action::Return(false)) =~= opened + seq![Action::Return(false)]);
    if let BackBuffer::Ready(width, height) = back {
        let framed = opened + fitting(start, width, height) + framing(
            start,
            width,
            height,
            framebuffer,
        );
        let drawn = framed.push(Action::Encode);
        assert(drawn =~= drawing(start, width, height, framebuffer));
        assert(drawn.push(Action::Return(false)) =~= drawn + seq![Action::Return(false)]);
        assert((drawn + closing(start.api)).push(Action::Publish).push(Action::Return(true))
            =~= drawn + closing(start.api) + seq![Action::Publish, Action::Return(true)]);
    }
}

/// A frame has an end only once the surface has answered.
pub proof fn law_no_end_without_answer(start: FrameStart, events: Seq<Event>)
    requires
        well_answered(start, events),
        run(start, events).phase is Done,
    ensures
        answered(events) is Some,
{
    lemma_stands(start, events);
}

/// How large the present target is after every step.
proof fn lemma_fitted(start: FrameStart, events: Seq<Event>)
    requires
        well_answered(start, events),
    ensures
        ({
            let now = run(start, events);
            let size = target_size(start.target, now.actions);
            match answered(events) {
                Some((BackBuffer::Ready(width, height), _)) => now.phase is Draining || size
                    == Some((width, height)),
                _ => size == start.target,
            }
        }),
    decreases events.len(),
{
    let now = run(start, events);
    lemma_stands(start, events);
    if events.len() > 0 {
        let before = run(start, events.drop_last());
        lemma_fitted(start, events.drop_last());
        lemma_stands(start, events.drop_last());
        assert(now.actions.drop_last() =~= before.actions);
    } else {
        assert(now.actions.drop_last() =~= Seq::<Action>::empty());
        assert(target_size(start.target, Seq::<Action>::empty()) == start.target);
    }
}

/// Whenever commands are encoded, the present target has exactly the size of the buffer that the
/// surface gave, whatever size it had before. So does it ever after.
pub proof fn law_target_fits_buffer(start: FrameStart, events: Seq<Event>, j: int)
    requires
        well_answered(start, events),
        0 <= j < run(start, events).actions.len(),
        run(start, events).actions[j] == Action::Encode,
    ensures
        ({
            let actions = run(start, events).actions;
            match answered(events) {
                Some((BackBuffer::Ready(width, height), _)) => target_size(
                    start.target,
                    actions.take(j),
                ) == Some((width, height)) && target_size(start.target, actions) == Some(
                    (width, height),
                ),
                _ => false,
            }
        }),
    decreases events.len(),
{
    lemma_stands(start, events);
    let now = run(start, events);
    if events.len() > 0 {
        let before = run(start, events.drop_last());
        let (phase, action) = continuation(start, before.phase, events.last());
        lemma_stands(start, events.drop_last());
        assert(now.actions == before.actions.push(action));
        assert(now.actions.drop_last() =~= before.actions);
        if j < before.actions.len() {
            law_target_fits_buffer(start, events.drop_last(), j);
            assert(now.actions.take(j) =~= before.actions.take(j));
        } else {
            assert(now.actions.take(j) =~= before.actions);
            lemma_fitted(start, events.drop_last());
        }
        lemma_fitted(start, events);
    }
}

/// The present target is replaced only by one of exactly the size of the buffer that the surface
/// gave, and only if it has not that size already.
pub proof fn law_target_is_replaced_for_cause(
    start: FrameStart,
    events: Seq<Event>,
    j: int,
    w: u32,
    h: u32,
)
    requires
        well_answered(start, events),
        0 <= j < run(start, events).actions.len(),
        run(start, events).actions[j] == Action::ReplaceTarget(w, h),
    ensures
        start.target != Some((w, h)),
        answered(events) matches Some(answer) && answer.0 == BackBuffer::Ready(w, h),
    decreases events.len(),
{
    lemma_stands(start, events);
    if events.len() > 0 {
        let before = run(start, events.drop_last());
        lemma_stands(start, events.drop_last());
        if j < before.actions.len() {
            assert(before.actions[j] == Action::ReplaceTarget(w, h));
            law_target_is_replaced_for_cause(start, events.drop_last(), j, w, h);
        }
    }
}

/// A frame never gets stuck: until it is done, what it is to do next has an answer, and each kind
/// of answer is an answer to one kind of action.
pub proof fn law_each_action_has_its_answer(start: FrameStart, events: Seq<Event>, event: Event)
    requires
        well_answered(start, events),
    ensures
        answers(run(start, events).phase, event) <==> match run(start, events).actions.last() {
            Action::WaitFence(_) => event is FenceReached,
            Action::Acquire => event is Acquired,
            Action::ReplaceTarget(_, _) => event is TargetReplaced,
            Action::MakeFramebuffer => event is FramebufferMade,
            Action::Encode => event is Encoded,
            Action::LockQueue => event is QueueLocked,
            Action::Submit => event is Submitted,
            Action::UnlockQueue => event is QueueUnlocked,
            Action::Finish => event is Finished,
            Action::Publish => event is Published,
            Action::Return(_) => false,
        },
{
    lemma_stands(start, events);
    if let Some((BackBuffer::Ready(width, height), framebuffer)) = answered(events) {
        assert(closing(start.api).last() == match start.api {
            Api::Vulkan => Action::UnlockQueue,
            Api::OpenGl => Action::Finish,
            _ => Action::Submit,
        });
    }
}

/// A frame begins by waiting for its slot with the two APIs where the CPU has to, and by asking
/// for a buffer with the others. It starts from what it is given.
pub proof fn law_frame_begins(start: FrameStart, r: (Frame, Action))
    requires
        call_ensures(Frame::begin, (start,), r),
    ensures
        r.0.start == start,
        start.api is Vulkan || start.api is Dx12 ==> r.1 == Action::WaitFence(start.pending)
            && r.0.phase is WaitingForSlot,
        !(start.api is Vulkan || start.api is Dx12) ==> r.1 == Action::Acquire && r.0.phase
            is Acquiring,
{
}

/// What a frame does once the surface has answered: nothing without a buffer; with one of another
/// size than the present target, larger or smaller, it has the target replaced by one of exactly
/// the buffer's size, after a wait for the GPU where the CPU has to see to that; with one of the
/// same size, it makes a framebuffer if the API needs one that is not there, or encodes.
pub proof fn law_frame_goes_on_with_buffer(
    frame: &mut Frame,
    back: BackBuffer,
    framebuffer: bool,
    action: Action,
)
    requires
        old(frame).phase is Acquiring,
        call_ensures(Frame::advance, (frame, Event::Acquired { back, framebuffer }), action),
    ensures
        final(frame).start == old(frame).start,
        match back {
            BackBuffer::Ready(width, height) => {
                let api = old(frame).start.api;
                let same = match old(frame).start.target {
                    Some((w, h)) => !(w < width || width < w || h < height || height < h),
                    None => false,
                };
                &&& !same && (api is Vulkan || api is Dx12) ==> {
                    &&& action == Action::WaitFence(old(frame).start.submitted)
                    &&& final(frame).phase == Phase::Draining(width, height)
                }
                &&& !same && !(api is Vulkan || api is Dx12) ==> {
                    &&& action == Action::ReplaceTarget(width, height)
                    &&& final(frame).phase == Phase::Replacing(width, height)
                }
                &&& same && !framebuffer && (api is Vulkan || api is OpenGl) ==> action
                    == Action::MakeFramebuffer
                &&& same && (framebuffer || !(api is Vulkan || api is OpenGl)) ==> action
                    == Action::Encode
            },
            _ => action == Action::Return(false),
        },
{
}

/// A frame on a ring waits for its own slot and for the last submission, and knows the present
/// target. The lock of the queue is taken with Vulkan only.
pub proof fn law_frame_starts_from_ring<B>(
    ring: FrameRing<B>,
    api: Api,
    target: Option<(u32, u32)>,
    start: FrameStart,
    locks: bool,
)
    requires
        ring.wf(),
        call_ensures(FrameRing::<B>::frame_start, (&ring, api, target), start),
        call_ensures(Api::submits_under_lock, (api,), locks),
    ensures
        start.api == api,
        start.target == target,
        start.pending == ring.done_at(ring.slot()),
        start.submitted == ring.count(),
        locks <==> api is Vulkan,
{
}

} // verus!
