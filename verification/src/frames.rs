//! Frames in flight: what the CPU may touch while the GPU still works on earlier frames.
use vstd::prelude::*;

verus! {

/// How many frames the native engines keep in flight.
pub const FRAMES_IN_FLIGHT: usize = 2;

/// What the surface hands a renderer to draw into.
#[derive(Clone, Copy, Debug, PartialEq, Eq, Structural)]
pub enum BackBuffer {
    /// No buffer is free, or the surface is gone.
    Missing,
    /// The buffer belongs to another graphics API.
    Foreign,
    /// A buffer of this width and height.
    Ready(u32, u32),
}

/// What a renderer does with a frame.
#[derive(Clone, Copy, Debug, PartialEq, Eq, Structural)]
pub enum FrameStep {
    /// Publishes nothing.
    Skip,
    /// Draws a frame of this size, after it has replaced what depends on the size if so told.
    Draw { width: u32, height: u32, resize: bool },
}

/// What a renderer does, given the buffer it got and the size that its depth buffer has.
pub open spec fn planned(depth: Option<(u32, u32)>, back: BackBuffer) -> FrameStep {
    match back {
        BackBuffer::Ready(width, height) => FrameStep::Draw {
            width,
            height,
            resize: depth != Some((width, height)),
        },
        _ => FrameStep::Skip,
    }
}

/// Decides what a renderer does, given the buffer it got and the size that its depth buffer has.
pub fn plan_frame(depth: Option<(u32, u32)>, back: BackBuffer) -> (r: FrameStep)
    ensures
        r == planned(depth, back),
        r is Skip <==> back !is Ready,
        r matches FrameStep::Draw { width, height, resize } ==> {
            &&& back == BackBuffer::Ready(width, height)
            &&& resize <==> depth != Some((width, height))
        },
{
    match back {
        BackBuffer::Ready(width, height) => {
            let resize = match depth {
                Some((w, h)) => w != width || h != height,
                None => true,
            };
            FrameStep::Draw { width, height, resize }
        },
        _ => FrameStep::Skip,
    }
}

/// A frame is drawn exactly if a buffer is ready, at exactly the size of that buffer. What depends
/// on the size is replaced if there is none, or if it was made for another width or for another
/// height, larger or smaller; it is kept if it was made for the size of the buffer.
pub proof fn law_plan_follows_buffer(width: u32, height: u32, w: u32, h: u32)
    ensures
        planned(None, BackBuffer::Missing) is Skip,
        planned(None, BackBuffer::Foreign) is Skip,
        planned(Some((w, h)), BackBuffer::Missing) is Skip,
        planned(Some((w, h)), BackBuffer::Foreign) is Skip,
        planned(None, BackBuffer::Ready(width, height)) == (FrameStep::Draw {
            width,
            height,
            resize: true,
        }),
        w < width || width < w || h < height || height < h ==> planned(
            Some((w, h)),
            BackBuffer::Ready(width, height),
        ) == (FrameStep::Draw { width, height, resize: true }),
        planned(Some((width, height)), BackBuffer::Ready(width, height)) == (FrameStep::Draw {
            width,
            height,
            resize: false,
        }),
{
}

/// Once a frame of some size has been drawn, the next one of that size replaces nothing, and the
/// next one of any other size replaces what the first was drawn with.
pub proof fn law_plan_settles(depth: Option<(u32, u32)>, first: BackBuffer, second: BackBuffer)
    requires
        first is Ready,
        second is Ready,
    ensures
        planned(depth, first) matches FrameStep::Draw { width, height, .. } && (planned(
            Some((width, height)),
            second,
        ) matches FrameStep::Draw { resize, .. } && (resize <==> first != second)),
{
}

/// Whether a fence that has reached `completed` must be waited on to reach `value`.
pub fn must_wait(completed: u64, value: u64) -> (r: bool)
    ensures
        r == (completed < value),
{
    completed < value
}

/// The slots that successive frames use in turn. Each keeps the back buffer of its last frame
/// until the GPU is done with that frame.
pub struct FrameRing<B> {
    /// For each slot, the fence value that tells that its last frame is done.
    done: Vec<u64>,
    back: Vec<Option<B>>,
    current: usize,
    submitted: u64,
}

impl<B> FrameRing<B> {
    /// How many slots there are.
    pub closed spec fn slots(self) -> int {
        self.done@.len() as int
    }

    /// The slot of the next frame.
    pub closed spec fn slot(self) -> int {
        self.current as int
    }

    /// How many frames were submitted.
    pub closed spec fn count(self) -> int {
        self.submitted as int
    }

    /// The fence value that tells that the last frame of slot `i` is done.
    pub closed spec fn done_at(self, i: int) -> int {
        self.done@[i] as int
    }

    /// The back buffer that slot `i` keeps.
    pub closed spec fn kept(self, i: int) -> Option<B> {
        self.back@[i]
    }

    /// How many frames ago slot `i` was used, the last one counting as zero.
    pub open spec fn age(self, i: int) -> int {
        if i < self.slot() {
            self.slot() - 1 - i
        } else {
            self.slot() + self.slots() - 1 - i
        }
    }

    /// The slots hold the last frames, one each, and nothing that was never submitted.
    pub open spec fn wf(self) -> bool {
        &&& self.slots() > 0
        &&& 0 <= self.slot() < self.slots()
        &&& 0 <= self.count() <= u64::MAX
        &&& self.matched()
        &&& forall|i: int|
            0 <= i < self.slots() ==> #[trigger] self.done_at(i) == (if self.count() >= self.age(
                i,
            ) {
                self.count() - self.age(i)
            } else {
                0
            })
        &&& forall|i: int|
            0 <= i < self.slots() && #[trigger] self.done_at(i) == 0 ==> self.kept(i) is None
    }

    /// Every slot has room for a back buffer.
    pub closed spec fn matched(self) -> bool {
        self.back@.len() == self.done@.len()
    }

    /// `slots` slots, none of which is in use.
    pub fn new(slots: usize) -> (r: FrameRing<B>)
        requires
            slots > 0,
        ensures
            r.wf(),
            r.slots() == slots,
            r.slot() == 0,
            r.count() == 0,
    {
        let mut done: Vec<u64> = Vec::new();
        let mut back: Vec<Option<B>> = Vec::new();
        let mut i: usize = 0;
        while i < slots
            invariant
                i <= slots,
                done.len() == i,
                back.len() == i,
                forall|j: int| 0 <= j < i ==> done@[j] == 0 && back@[j] is None,
            decreases slots - i,
        {
            done.push(0);
            back.push(None);
            i += 1;
        }
        FrameRing { done, back, current: 0, submitted: 0 }
    }

    /// The slot of the next frame.
    pub fn current(&self) -> (r: usize)
        ensures
            r == self.slot(),
    {
        self.current
    }

    /// The fence value to wait for before the next frame may reuse its slot.
    pub fn pending(&self) -> (r: u64)
        requires
            self.wf(),
        ensures
            r == self.done_at(self.slot()),
            r == (if self.count() >= self.slots() {
                self.count() - self.slots() + 1
            } else {
                0
            }),
    {
        assert(self.done_at(self.current as int) == self.done@[self.current as int]);
        self.done[self.current]
    }

    /// The fence value to wait for before anything that frames share may be replaced.
    pub fn submitted(&self) -> (r: u64)
        ensures
            r == self.count(),
    {
        self.submitted
    }

    /// The slots whose last frame is done once the fence has reached `value`, in order.
    pub fn slots_until(&self, value: u64) -> (r: Vec<usize>)
        requires
            self.wf(),
        ensures
            forall|i: usize| #[trigger]
                r@.contains(i) <==> i < self.slots() && self.done_at(i as int) <= value,
            forall|a: int, b: int| 0 <= a < b < r.len() ==> r@[a] < r@[b],
    {
        let mut r: Vec<usize> = Vec::new();
        let mut i: usize = 0;
        while i < self.done.len()
            invariant
                self.wf(),
                i <= self.slots(),
                self.slots() == self.done.len(),
                forall|k: usize| #[trigger]
                    r@.contains(k) <==> k < i && self.done_at(k as int) <= value,
                forall|a: int, b: int| 0 <= a < b < r.len() ==> r@[a] < r@[b],
            decreases self.done.len() - i,
        {
            assert(self.done_at(i as int) == self.done@[i as int]);
            let ghost before = r@;
            proof {
                assert forall|a: int| 0 <= a < before.len() implies #[trigger] before[a] < i by {
                    assert(before.contains(before[a]));
                }
            }
            if self.done[i] <= value {
                r.push(i);
                proof {
                    assert(r@[before.len() as int] == i);
                    assert forall|k: usize| #[trigger]
                        r@.contains(k) <==> before.contains(k) || k == i by {
                        if before.contains(k) {
                            let a = before.index_of(k);
                            assert(r@[a] == k);
                        }
                        if r@.contains(k) && k != i {
                            let a = r@.index_of(k);
                            assert(before[a] == k);
                        }
                    }
                }
            }
            i += 1;
        }
        r
    }

    /// Lets go of the back buffer that the next frame's slot keeps; the GPU has completed that
    /// slot's last frame.
    pub fn recycle(&mut self, completed: u64)
        requires
            old(self).wf(),
            completed >= old(self).done_at(old(self).slot()),
        ensures
            final(self).wf(),
            final(self).slots() == old(self).slots(),
            final(self).slot() == old(self).slot(),
            final(self).count() == old(self).count(),
            final(self).kept(final(self).slot()) is None,
            forall|i: int| #[trigger] final(self).done_at(i) == old(self).done_at(i),
            forall|i: int|
                0 <= i < old(self).slots() && old(self).done_at(i) > completed ==> #[trigger] final(self).kept(i) == old(self).kept(i),
            forall|i: int|
                0 <= i < old(self).slots() && i != old(self).slot() ==> #[trigger] final(self).kept(
                    i,
                ) == old(self).kept(i),
    {
        let slot: usize = self.current;
        self.back[slot] = None;
        proof {
            let before = *old(self);
            assert(before.wf());
            assert(self.slot() == before.slot() && self.slots() == before.slots());
            assert forall|i: int| #[trigger] self.done_at(i) == before.done_at(i) by {}
            assert forall|i: int| 0 <= i < self.slots() implies #[trigger] self.done_at(i) == (
            if self.count() >= self.age(i) {
                self.count() - self.age(i)
            } else {
                0
            }) by {
                assert(before.done_at(i) == self.done_at(i));
                assert(before.age(i) == self.age(i));
            }
            assert forall|i: int|
                0 <= i < self.slots() && #[trigger] self.done_at(i) == 0 implies self.kept(
                i,
            ) is None by {
                assert(before.done_at(i) == 0);
            }
        }
    }

    /// Records that a frame was submitted: its slot keeps `back`, and the next slot comes up.
    /// Gives the fence value that the queue signals once the frame is done.
    pub fn submit(&mut self, back: B) -> (r: u64)
        requires
            old(self).wf(),
            old(self).count() < u64::MAX,
        ensures
            final(self).wf(),
            r == old(self).count() + 1,
            final(self).slots() == old(self).slots(),
            final(self).count() == r,
            final(self).slot() == if old(self).slot() + 1 == old(self).slots() {
                0
            } else {
                old(self).slot() + 1
            },
            final(self).done_at(old(self).slot()) == r,
            final(self).kept(old(self).slot()) == Some(back),
            forall|i: int|
                0 <= i < old(self).slots() && i != old(self).slot() ==> #[trigger] final(self).done_at(i) == old(self).done_at(i) && final(self).kept(i) == old(self).kept(i),
    {
        let slot: usize = self.current;
        let value: u64 = self.submitted + 1;
        self.submitted = value;
        self.done[slot] = value;
        self.back[slot] = Some(back);
        self.current = if slot == self.done.len() - 1 {
            0
        } else {
            slot + 1
        };
        proof {
            let before = *old(self);
            assert forall|i: int| 0 <= i < before.slots() && i != before.slot() implies
                #[trigger] self.done_at(i) == before.done_at(i) && self.kept(i) == before.kept(
                i,
            ) by {}
            assert forall|i: int| 0 <= i < self.slots() implies #[trigger] self.done_at(i) == (
            if self.count() >= self.age(i) {
                self.count() - self.age(i)
            } else {
                0
            }) by {
                if i == before.slot() {
                    assert(self.age(i) == 0);
                } else {
                    assert(before.done_at(i) == self.done_at(i));
                    assert(self.age(i) == before.age(i) + 1);
                }
            }
            assert forall|i: int|
                0 <= i < self.slots() && #[trigger] self.done_at(i) == 0 implies self.kept(
                i,
            ) is None by {
                if i != before.slot() {
                    assert(before.done_at(i) == self.done_at(i));
                }
            }
        }
        value
    }
}

/// The CPU never gets more than the ring's slots ahead of the GPU: once the next slot's last frame
/// is complete, fewer frames than there are slots are still in flight, and a slot whose frame is
/// in flight is not the next one.
pub proof fn law_cpu_stays_close_to_gpu<B>(ring: FrameRing<B>, completed: int, i: int)
    requires
        ring.wf(),
        ring.done_at(ring.slot()) <= completed,
        0 <= i < ring.slots(),
    ensures
        ring.count() - completed < ring.slots(),
        ring.done_at(i) > completed ==> i != ring.slot(),
{
    assert(ring.age(ring.slot()) == ring.slots() - 1);
    assert(ring.done_at(ring.slot()) == (if ring.count() >= ring.age(ring.slot()) {
        ring.count() - ring.age(ring.slot())
    } else {
        0
    }));
}

/// Once the fence has reached the last submission, no slot is in flight: what frames share may be
/// replaced.
pub proof fn law_idle_after_last_submission<B>(ring: FrameRing<B>, completed: int, i: int)
    requires
        ring.wf(),
        ring.count() <= completed,
        0 <= i < ring.slots(),
    ensures
        ring.done_at(i) <= completed,
{
    assert(ring.age(i) >= 0);
}

/// A fence is waited on exactly if it has not reached the value yet.
pub proof fn law_wait_until_reached(completed: u64, value: u64, r: bool)
    requires
        call_ensures(must_wait, (completed, value), r),
    ensures
        completed >= value ==> !r,
        completed < value ==> r,
{
}

/// A submitted frame gets the next fence value and keeps its back buffer in its slot, until that
/// slot comes up again; the slots come up one after the other, round and round. The other slots
/// keep what they have.
pub proof fn law_frames_take_slots_in_turn<B>(ring: &mut FrameRing<B>, back: B, value: u64, i: int)
    requires
        old(ring).wf(),
        old(ring).count() < u64::MAX,
        call_ensures(FrameRing::<B>::submit, (ring, back), value),
        0 <= i < old(ring).slots(),
    ensures
        final(ring).wf(),
        final(ring).slots() == old(ring).slots(),
        value == old(ring).count() + 1,
        final(ring).count() == value,
        final(ring).slot() == (old(ring).slot() + 1) % old(ring).slots(),
        i == old(ring).slot() ==> final(ring).kept(i) == Some(back) && final(ring).done_at(i)
            == value,
        i != old(ring).slot() ==> final(ring).kept(i) == old(ring).kept(i),
        i != old(ring).slot() ==> final(ring).done_at(i) == old(ring).done_at(i),
{
    let (slot, slots) = (old(ring).slot(), old(ring).slots());
    if slot + 1 == slots {
        assert((slot + 1) % slots == 0) by (nonlinear_arith)
            requires
                slot + 1 == slots,
                slots > 0,
        ;
    } else {
        assert((slot + 1) % slots == slot + 1) by (nonlinear_arith)
            requires
                0 <= slot,
                slot + 1 < slots,
        ;
    }
    if i != slot {
        assert(final(ring).done_at(i) == old(ring).done_at(i));
    }
}

/// Before a slot is used again, the frame is waited for that used it last, which is as many frames
/// ago as there are slots; before anything shared is replaced, the last frame is. A slot that was
/// never used is not waited for.
pub proof fn law_waits_reach_back<B>(ring: FrameRing<B>, pending: u64, submitted: u64, slot: usize)
    requires
        ring.wf(),
        call_ensures(FrameRing::<B>::pending, (&ring,), pending),
        call_ensures(FrameRing::<B>::submitted, (&ring,), submitted),
        call_ensures(FrameRing::<B>::current, (&ring,), slot),
    ensures
        submitted == ring.count(),
        slot == ring.slot(),
        ring.count() < ring.slots() ==> pending == 0,
        ring.count() >= ring.slots() ==> pending + ring.slots() == submitted + 1,
{
}

/// Letting go of the next slot's back buffer empties that slot and no other.
pub proof fn law_only_next_slot_is_emptied<B>(ring: &mut FrameRing<B>, completed: u64, i: int)
    requires
        old(ring).wf(),
        completed >= old(ring).done_at(old(ring).slot()),
        call_ensures(FrameRing::<B>::recycle, (ring, completed), ()),
        0 <= i < old(ring).slots(),
    ensures
        i == old(ring).slot() ==> final(ring).kept(i) is None,
        i != old(ring).slot() ==> final(ring).kept(i) == old(ring).kept(i),
        final(ring).done_at(i) == old(ring).done_at(i),
        final(ring).slot() == old(ring).slot(),
        final(ring).count() == old(ring).count(),
{
    if i != old(ring).slot() {
        assert(final(ring).kept(i) == old(ring).kept(i));
    }
}

/// The slots that are free at a fence value are those whose last frame is done by then; at the last
/// submission all are.
pub proof fn law_free_slots_are_done<B>(ring: FrameRing<B>, value: u64, free: Vec<usize>, i: usize)
    requires
        ring.wf(),
        call_ensures(FrameRing::<B>::slots_until, (&ring, value), free),
        i < ring.slots(),
    ensures
        free@.contains(i) <==> ring.done_at(i as int) <= value,
        value >= ring.count() ==> free@.contains(i),
        forall|a: int, b: int| 0 <= a < b < free.len() ==> free@[a] < free@[b],
{
    assert(ring.done_at(i as int) <= ring.count());
}

/// The plan of a frame is for exactly the buffer that is there, and replaces what depends on the
/// size exactly if it was not made for this width and this height.
pub proof fn law_frame_is_planned_for_buffer(
    depth: Option<(u32, u32)>,
    back: BackBuffer,
    r: FrameStep,
)
    requires
        call_ensures(plan_frame, (depth, back), r),
    ensures
        match back {
            BackBuffer::Ready(width, height) => r == (FrameStep::Draw {
                width,
                height,
                resize: match depth {
                    Some((w, h)) => w < width || width < w || h < height || height < h,
                    None => true,
                },
            }),
            _ => r is Skip,
        },
{
}

/// A new ring has all its slots free, and the first frame takes the first of them.
pub proof fn law_new_ring_is_free<B>(slots: usize, ring: FrameRing<B>, i: int)
    requires
        slots > 0,
        call_ensures(FrameRing::<B>::new, (slots,), ring),
        0 <= i < slots,
    ensures
        ring.wf(),
        ring.slots() == slots,
        ring.slot() == 0,
        ring.count() == 0,
        ring.done_at(i) == 0,
        ring.kept(i) is None,
{
}

} // verus!
