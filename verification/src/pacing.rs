//! The rhythm of the render thread, and how it is measured. Times are nanoseconds.
use vstd::prelude::*;

verus! {

/// The larger of two times.
pub open spec fn later(a: int, b: int) -> int {
    if a >= b {
        a
    } else {
        b
    }
}

/// When the frame after the one that ends at `now` is due.
pub open spec fn next_due(due: int, period: int, now: int) -> int {
    later(due + period, now)
}

/// When the next frame is due after frames that ended at `ends`, from a start at `start`.
pub open spec fn due_after(start: int, period: int, ends: Seq<int>) -> int
    decreases ends.len(),
{
    if ends.len() == 0 {
        start
    } else {
        next_due(due_after(start, period, ends.drop_last()), period, ends.last())
    }
}

/// The clock of a render thread: absolute deadlines, one period apart.
#[derive(Clone, Copy, Debug, PartialEq, Eq, Structural)]
pub struct RenderClock {
    pub deadline: u128,
    pub period: u128,
}

impl RenderClock {
    /// A clock that starts at `start`.
    pub fn new(start: u128, period: u128) -> (r: RenderClock)
        ensures
            r.deadline == start,
            r.period == period,
    {
        RenderClock { deadline: start, period }
    }

    /// A frame has ended at `now`: sets the next deadline one period after the last one, or at once
    /// if that has passed.
    pub fn frame_ended(&mut self, now: u128)
        requires
            old(self).deadline + old(self).period <= u128::MAX,
        ensures
            final(self).period == old(self).period,
            final(self).deadline == next_due(
                old(self).deadline as int,
                old(self).period as int,
                now as int,
            ),
    {
        let due: u128 = self.deadline + self.period;
        self.deadline = if due >= now {
            due
        } else {
            now
        };
    }

    /// How long to sleep at `now`: to the deadline, or not at all.
    pub fn sleep(&self, now: u128) -> (r: u128)
        ensures
            r == if self.deadline >= now {
                self.deadline - now
            } else {
                0
            },
    {
        if self.deadline >= now {
            self.deadline - now
        } else {
            0
        }
    }
}

/// Absolute deadlines do not drift: as long as every frame ends by its deadline, deadline number
/// `n` stands exactly `n` periods after the start.
pub proof fn law_deadlines_do_not_drift(start: int, period: int, ends: Seq<int>)
    requires
        period >= 0,
        forall|i: int| 0 <= i < ends.len() ==> #[trigger] ends[i] <= start + (i + 1) * period,
    ensures
        due_after(start, period, ends) == start + ends.len() * period,
    decreases ends.len(),
{
    if ends.len() > 0 {
        let front = ends.drop_last();
        assert forall|i: int| 0 <= i < front.len() implies #[trigger] front[i] <= start + (i + 1)
            * period by {
            assert(front[i] == ends[i]);
        }
        law_deadlines_do_not_drift(start, period, front);
        let n = ends.len() as int;
        assert(ends[n - 1] <= start + (n - 1 + 1) * period);
        assert((n - 1) * period + period == n * period) by (nonlinear_arith);
    } else {
        assert(ends.len() * period == 0) by (nonlinear_arith)
            requires
                ends.len() == 0,
        ;
    }
}

/// Deadlines are at least a period apart, so that the screen's rate is never exceeded, and none
/// lies in the past: after a late frame the thread goes on at once, and does not race to make up
/// for what it lost.
pub proof fn law_deadlines_are_a_period_apart(start: int, period: int, ends: Seq<int>)
    requires
        ends.len() > 0,
    ensures
        due_after(start, period, ends) >= due_after(start, period, ends.drop_last()) + period,
        due_after(start, period, ends) >= ends.last(),
        ends.last() >= due_after(start, period, ends.drop_last()) + period ==> due_after(
            start,
            period,
            ends,
        ) == ends.last(),
{
}

/// A count of frames after a turn of the render thread, which counts if it has published one. The
/// counter wraps around.
pub open spec fn counted(frames: u64, published: bool) -> u64 {
    if !published {
        frames
    } else if frames == u64::MAX {
        0
    } else {
        (frames + 1) as u64
    }
}

/// Counts a turn of the render thread.
pub fn count_turn(frames: u64, published: bool) -> (r: u64)
    ensures
        r == counted(frames, published),
{
    if published {
        frames.wrapping_add(1)
    } else {
        frames
    }
}

/// The count after all turns, from zero.
pub open spec fn counted_all(turns: Seq<bool>) -> u64
    decreases turns.len(),
{
    if turns.len() == 0 {
        0
    } else {
        counted(counted_all(turns.drop_last()), turns.last())
    }
}

/// How many turns have published a frame.
pub open spec fn publications(turns: Seq<bool>) -> nat
    decreases turns.len(),
{
    if turns.len() == 0 {
        0
    } else {
        publications(turns.drop_last()) + if turns.last() {
            1nat
        } else {
            0nat
        }
    }
}

/// After any turns the count is the number of those that have published a frame. (The counter does
/// not come round in less than 2^64 turns.)
pub proof fn law_count_is_publications(turns: Seq<bool>)
    requires
        turns.len() <= u64::MAX,
    ensures
        counted_all(turns) == publications(turns),
        publications(turns) <= turns.len(),
    decreases turns.len(),
{
    if turns.len() > 0 {
        law_count_is_publications(turns.drop_last());
    }
}

/// Counts frames from one reading of a counter to the next.
#[derive(Clone, Copy, Debug, PartialEq, Eq, Structural)]
pub struct FrameMeter {
    pub last: u64,
}

impl FrameMeter {
    /// A meter for a counter that starts at zero.
    pub fn new() -> (r: FrameMeter)
        ensures
            r.last == 0,
    {
        FrameMeter { last: 0 }
    }

    /// The frames since the last reading.
    pub fn read(&mut self, frames: u64) -> (r: u64)
        requires
            frames >= old(self).last,
        ensures
            r == frames - old(self).last,
            final(self).last == frames,
    {
        let counted: u64 = frames - self.last;
        self.last = frames;
        counted
    }
}

/// The next deadline is one period after the last one, or now if that has passed; and the thread
/// sleeps until it, and not beyond it.
pub proof fn law_thread_sleeps_to_deadline(
    clock: &mut RenderClock,
    now: u128,
    rested: RenderClock,
    sleep: u128,
)
    requires
        old(clock).deadline + old(clock).period <= u128::MAX,
        call_ensures(RenderClock::frame_ended, (clock, now), ()),
        rested == *final(clock),
        call_ensures(RenderClock::sleep, (&rested, now), sleep),
    ensures
        final(clock).period == old(clock).period,
        ({
            let due = old(clock).deadline + old(clock).period;
            &&& now <= due ==> final(clock).deadline == due
            &&& now > due ==> final(clock).deadline == now
        }),
        now + sleep == final(clock).deadline,
{
}

/// A thread that is late does not sleep, and one that is early sleeps for as long as it is early.
pub proof fn law_sleep_is_what_is_left(clock: RenderClock, now: u128, sleep: u128)
    requires
        call_ensures(RenderClock::sleep, (&clock, now), sleep),
    ensures
        now >= clock.deadline ==> sleep == 0,
        now < clock.deadline ==> now + sleep == clock.deadline,
{
}

/// A turn counts exactly if it has published a frame.
pub proof fn law_turn_counts_if_published(frames: u64, published: bool, r: u64)
    requires
        call_ensures(count_turn, (frames, published), r),
    ensures
        !published ==> r == frames,
        published && frames < u64::MAX ==> r == frames + 1,
        published && frames == u64::MAX ==> r == 0,
{
}

/// Readings add up: two in a row give together what one would have given at the end.
pub proof fn law_readings_add_up(
    first: &mut FrameMeter,
    second: &mut FrameMeter,
    whole: &mut FrameMeter,
    n: u64,
    m: u64,
    a: u64,
    b: u64,
    c: u64,
)
    requires
        old(first).last <= n <= m,
        call_ensures(FrameMeter::read, (first, n), a),
        *old(second) == *final(first),
        call_ensures(FrameMeter::read, (second, m), b),
        *old(whole) == *old(first),
        call_ensures(FrameMeter::read, (whole, m), c),
    ensures
        a + b == c,
        old(first).last + a == n,
        *final(second) == *final(whole),
{
}

/// A clock first falls due when it starts, and a meter starts at zero.
pub proof fn law_clock_and_meter_start(
    start: u128,
    period: u128,
    clock: RenderClock,
    meter: FrameMeter,
)
    requires
        call_ensures(RenderClock::new, (start, period), clock),
        call_ensures(FrameMeter::new, (), meter),
    ensures
        clock.deadline == start,
        clock.period == period,
        meter.last == 0,
{
}

} // verus!
