//! The limit on how fast a client may send frames.
//!
//! A ring of as many slots as frames are allowed per second holds the times
//! of the frames accepted last. A frame is accepted when the slot that it
//! would overwrite is empty or at least one second old.

use vstd::prelude::*;

verus! {

/// How many frames a session accepts within one second.
pub const REQUESTS_PER_SECOND: usize = 5;

/// One second, in the nanoseconds that times are counted in.
pub const RATE_WINDOW: u64 = 1_000_000_000;

/// The ring as a value.
pub struct RingView {
    /// The time of an accepted frame in each slot that was written.
    pub slots: Seq<Option<u64>>,
    /// The slot that the next accepted frame overwrites.
    pub next: int,
}

/// The times of the frames accepted last, and where the next one goes.
#[derive(Debug)]
pub struct RateRing {
    slots: [Option<u64>; REQUESTS_PER_SECOND],
    next: usize,
}

/// Whether no time in the sequence is earlier than one before it.
pub open spec fn never_earlier(times: Seq<u64>) -> bool {
    forall|i: int, j: int| 0 <= i <= j < times.len() ==> times[i] <= times[j]
}

impl RingView {
    /// A ring has one slot for each frame allowed per second.
    pub open spec fn wf(self) -> bool {
        self.slots.len() == REQUESTS_PER_SECOND && 0 <= self.next < REQUESTS_PER_SECOND
    }

    /// The ring of a session that has accepted nothing yet.
    pub open spec fn fresh() -> RingView {
        RingView { slots: Seq::new(REQUESTS_PER_SECOND as nat, |i: int| None::<u64>), next: 0 }
    }

    /// Whether a frame that arrives at `now` is accepted: the slot it would
    /// overwrite is empty, or holds a time at least one second before `now`.
    pub open spec fn admits(self, now: u64) -> bool {
        match self.slots[self.next] {
            Some(then) => now - then >= RATE_WINDOW,
            None => true,
        }
    }

    /// The ring after it accepted a frame at `now`.
    pub open spec fn stamped(self, now: u64) -> RingView {
        RingView {
            slots: self.slots.update(self.next, Some(now)),
            next: (self.next + 1) % (REQUESTS_PER_SECOND as int),
        }
    }

    /// The ring after a frame arrived at `now`: a rejected frame leaves no
    /// trace.
    pub open spec fn step(self, now: u64) -> RingView {
        if self.admits(now) {
            self.stamped(now)
        } else {
            self
        }
    }

    /// The ring after frames arrived at these times, in this order.
    pub open spec fn after(self, times: Seq<u64>) -> RingView
        decreases times.len(),
    {
        if times.len() == 0 {
            self
        } else {
            self.after(times.drop_last()).step(times.last())
        }
    }

    /// The times of the frames that were accepted among those that arrived
    /// at these times, in this order.
    pub open spec fn admitted(self, times: Seq<u64>) -> Seq<u64>
        decreases times.len(),
    {
        if times.len() == 0 {
            Seq::empty()
        } else if self.after(times.drop_last()).admits(times.last()) {
            self.admitted(times.drop_last()).push(times.last())
        } else {
            self.admitted(times.drop_last())
        }
    }

    /// The ring holds the last accepted times of `accepted`, each in the
    /// slot of its rank, and nothing else.
    spec fn remembers(self, accepted: Seq<u64>) -> bool {
        let n = REQUESTS_PER_SECOND as int;
        &&& self.wf()
        &&& self.next == (accepted.len() as int) % n
        &&& forall|m: int|
            0 <= m < accepted.len() && accepted.len() - n <= m ==> self.slots[m % n] == Some(
                #[trigger] accepted[m],
            )
        &&& forall|k: int| accepted.len() <= k < n ==> (#[trigger] self.slots[k]) is None
    }
}

/// Whether two accepted frames that have as many accepted frames between
/// them as fill the ring but one lie at least a second apart.
spec fn spaced(accepted: Seq<u64>) -> bool {
    forall|i: int|
        0 <= i && i + REQUESTS_PER_SECOND < accepted.len() ==> accepted[i
            + REQUESTS_PER_SECOND as int] - #[trigger] accepted[i] >= RATE_WINDOW
}

impl View for RateRing {
    type V = RingView;

    closed spec fn view(&self) -> RingView {
        RingView { slots: self.slots@, next: self.next as int }
    }
}

impl RateRing {
    #[verifier::type_invariant]
    spec fn inv(self) -> bool {
        self.next < REQUESTS_PER_SECOND
    }

    /// A ring that has accepted nothing yet.
    pub fn new() -> (ring: RateRing)
        ensures
            ring@ == RingView::fresh(),
    {
        let ring = RateRing { slots: [None;REQUESTS_PER_SECOND], next: 0 };
        assert(ring@.slots =~= RingView::fresh().slots);
        ring
    }

    /// Takes note of a frame that arrives at `now` and says whether it is
    /// accepted. An accepted frame takes the place of the oldest time in the
    /// ring; a rejected one changes nothing.
    pub fn accept(&mut self, now: u64) -> (accepted: bool)
        ensures
            accepted == old(self)@.admits(now),
            final(self)@ == old(self)@.step(now),
            final(self)@.wf(),
    {
        proof {
            use_type_invariant(&*self);
        }
        let slot: usize = self.next;
        match self.slots[slot] {
            Some(then) => {
                if now < then || now - then < RATE_WINDOW {
                    return false;
                }
            },
            None => {},
        }
        self.slots[slot] = Some(now);
        self.next = if slot + 1 == REQUESTS_PER_SECOND {
            0
        } else {
            slot + 1
        };
        true
    }
}

/// One more arrival adds its time to the accepted ones if and only if the
/// ring accepts it.
proof fn lemma_remembers_step(ring: RingView, accepted: Seq<u64>, now: u64)
    requires
        ring.remembers(accepted),
        spaced(accepted),
    ensures
        ring.admits(now) ==> ring.step(now).remembers(accepted.push(now)) && spaced(
            accepted.push(now),
        ),
        !ring.admits(now) ==> ring.step(now) == ring,
{
    let n = REQUESTS_PER_SECOND as int;
    if ring.admits(now) {
        let grown = accepted.push(now);
        let stamped = ring.step(now);
        let len = accepted.len() as int;
        assert forall|m: int| 0 <= m < grown.len() && grown.len() - n <= m implies stamped.slots[m
            % n] == Some(#[trigger] grown[m]) by {
            if m < len {
                assert(m % n != len % n);
                assert(accepted[m] == grown[m]);
            }
        }
        assert forall|k: int| grown.len() <= k < n implies (#[trigger] stamped.slots[k]) is None by {
            assert(ring.slots[k] is None);
        }
        assert forall|i: int| 0 <= i && i + n < grown.len() implies grown[i + n]
            - #[trigger] grown[i] >= RATE_WINDOW by {
            if i + n == len {
                assert(ring.slots[i % n] == Some(accepted[i]));
                assert(i % n == len % n);
            } else {
                assert(accepted[i + n] - accepted[i] >= RATE_WINDOW);
            }
        }
    }
}

/// The ring after any arrivals remembers the accepted ones, and these are
/// spaced.
proof fn lemma_remembers(times: Seq<u64>)
    ensures
        RingView::fresh().after(times).remembers(RingView::fresh().admitted(times)),
        spaced(RingView::fresh().admitted(times)),
    decreases times.len(),
{
    if times.len() > 0 {
        lemma_remembers(times.drop_last());
        lemma_remembers_step(
            RingView::fresh().after(times.drop_last()),
            RingView::fresh().admitted(times.drop_last()),
            times.last(),
        );
    }
}

/// The accepted times are among the arrival times, in their order: where no
/// arrival is earlier than one before it, no accepted time is, and none is
/// later than the last arrival.
proof fn lemma_admitted_in_order(times: Seq<u64>)
    requires
        never_earlier(times),
    ensures
        never_earlier(RingView::fresh().admitted(times)),
        forall|i: int|
            0 <= i < RingView::fresh().admitted(times).len() ==> times.len() > 0
                && #[trigger] RingView::fresh().admitted(times)[i] <= times.last(),
    decreases times.len(),
{
    if times.len() > 0 {
        let before = times.drop_last();
        assert(never_earlier(before)) by {
            assert forall|i: int, j: int| 0 <= i <= j < before.len() implies before[i]
                <= before[j] by {
                assert(times[i] <= times[j]);
            }
        }
        lemma_admitted_in_order(before);
        if before.len() > 0 {
            assert(before.last() == times[times.len() - 2]);
            assert(times[times.len() - 2] <= times[times.len() - 1]);
        }
    }
}

/// A ring never holds more or fewer slots than frames are allowed per
/// second, whatever arrives.
pub proof fn lemma_ring_stays_wf(ring: RingView, times: Seq<u64>)
    requires
        ring.wf(),
    ensures
        ring.after(times).wf(),
    decreases times.len(),
{
    if times.len() > 0 {
        lemma_ring_stays_wf(ring, times.drop_last());
    }
}

/// A session accepts no more frames within a second than are allowed per
/// second: of the frames that it accepts, the one that comes as many frames
/// after another as are allowed per second comes at least one second after
/// it. This holds whatever the arrival times are.
pub proof fn lemma_rate_limit_step(times: Seq<u64>, i: int)
    requires
        0 <= i,
        i + REQUESTS_PER_SECOND < RingView::fresh().admitted(times).len(),
    ensures
        RingView::fresh().admitted(times)[i + REQUESTS_PER_SECOND as int]
            - RingView::fresh().admitted(times)[i] >= RATE_WINDOW,
{
    lemma_remembers(times);
}

/// A session accepts no more frames within a second than are allowed per
/// second: where the arrival times are read from a clock that never runs
/// backwards, any accepted frames of which one more than that number lie
/// between the first and the last, both counted, span at least one second.
pub proof fn lemma_rate_limit(times: Seq<u64>, i: int, j: int)
    requires
        never_earlier(times),
        0 <= i,
        i + REQUESTS_PER_SECOND <= j < RingView::fresh().admitted(times).len(),
    ensures
        RingView::fresh().admitted(times)[j] - RingView::fresh().admitted(times)[i]
            >= RATE_WINDOW,
{
    lemma_remembers(times);
    lemma_admitted_in_order(times);
    let accepted = RingView::fresh().admitted(times);
    assert(accepted[i + REQUESTS_PER_SECOND as int] - accepted[i] >= RATE_WINDOW);
    assert(accepted[i + REQUESTS_PER_SECOND as int] <= accepted[j]);
}

} // verus!
