//! Frame-time telemetry: a bounded ring of the latest draw durations, and a
//! mean that is handed out at a fixed cadence.
use vstd::prelude::*;

verus! {

/// How many draw durations the ring keeps.
pub const CAPACITY: usize = 256;

/// After how many recorded durations the mean is handed out.
pub const REPORT_EVERY: u32 = 60;

/// The sum of the durations.
pub open spec fn sum(samples: Seq<u32>) -> int
    decreases samples.len(),
{
    if samples.len() == 0 {
        0
    } else {
        sum(samples.drop_last()) + samples.last()
    }
}

/// The mean of the durations, rounded down; 0 where there is none.
pub open spec fn mean(samples: Seq<u32>) -> int {
    if samples.len() == 0 {
        0
    } else {
        sum(samples) / (samples.len() as int)
    }
}

/// The newest `limit` of the durations, or all of them if there are fewer.
pub open spec fn newest(samples: Seq<u32>, limit: int) -> Seq<u32> {
    if samples.len() > limit {
        samples.subrange(samples.len() - limit, samples.len() as int)
    } else {
        samples
    }
}

/// The model of an `FpsRing`.
pub struct RingView {
    /// The durations that the ring holds, the oldest first.
    pub samples: Seq<u32>,
    /// How many durations were recorded since the mean was last handed out.
    pub since_report: nat,
}

impl RingView {
    /// The ring after `micros` was recorded.
    pub open spec fn after(self, micros: u32) -> RingView {
        RingView {
            samples: newest(self.samples.push(micros), CAPACITY as int),
            since_report: if self.since_report + 1 >= REPORT_EVERY {
                0
            } else {
                self.since_report + 1
            },
        }
    }

    /// What recording `micros` hands out: the mean of what the ring then
    /// holds, with every `REPORT_EVERY`th duration.
    pub open spec fn report(self, micros: u32) -> Option<u32> {
        if self.since_report + 1 >= REPORT_EVERY {
            Some(mean(self.after(micros).samples) as u32)
        } else {
            None
        }
    }
}

/// The latest draw durations, in microseconds.
#[derive(Debug)]
pub struct FpsRing {
    slots: Vec<u32>,
    oldest: usize,
    since_report: u32,
}

impl View for FpsRing {
    type V = RingView;

    closed spec fn view(&self) -> RingView {
        RingView {
            samples: self.slots@.subrange(self.oldest as int, self.slots@.len() as int)
                + self.slots@.subrange(0, self.oldest as int),
            since_report: self.since_report as nat,
        }
    }
}

/// The sum of at most `CAPACITY` durations fits in a `u64`, and their mean
/// in a `u32`.
proof fn lemma_sum_is_bounded(samples: Seq<u32>)
    ensures
        0 <= sum(samples) <= samples.len() * u32::MAX,
        0 <= mean(samples) <= u32::MAX,
    decreases samples.len(),
{
    if samples.len() > 0 {
        lemma_sum_is_bounded(samples.drop_last());
        assert(sum(samples) <= samples.len() * u32::MAX) by (nonlinear_arith)
            requires
                sum(samples) == sum(samples.drop_last()) + samples.last(),
                sum(samples.drop_last()) <= (samples.len() - 1) * u32::MAX,
                samples.last() <= u32::MAX,
        ;
        assert(sum(samples) / (samples.len() as int) <= u32::MAX) by (nonlinear_arith)
            requires
                sum(samples) <= samples.len() * u32::MAX,
                samples.len() > 0,
        ;
        assert(0 <= sum(samples) / (samples.len() as int)) by (nonlinear_arith)
            requires
                0 <= sum(samples),
                samples.len() > 0,
        ;
    }
}

impl FpsRing {
    /// The ring holds at most `CAPACITY` durations. Until it is full they
    /// stand in the order in which they came; from then on `oldest` is the
    /// place of the oldest one, which is the next to be overwritten.
    #[verifier::type_invariant]
    spec fn wf(self) -> bool {
        &&& self.slots@.len() <= CAPACITY
        &&& self.oldest < CAPACITY
        &&& self.slots@.len() < CAPACITY ==> self.oldest == 0
        &&& self.since_report < REPORT_EVERY
    }

    /// An empty ring.
    pub fn new() -> (ring: FpsRing)
        ensures
            ring@ == (RingView { samples: Seq::empty(), since_report: 0 }),
    {
        let ring = FpsRing { slots: Vec::new(), oldest: 0, since_report: 0 };
        assert(ring@.samples =~= Seq::<u32>::empty());
        ring
    }

    /// How many durations the ring holds: at most `CAPACITY`.
    pub fn len(&self) -> (count: usize)
        ensures
            count == self@.samples.len(),
            count <= CAPACITY,
    {
        proof {
            use_type_invariant(self);
        }
        self.slots.len()
    }

    /// The mean of the durations that the ring holds, rounded down; 0 for
    /// an empty ring.
    pub fn mean(&self) -> (average: u32)
        ensures
            average == mean(self@.samples),
    {
        proof {
            use_type_invariant(self);
            lemma_sum_is_bounded(self@.samples);
        }
        let count = self.slots.len();
        if count == 0 {
            return 0;
        }
        let ghost samples = self@.samples;
        let mut total: u64 = 0;
        let mut taken: usize = 0;
        while taken < count
            invariant
                count == self.slots@.len(),
                0 < count <= CAPACITY,
                self.oldest < CAPACITY,
                count < CAPACITY ==> self.oldest == 0,
                samples == self@.samples,
                samples.len() == count,
                taken <= count,
                total == sum(samples.take(taken as int)),
            decreases count - taken,
        {
            let at: usize = if taken < count - self.oldest {
                self.oldest + taken
            } else {
                taken - (count - self.oldest)
            };
            proof {
                let upto = samples.take(taken as int + 1);
                assert(upto.drop_last() =~= samples.take(taken as int));
                lemma_sum_is_bounded(upto);
            }
            total = total + self.slots[at] as u64;
            taken = taken + 1;
        }
        proof {
            assert(samples.take(count as int) =~= samples);
        }
        (total / count as u64) as u32
    }

    /// Records how long one draw took, in microseconds. Once the ring is
    /// full, the oldest duration makes room for the new one. With every
    /// `REPORT_EVERY`th duration the mean of the ring is returned, to be
    /// logged.
    pub fn record(&mut self, micros: u32) -> (report: Option<u32>)
        ensures
            final(self)@ == old(self)@.after(micros),
            report == old(self)@.report(micros),
    {
        proof {
            use_type_invariant(&*self);
        }
        let ghost before = self@;
        let mut taken = FpsRing::new();
        core::mem::swap(self, &mut taken);
        let FpsRing { mut slots, mut oldest, since_report } = taken;
        if slots.len() < CAPACITY {
            slots.push(micros);
            proof {
                assert(slots@.subrange(0, slots@.len() as int) + slots@.subrange(0, 0)
                    =~= before.samples.push(micros));
            }
        } else {
            slots.set(oldest, micros);
            oldest = if oldest + 1 == CAPACITY {
                0
            } else {
                oldest + 1
            };
            proof {
                let pushed = before.samples.push(micros);
                assert(slots@.subrange(oldest as int, slots@.len() as int) + slots@.subrange(
                    0,
                    oldest as int,
                ) =~= pushed.subrange(pushed.len() - CAPACITY, pushed.len() as int));
            }
        }
        let due = since_report + 1 >= REPORT_EVERY;
        *self = FpsRing {
            slots,
            oldest,
            since_report: if due {
                0
            } else {
                since_report + 1
            },
        };
        if due {
            Some(self.mean())
        } else {
            None
        }
    }
}

} // verus!
