//! Register replay: recomputing each measurement register from its assigned,
//! ordered slice of 48-byte event digests by iterated hashing.

use vstd::prelude::*;

use crate::hash::{sha384, sha384_of};

verus! {

/// The all-zero seed a measurement register starts from: 48 zero bytes.
pub open spec fn mr_zero() -> Seq<u8> {
    Seq::new(48, |i: int| 0u8)
}

/// One register extension step: the new register value is the hash of the old
/// value concatenated with the event digest.
pub open spec fn extend_mr(mr: Seq<u8>, digest: Seq<u8>) -> Seq<u8> {
    sha384_of(mr + digest)
}

/// The value a register reaches after folding the digests in, left to right,
/// starting from the all-zero seed. A strict left fold: order is significant.
pub open spec fn replay_seq(digests: Seq<Seq<u8>>) -> Seq<u8>
    decreases digests.len(),
{
    if digests.len() == 0 {
        mr_zero()
    } else {
        extend_mr(replay_seq(digests.drop_last()), digests.last())
    }
}

/// The byte sequences held by a sequence of byte vectors.
pub open spec fn views_of(digests: Seq<Vec<u8>>) -> Seq<Seq<u8>> {
    digests.map_values(|d: Vec<u8>| d@)
}

/// Replaying a digest sequence is deterministic: the replayed register value
/// is a function of the digest sequence alone, so replaying the same sequence
/// twice yields identical registers.
pub proof fn lemma_replay_deterministic(a: Seq<Seq<u8>>, b: Seq<Seq<u8>>)
    requires
        a == b,
    ensures
        replay_seq(a) == replay_seq(b),
{
}

/// A register with no assigned digests replays to 48 zero bytes.
pub proof fn lemma_replay_empty(digests: Seq<Seq<u8>>)
    requires
        digests.len() == 0,
    ensures
        replay_seq(digests) == mr_zero(),
        replay_seq(digests).len() == 48,
        forall|i: int| 0 <= i < 48 ==> replay_seq(digests)[i] == 0u8,
{
}

/// Replaying a single digest yields the hash of the zero seed concatenated
/// with that digest; a second digest for the same register updates the value
/// to the hash of the previous value concatenated with the second digest.
pub proof fn lemma_replay_one_two(d: Seq<u8>, d2: Seq<u8>)
    ensures
        replay_seq(seq![d]) == sha384_of(mr_zero() + d),
        replay_seq(seq![d, d2]) == sha384_of(sha384_of(mr_zero() + d) + d2),
{
    let one = seq![d];
    let two = seq![d, d2];
    assert(one.drop_last() =~= Seq::<Seq<u8>>::empty());
    assert(replay_seq(one.drop_last()) == mr_zero());
    assert(replay_seq(one) == extend_mr(mr_zero(), d));
    assert(two.drop_last() =~= one);
    assert(two.last() == d2);
    assert(replay_seq(two) == extend_mr(replay_seq(one), d2));
}

/// Concatenation of two byte slices into a fresh vector.
fn concat_bytes(a: &[u8], b: &[u8]) -> (r: Vec<u8>)
    ensures
        r@ == a@ + b@,
{
    let mut r: Vec<u8> = Vec::new();
    let mut i: usize = 0;
    while i < a.len()
        invariant
            i <= a@.len(),
            r@ =~= a@.subrange(0, i as int),
        decreases a@.len() - i,
    {
        r.push(*vstd::slice::slice_index_get(a, i));
        i = i + 1;
    }
    assert(r@ =~= a@);
    let mut j: usize = 0;
    while j < b.len()
        invariant
            j <= b@.len(),
            r@ =~= a@ + b@.subrange(0, j as int),
        decreases b@.len() - j,
    {
        r.push(*vstd::slice::slice_index_get(b, j));
        j = j + 1;
    }
    assert(r@ =~= a@ + b@);
    r
}

/// A fresh register accumulator holding the all-zero seed.
fn mr_seed() -> (r: Vec<u8>)
    ensures
        r@ == mr_zero(),
{
    let mut r: Vec<u8> = Vec::new();
    let mut i: usize = 0;
    while i < 48
        invariant
            i <= 48,
            r@.len() == i,
            forall|k: int| 0 <= k < i ==> r@[k] == 0u8,
        decreases 48 - i,
    {
        r.push(0u8);
        i = i + 1;
    }
    assert(r@ =~= mr_zero());
    r
}

/// Replays one register from the digests in `event_digests[start..end]`,
/// in order.
pub fn replay_range(event_digests: &[Vec<u8>], start: usize, end: usize) -> (mr: Vec<u8>)
    requires
        start <= end <= event_digests@.len(),
    ensures
        mr@ == replay_seq(views_of(event_digests@).subrange(start as int, end as int)),
        mr@.len() == 48,
{
    let ghost dv = views_of(event_digests@);
    let mut mr = mr_seed();
    assert(dv.subrange(start as int, start as int) =~= Seq::<Seq<u8>>::empty());
    let mut i: usize = start;
    while i < end
        invariant
            start <= i <= end <= event_digests@.len(),
            dv == views_of(event_digests@),
            mr@ == replay_seq(dv.subrange(start as int, i as int)),
            mr@.len() == 48,
        decreases end - i,
    {
        let digest = vstd::slice::slice_index_get(event_digests, i);
        let buf = concat_bytes(mr.as_slice(), digest.as_slice());
        mr = sha384(buf.as_slice());
        proof {
            assert(dv.subrange(start as int, i + 1).drop_last() =~= dv.subrange(
                start as int,
                i as int,
            ));
            assert(dv.subrange(start as int, i + 1).last() == dv[i as int]);
        }
        i = i + 1;
    }
    mr
}

/// The four runtime measurement registers, by index.
pub enum RTMR {
    RTMR0,
    RTMR1,
    RTMR2,
    RTMR3,
}

impl RTMR {
    /// The bounds of the contiguous sub-range of the event-digest sequence
    /// assigned to this register: a log with 17 events for register 0, then
    /// 5 for register 1, 2 for register 2 and 9 for register 3.
    pub open spec fn range_spec(&self) -> (int, int) {
        match self {
            RTMR::RTMR0 => (0int, 17int),
            RTMR::RTMR1 => (17int, 22int),
            RTMR::RTMR2 => (22int, 24int),
            RTMR::RTMR3 => (24int, 33int),
        }
    }

    /// The index range of the event-digest sequence assigned to this register.
    pub fn range(&self) -> (r: core::ops::Range<usize>)
        ensures
            r.start == self.range_spec().0,
            r.end == self.range_spec().1,
    {
        match self {
            RTMR::RTMR0 => 0usize..17usize,
            RTMR::RTMR1 => 17usize..22usize,
            RTMR::RTMR2 => 22usize..24usize,
            RTMR::RTMR3 => 24usize..33usize,
        }
    }
}

/// Replays one register from the full ordered digest sequence, consuming the
/// sub-range that `rmtr` assigns to it.
pub fn replay_rtmr(event_digests: &[Vec<u8>], rmtr: RTMR) -> (mr: Vec<u8>)
    requires
        event_digests@.len() >= 33,
    ensures
        mr@ == replay_seq(
            views_of(event_digests@).subrange(rmtr.range_spec().0, rmtr.range_spec().1),
        ),
        mr@.len() == 48,
{
    let range = rmtr.range();
    replay_range(event_digests, range.start, range.end)
}

/// The four replayed register values.
pub struct RMTRValues {
    pub rtmr0: Vec<u8>,
    pub rtmr1: Vec<u8>,
    pub rtmr2: Vec<u8>,
    pub rtmr3: Vec<u8>,
}

impl RMTRValues {
    /// All four registers hold 48 bytes.
    pub open spec fn wf(&self) -> bool {
        &&& self.rtmr0@.len() == 48
        &&& self.rtmr1@.len() == 48
        &&& self.rtmr2@.len() == 48
        &&& self.rtmr3@.len() == 48
    }

    /// Replays all four registers from the full ordered digest sequence,
    /// partitioned by the fixed per-register ranges.
    pub fn from_event_digests(event_digests: &[Vec<u8>]) -> (r: RMTRValues)
        requires
            event_digests@.len() >= 33,
        ensures
            r.rtmr0@ == replay_seq(views_of(event_digests@).subrange(0, 17)),
            r.rtmr1@ == replay_seq(views_of(event_digests@).subrange(17, 22)),
            r.rtmr2@ == replay_seq(views_of(event_digests@).subrange(22, 24)),
            r.rtmr3@ == replay_seq(views_of(event_digests@).subrange(24, 33)),
            r.wf(),
    {
        RMTRValues {
            rtmr0: replay_rtmr(event_digests, RTMR::RTMR0),
            rtmr1: replay_rtmr(event_digests, RTMR::RTMR1),
            rtmr2: replay_rtmr(event_digests, RTMR::RTMR2),
            rtmr3: replay_rtmr(event_digests, RTMR::RTMR3),
        }
    }

    /// Replays all four registers from the full ordered digest sequence,
    /// partitioned into four contiguous ranges of the given lengths, in
    /// ascending register order. The ranges must cover the sequence exactly.
    pub fn from_partition(
        event_digests: &[Vec<u8>],
        count0: usize,
        count1: usize,
        count2: usize,
        count3: usize,
    ) -> (r: RMTRValues)
        requires
            count0 + count1 + count2 + count3 == event_digests@.len(),
        ensures
            r.rtmr0@ == replay_seq(views_of(event_digests@).subrange(0, count0 as int)),
            r.rtmr1@ == replay_seq(
                views_of(event_digests@).subrange(count0 as int, count0 + count1),
            ),
            r.rtmr2@ == replay_seq(
                views_of(event_digests@).subrange(count0 + count1, count0 + count1 + count2),
            ),
            r.rtmr3@ == replay_seq(
                views_of(event_digests@).subrange(
                    count0 + count1 + count2,
                    event_digests@.len() as int,
                ),
            ),
            r.wf(),
    {
        let total = event_digests.len();
        assert(count0 + count1 + count2 + count3 == total);
        let end0 = count0;
        let end1 = end0 + count1;
        let end2 = end1 + count2;
        let end3 = end2 + count3;
        RMTRValues {
            rtmr0: replay_range(event_digests, 0, end0),
            rtmr1: replay_range(event_digests, end0, end1),
            rtmr2: replay_range(event_digests, end1, end2),
            rtmr3: replay_range(event_digests, end2, end3),
        }
    }
}

} // verus!
