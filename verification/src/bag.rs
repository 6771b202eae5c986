//! 7-bag randomizer for piece generation.
//!
//! All 7 pieces are shuffled, then dealt out before reshuffling, which
//! prevents long droughts. The shuffle is a Fisher-Yates pass driven by a
//! fixed, fully specified 64-bit generator, so that two bags built from the
//! same seed deal identical piece sequences in any process - the guarantee
//! a networked opponent relies on to replay a game locally.

use vstd::multiset::Multiset;
use vstd::prelude::*;
use vstd::seq_lib::group_seq_properties;
use vstd::wrapping::u64_specs;

use crate::tetromino::TetrominoType;

verus! {

/// Stream increment of the splitmix64 generator.
pub const RNG_GAMMA: u64 = 0x9E3779B97F4A7C15;

/// First mixing multiplier of the splitmix64 output function.
pub const RNG_MIX_1: u64 = 0xBF58476D1CE4E5B9;

/// Second mixing multiplier of the splitmix64 output function.
pub const RNG_MIX_2: u64 = 0x94D049BB133111EB;

/// The successor state of the generator: the previous state advanced by
/// the stream increment, wrapping.
pub open spec fn spec_rng_step(state: u64) -> u64 {
    u64_specs::wrapping_add(state, RNG_GAMMA)
}

/// The output word of a generator state: two xor-shift-multiply mixing
/// rounds and a final xor-shift.
pub open spec fn spec_rng_output(z0: u64) -> u64 {
    let z1 = u64_specs::wrapping_mul(z0 ^ (z0 >> 30u64), RNG_MIX_1);
    let z2 = u64_specs::wrapping_mul(z1 ^ (z1 >> 27u64), RNG_MIX_2);
    z2 ^ (z2 >> 31u64)
}

/// Advance the generator and return its output word.
fn rng_next(state: &mut u64) -> (out: u64)
    ensures
        *final(state) == spec_rng_step(*old(state)),
        out == spec_rng_output(*final(state)),
{
    *state = state.wrapping_add(RNG_GAMMA);
    let z0 = *state;
    let z1 = (z0 ^ (z0 >> 30u64)).wrapping_mul(RNG_MIX_1);
    let z2 = (z1 ^ (z1 >> 27u64)).wrapping_mul(RNG_MIX_2);
    z2 ^ (z2 >> 31u64)
}

/// The multiset of the 7 kinds: what one full bag must deal.
pub open spec fn all_kinds_multiset() -> Multiset<TetrominoType> {
    TetrominoType::all_kinds().to_multiset()
}

/// The sequence and generator state after the Fisher-Yates steps for
/// positions i, i-1, ..., 1: each step swaps position i with a generator-
/// chosen position in 0..=i.
pub open spec fn spec_shuffle_from(s: Seq<TetrominoType>, i: nat, state: u64) -> (
    Seq<TetrominoType>,
    u64,
)
    decreases i,
{
    if i == 0 || i >= s.len() {
        (s, state)
    } else {
        let st2 = spec_rng_step(state);
        let out = spec_rng_output(st2);
        let j = out as int % (i + 1) as int;
        let swapped = s.update(i as int, s[j]).update(j, s[i as int]);
        spec_shuffle_from(swapped, (i - 1) as nat, st2)
    }
}

/// One freshly shuffled full bag dealt from a generator state, and the
/// state left behind.
pub open spec fn spec_shuffled_bag(state: u64) -> (Seq<TetrominoType>, u64) {
    spec_shuffle_from(TetrominoType::all_kinds(), 6, state)
}

/// Swapping two positions of a sequence keeps its multiset.
proof fn lemma_swap_multiset(s: Seq<TetrominoType>, i: int, j: int)
    requires
        0 <= i < s.len(),
        0 <= j < s.len(),
    ensures
        s.update(i, s[j]).update(j, s[i]).to_multiset() == s.to_multiset(),
{
    broadcast use group_seq_properties;
    broadcast use vstd::seq_lib::to_multiset_update;

    if i == j {
        assert(s.update(i, s[j]).update(j, s[i]) =~= s);
    } else {
        let s1 = s.update(i, s[j]);
        assert(s1[j] == s[j]);
        assert(s1.to_multiset() == s.to_multiset().insert(s[j]).remove(s[i]));
        assert(s1.update(j, s[i]).to_multiset() == s1.to_multiset().insert(s[i]).remove(s1[j]));
        s.to_multiset_ensures();
        assert(s.contains(s[i]));
        assert(s.to_multiset().count(s[i]) > 0);
        assert(s.to_multiset().insert(s[j]).remove(s[i]).insert(s[i]).remove(s[j])
            =~= s.to_multiset());
    }
}

/// A Fisher-Yates pass keeps the length and the multiset of the sequence:
/// what comes out is a permutation of what went in.
pub proof fn lemma_shuffle_permutes(s: Seq<TetrominoType>, i: nat, state: u64)
    ensures
        spec_shuffle_from(s, i, state).0.len() == s.len(),
        spec_shuffle_from(s, i, state).0.to_multiset() == s.to_multiset(),
    decreases i,
{
    if i == 0 || i >= s.len() {
    } else {
        let st2 = spec_rng_step(state);
        let out = spec_rng_output(st2);
        let j = out as int % (i + 1) as int;
        let swapped = s.update(i as int, s[j]).update(j, s[i as int]);
        lemma_swap_multiset(s, i as int, j);
        lemma_shuffle_permutes(swapped, (i - 1) as nat, st2);
    }
}

/// Deal one freshly shuffled full bag and advance the generator.
fn shuffled_bag(rng: &mut u64) -> (bag: Vec<TetrominoType>)
    ensures
        bag@ == spec_shuffled_bag(*old(rng)).0,
        *final(rng) == spec_shuffled_bag(*old(rng)).1,
        bag@.len() == 7,
        bag@.to_multiset() == all_kinds_multiset(),
{
    let arr = TetrominoType::all();
    let mut v: Vec<TetrominoType> = Vec::new();
    v.push(arr[0]);
    v.push(arr[1]);
    v.push(arr[2]);
    v.push(arr[3]);
    v.push(arr[4]);
    v.push(arr[5]);
    v.push(arr[6]);
    proof {
        assert(v@ =~= TetrominoType::all_kinds());
        lemma_shuffle_permutes(TetrominoType::all_kinds(), 6, *rng);
    }
    let ghost start_state = *rng;
    let mut i: usize = 6;
    while i >= 1
        invariant
            v@.len() == 7,
            i <= 6,
            spec_shuffle_from(TetrominoType::all_kinds(), 6, start_state) == spec_shuffle_from(
                v@,
                i as nat,
                *rng,
            ),
            start_state == *old(rng),
        decreases i,
    {
        let ghost v_before = v@;
        let ghost rng_before = *rng;
        let out = rng_next(rng);
        let j = (out % (i as u64 + 1)) as usize;
        let vi = v[i];
        let vj = v[j];
        v.set(i, vj);
        v.set(j, vi);
        proof {
            assert(v@ =~= v_before.update(i as int, v_before[j as int]).update(
                j as int,
                v_before[i as int],
            ));
            assert(spec_shuffle_from(v_before, i as nat, rng_before) == spec_shuffle_from(
                v@,
                (i - 1) as nat,
                *rng,
            ));
        }
        i -= 1;
    }
    v
}

/// The 7-bag piece randomizer.
///
/// The queue always holds at least one full bag, so previews never run dry;
/// a ghost history of the dealt pieces carries the fairness invariant.
#[derive(Clone)]
pub struct Bag {
    /// Preview queue for upcoming pieces.
    queue: Vec<TetrominoType>,
    /// Generator state for future refills.
    rng_state: u64,
    /// All pieces dealt so far, oldest first.
    history: Ghost<Seq<TetrominoType>>,
}

/// The dealt-and-upcoming stream splits into full 7-blocks, each a
/// permutation of the 7 kinds.
pub open spec fn spec_perm_blocks(s: Seq<TetrominoType>) -> bool {
    &&& s.len() % 7 == 0
    &&& forall|k: int|
        0 <= k && 7 * k + 7 <= s.len() ==> #[trigger] s.subrange(7 * k, 7 * k + 7).to_multiset()
            == all_kinds_multiset()
}

/// Appending one full permutation block to a block-partitioned stream
/// keeps it block-partitioned.
proof fn lemma_perm_blocks_append(s: Seq<TetrominoType>, b: Seq<TetrominoType>)
    requires
        spec_perm_blocks(s),
        b.len() == 7,
        b.to_multiset() == all_kinds_multiset(),
    ensures
        spec_perm_blocks(s + b),
{
    let t = s + b;
    assert(t.len() % 7 == 0);
    assert forall|k: int| 0 <= k && 7 * k + 7 <= t.len() implies #[trigger] t.subrange(
        7 * k,
        7 * k + 7,
    ).to_multiset() == all_kinds_multiset() by {
        if 7 * k + 7 <= s.len() {
            assert(t.subrange(7 * k, 7 * k + 7) =~= s.subrange(7 * k, 7 * k + 7));
        } else {
            assert(7 * k < t.len());
            assert(7 * k >= s.len()) by {
                assert(s.len() % 7 == 0);
                if 7 * k < s.len() {
                    assert(7 * k + 7 <= s.len()) by (nonlinear_arith)
                        requires
                            7 * k < s.len(),
                            s.len() % 7 == 0,
                            k >= 0,
                    ;
                }
            }
            assert(7 * k == s.len() && 7 * k + 7 == t.len()) by (nonlinear_arith)
                requires
                    s.len() <= 7 * k,
                    7 * k + 7 <= t.len(),
                    t.len() == s.len() + 7,
            ;
            assert(t.subrange(7 * k, 7 * k + 7) =~= b);
        }
    }
}

/// The queue and generator state after the refill check of one deal from
/// an abstract bag state (queue, generator): a queue down to one bag is
/// topped up with a fresh shuffle.
pub open spec fn spec_refilled_state(queue: Seq<TetrominoType>, rng: u64) -> (
    Seq<TetrominoType>,
    u64,
) {
    if queue.len() <= 7 {
        let (block, s2) = spec_shuffled_bag(rng);
        (queue + block, s2)
    } else {
        (queue, rng)
    }
}

/// The first n pieces dealt from an abstract bag state, refills included:
/// the whole observable behavior of a bag over n calls.
pub open spec fn spec_deal_stream(queue: Seq<TetrominoType>, rng: u64, n: nat) -> Seq<
    TetrominoType,
>
    decreases n,
{
    if n == 0 {
        Seq::empty()
    } else {
        let (q1, r1) = spec_refilled_state(queue, rng);
        seq![q1[0]] + spec_deal_stream(q1.drop_first(), r1, (n - 1) as nat)
    }
}

impl Bag {
    /// The pieces waiting to be dealt, front first.
    pub closed spec fn upcoming(self) -> Seq<TetrominoType> {
        self.queue@
    }

    /// The generator state for future refills.
    pub closed spec fn rng(self) -> u64 {
        self.rng_state
    }

    /// All pieces dealt so far, oldest first.
    pub closed spec fn drawn(self) -> Seq<TetrominoType> {
        self.history@
    }

    /// The dealt pieces followed by the upcoming queue always form whole
    /// 7-blocks, each a permutation of the 7 kinds, and at least one full
    /// bag is queued.
    pub open spec fn wf(self) -> bool {
        &&& spec_perm_blocks(self.drawn() + self.upcoming())
        &&& self.upcoming().len() >= 7
    }

    /// The queue and generator state of a freshly seeded bag: two full
    /// shuffled bags, dealt from the seed.
    pub open spec fn spec_with_seed(seed: u64) -> (Seq<TetrominoType>, u64) {
        let (first, s1) = spec_shuffled_bag(seed);
        let (second, s2) = spec_shuffled_bag(s1);
        (first + second, s2)
    }

    /// A freshly seeded bag's abstract state: nothing dealt yet, exactly
    /// the 14 pieces of two full shuffles queued, and the generator state
    /// the two shuffles left behind. Everything a bag will ever deal is a
    /// function of this state.
    pub open spec fn spec_seeded(self, seed: u64) -> bool {
        &&& self.drawn() == Seq::<TetrominoType>::empty()
        &&& self.upcoming() == Bag::spec_with_seed(seed).0
        &&& self.upcoming().len() == 14
        &&& self.rng() == Bag::spec_with_seed(seed).1
    }

    /// Create a bag randomizer from a seed. The whole future piece
    /// sequence is a function of the seed alone.
    pub fn with_seed(seed: u64) -> (bag: Bag)
        ensures
            bag.wf(),
            bag.spec_seeded(seed),
    {
        let mut rng_state = seed;
        let mut queue = shuffled_bag(&mut rng_state);
        let mut second = shuffled_bag(&mut rng_state);
        queue.append(&mut second);
        let bag = Bag { queue, rng_state, history: Ghost(Seq::empty()) };
        proof {
            let (first_block, s1) = spec_shuffled_bag(seed);
            let (second_block, s2) = spec_shuffled_bag(s1);
            assert(bag.drawn() + bag.upcoming() =~= first_block + second_block);
            assert(spec_perm_blocks(first_block + second_block)) by {
                assert(spec_perm_blocks(Seq::<TetrominoType>::empty()));
                assert(Seq::<TetrominoType>::empty() + first_block =~= first_block);
                lemma_perm_blocks_append(Seq::<TetrominoType>::empty(), first_block);
                lemma_perm_blocks_append(first_block, second_block);
            }
        }
        bag
    }

    /// Create a bag randomizer from a fresh random seed: some seed's
    /// two-shuffle starting state, with its full 14-piece queue.
    pub fn new() -> (bag: Bag)
        ensures
            bag.wf(),
            bag.drawn() == Seq::<TetrominoType>::empty(),
            bag.upcoming().len() == 14,
            exists|seed: u64| #[trigger] bag.spec_seeded(seed),
    {
        let seed = random_seed();
        let bag = Bag::with_seed(seed);
        proof {
            assert(bag.spec_seeded(seed));
        }
        bag
    }

    /// The queue and generator state after the refill check of one deal:
    /// a queue down to one bag is topped up with a fresh shuffle.
    pub open spec fn spec_refilled(self) -> (Seq<TetrominoType>, u64) {
        spec_refilled_state(self.upcoming(), self.rng())
    }

    /// The piece the next deal returns.
    pub open spec fn spec_next_piece(self) -> TetrominoType {
        self.spec_refilled().0[0]
    }

    /// The queue after the next deal.
    pub open spec fn spec_next_queue(self) -> Seq<TetrominoType> {
        self.spec_refilled().0.drop_first()
    }

    /// The generator state after the next deal.
    pub open spec fn spec_next_rng(self) -> u64 {
        self.spec_refilled().1
    }

    /// Get the next piece from the queue, refilling transparently so the
    /// queue never runs dry.
    pub fn next(&mut self) -> (piece: TetrominoType)
        requires
            old(self).wf(),
        ensures
            final(self).wf(),
            piece == old(self).spec_next_piece(),
            final(self).upcoming() == old(self).spec_next_queue(),
            final(self).rng() == old(self).spec_next_rng(),
            final(self).drawn() == old(self).drawn().push(piece),
    {
        if self.queue.len() <= 7 {
            let mut extra = shuffled_bag(&mut self.rng_state);
            proof {
                lemma_perm_blocks_append(self.drawn() + self.queue@, extra@);
                assert((self.drawn() + self.queue@) + extra@ =~= self.drawn() + (self.queue@
                    + extra@));
            }
            self.queue.append(&mut extra);
        }
        let piece = self.queue.remove(0);
        proof {
            self.history@ = self.history@.push(piece);
            assert(final(self).drawn() + final(self).upcoming() =~= old(self).drawn() + old(
                self,
            ).spec_refilled().0);
        }
        piece
    }

    /// Preview the next `count` pieces without dealing them, clipped to the
    /// queue length.
    pub fn preview(&self, count: usize) -> (r: Vec<TetrominoType>)
        ensures
            r@ == self.upcoming().take(
                if count <= self.upcoming().len() {
                    count as int
                } else {
                    self.upcoming().len() as int
                },
            ),
    {
        let n = if count <= self.queue.len() {
            count
        } else {
            self.queue.len()
        };
        let mut r: Vec<TetrominoType> = Vec::new();
        let mut k: usize = 0;
        while k < n
            invariant
                n <= self.queue@.len(),
                k <= n,
                r@ =~= self.queue@.take(k as int),
            decreases n - k,
        {
            r.push(self.queue[k]);
            proof {
                assert(r@ =~= self.queue@.take(k as int + 1));
            }
            k += 1;
        }
        r
    }
}

/// A default bag is a freshly seeded one.
impl Default for Bag {
    fn default() -> (bag: Bag)
        ensures
            bag.wf(),
            bag.drawn() == Seq::<TetrominoType>::empty(),
            bag.upcoming().len() == 14,
            exists|seed: u64| #[trigger] bag.spec_seeded(seed),
    {
        Bag::new()
    }
}

/// Bag fairness: every consecutive non-overlapping block of 7 dealt pieces
/// is a permutation of all 7 kinds - none skipped, none repeated.
pub proof fn lemma_bag_fairness(bag: Bag, k: int)
    requires
        bag.wf(),
        0 <= k,
        7 * k + 7 <= bag.drawn().len(),
    ensures
        bag.drawn().subrange(7 * k, 7 * k + 7).to_multiset() == all_kinds_multiset(),
{
    let whole = bag.drawn() + bag.upcoming();
    assert(bag.drawn().subrange(7 * k, 7 * k + 7) =~= whole.subrange(7 * k, 7 * k + 7));
}

/// One deal follows the stream: the piece dealt is the head of the n-piece
/// stream from the bag's state, and the bag left behind deals its tail.
/// With `next`'s contract this pins the result of every run of calls.
pub proof fn lemma_next_follows_stream(bag: Bag, n: nat)
    requires
        n >= 1,
    ensures
        spec_deal_stream(bag.upcoming(), bag.rng(), n) == seq![bag.spec_next_piece()]
            + spec_deal_stream(bag.spec_next_queue(), bag.spec_next_rng(), (n - 1) as nat),
{
}

/// Bag determinism: two bags built from the same seed deal identical piece
/// sequences - for every number of calls, the stream of pieces each will
/// deal is the same, so a networked opponent's draws can be replayed
/// locally from the seed alone.
pub proof fn lemma_bag_determinism(b1: Bag, b2: Bag, seed: u64, n: nat)
    requires
        b1.spec_seeded(seed),
        b2.spec_seeded(seed),
    ensures
        spec_deal_stream(b1.upcoming(), b1.rng(), n) == spec_deal_stream(
            b2.upcoming(),
            b2.rng(),
            n,
        ),
        b1.spec_next_piece() == b2.spec_next_piece(),
        b1.spec_next_queue() == b2.spec_next_queue(),
        b1.spec_next_rng() == b2.spec_next_rng(),
{
}

/// Relies on rand::random: a fresh 64-bit seed from the thread-local
/// generator. Nothing is promised of its value.
#[verifier::external_body]
pub(crate) fn random_seed() -> u64 {
    rand::random::<u64>()
}

} // verus!
