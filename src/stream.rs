//! The powers-of-tau point stream and its chunking.
use vstd::prelude::*;

use vstd::arithmetic::div_mod::{
    lemma_fundamental_div_mod, lemma_fundamental_div_mod_converse, lemma_mod_pos_bound,
};

use blstrs::Scalar;

use crate::curve::{element, encoding, power, scaled, CurvePoint};

verus! {

/// The largest number of elements that one stream may produce in a run: 2^32.
pub const MAX_COUNT: u64 = 4294967296;

/// The smallest accepted chunk length.
pub const MIN_CHUNK_LENGTH: u64 = 2;

/// Why a stream's configuration was rejected.
#[derive(Debug, Clone, Copy, PartialEq, Eq, Structural)]
pub enum ConfigError {
    /// More elements were requested than `MAX_COUNT`.
    CountTooLarge { count: u64 },
    /// A chunk would hold fewer than `MIN_CHUNK_LENGTH` elements.
    ChunkTooShort { chunk_length: u64 },
}

/// The error that `check_config` owes for a request, if any.
pub open spec fn config_error(count: u64, chunk_length: u64) -> Option<ConfigError> {
    if count > MAX_COUNT {
        Some(ConfigError::CountTooLarge { count })
    } else if chunk_length < MIN_CHUNK_LENGTH {
        Some(ConfigError::ChunkTooShort { chunk_length })
    } else {
        None
    }
}

/// Checks a stream's requested element count and chunk length.
pub fn check_config(count: u64, chunk_length: u64) -> (r: Result<(), ConfigError>)
    ensures
        r is Ok <==> config_error(count, chunk_length) is None,
        r matches Err(e) ==> config_error(count, chunk_length) == Some(e),
{
    if count > MAX_COUNT {
        Err(ConfigError::CountTooLarge { count })
    } else if chunk_length < MIN_CHUNK_LENGTH {
        Err(ConfigError::ChunkTooShort { chunk_length })
    } else {
        Ok(())
    }
}

/// A complete chunk: `points[j]` is the element at index `index * points.len() + j`.
pub struct Chunk {
    pub index: u64,
    pub points: Vec<Vec<u8>>,
}

/// Whether `points` is chunk `index` of length `len` of the stream from `base` and `tau`.
pub open spec fn chunk_holds(
    points: Seq<Vec<u8>>,
    base: CurvePoint,
    tau: Scalar,
    index: nat,
    len: nat,
) -> bool {
    &&& points.len() == len
    &&& forall|j: int|
        0 <= j < len ==> (#[trigger] points[j])@ == element(base, tau, (index * len + j) as nat)
}

/// What a stream is: its base point and scalar, how many elements it will
/// produce, its chunk length and how many elements it has produced so far.
pub ghost struct StreamView {
    pub base: CurvePoint,
    pub tau: Scalar,
    pub target: nat,
    pub chunk_length: nat,
    pub produced: nat,
}

/// What one call of `PowerStream::step` did.
pub enum Step {
    /// One more element was computed; its chunk is not complete yet.
    Computed,
    /// One more element was computed, and it completed this chunk.
    Completed(Chunk),
    /// The stream had already produced all its elements.
    Finished,
}

/// What a step from state `v`, with an element left to produce, returns:
/// the chunk that the new element completes, if it completes one.
pub open spec fn step_outcome(r: Step, v: StreamView) -> bool {
    if (v.produced + 1) % v.chunk_length == 0 {
        match r {
            Step::Completed(c) => c.index == v.produced / v.chunk_length && chunk_holds(
                c.points@,
                v.base,
                v.tau,
                c.index as nat,
                v.chunk_length,
            ),
            _ => false,
        }
    } else {
        r is Computed
    }
}

/// A powers-of-tau stream: element `i` is base * tau^(i+1), in compressed
/// encoding. Elements are produced one at a time, in order, and handed out
/// in complete chunks; the elements of a final partial chunk are computed
/// but never handed out.
pub struct PowerStream {
    base: Ghost<CurvePoint>,
    tau: Scalar,
    point: CurvePoint,
    target: u64,
    chunk_length: u64,
    produced: u64,
    pending: Vec<Vec<u8>>,
}

impl View for PowerStream {
    type V = StreamView;

    closed spec fn view(&self) -> StreamView {
        StreamView {
            base: self.base@,
            tau: self.tau,
            target: self.target as nat,
            chunk_length: self.chunk_length as nat,
            produced: self.produced as nat,
        }
    }
}

/// Going from `p` to `p + 1` elements either stays within a chunk or completes one.
proof fn lemma_next_index(p: nat, len: nat)
    requires
        len > 0,
    ensures
        p % len == len - 1 ==> (p + 1) % len == 0 && (p + 1) / len == p / len + 1,
        p % len != len - 1 ==> (p + 1) % len == p % len + 1 && (p + 1) / len == p / len,
{
    let q = (p / len) as int;
    let r = (p % len) as int;
    lemma_fundamental_div_mod(p as int, len as int);
    lemma_mod_pos_bound(p as int, len as int);
    if r == len - 1 {
        assert((p + 1) == (q + 1) * len) by (nonlinear_arith)
            requires
                p == len * q + r,
                r == len - 1,
        ;
        lemma_fundamental_div_mod_converse((p + 1) as int, len as int, q + 1, 0);
    } else {
        assert((p + 1) == q * len + (r + 1)) by (nonlinear_arith)
            requires
                p == len * q + r,
        ;
        lemma_fundamental_div_mod_converse((p + 1) as int, len as int, q, r + 1);
    }
}

impl PowerStream {
    /// Whether the stream's state is consistent: the running point is
    /// base * tau^produced, and the buffer holds the elements of the current
    /// chunk that have been produced.
    pub closed spec fn wf(&self) -> bool {
        &&& self.target <= MAX_COUNT
        &&& self.chunk_length >= MIN_CHUNK_LENGTH
        &&& self.produced <= self.target
        &&& self.point == power(self.base@, self.tau, self.produced as nat)
        &&& self.pending@.len() == self.produced % self.chunk_length
        &&& forall|j: int|
            0 <= j < self.pending@.len() ==> (#[trigger] self.pending@[j])@ == element(
                self.base@,
                self.tau,
                ((self.produced / self.chunk_length) * self.chunk_length + j) as nat,
            )
    }

    /// A stream of `count` elements from `base` and `tau`, in chunks of
    /// `chunk_length`, or the configuration error.
    pub fn new(base: CurvePoint, tau: Scalar, count: u64, chunk_length: u64) -> (r: Result<
        PowerStream,
        ConfigError,
    >)
        ensures
            r is Ok <==> config_error(count, chunk_length) is None,
            r matches Err(e) ==> config_error(count, chunk_length) == Some(e),
            r matches Ok(s) ==> s.wf() && s@ == (StreamView {
                base,
                tau,
                target: count as nat,
                chunk_length: chunk_length as nat,
                produced: 0,
            }),
    {
        match check_config(count, chunk_length) {
            Err(e) => Err(e),
            Ok(()) => {
                let s = PowerStream {
                    base: Ghost(base),
                    tau,
                    point: base,
                    target: count,
                    chunk_length,
                    produced: 0,
                    pending: Vec::new(),
                };
                assert(s.pending@.len() == 0);
                Ok(s)
            },
        }
    }

    /// How many elements the stream has produced so far.
    pub fn produced(&self) -> (r: u64)
        ensures
            r == self@.produced,
    {
        self.produced
    }

    /// How many elements the stream will produce in all.
    pub fn target(&self) -> (r: u64)
        ensures
            r == self@.target,
    {
        self.target
    }

    /// The number of elements in each chunk.
    pub fn chunk_length(&self) -> (r: u64)
        ensures
            r == self@.chunk_length,
    {
        self.chunk_length
    }

    /// Whether the stream has produced all its elements.
    pub fn is_finished(&self) -> (r: bool)
        ensures
            r == (self@.produced >= self@.target),
    {
        self.produced >= self.target
    }

    /// Produces the next element. When it is the last of its chunk, the
    /// whole chunk is returned and a fresh one is started.
    pub fn step(&mut self) -> (r: Step)
        requires
            old(self).wf(),
        ensures
            final(self).wf(),
            final(self)@.base == old(self)@.base,
            final(self)@.tau == old(self)@.tau,
            final(self)@.target == old(self)@.target,
            final(self)@.chunk_length == old(self)@.chunk_length,
            old(self)@.produced >= old(self)@.target ==> r is Finished && final(self)@ == old(
                self,
            )@,
            old(self)@.produced < old(self)@.target ==> final(self)@.produced == old(
                self,
            )@.produced + 1,
            old(self)@.produced < old(self)@.target ==> step_outcome(r, old(self)@),
    {
        if self.produced >= self.target {
            return Step::Finished;
        }
        let ghost p = self.produced as nat;
        let ghost len = self.chunk_length as nat;
        proof {
            lemma_next_index(p, len);
        }
        let index = self.produced;
        self.produced = self.produced + 1;
        self.point.mul_by(&self.tau);
        assert(self.point == power(self.base@, self.tau, p + 1));
        let bytes = self.point.to_bytes();
        assert(bytes@ == element(self.base@, self.tau, p));
        self.pending.push(bytes);
        proof {
            lemma_fundamental_div_mod(p as int, len as int);
            assert((p / len) * len + p % len == p) by (nonlinear_arith)
                requires
                    p == len * (p / len) + p % len,
            ;
        }
        if index % self.chunk_length == self.chunk_length - 1 {
            let mut points: Vec<Vec<u8>> = Vec::new();
            std::mem::swap(&mut points, &mut self.pending);
            let chunk_index = index / self.chunk_length;
            assert(self.pending@.len() == 0);
            Step::Completed(Chunk { index: chunk_index, points })
        } else {
            Step::Computed
        }
    }
}

impl PowerStream {
    /// Produces every element that is left and returns the chunks that they
    /// complete, in order. A final partial chunk is not returned.
    pub fn run_to_end(&mut self) -> (r: Vec<Chunk>)
        requires
            old(self).wf(),
        ensures
            final(self).wf(),
            final(self)@ == (StreamView { produced: old(self)@.target, ..old(self)@ }),
            old(self)@.produced / old(self)@.chunk_length <= old(self)@.target
                / old(self)@.chunk_length,
            r@.len() == old(self)@.target / old(self)@.chunk_length - old(self)@.produced
                / old(self)@.chunk_length,
            forall|i: int|
                0 <= i < r@.len() ==> (#[trigger] r@[i]).index == old(self)@.produced
                    / old(self)@.chunk_length + i && chunk_holds(
                    r@[i].points@,
                    old(self)@.base,
                    old(self)@.tau,
                    r@[i].index as nat,
                    old(self)@.chunk_length,
                ),
    {
        let ghost v0 = self@;
        let ghost len = v0.chunk_length;
        let ghost start = v0.produced / len;
        assert(len >= MIN_CHUNK_LENGTH);
        let mut out: Vec<Chunk> = Vec::new();
        while self.produced < self.target
            invariant
                self.wf(),
                self@ == (StreamView { produced: self@.produced, ..v0 }),
                self.chunk_length == len,
                len >= MIN_CHUNK_LENGTH,
                v0.produced <= self@.produced,
                out@.len() + start == self@.produced / len,
                forall|i: int|
                    0 <= i < out@.len() ==> (#[trigger] out@[i]).index == start + i
                        && chunk_holds(out@[i].points@, v0.base, v0.tau, out@[i].index as nat, len),
            decreases self.target - self.produced,
        {
            proof {
                lemma_next_index(self@.produced, len);
            }
            let step = self.step();
            match step {
                Step::Completed(c) => {
                    out.push(c);
                },
                _ => {},
            }
        }
        proof {
            vstd::arithmetic::div_mod::lemma_div_is_ordered(
                v0.produced as int,
                v0.target as int,
                len as int,
            );
        }
        out
    }
}

/// Runs a whole stream of `count` elements from `base` and `tau` in chunks of
/// `chunk_length`, and returns its complete chunks in order, or the
/// configuration error.
pub fn generate(base: CurvePoint, tau: Scalar, count: u64, chunk_length: u64) -> (r: Result<
    Vec<Chunk>,
    ConfigError,
>)
    ensures
        r is Ok <==> config_error(count, chunk_length) is None,
        r matches Err(e) ==> config_error(count, chunk_length) == Some(e),
        r matches Ok(chunks) ==> chunks@.len() == count / chunk_length && forall|i: int|
            0 <= i < chunks@.len() ==> (#[trigger] chunks@[i]).index == i && chunk_holds(
                chunks@[i].points@,
                base,
                tau,
                i as nat,
                chunk_length as nat,
            ),
{
    match PowerStream::new(base, tau, count, chunk_length) {
        Err(e) => Err(e),
        Ok(mut s) => Ok(s.run_to_end()),
    }
}

/// The stream law: each element is the previous running point multiplied
/// once more by tau, so element `i` is base * tau^(i+1) and element `i + 1`
/// is element `i`'s point times tau.
pub proof fn lemma_sequence_law(base: CurvePoint, tau: Scalar, i: nat)
    ensures
        element(base, tau, i) == encoding(power(base, tau, i + 1)),
        power(base, tau, i + 2) == scaled(power(base, tau, i + 1), tau),
        element(base, tau, i + 1) == encoding(scaled(power(base, tau, i + 1), tau)),
{
}

/// Chunks are determined by the base, tau, the chunk length and the chunk's
/// index alone: two chunks with the same index from the same base and tau
/// hold the same encodings, slot by slot.
pub proof fn lemma_chunks_determined(
    a: Seq<Vec<u8>>,
    b: Seq<Vec<u8>>,
    base: CurvePoint,
    tau: Scalar,
    index: nat,
    len: nat,
)
    requires
        chunk_holds(a, base, tau, index, len),
        chunk_holds(b, base, tau, index, len),
    ensures
        a.map_values(|v: Vec<u8>| v@) == b.map_values(|v: Vec<u8>| v@),
{
    assert(a.map_values(|v: Vec<u8>| v@) =~= b.map_values(|v: Vec<u8>| v@));
}

/// A run of `count` elements in chunks of `len` hands out chunk `k` exactly
/// when at least `(k + 1) * len` elements are produced.
pub proof fn lemma_chunk_complete(count: nat, len: nat, k: nat)
    requires
        len >= MIN_CHUNK_LENGTH,
    ensures
        k < count / len <==> (k + 1) * len <= count,
{
    let q = (count / len) as int;
    let r = (count % len) as int;
    lemma_fundamental_div_mod(count as int, len as int);
    lemma_mod_pos_bound(count as int, len as int);
    if k < q {
        assert((k + 1) * len <= q * len) by (nonlinear_arith)
            requires
                k + 1 <= q,
                len > 0,
        ;
    } else {
        assert((k + 1) * len > count) by (nonlinear_arith)
            requires
                k >= q,
                count == len * q + r,
                r < len,
        ;
    }
}

} // verus!
