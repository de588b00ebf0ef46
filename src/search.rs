//! The search for a rejection: scanning the chunks of one seed's stream, and
//! one round of a worker, which draws the seed and claims the stop signal.
use vstd::prelude::*;
use std::sync::atomic::{AtomicBool, Ordering};
use crate::config::FieldDescriptor;
use crate::le::{decode_le, le_value, lemma_le_value_bound, pow256};
use crate::prg::{draw_seed, fill, open_stream, prg_sha3_byte, stream_position, stream_seed};

verus! {

/// The first out-of-range chunk found for a seed, and the chunk after it.
#[derive(Debug, Clone, Copy)]
pub struct Rejection {
    /// The seed whose stream produced the rejection.
    pub seed: [u8; 16],
    /// Zero-based index of the rejected chunk in the stream.
    pub offset: usize,
    /// Number of chunks drawn from the seed up to the rejected one.
    pub length: usize,
    /// The rejected value.
    pub rejected: u128,
    /// The value of the chunk that follows the rejected one.
    pub next: u128,
}

/// Chunk number `k` of the stream keyed by `seed`, when chunks are `size` bytes.
pub open spec fn chunk(seed: Seq<u8>, size: nat, k: nat) -> Seq<u8> {
    Seq::new(size, |j: int| prg_sha3_byte(seed, (k * size + j) as nat))
}

/// The little-endian value of chunk number `k`.
pub open spec fn chunk_value(seed: Seq<u8>, size: nat, k: nat) -> nat {
    le_value(chunk(seed, size, k))
}

/// Chunk `k` is the first of the first `n` chunks whose value reaches `modulus`.
pub open spec fn is_first_rejection(seed: Seq<u8>, modulus: nat, size: nat, n: nat, k: nat) -> bool {
    &&& k < n
    &&& chunk_value(seed, size, k) >= modulus
    &&& forall|j: nat| j < k ==> #[trigger] chunk_value(seed, size, j) < modulus
}

/// What scanning the first `n` chunks of `seed`'s stream reports: nothing when
/// all of them are below `modulus`, else the first one that is not, with the
/// chunk after it.
pub open spec fn scan_outcome(
    seed: Seq<u8>,
    modulus: nat,
    size: nat,
    n: nat,
    r: Option<Rejection>,
) -> bool {
    match r {
        None => forall|k: nat| k < n ==> #[trigger] chunk_value(seed, size, k) < modulus,
        Some(rej) => {
            &&& rej.seed@ == seed
            &&& is_first_rejection(seed, modulus, size, n, rej.offset as nat)
            &&& rej.length == rej.offset + 1
            &&& rej.rejected == chunk_value(seed, size, rej.offset as nat)
            &&& rej.next == chunk_value(seed, size, (rej.offset + 1) as nat)
        },
    }
}

/// Draws up to `prg_iterations` chunks of `field.encoded_size()` bytes from
/// the stream keyed by `seed` and reports the first whose value is not below
/// the modulus.
pub fn scan_seed(seed: [u8; 16], field: &FieldDescriptor, prg_iterations: usize) -> (r: Option<
    Rejection,
>)
    requires
        field.wf(),
    ensures
        scan_outcome(
            seed@,
            field.spec_modulus() as nat,
            field.spec_encoded_size() as nat,
            prg_iterations as nat,
            r,
        ),
{
    let size = field.encoded_size();
    let modulus = field.modulus();
    let ghost s = seed@;
    let ghost sz = size as nat;
    let mut stream = open_stream(&seed);
    let mut buffer: Vec<u8> = vec![0u8; size];
    let mut i: usize = 0;
    while i < prg_iterations
        invariant
            1 <= size <= 16,
            sz == size,
            s == seed@,
            modulus == field.spec_modulus(),
            size == field.spec_encoded_size(),
            i <= prg_iterations,
            buffer@.len() == size,
            stream_seed(stream) == s,
            stream_position(stream) == i * sz,
            forall|k: nat| k < i ==> #[trigger] chunk_value(s, sz, k) < modulus,
        decreases prg_iterations - i,
    {
        fill(&mut stream, &mut buffer);
        proof {
            assert(buffer@ =~= chunk(s, sz, i as nat));
            assert((i + 1) * sz == i * sz + sz) by (nonlinear_arith);
        }
        let candidate = decode_le(buffer.as_slice());
        if candidate >= modulus {
            fill(&mut stream, &mut buffer);
            proof {
                assert(buffer@ =~= chunk(s, sz, (i + 1) as nat));
            }
            let next = decode_le(buffer.as_slice());
            return Some(Rejection { seed, offset: i, length: i + 1, rejected: candidate, next });
        }
        i = i + 1;
    }
    None
}

/// One round of a worker: draws a fresh seed, scans its stream, and on a
/// rejection claims the stop signal `done`. The rejection is returned only
/// to the worker that set the signal, so at most one is reported however
/// many workers share it.
pub fn search_round(field: &FieldDescriptor, prg_iterations: usize, done: &AtomicBool) -> (r:
    Option<Rejection>)
    requires
        field.wf(),
    ensures
        r matches Some(rej) ==> scan_outcome(
            rej.seed@,
            field.spec_modulus() as nat,
            field.spec_encoded_size() as nat,
            prg_iterations as nat,
            r,
        ),
{
    let seed = draw_seed();
    match scan_seed(seed, field, prg_iterations) {
        Some(rej) => match done.compare_exchange(false, true, Ordering::Relaxed, Ordering::Relaxed) {
            Ok(_) => Some(rej),
            Err(_) => None,
        },
        None => None,
    }
}

/// A reported value is not below the modulus, and it is the little-endian
/// value of exactly `size` bytes of the stream, so it is below `256^size`.
pub proof fn lemma_rejected_out_of_range(
    seed: Seq<u8>,
    modulus: nat,
    size: nat,
    n: nat,
    rej: Rejection,
)
    requires
        scan_outcome(seed, modulus, size, n, Some(rej)),
    ensures
        rej.rejected >= modulus,
        chunk(seed, size, rej.offset as nat).len() == size,
        rej.rejected == le_value(chunk(seed, size, rej.offset as nat)),
        rej.rejected < pow256(size),
{
    lemma_le_value_bound(chunk(seed, size, rej.offset as nat));
}

/// The reported length is the offset plus one, and lies between one and the
/// number of chunks drawn per seed.
pub proof fn lemma_rejection_length(seed: Seq<u8>, modulus: nat, size: nat, n: nat, rej: Rejection)
    requires
        scan_outcome(seed, modulus, size, n, Some(rej)),
    ensures
        rej.length == rej.offset + 1,
        1 <= rej.length <= n,
{
}

/// Replaying a seed reproduces its report: the outcome of a scan is fixed by
/// the seed, the field and the number of chunks, and a reported value and the
/// value after it are those of the chunks at `offset` and `offset + 1`.
pub proof fn lemma_scan_replay(
    seed: Seq<u8>,
    modulus: nat,
    size: nat,
    n: nat,
    r1: Option<Rejection>,
    r2: Option<Rejection>,
)
    requires
        scan_outcome(seed, modulus, size, n, r1),
        scan_outcome(seed, modulus, size, n, r2),
    ensures
        r1 is None <==> r2 is None,
        r1 matches Some(a) ==> r2 matches Some(b) && a.seed@ == b.seed@ && a.offset == b.offset
            && a.length == b.length && a.rejected == b.rejected && a.next == b.next,
        r1 matches Some(a) ==> a.rejected == chunk_value(seed, size, a.offset as nat) && a.next
            == chunk_value(seed, size, (a.offset + 1) as nat),
{
    match (r1, r2) {
        (Some(a), Some(b)) => {
            let (ka, kb) = (a.offset as nat, b.offset as nat);
            if ka < kb {
                assert(chunk_value(seed, size, ka) < modulus);
            } else if kb < ka {
                assert(chunk_value(seed, size, kb) < modulus);
            }
        },
        (Some(a), None) => {
            assert(chunk_value(seed, size, a.offset as nat) < modulus);
        },
        (None, Some(b)) => {
            assert(chunk_value(seed, size, b.offset as nat) < modulus);
        },
        (None, None) => {},
    }
}

/// When the modulus reaches `256^size`, no chunk of `size` bytes is ever
/// rejected: a scan of any seed reports nothing.
pub proof fn lemma_full_range_never_rejects(seed: Seq<u8>, modulus: nat, size: nat, n: nat)
    requires
        modulus >= pow256(size),
    ensures
        scan_outcome(seed, modulus, size, n, None),
{
    assert forall|k: nat| k < n implies #[trigger] chunk_value(seed, size, k) < modulus by {
        lemma_le_value_bound(chunk(seed, size, k));
    }
}

} // verus!
