//! The pseudorandom byte stream of prio's SHA-3 based PRG, and the random
//! source of seeds.
use vstd::prelude::*;
use prio::codec::Decode;
use prio::vdaf::prg::{Prg, PrgSha3, Seed, SeedStream, SeedStreamSha3};

verus! {

#[verifier::external_type_specification]
#[verifier::external_body]
pub struct ExSeedStreamSha3(SeedStreamSha3);

/// Byte number `index` of the output of `PrgSha3` keyed by `seed`, with empty
/// customization and binder strings.
pub uninterp spec fn prg_sha3_byte(seed: Seq<u8>, index: nat) -> u8;

/// The seed that keyed a stream.
pub uninterp spec fn stream_seed(s: SeedStreamSha3) -> Seq<u8>;

/// How many bytes a stream has handed out so far.
pub uninterp spec fn stream_position(s: SeedStreamSha3) -> nat;

/// Relies on `Seed::get_decoded`, which accepts any sixteen bytes (it reads
/// exactly sixteen and finds none left over), and on `PrgSha3::seed_stream`
/// with empty customization and binder strings: the stream is keyed by the
/// seed and starts at the first byte of the output.
#[verifier::external_body]
pub(crate) fn open_stream(seed: &[u8; 16]) -> (r: SeedStreamSha3)
    ensures
        stream_seed(r) == seed@,
        stream_position(r) == 0,
{
    let seed = Seed::<16>::get_decoded(seed).unwrap();
    PrgSha3::seed_stream(&seed, b"", b"")
}

/// Relies on `SeedStream::fill` of `SeedStreamSha3`: it writes the next
/// `buf.len()` bytes of the cSHAKE128 output into `buf` and moves the cursor
/// past them.
#[verifier::external_body]
pub(crate) fn fill(stream: &mut SeedStreamSha3, buf: &mut Vec<u8>)
    ensures
        stream_seed(*final(stream)) == stream_seed(*old(stream)),
        stream_position(*final(stream)) == stream_position(*old(stream)) + old(buf)@.len(),
        final(buf)@.len() == old(buf)@.len(),
        forall|i: int|
            0 <= i < old(buf)@.len() ==> #[trigger] final(buf)@[i] == prg_sha3_byte(
                stream_seed(*old(stream)),
                (stream_position(*old(stream)) + i) as nat,
            ),
{
    stream.fill(buf.as_mut_slice())
}

/// Relies on `rand::random`, which draws from the thread-local
/// cryptographically secure generator: nothing is known of the bytes.
#[verifier::external_body]
pub(crate) fn draw_seed() -> (r: [u8; 16]) {
    rand::random::<[u8; 16]>()
}

} // verus!
