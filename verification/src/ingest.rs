//! Audio ingest: little-endian signed 16-bit PCM bytes to samples.
//!
//! A sample is kept as the signed 16-bit integer that the two bytes encode.
//! Its normalized amplitude is that integer divided by `FULL_SCALE`, a value
//! in the range from -1 to 1; the division is left to the consumer of the
//! samples.

use vstd::prelude::*;

verus! {

/// The divisor that turns a sample into its normalized amplitude.
pub const FULL_SCALE: u16 = 32768;

/// The signed value that a pair of bytes encodes, low byte first.
pub open spec fn sample_of(lo: u8, hi: u8) -> int {
    let raw = lo as int + 256 * (hi as int);
    if raw >= 32768 {
        raw - 65536
    } else {
        raw
    }
}

/// The samples held by a chunk of bytes: one per whole pair of bytes, in
/// order. A trailing odd byte belongs to no pair and is left out.
pub open spec fn decoded(bytes: Seq<u8>) -> Seq<i16> {
    Seq::new((bytes.len() / 2) as nat, |i: int| sample_of(bytes[2 * i], bytes[2 * i + 1]) as i16)
}

/// Decodes one sample from its two bytes.
pub fn decode_sample(lo: u8, hi: u8) -> (sample: i16)
    ensures
        sample as int == sample_of(lo, hi),
        -(FULL_SCALE as int) <= (sample as int),
        (sample as int) < (FULL_SCALE as int),
{
    let raw: i32 = lo as i32 + 256 * (hi as i32);
    if raw >= 32768 {
        (raw - 65536) as i16
    } else {
        raw as i16
    }
}

/// Decodes a chunk of bytes into samples.
pub fn decode_pcm(bytes: &[u8]) -> (samples: Vec<i16>)
    ensures
        samples@ == decoded(bytes@),
        samples@.len() == bytes@.len() / 2,
{
    let total: usize = bytes.len();
    let pairs: usize = total / 2;
    let mut samples: Vec<i16> = Vec::new();
    let mut i: usize = 0;
    while i < pairs
        invariant
            total == bytes@.len(),
            pairs == total / 2,
            i <= pairs,
            samples@.len() == i,
            forall|k: int| 0 <= k < i ==> #[trigger] samples@[k] == decoded(bytes@)[k],
        decreases pairs - i,
    {
        let sample = decode_sample(bytes[2 * i], bytes[2 * i + 1]);
        samples.push(sample);
        i = i + 1;
    }
    assert(samples@ =~= decoded(bytes@));
    samples
}

/// Decoding is a function of the bytes alone: the same bytes give the same
/// samples, however often they are decoded.
pub proof fn lemma_decode_repeatable(first: Seq<u8>, second: Seq<u8>)
    requires
        first == second,
    ensures
        decoded(first) == decoded(second),
{
}

/// A byte that follows the last whole pair changes nothing.
pub proof fn lemma_trailing_byte_dropped(bytes: Seq<u8>, extra: u8)
    requires
        bytes.len() % 2 == 0,
    ensures
        decoded(bytes.push(extra)) == decoded(bytes),
{
    assert(decoded(bytes.push(extra)) =~= decoded(bytes));
}

/// Chunks that end on a pair boundary decode piece by piece.
pub proof fn lemma_decode_concat(head: Seq<u8>, tail: Seq<u8>)
    requires
        head.len() % 2 == 0,
    ensures
        decoded(head + tail) == decoded(head) + decoded(tail),
{
    let whole = head + tail;
    let h = head.len() / 2;
    assert(decoded(whole).len() == decoded(head).len() + decoded(tail).len());
    assert forall|i: int| 0 <= i < decoded(whole).len() implies decoded(whole)[i] == (decoded(head)
        + decoded(tail))[i] by {
        if i < h {
            assert(whole[2 * i] == head[2 * i]);
            assert(whole[2 * i + 1] == head[2 * i + 1]);
        } else {
            assert(whole[2 * i] == tail[2 * (i - h)]);
            assert(whole[2 * i + 1] == tail[2 * (i - h) + 1]);
        }
    }
    assert(decoded(whole) =~= decoded(head) + decoded(tail));
}

} // verus!
