use crate::sample::{component_to_byte, unsigned, Sample};
use vstd::prelude::*;

verus! {

/// The samples that a buffer of wire bytes stands for: byte `2k` is the
/// in-phase part of sample `k`, byte `2k + 1` its quadrature part.
pub open spec fn samples_of(bytes: Seq<u8>) -> Seq<Sample> {
    Seq::new(bytes.len() / 2, |k: int| Sample::spec_from_bytes(bytes[2 * k], bytes[2 * k + 1]))
}

/// The wire bytes of a sequence of samples.
pub open spec fn bytes_of(samples: Seq<Sample>) -> Seq<u8> {
    Seq::new(
        2 * samples.len(),
        |j: int|
            if j % 2 == 0 {
                unsigned(samples[j / 2].i)
            } else {
                unsigned(samples[j / 2].q)
            },
    )
}

/// Bytes to samples and back gives the same bytes, for every buffer of even
/// length.
pub proof fn lemma_bytes_round_trip(bytes: Seq<u8>)
    requires
        bytes.len() % 2 == 0,
    ensures
        bytes_of(samples_of(bytes)) == bytes,
{
    assert(bytes_of(samples_of(bytes)) =~= bytes);
}

/// Samples to bytes and back gives the same samples.
pub proof fn lemma_samples_round_trip(samples: Seq<Sample>)
    ensures
        bytes_of(samples).len() == 2 * samples.len(),
        samples_of(bytes_of(samples)) == samples,
{
    assert(samples_of(bytes_of(samples)) =~= samples);
}

/// The bytes of a run of samples extended by one sample.
pub proof fn lemma_bytes_of_push(samples: Seq<Sample>, sample: Sample)
    ensures
        bytes_of(samples.push(sample)) == bytes_of(samples).push(unsigned(sample.i)).push(
            unsigned(sample.q),
        ),
{
    assert(bytes_of(samples.push(sample)) =~= bytes_of(samples).push(unsigned(sample.i)).push(
        unsigned(sample.q),
    ));
}

/// Writes samples out as wire bytes.
pub fn samples_as_bytes(slice: &[Sample]) -> (bytes: Vec<u8>)
    ensures
        bytes@ == bytes_of(slice@),
{
    let mut bytes: Vec<u8> = Vec::new();
    let mut k: usize = 0;
    while k < slice.len()
        invariant
            k <= slice.len(),
            bytes@ == bytes_of(slice@.take(k as int)),
        decreases slice.len() - k,
    {
        let sample = slice[k];
        proof {
            lemma_bytes_of_push(slice@.take(k as int), sample);
            assert(slice@.take(k as int).push(sample) =~= slice@.take(k + 1));
        }
        bytes.push(component_to_byte(sample.i));
        bytes.push(component_to_byte(sample.q));
        k += 1;
    }
    proof {
        assert(slice@.take(k as int) =~= slice@);
    }
    bytes
}

/// Reads a buffer of wire bytes as samples.
///
/// The buffer must hold whole samples, that is, an even number of bytes.
pub fn bytes_as_samples(slice: &[u8]) -> (samples: Vec<Sample>)
    requires
        slice@.len() % 2 == 0,
    ensures
        samples@ == samples_of(slice@),
{
    let count: usize = slice.len() / 2;
    let mut samples: Vec<Sample> = Vec::with_capacity(count);
    let mut k: usize = 0;
    while k < count
        invariant
            slice@.len() % 2 == 0,
            2 * count == slice@.len() <= usize::MAX,
            k <= count,
            samples@ == samples_of(slice@).take(k as int),
        decreases count - k,
    {
        let sample = Sample::from_bytes(slice[2 * k], slice[2 * k + 1]);
        samples.push(sample);
        k += 1;
        proof {
            assert(samples@ =~= samples_of(slice@).take(k as int));
        }
    }
    proof {
        assert(samples_of(slice@).take(k as int) =~= samples_of(slice@));
    }
    samples
}

/// Turns an owned buffer of wire bytes into samples.
///
/// The buffer must hold whole samples, that is, an even number of bytes.
pub fn bytes_into_samples(vec: Vec<u8>) -> (samples: Vec<Sample>)
    requires
        vec@.len() % 2 == 0,
    ensures
        samples@ == samples_of(vec@),
{
    bytes_as_samples(vec.as_slice())
}

/// Reads a borrowed buffer of wire bytes into samples of their own.
///
/// The buffer must hold whole samples, that is, an even number of bytes.
pub fn bytes_to_samples(slice: &[u8]) -> (samples: Vec<Sample>)
    requires
        slice@.len() % 2 == 0,
    ensures
        samples@ == samples_of(slice@),
{
    bytes_as_samples(slice)
}

} // verus!
