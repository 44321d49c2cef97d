use crate::internals::{bytes_as_samples, bytes_into_samples, bytes_of, samples_as_bytes, samples_of};
use crate::sample::Sample;
use vstd::prelude::*;

verus! {

/// Wire bytes that can be read as samples.
pub trait BytesAsSamples {
    /// The bytes that `self` holds.
    spec fn wire_bytes(&self) -> Seq<u8>;

    fn as_samples(&self) -> (samples: Vec<Sample>)
        requires
            self.wire_bytes().len() % 2 == 0,
        ensures
            samples@ == samples_of(self.wire_bytes()),
    ;
}

impl BytesAsSamples for Vec<u8> {
    open spec fn wire_bytes(&self) -> Seq<u8> {
        self@
    }

    fn as_samples(&self) -> (samples: Vec<Sample>) {
        bytes_as_samples(self.as_slice())
    }
}

/// An owned byte buffer that can be turned into samples.
pub trait BytesIntoSamples: Sized {
    /// The bytes that `self` holds.
    spec fn owned_bytes(&self) -> Seq<u8>;

    fn into_samples(self) -> (samples: Vec<Sample>)
        requires
            self.owned_bytes().len() % 2 == 0,
        ensures
            samples@ == samples_of(self.owned_bytes()),
    ;
}

impl BytesIntoSamples for Vec<u8> {
    open spec fn owned_bytes(&self) -> Seq<u8> {
        self@
    }

    fn into_samples(self) -> (samples: Vec<Sample>) {
        bytes_into_samples(self)
    }
}

/// Wire bytes that can be copied out as samples.
pub trait BytesToSamples {
    /// The bytes that `self` holds.
    spec fn source_bytes(&self) -> Seq<u8>;

    fn to_samples(&self) -> (samples: Vec<Sample>)
        requires
            self.source_bytes().len() % 2 == 0,
        ensures
            samples@ == samples_of(self.source_bytes()),
    ;
}

impl BytesToSamples for Vec<u8> {
    open spec fn source_bytes(&self) -> Seq<u8> {
        self@
    }

    fn to_samples(&self) -> (samples: Vec<Sample>) {
        bytes_as_samples(self.as_slice())
    }
}

/// Samples that can be written out as wire bytes.
pub trait SamplesAsBytes {
    /// The samples that `self` holds.
    spec fn samples(&self) -> Seq<Sample>;

    fn as_bytes(&self) -> (bytes: Vec<u8>)
        ensures
            bytes@ == bytes_of(self.samples()),
    ;
}

impl SamplesAsBytes for Vec<Sample> {
    open spec fn samples(&self) -> Seq<Sample> {
        self@
    }

    fn as_bytes(&self) -> (bytes: Vec<u8>) {
        samples_as_bytes(self.as_slice())
    }
}

} // verus!
