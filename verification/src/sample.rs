use vstd::prelude::*;

verus! {

/// One complex baseband sample: an in-phase and a quadrature component, each a
/// signed byte. On the wire a sample is two bytes, `i` first.
#[derive(Debug, Clone, Copy, PartialEq, Eq, Structural)]
pub struct Sample {
    pub i: i8,
    pub q: i8,
}

/// The signed value that a raw byte stands for (two's complement).
pub open spec fn signed(byte: u8) -> i8 {
    if byte < 128 {
        byte as i8
    } else {
        (byte as int - 256) as i8
    }
}

/// The raw byte that stands for a signed value (two's complement).
pub open spec fn unsigned(value: i8) -> u8 {
    if value >= 0 {
        value as u8
    } else {
        (value as int + 256) as u8
    }
}

/// Reading a byte as signed and writing it back gives the same byte.
pub proof fn lemma_unsigned_signed(byte: u8)
    ensures
        unsigned(signed(byte)) == byte,
{
}

/// Writing a signed value as a byte and reading it back gives the same value.
pub proof fn lemma_signed_unsigned(value: i8)
    ensures
        signed(unsigned(value)) == value,
{
}

/// Reads a raw byte as a signed component.
pub fn byte_to_component(byte: u8) -> (value: i8)
    ensures
        value == signed(byte),
{
    if byte < 128 {
        byte as i8
    } else {
        (byte as i16 - 256) as i8
    }
}

/// Writes a signed component as a raw byte.
pub fn component_to_byte(value: i8) -> (byte: u8)
    ensures
        byte == unsigned(value),
{
    if value >= 0 {
        value as u8
    } else {
        (value as i16 + 256) as u8
    }
}

impl Sample {
    pub fn new(i: i8, q: i8) -> (sample: Sample)
        ensures
            sample == (Sample { i, q }),
    {
        Sample { i, q }
    }

    pub fn zero() -> (sample: Sample)
        ensures
            sample == (Sample { i: 0, q: 0 }),
    {
        Sample { i: 0, q: 0 }
    }

    /// The sample that two consecutive wire bytes stand for.
    pub open spec fn spec_from_bytes(first: u8, second: u8) -> Sample {
        Sample { i: signed(first), q: signed(second) }
    }

    /// Decodes a sample from its two wire bytes.
    pub fn from_bytes(first: u8, second: u8) -> (sample: Sample)
        ensures
            sample == Sample::spec_from_bytes(first, second),
    {
        Sample { i: byte_to_component(first), q: byte_to_component(second) }
    }
}

} // verus!
