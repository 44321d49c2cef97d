use dverf::internals::{bytes_as_samples, bytes_into_samples, bytes_to_samples, samples_as_bytes};
use dverf::sample::{byte_to_component, component_to_byte};
use dverf::{BytesAsSamples, BytesIntoSamples, BytesToSamples, Sample, SamplesAsBytes};

fn pattern(len: usize) -> Vec<u8> {
    let mut bytes = Vec::with_capacity(len);
    for k in 0..len {
        bytes.push(((k * 37 + 11) % 256) as u8);
    }
    bytes
}

#[test]
fn round_trip_of_every_even_length() {
    let mut len = 0;
    while len <= 512 {
        let bytes = pattern(len);
        let samples = bytes_into_samples(bytes.clone());
        assert_eq!(samples.len(), len / 2);
        assert_eq!(samples_as_bytes(&samples), bytes);
        len += 2;
    }
}

#[test]
fn round_trip_of_a_whole_transfer() {
    let bytes = pattern(dverf::TRANSFER_SIZE);
    let samples = bytes_into_samples(bytes.clone());
    assert_eq!(samples.len(), dverf::TRANSFER_SIZE / 2);
    assert_eq!(samples_as_bytes(&samples), bytes);
}

#[test]
fn round_trip_of_every_byte_value() {
    let mut bytes = Vec::new();
    for b in 0..=255u8 {
        bytes.push(b);
    }
    let samples = bytes_as_samples(&bytes);
    assert_eq!(samples.len(), 128);
    assert_eq!(samples_as_bytes(&samples), bytes);
}

#[test]
fn samples_round_trip() {
    let samples = vec![
        Sample::new(0, 0),
        Sample::new(127, -128),
        Sample::new(-1, 1),
        Sample::new(-128, 127),
    ];
    let bytes = samples_as_bytes(&samples);
    assert_eq!(bytes_to_samples(&bytes), samples);
}

#[test]
fn empty_buffer_gives_no_samples() {
    assert_eq!(bytes_into_samples(Vec::new()), Vec::<Sample>::new());
    assert_eq!(bytes_as_samples(&[]), Vec::<Sample>::new());
    assert_eq!(samples_as_bytes(&[]), Vec::<u8>::new());
}

#[test]
fn bytes_are_read_as_signed_pairs() {
    let samples = bytes_as_samples(&[0x00, 0x7f, 0x80, 0xff, 0x01, 0xfe]);
    assert_eq!(
        samples,
        vec![Sample::new(0, 127), Sample::new(-128, -1), Sample::new(1, -2)]
    );
}

#[test]
fn in_phase_comes_first_on_the_wire() {
    let bytes = samples_as_bytes(&[Sample { i: 5, q: -5 }, Sample { i: -128, q: 127 }]);
    assert_eq!(bytes, vec![0x05, 0xfb, 0x80, 0x7f]);
}

#[test]
fn component_conversions_are_twos_complement() {
    assert_eq!(byte_to_component(0), 0);
    assert_eq!(byte_to_component(127), 127);
    assert_eq!(byte_to_component(128), -128);
    assert_eq!(byte_to_component(255), -1);
    assert_eq!(component_to_byte(0), 0);
    assert_eq!(component_to_byte(127), 127);
    assert_eq!(component_to_byte(-128), 128);
    assert_eq!(component_to_byte(-1), 255);
    for b in 0..=255u8 {
        assert_eq!(byte_to_component(b), b as i8);
        assert_eq!(component_to_byte(b as i8), b);
    }
}

#[test]
fn sample_constructors() {
    assert_eq!(Sample::new(3, -4), Sample { i: 3, q: -4 });
    assert_eq!(Sample::zero(), Sample { i: 0, q: 0 });
    assert_eq!(Sample::from_bytes(0x10, 0xf0), Sample { i: 16, q: -16 });
}

#[test]
fn traits_agree_with_the_functions() {
    let bytes: Vec<u8> = vec![1, 2, 0xff, 0x80];
    let expected = vec![Sample::new(1, 2), Sample::new(-1, -128)];
    assert_eq!(bytes.as_samples(), expected);
    assert_eq!(bytes.to_samples(), expected);
    assert_eq!(bytes.clone().into_samples(), expected);
    assert_eq!(expected.as_bytes(), bytes);
}
