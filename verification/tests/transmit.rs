use dverf::internals::samples_as_bytes;
use dverf::{Completion, Device, Error, Sample, TransferError, TRANSFER_COUNT, TRANSFER_SIZE};
use std::collections::VecDeque;

/// A stand-in for the bulk OUT queue: it keeps what is in flight and records
/// every byte in the order of submission.
struct Sink {
    in_flight: VecDeque<Vec<u8>>,
    seen: Vec<u8>,
    sizes: Vec<usize>,
}

impl Sink {
    fn new() -> Sink {
        Sink { in_flight: VecDeque::new(), seen: Vec::new(), sizes: Vec::new() }
    }

    fn submit(&mut self, buffer: Vec<u8>) {
        assert!(self.in_flight.len() < TRANSFER_COUNT, "window over-full");
        assert!(!buffer.is_empty());
        assert!(buffer.len() <= TRANSFER_SIZE);
        self.seen.extend_from_slice(&buffer);
        self.sizes.push(buffer.len());
        self.in_flight.push_back(buffer);
    }

    fn complete(&mut self) -> Completion {
        let mut data = self.in_flight.pop_front().expect("nothing in flight");
        data.clear();
        Completion { data, status: Ok(()) }
    }

    fn fail(&mut self, error: TransferError) -> Completion {
        let data = self.in_flight.pop_front().expect("nothing in flight");
        Completion { data, status: Err(error) }
    }
}

fn drive(device: &mut Device, sink: &mut Sink) {
    assert_eq!(device.tx_pending(), sink.in_flight.len());
    let completion = sink.complete();
    match device.poll_completion(completion) {
        Ok(Some(next)) => sink.submit(next),
        Ok(None) => {}
        Err(error) => panic!("transfer failed: {:?}", error),
    }
    assert_eq!(device.tx_pending(), sink.in_flight.len());
}

fn ready(device: &mut Device, sink: &mut Sink) {
    while !device.poll_ready() {
        drive(device, sink);
    }
}

fn feed(device: &mut Device, sink: &mut Sink, chunk: &[Sample]) {
    ready(device, sink);
    for buffer in device.start_send(chunk) {
        sink.submit(buffer);
    }
    assert_eq!(device.tx_pending(), sink.in_flight.len());
}

fn flush(device: &mut Device, sink: &mut Sink) {
    if let Some(buffer) = device.poll_flush() {
        sink.submit(buffer);
    }
    while device.tx_pending() > 0 {
        drive(device, sink);
    }
}

fn ramp(start: usize, count: usize) -> Vec<Sample> {
    let mut samples = Vec::with_capacity(count);
    for k in start..start + count {
        samples.push(Sample::new((k % 251) as u8 as i8, (k % 241) as u8 as i8));
    }
    samples
}

#[test]
fn a_fresh_device_is_ready_and_flushed() {
    let device = Device::new();
    assert!(device.poll_ready());
    assert!(device.is_flushed());
    assert_eq!(device.tx_pending(), 0);
    assert_eq!(device.rx_pending(), 0);
}

#[test]
fn a_small_chunk_is_only_staged() {
    let mut device = Device::new();
    let submit = device.start_send(&ramp(0, 100));
    assert!(submit.is_empty());
    assert_eq!(device.tx_pending(), 0);
    assert!(!device.is_flushed());
    assert!(device.poll_ready());
}

#[test]
fn an_empty_chunk_changes_nothing() {
    let mut device = Device::new();
    assert!(device.start_send(&[]).is_empty());
    assert!(device.is_flushed());
    assert_eq!(device.poll_flush(), None);
}

#[test]
fn a_chunk_that_fills_the_buffer_is_submitted_at_once() {
    let mut device = Device::new();
    let chunk = ramp(0, TRANSFER_SIZE / 2);
    let submit = device.start_send(&chunk);
    assert_eq!(submit.len(), 1);
    assert_eq!(submit[0], samples_as_bytes(&chunk));
    assert_eq!(submit[0].len(), TRANSFER_SIZE);
    assert_eq!(device.tx_pending(), 1);
    assert_eq!(device.poll_flush(), None);
}

#[test]
fn chunks_are_packed_across_calls() {
    let mut device = Device::new();
    let first = ramp(0, TRANSFER_SIZE / 2 - 1);
    let second = ramp(7, 3);
    assert!(device.start_send(&first).is_empty());
    let submit = device.start_send(&second);
    assert_eq!(submit.len(), 1);
    let mut all = samples_as_bytes(&first);
    all.extend_from_slice(&samples_as_bytes(&second));
    assert_eq!(submit[0], all[..TRANSFER_SIZE].to_vec());
    assert_eq!(device.poll_flush(), Some(all[TRANSFER_SIZE..].to_vec()));
    assert_eq!(device.tx_pending(), 2);
}

#[test]
fn one_chunk_may_span_several_transfers() {
    let mut device = Device::new();
    let chunk = ramp(0, 3 * (TRANSFER_SIZE / 2) + 5);
    let bytes = samples_as_bytes(&chunk);
    let submit = device.start_send(&chunk);
    assert_eq!(submit.len(), 3);
    for k in 0..3 {
        assert_eq!(submit[k], bytes[k * TRANSFER_SIZE..(k + 1) * TRANSFER_SIZE].to_vec());
    }
    assert_eq!(device.tx_pending(), 3);
    assert!(device.poll_ready());
    assert_eq!(device.poll_flush(), Some(bytes[3 * TRANSFER_SIZE..].to_vec()));
    assert_eq!(device.tx_pending(), 4);
    assert!(!device.poll_ready());
}

#[test]
fn a_full_window_sends_the_rest_to_the_backlog() {
    let mut device = Device::new();
    let chunk = ramp(0, 6 * (TRANSFER_SIZE / 2) + 1);
    let bytes = samples_as_bytes(&chunk);
    let submit = device.start_send(&chunk);
    assert_eq!(submit.len(), TRANSFER_COUNT);
    assert_eq!(device.tx_pending(), TRANSFER_COUNT);
    assert!(!device.poll_ready());
    for k in 0..TRANSFER_COUNT {
        assert_eq!(submit[k], bytes[k * TRANSFER_SIZE..(k + 1) * TRANSFER_SIZE].to_vec());
    }
    // The staged rest joins the backlog behind the two packed buffers.
    assert_eq!(device.poll_flush(), None);
    let done = |data: Vec<u8>| Completion { data, status: Ok(()) };
    let fifth = device.poll_completion(done(Vec::new())).unwrap();
    assert_eq!(fifth, Some(bytes[4 * TRANSFER_SIZE..5 * TRANSFER_SIZE].to_vec()));
    assert_eq!(device.tx_pending(), TRANSFER_COUNT);
    let sixth = device.poll_completion(done(vec![1, 2, 3])).unwrap();
    assert_eq!(sixth, Some(bytes[5 * TRANSFER_SIZE..6 * TRANSFER_SIZE].to_vec()));
    let last = device.poll_completion(done(Vec::new())).unwrap();
    assert_eq!(last, Some(bytes[6 * TRANSFER_SIZE..].to_vec()));
    assert_eq!(device.tx_pending(), TRANSFER_COUNT);
    for left in (0..TRANSFER_COUNT).rev() {
        assert_eq!(device.poll_completion(done(Vec::new())), Ok(None));
        assert_eq!(device.tx_pending(), left);
    }
    assert!(device.is_flushed());
}

#[test]
fn bytes_arrive_first_in_first_out() {
    let mut device = Device::new();
    let mut sink = Sink::new();
    let mut expected = Vec::new();
    let sizes = [150_000usize, 1, 0, 131_072, 262_144, 77, 300_001, 5];
    let mut start = 0;
    for size in sizes {
        let chunk = ramp(start, size);
        start += size;
        expected.extend_from_slice(&samples_as_bytes(&chunk));
        feed(&mut device, &mut sink, &chunk);
    }
    assert!(expected.len() > TRANSFER_COUNT * TRANSFER_SIZE);
    flush(&mut device, &mut sink);
    assert!(device.is_flushed());
    assert!(sink.in_flight.is_empty());
    assert_eq!(sink.seen.len(), expected.len());
    assert!(sink.seen == expected);
    let full = expected.len() / TRANSFER_SIZE;
    assert_eq!(sink.sizes.len(), full + 1);
    for k in 0..full {
        assert_eq!(sink.sizes[k], TRANSFER_SIZE);
    }
    assert_eq!(sink.sizes[full], expected.len() % TRANSFER_SIZE);
}

#[test]
fn delayed_completions_do_not_reorder() {
    let mut device = Device::new();
    let mut sink = Sink::new();
    // Nothing completes while the whole load is accepted.
    let chunk = ramp(3, 9 * (TRANSFER_SIZE / 2) + 10);
    let expected = samples_as_bytes(&chunk);
    for buffer in device.start_send(&chunk) {
        sink.submit(buffer);
    }
    assert_eq!(sink.in_flight.len(), TRANSFER_COUNT);
    assert_eq!(sink.seen.len(), TRANSFER_COUNT * TRANSFER_SIZE);
    assert!(sink.seen[..] == expected[..sink.seen.len()]);
    if let Some(buffer) = device.poll_flush() {
        sink.submit(buffer);
    }
    // The completions trickle in; after each, what the bus has seen is a
    // prefix of what was accepted.
    let mut steps = 0;
    while !device.is_flushed() {
        drive(&mut device, &mut sink);
        assert!(sink.in_flight.len() <= TRANSFER_COUNT);
        assert!(sink.seen[..] == expected[..sink.seen.len()]);
        steps += 1;
    }
    assert_eq!(steps, 10);
    assert!(sink.seen == expected);
    assert_eq!(sink.sizes.len(), 10);
}

#[test]
fn flush_twice_submits_nothing_new() {
    let mut device = Device::new();
    let mut sink = Sink::new();
    feed(&mut device, &mut sink, &ramp(0, 200_000));
    flush(&mut device, &mut sink);
    assert!(device.is_flushed());
    let submissions = sink.sizes.len();
    assert_eq!(submissions, 2);
    assert_eq!(sink.seen.len(), 400_000);
    assert_eq!(device.poll_flush(), None);
    assert!(device.is_flushed());
    flush(&mut device, &mut sink);
    assert_eq!(sink.sizes.len(), submissions);
    assert_eq!(sink.seen.len(), 400_000);
    assert!(device.is_flushed());
    assert!(device.poll_ready());
}

#[test]
fn flush_of_a_fresh_device_does_nothing() {
    let mut device = Device::new();
    assert_eq!(device.poll_flush(), None);
    assert!(device.is_flushed());
}

#[test]
fn flush_submits_a_short_transfer() {
    let mut device = Device::new();
    assert!(device.start_send(&[Sample::new(1, 2), Sample::new(-3, -4)]).is_empty());
    assert_eq!(device.poll_flush(), Some(vec![1, 2, 0xfd, 0xfc]));
    assert_eq!(device.tx_pending(), 1);
    assert!(!device.is_flushed());
    let done = Completion { data: Vec::new(), status: Ok(()) };
    assert_eq!(device.poll_completion(done), Ok(None));
    assert!(device.is_flushed());
}

#[test]
fn reclaimed_buffers_start_empty() {
    let mut device = Device::new();
    let mut sink = Sink::new();
    feed(&mut device, &mut sink, &ramp(0, TRANSFER_SIZE / 2));
    // The completion hands a buffer back that still holds stale bytes.
    sink.in_flight.clear();
    let stale = Completion { data: vec![0xee; 1000], status: Ok(()) };
    assert_eq!(device.poll_completion(stale), Ok(None));
    // It becomes the staging buffer after the next submission.
    let chunk = ramp(11, TRANSFER_SIZE / 2);
    let submit = device.start_send(&chunk);
    assert_eq!(submit.len(), 1);
    assert!(device.start_send(&[Sample::new(5, 6)]).is_empty());
    assert_eq!(device.poll_flush(), Some(vec![5, 6]));
}

#[test]
fn a_failed_transfer_is_reported_once() {
    let mut device = Device::new();
    let mut sink = Sink::new();
    feed(&mut device, &mut sink, &ramp(0, TRANSFER_SIZE));
    assert_eq!(device.tx_pending(), 2);
    let completion = sink.fail(TransferError::Stall);
    assert_eq!(
        device.poll_completion(completion),
        Err(Error::Transfer(TransferError::Stall))
    );
    assert_eq!(device.tx_pending(), 1);
    assert!(!device.is_flushed());
    drive(&mut device, &mut sink);
    assert!(device.is_flushed());
}

#[test]
fn a_failed_transfer_leaves_the_backlog_waiting() {
    let mut device = Device::new();
    let chunk = ramp(0, 5 * (TRANSFER_SIZE / 2));
    let bytes = samples_as_bytes(&chunk);
    assert_eq!(device.start_send(&chunk).len(), TRANSFER_COUNT);
    let failed = Completion { data: Vec::new(), status: Err(TransferError::Disconnected) };
    assert_eq!(
        device.poll_completion(failed),
        Err(Error::Transfer(TransferError::Disconnected))
    );
    assert_eq!(device.tx_pending(), TRANSFER_COUNT - 1);
    assert!(device.poll_ready());
    let done = Completion { data: Vec::new(), status: Ok(()) };
    assert_eq!(device.poll_completion(done), Ok(Some(bytes[4 * TRANSFER_SIZE..].to_vec())));
    assert_eq!(device.tx_pending(), TRANSFER_COUNT - 1);
}
