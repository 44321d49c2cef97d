use dverf::{Completion, Device, Error, Sample, TransferError, TRANSFER_COUNT, TRANSFER_SIZE};

fn arrived(data: Vec<u8>) -> Completion {
    Completion { data, status: Ok(()) }
}

#[test]
fn the_first_poll_fills_the_window() {
    let mut device = Device::new();
    assert_eq!(device.rx_pending(), 0);
    assert_eq!(device.fill_window(), 4);
    assert_eq!(device.rx_pending(), TRANSFER_COUNT);
    assert_eq!(TRANSFER_COUNT, 4);
}

#[test]
fn a_full_window_needs_nothing() {
    let mut device = Device::new();
    device.fill_window();
    assert_eq!(device.fill_window(), 0);
    assert_eq!(device.rx_pending(), TRANSFER_COUNT);
}

#[test]
fn a_completion_is_delivered_as_samples_and_replaced() {
    let mut device = Device::new();
    device.fill_window();
    let received = device.poll_next(arrived(vec![1, 0xff, 0x80, 0x7f]));
    assert_eq!(received.item, Ok(vec![Sample::new(1, -1), Sample::new(-128, 127)]));
    assert_eq!(received.resubmit, 1);
    assert_eq!(device.rx_pending(), TRANSFER_COUNT);
    assert_eq!(device.fill_window(), 0);
}

#[test]
fn a_whole_transfer_is_delivered() {
    let mut device = Device::new();
    device.fill_window();
    let mut data = Vec::with_capacity(TRANSFER_SIZE);
    for k in 0..TRANSFER_SIZE {
        data.push((k % 256) as u8);
    }
    let received = device.poll_next(arrived(data.clone()));
    let samples = received.item.unwrap();
    assert_eq!(samples.len(), TRANSFER_SIZE / 2);
    for k in 0..samples.len() {
        assert_eq!(samples[k], Sample::new(data[2 * k] as i8, data[2 * k + 1] as i8));
    }
}

#[test]
fn a_short_or_empty_transfer_is_delivered_as_it_is() {
    let mut device = Device::new();
    device.fill_window();
    let received = device.poll_next(arrived(Vec::new()));
    assert_eq!(received.item, Ok(Vec::new()));
    assert_eq!(received.resubmit, 1);
    let received = device.poll_next(arrived(vec![7, 8]));
    assert_eq!(received.item, Ok(vec![Sample::new(7, 8)]));
}

#[test]
fn a_failure_is_reported_without_resubmission() {
    let mut device = Device::new();
    device.fill_window();
    let failed = Completion { data: vec![1, 2, 3], status: Err(TransferError::Stall) };
    let received = device.poll_next(failed);
    assert_eq!(received.item, Err(Error::Transfer(TransferError::Stall)));
    assert_eq!(received.resubmit, 0);
    assert_eq!(device.rx_pending(), TRANSFER_COUNT - 1);
}

#[test]
fn polling_goes_on_after_a_failure() {
    let mut device = Device::new();
    assert_eq!(device.fill_window(), 4);
    let failed = Completion { data: Vec::new(), status: Err(TransferError::Cancelled) };
    assert!(device.poll_next(failed).item.is_err());
    // The next poll tops the window up again and delivers.
    assert_eq!(device.fill_window(), 1);
    assert_eq!(device.rx_pending(), TRANSFER_COUNT);
    let received = device.poll_next(arrived(vec![2, 4]));
    assert_eq!(received.item, Ok(vec![Sample::new(2, 4)]));
    assert_eq!(received.resubmit, 1);
    assert_eq!(device.rx_pending(), TRANSFER_COUNT);
}

#[test]
fn the_window_stays_within_its_bound() {
    let mut device = Device::new();
    let mut in_flight = 0usize;
    for round in 0..200usize {
        in_flight += device.fill_window();
        assert_eq!(in_flight, TRANSFER_COUNT);
        assert_eq!(device.rx_pending(), TRANSFER_COUNT);
        in_flight -= 1;
        let completion = if round % 7 == 3 {
            Completion { data: Vec::new(), status: Err(TransferError::Fault) }
        } else {
            arrived(vec![round as u8, 0])
        };
        let received = device.poll_next(completion);
        in_flight += received.resubmit;
        assert!(in_flight <= TRANSFER_COUNT);
        assert_eq!(device.rx_pending(), in_flight);
        assert_eq!(received.item.is_ok(), round % 7 != 3);
        assert_eq!(in_flight == TRANSFER_COUNT, round % 7 != 3);
    }
}

#[test]
fn every_failure_is_carried_unchanged() {
    for error in [
        TransferError::Cancelled,
        TransferError::Stall,
        TransferError::Disconnected,
        TransferError::Fault,
        TransferError::Unknown,
    ] {
        let mut device = Device::new();
        device.fill_window();
        let received = device.poll_next(Completion { data: vec![1], status: Err(error) });
        assert_eq!(received.item, Err(Error::Transfer(error)));
    }
}

#[test]
fn the_two_directions_do_not_touch_each_other() {
    let mut device = Device::new();
    device.fill_window();
    assert_eq!(device.tx_pending(), 0);
    assert!(device.is_flushed());
    assert!(device.start_send(&[Sample::new(1, 1)]).is_empty());
    assert_eq!(device.poll_flush(), Some(vec![1, 1]));
    assert_eq!(device.rx_pending(), TRANSFER_COUNT);
    assert_eq!(device.tx_pending(), 1);
    let received = device.poll_next(arrived(vec![3, 4]));
    assert_eq!(received.item, Ok(vec![Sample::new(3, 4)]));
    assert_eq!(device.tx_pending(), 1);
}
