use crate::consts::TRANSFER_COUNT;
use crate::control::Completion;
use crate::device::Device;
use crate::err::Error;
use crate::internals::{bytes_into_samples, samples_of};
use crate::sample::Sample;
use vstd::prelude::*;

verus! {

/// What one completed receive transfer gives: the batch of samples or the
/// failure, and the number of transfers to submit in its place.
#[derive(Debug)]
pub struct Received {
    pub item: Result<Vec<Sample>, Error>,
    pub resubmit: usize,
}

impl Device {
    /// Number of receive transfers in flight.
    pub fn rx_pending(&self) -> (pending: usize)
        ensures
            pending == self@.rx_pending,
    {
        self.rx_pending
    }

    /// Tops the receive window up. The result is the number of fresh
    /// transfers of `TRANSFER_SIZE` bytes that the caller must submit before
    /// it waits for the next completion; with them the window is full.
    pub fn fill_window(&mut self) -> (fresh: usize)
        requires
            old(self).wf(),
        ensures
            final(self).wf(),
            (final(self)@, fresh as nat) == old(self)@.fill_window(),
            final(self)@.rx_pending == TRANSFER_COUNT,
    {
        let fresh = TRANSFER_COUNT - self.rx_pending;
        self.rx_pending = TRANSFER_COUNT;
        fresh
    }

    /// Takes the completion of the oldest receive transfer in flight.
    ///
    /// A failed transfer is reported once and leaves its slot empty until
    /// the window is topped up again. The bytes of a successful one are
    /// delivered as samples, and one transfer is to be submitted in its
    /// place, so that the window stays as full as it was.
    ///
    /// A successful transfer must carry whole samples, that is, an even
    /// number of bytes.
    pub fn poll_next(&mut self, completion: Completion) -> (received: Received)
        requires
            old(self).wf(),
            old(self)@.rx_pending > 0,
            completion.status is Ok ==> completion.data@.len() % 2 == 0,
        ensures
            final(self).wf(),
            (final(self)@, received.resubmit as nat) == old(self)@.receive(completion.status is Ok),
            match completion.status {
                Ok(_) => received.item is Ok && (received.item->Ok_0)@ == samples_of(
                    completion.data@,
                ),
                Err(error) => received.item == Err::<Vec<Sample>, Error>(Error::Transfer(error)),
            },
    {
        let Completion { data, status } = completion;
        match status {
            Err(error) => {
                self.rx_pending -= 1;
                Received { item: Err(Error::Transfer(error)), resubmit: 0 }
            },
            Ok(_) => Received { item: Ok(bytes_into_samples(data)), resubmit: 1 },
        }
    }
}

} // verus!
