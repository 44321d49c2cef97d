use crate::consts::{TRANSFER_COUNT, TRANSFER_SIZE};
use crate::model::DeviceView;
use std::collections::VecDeque;
use vstd::prelude::*;

verus! {

/// The state of one device handle: the two transfer windows, the staging
/// buffer, the pool of reclaimed buffers and the backlog of packed transfers.
///
/// The handle performs no transfer itself. Its methods say which transfers
/// to submit, and take the completions that the bus hands back.
#[derive(Debug)]
pub struct Device {
    pub(crate) rx_pending: usize,
    pub(crate) tx_pending: usize,
    pub(crate) current_buffer: Vec<u8>,
    pub(crate) free_buffers: Vec<Vec<u8>>,
    pub(crate) pending_buffers: VecDeque<Vec<u8>>,
}

/// What each of a run of buffers holds.
pub open spec fn contents(buffers: Seq<Vec<u8>>) -> Seq<Seq<u8>> {
    Seq::new(buffers.len(), |k: int| buffers[k]@)
}

/// What a buffer holds, if there is one.
pub open spec fn content(buffer: Option<Vec<u8>>) -> Option<Seq<u8>> {
    match buffer {
        Some(b) => Some(b@),
        None => None,
    }
}

impl View for Device {
    type V = DeviceView;

    open(crate) spec fn view(&self) -> DeviceView {
        DeviceView {
            rx_pending: self.rx_pending as nat,
            tx_pending: self.tx_pending as nat,
            staging: self.current_buffer@,
            backlog: contents(self.pending_buffers@),
            free: self.free_buffers@.len(),
        }
    }
}

impl Device {
    /// The pool holds empty buffers only, and both windows are within their
    /// bound.
    pub(crate) open spec fn pool_wf(&self) -> bool {
        &&& self.rx_pending <= TRANSFER_COUNT
        &&& self.tx_pending <= TRANSFER_COUNT
        &&& forall|k: int| 0 <= k < self.free_buffers@.len() ==> (#[trigger] self.free_buffers@[k])@.len() == 0
    }

    /// The invariant of a handle between calls.
    pub open(crate) spec fn wf(&self) -> bool {
        &&& self.pool_wf()
        &&& self.current_buffer@.len() < TRANSFER_SIZE
    }

    /// A handle on which nothing has happened yet.
    pub fn new() -> (device: Device)
        ensures
            device.wf(),
            device@ == DeviceView::initial(),
    {
        let device = Device {
            rx_pending: 0,
            tx_pending: 0,
            current_buffer: Vec::with_capacity(TRANSFER_SIZE),
            free_buffers: Vec::with_capacity(TRANSFER_COUNT),
            pending_buffers: VecDeque::new(),
        };
        proof {
            assert(device@.backlog =~= Seq::<Seq<u8>>::empty());
        }
        device
    }

    /// A well-formed handle is within the bounds of its model.
    pub proof fn lemma_wf_view(&self)
        requires
            self.wf(),
        ensures
            self@.wf(),
    {
    }
}

} // verus!
