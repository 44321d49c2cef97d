use crate::consts::{TRANSFER_COUNT, TRANSFER_SIZE};
use vstd::prelude::*;

verus! {

/// What a device handle is, seen from outside: how many transfers are in
/// flight in each direction, and where the bytes accepted for transmission
/// and not yet submitted are kept.
pub struct DeviceView {
    /// Receive transfers in flight.
    pub rx_pending: nat,
    /// Transmit transfers in flight.
    pub tx_pending: nat,
    /// The bytes of the transfer that is being filled.
    pub staging: Seq<u8>,
    /// Packed transfers that wait for a free slot, oldest first.
    pub backlog: Seq<Seq<u8>>,
    /// Number of reclaimed buffers that wait to be filled again.
    pub free: nat,
}

/// The transfers of full size that can be cut from the front of `bytes`, in
/// order.
pub open spec fn full_transfers(bytes: Seq<u8>) -> Seq<Seq<u8>> {
    Seq::new(
        bytes.len() / (TRANSFER_SIZE as nat),
        |k: int| bytes.subrange(k * TRANSFER_SIZE, (k + 1) * TRANSFER_SIZE),
    )
}

/// What is left of `bytes` behind its full transfers.
pub open spec fn leftover(bytes: Seq<u8>) -> Seq<u8> {
    bytes.skip((bytes.len() / (TRANSFER_SIZE as nat)) * TRANSFER_SIZE)
}

/// `count` buffers fewer in a pool of `free`, as far as the pool goes.
pub open spec fn drawn(free: nat, count: nat) -> nat {
    if free >= count {
        (free - count) as nat
    } else {
        0
    }
}

impl DeviceView {
    /// The bounds that every handle keeps: no window holds more than
    /// `TRANSFER_COUNT` transfers, and the staging buffer is never left full.
    pub open spec fn wf(self) -> bool {
        &&& self.rx_pending <= TRANSFER_COUNT
        &&& self.tx_pending <= TRANSFER_COUNT
        &&& self.staging.len() < TRANSFER_SIZE
    }

    /// A fresh handle: nothing in flight, nothing staged.
    pub open spec fn initial() -> DeviceView {
        DeviceView {
            rx_pending: 0,
            tx_pending: 0,
            staging: Seq::empty(),
            backlog: Seq::empty(),
            free: 0,
        }
    }

    /// The transmit side can take a chunk: a slot of the window is free.
    pub open spec fn ready(self) -> bool {
        self.tx_pending < TRANSFER_COUNT
    }

    /// Nothing accepted is left on the host: no staged byte, no backlog, no
    /// transfer in flight.
    pub open spec fn flushed(self) -> bool {
        &&& self.tx_pending == 0
        &&& self.staging.len() == 0
        &&& self.backlog.len() == 0
    }

    /// A transfer waits in the backlog only while the window is full. This
    /// holds as long as no transmit transfer has failed.
    pub open spec fn in_order(self) -> bool {
        self.backlog.len() > 0 ==> self.tx_pending == TRANSFER_COUNT
    }

    /// The accepted bytes that have not been submitted yet, in order.
    pub open spec fn unsent(self) -> Seq<u8> {
        self.backlog.flatten() + self.staging
    }

    /// The staging buffer leaves: to the bus if a slot is free (`Some`), else
    /// to the end of the backlog. A buffer from the pool, if there is one,
    /// becomes the new, empty staging buffer.
    pub open spec fn submit_or_enqueue(self) -> (DeviceView, Option<Seq<u8>>) {
        if self.tx_pending < TRANSFER_COUNT {
            (
                DeviceView {
                    tx_pending: self.tx_pending + 1,
                    staging: Seq::empty(),
                    free: drawn(self.free, 1),
                    ..self
                },
                Some(self.staging),
            )
        } else {
            (
                DeviceView {
                    staging: Seq::empty(),
                    backlog: self.backlog.push(self.staging),
                    free: drawn(self.free, 1),
                    ..self
                },
                None,
            )
        }
    }

    /// One byte goes into the staging buffer, which leaves when that fills it.
    pub open spec fn push(self, byte: u8) -> (DeviceView, Option<Seq<u8>>) {
        let filled = DeviceView { staging: self.staging.push(byte), ..self };
        if filled.staging.len() < TRANSFER_SIZE {
            (filled, None)
        } else {
            filled.submit_or_enqueue()
        }
    }

    /// A chunk of bytes is accepted. The staged bytes and the chunk together
    /// are cut into full transfers; as many of them as the window has free
    /// slots are submitted at once (the second component, in order), the rest
    /// joins the backlog, and what is left over stays staged.
    pub open spec fn accept(self, bytes: Seq<u8>) -> (DeviceView, Seq<Seq<u8>>) {
        let all = self.staging + bytes;
        let full = full_transfers(all);
        let room = TRANSFER_COUNT - self.tx_pending;
        let direct = if full.len() <= room {
            full.len() as int
        } else {
            room
        };
        (
            DeviceView {
                tx_pending: (self.tx_pending + direct) as nat,
                staging: leftover(all),
                backlog: self.backlog + full.skip(direct),
                free: drawn(self.free, full.len()),
                ..self
            },
            full.take(direct),
        )
    }

    /// A flush begins: staged bytes, if there are any, leave as a short
    /// transfer.
    pub open spec fn flush(self) -> (DeviceView, Option<Seq<u8>>) {
        if self.staging.len() > 0 {
            self.submit_or_enqueue()
        } else {
            (self, None)
        }
    }

    /// A transmit transfer has completed. If it succeeded, its buffer goes to
    /// the pool and the head of the backlog, if there is one, is submitted in
    /// its place (`Some`). If it failed, its slot is free and nothing else
    /// changes.
    pub open spec fn complete(self, ok: bool) -> (DeviceView, Option<Seq<u8>>) {
        if !ok {
            (DeviceView { tx_pending: (self.tx_pending - 1) as nat, ..self }, None)
        } else if self.backlog.len() > 0 {
            (
                DeviceView { backlog: self.backlog.drop_first(), free: self.free + 1, ..self },
                Some(self.backlog[0]),
            )
        } else {
            (
                DeviceView {
                    tx_pending: (self.tx_pending - 1) as nat,
                    free: self.free + 1,
                    ..self
                },
                None,
            )
        }
    }

    /// The receive window is topped up: the second component is the number
    /// of fresh transfers to submit.
    pub open spec fn fill_window(self) -> (DeviceView, nat) {
        (
            DeviceView { rx_pending: TRANSFER_COUNT as nat, ..self },
            (TRANSFER_COUNT - self.rx_pending) as nat,
        )
    }

    /// A receive transfer has completed: a successful one is replaced at
    /// once, a failed one leaves its slot empty. The second component is the
    /// number of transfers to submit.
    pub open spec fn receive(self, ok: bool) -> (DeviceView, nat) {
        if ok {
            (self, 1)
        } else {
            (DeviceView { rx_pending: (self.rx_pending - 1) as nat, ..self }, 0)
        }
    }
}

/// The buffers submitted so far, with one more if a step submitted one.
pub open spec fn with_submitted(sent: Seq<Seq<u8>>, step: Option<Seq<u8>>) -> Seq<Seq<u8>> {
    match step {
        Some(buffer) => sent.push(buffer),
        None => sent,
    }
}

/// A full transfer cut from `bytes` is cut the same from `bytes` with one
/// more byte behind.
proof fn lemma_cut_of_prefix(bytes: Seq<u8>, byte: u8, i: int)
    requires
        0 <= i < bytes.len() / (TRANSFER_SIZE as nat),
    ensures
        (i + 1) * TRANSFER_SIZE <= bytes.len(),
        bytes.push(byte).subrange(i * TRANSFER_SIZE, (i + 1) * TRANSFER_SIZE) == bytes.subrange(
            i * TRANSFER_SIZE,
            (i + 1) * TRANSFER_SIZE,
        ),
{
}

/// Accepting a chunk one byte longer is accepting the chunk and then pushing
/// the byte.
pub proof fn lemma_accept_push(s: DeviceView, bytes: Seq<u8>, byte: u8)
    requires
        s.wf(),
    ensures
        s.accept(bytes).0.wf(),
        s.accept(bytes.push(byte)).0 == s.accept(bytes).0.push(byte).0,
        s.accept(bytes.push(byte)).1 == with_submitted(
            s.accept(bytes).1,
            s.accept(bytes).0.push(byte).1,
        ),
{
    let all = s.staging + bytes;
    let more = s.staging + bytes.push(byte);
    let size = TRANSFER_SIZE as int;
    let k = all.len() as int / size;
    let full = full_transfers(all);
    let full_more = full_transfers(more);
    let rest = leftover(all);
    assert forall|i: int| 0 <= i < k implies #[trigger] full_more[i] == full[i] by {
        lemma_cut_of_prefix(all, byte, i);
    }
    if rest.len() + 1 < size {
        // The byte joins what is left over; the full transfers stay.
        assert(full_more =~= full);
        assert(leftover(more) =~= rest.push(byte));
    } else {
        // The byte completes one more full transfer.
        let chunk = rest.push(byte);
        assert(chunk =~= more.subrange(k * size, (k + 1) * size));
        assert(full_more =~= full.push(chunk));
        assert(leftover(more) =~= Seq::<u8>::empty());
    }
    assert(s.accept(bytes.push(byte)).0.backlog =~= s.accept(bytes).0.push(byte).0.backlog);
}

/// Accepting no bytes changes nothing and submits nothing.
pub proof fn lemma_accept_nothing(s: DeviceView)
    requires
        s.wf(),
    ensures
        s.accept(Seq::empty()) == (s, Seq::<Seq<u8>>::empty()),
{
    let all = s.staging + Seq::<u8>::empty();
    assert(leftover(all) =~= s.staging);
}

} // verus!
