use crate::consts::{TRANSFER_COUNT, TRANSFER_SIZE};
use crate::model::{full_transfers, leftover, with_submitted, DeviceView};
use vstd::prelude::*;
use vstd::seq_lib::lemma_flatten_concat;

verus! {

/// What can happen on the transmit side of a handle while no transfer fails.
pub enum TxEvent {
    /// A chunk with these bytes is accepted.
    Accept(Seq<u8>),
    /// A flush begins.
    Flush,
    /// The oldest transfer in flight completes successfully.
    Complete,
}

impl DeviceView {
    /// Whether the event may happen in this state: a chunk is accepted only
    /// when the transmit side is ready, and a transfer completes only while
    /// one is in flight.
    pub open spec fn permits(self, event: TxEvent) -> bool {
        match event {
            TxEvent::Accept(_) => self.ready(),
            TxEvent::Flush => true,
            TxEvent::Complete => self.tx_pending > 0,
        }
    }

    /// The state after the event, and the buffers it has submitted, in order.
    pub open spec fn after(self, event: TxEvent) -> (DeviceView, Seq<Seq<u8>>) {
        match event {
            TxEvent::Accept(bytes) => self.accept(bytes),
            TxEvent::Flush => (self.flush().0, with_submitted(Seq::empty(), self.flush().1)),
            TxEvent::Complete => (
                self.complete(true).0,
                with_submitted(Seq::empty(), self.complete(true).1),
            ),
        }
    }

    /// The state after all transfers in flight, and those that follow them
    /// from the backlog, have completed successfully.
    pub open spec fn drained(self) -> DeviceView
        decreases self.backlog.len() + self.tx_pending,
    {
        if self.tx_pending > 0 {
            self.complete(true).0.drained()
        } else {
            self
        }
    }

    /// The state after a whole flush in which no transfer fails.
    pub open spec fn flushed_out(self) -> DeviceView {
        self.flush().0.drained()
    }

    /// The state after one poll of the receive side: the window is topped
    /// up, then the oldest transfer completes, successfully or not.
    pub open spec fn polled(self, ok: bool) -> DeviceView {
        self.fill_window().0.receive(ok).0
    }
}

/// The bytes that an event hands to the transmit side.
pub open spec fn bytes_in(event: TxEvent) -> Seq<u8> {
    match event {
        TxEvent::Accept(bytes) => bytes,
        _ => Seq::empty(),
    }
}

/// The state after a run of events.
pub open spec fn run(start: DeviceView, events: Seq<TxEvent>) -> DeviceView
    decreases events.len(),
{
    if events.len() == 0 {
        start
    } else {
        run(start, events.drop_last()).after(events.last()).0
    }
}

/// Whether each event of a run may happen at its turn.
pub open spec fn permitted(start: DeviceView, events: Seq<TxEvent>) -> bool
    decreases events.len(),
{
    events.len() == 0 || (permitted(start, events.drop_last()) && run(
        start,
        events.drop_last(),
    ).permits(events.last()))
}

/// The buffers that a run of events has submitted to the bus, in the order
/// of submission.
pub open spec fn submitted(start: DeviceView, events: Seq<TxEvent>) -> Seq<Seq<u8>>
    decreases events.len(),
{
    if events.len() == 0 {
        Seq::empty()
    } else {
        submitted(start, events.drop_last()) + run(start, events.drop_last()).after(
            events.last(),
        ).1
    }
}

/// All bytes that a run of events has handed to the transmit side, in order.
pub open spec fn accepted(events: Seq<TxEvent>) -> Seq<u8>
    decreases events.len(),
{
    if events.len() == 0 {
        Seq::empty()
    } else {
        accepted(events.drop_last()) + bytes_in(events.last())
    }
}

/// The state after a run of polls of the receive side, one outcome each.
pub open spec fn polls(start: DeviceView, outcomes: Seq<bool>) -> DeviceView
    decreases outcomes.len(),
{
    if outcomes.len() == 0 {
        start
    } else {
        polls(start, outcomes.drop_last()).polled(outcomes.last())
    }
}

/// The first `count` full transfers of `bytes`, laid end to end, are the
/// first `count * TRANSFER_SIZE` bytes.
proof fn lemma_cuts_in_a_row(bytes: Seq<u8>, count: int)
    requires
        0 <= count <= bytes.len() / (TRANSFER_SIZE as nat),
    ensures
        full_transfers(bytes).take(count).flatten() == bytes.take(count * TRANSFER_SIZE),
    decreases count,
{
    let full = full_transfers(bytes);
    if count > 0 {
        lemma_cuts_in_a_row(bytes, count - 1);
        assert(full.take(count) =~= full.take(count - 1).push(full[count - 1]));
        full.take(count - 1).lemma_flatten_push(full[count - 1]);
    }
}

/// Cutting loses nothing: the full transfers of `bytes` and what is left over
/// are, laid end to end, `bytes`.
pub proof fn lemma_cut_and_leftover(bytes: Seq<u8>)
    ensures
        full_transfers(bytes).flatten() + leftover(bytes) == bytes,
        leftover(bytes).len() < TRANSFER_SIZE,
{
    let full = full_transfers(bytes);
    lemma_cuts_in_a_row(bytes, full.len() as int);
    assert(full.take(full.len() as int) =~= full);
}

/// One event, at a time when it may happen, keeps the state within its
/// bounds and the backlog in order, and loses no byte: what it submits and
/// what is then still unsent are what was unsent before and what it brought.
pub proof fn lemma_event_keeps_bytes(s: DeviceView, event: TxEvent)
    requires
        s.wf(),
        s.in_order(),
        s.permits(event),
    ensures
        s.after(event).0.wf(),
        s.after(event).0.in_order(),
        s.after(event).0.rx_pending == s.rx_pending,
        s.after(event).1.flatten() + s.after(event).0.unsent() == s.unsent() + bytes_in(event),
{
    let out = s.after(event).1;
    match event {
        TxEvent::Accept(bytes) => {
            // Ready and in order: the backlog is empty, so the full transfers
            // of the staged bytes and the chunk leave in their own order.
            let full = full_transfers(s.staging + bytes);
            let direct = out.len() as int;
            lemma_cut_and_leftover(s.staging + bytes);
            assert(full.take(direct) + full.skip(direct) =~= full);
            lemma_flatten_concat(full.take(direct), full.skip(direct));
        },
        TxEvent::Flush => {
            if s.staging.len() > 0 {
                if s.tx_pending < TRANSFER_COUNT {
                    out.lemma_flatten_singleton();
                } else {
                    s.backlog.lemma_flatten_push(s.staging);
                }
            }
        },
        TxEvent::Complete => {
            if s.backlog.len() > 0 {
                out.lemma_flatten_singleton();
            }
        },
    }
}

/// A run of events in which each may happen at its turn keeps the state
/// within its bounds and the backlog in order, and loses no byte.
pub proof fn lemma_run_keeps_bytes(start: DeviceView, events: Seq<TxEvent>)
    requires
        start.wf(),
        start.in_order(),
        permitted(start, events),
    ensures
        run(start, events).wf(),
        run(start, events).in_order(),
        submitted(start, events).flatten() + run(start, events).unsent() == start.unsent()
            + accepted(events),
    decreases events.len(),
{
    if events.len() == 0 {
        assert(submitted(start, events).flatten() + run(start, events).unsent() =~= start.unsent()
            + accepted(events));
    } else {
        let before = events.drop_last();
        let s = run(start, before);
        let (t, out) = s.after(events.last());
        lemma_run_keeps_bytes(start, before);
        lemma_event_keeps_bytes(s, events.last());
        lemma_flatten_concat(submitted(start, before), out);
        // Concatenation is regrouped twice: around what the event submitted,
        // and around what it brought.
        let sent_before = submitted(start, before).flatten();
        assert(submitted(start, events).flatten() + t.unsent() =~= sent_before + (out.flatten()
            + t.unsent()));
        assert(sent_before + (s.unsent() + bytes_in(events.last())) =~= (sent_before
            + s.unsent()) + bytes_in(events.last()));
        assert((start.unsent() + accepted(before)) + bytes_in(events.last()) =~= start.unsent()
            + accepted(events));
    }
}

/// First in, first out. On a fresh handle, whatever chunks are accepted
/// (each when the transmit side is ready), whenever flushes begin and
/// however late transfers complete: the submitted buffers, laid end to end
/// in the order of submission, then the backlog, then the staged bytes are
/// exactly the accepted bytes in the order of acceptance. The transmit
/// window never holds more than `TRANSFER_COUNT` transfers.
pub proof fn lemma_first_in_first_out(events: Seq<TxEvent>)
    requires
        permitted(DeviceView::initial(), events),
    ensures
        submitted(DeviceView::initial(), events).flatten() + run(
            DeviceView::initial(),
            events,
        ).unsent() == accepted(events),
        run(DeviceView::initial(), events).tx_pending <= TRANSFER_COUNT,
{
    lemma_run_keeps_bytes(DeviceView::initial(), events);
}

/// Once everything has left the host, the bus has seen exactly the accepted
/// bytes, in the order of acceptance.
pub proof fn lemma_flushed_bytes_arrive(events: Seq<TxEvent>)
    requires
        permitted(DeviceView::initial(), events),
        run(DeviceView::initial(), events).flushed(),
    ensures
        submitted(DeviceView::initial(), events).flatten() == accepted(events),
{
    lemma_first_in_first_out(events);
}

/// Nothing is submitted twice or out of turn. At every moment what the bus
/// has seen is a prefix of the accepted bytes, and what it has seen earlier
/// stays a prefix of what it sees later.
pub proof fn lemma_no_duplicate_no_reorder(events: Seq<TxEvent>, earlier: int)
    requires
        permitted(DeviceView::initial(), events),
        0 <= earlier <= events.len(),
    ensures
        submitted(DeviceView::initial(), events).flatten().is_prefix_of(accepted(events)),
        submitted(DeviceView::initial(), events.take(earlier)).is_prefix_of(
            submitted(DeviceView::initial(), events),
        ),
    decreases events.len() - earlier,
{
    let start = DeviceView::initial();
    lemma_first_in_first_out(events);
    let sent = submitted(start, events).flatten();
    assert(sent =~= accepted(events).take(sent.len() as int));
    if earlier == events.len() {
        assert(events.take(earlier) =~= events);
    } else {
        lemma_permitted_prefix(start, events, events.len() - 1);
        lemma_no_duplicate_no_reorder(events.drop_last(), earlier);
        assert(events.drop_last().take(earlier) =~= events.take(earlier));
        let short = submitted(start, events.take(earlier));
        assert(short =~= submitted(start, events).take(short.len() as int));
    }
}

/// If each event of a run may happen at its turn, so may each event of a
/// shorter run.
pub proof fn lemma_permitted_prefix(start: DeviceView, events: Seq<TxEvent>, count: int)
    requires
        permitted(start, events),
        0 <= count <= events.len(),
    ensures
        permitted(start, events.take(count)),
    decreases events.len(),
{
    if count == events.len() {
        assert(events.take(count) =~= events);
    } else {
        lemma_permitted_prefix(start, events.drop_last(), count);
        assert(events.drop_last().take(count) =~= events.take(count));
    }
}

/// Draining ends with nothing in flight and, where the backlog was in
/// order, with an empty backlog; the staged bytes are not touched.
pub proof fn lemma_drained(s: DeviceView)
    requires
        s.wf(),
        s.in_order(),
    ensures
        s.drained().wf(),
        s.drained().tx_pending == 0,
        s.drained().backlog.len() == 0,
        s.drained().staging == s.staging,
        s.drained().rx_pending == s.rx_pending,
        s.tx_pending == 0 ==> s.drained() == s,
    decreases s.backlog.len() + s.tx_pending,
{
    if s.tx_pending > 0 {
        lemma_event_keeps_bytes(s, TxEvent::Complete);
        lemma_drained(s.complete(true).0);
    }
}

/// Flushing twice is flushing once. A flush in which no transfer fails ends
/// with everything gone from the host; a second flush right after it
/// submits nothing and ends at once, in the same state.
pub proof fn lemma_flush_idempotent(s: DeviceView)
    requires
        s.wf(),
        s.in_order(),
    ensures
        s.flushed_out().flushed(),
        s.flushed_out().flush() == (s.flushed_out(), None::<Seq<u8>>),
        s.flushed_out().flushed_out() == s.flushed_out(),
{
    lemma_event_keeps_bytes(s, TxEvent::Flush);
    lemma_drained(s.flush().0);
    let end = s.flushed_out();
    lemma_drained(end.flush().0);
}

/// The receive window is never over-full, and is kept full: however many
/// polls succeed or fail, no more than `TRANSFER_COUNT` transfers are in
/// flight; while a poll waits for its completion exactly `TRANSFER_COUNT`
/// are; and after a poll that delivered samples exactly `TRANSFER_COUNT`
/// are again.
pub proof fn lemma_receive_window(start: DeviceView, outcomes: Seq<bool>)
    requires
        start.wf(),
    ensures
        polls(start, outcomes).wf(),
        polls(start, outcomes).rx_pending <= TRANSFER_COUNT,
        polls(start, outcomes).fill_window().0.rx_pending == TRANSFER_COUNT,
        outcomes.len() > 0 && outcomes.last() ==> polls(start, outcomes).rx_pending
            == TRANSFER_COUNT,
        outcomes.len() > 0 && !outcomes.last() ==> polls(start, outcomes).rx_pending
            == TRANSFER_COUNT - 1,
    decreases outcomes.len(),
{
    if outcomes.len() > 0 {
        lemma_receive_window(start, outcomes.drop_last());
    }
}

} // verus!
