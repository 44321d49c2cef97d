use crate::consts::{TRANSFER_COUNT, TRANSFER_SIZE};
use crate::control::Completion;
use crate::device::{content, contents, Device};
use crate::err::Error;
use crate::internals::{bytes_of, lemma_bytes_of_push};
use crate::model::{lemma_accept_nothing, lemma_accept_push, with_submitted};
use crate::sample::{component_to_byte, Sample};
use vstd::prelude::*;

verus! {

impl Device {
    /// Whether a chunk can be accepted: a slot of the transmit window is free.
    /// While this is false the caller waits for a completion and hands it to
    /// [`Device::poll_completion`].
    pub fn poll_ready(&self) -> (ready: bool)
        ensures
            ready == self@.ready(),
    {
        self.tx_pending < TRANSFER_COUNT
    }

    /// Whether nothing that was accepted is left on the host: no staged
    /// byte, no backlog, no transfer in flight.
    pub fn is_flushed(&self) -> (flushed: bool)
        ensures
            flushed == self@.flushed(),
    {
        self.tx_pending == 0 && self.current_buffer.is_empty() && self.pending_buffers.len() == 0
    }

    /// Number of transmit transfers in flight.
    pub fn tx_pending(&self) -> (pending: usize)
        ensures
            pending == self@.tx_pending,
    {
        self.tx_pending
    }

    /// Takes the staging buffer away and puts an empty one, from the pool if
    /// it has one, in its place. The buffer is returned for submission if a
    /// slot of the window is free; otherwise it joins the backlog.
    fn submit_or_enqueue(&mut self) -> (submit: Option<Vec<u8>>)
        requires
            old(self).pool_wf(),
        ensures
            final(self).wf(),
            (final(self)@, content(submit)) == old(self)@.submit_or_enqueue(),
    {
        let mut buffer = match self.free_buffers.pop() {
            Some(free) => free,
            None => Vec::with_capacity(TRANSFER_SIZE),
        };
        std::mem::swap(&mut self.current_buffer, &mut buffer);
        if self.tx_pending == TRANSFER_COUNT {
            self.pending_buffers.push_back(buffer);
            proof {
                assert(self@.backlog =~= old(self)@.backlog.push(buffer@));
                assert(self@.staging =~= Seq::<u8>::empty());
            }
            None
        } else {
            self.tx_pending += 1;
            proof {
                assert(self@.backlog =~= old(self)@.backlog);
                assert(self@.staging =~= Seq::<u8>::empty());
            }
            Some(buffer)
        }
    }

    /// Puts one byte into the staging buffer. When that fills the buffer, it
    /// leaves by [`Device::submit_or_enqueue`], onto `submit` if it is to be
    /// submitted.
    fn push_byte(&mut self, byte: u8, submit: &mut Vec<Vec<u8>>)
        requires
            old(self).wf(),
        ensures
            final(self).wf(),
            final(self)@ == old(self)@.push(byte).0,
            contents(final(submit)@) == with_submitted(
                contents(old(submit)@),
                old(self)@.push(byte).1,
            ),
    {
        self.current_buffer.push(byte);
        if self.current_buffer.len() == TRANSFER_SIZE {
            match self.submit_or_enqueue() {
                Some(buffer) => {
                    submit.push(buffer);
                    proof {
                        assert(contents(submit@) =~= contents(old(submit)@).push(buffer@));
                    }
                },
                None => {},
            }
        } else {
            proof {
                assert(self@.backlog =~= old(self)@.backlog);
            }
        }
    }

    /// Accepts a chunk of samples for transmission.
    ///
    /// The chunk's bytes are packed behind those already staged. Every time
    /// the staging buffer reaches `TRANSFER_SIZE` it leaves: the result holds,
    /// in order, the buffers that the caller must submit now, and the buffers
    /// for which no slot was free wait in the backlog.
    ///
    /// The transmit side must be ready, as [`Device::poll_ready`] tells.
    pub fn start_send(&mut self, chunk: &[Sample]) -> (submit: Vec<Vec<u8>>)
        requires
            old(self).wf(),
            old(self)@.ready(),
        ensures
            final(self).wf(),
            (final(self)@, contents(submit@)) == old(self)@.accept(bytes_of(chunk@)),
    {
        let mut submit: Vec<Vec<u8>> = Vec::new();
        let mut k: usize = 0;
        proof {
            lemma_accept_nothing(self@);
            assert(bytes_of(chunk@.take(0)) =~= Seq::<u8>::empty());
            assert(contents(submit@) =~= Seq::<Seq<u8>>::empty());
        }
        while k < chunk.len()
            invariant
                k <= chunk.len(),
                old(self).wf(),
                self.wf(),
                (self@, contents(submit@)) == old(self)@.accept(bytes_of(chunk@.take(k as int))),
            decreases chunk.len() - k,
        {
            let sample = chunk[k];
            let ghost done = bytes_of(chunk@.take(k as int));
            let first = component_to_byte(sample.i);
            let second = component_to_byte(sample.q);
            proof {
                lemma_bytes_of_push(chunk@.take(k as int), sample);
                assert(chunk@.take(k as int).push(sample) =~= chunk@.take(k + 1));
                lemma_accept_push(old(self)@, done, first);
                lemma_accept_push(old(self)@, done.push(first), second);
            }
            self.push_byte(first, &mut submit);
            self.push_byte(second, &mut submit);
            k += 1;
        }
        proof {
            assert(chunk@.take(k as int) =~= chunk@);
        }
        submit
    }

    /// Begins a flush: staged bytes, if there are any, leave as a short
    /// transfer. The buffer is returned if the caller must submit it now; if
    /// the window is full it waits in the backlog.
    ///
    /// The flush has ended when no transfer is in flight any more, as
    /// [`Device::tx_pending`] tells; until then the caller waits for
    /// completions and hands them to [`Device::poll_completion`]. If none of
    /// them failed, [`Device::is_flushed`] holds at the end.
    pub fn poll_flush(&mut self) -> (submit: Option<Vec<u8>>)
        requires
            old(self).wf(),
        ensures
            final(self).wf(),
            (final(self)@, content(submit)) == old(self)@.flush(),
    {
        if !self.current_buffer.is_empty() {
            self.submit_or_enqueue()
        } else {
            None
        }
    }

    /// Takes the completion of the oldest transmit transfer in flight.
    ///
    /// A failed transfer is reported and frees its slot; nothing else
    /// changes. After a successful one the buffer is emptied and joins the
    /// pool, and the head of the backlog, if there is one, is returned: the
    /// caller must submit it next.
    pub fn poll_completion(&mut self, completion: Completion) -> (res: Result<
        Option<Vec<u8>>,
        Error,
    >)
        requires
            old(self).wf(),
            old(self)@.tx_pending > 0,
        ensures
            final(self).wf(),
            final(self)@ == old(self)@.complete(completion.status is Ok).0,
            match completion.status {
                Ok(_) => res is Ok && content(res->Ok_0) == old(self)@.complete(true).1,
                Err(error) => res == Err::<Option<Vec<u8>>, Error>(Error::Transfer(error)),
            },
    {
        let Completion { data, status } = completion;
        match status {
            Err(error) => {
                self.tx_pending -= 1;
                Err(Error::Transfer(error))
            },
            Ok(_) => {
                let mut buffer = data;
                buffer.clear();
                self.free_buffers.push(buffer);
                match self.pending_buffers.pop_front() {
                    Some(next) => {
                        proof {
                            assert(self@.backlog =~= old(self)@.backlog.drop_first());
                        }
                        Ok(Some(next))
                    },
                    None => {
                        self.tx_pending -= 1;
                        proof {
                            assert(self@.backlog =~= old(self)@.backlog);
                        }
                        Ok(None)
                    },
                }
            },
        }
    }
}

} // verus!
