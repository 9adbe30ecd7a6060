use vstd::prelude::*;
use crate::error::PduError;
use crate::pdu::{Pdu, PduFlags, PduView};

verus! {

/// Where a slot is in its life.
#[derive(Debug, Clone, Copy, PartialEq, Eq, Structural)]
pub enum FrameState {
    /// Reusable.
    Empty,
    /// A request is stored and waits to be sent.
    Created,
    /// Handed to the transmit path.
    Sending,
    /// Sent; a response is awaited.
    Waiting,
    /// The response is recorded and waits to be retrieved.
    Done,
}

/// A slot may take a new request only when it is empty: a recorded
/// response stays until its caller has taken it.
pub open spec fn is_reusable(s: FrameState) -> bool {
    s == FrameState::Empty
}

/// The request a response completes: its command and index stay, the
/// response's flags, IRQ, payload and working counter replace the rest.
pub open spec fn completed(request: PduView, flags: PduFlags, irq: u16, data: Seq<u8>, working_counter: u16) -> PduView {
    PduView { flags, irq, data, working_counter, ..request }
}

/// One in-flight exchange: the PDU it holds and the state of the exchange.
#[derive(Debug)]
pub struct Frame {
    pub state: FrameState,
    pub pdu: Pdu,
}

impl Frame {
    /// An empty slot.
    pub fn new() -> (r: Frame)
        ensures
            r.state == FrameState::Empty,
            r.pdu.wf(),
    {
        Frame { state: FrameState::Empty, pdu: Pdu::nop() }
    }

    /// Stores a request. Fails, changing nothing, unless the slot is empty:
    /// an exchange in flight, or a response not yet taken, is never
    /// overwritten.
    pub fn replace(&mut self, pdu: Pdu) -> (r: Result<(), PduError>)
        ensures
            r.is_ok() == is_reusable(old(self).state),
            r.is_ok() ==> final(self).state == FrameState::Created && final(self).pdu@ == pdu@,
            r.is_err() ==> r == Err::<(), PduError>(PduError::InvalidFrameState) && final(self)@ == old(self)@,
    {
        match self.state {
            FrameState::Empty => {
                self.state = FrameState::Created;
                self.pdu = pdu;
                Ok(())
            },
            _ => Err(PduError::InvalidFrameState),
        }
    }

    /// Hands a created request to the transmit path; `false`, changing
    /// nothing, in any other state.
    pub fn mark_sending(&mut self) -> (r: bool)
        ensures
            r == (old(self).state == FrameState::Created),
            final(self).pdu@ == old(self).pdu@,
            final(self).state == (if r { FrameState::Sending } else { old(self).state }),
    {
        if self.state == FrameState::Created {
            self.state = FrameState::Sending;
            true
        } else {
            false
        }
    }

    /// Records that the request went out.
    pub fn mark_sent(&mut self) -> (r: Result<(), PduError>)
        ensures
            r.is_ok() == (old(self).state == FrameState::Sending),
            final(self).pdu@ == old(self).pdu@,
            final(self).state == (if r.is_ok() { FrameState::Waiting } else { old(self).state }),
            r.is_err() ==> r == Err::<(), PduError>(PduError::InvalidFrameState),
    {
        if self.state == FrameState::Sending {
            self.state = FrameState::Waiting;
            Ok(())
        } else {
            Err(PduError::InvalidFrameState)
        }
    }

    /// Records a response. Fails, changing nothing, unless a response is
    /// awaited: a duplicate or stray response completes no slot.
    pub fn wake_done(&mut self, flags: PduFlags, irq: u16, data: Vec<u8>, working_counter: u16) -> (r: Result<(), PduError>)
        ensures
            r.is_ok() == (old(self).state == FrameState::Waiting),
            r.is_ok() ==> final(self).state == FrameState::Done && final(self).pdu@ == completed(
                old(self).pdu@,
                flags,
                irq,
                data@,
                working_counter,
            ),
            r.is_err() ==> r == Err::<(), PduError>(PduError::InvalidFrameState) && final(self)@ == old(self)@,
    {
        if self.state != FrameState::Waiting {
            return Err(PduError::InvalidFrameState);
        }
        self.pdu.flags = flags;
        self.pdu.irq = irq;
        self.pdu.data = data;
        self.pdu.working_counter = working_counter;
        self.state = FrameState::Done;
        Ok(())
    }

    /// Hands out a recorded response and frees the slot; `None`, changing
    /// nothing, where no response is recorded.
    pub fn take_response(&mut self) -> (r: Option<Pdu>)
        ensures
            r.is_some() == (old(self).state == FrameState::Done),
            r matches Some(p) ==> p@ == old(self).pdu@ && final(self).state == FrameState::Empty && final(self).pdu.wf(),
            r.is_none() ==> final(self)@ == old(self)@,
    {
        if self.state != FrameState::Done {
            return None;
        }
        let mut p = Pdu::nop();
        core::mem::swap(&mut p, &mut self.pdu);
        self.state = FrameState::Empty;
        Some(p)
    }

    /// Gives up on the exchange: the slot is free again.
    pub fn release(&mut self)
        ensures
            final(self).state == FrameState::Empty,
            final(self).pdu@ == old(self).pdu@,
    {
        self.state = FrameState::Empty;
    }
}

impl View for Frame {
    type V = (FrameState, PduView);

    open spec fn view(&self) -> (FrameState, PduView) {
        (self.state, self.pdu@)
    }
}

/// A store fails on a slot whose exchange is in flight or whose response
/// has not been taken, and succeeds on an empty slot, which is what a slot
/// becomes once its response is taken.
pub proof fn lemma_store_guard(s: FrameState)
    ensures
        !is_reusable(s) <==> (s == FrameState::Created || s == FrameState::Sending || s == FrameState::Waiting
            || s == FrameState::Done),
{
}

} // verus!
