use vstd::prelude::*;
use crate::error::{Error, PduError, PduValidationError};
use crate::ethernet::{ethernet_checked, ethernet_ethertype, ethernet_src_addr, ethertype_of, src_addr_of, ETHERNET_HEADER_LEN};
use crate::command::Command;
use crate::pdu::{
    lemma_decoded_wf, master_addr_bytes, zeros, PduFlags, decode_at, decode_spec, frame_bytes, master_addr, Pdu, PduView, ETHERCAT_ETHERTYPE,
    MAX_PDU_DATA_LEN,
};
use crate::slot::{completed, is_reusable, Frame, FrameState};

verus! {

/// std's task waker, carried through as an opaque handle.
#[verifier::external_type_specification]
#[verifier::external_body]
pub struct ExWaker(std::task::Waker);

/// Relies on `Waker::clone`: a new handle that wakes the same task.
pub assume_specification[ <std::task::Waker as Clone>::clone ](w: &std::task::Waker) -> std::task::Waker;

/// A response value together with the working counter it came back with.
pub type PduResponse<T> = (T, u16);

/// Checking the working counter of a response.
pub trait CheckWorkingCounter<T>: Sized {
    spec fn spec_wkc(self, expected: u16, context: &'static str) -> Result<T, Error>;

    /// The value where the working counter is `expected`, an error that
    /// carries both counters and `context` otherwise.
    fn wkc(self, expected: u16, context: &'static str) -> (r: Result<T, Error>)
        ensures
            r == self.spec_wkc(expected, context),
    ;
}

impl<T> CheckWorkingCounter<T> for PduResponse<T> {
    open spec fn spec_wkc(self, expected: u16, context: &'static str) -> Result<T, Error> {
        if self.1 == expected {
            Ok(self.0)
        } else {
            Err(Error::WorkingCounter { expected, received: self.1, context: Some(context) })
        }
    }

    fn wkc(self, expected: u16, context: &'static str) -> (r: Result<T, Error>) {
        if self.1 == expected {
            Ok(self.0)
        } else {
            Err(Error::WorkingCounter { expected, received: self.1, context: Some(context) })
        }
    }
}

/// What a pool holds, slot by slot, and its allocation counter.
pub struct PoolView {
    pub states: Seq<FrameState>,
    pub pdus: Seq<PduView>,
    pub next_index: u8,
    pub send_waker: Option<std::task::Waker>,
}

/// The result of handing the raw frame `f` to a pool of `max_frames`
/// slots, and the pool after it.
pub open spec fn rx_outcome(v: PoolView, f: Seq<u8>, max_frames: int) -> (Result<(), Error>, PoolView) {
    if f.len() < ETHERNET_HEADER_LEN {
        (Err(Error::Pdu(PduError::Ethernet)), v)
    } else if ethertype_of(f) != ETHERCAT_ETHERTYPE || src_addr_of(f) == master_addr() {
        (Ok(()), v)
    } else {
        match decode_spec(f.subrange(ETHERNET_HEADER_LEN as int, f.len() as int)) {
            Err(e) => (Err(Error::Pdu(e)), v),
            Ok(p) => {
                let i = p.index as int;
                if i >= max_frames {
                    (Err(Error::Pdu(PduError::InvalidIndex(p.index))), v)
                } else if p.command.code != v.pdus[i].command.code {
                    (
                        Err(
                            Error::Pdu(
                                PduError::Validation(
                                    PduValidationError::CommandMismatch { sent: v.pdus[i].command, received: p.command },
                                ),
                            ),
                        ),
                        v,
                    )
                } else if v.states[i] != FrameState::Waiting {
                    (Err(Error::Pdu(PduError::InvalidFrameState)), v)
                } else {
                    (
                        Ok(()),
                        PoolView {
                            states: v.states.update(i, FrameState::Done),
                            pdus: v.pdus.update(
                                i,
                                completed(v.pdus[i], p.flags, p.irq, p.data, p.working_counter),
                            ),
                            ..v
                        },
                    )
                }
            },
        }
    }
}

/// A frame of another ethertype, or one that the master sent itself, is
/// dropped without error and completes no slot.
pub proof fn lemma_foreign_frame_dropped(v: PoolView, f: Seq<u8>, max_frames: int)
    requires
        f.len() >= ETHERNET_HEADER_LEN,
        ethertype_of(f) != ETHERCAT_ETHERTYPE || src_addr_of(f) == master_addr(),
    ensures
        rx_outcome(v, f, max_frames) == (Ok::<(), Error>(()), v),
{
}

/// A frame that decodes but bears an index with no slot gives an
/// invalid-index error and completes nothing.
pub proof fn lemma_unknown_index_rejected(v: PoolView, f: Seq<u8>, max_frames: int)
    requires
        f.len() >= ETHERNET_HEADER_LEN,
        ethertype_of(f) == ETHERCAT_ETHERTYPE,
        src_addr_of(f) != master_addr(),
        decode_spec(f.subrange(ETHERNET_HEADER_LEN as int, f.len() as int)) is Ok,
        decode_spec(f.subrange(ETHERNET_HEADER_LEN as int, f.len() as int))->Ok_0.index >= max_frames,
    ensures
        rx_outcome(v, f, max_frames) == (
            Err::<(), Error>(
                Error::Pdu(
                    PduError::InvalidIndex(decode_spec(f.subrange(ETHERNET_HEADER_LEN as int, f.len() as int))->Ok_0.index),
                ),
            ),
            v,
        ),
{
}

/// The allocation counter after one allocation: it counts modulo 256.
pub open spec fn next_counter(c: u8) -> u8 {
    ((c + 1) % 256) as u8
}

/// A fixed pool of frame slots. A slot's position is the PDU index that
/// pairs a request with its response on the wire.
pub struct PduLoop<const MAX_FRAMES: usize, const MAX_PDU_DATA: usize> {
    frames: Vec<Frame>,
    /// Wakes the transmit path when a new frame is ready to be sent.
    tx_waker: Option<std::task::Waker>,
    /// Counts allocations; the next slot is this modulo the pool size.
    idx: u8,
}

impl<const MAX_FRAMES: usize, const MAX_PDU_DATA: usize> View for PduLoop<MAX_FRAMES, MAX_PDU_DATA> {
    type V = PoolView;

    closed spec fn view(&self) -> PoolView {
        PoolView {
            states: self.frames@.map_values(|f: Frame| f.state),
            pdus: self.frames@.map_values(|f: Frame| f.pdu@),
            next_index: self.idx,
            send_waker: self.tx_waker,
        }
    }
}

impl<const MAX_FRAMES: usize, const MAX_PDU_DATA: usize> PduLoop<MAX_FRAMES, MAX_PDU_DATA> {
    /// The pool size fits the 8-bit wire index, and a slot's payload fits
    /// a PDU.
    pub open spec fn valid_config() -> bool {
        0 < MAX_FRAMES <= 256 && MAX_PDU_DATA <= MAX_PDU_DATA_LEN
    }

    pub closed spec fn wf(&self) -> bool {
        &&& Self::valid_config()
        &&& self.frames@.len() == MAX_FRAMES
        &&& forall|i: int| 0 <= i < self.frames@.len() ==> (#[trigger] self.frames@[i]).pdu.wf()
    }

    /// A well-formed pool has one state and one PDU per slot, and every
    /// PDU it holds is well formed: its flags' length is its payload's.
    pub proof fn lemma_slots(&self)
        requires
            self.wf(),
        ensures
            self@.states.len() == MAX_FRAMES,
            self@.pdus.len() == MAX_FRAMES,
            forall|i: int| 0 <= i < MAX_FRAMES ==> (#[trigger] self@.pdus[i]).wf(),
    {
        self.lemma_view();
    }

    proof fn lemma_view(&self)
        ensures
            self@.states.len() == self.frames@.len(),
            self@.pdus.len() == self.frames@.len(),
            forall|i: int| 0 <= i < self.frames@.len() ==> self@.states[i] == (#[trigger] self.frames@[i]).state
                && self@.pdus[i] == self.frames@[i].pdu@,
    {
    }

    /// A pool of empty slots.
    pub fn new() -> (r: Self)
        requires
            Self::valid_config(),
        ensures
            r.wf(),
            r@.next_index == 0,
            r@.send_waker is None,
            r@.states.len() == MAX_FRAMES,
            r@.pdus.len() == MAX_FRAMES,
            forall|i: int| 0 <= i < MAX_FRAMES ==> r@.states[i] == FrameState::Empty,
    {
        let mut frames: Vec<Frame> = Vec::new();
        let mut i: usize = 0;
        while i < MAX_FRAMES
            invariant
                i <= MAX_FRAMES,
                frames@.len() == i,
                forall|k: int| 0 <= k < i ==> (#[trigger] frames@[k]).state == FrameState::Empty && frames@[k].pdu.wf(),
            decreases MAX_FRAMES - i,
        {
            frames.push(Frame::new());
            i = i + 1;
        }
        let r = PduLoop { frames, tx_waker: None, idx: 0 };
        proof {
            r.lemma_view();
        }
        r
    }

    /// Keeps `waker` to wake the transmit path when new work exists; one
    /// already kept stays.
    pub fn set_send_waker(&mut self, waker: &std::task::Waker)
        requires
            old(self).wf(),
        ensures
            final(self).wf(),
            final(self)@.states == old(self)@.states,
            final(self)@.pdus == old(self)@.pdus,
            final(self)@.next_index == old(self)@.next_index,
            final(self)@.send_waker is Some,
            old(self)@.send_waker is Some ==> final(self)@.send_waker == old(self)@.send_waker,
    {
        if self.tx_waker.is_none() {
            self.tx_waker = Some(waker.clone());
        }
    }

    /// Hands out the kept transmit waker, if any, to be woken.
    pub fn take_send_waker(&mut self) -> (r: Option<std::task::Waker>)
        requires
            old(self).wf(),
        ensures
            final(self).wf(),
            r == old(self)@.send_waker,
            final(self)@ == (PoolView { send_waker: None, ..old(self)@ }),
    {
        let mut w: Option<std::task::Waker> = None;
        core::mem::swap(&mut w, &mut self.tx_waker);
        w
    }

    /// Allocates the next slot round-robin, stores in it a request of
    /// `data_length` payload bytes (`data` padded with zeros) tagged with the
    /// slot's index, and returns that index. The counter advances whatever
    /// follows. Fails with `TooLong` where the payload does not fit a slot,
    /// and with `InvalidFrameState` where the slot's exchange is still in
    /// flight; the slots are then unchanged.
    pub fn pdu_tx(&mut self, command: Command, data: &[u8], data_length: u16) -> (r: Result<u8, Error>)
        requires
            old(self).wf(),
        ensures
            final(self).wf(),
            ({
                let i = old(self)@.next_index as int % MAX_FRAMES as int;
                let fits = data@.len() <= data_length && data_length <= MAX_PDU_DATA;
                &&& final(self)@.next_index == next_counter(old(self)@.next_index)
                &&& final(self)@.send_waker == old(self)@.send_waker
                &&& r.is_ok() == (fits && is_reusable(old(self)@.states[i]))
                &&& !fits ==> r == Err::<u8, Error>(Error::Pdu(PduError::TooLong))
                &&& fits && !is_reusable(old(self)@.states[i]) ==> r == Err::<u8, Error>(
                    Error::Pdu(PduError::InvalidFrameState),
                )
                &&& r.is_err() ==> final(self)@.states == old(self)@.states && final(self)@.pdus == old(self)@.pdus
                &&& r matches Ok(k) ==> k == i && final(self)@.states == old(self)@.states.update(
                    i,
                    FrameState::Created,
                ) && final(self)@.pdus == old(self)@.pdus.update(
                    i,
                    PduView {
                        command,
                        index: k,
                        flags: PduFlags { length: data_length, circulated: false, is_not_last: false },
                        irq: 0,
                        data: data@ + zeros((data_length - data@.len()) as nat),
                        working_counter: 0,
                    },
                )
            }),
    {
        proof {
            self.lemma_view();
        }
        let idx = ((self.idx as usize) % MAX_FRAMES) as u8;
        self.idx = if self.idx == 255 { 0 } else { self.idx + 1 };
        if data_length as usize > MAX_PDU_DATA {
            return Err(Error::Pdu(PduError::TooLong));
        }
        let i = self.frame_index(idx)?;
        let pdu = match Pdu::new(command, data_length, idx, data) {
            Ok(p) => p,
            Err(e) => return Err(Error::Pdu(e)),
        };
        match self.frames[i].replace(pdu) {
            Ok(()) => {},
            Err(e) => return Err(Error::Pdu(e)),
        }
        proof {
            self.lemma_view();
            assert(self@.states =~= old(self)@.states.update(i as int, FrameState::Created));
            assert(self@.pdus =~= old(self)@.pdus.update(i as int, self.frames@[i as int].pdu@));
        }
        Ok(idx)
    }

    /// Writes the frame of the request in slot `idx` into `buf` and hands
    /// the slot to the transmit path, returning the frame's length. Returns
    /// `None`, changing nothing, where the slot holds no request to send.
    /// Fails with `TooLong`, changing nothing, where `buf` is too short for
    /// the frame.
    pub fn take_for_send(&mut self, idx: u8, buf: &mut Vec<u8>) -> (r: Result<Option<usize>, Error>)
        requires
            old(self).wf(),
        ensures
            final(self).wf(),
            final(buf)@.len() == old(buf)@.len(),
            idx >= MAX_FRAMES ==> r == Err::<Option<usize>, Error>(Error::Pdu(PduError::InvalidIndex(idx)))
                && final(self)@ == old(self)@ && final(buf)@ == old(buf)@,
            idx < MAX_FRAMES ==> ({
                let i = idx as int;
                let frame = frame_bytes(old(self)@.pdus[i]);
                if old(self)@.states[i] != FrameState::Created {
                    r == Ok::<Option<usize>, Error>(None) && final(self)@ == old(self)@ && final(buf)@ == old(buf)@
                } else if old(buf)@.len() < frame.len() {
                    r == Err::<Option<usize>, Error>(Error::Pdu(PduError::TooLong)) && final(self)@ == old(self)@
                        && final(buf)@ == old(buf)@
                } else {
                    &&& r == Ok::<Option<usize>, Error>(Some(frame.len() as usize))
                    &&& final(buf)@.subrange(0, frame.len() as int) == frame
                    &&& final(buf)@.subrange(frame.len() as int, old(buf)@.len() as int) == old(buf)@.subrange(
                        frame.len() as int,
                        old(buf)@.len() as int,
                    )
                    &&& final(self)@ == (PoolView {
                        states: old(self)@.states.update(i, FrameState::Sending),
                        ..old(self)@
                    })
                }
            }),
    {
        proof {
            self.lemma_view();
        }
        let i = self.frame_index(idx)?;
        if self.frames[i].state != FrameState::Created {
            return Ok(None);
        }
        let n = match self.frames[i].pdu.to_ethernet_frame(buf) {
            Ok(n) => n,
            Err(e) => return Err(Error::Pdu(e)),
        };
        self.frames[i].mark_sending();
        proof {
            self.lemma_view();
            assert(self@.states =~= old(self)@.states.update(i as int, FrameState::Sending));
            assert(self@.pdus =~= old(self)@.pdus);
        }
        Ok(Some(n))
    }

    /// Records that the frame of slot `idx` went out: the slot now awaits
    /// its response. Fails, changing nothing, where the slot was not handed
    /// to the transmit path.
    pub fn mark_sent(&mut self, idx: u8) -> (r: Result<(), Error>)
        requires
            old(self).wf(),
        ensures
            final(self).wf(),
            idx >= MAX_FRAMES ==> r == Err::<(), Error>(Error::Pdu(PduError::InvalidIndex(idx))) && final(self)@
                == old(self)@,
            idx < MAX_FRAMES && old(self)@.states[idx as int] != FrameState::Sending ==> r == Err::<(), Error>(
                Error::Pdu(PduError::InvalidFrameState),
            ) && final(self)@ == old(self)@,
            idx < MAX_FRAMES && old(self)@.states[idx as int] == FrameState::Sending ==> r == Ok::<(), Error>(())
                && final(self)@ == (PoolView {
                states: old(self)@.states.update(idx as int, FrameState::Waiting),
                ..old(self)@
            }),
    {
        proof {
            self.lemma_view();
        }
        let i = self.frame_index(idx)?;
        match self.frames[i].mark_sent() {
            Ok(()) => {},
            Err(e) => {
                proof {
                    self.lemma_view();
                    assert(self@.states =~= old(self)@.states);
                    assert(self@.pdus =~= old(self)@.pdus);
                }
                return Err(Error::Pdu(e));
            },
        }
        proof {
            self.lemma_view();
            assert(self@.states =~= old(self)@.states.update(i as int, FrameState::Waiting));
            assert(self@.pdus =~= old(self)@.pdus);
        }
        Ok(())
    }

    /// The inbound demultiplexer. Frames of another ethertype, and the
    /// master's own frames looped back, are dropped without error. Otherwise
    /// the PDU is decoded, its slot found by index, its command code checked
    /// against the stored request, and the awaiting slot completed.
    pub fn pdu_rx(&mut self, ethernet_frame: &[u8]) -> (r: Result<(), Error>)
        requires
            old(self).wf(),
        ensures
            final(self).wf(),
            (r, final(self)@) == rx_outcome(old(self)@, ethernet_frame@, MAX_FRAMES as int),
    {
        proof {
            self.lemma_view();
        }
        if !ethernet_checked(ethernet_frame) {
            return Err(Error::Pdu(PduError::Ethernet));
        }
        let ethertype = ethernet_ethertype(ethernet_frame);
        let src = ethernet_src_addr(ethernet_frame);
        let own = master_addr_bytes();
        let from_self = src[0] == own[0] && src[1] == own[1] && src[2] == own[2] && src[3] == own[3]
            && src[4] == own[4] && src[5] == own[5];
        assert(from_self == (src@ == master_addr())) by {
            if from_self {
                assert(src@ =~= master_addr());
            }
        }
        if ethertype != ETHERCAT_ETHERTYPE || from_self {
            return Ok(());
        }
        let pdu = match decode_at(ethernet_frame, ETHERNET_HEADER_LEN) {
            Ok(p) => p,
            Err(e) => return Err(Error::Pdu(e)),
        };
        proof {
            lemma_decoded_wf(ethernet_frame@.subrange(ETHERNET_HEADER_LEN as int, ethernet_frame@.len() as int));
        }
        let i = self.frame_index(pdu.index)?;
        if pdu.command.code != self.frames[i].pdu.command.code {
            return Err(
                Error::Pdu(
                    PduError::Validation(
                        PduValidationError::CommandMismatch { sent: self.frames[i].pdu.command, received: pdu.command },
                    ),
                ),
            );
        }
        let Pdu { command: _, index: _, flags, irq, data, working_counter } = pdu;
        match self.frames[i].wake_done(flags, irq, data, working_counter) {
            Ok(()) => {},
            Err(e) => {
                proof {
                    self.lemma_view();
                    assert(self@.states =~= old(self)@.states);
                    assert(self@.pdus =~= old(self)@.pdus);
                }
                return Err(Error::Pdu(e));
            },
        }
        proof {
            self.lemma_view();
            assert(self@.states =~= old(self)@.states.update(i as int, FrameState::Done));
            assert(self@.pdus =~= old(self)@.pdus.update(i as int, self.frames@[i as int].pdu@));
        }
        Ok(())
    }

    /// One look at the exchange in slot `idx`, for a caller that waits on
    /// it: the response where it is recorded, a timeout where the deadline
    /// has passed first, `None` while it is still in flight. Where a result
    /// is handed out the slot is free again.
    pub fn poll_response(&mut self, idx: u8, deadline_passed: bool) -> (r: Option<Result<Pdu, Error>>)
        requires
            old(self).wf(),
        ensures
            final(self).wf(),
            idx >= MAX_FRAMES ==> r == Some(Err::<Pdu, Error>(Error::Pdu(PduError::InvalidIndex(idx))))
                && final(self)@ == old(self)@,
            idx < MAX_FRAMES ==> ({
                let i = idx as int;
                let freed = PoolView { states: old(self)@.states.update(i, FrameState::Empty), ..old(self)@ };
                if old(self)@.states[i] == FrameState::Done {
                    &&& r matches Some(Ok(p)) && p@ == old(self)@.pdus[i]
                    &&& final(self)@.states == freed.states
                    &&& final(self)@.next_index == old(self)@.next_index
                    &&& final(self)@.send_waker == old(self)@.send_waker
                    &&& forall|k: int| 0 <= k < MAX_FRAMES && k != i ==> final(self)@.pdus[k] == old(self)@.pdus[k]
                } else if deadline_passed {
                    r == Some(Err::<Pdu, Error>(Error::Timeout)) && final(self)@ == freed
                } else {
                    r.is_none() && final(self)@ == old(self)@
                }
            }),
    {
        proof {
            self.lemma_view();
        }
        let i = match self.frame_index(idx) {
            Ok(i) => i,
            Err(e) => return Some(Err(e)),
        };
        if let Some(p) = self.frames[i].take_response() {
            proof {
                self.lemma_view();
                assert(self@.states =~= old(self)@.states.update(i as int, FrameState::Empty));
            }
            return Some(Ok(p));
        }
        if deadline_passed {
            self.frames[i].release();
            proof {
                self.lemma_view();
                assert(self@.states =~= old(self)@.states.update(i as int, FrameState::Empty));
                assert(self@.pdus =~= old(self)@.pdus);
            }
            return Some(Err(Error::Timeout));
        }
        proof {
            self.lemma_view();
            assert(self@.states =~= old(self)@.states);
            assert(self@.pdus =~= old(self)@.pdus);
        }
        None
    }

    /// The slot position of a wire index.
    fn frame_index(&self, idx: u8) -> (r: Result<usize, Error>)
        requires
            self.wf(),
        ensures
            r.is_ok() == (idx < MAX_FRAMES),
            r matches Ok(i) ==> i == idx,
            r.is_err() ==> r == Err::<usize, Error>(Error::Pdu(PduError::InvalidIndex(idx))),
    {
        if (idx as usize) < MAX_FRAMES {
            Ok(idx as usize)
        } else {
            Err(Error::Pdu(PduError::InvalidIndex(idx)))
        }
    }
}

} // verus!
