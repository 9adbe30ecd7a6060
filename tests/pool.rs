use std::sync::Arc;
use std::task::{Wake, Waker};

use ethercrab_core::command::Command;
use ethercrab_core::error::{Error, PduError, PduValidationError};
use ethercrab_core::pdu_loop::{CheckWorkingCounter, PduLoop};

struct NoWake;

impl Wake for NoWake {
    fn wake(self: Arc<Self>) {}
}

fn waker() -> Waker {
    Waker::from(Arc::new(NoWake))
}

type Pool = PduLoop<16, 64>;

/// Sends the request in slot `idx` and returns the frame that went out.
fn send(pool: &mut Pool, idx: u8) -> Vec<u8> {
    let mut buf = vec![0u8; 128];
    let n = pool.take_for_send(idx, &mut buf).unwrap().unwrap();
    pool.mark_sent(idx).unwrap();
    buf.truncate(n);
    buf
}

/// Turns a sent frame into the response a device gives: another source
/// address, the payload replaced and the working counter set.
fn answer(sent: &[u8], data: &[u8], wkc: u16) -> Vec<u8> {
    let mut f = sent.to_vec();
    for b in &mut f[6..12] {
        *b = 0x02;
    }
    let start = 14 + 2 + 10;
    f[start..start + data.len()].copy_from_slice(data);
    let w = start + data.len();
    f[w] = (wkc & 0xff) as u8;
    f[w + 1] = (wkc >> 8) as u8;
    f
}

#[test]
fn read_request_returns_response_bytes_and_working_counter() {
    let mut pool = Pool::new();
    let idx = pool.pdu_tx(Command::fprd(0x1001, 0x0130), &[], 2).unwrap();
    let sent = send(&mut pool, idx);
    let resp = answer(&sent, &[0x34, 0x12], 1);
    assert_eq!(pool.pdu_rx(&resp), Ok(()));
    let pdu = pool.poll_response(idx, false).unwrap().unwrap();
    assert_eq!(pdu.data(), &[0x34, 0x12]);
    assert_eq!(pdu.working_counter(), 1);
    assert_eq!(pdu.index(), idx);
}

#[test]
fn unanswered_request_times_out_and_index_comes_round_again() {
    let mut pool = Pool::new();
    let first = pool.pdu_tx(Command::fprd(1, 0x0130), &[], 2).unwrap();
    send(&mut pool, first);
    assert!(pool.poll_response(first, false).is_none());
    assert_eq!(pool.poll_response(first, true).unwrap().unwrap_err(), Error::Timeout);
    let mut last = first;
    for _ in 0..16 {
        last = pool.pdu_tx(Command::fprd(1, 0x0130), &[], 2).unwrap();
    }
    assert_eq!(last, first);
}

#[test]
fn allocation_is_round_robin() {
    let mut pool = Pool::new();
    for expected in 0..16u8 {
        assert_eq!(pool.pdu_tx(Command::brd(0), &[], 1).unwrap(), expected);
    }
}

#[test]
fn store_fails_on_slot_in_flight() {
    let mut pool = Pool::new();
    for _ in 0..16 {
        pool.pdu_tx(Command::brd(0), &[], 1).unwrap();
    }
    assert_eq!(pool.pdu_tx(Command::brd(0), &[], 1), Err(Error::Pdu(PduError::InvalidFrameState)));
}

#[test]
fn store_fails_until_recorded_response_is_taken() {
    let mut pool = PduLoop::<1, 64>::new();
    let idx = pool.pdu_tx(Command::brd(0), &[], 1).unwrap();
    let mut buf = vec![0u8; 64];
    let n = pool.take_for_send(idx, &mut buf).unwrap().unwrap();
    pool.mark_sent(idx).unwrap();
    assert_eq!(pool.pdu_rx(&answer(&buf[..n], &[9], 3)), Ok(()));
    assert_eq!(pool.pdu_tx(Command::fprd(1, 2), &[], 1), Err(Error::Pdu(PduError::InvalidFrameState)));
    let resp = pool.poll_response(idx, false).unwrap().unwrap();
    assert_eq!(resp.data(), &[9]);
    assert_eq!(resp.working_counter(), 3);
    assert_eq!(pool.pdu_tx(Command::brd(0), &[], 1), Ok(0));
}

#[test]
fn payload_larger_than_slot_is_too_long() {
    let mut pool = PduLoop::<4, 8>::new();
    assert_eq!(pool.pdu_tx(Command::lwr(0), &[0; 9], 9), Err(Error::Pdu(PduError::TooLong)));
}

#[test]
fn foreign_ethertype_is_dropped() {
    let mut pool = Pool::new();
    let idx = pool.pdu_tx(Command::fprd(1, 2), &[], 2).unwrap();
    let sent = send(&mut pool, idx);
    let mut resp = answer(&sent, &[1, 2], 1);
    resp[12] = 0x08;
    resp[13] = 0x00;
    assert_eq!(pool.pdu_rx(&resp), Ok(()));
    assert!(pool.poll_response(idx, false).is_none());
}

#[test]
fn own_looped_back_frame_is_dropped() {
    let mut pool = Pool::new();
    let idx = pool.pdu_tx(Command::fprd(1, 2), &[], 2).unwrap();
    let sent = send(&mut pool, idx);
    assert_eq!(pool.pdu_rx(&sent), Ok(()));
    assert!(pool.poll_response(idx, false).is_none());
}

#[test]
fn short_ethernet_frame_is_an_error() {
    let mut pool = Pool::new();
    assert_eq!(pool.pdu_rx(&[0u8; 13]), Err(Error::Pdu(PduError::Ethernet)));
}

#[test]
fn index_without_slot_is_invalid() {
    let mut pool = PduLoop::<256, 64>::new();
    for _ in 0..21 {
        pool.pdu_tx(Command::fprd(1, 2), &[], 2).unwrap();
    }
    let mut buf = vec![0u8; 64];
    let n = pool.take_for_send(20, &mut buf).unwrap().unwrap();
    pool.mark_sent(20).unwrap();
    let sent = buf[..n].to_vec();
    let mut small = PduLoop::<16, 64>::new();
    let resp = answer(&sent, &[1, 2], 1);
    assert_eq!(small.pdu_rx(&resp), Err(Error::Pdu(PduError::InvalidIndex(20))));
}

#[test]
fn response_with_other_command_is_a_validation_error() {
    let mut pool = Pool::new();
    let idx = pool.pdu_tx(Command::fprd(1, 2), &[], 2).unwrap();
    let sent = send(&mut pool, idx);
    let mut resp = answer(&sent, &[1, 2], 1);
    resp[16] = 5;
    assert_eq!(
        pool.pdu_rx(&resp),
        Err(Error::Pdu(PduError::Validation(PduValidationError::CommandMismatch {
            sent: Command::fprd(1, 2),
            received: Command::fpwr(1, 2),
        })))
    );
    assert!(pool.poll_response(idx, false).is_none());
}

#[test]
fn response_to_unsent_slot_is_rejected() {
    let mut pool = Pool::new();
    let idx = pool.pdu_tx(Command::fprd(1, 2), &[], 2).unwrap();
    let mut buf = vec![0u8; 64];
    let n = pool.take_for_send(idx, &mut buf).unwrap().unwrap();
    let resp = answer(&buf[..n], &[1, 2], 1);
    assert_eq!(pool.pdu_rx(&resp), Err(Error::Pdu(PduError::InvalidFrameState)));
}

#[test]
fn duplicate_response_is_rejected() {
    let mut pool = Pool::new();
    let idx = pool.pdu_tx(Command::fprd(1, 2), &[], 2).unwrap();
    let sent = send(&mut pool, idx);
    let resp = answer(&sent, &[1, 2], 1);
    assert_eq!(pool.pdu_rx(&resp), Ok(()));
    assert_eq!(pool.pdu_rx(&resp), Err(Error::Pdu(PduError::InvalidFrameState)));
}

#[test]
fn malformed_pdu_is_a_decode_error() {
    let mut pool = Pool::new();
    let idx = pool.pdu_tx(Command::fprd(1, 2), &[], 2).unwrap();
    let sent = send(&mut pool, idx);
    let mut resp = answer(&sent, &[1, 2], 1);
    resp[16] = 0x40;
    assert_eq!(pool.pdu_rx(&resp), Err(Error::Pdu(PduError::UnknownCommand(0x40))));
}

#[test]
fn take_for_send_skips_slots_without_request() {
    let mut pool = Pool::new();
    let mut buf = vec![0u8; 64];
    assert_eq!(pool.take_for_send(3, &mut buf), Ok(None));
    assert_eq!(pool.take_for_send(16, &mut buf), Err(Error::Pdu(PduError::InvalidIndex(16))));
    let idx = pool.pdu_tx(Command::fprd(1, 2), &[], 2).unwrap();
    let mut small = vec![0u8; 10];
    assert_eq!(pool.take_for_send(idx, &mut small), Err(Error::Pdu(PduError::TooLong)));
    assert_eq!(pool.take_for_send(idx, &mut buf), Ok(Some(30)));
    assert_eq!(pool.take_for_send(idx, &mut buf), Ok(None));
}

#[test]
fn mark_sent_needs_a_sending_slot() {
    let mut pool = Pool::new();
    assert_eq!(pool.mark_sent(0), Err(Error::Pdu(PduError::InvalidFrameState)));
    assert_eq!(pool.mark_sent(40), Err(Error::Pdu(PduError::InvalidIndex(40))));
}

#[test]
fn send_waker_is_kept_once() {
    let mut pool = Pool::new();
    assert!(pool.take_send_waker().is_none());
    pool.set_send_waker(&waker());
    pool.set_send_waker(&waker());
    assert!(pool.take_send_waker().is_some());
    assert!(pool.take_send_waker().is_none());
}

#[test]
fn working_counter_check() {
    assert_eq!((5u8, 1u16).wkc(1, "read"), Ok(5u8));
    assert_eq!(
        (0xabu8, 2u16).wkc(1, "ctx"),
        Err(Error::WorkingCounter { expected: 1, received: 2, context: Some("ctx") })
    );
}
