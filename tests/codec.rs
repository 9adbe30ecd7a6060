use ethercrab_core::command::{Command, CommandCode};
use ethercrab_core::error::{PduError, PduValidationError};
use ethercrab_core::pdu::{Pdu, PduFlags};

#[test]
fn flags_pack_exact_values() {
    assert_eq!(PduFlags::with_len(2).pack(), 0x0002);
    let f = PduFlags { length: 0x7ff, circulated: true, is_not_last: true };
    assert_eq!(f.pack(), 0xc7ff);
    let g = PduFlags { length: 3, circulated: true, is_not_last: false };
    assert_eq!(g.pack(), 0x4003);
}

#[test]
fn flags_unpack_then_pack_is_identity() {
    for v in 0..=u16::MAX {
        if v & 0x3800 == 0 {
            assert_eq!(PduFlags::unpack(v).pack(), v);
        }
    }
}

#[test]
fn flags_pack_then_unpack_is_identity() {
    for len in 0..=0x7ffu16 {
        for (c, m) in [(false, false), (true, false), (false, true), (true, true)] {
            let f = PduFlags { length: len, circulated: c, is_not_last: m };
            assert_eq!(PduFlags::unpack(f.pack()), f);
        }
    }
}

#[test]
fn flags_unpack_ignores_reserved_bits() {
    let f = PduFlags::unpack(0x3805);
    assert_eq!(f, PduFlags { length: 5, circulated: false, is_not_last: false });
}

#[test]
fn command_codes_round_trip() {
    for b in 0..=255u8 {
        match CommandCode::from_code(b) {
            Some(c) => assert_eq!(c.code(), b),
            None => assert!(b > 14),
        }
    }
    assert!(CommandCode::Lrw.is_logical());
    assert!(!CommandCode::Fprd.is_logical());
}

#[test]
fn physical_command_address_layout() {
    let c = Command::fprd(0x1001, 0x0130);
    assert_eq!(c.address, 0x0130_1001);
    assert_eq!(c.code(), CommandCode::Fprd);
    assert_eq!(Command::brd(0x0010).address, 0x0010_0000);
    assert_eq!(Command::lrw(0x0001_0000).address, 0x0001_0000);
}

#[test]
fn new_pads_payload_with_zeros() {
    let p = Pdu::new(Command::fpwr(1, 2), 4, 7, &[9, 8]).unwrap();
    assert_eq!(p.data(), &[9, 8, 0, 0]);
    assert_eq!(p.flags.length(), 4);
    assert_eq!(p.index(), 7);
    assert_eq!(p.working_counter(), 0);
    assert_eq!(p.frame_buf_len(), 4 + 12 + 2);
}

#[test]
fn new_rejects_data_longer_than_length() {
    assert_eq!(Pdu::new(Command::fpwr(1, 2), 1, 0, &[1, 2]).unwrap_err(), PduError::TooLong);
    assert_eq!(Pdu::new(Command::lrd(0), 2036, 0, &[]).unwrap_err(), PduError::TooLong);
    assert!(Pdu::new(Command::lrd(0), 2035, 0, &[]).is_ok());
}

#[test]
fn nop_is_empty() {
    let p = Pdu::nop();
    assert_eq!(p.command(), Command::nop());
    assert_eq!(p.data().len(), 0);
}

#[test]
fn encode_writes_exact_frame() {
    let p = Pdu::new(Command::fprd(0x1001, 0x0130), 2, 5, &[0xaa]).unwrap();
    let mut buf = vec![0x55u8; 40];
    let n = p.to_ethernet_frame(&mut buf).unwrap();
    assert_eq!(n, 30);
    let expected: Vec<u8> = vec![
        0xff, 0xff, 0xff, 0xff, 0xff, 0xff, // broadcast destination
        0x10, 0x10, 0x10, 0x10, 0x10, 0x10, // master source
        0x88, 0xa4, // ethertype
        0x0e, 0x10, // frame header: 14 bytes, PDU type
        0x04, 0x05, // command code, index
        0x01, 0x10, 0x30, 0x01, // address
        0x02, 0x00, // flags
        0x00, 0x00, // irq
        0xaa, 0x00, // payload
        0x00, 0x00, // working counter
    ];
    assert_eq!(&buf[..n], &expected[..]);
    assert!(buf[n..].iter().all(|b| *b == 0x55));
}

#[test]
fn encode_fails_on_short_buffer() {
    let p = Pdu::new(Command::fprd(1, 2), 2, 0, &[]).unwrap();
    let mut buf = vec![7u8; 29];
    assert_eq!(p.to_ethernet_frame(&mut buf), Err(PduError::TooLong));
    assert_eq!(buf, vec![7u8; 29]);
}

#[test]
fn encode_then_decode_round_trips() {
    let p = Pdu::new(Command::lrw(0x0001_0203), 3, 200, &[1, 2, 3]).unwrap();
    let mut buf = vec![0u8; 64];
    let n = p.to_ethernet_frame(&mut buf).unwrap();
    let d = Pdu::from_ethernet_payload(&buf[14..n]).unwrap();
    assert_eq!(d.command(), p.command());
    assert_eq!(d.index(), 200);
    assert_eq!(d.flags, p.flags);
    assert_eq!(d.irq, 0);
    assert_eq!(d.data(), &[1, 2, 3]);
    assert_eq!(d.working_counter(), 0);
}

#[test]
fn decode_ignores_trailing_bytes() {
    let p = Pdu::new(Command::brd(0x0130), 2, 1, &[4, 5]).unwrap();
    let mut buf = vec![0u8; 64];
    let n = p.to_ethernet_frame(&mut buf).unwrap();
    let d = Pdu::from_ethernet_payload(&buf[14..n + 10]).unwrap();
    assert_eq!(d.data(), &[4, 5]);
}

#[test]
fn decode_reports_truncated_header() {
    assert_eq!(Pdu::from_ethernet_payload(&[]).unwrap_err(), PduError::TruncatedHeader);
    assert_eq!(Pdu::from_ethernet_payload(&[0x0c]).unwrap_err(), PduError::TruncatedHeader);
}

#[test]
fn decode_reports_truncated_pdu() {
    // The header announces 12 bytes, five follow.
    assert_eq!(Pdu::from_ethernet_payload(&[0x0c, 0x10, 4, 0, 0, 0, 0]).unwrap_err(), PduError::Truncated);
    // The flags announce more payload than the region holds.
    let b = [0x0c, 0x10, 4, 0, 0, 0, 0, 0, 0x05, 0x00, 0, 0, 0, 0];
    assert_eq!(Pdu::from_ethernet_payload(&b).unwrap_err(), PduError::Truncated);
}

#[test]
fn decode_reports_unknown_command() {
    let b = [0x0c, 0x10, 0x20, 0, 0, 0, 0, 0, 0, 0, 0, 0, 0, 0];
    assert_eq!(Pdu::from_ethernet_payload(&b).unwrap_err(), PduError::UnknownCommand(0x20));
}

#[test]
fn response_with_other_index_is_rejected() {
    let req = Pdu::new(Command::fprd(1, 2), 2, 3, &[]).unwrap();
    let resp = Pdu::new(Command::fprd(1, 2), 2, 4, &[7, 7]).unwrap();
    assert_eq!(
        resp.is_response_to(&req),
        Err(PduValidationError::IndexMismatch { sent: req.command(), received: resp.command() })
    );
}

#[test]
fn response_with_other_command_is_rejected() {
    let req = Pdu::new(Command::fprd(1, 2), 2, 3, &[]).unwrap();
    let resp = Pdu::new(Command::fpwr(1, 2), 2, 3, &[]).unwrap();
    assert_eq!(
        resp.is_response_to(&req),
        Err(PduValidationError::CommandMismatch { sent: req.command(), received: resp.command() })
    );
}

#[test]
fn matching_response_is_accepted() {
    let req = Pdu::new(Command::fprd(1, 2), 2, 3, &[]).unwrap();
    let resp = Pdu::new(Command::fprd(9, 9), 2, 3, &[1, 1]).unwrap();
    assert_eq!(resp.is_response_to(&req), Ok(()));
}
