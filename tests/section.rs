use ethercrab_core::error::Error;
use ethercrab_core::reader::{EepromSectionReader, ReadStep, Take};

/// Configuration memory: the byte at word address `a` is `a * 2`, the next
/// `a * 2 + 1`; a chunk is eight bytes.
fn chunk_at(address: u16) -> Vec<u8> {
    (0..8u16).map(|i| (address * 2 + i) as u8).collect()
}

fn next_byte(r: &mut EepromSectionReader) -> ReadStep {
    loop {
        match r.next() {
            ReadStep::Fetch(a) => r.refill(&chunk_at(a)).unwrap(),
            other => return other,
        }
    }
}

fn take(r: &mut EepromSectionReader, len: usize, capacity: usize) -> Result<Option<Vec<u8>>, Error> {
    let mut out = Vec::new();
    loop {
        match r.take_n_vec(&mut out, len, capacity)? {
            Take::Fetch(a) => r.refill(&chunk_at(a))?,
            Take::Complete => return Ok(Some(out)),
            Take::Short => return Ok(None),
        }
    }
}

#[test]
fn next_asks_for_a_chunk_first() {
    let mut r = EepromSectionReader::start_at(0x10, 4);
    assert_eq!(r.next(), ReadStep::Fetch(0x10));
    r.refill(&chunk_at(0x10)).unwrap();
    assert_eq!(r.address(), 0x14);
    assert_eq!(r.next(), ReadStep::Byte(0x20));
}

#[test]
fn next_stops_at_section_length() {
    let mut r = EepromSectionReader::new(0, 1);
    assert_eq!(next_byte(&mut r), ReadStep::Byte(0));
    assert_eq!(next_byte(&mut r), ReadStep::Byte(1));
    assert_eq!(next_byte(&mut r), ReadStep::End);
}

#[test]
fn try_next_reports_underrun_at_end() {
    let mut r = EepromSectionReader::start_at(0, 1);
    assert_eq!(r.try_next(), Ok(ReadStep::Fetch(0)));
    r.refill(&chunk_at(0)).unwrap();
    assert_eq!(r.try_next(), Ok(ReadStep::Byte(0)));
    assert_eq!(r.try_next(), Err(Error::EepromSectionUnderrun));
}

#[test]
fn refill_overrun_keeps_what_fits() {
    let mut r = EepromSectionReader::start_at(0, 20);
    assert_eq!(r.refill(&[1, 2, 3, 4, 5, 6, 7, 8, 9]), Err(Error::EepromSectionOverrun));
    assert_eq!(r.address(), 0);
    assert_eq!(r.next(), ReadStep::Byte(1));
}

#[test]
fn take_exact_bytes_across_chunks() {
    let mut r = EepromSectionReader::start_at(0, 64);
    let bytes = take(&mut r, 20, 20).unwrap().unwrap();
    let expected: Vec<u8> = (0..20u8).collect();
    assert_eq!(bytes, expected);
}

#[test]
fn take_with_small_capacity_is_overrun() {
    let mut r = EepromSectionReader::start_at(0, 64);
    assert_eq!(take(&mut r, 10, 4), Err(Error::EepromSectionOverrun));
    let mut out = Vec::new();
    assert_eq!(r.take_n_vec(&mut out, 10, 9), Err(Error::EepromSectionOverrun));
    assert!(out.is_empty());
}

#[test]
fn take_past_section_end_is_insufficient_data() {
    let mut r = EepromSectionReader::start_at(0, 6);
    assert_eq!(take(&mut r, 10, 10), Ok(None));
}

#[test]
fn take_exact_past_end_is_underrun() {
    let mut r = EepromSectionReader::start_at(0, 3);
    let mut out = Vec::new();
    assert_eq!(r.take_n_vec_exact(&mut out, 4, 4), Ok(Take::Fetch(0)));
    r.refill(&chunk_at(0)).unwrap();
    assert_eq!(r.take_n_vec_exact(&mut out, 4, 4), Err(Error::EepromSectionUnderrun));
    assert_eq!(out, vec![0, 1, 2]);
}

#[test]
fn take_vec_takes_n() {
    let mut r = EepromSectionReader::start_at(0, 64);
    r.refill(&chunk_at(0)).unwrap();
    let mut out = Vec::new();
    assert_eq!(r.take_vec::<3>(&mut out), Ok(Take::Complete));
    assert_eq!(out, vec![0, 1, 2]);
    let mut more = Vec::new();
    assert_eq!(r.take_vec_exact::<2>(&mut more), Ok(Take::Complete));
    assert_eq!(more, vec![3, 4]);
}

#[test]
fn skip_discards_bytes() {
    let mut r = EepromSectionReader::start_at(0, 64);
    let mut remaining: u16 = 10;
    while let Some(a) = r.skip(&mut remaining) {
        r.refill(&chunk_at(a)).unwrap();
    }
    assert_eq!(remaining, 0);
    assert_eq!(next_byte(&mut r), ReadStep::Byte(10));
}

#[test]
fn exhausted_section_ends_without_a_read() {
    let mut r = EepromSectionReader::start_at(0x20, 0);
    assert_eq!(r.next(), ReadStep::End);
    assert_eq!(r.next(), ReadStep::End);
}

#[test]
fn empty_chunk_is_underrun() {
    let mut r = EepromSectionReader::start_at(0x20, 4);
    assert_eq!(r.refill(&[]), Err(Error::EepromSectionUnderrun));
    assert_eq!(r.next(), ReadStep::Fetch(0x20));
}

#[test]
fn skip_stops_at_section_end() {
    let mut r = EepromSectionReader::start_at(0, 3);
    let mut remaining: u16 = 10;
    while let Some(a) = r.skip(&mut remaining) {
        r.refill(&chunk_at(a)).unwrap();
    }
    assert_eq!(remaining, 0);
    assert_eq!(r.next(), ReadStep::End);
}
