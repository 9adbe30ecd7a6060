use vstd::prelude::*;
use crate::bytes::{le16, le16_bytes, le32, le32_bytes, lemma_le16_round_trip, lemma_le32_round_trip, push_le16, push_le32, read_le16, read_le32};
use crate::command::{lemma_code_round_trip, Command, CommandCode};
use crate::error::{PduError, PduValidationError};
use crate::ethernet::{
    ethernet_header, ethernet_set_dst_addr, ethernet_set_ethertype, ethernet_set_src_addr, ETHERNET_HEADER_LEN,
};

verus! {

/// Mask of the 11-bit length fields of the frame header and of the flags.
pub const LEN_MASK: u16 = 0x7ff;

/// The ethertype reserved for the protocol.
pub const ETHERCAT_ETHERTYPE: u16 = 0x88a4;

/// Bytes that a PDU adds around its payload: command code, index, address,
/// flags, IRQ and working counter.
pub const PDU_OVERHEAD: usize = 12;

/// Bytes of the frame header that precedes the PDU.
pub const FRAME_HEADER_LEN: usize = 2;

/// The longest payload a PDU can carry: the frame header's 11-bit length
/// must hold the payload and the PDU overhead.
pub const MAX_PDU_DATA_LEN: usize = 2035;

/// The broadcast address every frame is sent to.
pub open spec fn broadcast_addr() -> Seq<u8> {
    seq![0xffu8, 0xffu8, 0xffu8, 0xffu8, 0xffu8, 0xffu8]
}

fn broadcast_addr_bytes() -> (r: [u8; 6])
    ensures
        r@ == broadcast_addr(),
{
    let r: [u8; 6] = [0xff, 0xff, 0xff, 0xff, 0xff, 0xff];
    assert(r@ =~= broadcast_addr());
    r
}

/// The source address the master sends from.
pub open spec fn master_addr() -> Seq<u8> {
    seq![0x10u8, 0x10u8, 0x10u8, 0x10u8, 0x10u8, 0x10u8]
}

pub fn master_addr_bytes() -> (r: [u8; 6])
    ensures
        r@ == master_addr(),
{
    let r: [u8; 6] = [0x10, 0x10, 0x10, 0x10, 0x10, 0x10];
    assert(r@ =~= master_addr());
    r
}

/// The frame header word for a PDU region of `len` bytes: the length in the
/// low 11 bits and the PDU type in the high four.
pub open spec fn header_bits(len: u16) -> u16 {
    ((len & LEN_MASK) | 0x1000u16) as u16
}

/// The length of the PDU region that a frame header word announces.
pub open spec fn header_payload_len(raw: u16) -> u16 {
    (raw & LEN_MASK) as u16
}

/// Flags of a PDU: 11 bits of payload length, the circulated bit (14) and
/// the more-PDUs-follow bit (15), sent as one little-endian word.
#[derive(Debug, Clone, Copy, PartialEq, Eq, Structural)]
pub struct PduFlags {
    pub length: u16,
    pub circulated: bool,
    pub is_not_last: bool,
}

impl PduFlags {
    pub open spec fn spec_pack(self) -> u16 {
        ((self.length & LEN_MASK) | (if self.circulated { 0x4000u16 } else { 0u16 }) | (if self.is_not_last {
            0x8000u16
        } else {
            0u16
        })) as u16
    }

    pub open spec fn spec_unpack(v: u16) -> PduFlags {
        PduFlags {
            length: (v & LEN_MASK) as u16,
            circulated: v & 0x4000u16 == 0x4000u16,
            is_not_last: v & 0x8000u16 == 0x8000u16,
        }
    }

    pub fn with_len(len: u16) -> (r: PduFlags)
        ensures
            r == (PduFlags { length: len, circulated: false, is_not_last: false }),
    {
        PduFlags { length: len, circulated: false, is_not_last: false }
    }

    pub fn length(&self) -> (r: u16)
        ensures
            r == self.length,
    {
        self.length
    }

    /// The flags as their wire word; a length beyond 11 bits is cut to them.
    pub fn pack(&self) -> (r: u16)
        ensures
            r == self.spec_pack(),
    {
        let c: u16 = if self.circulated { 0x4000 } else { 0 };
        let m: u16 = if self.is_not_last { 0x8000 } else { 0 };
        (self.length & LEN_MASK) | c | m
    }

    /// The flags that a wire word holds; bits 11 to 13 are reserved and
    /// ignored.
    pub fn unpack(v: u16) -> (r: PduFlags)
        ensures
            r == Self::spec_unpack(v),
    {
        PduFlags { length: v & LEN_MASK, circulated: v & 0x4000 == 0x4000, is_not_last: v & 0x8000 == 0x8000 }
    }
}

/// Packing then unpacking flags gives them back, for every length that the
/// 11-bit field holds.
pub proof fn lemma_flags_pack_unpack(f: PduFlags)
    requires
        f.length <= LEN_MASK,
    ensures
        PduFlags::spec_unpack(f.spec_pack()) == f,
{
    let l = f.length;
    let c: u16 = if f.circulated { 0x4000u16 } else { 0u16 };
    let m: u16 = if f.is_not_last { 0x8000u16 } else { 0u16 };
    assert((c == 0 || c == 0x4000u16) && (m == 0 || m == 0x8000u16) && l <= 0x7ffu16 ==> ((((l
        & 0x7ffu16) | c | m) & 0x7ffu16) == l && ((((l & 0x7ffu16) | c | m) & 0x4000u16 == 0x4000u16)
        == (c == 0x4000u16)) && ((((l & 0x7ffu16) | c | m) & 0x8000u16 == 0x8000u16) == (m
        == 0x8000u16)))) by (bit_vector);
}

/// Unpacking then packing a 16-bit word gives it back, for every word whose
/// reserved bits 11 to 13 are clear.
pub proof fn lemma_flags_unpack_pack(v: u16)
    requires
        v & 0x3800u16 == 0,
    ensures
        PduFlags::spec_unpack(v).spec_pack() == v,
{
    assert(v & 0x3800u16 == 0 ==> ((((v & 0x7ffu16) & 0x7ffu16) | (if v & 0x4000u16 == 0x4000u16 {
        0x4000u16
    } else {
        0u16
    }) | (if v & 0x8000u16 == 0x8000u16 {
        0x8000u16
    } else {
        0u16
    })) == v)) by (bit_vector);
}

/// The mathematical content of a PDU.
pub struct PduView {
    pub command: Command,
    pub index: u8,
    pub flags: PduFlags,
    pub irq: u16,
    pub data: Seq<u8>,
    pub working_counter: u16,
}

impl PduView {
    /// The flags' length is the payload's, and the payload fits the frame
    /// header's length field together with the PDU overhead.
    pub open spec fn wf(self) -> bool {
        self.flags.length == self.data.len() && self.data.len() <= MAX_PDU_DATA_LEN
    }
}

/// The bytes of one PDU on the wire; the working counter is sent as zero.
pub open spec fn pdu_bytes(p: PduView) -> Seq<u8> {
    seq![p.command.code.spec_code(), p.index] + le32_bytes(p.command.address) + le16_bytes(
        p.flags.spec_pack(),
    ) + le16_bytes(p.irq) + p.data + seq![0u8, 0u8]
}

/// The Ethernet payload that carries one PDU: frame header, then the PDU.
pub open spec fn payload_bytes(p: PduView) -> Seq<u8> {
    le16_bytes(header_bits((p.data.len() + PDU_OVERHEAD) as u16)) + pdu_bytes(p)
}

/// The whole Ethernet frame that carries one PDU.
pub open spec fn frame_bytes(p: PduView) -> Seq<u8> {
    ethernet_header(broadcast_addr(), master_addr(), ETHERCAT_ETHERTYPE) + payload_bytes(p)
}

/// What decoding one PDU from the bytes of its region gives.
pub open spec fn decode_pdu_spec(q: Seq<u8>) -> Result<PduView, PduError> {
    if q.len() < 1 {
        Err(PduError::Truncated)
    } else {
        match CommandCode::spec_from_code(q[0]) {
            None => Err(PduError::UnknownCommand(q[0])),
            Some(code) => {
                if q.len() < 10 {
                    Err(PduError::Truncated)
                } else {
                    let flags = PduFlags::spec_unpack(le16(q[6], q[7]));
                    let n = flags.length as int;
                    if q.len() < 12 + n {
                        Err(PduError::Truncated)
                    } else {
                        Ok(
                            PduView {
                                command: Command { code, address: le32(q[2], q[3], q[4], q[5]) },
                                index: q[1],
                                flags,
                                irq: le16(q[8], q[9]),
                                data: q.subrange(10, 10 + n),
                                working_counter: le16(q[10 + n], q[11 + n]),
                            },
                        )
                    }
                }
            },
        }
    }
}

/// What decoding an Ethernet payload gives: the frame header, then one PDU
/// from the region it announces; bytes after that region are ignored.
pub open spec fn decode_spec(b: Seq<u8>) -> Result<PduView, PduError> {
    if b.len() < 2 {
        Err(PduError::TruncatedHeader)
    } else {
        let plen = header_payload_len(le16(b[0], b[1])) as int;
        if b.len() < 2 + plen {
            Err(PduError::Truncated)
        } else {
            decode_pdu_spec(b.subrange(2, 2 + plen))
        }
    }
}

/// Encoding a well-formed PDU and decoding the bytes gives back every field;
/// the working counter comes back as zero, which is what is sent.
pub proof fn lemma_encode_decode(p: PduView)
    requires
        p.wf(),
    ensures
        decode_spec(payload_bytes(p)) == Ok::<PduView, PduError>(PduView { working_counter: 0, ..p }),
{
    let n = p.data.len() as int;
    let len16 = (n + PDU_OVERHEAD) as u16;
    let q = pdu_bytes(p);
    let b = payload_bytes(p);
    assert(q.len() == 12 + n);
    lemma_le16_round_trip(header_bits(len16));
    assert(len16 <= 0x7ffu16 ==> ((((len16 & 0x7ffu16) | 0x1000u16) as u16) & 0x7ffu16) == len16) by (bit_vector);
    assert(header_payload_len(le16(b[0], b[1])) == len16);
    assert(b.subrange(2, 2 + 12 + n) =~= q);
    lemma_code_round_trip(p.command.code);
    lemma_le32_round_trip(p.command.address);
    lemma_le16_round_trip(p.flags.spec_pack());
    lemma_le16_round_trip(p.irq);
    lemma_flags_pack_unpack(p.flags);
    let a = le32_bytes(p.command.address);
    let f = le16_bytes(p.flags.spec_pack());
    let i = le16_bytes(p.irq);
    assert(q[0] == p.command.code.spec_code() && q[1] == p.index);
    assert(q[2] == a[0] && q[3] == a[1] && q[4] == a[2] && q[5] == a[3]);
    assert(q[6] == f[0] && q[7] == f[1] && q[8] == i[0] && q[9] == i[1]);
    assert(q[10 + n] == 0u8 && q[11 + n] == 0u8);
    assert(le16(0u8, 0u8) == 0u16) by (bit_vector);
    assert(q.subrange(10, 10 + n) =~= p.data);
}

/// A PDU that decodes from an Ethernet payload is well formed: its flags'
/// length is its payload's, which fits a PDU.
pub proof fn lemma_decoded_wf(b: Seq<u8>)
    requires
        decode_spec(b) is Ok,
    ensures
        decode_spec(b)->Ok_0.wf(),
{
    let raw = le16(b[0], b[1]);
    assert((raw & 0x7ffu16) <= 0x7ffu16) by (bit_vector);
}

/// The check that a response answers a request.
pub open spec fn response_check(response: PduView, request: PduView) -> Result<(), PduValidationError> {
    if request.index != response.index {
        Err(PduValidationError::IndexMismatch { sent: request.command, received: response.command })
    } else if request.command.code != response.command.code {
        Err(PduValidationError::CommandMismatch { sent: request.command, received: response.command })
    } else {
        Ok(())
    }
}

/// A response with another index or another command code than the request
/// is rejected, whatever else it carries.
pub proof fn lemma_mismatch_rejected(response: PduView, request: PduView)
    requires
        response.index != request.index || response.command.code != request.command.code,
    ensures
        response_check(response, request) is Err,
{
}

pub open spec fn zeros(n: nat) -> Seq<u8> {
    Seq::new(n, |i: int| 0u8)
}

/// One exchange unit: a command, the index that pairs a response with its
/// request, flags, an IRQ field, the payload and the working counter.
#[derive(Debug)]
pub struct Pdu {
    pub command: Command,
    pub index: u8,
    pub flags: PduFlags,
    pub irq: u16,
    pub data: Vec<u8>,
    pub working_counter: u16,
}

impl View for Pdu {
    type V = PduView;

    open spec fn view(&self) -> PduView {
        PduView {
            command: self.command,
            index: self.index,
            flags: self.flags,
            irq: self.irq,
            data: self.data@,
            working_counter: self.working_counter,
        }
    }
}

fn copy_range(b: &[u8], lo: usize, hi: usize, out: &mut Vec<u8>)
    requires
        lo <= hi <= b@.len(),
    ensures
        final(out)@ == old(out)@ + b@.subrange(lo as int, hi as int),
{
    let mut i: usize = lo;
    while i < hi
        invariant
            lo <= i <= hi <= b@.len(),
            out@ == old(out)@ + b@.subrange(lo as int, i as int),
        decreases hi - i,
    {
        out.push(b[i]);
        i = i + 1;
        assert(out@ =~= old(out)@ + b@.subrange(lo as int, i as int));
    }
}

/// Decodes the PDU whose region is `b[lo..hi]`.
fn decode_pdu_at(b: &[u8], lo: usize, hi: usize) -> (r: Result<Pdu, PduError>)
    requires
        lo <= hi <= b@.len(),
    ensures
        match r {
            Ok(p) => decode_pdu_spec(b@.subrange(lo as int, hi as int)) == Ok::<PduView, PduError>(p@),
            Err(e) => decode_pdu_spec(b@.subrange(lo as int, hi as int)) == Err::<PduView, PduError>(e),
        },
{
    let ghost q = b@.subrange(lo as int, hi as int);
    let n = hi - lo;
    if n < 1 {
        return Err(PduError::Truncated);
    }
    assert(q[0] == b@[lo as int]);
    let code = match CommandCode::from_code(b[lo]) {
        None => return Err(PduError::UnknownCommand(b[lo])),
        Some(c) => c,
    };
    if n < 10 {
        return Err(PduError::Truncated);
    }
    let index = b[lo + 1];
    let address = read_le32(b, lo + 2);
    let flags = PduFlags::unpack(read_le16(b, lo + 6));
    let irq = read_le16(b, lo + 8);
    let len = flags.length as usize;
    assert(q[6] == b@[lo + 6] && q[7] == b@[lo + 7]);
    if n < 12 + len {
        return Err(PduError::Truncated);
    }
    let mut data: Vec<u8> = Vec::new();
    copy_range(b, lo + 10, lo + 10 + len, &mut data);
    let working_counter = read_le16(b, lo + 10 + len);
    let p = Pdu { command: Command { code, address }, index, flags, irq, data, working_counter };
    assert(q[1] == b@[lo + 1] && q[2] == b@[lo + 2] && q[3] == b@[lo + 3] && q[4] == b@[lo + 4] && q[5]
        == b@[lo + 5] && q[8] == b@[lo + 8] && q[9] == b@[lo + 9]);
    assert(q[10 + len] == b@[lo + 10 + len] && q[11 + len] == b@[lo + 11 + len]);
    assert(p.data@ =~= q.subrange(10, 10 + len));
    Ok(p)
}

/// Decodes the Ethernet payload `b[start..]`.
pub(crate) fn decode_at(b: &[u8], start: usize) -> (r: Result<Pdu, PduError>)
    requires
        start <= b@.len(),
    ensures
        match r {
            Ok(p) => decode_spec(b@.subrange(start as int, b@.len() as int)) == Ok::<PduView, PduError>(p@),
            Err(e) => decode_spec(b@.subrange(start as int, b@.len() as int)) == Err::<PduView, PduError>(
                e,
            ),
        },
{
    let ghost s = b@.subrange(start as int, b@.len() as int);
    let n = b.len() - start;
    if n < 2 {
        return Err(PduError::TruncatedHeader);
    }
    assert(s[0] == b@[start as int] && s[1] == b@[start + 1]);
    let plen = (read_le16(b, start) & LEN_MASK) as usize;
    if n - 2 < plen {
        return Err(PduError::Truncated);
    }
    assert(s.subrange(2, 2 + plen) =~= b@.subrange(start + 2, start + 2 + plen));
    decode_pdu_at(b, start + 2, start + 2 + plen)
}

impl Pdu {
    pub open spec fn wf(&self) -> bool {
        self@.wf()
    }

    /// A request PDU of `data_length` payload bytes: `data`, then zeros up
    /// to that length. Fails with `TooLong` where `data` is longer than
    /// `data_length` or a PDU cannot carry that many bytes.
    pub fn new(command: Command, data_length: u16, index: u8, data: &[u8]) -> (r: Result<Pdu, PduError>)
        ensures
            r.is_ok() == (data@.len() <= data_length && data_length <= MAX_PDU_DATA_LEN),
            r.is_err() ==> r == Err::<Pdu, PduError>(PduError::TooLong),
            r matches Ok(p) ==> p.wf() && p@ == (PduView {
                command,
                index,
                flags: PduFlags { length: data_length, circulated: false, is_not_last: false },
                irq: 0,
                data: data@ + zeros((data_length - data@.len()) as nat),
                working_counter: 0,
            }),
    {
        if data.len() > data_length as usize || data_length as usize > MAX_PDU_DATA_LEN {
            return Err(PduError::TooLong);
        }
        let mut buf: Vec<u8> = Vec::new();
        copy_range(data, 0, data.len(), &mut buf);
        assert(data@.subrange(0, data@.len() as int) =~= data@);
        let mut i: usize = data.len();
        while i < data_length as usize
            invariant
                data@.len() <= i <= data_length,
                buf@ == data@ + zeros((i - data@.len()) as nat),
            decreases data_length - i,
        {
            buf.push(0);
            i = i + 1;
            assert(buf@ =~= data@ + zeros((i - data@.len()) as nat));
        }
        Ok(Pdu { command, index, flags: PduFlags::with_len(data_length), irq: 0, data: buf, working_counter: 0 })
    }

    /// The empty PDU of the no-operation command.
    pub fn nop() -> (r: Pdu)
        ensures
            r.wf(),
            r@ == (PduView {
                command: Command { code: CommandCode::Nop, address: 0 },
                index: 0,
                flags: PduFlags { length: 0, circulated: false, is_not_last: false },
                irq: 0,
                data: Seq::empty(),
                working_counter: 0,
            }),
    {
        let r = Pdu {
            command: Command::nop(),
            index: 0,
            flags: PduFlags::with_len(0),
            irq: 0,
            data: Vec::new(),
            working_counter: 0,
        };
        assert(r.data@ =~= Seq::<u8>::empty());
        r
    }

    /// Appends the PDU's wire bytes.
    fn as_bytes(&self, out: &mut Vec<u8>)
        ensures
            final(out)@ == old(out)@ + pdu_bytes(self@),
    {
        out.push(self.command.code.code());
        out.push(self.index);
        push_le32(out, self.command.address);
        push_le16(out, self.flags.pack());
        push_le16(out, self.irq);
        copy_range(self.data.as_slice(), 0, self.data.len(), out);
        assert(self.data@.subrange(0, self.data@.len() as int) =~= self.data@);
        out.push(0);
        out.push(0);
        assert(final(out)@ =~= old(out)@ + pdu_bytes(self@));
    }

    /// Bytes of the PDU with its payload and metadata.
    fn buf_len(&self) -> (r: usize)
        requires
            self.wf(),
        ensures
            r == self.data@.len() + PDU_OVERHEAD,
    {
        self.data.len() + PDU_OVERHEAD
    }

    /// Bytes of the PDU with its payload, metadata and frame header.
    pub fn frame_buf_len(&self) -> (r: usize)
        requires
            self.wf(),
        ensures
            r == self.data@.len() + PDU_OVERHEAD + FRAME_HEADER_LEN,
    {
        self.buf_len() + FRAME_HEADER_LEN
    }

    /// Writes the Ethernet frame that carries this PDU at the start of
    /// `buf`, from the master's address to broadcast, and returns its
    /// length. Fails with `TooLong`, leaving `buf` as it was, where `buf` is
    /// shorter than the frame.
    pub fn to_ethernet_frame(&self, buf: &mut Vec<u8>) -> (r: Result<usize, PduError>)
        requires
            self.wf(),
        ensures
            final(buf)@.len() == old(buf)@.len(),
            r.is_ok() == (old(buf)@.len() >= frame_bytes(self@).len()),
            r matches Ok(n) ==> n == frame_bytes(self@).len() && final(buf)@.subrange(0, n as int)
                == frame_bytes(self@) && final(buf)@.subrange(n as int, old(buf)@.len() as int)
                == old(buf)@.subrange(n as int, old(buf)@.len() as int),
            r.is_err() ==> r == Err::<usize, PduError>(PduError::TooLong) && final(buf)@ == old(buf)@,
    {
        let total = ETHERNET_HEADER_LEN + self.frame_buf_len();
        assert(frame_bytes(self@).len() == total);
        if buf.len() < total {
            return Err(PduError::TooLong);
        }
        let mut frame: Vec<u8> = Vec::new();
        let mut i: usize = 0;
        while i < ETHERNET_HEADER_LEN
            invariant
                i <= ETHERNET_HEADER_LEN,
                frame@.len() == i,
            decreases ETHERNET_HEADER_LEN - i,
        {
            frame.push(0);
            i = i + 1;
        }
        ethernet_set_src_addr(&mut frame, master_addr_bytes());
        ethernet_set_dst_addr(&mut frame, broadcast_addr_bytes());
        ethernet_set_ethertype(&mut frame, ETHERCAT_ETHERTYPE);
        assert(frame@ =~= ethernet_header(broadcast_addr(), master_addr(), ETHERCAT_ETHERTYPE));
        push_le16(&mut frame, (self.buf_len() as u16 & LEN_MASK) | 0x1000);
        self.as_bytes(&mut frame);
        assert(frame@ =~= frame_bytes(self@));
        let mut j: usize = 0;
        while j < total
            invariant
                j <= total <= buf@.len(),
                frame@ == frame_bytes(self@),
                frame@.len() == total,
                buf@.len() == old(buf)@.len(),
                forall|k: int| 0 <= k < j ==> buf@[k] == frame@[k],
                forall|k: int| j <= k < buf@.len() ==> buf@[k] == old(buf)@[k],
            decreases total - j,
        {
            buf.set(j, frame[j]);
            j = j + 1;
        }
        assert(buf@.subrange(0, total as int) =~= frame_bytes(self@));
        assert(buf@.subrange(total as int, old(buf)@.len() as int) =~= old(buf)@.subrange(
            total as int,
            old(buf)@.len() as int,
        ));
        Ok(total)
    }

    /// Decodes the PDU that an Ethernet payload carries.
    pub fn from_ethernet_payload(i: &[u8]) -> (r: Result<Pdu, PduError>)
        ensures
            match r {
                Ok(p) => decode_spec(i@) == Ok::<PduView, PduError>(p@),
                Err(e) => decode_spec(i@) == Err::<PduView, PduError>(e),
            },
    {
        assert(i@.subrange(0, i@.len() as int) =~= i@);
        decode_at(i, 0)
    }

    /// Checks that this PDU answers `request_pdu`: same index, same command
    /// code.
    pub fn is_response_to(&self, request_pdu: &Pdu) -> (r: Result<(), PduValidationError>)
        ensures
            r == response_check(self@, request_pdu@),
    {
        if request_pdu.index != self.index {
            return Err(PduValidationError::IndexMismatch { sent: request_pdu.command, received: self.command });
        }
        if request_pdu.command.code != self.command.code {
            return Err(
                PduValidationError::CommandMismatch { sent: request_pdu.command, received: self.command },
            );
        }
        Ok(())
    }

    pub fn index(&self) -> (r: u8)
        ensures
            r == self.index,
    {
        self.index
    }

    pub fn command(&self) -> (r: Command)
        ensures
            r == self.command,
    {
        self.command
    }

    pub fn data(&self) -> (r: &[u8])
        ensures
            r@ == self.data@,
    {
        self.data.as_slice()
    }

    pub fn working_counter(&self) -> (r: u16)
        ensures
            r == self.working_counter,
    {
        self.working_counter
    }
}

} // verus!
