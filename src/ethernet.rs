use vstd::prelude::*;
use smoltcp::wire::{EthernetAddress, EthernetFrame, EthernetProtocol};

verus! {

/// Length of an Ethernet II header: destination, source, ethertype.
pub const ETHERNET_HEADER_LEN: usize = 14;

/// The ethertype of the header that starts `f`: bytes 12 and 13, big-endian.
pub open spec fn ethertype_of(f: Seq<u8>) -> u16 {
    (((f[12] as u16) << 8u16) | (f[13] as u16)) as u16
}

/// The source address of the header that starts `f`.
pub open spec fn src_addr_of(f: Seq<u8>) -> Seq<u8> {
    f.subrange(6, 12)
}

/// The big-endian bytes of an ethertype.
pub open spec fn ethertype_bytes(t: u16) -> Seq<u8> {
    seq![(t >> 8u16) as u8, (t & 0xffu16) as u8]
}

/// An Ethernet II header: destination, source, ethertype.
pub open spec fn ethernet_header(dst: Seq<u8>, src: Seq<u8>, ethertype: u16) -> Seq<u8> {
    dst + src + ethertype_bytes(ethertype)
}

/// Relies on smoltcp's `EthernetFrame::new_checked`, which accepts a buffer
/// exactly when it holds at least the 14 header bytes.
#[verifier::external_body]
pub(crate) fn ethernet_checked(frame: &[u8]) -> (r: bool)
    ensures
        r == (frame@.len() >= ETHERNET_HEADER_LEN),
{
    EthernetFrame::new_checked(frame).is_ok()
}

/// Relies on smoltcp's `EthernetFrame::ethertype`: bytes 12 and 13 read in
/// network order.
#[verifier::external_body]
pub(crate) fn ethernet_ethertype(frame: &[u8]) -> (r: u16)
    requires
        frame@.len() >= ETHERNET_HEADER_LEN,
    ensures
        r == ethertype_of(frame@),
{
    u16::from(EthernetFrame::new_unchecked(frame).ethertype())
}

/// Relies on smoltcp's `EthernetFrame::src_addr`: bytes 6 to 11.
#[verifier::external_body]
pub(crate) fn ethernet_src_addr(frame: &[u8]) -> (r: [u8; 6])
    requires
        frame@.len() >= ETHERNET_HEADER_LEN,
    ensures
        r@ == src_addr_of(frame@),
{
    EthernetFrame::new_unchecked(frame).src_addr().0
}

/// Relies on smoltcp's `EthernetFrame::set_dst_addr`: writes bytes 0 to 5.
#[verifier::external_body]
pub(crate) fn ethernet_set_dst_addr(buf: &mut Vec<u8>, addr: [u8; 6])
    requires
        old(buf)@.len() >= ETHERNET_HEADER_LEN,
    ensures
        final(buf)@ == addr@ + old(buf)@.subrange(6, old(buf)@.len() as int),
{
    EthernetFrame::new_unchecked(buf.as_mut_slice()).set_dst_addr(EthernetAddress(addr))
}

/// Relies on smoltcp's `EthernetFrame::set_src_addr`: writes bytes 6 to 11.
#[verifier::external_body]
pub(crate) fn ethernet_set_src_addr(buf: &mut Vec<u8>, addr: [u8; 6])
    requires
        old(buf)@.len() >= ETHERNET_HEADER_LEN,
    ensures
        final(buf)@ == old(buf)@.subrange(0, 6) + addr@ + old(buf)@.subrange(12, old(buf)@.len() as int),
{
    EthernetFrame::new_unchecked(buf.as_mut_slice()).set_src_addr(EthernetAddress(addr))
}

/// Relies on smoltcp's `EthernetFrame::set_ethertype`: writes bytes 12 and
/// 13 in network order.
#[verifier::external_body]
pub(crate) fn ethernet_set_ethertype(buf: &mut Vec<u8>, ethertype: u16)
    requires
        old(buf)@.len() >= ETHERNET_HEADER_LEN,
    ensures
        final(buf)@ == old(buf)@.subrange(0, 12) + ethertype_bytes(ethertype) + old(buf)@.subrange(14, old(buf)@.len() as int),
{
    EthernetFrame::new_unchecked(buf.as_mut_slice()).set_ethertype(EthernetProtocol::from(ethertype))
}

} // verus!
