//! Network addresses.
use vstd::prelude::*;

use crate::codec::{
    decoded, pack_u16, pack_u64, parse_u16, parse_u64, u16_le_bytes, u64_le_bytes, unpack_u16,
    unpack_u64, DecodeError, Parsed,
};

verus! {

/// A 16-bit network address, as a plain number.
pub type NwkAddress = u16;

/// 16-bit network address.
#[derive(Debug, Clone, Copy, PartialEq, Eq, Structural)]
pub struct ShortAddress(pub u16);

/// 64-bit extended (IEEE) address.
#[derive(Debug, Clone, Copy, PartialEq, Eq, Structural)]
pub struct IeeeAddress(pub u64);

impl View for ShortAddress {
    type V = ShortAddress;

    open spec fn view(&self) -> ShortAddress {
        *self
    }
}

impl View for IeeeAddress {
    type V = IeeeAddress;

    open spec fn view(&self) -> IeeeAddress {
        *self
    }
}

/// A short address: two little-endian bytes.
pub open spec fn parse_short_address(s: Seq<u8>) -> Parsed<ShortAddress> {
    match parse_u16(s) {
        Ok((v, n)) => Ok((ShortAddress(v), n)),
        Err(e) => Err(e),
    }
}

/// An extended address: eight little-endian bytes.
pub open spec fn parse_ieee_address(s: Seq<u8>) -> Parsed<IeeeAddress> {
    match parse_u64(s) {
        Ok((v, n)) => Ok((IeeeAddress(v), n)),
        Err(e) => Err(e),
    }
}

/// The wire bytes of a short address.
pub open spec fn encode_short_address(a: ShortAddress) -> Seq<u8> {
    u16_le_bytes(a.0)
}

/// The wire bytes of an extended address.
pub open spec fn encode_ieee_address(a: IeeeAddress) -> Seq<u8> {
    u64_le_bytes(a.0)
}

impl ShortAddress {
    /// Decodes a short address at `pos`.
    pub fn unpack_at(src: &[u8], pos: usize) -> (r: Result<(ShortAddress, usize), DecodeError>)
        requires
            pos <= src@.len(),
        ensures
            decoded(r, pos, parse_short_address(src@.skip(pos as int))),
    {
        let (v, next) = unpack_u16(src, pos)?;
        Ok((ShortAddress(v), next))
    }

    /// Appends the wire bytes of this address.
    pub fn pack_into(&self, out: &mut Vec<u8>)
        ensures
            final(out)@ == old(out)@ + encode_short_address(*self),
    {
        pack_u16(self.0, out);
    }
}

impl IeeeAddress {
    /// Decodes an extended address at `pos`.
    pub fn unpack_at(src: &[u8], pos: usize) -> (r: Result<(IeeeAddress, usize), DecodeError>)
        requires
            pos <= src@.len(),
        ensures
            decoded(r, pos, parse_ieee_address(src@.skip(pos as int))),
    {
        let (v, next) = unpack_u64(src, pos)?;
        Ok((IeeeAddress(v), next))
    }

    /// Appends the wire bytes of this address.
    pub fn pack_into(&self, out: &mut Vec<u8>)
        ensures
            final(out)@ == old(out)@ + encode_ieee_address(*self),
    {
        pack_u64(self.0, out);
    }
}

} // verus!
