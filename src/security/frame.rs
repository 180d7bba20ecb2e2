//! Security frame formats. See Section 4.5.1.
use vstd::prelude::*;

use crate::address::IeeeAddress;
use crate::codec::{
    byte_field_len, decoded, decoded_value, ieee_field_len, lemma_u32_canonical,
    lemma_u32_round_trip, lemma_u64_canonical, lemma_u64_round_trip, pack_u32, pack_u8,
    parse_u8, u32_from_le, u32_le_bytes, u64_from_le, u64_le_bytes, unpack_u32, unpack_u8,
    DecodeError, Parsed,
};

verus! {

/// Security Control. See Section 4.5.1.1.
#[derive(Debug, Clone, Copy, PartialEq, Eq, Structural)]
pub struct SecurityControl(pub u8);

/// Security Level. See Section 4.5.1.1.1.
#[derive(Debug, Clone, Copy, PartialEq, Eq, Structural)]
pub enum SecurityLevel {
    NoSecurity,
    Mic32,
    Mic64,
    Mic128,
    Enc,
    EncMic32,
    EncMic64,
    EncMic128,
}

/// Key Identifier. See Section 4.5.1.1.2.
#[derive(Debug, Clone, Copy, PartialEq, Eq, Structural)]
pub enum KeyIdentifier {
    Data,
    Network,
    KeyTransport,
    KeyLoad,
}

impl SecurityControl {
    /// Bits [0:3): the security level.
    pub open spec fn spec_security_level(self) -> SecurityLevel {
        let l = self.0 & 0b111u8;
        if l == 0 {
            SecurityLevel::NoSecurity
        } else if l == 1 {
            SecurityLevel::Mic32
        } else if l == 2 {
            SecurityLevel::Mic64
        } else if l == 3 {
            SecurityLevel::Mic128
        } else if l == 4 {
            SecurityLevel::Enc
        } else if l == 5 {
            SecurityLevel::EncMic32
        } else if l == 6 {
            SecurityLevel::EncMic64
        } else {
            SecurityLevel::EncMic128
        }
    }

    /// Bits [3:5): the key identifier.
    pub open spec fn spec_key_identifier(self) -> KeyIdentifier {
        let k = (self.0 >> 3u8) & 0b11u8;
        if k == 0 {
            KeyIdentifier::Data
        } else if k == 1 {
            KeyIdentifier::Network
        } else if k == 2 {
            KeyIdentifier::KeyTransport
        } else {
            KeyIdentifier::KeyLoad
        }
    }

    /// Bit 5: the extended nonce, which puts the source address in the header.
    pub open spec fn spec_extended_nonce(self) -> bool {
        (self.0 >> 5u8) & 1u8 != 0
    }

    /// Indicates how a frame is secured.
    pub fn security_level(&self) -> (r: SecurityLevel)
        ensures
            r == self.spec_security_level(),
    {
        match self.0 & 0b111u8 {
            0 => SecurityLevel::NoSecurity,
            1 => SecurityLevel::Mic32,
            2 => SecurityLevel::Mic64,
            3 => SecurityLevel::Mic128,
            4 => SecurityLevel::Enc,
            5 => SecurityLevel::EncMic32,
            6 => SecurityLevel::EncMic64,
            _ => SecurityLevel::EncMic128,
        }
    }

    /// Identifies the key in use.
    pub fn key_identifier(&self) -> (r: KeyIdentifier)
        ensures
            r == self.spec_key_identifier(),
    {
        match (self.0 >> 3u8) & 0b11u8 {
            0 => KeyIdentifier::Data,
            1 => KeyIdentifier::Network,
            2 => KeyIdentifier::KeyTransport,
            _ => KeyIdentifier::KeyLoad,
        }
    }

    /// Whether the key in use is the network key, which puts the key sequence
    /// number in the header.
    pub fn is_network_key(&self) -> (r: bool)
        ensures
            r == (self.spec_key_identifier() == KeyIdentifier::Network),
    {
        match self.key_identifier() {
            KeyIdentifier::Network => true,
            _ => false,
        }
    }

    /// Set if the sender address of the auxiliary header is present.
    pub fn extended_nonce(&self) -> (r: bool)
        ensures
            r == self.spec_extended_nonce(),
    {
        (self.0 >> 5u8) & 1u8 != 0
    }

    /// Decodes a security control byte at `pos`.
    pub fn unpack_at(src: &[u8], pos: usize) -> (r: Result<(SecurityControl, usize), DecodeError>)
        requires
            pos <= src@.len(),
        ensures
            decoded(r, pos, parse_security_control(src@.skip(pos as int))),
    {
        let (b, next) = unpack_u8(src, pos)?;
        Ok((SecurityControl(b), next))
    }
}

impl View for SecurityControl {
    type V = SecurityControl;

    open spec fn view(&self) -> SecurityControl {
        *self
    }
}

/// A security control field: one byte.
pub open spec fn parse_security_control(s: Seq<u8>) -> Parsed<SecurityControl> {
    match parse_u8(s) {
        Ok((b, n)) => Ok((SecurityControl(b), n)),
        Err(e) => Err(e),
    }
}

/// Auxiliary Frame Header Format. See Section 4.5.1.
#[derive(Debug, Clone, Copy, PartialEq, Eq, Structural)]
pub struct AuxFrameHeader {
    /// Security control.
    pub security_control: SecurityControl,
    /// Frame counter.
    pub frame_counter: u32,
    /// Present if and only if the extended nonce flag is set.
    pub source_address: Option<IeeeAddress>,
    /// Present if and only if the key identifier is the network key.
    pub key_sequence_number: Option<u8>,
}

impl View for AuxFrameHeader {
    type V = AuxFrameHeader;

    open spec fn view(&self) -> AuxFrameHeader {
        *self
    }
}

impl AuxFrameHeader {
    /// Each optional field is present exactly when the security control says.
    pub open spec fn wf(self) -> bool {
        &&& (self.source_address is Some <==> self.security_control.spec_extended_nonce())
        &&& (self.key_sequence_number is Some <==> self.security_control.spec_key_identifier()
            == KeyIdentifier::Network)
    }
}

/// Offset of the key sequence number, when present.
pub open spec fn key_sequence_offset(sc: SecurityControl) -> nat {
    5 + ieee_field_len(sc.spec_extended_nonce())
}

/// Length of the auxiliary header that `sc` describes.
pub open spec fn aux_frame_header_len(sc: SecurityControl) -> nat {
    key_sequence_offset(sc) + byte_field_len(sc.spec_key_identifier() == KeyIdentifier::Network)
}

/// An auxiliary header: the security control byte, the little-endian frame
/// counter, the source address if the extended nonce flag is set, and the key
/// sequence number if the key identifier is the network key.
pub open spec fn parse_aux_frame_header(s: Seq<u8>) -> Parsed<AuxFrameHeader> {
    if s.len() < 5 {
        Err(DecodeError::InsufficientBytes)
    } else {
        let sc = SecurityControl(s[0]);
        let ks_at = key_sequence_offset(sc);
        let end = aux_frame_header_len(sc);
        if s.len() < end {
            Err(DecodeError::InsufficientBytes)
        } else {
            Ok(
                (
                    AuxFrameHeader {
                        security_control: sc,
                        frame_counter: u32_from_le(s.skip(1)),
                        source_address: if sc.spec_extended_nonce() {
                            Some(IeeeAddress(u64_from_le(s.skip(5))))
                        } else {
                            None
                        },
                        key_sequence_number: if sc.spec_key_identifier() == KeyIdentifier::Network {
                            Some(s[ks_at as int])
                        } else {
                            None
                        },
                    },
                    end,
                ),
            )
        }
    }
}

/// The wire bytes of an auxiliary header.
pub open spec fn encode_aux_frame_header(h: AuxFrameHeader) -> Seq<u8> {
    seq![h.security_control.0] + (u32_le_bytes(h.frame_counter) + (match h.source_address {
        Some(a) => u64_le_bytes(a.0),
        None => Seq::empty(),
    } + match h.key_sequence_number {
        Some(k) => seq![k],
        None => Seq::empty(),
    }))
}

/// Decoding the bytes of a well-formed auxiliary header, followed by anything,
/// gives the header back and stops after it.
pub proof fn lemma_aux_frame_header_round_trip(h: AuxFrameHeader, rest: Seq<u8>)
    requires
        h.wf(),
    ensures
        parse_aux_frame_header(encode_aux_frame_header(h) + rest) == Ok::<
            (AuxFrameHeader, nat),
            DecodeError,
        >((h, encode_aux_frame_header(h).len())),
{
    let a: Seq<u8> = match h.source_address {
        Some(a) => u64_le_bytes(a.0),
        None => Seq::empty(),
    };
    let k: Seq<u8> = match h.key_sequence_number {
        Some(k) => seq![k],
        None => Seq::empty(),
    };
    let tail_a = a + (k + rest);
    let tail_c = u32_le_bytes(h.frame_counter) + tail_a;
    let s = encode_aux_frame_header(h) + rest;
    assert(s =~= seq![h.security_control.0] + tail_c);
    assert(s.skip(1) =~= tail_c);
    assert(s.skip(5) =~= tail_a);
    lemma_u32_round_trip(h.frame_counter, tail_a);
    if let Some(x) = h.source_address {
        lemma_u64_round_trip(x.0, k + rest);
    }
    if let Some(x) = h.key_sequence_number {
        assert(s[key_sequence_offset(h.security_control) as int] == x);
    }
}

/// A decoded auxiliary header is well-formed, and encoding it gives back
/// exactly the bytes it was decoded from.
pub proof fn lemma_aux_frame_header_canonical(s: Seq<u8>)
    requires
        parse_aux_frame_header(s) is Ok,
    ensures
        ({
            let (h, n) = parse_aux_frame_header(s)->Ok_0;
            &&& h.wf()
            &&& n <= s.len()
            &&& encode_aux_frame_header(h) == s.take(n as int)
        }),
{
    let (h, n) = parse_aux_frame_header(s)->Ok_0;
    lemma_u32_canonical(s.skip(1));
    if h.security_control.spec_extended_nonce() {
        lemma_u64_canonical(s.skip(5));
    }
    assert(encode_aux_frame_header(h) =~= s.take(n as int));
}

impl AuxFrameHeader {
    /// Decodes an auxiliary header at `pos`, reading the source address and
    /// the key sequence number only when the security control calls for them.
    pub fn unpack_at(src: &[u8], pos: usize) -> (r: Result<(AuxFrameHeader, usize), DecodeError>)
        requires
            pos <= src@.len(),
        ensures
            decoded(r, pos, parse_aux_frame_header(src@.skip(pos as int))),
    {
        let ghost s = src@.skip(pos as int);
        let (security_control, p) = SecurityControl::unpack_at(src, pos)?;
        let (frame_counter, p) = unpack_u32(src, p)?;
        assert(s.skip(1)[0] == src@[pos + 1] && s.skip(1)[1] == src@[pos + 2] && s.skip(1)[2]
            == src@[pos + 3] && s.skip(1)[3] == src@[pos + 4]);
        let (source_address, p) = if security_control.extended_nonce() {
            let (a, p) = IeeeAddress::unpack_at(src, p)?;
            (Some(a), p)
        } else {
            (None, p)
        };
        let (key_sequence_number, p) = if security_control.is_network_key() {
            let (k, p) = unpack_u8(src, p)?;
            (Some(k), p)
        } else {
            (None, p)
        };
        Ok((AuxFrameHeader { security_control, frame_counter, source_address, key_sequence_number }, p))
    }

    /// Decodes an auxiliary header from the start of `src`.
    pub fn unpack_from_slice(src: &[u8]) -> (r: Result<AuxFrameHeader, DecodeError>)
        ensures
            decoded_value(r, parse_aux_frame_header(src@)),
    {
        assert(src@.skip(0) =~= src@);
        let (v, _) = Self::unpack_at(src, 0)?;
        Ok(v)
    }

    /// Appends the wire bytes of this header.
    pub fn pack_into(&self, out: &mut Vec<u8>)
        ensures
            final(out)@ == old(out)@ + encode_aux_frame_header(*self),
    {
        pack_u8(self.security_control.0, out);
        pack_u32(self.frame_counter, out);
        if let Some(a) = &self.source_address {
            a.pack_into(out);
        }
        if let Some(k) = self.key_sequence_number {
            pack_u8(k, out);
        }
        assert(out@ =~= old(out)@ + encode_aux_frame_header(*self));
    }
}

/// Decoding an empty byte sequence as an auxiliary header fails with
/// `InsufficientBytes`.
pub proof fn lemma_empty_input_insufficient()
    ensures
        parse_aux_frame_header(Seq::empty()) == Err::<(AuxFrameHeader, nat), DecodeError>(
            DecodeError::InsufficientBytes,
        ),
{
}

} // verus!
