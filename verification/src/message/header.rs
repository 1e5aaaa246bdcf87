//! PFCP message header (3GPP TS 29.244 clause 7.2.2).
use crate::bytes::{
    be16, be16_value, be24, be24_value, be64, be64_value, lemma_be16_roundtrip, lemma_be24_roundtrip,
    lemma_be64_roundtrip, push_be16, push_be24, push_be64, read_be16, read_be24, read_be64,
};
use crate::error::{InvalidField, PfcpError};
use crate::message::{lemma_msg_type_code_roundtrip, msg_type_code, msg_type_of_code, MsgType};
use vstd::prelude::*;

verus! {

/// PFCP protocol version (3GPP TS 29.244 clause 5.1); only version 1 is defined.
pub const PFCP_VERSION: u8 = 1;

/// A PFCP message header.
///
/// On the wire: one octet of flags (version in the top three bits, then the
/// FO, MP and S flags in bits 2, 1 and 0), the message type, the 16-bit
/// message length, the 64-bit SEID when the S flag is set, the 24-bit
/// sequence number and one octet of message priority.
#[derive(Debug, Clone, Copy, PartialEq, Eq, Structural)]
pub struct Header {
    pub version: u8,
    pub has_fo: bool,
    pub has_mp: bool,
    pub has_seid: bool,
    pub message_type: MsgType,
    pub length: u16,
    pub seid: u64,
    pub sequence_number: u32,
    pub message_priority: u8,
    pub raw_message_type: u8,
}

/// The flags octet: the version modulo 8 in bits 5-7, then FO, MP and S.
pub open spec fn header_flags(h: Header) -> u8 {
    ((h.version % 8) * 32 + (if h.has_fo { 4int } else { 0int }) + (if h.has_mp { 2int } else { 0int }) + (
    if h.has_seid { 1int } else { 0int })) as u8
}

/// The message type octet: the raw code for an unknown type, else the type's code.
pub open spec fn header_type_code(h: Header) -> u8 {
    if h.message_type == MsgType::Unknown {
        h.raw_message_type
    } else {
        msg_type_code(h.message_type)
    }
}

/// The number of bytes the header takes: 16 with a SEID, else 8.
pub open spec fn header_size(h: Header) -> u16 {
    if h.has_seid {
        16
    } else {
        8
    }
}

/// The wire form of a header.
pub open spec fn header_wire(h: Header) -> Seq<u8> {
    seq![header_flags(h), header_type_code(h)] + be16(h.length) + (if h.has_seid {
        be64(h.seid)
    } else {
        Seq::empty()
    }) + be24(h.sequence_number) + seq![h.message_priority]
}

/// A header that reads back as itself: its fields fit their wire widths, a
/// header without SEID has SEID 0, and the type agrees with the raw code.
pub open spec fn header_wf(h: Header) -> bool {
    &&& h.version < 8
    &&& h.sequence_number < 16777216
    &&& (!h.has_seid ==> h.seid == 0)
    &&& h.message_type == msg_type_of_code(h.raw_message_type)
}

/// The header that `b` begins with, or why it cannot be read.
pub open spec fn spec_parse_header(b: Seq<u8>) -> Result<Header, PfcpError> {
    if b.len() < 8 {
        Err(PfcpError::MessageParseError { message_type: None, expected: 8, actual: b.len() as usize })
    } else {
        let flags = b[0];
        let has_seid = flags % 2 == 1;
        let mt = msg_type_of_code(b[1]);
        if has_seid && b.len() < 12 {
            Err(PfcpError::MessageParseError { message_type: Some(mt), expected: 12, actual: b.len() as usize })
        } else if has_seid && b.len() < 16 {
            Err(PfcpError::MessageParseError { message_type: Some(mt), expected: 16, actual: b.len() as usize })
        } else {
            let off: int = if has_seid { 12 } else { 4 };
            Ok(Header {
                version: flags / 32,
                has_fo: (flags / 4) % 2 == 1,
                has_mp: (flags / 2) % 2 == 1,
                has_seid,
                message_type: mt,
                length: be16_value(b[2], b[3]),
                seid: if has_seid { be64_value(b.subrange(4, 12)) } else { 0 },
                sequence_number: be24_value(b[off], b[off + 1], b[off + 2]),
                message_priority: b[off + 3],
                raw_message_type: b[1],
            })
        }
    }
}

impl Header {
    /// Creates a header of a known message type; length 0, version 1, no flags but S.
    pub fn new(message_type: MsgType, has_seid: bool, seid: u64, sequence_number: u32) -> (r: Header)
        ensures
            r == (Header {
                version: PFCP_VERSION,
                has_fo: false,
                has_mp: false,
                has_seid,
                message_type,
                length: 0,
                seid,
                sequence_number,
                message_priority: 0,
                raw_message_type: msg_type_code(message_type),
            }),
    {
        Header {
            version: PFCP_VERSION,
            has_fo: false,
            has_mp: false,
            has_seid,
            message_type,
            length: 0,
            seid,
            sequence_number,
            message_priority: 0,
            raw_message_type: message_type.code(),
        }
    }

    /// Creates a header for a message type code that names no known type;
    /// the code is kept so that the message is written back with it.
    pub fn new_unknown(raw_message_type: u8, has_seid: bool, seid: u64, sequence_number: u32) -> (r: Result<Header, PfcpError>)
        ensures
            msg_type_of_code(raw_message_type) != MsgType::Unknown ==> r == Err::<Header, PfcpError>(
                PfcpError::InvalidValue { field: InvalidField::MessageType },
            ),
            msg_type_of_code(raw_message_type) == MsgType::Unknown ==> r == Ok::<Header, PfcpError>(
                Header {
                    version: PFCP_VERSION,
                    has_fo: false,
                    has_mp: false,
                    has_seid,
                    message_type: MsgType::Unknown,
                    length: 0,
                    seid,
                    sequence_number,
                    message_priority: 0,
                    raw_message_type,
                },
            ),
    {
        if MsgType::from_code(raw_message_type) != MsgType::Unknown {
            return Err(PfcpError::InvalidValue { field: InvalidField::MessageType });
        }
        let mut header = Header::new(MsgType::Unknown, has_seid, seid, sequence_number);
        header.raw_message_type = raw_message_type;
        Ok(header)
    }

    /// The message type code as written on the wire.
    pub fn message_type_code(&self) -> (r: u8)
        ensures
            r == header_type_code(*self),
    {
        if self.message_type == MsgType::Unknown {
            self.raw_message_type
        } else {
            self.message_type.code()
        }
    }

    /// The number of bytes the header takes on the wire.
    pub fn len(&self) -> (r: u16)
        ensures
            r == header_size(*self),
    {
        if self.has_seid {
            16
        } else {
            8
        }
    }

    /// Reports whether the length field is 0.
    pub fn is_empty(&self) -> (r: bool)
        ensures
            r == (self.length == 0),
    {
        self.length == 0
    }

    /// Serializes the header into a new vector.
    pub fn marshal(&self) -> (r: Vec<u8>)
        ensures
            r@ == header_wire(*self),
    {
        let mut buf: Vec<u8> = Vec::new();
        self.marshal_into(&mut buf);
        buf
    }

    /// Appends the serialized header to `buf`.
    pub fn marshal_into(&self, buf: &mut Vec<u8>)
        ensures
            final(buf)@ == old(buf)@ + header_wire(*self),
    {
        let flags: u8 = (self.version % 8) * 32 + (if self.has_fo { 4u8 } else { 0u8 }) + (if self.has_mp { 2u8 } else { 0u8 }) + (if self.has_seid { 1u8 } else { 0u8 });
        buf.push(flags);
        buf.push(self.message_type_code());
        push_be16(buf, self.length);
        let ghost mid = buf@;
        if self.has_seid {
            push_be64(buf, self.seid);
        }
        push_be24(buf, self.sequence_number);
        buf.push(self.message_priority);
        assert(final(buf)@ =~= old(buf)@ + header_wire(*self));
    }

    /// Writes the serialized header to the front of `b`.
    pub fn marshal_to(&self, b: &mut [u8])
        requires
            old(b)@.len() >= header_size(*self),
        ensures
            final(b)@.len() == old(b)@.len(),
            final(b)@.subrange(0, header_size(*self) as int) == header_wire(*self),
            final(b)@.subrange(header_size(*self) as int, old(b)@.len() as int) == old(b)@.subrange(
                header_size(*self) as int,
                old(b)@.len() as int,
            ),
    {
        let w = self.marshal();
        proof {
            lemma_header_wire_len(*self);
        }
        let n = w.len();
        let mut i: usize = 0;
        while i < n
            invariant
                n == w@.len() == header_size(*self),
                n <= b@.len(),
                i <= n,
                b@.len() == old(b)@.len(),
                forall|k: int| 0 <= k < i ==> b@[k] == w@[k],
                forall|k: int| n <= k < b@.len() ==> b@[k] == old(b)@[k],
            decreases n - i,
        {
            b[i] = w[i];
            i = i + 1;
        }
        assert(b@.subrange(0, n as int) =~= w@);
        assert(b@.subrange(n as int, b@.len() as int) =~= old(b)@.subrange(n as int, old(b)@.len() as int));
    }

    /// Deserializes the header at the front of `b`.
    pub fn unmarshal(b: &[u8]) -> (r: Result<Header, PfcpError>)
        ensures
            r == spec_parse_header(b@),
    {
        let n = b.len();
        if n < 8 {
            return Err(PfcpError::MessageParseError { message_type: None, expected: 8, actual: n });
        }
        let flags = b[0];
        let version = flags / 32;
        let has_fo = (flags / 4) % 2 == 1;
        let has_mp = (flags / 2) % 2 == 1;
        let has_seid = flags % 2 == 1;
        let raw_message_type = b[1];
        let message_type = MsgType::from_code(raw_message_type);
        let length = read_be16(b, 2);
        let mut offset: usize = 4;
        let mut seid: u64 = 0;
        if has_seid {
            if n < 12 {
                return Err(PfcpError::MessageParseError { message_type: Some(message_type), expected: 12, actual: n });
            }
            if n < 16 {
                return Err(PfcpError::MessageParseError { message_type: Some(message_type), expected: 16, actual: n });
            }
            seid = read_be64(b, 4);
            offset = 12;
        }
        let sequence_number = read_be24(b, offset);
        let message_priority = b[offset + 3];
        Ok(Header {
            version,
            has_fo,
            has_mp,
            has_seid,
            message_type,
            length,
            seid,
            sequence_number,
            message_priority,
            raw_message_type,
        })
    }
}

/// The wire form of a header has the header's size.
pub proof fn lemma_header_wire_len(h: Header)
    ensures
        header_wire(h).len() == header_size(h),
{
    lemma_be64_roundtrip(h.seid);
    lemma_be16_roundtrip(h.length);
}

proof fn lemma_flags_roundtrip(v: int, fo: int, mp: int, s: int)
    requires
        0 <= v < 8,
        0 <= fo <= 1,
        0 <= mp <= 1,
        0 <= s <= 1,
    ensures
        (v * 32 + fo * 4 + mp * 2 + s) / 32 == v,
        ((v * 32 + fo * 4 + mp * 2 + s) / 4) % 2 == fo,
        ((v * 32 + fo * 4 + mp * 2 + s) / 2) % 2 == mp,
        (v * 32 + fo * 4 + mp * 2 + s) % 2 == s,
{
}

proof fn lemma_header_bytes(h: Header, rest: Seq<u8>)
    ensures
        ({
            let w = header_wire(h) + rest;
            let off: int = if h.has_seid { 12 } else { 4 };
            &&& w.len() >= header_size(h)
            &&& w[0] == header_flags(h)
            &&& w[1] == header_type_code(h)
            &&& w[2] == be16(h.length)[0]
            &&& w[3] == be16(h.length)[1]
            &&& (h.has_seid ==> w.subrange(4, 12) == be64(h.seid))
            &&& w[off] == be24(h.sequence_number)[0]
            &&& w[off + 1] == be24(h.sequence_number)[1]
            &&& w[off + 2] == be24(h.sequence_number)[2]
            &&& w[off + 3] == h.message_priority
        }),
{
    let w = header_wire(h) + rest;
    lemma_be64_roundtrip(h.seid);
    lemma_header_wire_len(h);
    if h.has_seid {
        assert(w.subrange(4, 12) =~= be64(h.seid));
    }
}

/// In a well-formed header the type octet written is the raw code.
proof fn lemma_header_type_code(h: Header)
    requires
        header_wf(h),
    ensures
        header_type_code(h) == h.raw_message_type,
        msg_type_of_code(header_type_code(h)) == h.message_type,
{
    if h.message_type != MsgType::Unknown {
        lemma_msg_type_code_roundtrip(h.message_type);
    }
}

/// Reading back the wire form of a well-formed header, whatever follows it,
/// gives the header.
#[verifier::spinoff_prover]
#[verifier::rlimit(40)]
pub proof fn lemma_header_roundtrip(h: Header, rest: Seq<u8>)
    requires
        header_wf(h),
    ensures
        spec_parse_header(header_wire(h) + rest) == Ok::<Header, PfcpError>(h),
{
    let w = header_wire(h) + rest;
    lemma_header_bytes(h, rest);
    lemma_be16_roundtrip(h.length);
    lemma_be24_roundtrip(h.sequence_number);
    lemma_be64_roundtrip(h.seid);
    let fo: int = if h.has_fo { 1 } else { 0 };
    let mp: int = if h.has_mp { 1 } else { 0 };
    let s: int = if h.has_seid { 1 } else { 0 };
    lemma_flags_roundtrip(h.version as int, fo, mp, s);
    assert(header_flags(h) as int == h.version * 32 + fo * 4 + mp * 2 + s);
    lemma_header_type_code(h);
    let r = spec_parse_header(w);
    assert(r.is_ok());
    let g = r.unwrap();
    assert(g.version == h.version);
    assert(g.has_fo == h.has_fo);
    assert(g.has_mp == h.has_mp);
    assert(g.has_seid == h.has_seid);
    assert(g.raw_message_type == h.raw_message_type);
    assert(g.message_type == h.message_type);
    assert(g.length == h.length);
    assert(g.seid == h.seid);
    assert(g.sequence_number == h.sequence_number);
    assert(g.message_priority == h.message_priority);
}

} // verus!
