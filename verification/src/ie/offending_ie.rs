//! The Offending IE IE (3GPP TS 29.244 clause 8.2.22): the type of the IE
//! that caused a request to be rejected.
use crate::bytes::{be16, be16_value, lemma_be16_roundtrip, push_be16, read_be16};
use crate::error::PfcpError;
use crate::ie::{Ie, IeType, IeView};
use vstd::prelude::*;

verus! {

/// The type code of an offending IE.
#[derive(Debug, Clone, Copy, PartialEq, Eq, Structural)]
pub struct OffendingIe {
    pub ie_type: u16,
}

/// Decoding an Offending IE payload: its first two octets, big-endian.
pub open spec fn spec_parse_offending_ie(b: Seq<u8>) -> Result<OffendingIe, PfcpError> {
    if b.len() < 2 {
        Err(PfcpError::InvalidLength { ie_type: Some(IeType::OffendingIe), expected: 2, actual: b.len() as usize })
    } else {
        Ok(OffendingIe { ie_type: be16_value(b[0], b[1]) })
    }
}

impl OffendingIe {
    /// The Offending IE naming the IE type code `ie_type`.
    pub fn new(ie_type: u16) -> (r: OffendingIe)
        ensures
            r.ie_type == ie_type,
    {
        OffendingIe { ie_type }
    }

    /// The payload: the type code, big-endian.
    pub fn marshal(&self) -> (r: Vec<u8>)
        ensures
            r@ == be16(self.ie_type),
    {
        let mut v: Vec<u8> = Vec::new();
        push_be16(&mut v, self.ie_type);
        assert(v@ =~= be16(self.ie_type));
        v
    }

    /// Decodes an Offending IE payload.
    pub fn unmarshal(payload: &[u8]) -> (r: Result<OffendingIe, PfcpError>)
        ensures
            r == spec_parse_offending_ie(payload@),
    {
        if payload.len() < 2 {
            return Err(PfcpError::InvalidLength { ie_type: Some(IeType::OffendingIe), expected: 2, actual: payload.len() });
        }
        Ok(OffendingIe { ie_type: read_be16(payload, 0) })
    }

    /// The Offending IE IE carrying this value.
    pub fn to_ie(&self) -> (r: Ie)
        ensures
            r@ == (IeView { ie_type: IeType::OffendingIe, payload: be16(self.ie_type) }),
    {
        Ie::new(IeType::OffendingIe, self.marshal())
    }
}

/// Every Offending IE reads back as itself.
pub proof fn lemma_offending_ie_roundtrip(o: OffendingIe)
    ensures
        spec_parse_offending_ie(be16(o.ie_type)) == Ok::<OffendingIe, PfcpError>(o),
{
    lemma_be16_roundtrip(o.ie_type);
}

} // verus!
