//! The PDN Type IE (3GPP TS 29.244 clause 8.2.79): the kind of PDN
//! connection, in the low three bits of one octet.
use crate::error::{InvalidField, PfcpError};
use crate::ie::{Ie, IeType, IeView};
use vstd::prelude::*;

verus! {

/// The PDN connection types.
#[derive(Debug, Clone, Copy, PartialEq, Eq, Structural)]
pub enum PdnType {
    Ipv4,
    Ipv6,
    Ipv4v6,
    NonIp,
    Ethernet,
}

/// The value of a PDN type on the wire.
pub open spec fn pdn_type_code(t: PdnType) -> u8 {
    match t {
        PdnType::Ipv4 => 1,
        PdnType::Ipv6 => 2,
        PdnType::Ipv4v6 => 3,
        PdnType::NonIp => 4,
        PdnType::Ethernet => 5,
    }
}

/// Decoding a PDN Type payload: the low three bits of its first octet.
pub open spec fn spec_parse_pdn_type(b: Seq<u8>) -> Result<PdnType, PfcpError> {
    if b.len() < 1 {
        Err(PfcpError::InvalidLength { ie_type: Some(IeType::PdnType), expected: 1, actual: b.len() as usize })
    } else {
        let v = b[0] % 8;
        if v == 1 {
            Ok(PdnType::Ipv4)
        } else if v == 2 {
            Ok(PdnType::Ipv6)
        } else if v == 3 {
            Ok(PdnType::Ipv4v6)
        } else if v == 4 {
            Ok(PdnType::NonIp)
        } else if v == 5 {
            Ok(PdnType::Ethernet)
        } else {
            Err(PfcpError::InvalidValue { field: InvalidField::PdnType })
        }
    }
}

impl PdnType {
    /// The value of this PDN type on the wire.
    pub fn code(&self) -> (r: u8)
        ensures
            r == pdn_type_code(*self),
    {
        match self {
            PdnType::Ipv4 => 1,
            PdnType::Ipv6 => 2,
            PdnType::Ipv4v6 => 3,
            PdnType::NonIp => 4,
            PdnType::Ethernet => 5,
        }
    }

    /// The payload: one octet.
    pub fn marshal(&self) -> (r: Vec<u8>)
        ensures
            r@ == seq![pdn_type_code(*self)],
    {
        let mut v: Vec<u8> = Vec::new();
        v.push(self.code());
        assert(v@ =~= seq![pdn_type_code(*self)]);
        v
    }

    /// Decodes a PDN Type payload.
    pub fn unmarshal(payload: &[u8]) -> (r: Result<PdnType, PfcpError>)
        ensures
            r == spec_parse_pdn_type(payload@),
    {
        if payload.len() < 1 {
            return Err(PfcpError::InvalidLength { ie_type: Some(IeType::PdnType), expected: 1, actual: payload.len() });
        }
        let v = payload[0] % 8;
        if v == 1 {
            Ok(PdnType::Ipv4)
        } else if v == 2 {
            Ok(PdnType::Ipv6)
        } else if v == 3 {
            Ok(PdnType::Ipv4v6)
        } else if v == 4 {
            Ok(PdnType::NonIp)
        } else if v == 5 {
            Ok(PdnType::Ethernet)
        } else {
            Err(PfcpError::InvalidValue { field: InvalidField::PdnType })
        }
    }

    /// The PDN Type IE carrying this value.
    pub fn to_ie(&self) -> (r: Ie)
        ensures
            r@ == (IeView { ie_type: IeType::PdnType, payload: seq![pdn_type_code(*self)] }),
    {
        Ie::new(IeType::PdnType, self.marshal())
    }
}

/// Every PDN type reads back as itself.
pub proof fn lemma_pdn_type_roundtrip(t: PdnType)
    ensures
        spec_parse_pdn_type(seq![pdn_type_code(t)]) == Ok::<PdnType, PfcpError>(t),
{
}

} // verus!
