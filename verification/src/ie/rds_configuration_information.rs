//! The RDS Configuration Information IE (3GPP TS 29.244 clause 8.2.182): one
//! octet whose first bit, RDS, says that reliable data service is configured.
use crate::error::PfcpError;
use crate::ie::{Ie, IeType, IeView};
use vstd::prelude::*;

verus! {

/// RDS Configuration Information: the RDS flag.
#[derive(Debug, Clone, Copy, PartialEq, Eq, Structural)]
pub struct RdsConfigurationInformation {
    pub rds: bool,
}

/// The payload octet: bit 1 is RDS, the other bits are spare.
pub open spec fn rds_octet(v: RdsConfigurationInformation) -> u8 {
    if v.rds {
        1
    } else {
        0
    }
}

/// Decoding an RDS Configuration Information payload: its first octet.
pub open spec fn spec_parse_rds_configuration_information(b: Seq<u8>) -> Result<RdsConfigurationInformation, PfcpError> {
    if b.len() < 1 {
        Err(PfcpError::InvalidLength { ie_type: Some(IeType::RdsConfigurationInformation), expected: 1, actual: 0 })
    } else {
        Ok(RdsConfigurationInformation { rds: b[0] % 2 == 1 })
    }
}

impl RdsConfigurationInformation {
    /// RDS Configuration Information with the given flag.
    pub fn new(rds: bool) -> (r: RdsConfigurationInformation)
        ensures
            r.rds == rds,
    {
        RdsConfigurationInformation { rds }
    }

    /// The payload: one octet.
    pub fn marshal(&self) -> (r: Vec<u8>)
        ensures
            r@ == seq![rds_octet(*self)],
    {
        let mut v: Vec<u8> = Vec::new();
        v.push(if self.rds { 1u8 } else { 0u8 });
        assert(v@ =~= seq![rds_octet(*self)]);
        v
    }

    /// Decodes an RDS Configuration Information payload.
    pub fn unmarshal(payload: &[u8]) -> (r: Result<RdsConfigurationInformation, PfcpError>)
        ensures
            r == spec_parse_rds_configuration_information(payload@),
    {
        if payload.len() < 1 {
            return Err(PfcpError::InvalidLength { ie_type: Some(IeType::RdsConfigurationInformation), expected: 1, actual: 0 });
        }
        Ok(RdsConfigurationInformation { rds: payload[0] % 2 == 1 })
    }

    /// The RDS Configuration Information IE carrying this value.
    pub fn to_ie(&self) -> (r: Ie)
        ensures
            r@ == (IeView { ie_type: IeType::RdsConfigurationInformation, payload: seq![rds_octet(*self)] }),
    {
        Ie::new(IeType::RdsConfigurationInformation, self.marshal())
    }
}

/// Every RDS Configuration Information reads back as itself.
pub proof fn lemma_rds_configuration_information_roundtrip(v: RdsConfigurationInformation)
    ensures
        spec_parse_rds_configuration_information(seq![rds_octet(v)]) == Ok::<RdsConfigurationInformation, PfcpError>(v),
{
}

} // verus!
