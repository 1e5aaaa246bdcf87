//! The Cause IE (3GPP TS 29.244 clause 8.2.1): one octet that says whether a
//! request was accepted and, if not, why.
use crate::error::PfcpError;
use crate::ie::{Ie, IeType, IeView};
use vstd::prelude::*;

verus! {

/// Cause values (3GPP TS 29.244 Table 8.2.1-1). `Unknown` stands for every
/// value this crate does not name; it is written as 0.
#[derive(Debug, Clone, Copy, PartialEq, Eq, Hash, Structural)]
pub enum CauseValue {
    Unknown,
    RequestAccepted,
    MoreUsageReportToSend,
    RequestPartiallyAccepted,
    RequestRejected,
    SessionContextNotFound,
    MandatoryIeMissing,
    ConditionalIeMissing,
    InvalidLength,
    MandatoryIeIncorrect,
    InvalidForwardingPolicy,
    InvalidFTeidAllocationOption,
    NoEstablishedPfcpAssociation,
    RuleCreationModificationFailure,
    PfcpEntityInCongestion,
    NoResourcesAvailable,
    ServiceNotSupported,
    SystemFailure,
    RedirectionRequested,
    AllDynamicAddressesAreOccupied,
    UnknownPreDefinedRule,
    UnknownApplicationId,
}

/// The octet of a cause value.
pub open spec fn cause_code(v: CauseValue) -> u8 {
    match v {
        CauseValue::Unknown => 0,
        CauseValue::RequestAccepted => 1,
        CauseValue::MoreUsageReportToSend => 2,
        CauseValue::RequestPartiallyAccepted => 3,
        CauseValue::RequestRejected => 64,
        CauseValue::SessionContextNotFound => 65,
        CauseValue::MandatoryIeMissing => 66,
        CauseValue::ConditionalIeMissing => 67,
        CauseValue::InvalidLength => 68,
        CauseValue::MandatoryIeIncorrect => 69,
        CauseValue::InvalidForwardingPolicy => 70,
        CauseValue::InvalidFTeidAllocationOption => 71,
        CauseValue::NoEstablishedPfcpAssociation => 72,
        CauseValue::RuleCreationModificationFailure => 73,
        CauseValue::PfcpEntityInCongestion => 74,
        CauseValue::NoResourcesAvailable => 75,
        CauseValue::ServiceNotSupported => 76,
        CauseValue::SystemFailure => 77,
        CauseValue::RedirectionRequested => 78,
        CauseValue::AllDynamicAddressesAreOccupied => 79,
        CauseValue::UnknownPreDefinedRule => 80,
        CauseValue::UnknownApplicationId => 81,
    }
}

/// The cause value an octet denotes.
pub open spec fn cause_of_code(c: u8) -> CauseValue {
    match c {
        1 => CauseValue::RequestAccepted,
        2 => CauseValue::MoreUsageReportToSend,
        3 => CauseValue::RequestPartiallyAccepted,
        64 => CauseValue::RequestRejected,
        65 => CauseValue::SessionContextNotFound,
        66 => CauseValue::MandatoryIeMissing,
        67 => CauseValue::ConditionalIeMissing,
        68 => CauseValue::InvalidLength,
        69 => CauseValue::MandatoryIeIncorrect,
        70 => CauseValue::InvalidForwardingPolicy,
        71 => CauseValue::InvalidFTeidAllocationOption,
        72 => CauseValue::NoEstablishedPfcpAssociation,
        73 => CauseValue::RuleCreationModificationFailure,
        74 => CauseValue::PfcpEntityInCongestion,
        75 => CauseValue::NoResourcesAvailable,
        76 => CauseValue::ServiceNotSupported,
        77 => CauseValue::SystemFailure,
        78 => CauseValue::RedirectionRequested,
        79 => CauseValue::AllDynamicAddressesAreOccupied,
        80 => CauseValue::UnknownPreDefinedRule,
        81 => CauseValue::UnknownApplicationId,
        _ => CauseValue::Unknown,
    }
}

impl CauseValue {
    /// The octet of this cause value.
    pub fn code(&self) -> (r: u8)
        ensures
            r == cause_code(*self),
    {
        match self {
            CauseValue::Unknown => 0,
            CauseValue::RequestAccepted => 1,
            CauseValue::MoreUsageReportToSend => 2,
            CauseValue::RequestPartiallyAccepted => 3,
            CauseValue::RequestRejected => 64,
            CauseValue::SessionContextNotFound => 65,
            CauseValue::MandatoryIeMissing => 66,
            CauseValue::ConditionalIeMissing => 67,
            CauseValue::InvalidLength => 68,
            CauseValue::MandatoryIeIncorrect => 69,
            CauseValue::InvalidForwardingPolicy => 70,
            CauseValue::InvalidFTeidAllocationOption => 71,
            CauseValue::NoEstablishedPfcpAssociation => 72,
            CauseValue::RuleCreationModificationFailure => 73,
            CauseValue::PfcpEntityInCongestion => 74,
            CauseValue::NoResourcesAvailable => 75,
            CauseValue::ServiceNotSupported => 76,
            CauseValue::SystemFailure => 77,
            CauseValue::RedirectionRequested => 78,
            CauseValue::AllDynamicAddressesAreOccupied => 79,
            CauseValue::UnknownPreDefinedRule => 80,
            CauseValue::UnknownApplicationId => 81,
        }
    }

    /// The cause value an octet denotes.
    pub fn from_code(c: u8) -> (r: CauseValue)
        ensures
            r == cause_of_code(c),
    {
        match c {
            1 => CauseValue::RequestAccepted,
            2 => CauseValue::MoreUsageReportToSend,
            3 => CauseValue::RequestPartiallyAccepted,
            64 => CauseValue::RequestRejected,
            65 => CauseValue::SessionContextNotFound,
            66 => CauseValue::MandatoryIeMissing,
            67 => CauseValue::ConditionalIeMissing,
            68 => CauseValue::InvalidLength,
            69 => CauseValue::MandatoryIeIncorrect,
            70 => CauseValue::InvalidForwardingPolicy,
            71 => CauseValue::InvalidFTeidAllocationOption,
            72 => CauseValue::NoEstablishedPfcpAssociation,
            73 => CauseValue::RuleCreationModificationFailure,
            74 => CauseValue::PfcpEntityInCongestion,
            75 => CauseValue::NoResourcesAvailable,
            76 => CauseValue::ServiceNotSupported,
            77 => CauseValue::SystemFailure,
            78 => CauseValue::RedirectionRequested,
            79 => CauseValue::AllDynamicAddressesAreOccupied,
            80 => CauseValue::UnknownPreDefinedRule,
            81 => CauseValue::UnknownApplicationId,
            _ => CauseValue::Unknown,
        }
    }
}

/// A Cause IE value.
#[derive(Debug, Clone, Copy, PartialEq, Eq, Structural)]
pub struct Cause {
    pub value: CauseValue,
}

impl View for Cause {
    type V = Cause;

    open spec fn view(&self) -> Cause {
        *self
    }
}

/// The Cause IE that carries `v`.
pub open spec fn cause_ie_view(v: CauseValue) -> IeView {
    IeView { ie_type: IeType::Cause, payload: seq![cause_code(v)] }
}

/// Decoding a Cause payload: its first octet.
pub open spec fn spec_parse_cause(b: Seq<u8>) -> Result<Cause, PfcpError> {
    if b.len() < 1 {
        Err(PfcpError::InvalidLength { ie_type: Some(IeType::Cause), expected: 1, actual: b.len() as usize })
    } else {
        Ok(Cause { value: cause_of_code(b[0]) })
    }
}

impl Cause {
    /// A Cause carrying `value`.
    pub fn new(value: CauseValue) -> (r: Cause)
        ensures
            r.value == value,
    {
        Cause { value }
    }

    /// The payload: the cause octet.
    pub fn marshal(&self) -> (r: Vec<u8>)
        ensures
            r@ == seq![cause_code(self.value)],
    {
        let mut v: Vec<u8> = Vec::new();
        v.push(self.value.code());
        assert(v@ =~= seq![cause_code(self.value)]);
        v
    }

    /// Decodes a Cause payload.
    pub fn unmarshal(payload: &[u8]) -> (r: Result<Cause, PfcpError>)
        ensures
            r == spec_parse_cause(payload@),
    {
        if payload.len() < 1 {
            return Err(PfcpError::InvalidLength { ie_type: Some(IeType::Cause), expected: 1, actual: payload.len() });
        }
        Ok(Cause { value: CauseValue::from_code(payload[0]) })
    }

    /// The Cause IE carrying this value.
    pub fn to_ie(&self) -> (r: Ie)
        ensures
            r@ == cause_ie_view(self.value),
    {
        Ie::new(IeType::Cause, self.marshal())
    }
}

/// Every named cause value reads back as itself.
pub proof fn lemma_cause_roundtrip(v: CauseValue)
    ensures
        spec_parse_cause(seq![cause_code(v)]) == Ok::<Cause, PfcpError>(Cause { value: v }),
{
}

} // verus!
