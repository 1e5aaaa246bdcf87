//! The Load Control Information IE (3GPP TS 29.244 clause 7.5.3.3): a grouped
//! IE with the load control sequence number and the load metric.
use crate::bytes::{be32, lemma_be32_roundtrip, push_be32};
use crate::error::PfcpError;
use crate::ie::grouped::{
    lemma_first_of_type_at, lemma_ies_wire_one, lemma_ies_wire_push, member_u32, member_u8, read_member_u32,
    read_member_u8,
};
use crate::ie::{ies_wf, ies_wire, ie_wf, lemma_parse_ies_wire, parse_ies, spec_parse_ies, Ie, IeType, IeView};
use vstd::prelude::*;

verus! {

/// Load Control Information: the sequence number of the load report and the
/// load metric (a percentage).
#[derive(Debug, Clone, Copy, PartialEq, Eq, Structural)]
pub struct LoadControlInformation {
    pub sequence_number: u32,
    pub metric: u8,
}

/// The member IEs: the Sequence Number, then the Metric.
pub open spec fn load_control_members(v: LoadControlInformation) -> Seq<IeView> {
    seq![
        IeView { ie_type: IeType::SequenceNumber, payload: be32(v.sequence_number) },
        IeView { ie_type: IeType::Metric, payload: seq![v.metric] },
    ]
}

/// Decoding a Load Control Information payload: its members are read, and
/// the first Sequence Number and the first Metric must be there.
pub open spec fn spec_parse_load_control_information(b: Seq<u8>) -> Result<LoadControlInformation, PfcpError> {
    match spec_parse_ies(b) {
        Err(e) => Err(e),
        Ok(ies) => match member_u32(ies, IeType::SequenceNumber) {
            Err(e) => Err(e),
            Ok(sequence_number) => match member_u8(ies, IeType::Metric) {
                Err(e) => Err(e),
                Ok(metric) => Ok(LoadControlInformation { sequence_number, metric }),
            },
        },
    }
}

impl LoadControlInformation {
    /// Load Control Information with the given sequence number and metric.
    pub fn new(sequence_number: u32, metric: u8) -> (r: LoadControlInformation)
        ensures
            r == (LoadControlInformation { sequence_number, metric }),
    {
        LoadControlInformation { sequence_number, metric }
    }

    /// The payload: the member IEs' wire forms.
    pub fn marshal(&self) -> (r: Vec<u8>)
        ensures
            r@ == ies_wire(load_control_members(*self)),
    {
        let mut sn: Vec<u8> = Vec::new();
        push_be32(&mut sn, self.sequence_number);
        let mut mt: Vec<u8> = Vec::new();
        mt.push(self.metric);
        let a = Ie::new(IeType::SequenceNumber, sn);
        let b = Ie::new(IeType::Metric, mt);
        let mut buf: Vec<u8> = Vec::new();
        a.marshal_into(&mut buf);
        b.marshal_into(&mut buf);
        proof {
            let m = load_control_members(*self);
            assert(sn@ =~= be32(self.sequence_number));
            assert(mt@ =~= seq![self.metric]);
            lemma_ies_wire_one(a@);
            lemma_ies_wire_push(seq![a@], b@);
            assert(seq![a@].push(b@) =~= m);
            assert(buf@ =~= ies_wire(m));
        }
        buf
    }

    /// Decodes a Load Control Information payload.
    pub fn unmarshal(payload: &[u8]) -> (r: Result<LoadControlInformation, PfcpError>)
        ensures
            r == spec_parse_load_control_information(payload@),
    {
        assert(payload@.skip(0) =~= payload@);
        let ies = match parse_ies(payload, 0) {
            Ok(v) => v,
            Err(e) => return Err(e),
        };
        let sequence_number = match read_member_u32(&ies, IeType::SequenceNumber) {
            Ok(v) => v,
            Err(e) => return Err(e),
        };
        let metric = match read_member_u8(&ies, IeType::Metric) {
            Ok(v) => v,
            Err(e) => return Err(e),
        };
        Ok(LoadControlInformation { sequence_number, metric })
    }

    /// The Load Control Information IE carrying this value.
    pub fn to_ie(&self) -> (r: Ie)
        ensures
            r@ == (IeView { ie_type: IeType::LoadControlInformation, payload: ies_wire(load_control_members(*self)) }),
    {
        Ie::new(IeType::LoadControlInformation, self.marshal())
    }
}

/// Every Load Control Information reads back as itself.
pub proof fn lemma_load_control_information_roundtrip(v: LoadControlInformation)
    ensures
        spec_parse_load_control_information(ies_wire(load_control_members(v))) == Ok::<LoadControlInformation, PfcpError>(v),
{
    let m = load_control_members(v);
    lemma_be32_roundtrip(v.sequence_number);
    assert(ies_wf(m)) by {
        assert forall|i: int| 0 <= i < m.len() implies #[trigger] ie_wf(m[i]) by {}
    }
    lemma_parse_ies_wire(m);
    lemma_first_of_type_at(m, IeType::SequenceNumber, 0);
    lemma_first_of_type_at(m, IeType::Metric, 1);
}

} // verus!
