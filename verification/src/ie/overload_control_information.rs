//! The Overload Control Information IE (3GPP TS 29.244 clause 7.5.3.4): a
//! grouped IE with the overload control sequence number, the overload
//! reduction metric, the period of validity and, optionally, the overload
//! control information flags.
use crate::bytes::{be32, lemma_be32_roundtrip, push_be32};
use crate::error::PfcpError;
use crate::ie::grouped::{
    first_of_type, lemma_first_of_type_at, lemma_ies_wire_one, lemma_ies_wire_push, lemma_of_type_none, member_u32,
    member_u8, opt_member_u8, read_member_u32, read_member_u8, read_opt_member_u8,
};
use crate::ie::{ie_wf, ies_wf, ies_wire, lemma_parse_ies_wire, parse_ies, spec_parse_ies, Ie, IeType, IeView};
use vstd::prelude::*;

verus! {

/// Overload Control Information: the sequence number, the reduction metric
/// (a percentage), the Timer octet of the period of validity, and the OCI
/// Flags octet when present.
#[derive(Debug, Clone, Copy, PartialEq, Eq, Structural)]
pub struct OverloadControlInformation {
    pub sequence_number: u32,
    pub metric: u8,
    pub timer: u8,
    pub oci_flags: Option<u8>,
}

/// The member IEs: the Sequence Number, the Metric, the Timer, then the OCI
/// Flags when present.
pub open spec fn overload_control_members(v: OverloadControlInformation) -> Seq<IeView> {
    let base = seq![
        IeView { ie_type: IeType::SequenceNumber, payload: be32(v.sequence_number) },
        IeView { ie_type: IeType::Metric, payload: seq![v.metric] },
        IeView { ie_type: IeType::Timer, payload: seq![v.timer] },
    ];
    match v.oci_flags {
        Some(f) => base.push(IeView { ie_type: IeType::OciFlags, payload: seq![f] }),
        None => base,
    }
}

/// Decoding an Overload Control Information payload: its members are read;
/// the first Sequence Number, Metric and Timer must be there, and the first
/// OCI Flags is read when there is one.
pub open spec fn spec_parse_overload_control_information(b: Seq<u8>) -> Result<OverloadControlInformation, PfcpError> {
    match spec_parse_ies(b) {
        Err(e) => Err(e),
        Ok(ies) => match member_u32(ies, IeType::SequenceNumber) {
            Err(e) => Err(e),
            Ok(sequence_number) => match member_u8(ies, IeType::Metric) {
                Err(e) => Err(e),
                Ok(metric) => match member_u8(ies, IeType::Timer) {
                    Err(e) => Err(e),
                    Ok(timer) => match opt_member_u8(ies, IeType::OciFlags) {
                        Err(e) => Err(e),
                        Ok(oci_flags) => Ok(OverloadControlInformation { sequence_number, metric, timer, oci_flags }),
                    },
                },
            },
        },
    }
}

/// The IE holding one octet.
fn octet_ie(t: IeType, o: u8) -> (r: Ie)
    ensures
        r@ == (IeView { ie_type: t, payload: seq![o] }),
{
    let mut v: Vec<u8> = Vec::new();
    v.push(o);
    assert(v@ =~= seq![o]);
    Ie::new(t, v)
}

impl OverloadControlInformation {
    /// Overload Control Information with the given fields.
    pub fn new(sequence_number: u32, metric: u8, timer: u8, oci_flags: Option<u8>) -> (r: OverloadControlInformation)
        ensures
            r == (OverloadControlInformation { sequence_number, metric, timer, oci_flags }),
    {
        OverloadControlInformation { sequence_number, metric, timer, oci_flags }
    }

    /// The payload: the member IEs' wire forms.
    pub fn marshal(&self) -> (r: Vec<u8>)
        ensures
            r@ == ies_wire(overload_control_members(*self)),
    {
        let mut sn: Vec<u8> = Vec::new();
        push_be32(&mut sn, self.sequence_number);
        let a = Ie::new(IeType::SequenceNumber, sn);
        let b = octet_ie(IeType::Metric, self.metric);
        let c = octet_ie(IeType::Timer, self.timer);
        let mut buf: Vec<u8> = Vec::new();
        a.marshal_into(&mut buf);
        b.marshal_into(&mut buf);
        c.marshal_into(&mut buf);
        let ghost base = seq![a@, b@, c@];
        proof {
            assert(sn@ =~= be32(self.sequence_number));
            lemma_ies_wire_one(a@);
            lemma_ies_wire_push(seq![a@], b@);
            lemma_ies_wire_push(seq![a@, b@], c@);
            assert(seq![a@].push(b@) =~= seq![a@, b@]);
            assert(seq![a@, b@].push(c@) =~= base);
            assert(buf@ =~= ies_wire(base));
        }
        match self.oci_flags {
            Some(f) => {
                let d = octet_ie(IeType::OciFlags, f);
                d.marshal_into(&mut buf);
                proof {
                    lemma_ies_wire_push(base, d@);
                }
            },
            None => {},
        }
        assert(buf@ =~= ies_wire(overload_control_members(*self)));
        buf
    }

    /// Decodes an Overload Control Information payload.
    pub fn unmarshal(payload: &[u8]) -> (r: Result<OverloadControlInformation, PfcpError>)
        ensures
            r == spec_parse_overload_control_information(payload@),
    {
        assert(payload@.skip(0) =~= payload@);
        let ies = match parse_ies(payload, 0) {
            Ok(v) => v,
            Err(e) => return Err(e),
        };
        let sequence_number = match read_member_u32(&ies, IeType::SequenceNumber) {
            Ok(v) => v,
            Err(e) => return Err(e),
        };
        let metric = match read_member_u8(&ies, IeType::Metric) {
            Ok(v) => v,
            Err(e) => return Err(e),
        };
        let timer = match read_member_u8(&ies, IeType::Timer) {
            Ok(v) => v,
            Err(e) => return Err(e),
        };
        let oci_flags = match read_opt_member_u8(&ies, IeType::OciFlags) {
            Ok(v) => v,
            Err(e) => return Err(e),
        };
        Ok(OverloadControlInformation { sequence_number, metric, timer, oci_flags })
    }

    /// The Overload Control Information IE carrying this value.
    pub fn to_ie(&self) -> (r: Ie)
        ensures
            r@ == (IeView {
                ie_type: IeType::OverloadControlInformation,
                payload: ies_wire(overload_control_members(*self)),
            }),
    {
        Ie::new(IeType::OverloadControlInformation, self.marshal())
    }
}

/// Every Overload Control Information reads back as itself.
pub proof fn lemma_overload_control_information_roundtrip(v: OverloadControlInformation)
    ensures
        spec_parse_overload_control_information(ies_wire(overload_control_members(v))) == Ok::<
            OverloadControlInformation,
            PfcpError,
        >(v),
{
    let m = overload_control_members(v);
    lemma_be32_roundtrip(v.sequence_number);
    assert(ies_wf(m)) by {
        assert forall|i: int| 0 <= i < m.len() implies #[trigger] ie_wf(m[i]) by {}
    }
    lemma_parse_ies_wire(m);
    lemma_first_of_type_at(m, IeType::SequenceNumber, 0);
    lemma_first_of_type_at(m, IeType::Metric, 1);
    lemma_first_of_type_at(m, IeType::Timer, 2);
    match v.oci_flags {
        Some(f) => {
            lemma_first_of_type_at(m, IeType::OciFlags, 3);
        },
        None => {
            lemma_of_type_none(m, IeType::OciFlags);
            assert(first_of_type(m, IeType::OciFlags) is None);
        },
    }
}

} // verus!
