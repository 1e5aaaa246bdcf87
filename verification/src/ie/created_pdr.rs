//! The Created PDR IE (3GPP TS 29.244 clause 7.5.3.2): a grouped IE with the
//! PDR ID of a PDR the user plane created and the local F-TEID it allocated
//! for it. Other members are passed over.
use crate::bytes::{be16, lemma_be16_roundtrip, push_be16};
use crate::error::PfcpError;
use crate::ie::fteid::{fteid_bytes, fteid_wf, lemma_fteid_roundtrip, spec_parse_fteid, Fteid, FteidView};
use crate::ie::grouped::{
    find_first, first_of_type, lemma_first_of_type_at, lemma_ies_wire_one, lemma_ies_wire_push, member_u16,
    read_member_u16,
};
use crate::ie::{ie_wf, ies_wf, ies_wire, lemma_parse_ies_wire, parse_ies, spec_parse_ies, Ie, IeType, IeView};
use vstd::prelude::*;

verus! {

/// A Created PDR: the PDR ID and the local F-TEID.
#[derive(Debug, Clone, Copy, PartialEq, Eq)]
pub struct CreatedPdr {
    pub pdr_id: u16,
    pub f_teid: Fteid,
}

/// The value of a Created PDR.
pub struct CreatedPdrView {
    pub pdr_id: u16,
    pub f_teid: FteidView,
}

impl View for CreatedPdr {
    type V = CreatedPdrView;

    open spec fn view(&self) -> CreatedPdrView {
        CreatedPdrView { pdr_id: self.pdr_id, f_teid: self.f_teid@ }
    }
}

/// The member IEs: the PDR ID, then the F-TEID.
pub open spec fn created_pdr_members(v: CreatedPdrView) -> Seq<IeView> {
    seq![
        IeView { ie_type: IeType::PdrId, payload: be16(v.pdr_id) },
        IeView { ie_type: IeType::Fteid, payload: fteid_bytes(v.f_teid) },
    ]
}

/// Decoding a Created PDR payload: its members are read, and the first PDR
/// ID and the first F-TEID must be there and decode.
pub open spec fn spec_parse_created_pdr(b: Seq<u8>) -> Result<CreatedPdrView, PfcpError> {
    match spec_parse_ies(b) {
        Err(e) => Err(e),
        Ok(ies) => match member_u16(ies, IeType::PdrId) {
            Err(e) => Err(e),
            Ok(pdr_id) => match first_of_type(ies, IeType::Fteid) {
                None => Err(PfcpError::MissingMandatoryIe { ie_type: IeType::Fteid, message_type: None }),
                Some(x) => match spec_parse_fteid(x.payload) {
                    Err(e) => Err(e),
                    Ok(f_teid) => Ok(CreatedPdrView { pdr_id, f_teid }),
                },
            },
        },
    }
}

impl CreatedPdr {
    /// A Created PDR with the given PDR ID and F-TEID.
    pub fn new(pdr_id: u16, f_teid: Fteid) -> (r: CreatedPdr)
        ensures
            r == (CreatedPdr { pdr_id, f_teid }),
    {
        CreatedPdr { pdr_id, f_teid }
    }

    /// The payload: the member IEs' wire forms.
    pub fn marshal(&self) -> (r: Vec<u8>)
        ensures
            r@ == ies_wire(created_pdr_members(self@)),
    {
        let mut id: Vec<u8> = Vec::new();
        push_be16(&mut id, self.pdr_id);
        let a = Ie::new(IeType::PdrId, id);
        let b = self.f_teid.to_ie();
        let mut buf: Vec<u8> = Vec::new();
        a.marshal_into(&mut buf);
        b.marshal_into(&mut buf);
        proof {
            assert(id@ =~= be16(self.pdr_id));
            lemma_ies_wire_one(a@);
            lemma_ies_wire_push(seq![a@], b@);
            assert(seq![a@].push(b@) =~= created_pdr_members(self@));
        }
        buf
    }

    /// Decodes a Created PDR payload.
    pub fn unmarshal(payload: &[u8]) -> (r: Result<CreatedPdr, PfcpError>)
        ensures
            match spec_parse_created_pdr(payload@) {
                Ok(v) => r is Ok && r->Ok_0@ == v,
                Err(e) => r == Err::<CreatedPdr, PfcpError>(e),
            },
    {
        assert(payload@.skip(0) =~= payload@);
        let ies = match parse_ies(payload, 0) {
            Ok(v) => v,
            Err(e) => return Err(e),
        };
        let pdr_id = match read_member_u16(&ies, IeType::PdrId) {
            Ok(v) => v,
            Err(e) => return Err(e),
        };
        let f_teid = match find_first(&ies, IeType::Fteid) {
            Some(x) => match Fteid::unmarshal(x.payload.as_slice()) {
                Ok(f) => f,
                Err(e) => return Err(e),
            },
            None => return Err(PfcpError::MissingMandatoryIe { ie_type: IeType::Fteid, message_type: None }),
        };
        Ok(CreatedPdr { pdr_id, f_teid })
    }

    /// The Created PDR IE carrying this value.
    pub fn to_ie(&self) -> (r: Ie)
        ensures
            r@ == (IeView { ie_type: IeType::CreatedPdr, payload: ies_wire(created_pdr_members(self@)) }),
    {
        Ie::new(IeType::CreatedPdr, self.marshal())
    }
}

/// A Created PDR whose F-TEID is well formed reads back as itself.
pub proof fn lemma_created_pdr_roundtrip(v: CreatedPdrView)
    requires
        fteid_wf(v.f_teid),
    ensures
        spec_parse_created_pdr(ies_wire(created_pdr_members(v))) == Ok::<CreatedPdrView, PfcpError>(v),
{
    let m = created_pdr_members(v);
    lemma_be16_roundtrip(v.pdr_id);
    lemma_fteid_roundtrip(v.f_teid);
    assert(fteid_bytes(v.f_teid).len() <= 26);
    assert(ies_wf(m)) by {
        assert forall|i: int| 0 <= i < m.len() implies #[trigger] ie_wf(m[i]) by {}
    }
    lemma_parse_ies_wire(m);
    lemma_first_of_type_at(m, IeType::PdrId, 0);
    lemma_first_of_type_at(m, IeType::Fteid, 1);
}

} // verus!
