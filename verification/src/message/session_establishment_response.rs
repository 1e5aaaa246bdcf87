//! Session Establishment Response message (3GPP TS 29.244 clause 7.5.3).
use crate::error::PfcpError;
use crate::ie::{
    ie_refs_view, ies_of_type, ies_size, ies_view, ies_where, ies_wf, ies_wire, parse_ies, spec_parse_ies, Ie,
    IeType, IeView,
};
use crate::message::header::{
    header_size, header_wf, header_wire, lemma_header_roundtrip, lemma_header_wire_len, spec_parse_header, Header,
};
use crate::message::ie_iter::IeIter;
use crate::message::slots::{
    concat_slots, decode_slot, decode_slots, empty_buckets, last_ie, lemma_decode_concat, lemma_len_step,
    lemma_slot_ies_empty, lemma_slot_ies_push_all, len_slot_many, len_slot_one, len_slot_opt, list_slot_many,
    list_slot_one, list_slot_opt, opt_ie_seq, push_bucket, slot_ies, slots_typed, take_bucket, write_slot_many,
    write_slot_one, write_slot_opt, SlotKind, last_seq, lemma_classified_push, lemma_ies_of_type_is_where,
    lemma_ies_where_ext, lemma_of_type_all, lemma_of_type_classified, lemma_of_type_types, slot_pred,
    slots_classified,
};
use crate::message::{lemma_msg_type_code_roundtrip, lemma_parse_header_size, message_header, Message, MsgType};
use crate::ie::cause::{Cause, CauseValue};
use crate::ie::created_pdr::CreatedPdr;
use crate::ie::fseid::Fseid;
use crate::ie::load_control_information::LoadControlInformation;
use crate::ie::node_id::NodeId;
use crate::ie::offending_ie::OffendingIe;
use crate::ie::overload_control_information::OverloadControlInformation;
use crate::ie::pdn_type::PdnType;
use crate::ie::rds_configuration_information::RdsConfigurationInformation;
use vstd::prelude::*;

verus! {

/// A Session Establishment Response message (3GPP TS 29.244 clause 7.5.3)
#[derive(Debug, Clone, PartialEq, Eq)]
pub struct SessionEstablishmentResponse {
    pub header: Header,
    pub node_id: Ie,
    pub cause: Ie,
    pub offending_ie: Option<Ie>,
    pub fseid: Ie,
    pub created_pdrs: Vec<Ie>,
    pub pdn_type: Option<Ie>,
    pub load_control_information: Option<Ie>,
    pub overload_control_information: Option<Ie>,
    pub failed_rule_id: Option<Ie>,
    pub partial_failure_information: Vec<Ie>,
    pub created_traffic_endpoints: Vec<Ie>,
    pub fq_csids: Vec<Ie>,
    pub created_bridge_info_for_tsc: Option<Ie>,
    pub atsss_control_parameters: Option<Ie>,
    pub rds_configuration_information: Option<Ie>,
    pub created_l2tp_session: Option<Ie>,
    pub mbs_session_n4mb_information: Option<Ie>,
    pub mbs_session_n4_information: Vec<Ie>,
    pub tl_containers: Vec<Ie>,
    pub ies: Vec<Ie>,
}

impl SessionEstablishmentResponse {
    /// The slot that an IE of type `t` is read into.
    pub open spec fn slot_class(t: IeType) -> int {
        match t {
            IeType::NodeId => 0,
            IeType::Cause => 1,
            IeType::OffendingIe => 2,
            IeType::Fseid => 3,
            IeType::CreatedPdr => 4,
            IeType::PdnType => 5,
            IeType::LoadControlInformation => 6,
            IeType::OverloadControlInformation => 7,
            IeType::FailedRuleId => 8,
            IeType::PartialFailureInformation => 9,
            IeType::CreatedTrafficEndpoint => 10,
            IeType::FqCsid => 11,
            IeType::CreatedBridgeInfoForTsc => 12,
            IeType::AtsssControlParameters => 13,
            IeType::RdsConfigurationInformation => 14,
            IeType::CreatedL2tpSession => 15,
            IeType::MbsSessionN4mbInformation => 16,
            IeType::MbsSessionN4Information => 17,
            IeType::TlContainer => 18,
            _ => 19,
        }
    }

    /// The slot that an IE of type `t` is read into.
    fn classify(t: IeType) -> (r: usize)
        ensures
            r == Self::slot_class(t),
    {
        match t {
            IeType::NodeId => 0,
            IeType::Cause => 1,
            IeType::OffendingIe => 2,
            IeType::Fseid => 3,
            IeType::CreatedPdr => 4,
            IeType::PdnType => 5,
            IeType::LoadControlInformation => 6,
            IeType::OverloadControlInformation => 7,
            IeType::FailedRuleId => 8,
            IeType::PartialFailureInformation => 9,
            IeType::CreatedTrafficEndpoint => 10,
            IeType::FqCsid => 11,
            IeType::CreatedBridgeInfoForTsc => 12,
            IeType::AtsssControlParameters => 13,
            IeType::RdsConfigurationInformation => 14,
            IeType::CreatedL2tpSession => 15,
            IeType::MbsSessionN4mbInformation => 16,
            IeType::MbsSessionN4Information => 17,
            IeType::TlContainer => 18,
            _ => 19,
        }
    }

    /// `slot_class` as a function value.
    pub open spec fn classifier() -> spec_fn(IeType) -> int {
        |t: IeType| Self::slot_class(t)
    }

    /// How many IEs each slot keeps, in wire order.
    pub open spec fn slot_kinds() -> Seq<SlotKind> {
        seq![SlotKind::One, SlotKind::One, SlotKind::One, SlotKind::One, SlotKind::Many, SlotKind::One, SlotKind::One, SlotKind::One, SlotKind::One, SlotKind::Many, SlotKind::Many, SlotKind::Many, SlotKind::One, SlotKind::One, SlotKind::One, SlotKind::One, SlotKind::One, SlotKind::Many, SlotKind::Many, SlotKind::Many]
    }

    /// The IEs of each field, in wire order.
    pub open spec fn slots(&self) -> Seq<Seq<IeView>> {
        Seq::<Seq<IeView>>::empty().push(seq![self.node_id@]).push(seq![self.cause@]).push(opt_ie_seq(self.offending_ie)).push(seq![self.fseid@]).push(ies_view(self.created_pdrs@)).push(opt_ie_seq(self.pdn_type)).push(opt_ie_seq(self.load_control_information)).push(opt_ie_seq(self.overload_control_information)).push(opt_ie_seq(self.failed_rule_id)).push(ies_view(self.partial_failure_information@)).push(ies_view(self.created_traffic_endpoints@)).push(ies_view(self.fq_csids@)).push(opt_ie_seq(self.created_bridge_info_for_tsc)).push(opt_ie_seq(self.atsss_control_parameters)).push(opt_ie_seq(self.rds_configuration_information)).push(opt_ie_seq(self.created_l2tp_session)).push(opt_ie_seq(self.mbs_session_n4mb_information)).push(ies_view(self.mbs_session_n4_information@)).push(ies_view(self.tl_containers@)).push(ies_view(self.ies@))
    }

    /// The IEs in the order that `all_ies` lists them.
    pub open spec fn listed_ies(&self) -> Seq<IeView> {
        concat_slots(Seq::<Seq<IeView>>::empty().push(seq![self.node_id@]).push(seq![self.cause@]).push(seq![self.fseid@]).push(opt_ie_seq(self.offending_ie)).push(ies_view(self.created_pdrs@)).push(opt_ie_seq(self.pdn_type)).push(opt_ie_seq(self.load_control_information)).push(opt_ie_seq(self.overload_control_information)).push(opt_ie_seq(self.failed_rule_id)).push(ies_view(self.partial_failure_information@)).push(ies_view(self.created_traffic_endpoints@)).push(ies_view(self.fq_csids@)).push(opt_ie_seq(self.created_bridge_info_for_tsc)).push(opt_ie_seq(self.atsss_control_parameters)).push(opt_ie_seq(self.rds_configuration_information)).push(opt_ie_seq(self.created_l2tp_session)).push(opt_ie_seq(self.mbs_session_n4mb_information)).push(ies_view(self.mbs_session_n4_information@)).push(ies_view(self.tl_containers@)).push(ies_view(self.ies@)))
    }

    /// The first mandatory IE that `ies` lacks, checked in the order the decoder checks.
    pub open spec fn missing_ie(ies: Seq<IeView>) -> Option<IeType> {
        if decode_slot(ies, Self::classifier(), 0, SlotKind::One).len() == 0 {
            Some(IeType::NodeId)
        } else {
            if decode_slot(ies, Self::classifier(), 1, SlotKind::One).len() == 0 {
            Some(IeType::Cause)
        } else {
            if decode_slot(ies, Self::classifier(), 3, SlotKind::One).len() == 0 {
            Some(IeType::Fseid)
        } else {
            None
        }
        }
        }
    }

    /// The fields have a shape that decoding gives back: every IE is in the field for its type,
    /// mandatory lists are not empty and optional lists are present only when not empty.
    pub open spec fn fields_canonical(&self) -> bool {
        slots_typed(self.slots(), Self::classifier(), Self::slot_kinds())
    }

    /// A message that reads back as itself.
    pub open spec fn well_formed(&self) -> bool {
        header_wf(self.header) && ies_wf(concat_slots(self.slots())) && self.fields_canonical()
    }

    /// The wire form of the message: its header, then its IEs in wire order.
    pub open spec fn wire(&self) -> Seq<u8> {
        header_wire(self.header) + ies_wire(concat_slots(self.slots()))
    }

    /// Decoding `ies` gives these fields.
    pub open spec fn decodes_from(&self, ies: Seq<IeView>) -> bool {
        &&& seq![self.node_id@] == decode_slot(ies, Self::classifier(), 0, SlotKind::One)
        &&& seq![self.cause@] == decode_slot(ies, Self::classifier(), 1, SlotKind::One)
        &&& opt_ie_seq(self.offending_ie) == decode_slot(ies, Self::classifier(), 2, SlotKind::One)
        &&& seq![self.fseid@] == decode_slot(ies, Self::classifier(), 3, SlotKind::One)
        &&& ies_view(self.created_pdrs@) == decode_slot(ies, Self::classifier(), 4, SlotKind::Many)
        &&& opt_ie_seq(self.pdn_type) == decode_slot(ies, Self::classifier(), 5, SlotKind::One)
        &&& opt_ie_seq(self.load_control_information) == decode_slot(ies, Self::classifier(), 6, SlotKind::One)
        &&& opt_ie_seq(self.overload_control_information) == decode_slot(ies, Self::classifier(), 7, SlotKind::One)
        &&& opt_ie_seq(self.failed_rule_id) == decode_slot(ies, Self::classifier(), 8, SlotKind::One)
        &&& ies_view(self.partial_failure_information@) == decode_slot(ies, Self::classifier(), 9, SlotKind::Many)
        &&& ies_view(self.created_traffic_endpoints@) == decode_slot(ies, Self::classifier(), 10, SlotKind::Many)
        &&& ies_view(self.fq_csids@) == decode_slot(ies, Self::classifier(), 11, SlotKind::Many)
        &&& opt_ie_seq(self.created_bridge_info_for_tsc) == decode_slot(ies, Self::classifier(), 12, SlotKind::One)
        &&& opt_ie_seq(self.atsss_control_parameters) == decode_slot(ies, Self::classifier(), 13, SlotKind::One)
        &&& opt_ie_seq(self.rds_configuration_information) == decode_slot(ies, Self::classifier(), 14, SlotKind::One)
        &&& opt_ie_seq(self.created_l2tp_session) == decode_slot(ies, Self::classifier(), 15, SlotKind::One)
        &&& opt_ie_seq(self.mbs_session_n4mb_information) == decode_slot(ies, Self::classifier(), 16, SlotKind::One)
        &&& ies_view(self.mbs_session_n4_information@) == decode_slot(ies, Self::classifier(), 17, SlotKind::Many)
        &&& ies_view(self.tl_containers@) == decode_slot(ies, Self::classifier(), 18, SlotKind::Many)
        &&& ies_view(self.ies@) == decode_slot(ies, Self::classifier(), 19, SlotKind::Many)
    }

    /// Assembles a message from its fields; the header length covers the fields' IEs.
    fn assemble(seid: u64, seq: u32, node_id: Ie, cause: Ie, offending_ie: Option<Ie>, fseid: Ie, created_pdrs: Vec<Ie>, pdn_type: Option<Ie>, load_control_information: Option<Ie>, overload_control_information: Option<Ie>, failed_rule_id: Option<Ie>, partial_failure_information: Vec<Ie>, created_traffic_endpoints: Vec<Ie>, fq_csids: Vec<Ie>, created_bridge_info_for_tsc: Option<Ie>, atsss_control_parameters: Option<Ie>, rds_configuration_information: Option<Ie>, created_l2tp_session: Option<Ie>, mbs_session_n4mb_information: Option<Ie>, mbs_session_n4_information: Vec<Ie>, tl_containers: Vec<Ie>, ies: Vec<Ie>) -> (r: Self)
        ensures
            r.header == message_header(MsgType::SessionEstablishmentResponse, true, seid, seq, concat_slots(r.slots())),
            r.node_id == node_id,
            r.cause == cause,
            r.offending_ie == offending_ie,
            r.fseid == fseid,
            r.created_pdrs == created_pdrs,
            r.pdn_type == pdn_type,
            r.load_control_information == load_control_information,
            r.overload_control_information == overload_control_information,
            r.failed_rule_id == failed_rule_id,
            r.partial_failure_information == partial_failure_information,
            r.created_traffic_endpoints == created_traffic_endpoints,
            r.fq_csids == fq_csids,
            r.created_bridge_info_for_tsc == created_bridge_info_for_tsc,
            r.atsss_control_parameters == atsss_control_parameters,
            r.rds_configuration_information == rds_configuration_information,
            r.created_l2tp_session == created_l2tp_session,
            r.mbs_session_n4mb_information == mbs_session_n4mb_information,
            r.mbs_session_n4_information == mbs_session_n4_information,
            r.tl_containers == tl_containers,
            r.ies == ies,
    {
        let len: u16 = 0;
        let len = len_slot_one(len, &node_id, Ghost(Seq::<Seq<IeView>>::empty()));
        let len = len_slot_one(len, &cause, Ghost(Seq::<Seq<IeView>>::empty().push(seq![node_id@])));
        let len = len_slot_opt(len, &offending_ie, Ghost(Seq::<Seq<IeView>>::empty().push(seq![node_id@]).push(seq![cause@])));
        let len = len_slot_one(len, &fseid, Ghost(Seq::<Seq<IeView>>::empty().push(seq![node_id@]).push(seq![cause@]).push(opt_ie_seq(offending_ie))));
        let len = len_slot_many(len, &created_pdrs, Ghost(Seq::<Seq<IeView>>::empty().push(seq![node_id@]).push(seq![cause@]).push(opt_ie_seq(offending_ie)).push(seq![fseid@])));
        let len = len_slot_opt(len, &pdn_type, Ghost(Seq::<Seq<IeView>>::empty().push(seq![node_id@]).push(seq![cause@]).push(opt_ie_seq(offending_ie)).push(seq![fseid@]).push(ies_view(created_pdrs@))));
        let len = len_slot_opt(len, &load_control_information, Ghost(Seq::<Seq<IeView>>::empty().push(seq![node_id@]).push(seq![cause@]).push(opt_ie_seq(offending_ie)).push(seq![fseid@]).push(ies_view(created_pdrs@)).push(opt_ie_seq(pdn_type))));
        let len = len_slot_opt(len, &overload_control_information, Ghost(Seq::<Seq<IeView>>::empty().push(seq![node_id@]).push(seq![cause@]).push(opt_ie_seq(offending_ie)).push(seq![fseid@]).push(ies_view(created_pdrs@)).push(opt_ie_seq(pdn_type)).push(opt_ie_seq(load_control_information))));
        let len = len_slot_opt(len, &failed_rule_id, Ghost(Seq::<Seq<IeView>>::empty().push(seq![node_id@]).push(seq![cause@]).push(opt_ie_seq(offending_ie)).push(seq![fseid@]).push(ies_view(created_pdrs@)).push(opt_ie_seq(pdn_type)).push(opt_ie_seq(load_control_information)).push(opt_ie_seq(overload_control_information))));
        let len = len_slot_many(len, &partial_failure_information, Ghost(Seq::<Seq<IeView>>::empty().push(seq![node_id@]).push(seq![cause@]).push(opt_ie_seq(offending_ie)).push(seq![fseid@]).push(ies_view(created_pdrs@)).push(opt_ie_seq(pdn_type)).push(opt_ie_seq(load_control_information)).push(opt_ie_seq(overload_control_information)).push(opt_ie_seq(failed_rule_id))));
        let len = len_slot_many(len, &created_traffic_endpoints, Ghost(Seq::<Seq<IeView>>::empty().push(seq![node_id@]).push(seq![cause@]).push(opt_ie_seq(offending_ie)).push(seq![fseid@]).push(ies_view(created_pdrs@)).push(opt_ie_seq(pdn_type)).push(opt_ie_seq(load_control_information)).push(opt_ie_seq(overload_control_information)).push(opt_ie_seq(failed_rule_id)).push(ies_view(partial_failure_information@))));
        let len = len_slot_many(len, &fq_csids, Ghost(Seq::<Seq<IeView>>::empty().push(seq![node_id@]).push(seq![cause@]).push(opt_ie_seq(offending_ie)).push(seq![fseid@]).push(ies_view(created_pdrs@)).push(opt_ie_seq(pdn_type)).push(opt_ie_seq(load_control_information)).push(opt_ie_seq(overload_control_information)).push(opt_ie_seq(failed_rule_id)).push(ies_view(partial_failure_information@)).push(ies_view(created_traffic_endpoints@))));
        let len = len_slot_opt(len, &created_bridge_info_for_tsc, Ghost(Seq::<Seq<IeView>>::empty().push(seq![node_id@]).push(seq![cause@]).push(opt_ie_seq(offending_ie)).push(seq![fseid@]).push(ies_view(created_pdrs@)).push(opt_ie_seq(pdn_type)).push(opt_ie_seq(load_control_information)).push(opt_ie_seq(overload_control_information)).push(opt_ie_seq(failed_rule_id)).push(ies_view(partial_failure_information@)).push(ies_view(created_traffic_endpoints@)).push(ies_view(fq_csids@))));
        let len = len_slot_opt(len, &atsss_control_parameters, Ghost(Seq::<Seq<IeView>>::empty().push(seq![node_id@]).push(seq![cause@]).push(opt_ie_seq(offending_ie)).push(seq![fseid@]).push(ies_view(created_pdrs@)).push(opt_ie_seq(pdn_type)).push(opt_ie_seq(load_control_information)).push(opt_ie_seq(overload_control_information)).push(opt_ie_seq(failed_rule_id)).push(ies_view(partial_failure_information@)).push(ies_view(created_traffic_endpoints@)).push(ies_view(fq_csids@)).push(opt_ie_seq(created_bridge_info_for_tsc))));
        let len = len_slot_opt(len, &rds_configuration_information, Ghost(Seq::<Seq<IeView>>::empty().push(seq![node_id@]).push(seq![cause@]).push(opt_ie_seq(offending_ie)).push(seq![fseid@]).push(ies_view(created_pdrs@)).push(opt_ie_seq(pdn_type)).push(opt_ie_seq(load_control_information)).push(opt_ie_seq(overload_control_information)).push(opt_ie_seq(failed_rule_id)).push(ies_view(partial_failure_information@)).push(ies_view(created_traffic_endpoints@)).push(ies_view(fq_csids@)).push(opt_ie_seq(created_bridge_info_for_tsc)).push(opt_ie_seq(atsss_control_parameters))));
        let len = len_slot_opt(len, &created_l2tp_session, Ghost(Seq::<Seq<IeView>>::empty().push(seq![node_id@]).push(seq![cause@]).push(opt_ie_seq(offending_ie)).push(seq![fseid@]).push(ies_view(created_pdrs@)).push(opt_ie_seq(pdn_type)).push(opt_ie_seq(load_control_information)).push(opt_ie_seq(overload_control_information)).push(opt_ie_seq(failed_rule_id)).push(ies_view(partial_failure_information@)).push(ies_view(created_traffic_endpoints@)).push(ies_view(fq_csids@)).push(opt_ie_seq(created_bridge_info_for_tsc)).push(opt_ie_seq(atsss_control_parameters)).push(opt_ie_seq(rds_configuration_information))));
        let len = len_slot_opt(len, &mbs_session_n4mb_information, Ghost(Seq::<Seq<IeView>>::empty().push(seq![node_id@]).push(seq![cause@]).push(opt_ie_seq(offending_ie)).push(seq![fseid@]).push(ies_view(created_pdrs@)).push(opt_ie_seq(pdn_type)).push(opt_ie_seq(load_control_information)).push(opt_ie_seq(overload_control_information)).push(opt_ie_seq(failed_rule_id)).push(ies_view(partial_failure_information@)).push(ies_view(created_traffic_endpoints@)).push(ies_view(fq_csids@)).push(opt_ie_seq(created_bridge_info_for_tsc)).push(opt_ie_seq(atsss_control_parameters)).push(opt_ie_seq(rds_configuration_information)).push(opt_ie_seq(created_l2tp_session))));
        let len = len_slot_many(len, &mbs_session_n4_information, Ghost(Seq::<Seq<IeView>>::empty().push(seq![node_id@]).push(seq![cause@]).push(opt_ie_seq(offending_ie)).push(seq![fseid@]).push(ies_view(created_pdrs@)).push(opt_ie_seq(pdn_type)).push(opt_ie_seq(load_control_information)).push(opt_ie_seq(overload_control_information)).push(opt_ie_seq(failed_rule_id)).push(ies_view(partial_failure_information@)).push(ies_view(created_traffic_endpoints@)).push(ies_view(fq_csids@)).push(opt_ie_seq(created_bridge_info_for_tsc)).push(opt_ie_seq(atsss_control_parameters)).push(opt_ie_seq(rds_configuration_information)).push(opt_ie_seq(created_l2tp_session)).push(opt_ie_seq(mbs_session_n4mb_information))));
        let len = len_slot_many(len, &tl_containers, Ghost(Seq::<Seq<IeView>>::empty().push(seq![node_id@]).push(seq![cause@]).push(opt_ie_seq(offending_ie)).push(seq![fseid@]).push(ies_view(created_pdrs@)).push(opt_ie_seq(pdn_type)).push(opt_ie_seq(load_control_information)).push(opt_ie_seq(overload_control_information)).push(opt_ie_seq(failed_rule_id)).push(ies_view(partial_failure_information@)).push(ies_view(created_traffic_endpoints@)).push(ies_view(fq_csids@)).push(opt_ie_seq(created_bridge_info_for_tsc)).push(opt_ie_seq(atsss_control_parameters)).push(opt_ie_seq(rds_configuration_information)).push(opt_ie_seq(created_l2tp_session)).push(opt_ie_seq(mbs_session_n4mb_information)).push(ies_view(mbs_session_n4_information@))));
        let len = len_slot_many(len, &ies, Ghost(Seq::<Seq<IeView>>::empty().push(seq![node_id@]).push(seq![cause@]).push(opt_ie_seq(offending_ie)).push(seq![fseid@]).push(ies_view(created_pdrs@)).push(opt_ie_seq(pdn_type)).push(opt_ie_seq(load_control_information)).push(opt_ie_seq(overload_control_information)).push(opt_ie_seq(failed_rule_id)).push(ies_view(partial_failure_information@)).push(ies_view(created_traffic_endpoints@)).push(ies_view(fq_csids@)).push(opt_ie_seq(created_bridge_info_for_tsc)).push(opt_ie_seq(atsss_control_parameters)).push(opt_ie_seq(rds_configuration_information)).push(opt_ie_seq(created_l2tp_session)).push(opt_ie_seq(mbs_session_n4mb_information)).push(ies_view(mbs_session_n4_information@)).push(ies_view(tl_containers@))));
        let mut header = Header::new(MsgType::SessionEstablishmentResponse, true, seid, seq);
        proof { lemma_len_step(ies_size(concat_slots(Seq::<Seq<IeView>>::empty().push(seq![node_id@]).push(seq![cause@]).push(opt_ie_seq(offending_ie)).push(seq![fseid@]).push(ies_view(created_pdrs@)).push(opt_ie_seq(pdn_type)).push(opt_ie_seq(load_control_information)).push(opt_ie_seq(overload_control_information)).push(opt_ie_seq(failed_rule_id)).push(ies_view(partial_failure_information@)).push(ies_view(created_traffic_endpoints@)).push(ies_view(fq_csids@)).push(opt_ie_seq(created_bridge_info_for_tsc)).push(opt_ie_seq(atsss_control_parameters)).push(opt_ie_seq(rds_configuration_information)).push(opt_ie_seq(created_l2tp_session)).push(opt_ie_seq(mbs_session_n4mb_information)).push(ies_view(mbs_session_n4_information@)).push(ies_view(tl_containers@)).push(ies_view(ies@)))) as int, header_size(header) as int - 4, len as int); }
        header.length = ((len as u32 + header.len() as u32 - 4) % 65536) as u16;
        SessionEstablishmentResponse { header, node_id, cause, offending_ie, fseid, created_pdrs, pdn_type, load_control_information, overload_control_information, failed_rule_id, partial_failure_information, created_traffic_endpoints, fq_csids, created_bridge_info_for_tsc, atsss_control_parameters, rds_configuration_information, created_l2tp_session, mbs_session_n4mb_information, mbs_session_n4_information, tl_containers, ies }
    }

    /// The node id, decoded from its IE.
    pub fn node_id(&self) -> (r: Result<NodeId, PfcpError>)
        ensures
            (match crate::ie::node_id::spec_parse_node_id(self.node_id.payload@) { Ok(v) => r is Ok && r->Ok_0@ == v, Err(e) => r == Err::<NodeId, PfcpError>(e) }),
    {
        NodeId::unmarshal(self.node_id.payload.as_slice())
    }

    /// The cause, decoded from its IE.
    pub fn cause(&self) -> (r: Result<Cause, PfcpError>)
        ensures
            r == crate::ie::cause::spec_parse_cause(self.cause.payload@),
    {
        Cause::unmarshal(self.cause.payload.as_slice())
    }

    /// The offending ie, decoded from its IE, if present.
    pub fn offending_ie(&self) -> (r: Option<Result<OffendingIe, PfcpError>>)
        ensures
            self.offending_ie is None ==> r is None,
            self.offending_ie matches Some(x) ==> r matches Some(d) && d == crate::ie::offending_ie::spec_parse_offending_ie(x.payload@),
    {
        match &self.offending_ie {
            Some(x) => Some(OffendingIe::unmarshal(x.payload.as_slice())),
            None => None,
        }
    }

    /// The fseid, decoded from its IE.
    pub fn fseid(&self) -> (r: Result<Fseid, PfcpError>)
        ensures
            (match crate::ie::fseid::spec_parse_fseid(self.fseid.payload@) { Ok(v) => r is Ok && r->Ok_0@ == v, Err(e) => r == Err::<Fseid, PfcpError>(e) }),
    {
        Fseid::unmarshal(self.fseid.payload.as_slice())
    }

    /// The created pdrs IEs.
    pub fn created_pdrs(&self) -> (r: &[Ie])
        ensures
            r@ == self.created_pdrs@,
    {
        self.created_pdrs.as_slice()
    }

    /// The pdn type, decoded from its IE, if present.
    pub fn pdn_type(&self) -> (r: Option<Result<PdnType, PfcpError>>)
        ensures
            self.pdn_type is None ==> r is None,
            self.pdn_type matches Some(x) ==> r matches Some(d) && d == crate::ie::pdn_type::spec_parse_pdn_type(x.payload@),
    {
        match &self.pdn_type {
            Some(x) => Some(PdnType::unmarshal(x.payload.as_slice())),
            None => None,
        }
    }

    /// The raw rds configuration information IE, if present.
    pub fn rds_configuration_information_ie(&self) -> (r: Option<&Ie>)
        ensures
            r == (match self.rds_configuration_information { Some(x) => Some(&x), None => None::<&Ie> }),
    {
        match &self.rds_configuration_information {
            Some(x) => Some(x),
            None => None,
        }
    }

    /// The ies IEs.
    pub fn additional_ies(&self) -> (r: &[Ie])
        ensures
            r@ == self.ies@,
    {
        self.ies.as_slice()
    }

    /// The raw node id IE.
    pub fn node_id_ie(&self) -> (r: &Ie)
        ensures
            r == &self.node_id,
    {
        &self.node_id
    }

    /// The raw cause IE.
    pub fn cause_ie(&self) -> (r: &Ie)
        ensures
            r == &self.cause,
    {
        &self.cause
    }

    /// The raw offending ie IE, if present.
    pub fn offending_ie_ie(&self) -> (r: Option<&Ie>)
        ensures
            r == (match self.offending_ie { Some(x) => Some(&x), None => None::<&Ie> }),
    {
        match &self.offending_ie {
            Some(x) => Some(x),
            None => None,
        }
    }

    /// The raw fseid IE.
    pub fn fseid_ie(&self) -> (r: &Ie)
        ensures
            r == &self.fseid,
    {
        &self.fseid
    }

    /// The raw pdn type IE, if present.
    pub fn pdn_type_ie(&self) -> (r: Option<&Ie>)
        ensures
            r == (match self.pdn_type { Some(x) => Some(&x), None => None::<&Ie> }),
    {
        match &self.pdn_type {
            Some(x) => Some(x),
            None => None,
        }
    }

    /// The raw load control information IE, if present.
    pub fn load_control_information_ie(&self) -> (r: Option<&Ie>)
        ensures
            r == (match self.load_control_information { Some(x) => Some(&x), None => None::<&Ie> }),
    {
        match &self.load_control_information {
            Some(x) => Some(x),
            None => None,
        }
    }

    /// The raw overload control information IE, if present.
    pub fn overload_control_information_ie(&self) -> (r: Option<&Ie>)
        ensures
            r == (match self.overload_control_information { Some(x) => Some(&x), None => None::<&Ie> }),
    {
        match &self.overload_control_information {
            Some(x) => Some(x),
            None => None,
        }
    }

    /// The created traffic endpoints IEs.
    pub fn created_traffic_endpoints(&self) -> (r: &[Ie])
        ensures
            r@ == self.created_traffic_endpoints@,
    {
        self.created_traffic_endpoints.as_slice()
    }

    /// The fq csids IEs.
    pub fn fq_csids(&self) -> (r: &[Ie])
        ensures
            r@ == self.fq_csids@,
    {
        self.fq_csids.as_slice()
    }

    /// The created pdrs, each decoded from its IE, in order.
    pub fn created_pdrs_typed(&self) -> (r: Vec<Result<CreatedPdr, PfcpError>>)
        ensures
            r@.len() == self.created_pdrs@.len(),
            forall|i: int| 0 <= i < r@.len() ==> match crate::ie::created_pdr::spec_parse_created_pdr(self.created_pdrs@[i].payload@) {
                Ok(v) => #[trigger] r@[i] is Ok && r@[i]->Ok_0@ == v,
                Err(e) => r@[i] == Err::<CreatedPdr, PfcpError>(e),
            },
    {
        let mut out: Vec<Result<CreatedPdr, PfcpError>> = Vec::new();
        let mut i: usize = 0;
        while i < self.created_pdrs.len()
            invariant
                i <= self.created_pdrs@.len(),
                out@.len() == i,
                forall|j: int| 0 <= j < i ==> match crate::ie::created_pdr::spec_parse_created_pdr(self.created_pdrs@[j].payload@) {
                    Ok(v) => #[trigger] out@[j] is Ok && out@[j]->Ok_0@ == v,
                    Err(e) => out@[j] == Err::<CreatedPdr, PfcpError>(e),
                },
            decreases self.created_pdrs@.len() - i,
        {
            out.push(CreatedPdr::unmarshal(self.created_pdrs[i].payload.as_slice()));
            i = i + 1;
        }
        out
    }

    /// The load control information, decoded from its IE, if present.
    pub fn load_control_information(&self) -> (r: Option<Result<LoadControlInformation, PfcpError>>)
        ensures
            self.load_control_information is None ==> r is None,
            self.load_control_information matches Some(x) ==> r matches Some(d) && d == crate::ie::load_control_information::spec_parse_load_control_information(x.payload@),
    {
        match &self.load_control_information {
            Some(x) => Some(LoadControlInformation::unmarshal(x.payload.as_slice())),
            None => None,
        }
    }

    /// The overload control information, decoded from its IE, if present.
    pub fn overload_control_information(&self) -> (r: Option<Result<OverloadControlInformation, PfcpError>>)
        ensures
            self.overload_control_information is None ==> r is None,
            self.overload_control_information matches Some(x) ==> r matches Some(d) && d == crate::ie::overload_control_information::spec_parse_overload_control_information(x.payload@),
    {
        match &self.overload_control_information {
            Some(x) => Some(OverloadControlInformation::unmarshal(x.payload.as_slice())),
            None => None,
        }
    }

    /// The rds configuration information, decoded from its IE, if present.
    pub fn rds_configuration_information(&self) -> (r: Option<Result<RdsConfigurationInformation, PfcpError>>)
        ensures
            self.rds_configuration_information is None ==> r is None,
            self.rds_configuration_information matches Some(x) ==> r matches Some(d) && d == crate::ie::rds_configuration_information::spec_parse_rds_configuration_information(x.payload@),
    {
        match &self.rds_configuration_information {
            Some(x) => Some(RdsConfigurationInformation::unmarshal(x.payload.as_slice())),
            None => None,
        }
    }

}

impl Message for SessionEstablishmentResponse {
    open spec fn spec_header(&self) -> Header {
        self.header
    }

    open spec fn spec_body(&self) -> Seq<IeView> {
        concat_slots(self.slots())
    }

    open spec fn spec_listed(&self) -> Seq<IeView> {
        self.listed_ies()
    }

    open spec fn spec_ies_of(&self, t: IeType) -> Seq<IeView> {
        match t {
            IeType::NodeId => seq![self.node_id@],
            IeType::Cause => seq![self.cause@],
            IeType::OffendingIe => opt_ie_seq(self.offending_ie),
            IeType::Fseid => seq![self.fseid@],
            IeType::CreatedPdr => ies_view(self.created_pdrs@),
            IeType::PdnType => opt_ie_seq(self.pdn_type),
            IeType::LoadControlInformation => opt_ie_seq(self.load_control_information),
            IeType::OverloadControlInformation => opt_ie_seq(self.overload_control_information),
            IeType::FailedRuleId => opt_ie_seq(self.failed_rule_id),
            IeType::PartialFailureInformation => ies_view(self.partial_failure_information@),
            IeType::CreatedTrafficEndpoint => ies_view(self.created_traffic_endpoints@),
            IeType::FqCsid => ies_view(self.fq_csids@),
            IeType::CreatedBridgeInfoForTsc => opt_ie_seq(self.created_bridge_info_for_tsc),
            IeType::AtsssControlParameters => opt_ie_seq(self.atsss_control_parameters),
            IeType::RdsConfigurationInformation => opt_ie_seq(self.rds_configuration_information),
            IeType::CreatedL2tpSession => opt_ie_seq(self.created_l2tp_session),
            IeType::MbsSessionN4mbInformation => opt_ie_seq(self.mbs_session_n4mb_information),
            IeType::MbsSessionN4Information => ies_view(self.mbs_session_n4_information@),
            IeType::TlContainer => ies_view(self.tl_containers@),
            _ => crate::ie::ies_of_type(ies_view(self.ies@), t),
        }
    }

    open spec fn spec_msg_type(&self) -> MsgType {
        MsgType::SessionEstablishmentResponse
    }

    open spec fn spec_decode_error(data: Seq<u8>) -> Option<PfcpError> {
        match spec_parse_header(data) {
            Err(e) => Some(e),
            Ok(h) => match spec_parse_ies(data.skip(header_size(h) as int)) {
                Err(e) => Some(e),
                Ok(ies) => match Self::missing_ie(ies) {
                    Some(t) => Some(PfcpError::MissingMandatoryIe { ie_type: t, message_type: Some(MsgType::SessionEstablishmentResponse) }),
                    None => None,
                },
            },
        }
    }

    open spec fn spec_decoded(data: Seq<u8>, m: Self) -> bool {
        match spec_parse_header(data) {
            Err(_) => false,
            Ok(h) => match spec_parse_ies(data.skip(header_size(h) as int)) {
                Err(_) => false,
                Ok(ies) => m.header == h && m.decodes_from(ies),
            },
        }
    }

    fn marshal_into(&self, buf: &mut Vec<u8>) {
        self.header.marshal_into(buf);
        let ghost p = buf@;
        assert(buf@ =~= p + ies_wire(concat_slots(Seq::<Seq<IeView>>::empty())));
        write_slot_one(buf, &self.node_id, Ghost(p), Ghost(Seq::<Seq<IeView>>::empty()));
        write_slot_one(buf, &self.cause, Ghost(p), Ghost(Seq::<Seq<IeView>>::empty().push(seq![self.node_id@])));
        write_slot_opt(buf, &self.offending_ie, Ghost(p), Ghost(Seq::<Seq<IeView>>::empty().push(seq![self.node_id@]).push(seq![self.cause@])));
        write_slot_one(buf, &self.fseid, Ghost(p), Ghost(Seq::<Seq<IeView>>::empty().push(seq![self.node_id@]).push(seq![self.cause@]).push(opt_ie_seq(self.offending_ie))));
        write_slot_many(buf, &self.created_pdrs, Ghost(p), Ghost(Seq::<Seq<IeView>>::empty().push(seq![self.node_id@]).push(seq![self.cause@]).push(opt_ie_seq(self.offending_ie)).push(seq![self.fseid@])));
        write_slot_opt(buf, &self.pdn_type, Ghost(p), Ghost(Seq::<Seq<IeView>>::empty().push(seq![self.node_id@]).push(seq![self.cause@]).push(opt_ie_seq(self.offending_ie)).push(seq![self.fseid@]).push(ies_view(self.created_pdrs@))));
        write_slot_opt(buf, &self.load_control_information, Ghost(p), Ghost(Seq::<Seq<IeView>>::empty().push(seq![self.node_id@]).push(seq![self.cause@]).push(opt_ie_seq(self.offending_ie)).push(seq![self.fseid@]).push(ies_view(self.created_pdrs@)).push(opt_ie_seq(self.pdn_type))));
        write_slot_opt(buf, &self.overload_control_information, Ghost(p), Ghost(Seq::<Seq<IeView>>::empty().push(seq![self.node_id@]).push(seq![self.cause@]).push(opt_ie_seq(self.offending_ie)).push(seq![self.fseid@]).push(ies_view(self.created_pdrs@)).push(opt_ie_seq(self.pdn_type)).push(opt_ie_seq(self.load_control_information))));
        write_slot_opt(buf, &self.failed_rule_id, Ghost(p), Ghost(Seq::<Seq<IeView>>::empty().push(seq![self.node_id@]).push(seq![self.cause@]).push(opt_ie_seq(self.offending_ie)).push(seq![self.fseid@]).push(ies_view(self.created_pdrs@)).push(opt_ie_seq(self.pdn_type)).push(opt_ie_seq(self.load_control_information)).push(opt_ie_seq(self.overload_control_information))));
        write_slot_many(buf, &self.partial_failure_information, Ghost(p), Ghost(Seq::<Seq<IeView>>::empty().push(seq![self.node_id@]).push(seq![self.cause@]).push(opt_ie_seq(self.offending_ie)).push(seq![self.fseid@]).push(ies_view(self.created_pdrs@)).push(opt_ie_seq(self.pdn_type)).push(opt_ie_seq(self.load_control_information)).push(opt_ie_seq(self.overload_control_information)).push(opt_ie_seq(self.failed_rule_id))));
        write_slot_many(buf, &self.created_traffic_endpoints, Ghost(p), Ghost(Seq::<Seq<IeView>>::empty().push(seq![self.node_id@]).push(seq![self.cause@]).push(opt_ie_seq(self.offending_ie)).push(seq![self.fseid@]).push(ies_view(self.created_pdrs@)).push(opt_ie_seq(self.pdn_type)).push(opt_ie_seq(self.load_control_information)).push(opt_ie_seq(self.overload_control_information)).push(opt_ie_seq(self.failed_rule_id)).push(ies_view(self.partial_failure_information@))));
        write_slot_many(buf, &self.fq_csids, Ghost(p), Ghost(Seq::<Seq<IeView>>::empty().push(seq![self.node_id@]).push(seq![self.cause@]).push(opt_ie_seq(self.offending_ie)).push(seq![self.fseid@]).push(ies_view(self.created_pdrs@)).push(opt_ie_seq(self.pdn_type)).push(opt_ie_seq(self.load_control_information)).push(opt_ie_seq(self.overload_control_information)).push(opt_ie_seq(self.failed_rule_id)).push(ies_view(self.partial_failure_information@)).push(ies_view(self.created_traffic_endpoints@))));
        write_slot_opt(buf, &self.created_bridge_info_for_tsc, Ghost(p), Ghost(Seq::<Seq<IeView>>::empty().push(seq![self.node_id@]).push(seq![self.cause@]).push(opt_ie_seq(self.offending_ie)).push(seq![self.fseid@]).push(ies_view(self.created_pdrs@)).push(opt_ie_seq(self.pdn_type)).push(opt_ie_seq(self.load_control_information)).push(opt_ie_seq(self.overload_control_information)).push(opt_ie_seq(self.failed_rule_id)).push(ies_view(self.partial_failure_information@)).push(ies_view(self.created_traffic_endpoints@)).push(ies_view(self.fq_csids@))));
        write_slot_opt(buf, &self.atsss_control_parameters, Ghost(p), Ghost(Seq::<Seq<IeView>>::empty().push(seq![self.node_id@]).push(seq![self.cause@]).push(opt_ie_seq(self.offending_ie)).push(seq![self.fseid@]).push(ies_view(self.created_pdrs@)).push(opt_ie_seq(self.pdn_type)).push(opt_ie_seq(self.load_control_information)).push(opt_ie_seq(self.overload_control_information)).push(opt_ie_seq(self.failed_rule_id)).push(ies_view(self.partial_failure_information@)).push(ies_view(self.created_traffic_endpoints@)).push(ies_view(self.fq_csids@)).push(opt_ie_seq(self.created_bridge_info_for_tsc))));
        write_slot_opt(buf, &self.rds_configuration_information, Ghost(p), Ghost(Seq::<Seq<IeView>>::empty().push(seq![self.node_id@]).push(seq![self.cause@]).push(opt_ie_seq(self.offending_ie)).push(seq![self.fseid@]).push(ies_view(self.created_pdrs@)).push(opt_ie_seq(self.pdn_type)).push(opt_ie_seq(self.load_control_information)).push(opt_ie_seq(self.overload_control_information)).push(opt_ie_seq(self.failed_rule_id)).push(ies_view(self.partial_failure_information@)).push(ies_view(self.created_traffic_endpoints@)).push(ies_view(self.fq_csids@)).push(opt_ie_seq(self.created_bridge_info_for_tsc)).push(opt_ie_seq(self.atsss_control_parameters))));
        write_slot_opt(buf, &self.created_l2tp_session, Ghost(p), Ghost(Seq::<Seq<IeView>>::empty().push(seq![self.node_id@]).push(seq![self.cause@]).push(opt_ie_seq(self.offending_ie)).push(seq![self.fseid@]).push(ies_view(self.created_pdrs@)).push(opt_ie_seq(self.pdn_type)).push(opt_ie_seq(self.load_control_information)).push(opt_ie_seq(self.overload_control_information)).push(opt_ie_seq(self.failed_rule_id)).push(ies_view(self.partial_failure_information@)).push(ies_view(self.created_traffic_endpoints@)).push(ies_view(self.fq_csids@)).push(opt_ie_seq(self.created_bridge_info_for_tsc)).push(opt_ie_seq(self.atsss_control_parameters)).push(opt_ie_seq(self.rds_configuration_information))));
        write_slot_opt(buf, &self.mbs_session_n4mb_information, Ghost(p), Ghost(Seq::<Seq<IeView>>::empty().push(seq![self.node_id@]).push(seq![self.cause@]).push(opt_ie_seq(self.offending_ie)).push(seq![self.fseid@]).push(ies_view(self.created_pdrs@)).push(opt_ie_seq(self.pdn_type)).push(opt_ie_seq(self.load_control_information)).push(opt_ie_seq(self.overload_control_information)).push(opt_ie_seq(self.failed_rule_id)).push(ies_view(self.partial_failure_information@)).push(ies_view(self.created_traffic_endpoints@)).push(ies_view(self.fq_csids@)).push(opt_ie_seq(self.created_bridge_info_for_tsc)).push(opt_ie_seq(self.atsss_control_parameters)).push(opt_ie_seq(self.rds_configuration_information)).push(opt_ie_seq(self.created_l2tp_session))));
        write_slot_many(buf, &self.mbs_session_n4_information, Ghost(p), Ghost(Seq::<Seq<IeView>>::empty().push(seq![self.node_id@]).push(seq![self.cause@]).push(opt_ie_seq(self.offending_ie)).push(seq![self.fseid@]).push(ies_view(self.created_pdrs@)).push(opt_ie_seq(self.pdn_type)).push(opt_ie_seq(self.load_control_information)).push(opt_ie_seq(self.overload_control_information)).push(opt_ie_seq(self.failed_rule_id)).push(ies_view(self.partial_failure_information@)).push(ies_view(self.created_traffic_endpoints@)).push(ies_view(self.fq_csids@)).push(opt_ie_seq(self.created_bridge_info_for_tsc)).push(opt_ie_seq(self.atsss_control_parameters)).push(opt_ie_seq(self.rds_configuration_information)).push(opt_ie_seq(self.created_l2tp_session)).push(opt_ie_seq(self.mbs_session_n4mb_information))));
        write_slot_many(buf, &self.tl_containers, Ghost(p), Ghost(Seq::<Seq<IeView>>::empty().push(seq![self.node_id@]).push(seq![self.cause@]).push(opt_ie_seq(self.offending_ie)).push(seq![self.fseid@]).push(ies_view(self.created_pdrs@)).push(opt_ie_seq(self.pdn_type)).push(opt_ie_seq(self.load_control_information)).push(opt_ie_seq(self.overload_control_information)).push(opt_ie_seq(self.failed_rule_id)).push(ies_view(self.partial_failure_information@)).push(ies_view(self.created_traffic_endpoints@)).push(ies_view(self.fq_csids@)).push(opt_ie_seq(self.created_bridge_info_for_tsc)).push(opt_ie_seq(self.atsss_control_parameters)).push(opt_ie_seq(self.rds_configuration_information)).push(opt_ie_seq(self.created_l2tp_session)).push(opt_ie_seq(self.mbs_session_n4mb_information)).push(ies_view(self.mbs_session_n4_information@))));
        write_slot_many(buf, &self.ies, Ghost(p), Ghost(Seq::<Seq<IeView>>::empty().push(seq![self.node_id@]).push(seq![self.cause@]).push(opt_ie_seq(self.offending_ie)).push(seq![self.fseid@]).push(ies_view(self.created_pdrs@)).push(opt_ie_seq(self.pdn_type)).push(opt_ie_seq(self.load_control_information)).push(opt_ie_seq(self.overload_control_information)).push(opt_ie_seq(self.failed_rule_id)).push(ies_view(self.partial_failure_information@)).push(ies_view(self.created_traffic_endpoints@)).push(ies_view(self.fq_csids@)).push(opt_ie_seq(self.created_bridge_info_for_tsc)).push(opt_ie_seq(self.atsss_control_parameters)).push(opt_ie_seq(self.rds_configuration_information)).push(opt_ie_seq(self.created_l2tp_session)).push(opt_ie_seq(self.mbs_session_n4mb_information)).push(ies_view(self.mbs_session_n4_information@)).push(ies_view(self.tl_containers@))));
        assert(buf@ =~= old(buf)@ + header_wire(self.header) + ies_wire(concat_slots(self.slots())));
    }

    fn marshal(&self) -> (r: Vec<u8>) {
        let mut buf: Vec<u8> = Vec::new();
        self.marshal_into(&mut buf);
        assert(buf@ =~= header_wire(self.header) + ies_wire(concat_slots(self.slots())));
        buf
    }

    fn marshaled_size(&self) -> (r: usize) {
        let v = self.marshal();
        v.len()
    }

    #[verifier::rlimit(60)]
    fn unmarshal(data: &[u8]) -> (r: Result<Self, PfcpError>) {
        let header = match Header::unmarshal(data) {
            Ok(h) => h,
            Err(e) => return Err(e),
        };
        proof { lemma_parse_header_size(data@); }
        let start = header.len() as usize;
        let mut all = match parse_ies(data, start) {
            Ok(v) => v,
            Err(e) => return Err(e),
        };
        let ghost parsed = ies_view(all@);
        let ghost cls = Self::classifier();
        let mut buckets = empty_buckets(21);
        proof {
            lemma_slot_ies_empty(cls);
            assert(parsed.take(0) =~= Seq::<IeView>::empty());
            assert forall|j: int| 0 <= j < 21 implies ies_view(#[trigger] buckets@[j]@) == slot_ies(parsed.take(0), cls, j) by {
                assert(ies_view(buckets@[j]@) =~= Seq::<IeView>::empty());
            }
        }
        let ghost mut done: int = 0;
        while all.len() > 0
            invariant
                0 <= done <= parsed.len(),
                ies_view(all@) == parsed.skip(done),
                cls == Self::classifier(),
                buckets@.len() == 21,
                forall|j: int| 0 <= j < 21 ==> ies_view(#[trigger] buckets@[j]@) == slot_ies(parsed.take(done), cls, j),
            decreases all@.len(),
        {
            let ghost old_all = all@;
            let ghost old_buckets = buckets@;
            let ie = all.remove(0);
            let ghost iev = ie@;
            proof {
                assert(ies_view(old_all).len() == old_all.len());
                assert(done < parsed.len());
                assert(ies_view(old_all)[0] == old_all[0]@);
                assert(parsed.skip(done)[0] == parsed[done]);
                assert(parsed[done] == iev);
                assert(parsed.take(done + 1) =~= parsed.take(done).push(iev));
                lemma_slot_ies_push_all(parsed.take(done), iev, cls);
                assert(all@ =~= old_all.skip(1));
                assert(ies_view(all@) =~= ies_view(old_all).skip(1));
                assert(parsed.skip(done).skip(1) =~= parsed.skip(done + 1));
            }
            let c = Self::classify(ie.ie_type);
            push_bucket(&mut buckets, c, ie);
            proof {
                assert forall|j: int| 0 <= j < 21 implies ies_view(#[trigger] buckets@[j]@) == slot_ies(parsed.take(done + 1), cls, j) by {
                    if j != c {
                        assert(buckets@[j] == old_buckets[j]);
                    }
                }
                done = done + 1;
            }
        }
        proof { assert(parsed.take(done) =~= parsed); }
        let ghost bs = buckets@;
        assert(ies_view(bs[0]@) == slot_ies(parsed, cls, 0));
        assert(ies_view(bs[1]@) == slot_ies(parsed, cls, 1));
        assert(ies_view(bs[2]@) == slot_ies(parsed, cls, 2));
        assert(ies_view(bs[3]@) == slot_ies(parsed, cls, 3));
        assert(ies_view(bs[4]@) == slot_ies(parsed, cls, 4));
        assert(ies_view(bs[5]@) == slot_ies(parsed, cls, 5));
        assert(ies_view(bs[6]@) == slot_ies(parsed, cls, 6));
        assert(ies_view(bs[7]@) == slot_ies(parsed, cls, 7));
        assert(ies_view(bs[8]@) == slot_ies(parsed, cls, 8));
        assert(ies_view(bs[9]@) == slot_ies(parsed, cls, 9));
        assert(ies_view(bs[10]@) == slot_ies(parsed, cls, 10));
        assert(ies_view(bs[11]@) == slot_ies(parsed, cls, 11));
        assert(ies_view(bs[12]@) == slot_ies(parsed, cls, 12));
        assert(ies_view(bs[13]@) == slot_ies(parsed, cls, 13));
        assert(ies_view(bs[14]@) == slot_ies(parsed, cls, 14));
        assert(ies_view(bs[15]@) == slot_ies(parsed, cls, 15));
        assert(ies_view(bs[16]@) == slot_ies(parsed, cls, 16));
        assert(ies_view(bs[17]@) == slot_ies(parsed, cls, 17));
        assert(ies_view(bs[18]@) == slot_ies(parsed, cls, 18));
        assert(ies_view(bs[19]@) == slot_ies(parsed, cls, 19));
        let slot0 = last_ie(take_bucket(&mut buckets, 0, Ghost(bs)));
        assert(opt_ie_seq(slot0) == decode_slot(parsed, cls, 0, SlotKind::One));
        let slot1 = last_ie(take_bucket(&mut buckets, 1, Ghost(bs)));
        assert(opt_ie_seq(slot1) == decode_slot(parsed, cls, 1, SlotKind::One));
        let slot2 = last_ie(take_bucket(&mut buckets, 2, Ghost(bs)));
        assert(opt_ie_seq(slot2) == decode_slot(parsed, cls, 2, SlotKind::One));
        let slot3 = last_ie(take_bucket(&mut buckets, 3, Ghost(bs)));
        assert(opt_ie_seq(slot3) == decode_slot(parsed, cls, 3, SlotKind::One));
        let slot4 = take_bucket(&mut buckets, 4, Ghost(bs));
        assert(ies_view(slot4@) == decode_slot(parsed, cls, 4, SlotKind::Many));
        let slot5 = last_ie(take_bucket(&mut buckets, 5, Ghost(bs)));
        assert(opt_ie_seq(slot5) == decode_slot(parsed, cls, 5, SlotKind::One));
        let slot6 = last_ie(take_bucket(&mut buckets, 6, Ghost(bs)));
        assert(opt_ie_seq(slot6) == decode_slot(parsed, cls, 6, SlotKind::One));
        let slot7 = last_ie(take_bucket(&mut buckets, 7, Ghost(bs)));
        assert(opt_ie_seq(slot7) == decode_slot(parsed, cls, 7, SlotKind::One));
        let slot8 = last_ie(take_bucket(&mut buckets, 8, Ghost(bs)));
        assert(opt_ie_seq(slot8) == decode_slot(parsed, cls, 8, SlotKind::One));
        let slot9 = take_bucket(&mut buckets, 9, Ghost(bs));
        assert(ies_view(slot9@) == decode_slot(parsed, cls, 9, SlotKind::Many));
        let slot10 = take_bucket(&mut buckets, 10, Ghost(bs));
        assert(ies_view(slot10@) == decode_slot(parsed, cls, 10, SlotKind::Many));
        let slot11 = take_bucket(&mut buckets, 11, Ghost(bs));
        assert(ies_view(slot11@) == decode_slot(parsed, cls, 11, SlotKind::Many));
        let slot12 = last_ie(take_bucket(&mut buckets, 12, Ghost(bs)));
        assert(opt_ie_seq(slot12) == decode_slot(parsed, cls, 12, SlotKind::One));
        let slot13 = last_ie(take_bucket(&mut buckets, 13, Ghost(bs)));
        assert(opt_ie_seq(slot13) == decode_slot(parsed, cls, 13, SlotKind::One));
        let slot14 = last_ie(take_bucket(&mut buckets, 14, Ghost(bs)));
        assert(opt_ie_seq(slot14) == decode_slot(parsed, cls, 14, SlotKind::One));
        let slot15 = last_ie(take_bucket(&mut buckets, 15, Ghost(bs)));
        assert(opt_ie_seq(slot15) == decode_slot(parsed, cls, 15, SlotKind::One));
        let slot16 = last_ie(take_bucket(&mut buckets, 16, Ghost(bs)));
        assert(opt_ie_seq(slot16) == decode_slot(parsed, cls, 16, SlotKind::One));
        let slot17 = take_bucket(&mut buckets, 17, Ghost(bs));
        assert(ies_view(slot17@) == decode_slot(parsed, cls, 17, SlotKind::Many));
        let slot18 = take_bucket(&mut buckets, 18, Ghost(bs));
        assert(ies_view(slot18@) == decode_slot(parsed, cls, 18, SlotKind::Many));
        let slot19 = take_bucket(&mut buckets, 19, Ghost(bs));
        assert(ies_view(slot19@) == decode_slot(parsed, cls, 19, SlotKind::Many));
        if slot0.is_none() {
            return Err(PfcpError::MissingMandatoryIe { ie_type: IeType::NodeId, message_type: Some(MsgType::SessionEstablishmentResponse) });
        }
        if slot1.is_none() {
            return Err(PfcpError::MissingMandatoryIe { ie_type: IeType::Cause, message_type: Some(MsgType::SessionEstablishmentResponse) });
        }
        if slot3.is_none() {
            return Err(PfcpError::MissingMandatoryIe { ie_type: IeType::Fseid, message_type: Some(MsgType::SessionEstablishmentResponse) });
        }
        let node_id = match slot0 { Some(x) => x, None => return Err(PfcpError::MissingMandatoryIe { ie_type: IeType::NodeId, message_type: Some(MsgType::SessionEstablishmentResponse) }) };
        let cause = match slot1 { Some(x) => x, None => return Err(PfcpError::MissingMandatoryIe { ie_type: IeType::Cause, message_type: Some(MsgType::SessionEstablishmentResponse) }) };
        let offending_ie = slot2;
        let fseid = match slot3 { Some(x) => x, None => return Err(PfcpError::MissingMandatoryIe { ie_type: IeType::Fseid, message_type: Some(MsgType::SessionEstablishmentResponse) }) };
        let created_pdrs = slot4;
        let pdn_type = slot5;
        let load_control_information = slot6;
        let overload_control_information = slot7;
        let failed_rule_id = slot8;
        let partial_failure_information = slot9;
        let created_traffic_endpoints = slot10;
        let fq_csids = slot11;
        let created_bridge_info_for_tsc = slot12;
        let atsss_control_parameters = slot13;
        let rds_configuration_information = slot14;
        let created_l2tp_session = slot15;
        let mbs_session_n4mb_information = slot16;
        let mbs_session_n4_information = slot17;
        let tl_containers = slot18;
        let ies = slot19;
        let r = SessionEstablishmentResponse { header, node_id, cause, offending_ie, fseid, created_pdrs, pdn_type, load_control_information, overload_control_information, failed_rule_id, partial_failure_information, created_traffic_endpoints, fq_csids, created_bridge_info_for_tsc, atsss_control_parameters, rds_configuration_information, created_l2tp_session, mbs_session_n4mb_information, mbs_session_n4_information, tl_containers, ies };
        Ok(r)
    }

    fn msg_type(&self) -> (r: MsgType) {
        MsgType::SessionEstablishmentResponse
    }

    fn msg_name(&self) -> (r: String) {
        MsgType::SessionEstablishmentResponse.name().to_owned()
    }

    fn version(&self) -> (r: u8) {
        1
    }

    fn seid(&self) -> (r: Option<u64>) {
        if self.header.has_seid {
            Some(self.header.seid)
        } else {
            None
        }
    }

    fn sequence(&self) -> (r: u32) {
        self.header.sequence_number
    }

    fn set_sequence(&mut self, seq: u32) {
        self.header.sequence_number = seq;
    }

    fn ies(&self, ie_type: IeType) -> (r: IeIter<'_>) {
        match ie_type {
            IeType::NodeId => IeIter::single(Some(&self.node_id), ie_type),
            IeType::Cause => IeIter::single(Some(&self.cause), ie_type),
            IeType::OffendingIe => match &self.offending_ie { Some(x) => IeIter::single(Some(x), ie_type), None => IeIter::single(None, ie_type) },
            IeType::Fseid => IeIter::single(Some(&self.fseid), ie_type),
            IeType::CreatedPdr => IeIter::multiple(self.created_pdrs.as_slice(), ie_type),
            IeType::PdnType => match &self.pdn_type { Some(x) => IeIter::single(Some(x), ie_type), None => IeIter::single(None, ie_type) },
            IeType::LoadControlInformation => match &self.load_control_information { Some(x) => IeIter::single(Some(x), ie_type), None => IeIter::single(None, ie_type) },
            IeType::OverloadControlInformation => match &self.overload_control_information { Some(x) => IeIter::single(Some(x), ie_type), None => IeIter::single(None, ie_type) },
            IeType::FailedRuleId => match &self.failed_rule_id { Some(x) => IeIter::single(Some(x), ie_type), None => IeIter::single(None, ie_type) },
            IeType::PartialFailureInformation => IeIter::multiple(self.partial_failure_information.as_slice(), ie_type),
            IeType::CreatedTrafficEndpoint => IeIter::multiple(self.created_traffic_endpoints.as_slice(), ie_type),
            IeType::FqCsid => IeIter::multiple(self.fq_csids.as_slice(), ie_type),
            IeType::CreatedBridgeInfoForTsc => match &self.created_bridge_info_for_tsc { Some(x) => IeIter::single(Some(x), ie_type), None => IeIter::single(None, ie_type) },
            IeType::AtsssControlParameters => match &self.atsss_control_parameters { Some(x) => IeIter::single(Some(x), ie_type), None => IeIter::single(None, ie_type) },
            IeType::RdsConfigurationInformation => match &self.rds_configuration_information { Some(x) => IeIter::single(Some(x), ie_type), None => IeIter::single(None, ie_type) },
            IeType::CreatedL2tpSession => match &self.created_l2tp_session { Some(x) => IeIter::single(Some(x), ie_type), None => IeIter::single(None, ie_type) },
            IeType::MbsSessionN4mbInformation => match &self.mbs_session_n4mb_information { Some(x) => IeIter::single(Some(x), ie_type), None => IeIter::single(None, ie_type) },
            IeType::MbsSessionN4Information => IeIter::multiple(self.mbs_session_n4_information.as_slice(), ie_type),
            IeType::TlContainer => IeIter::multiple(self.tl_containers.as_slice(), ie_type),
            _ => IeIter::generic(self.ies.as_slice(), ie_type),
        }
    }

    fn find_ie(&self, ie_type: IeType) -> (r: Option<&Ie>) {
        let mut it = self.ies(ie_type);
        it.next()
    }

    fn find_all_ies(&self, ie_type: IeType) -> (r: Vec<&Ie>) {
        self.ies(ie_type).collect()
    }

    fn all_ies(&self) -> (r: Vec<&Ie>) {
        let mut out: Vec<&Ie> = Vec::new();
        assert(ie_refs_view(out@) =~= concat_slots(Seq::<Seq<IeView>>::empty()));
        list_slot_one(&mut out, &self.node_id, Ghost(Seq::<Seq<IeView>>::empty()));
        list_slot_one(&mut out, &self.cause, Ghost(Seq::<Seq<IeView>>::empty().push(seq![self.node_id@])));
        list_slot_one(&mut out, &self.fseid, Ghost(Seq::<Seq<IeView>>::empty().push(seq![self.node_id@]).push(seq![self.cause@])));
        list_slot_opt(&mut out, &self.offending_ie, Ghost(Seq::<Seq<IeView>>::empty().push(seq![self.node_id@]).push(seq![self.cause@]).push(seq![self.fseid@])));
        list_slot_many(&mut out, &self.created_pdrs, Ghost(Seq::<Seq<IeView>>::empty().push(seq![self.node_id@]).push(seq![self.cause@]).push(seq![self.fseid@]).push(opt_ie_seq(self.offending_ie))));
        list_slot_opt(&mut out, &self.pdn_type, Ghost(Seq::<Seq<IeView>>::empty().push(seq![self.node_id@]).push(seq![self.cause@]).push(seq![self.fseid@]).push(opt_ie_seq(self.offending_ie)).push(ies_view(self.created_pdrs@))));
        list_slot_opt(&mut out, &self.load_control_information, Ghost(Seq::<Seq<IeView>>::empty().push(seq![self.node_id@]).push(seq![self.cause@]).push(seq![self.fseid@]).push(opt_ie_seq(self.offending_ie)).push(ies_view(self.created_pdrs@)).push(opt_ie_seq(self.pdn_type))));
        list_slot_opt(&mut out, &self.overload_control_information, Ghost(Seq::<Seq<IeView>>::empty().push(seq![self.node_id@]).push(seq![self.cause@]).push(seq![self.fseid@]).push(opt_ie_seq(self.offending_ie)).push(ies_view(self.created_pdrs@)).push(opt_ie_seq(self.pdn_type)).push(opt_ie_seq(self.load_control_information))));
        list_slot_opt(&mut out, &self.failed_rule_id, Ghost(Seq::<Seq<IeView>>::empty().push(seq![self.node_id@]).push(seq![self.cause@]).push(seq![self.fseid@]).push(opt_ie_seq(self.offending_ie)).push(ies_view(self.created_pdrs@)).push(opt_ie_seq(self.pdn_type)).push(opt_ie_seq(self.load_control_information)).push(opt_ie_seq(self.overload_control_information))));
        list_slot_many(&mut out, &self.partial_failure_information, Ghost(Seq::<Seq<IeView>>::empty().push(seq![self.node_id@]).push(seq![self.cause@]).push(seq![self.fseid@]).push(opt_ie_seq(self.offending_ie)).push(ies_view(self.created_pdrs@)).push(opt_ie_seq(self.pdn_type)).push(opt_ie_seq(self.load_control_information)).push(opt_ie_seq(self.overload_control_information)).push(opt_ie_seq(self.failed_rule_id))));
        list_slot_many(&mut out, &self.created_traffic_endpoints, Ghost(Seq::<Seq<IeView>>::empty().push(seq![self.node_id@]).push(seq![self.cause@]).push(seq![self.fseid@]).push(opt_ie_seq(self.offending_ie)).push(ies_view(self.created_pdrs@)).push(opt_ie_seq(self.pdn_type)).push(opt_ie_seq(self.load_control_information)).push(opt_ie_seq(self.overload_control_information)).push(opt_ie_seq(self.failed_rule_id)).push(ies_view(self.partial_failure_information@))));
        list_slot_many(&mut out, &self.fq_csids, Ghost(Seq::<Seq<IeView>>::empty().push(seq![self.node_id@]).push(seq![self.cause@]).push(seq![self.fseid@]).push(opt_ie_seq(self.offending_ie)).push(ies_view(self.created_pdrs@)).push(opt_ie_seq(self.pdn_type)).push(opt_ie_seq(self.load_control_information)).push(opt_ie_seq(self.overload_control_information)).push(opt_ie_seq(self.failed_rule_id)).push(ies_view(self.partial_failure_information@)).push(ies_view(self.created_traffic_endpoints@))));
        list_slot_opt(&mut out, &self.created_bridge_info_for_tsc, Ghost(Seq::<Seq<IeView>>::empty().push(seq![self.node_id@]).push(seq![self.cause@]).push(seq![self.fseid@]).push(opt_ie_seq(self.offending_ie)).push(ies_view(self.created_pdrs@)).push(opt_ie_seq(self.pdn_type)).push(opt_ie_seq(self.load_control_information)).push(opt_ie_seq(self.overload_control_information)).push(opt_ie_seq(self.failed_rule_id)).push(ies_view(self.partial_failure_information@)).push(ies_view(self.created_traffic_endpoints@)).push(ies_view(self.fq_csids@))));
        list_slot_opt(&mut out, &self.atsss_control_parameters, Ghost(Seq::<Seq<IeView>>::empty().push(seq![self.node_id@]).push(seq![self.cause@]).push(seq![self.fseid@]).push(opt_ie_seq(self.offending_ie)).push(ies_view(self.created_pdrs@)).push(opt_ie_seq(self.pdn_type)).push(opt_ie_seq(self.load_control_information)).push(opt_ie_seq(self.overload_control_information)).push(opt_ie_seq(self.failed_rule_id)).push(ies_view(self.partial_failure_information@)).push(ies_view(self.created_traffic_endpoints@)).push(ies_view(self.fq_csids@)).push(opt_ie_seq(self.created_bridge_info_for_tsc))));
        list_slot_opt(&mut out, &self.rds_configuration_information, Ghost(Seq::<Seq<IeView>>::empty().push(seq![self.node_id@]).push(seq![self.cause@]).push(seq![self.fseid@]).push(opt_ie_seq(self.offending_ie)).push(ies_view(self.created_pdrs@)).push(opt_ie_seq(self.pdn_type)).push(opt_ie_seq(self.load_control_information)).push(opt_ie_seq(self.overload_control_information)).push(opt_ie_seq(self.failed_rule_id)).push(ies_view(self.partial_failure_information@)).push(ies_view(self.created_traffic_endpoints@)).push(ies_view(self.fq_csids@)).push(opt_ie_seq(self.created_bridge_info_for_tsc)).push(opt_ie_seq(self.atsss_control_parameters))));
        list_slot_opt(&mut out, &self.created_l2tp_session, Ghost(Seq::<Seq<IeView>>::empty().push(seq![self.node_id@]).push(seq![self.cause@]).push(seq![self.fseid@]).push(opt_ie_seq(self.offending_ie)).push(ies_view(self.created_pdrs@)).push(opt_ie_seq(self.pdn_type)).push(opt_ie_seq(self.load_control_information)).push(opt_ie_seq(self.overload_control_information)).push(opt_ie_seq(self.failed_rule_id)).push(ies_view(self.partial_failure_information@)).push(ies_view(self.created_traffic_endpoints@)).push(ies_view(self.fq_csids@)).push(opt_ie_seq(self.created_bridge_info_for_tsc)).push(opt_ie_seq(self.atsss_control_parameters)).push(opt_ie_seq(self.rds_configuration_information))));
        list_slot_opt(&mut out, &self.mbs_session_n4mb_information, Ghost(Seq::<Seq<IeView>>::empty().push(seq![self.node_id@]).push(seq![self.cause@]).push(seq![self.fseid@]).push(opt_ie_seq(self.offending_ie)).push(ies_view(self.created_pdrs@)).push(opt_ie_seq(self.pdn_type)).push(opt_ie_seq(self.load_control_information)).push(opt_ie_seq(self.overload_control_information)).push(opt_ie_seq(self.failed_rule_id)).push(ies_view(self.partial_failure_information@)).push(ies_view(self.created_traffic_endpoints@)).push(ies_view(self.fq_csids@)).push(opt_ie_seq(self.created_bridge_info_for_tsc)).push(opt_ie_seq(self.atsss_control_parameters)).push(opt_ie_seq(self.rds_configuration_information)).push(opt_ie_seq(self.created_l2tp_session))));
        list_slot_many(&mut out, &self.mbs_session_n4_information, Ghost(Seq::<Seq<IeView>>::empty().push(seq![self.node_id@]).push(seq![self.cause@]).push(seq![self.fseid@]).push(opt_ie_seq(self.offending_ie)).push(ies_view(self.created_pdrs@)).push(opt_ie_seq(self.pdn_type)).push(opt_ie_seq(self.load_control_information)).push(opt_ie_seq(self.overload_control_information)).push(opt_ie_seq(self.failed_rule_id)).push(ies_view(self.partial_failure_information@)).push(ies_view(self.created_traffic_endpoints@)).push(ies_view(self.fq_csids@)).push(opt_ie_seq(self.created_bridge_info_for_tsc)).push(opt_ie_seq(self.atsss_control_parameters)).push(opt_ie_seq(self.rds_configuration_information)).push(opt_ie_seq(self.created_l2tp_session)).push(opt_ie_seq(self.mbs_session_n4mb_information))));
        list_slot_many(&mut out, &self.tl_containers, Ghost(Seq::<Seq<IeView>>::empty().push(seq![self.node_id@]).push(seq![self.cause@]).push(seq![self.fseid@]).push(opt_ie_seq(self.offending_ie)).push(ies_view(self.created_pdrs@)).push(opt_ie_seq(self.pdn_type)).push(opt_ie_seq(self.load_control_information)).push(opt_ie_seq(self.overload_control_information)).push(opt_ie_seq(self.failed_rule_id)).push(ies_view(self.partial_failure_information@)).push(ies_view(self.created_traffic_endpoints@)).push(ies_view(self.fq_csids@)).push(opt_ie_seq(self.created_bridge_info_for_tsc)).push(opt_ie_seq(self.atsss_control_parameters)).push(opt_ie_seq(self.rds_configuration_information)).push(opt_ie_seq(self.created_l2tp_session)).push(opt_ie_seq(self.mbs_session_n4mb_information)).push(ies_view(self.mbs_session_n4_information@))));
        list_slot_many(&mut out, &self.ies, Ghost(Seq::<Seq<IeView>>::empty().push(seq![self.node_id@]).push(seq![self.cause@]).push(seq![self.fseid@]).push(opt_ie_seq(self.offending_ie)).push(ies_view(self.created_pdrs@)).push(opt_ie_seq(self.pdn_type)).push(opt_ie_seq(self.load_control_information)).push(opt_ie_seq(self.overload_control_information)).push(opt_ie_seq(self.failed_rule_id)).push(ies_view(self.partial_failure_information@)).push(ies_view(self.created_traffic_endpoints@)).push(ies_view(self.fq_csids@)).push(opt_ie_seq(self.created_bridge_info_for_tsc)).push(opt_ie_seq(self.atsss_control_parameters)).push(opt_ie_seq(self.rds_configuration_information)).push(opt_ie_seq(self.created_l2tp_session)).push(opt_ie_seq(self.mbs_session_n4mb_information)).push(ies_view(self.mbs_session_n4_information@)).push(ies_view(self.tl_containers@))));
        out
    }
}

/// A well-formed SessionEstablishmentResponse reads back as itself: decoding its wire form gives its
/// header and fields.
pub proof fn lemma_session_establishment_response_roundtrip(m: SessionEstablishmentResponse)
    requires
        m.well_formed(),
    ensures
        SessionEstablishmentResponse::spec_decode_error(m.wire()) is None,
        SessionEstablishmentResponse::spec_decoded(m.wire(), m),
{
    let body = concat_slots(m.slots());
    lemma_header_roundtrip(m.header, ies_wire(body));
    lemma_header_wire_len(m.header);
    assert((header_wire(m.header) + ies_wire(body)).skip(header_size(m.header) as int) =~= ies_wire(body));
    crate::ie::lemma_parse_ies_wire(body);
    lemma_decode_concat(m.slots(), SessionEstablishmentResponse::classifier(), SessionEstablishmentResponse::slot_kinds());
    assert(decode_slots(body, SessionEstablishmentResponse::classifier(), SessionEstablishmentResponse::slot_kinds()) == m.slots());
    assert(decode_slots(body, SessionEstablishmentResponse::classifier(), SessionEstablishmentResponse::slot_kinds())[0] == decode_slot(body, SessionEstablishmentResponse::classifier(), 0, SlotKind::One));
    assert(decode_slots(body, SessionEstablishmentResponse::classifier(), SessionEstablishmentResponse::slot_kinds())[1] == decode_slot(body, SessionEstablishmentResponse::classifier(), 1, SlotKind::One));
    assert(decode_slots(body, SessionEstablishmentResponse::classifier(), SessionEstablishmentResponse::slot_kinds())[2] == decode_slot(body, SessionEstablishmentResponse::classifier(), 2, SlotKind::One));
    assert(decode_slots(body, SessionEstablishmentResponse::classifier(), SessionEstablishmentResponse::slot_kinds())[3] == decode_slot(body, SessionEstablishmentResponse::classifier(), 3, SlotKind::One));
    assert(decode_slots(body, SessionEstablishmentResponse::classifier(), SessionEstablishmentResponse::slot_kinds())[4] == decode_slot(body, SessionEstablishmentResponse::classifier(), 4, SlotKind::Many));
    assert(decode_slots(body, SessionEstablishmentResponse::classifier(), SessionEstablishmentResponse::slot_kinds())[5] == decode_slot(body, SessionEstablishmentResponse::classifier(), 5, SlotKind::One));
    assert(decode_slots(body, SessionEstablishmentResponse::classifier(), SessionEstablishmentResponse::slot_kinds())[6] == decode_slot(body, SessionEstablishmentResponse::classifier(), 6, SlotKind::One));
    assert(decode_slots(body, SessionEstablishmentResponse::classifier(), SessionEstablishmentResponse::slot_kinds())[7] == decode_slot(body, SessionEstablishmentResponse::classifier(), 7, SlotKind::One));
    assert(decode_slots(body, SessionEstablishmentResponse::classifier(), SessionEstablishmentResponse::slot_kinds())[8] == decode_slot(body, SessionEstablishmentResponse::classifier(), 8, SlotKind::One));
    assert(decode_slots(body, SessionEstablishmentResponse::classifier(), SessionEstablishmentResponse::slot_kinds())[9] == decode_slot(body, SessionEstablishmentResponse::classifier(), 9, SlotKind::Many));
    assert(decode_slots(body, SessionEstablishmentResponse::classifier(), SessionEstablishmentResponse::slot_kinds())[10] == decode_slot(body, SessionEstablishmentResponse::classifier(), 10, SlotKind::Many));
    assert(decode_slots(body, SessionEstablishmentResponse::classifier(), SessionEstablishmentResponse::slot_kinds())[11] == decode_slot(body, SessionEstablishmentResponse::classifier(), 11, SlotKind::Many));
    assert(decode_slots(body, SessionEstablishmentResponse::classifier(), SessionEstablishmentResponse::slot_kinds())[12] == decode_slot(body, SessionEstablishmentResponse::classifier(), 12, SlotKind::One));
    assert(decode_slots(body, SessionEstablishmentResponse::classifier(), SessionEstablishmentResponse::slot_kinds())[13] == decode_slot(body, SessionEstablishmentResponse::classifier(), 13, SlotKind::One));
    assert(decode_slots(body, SessionEstablishmentResponse::classifier(), SessionEstablishmentResponse::slot_kinds())[14] == decode_slot(body, SessionEstablishmentResponse::classifier(), 14, SlotKind::One));
    assert(decode_slots(body, SessionEstablishmentResponse::classifier(), SessionEstablishmentResponse::slot_kinds())[15] == decode_slot(body, SessionEstablishmentResponse::classifier(), 15, SlotKind::One));
    assert(decode_slots(body, SessionEstablishmentResponse::classifier(), SessionEstablishmentResponse::slot_kinds())[16] == decode_slot(body, SessionEstablishmentResponse::classifier(), 16, SlotKind::One));
    assert(decode_slots(body, SessionEstablishmentResponse::classifier(), SessionEstablishmentResponse::slot_kinds())[17] == decode_slot(body, SessionEstablishmentResponse::classifier(), 17, SlotKind::Many));
    assert(decode_slots(body, SessionEstablishmentResponse::classifier(), SessionEstablishmentResponse::slot_kinds())[18] == decode_slot(body, SessionEstablishmentResponse::classifier(), 18, SlotKind::Many));
    assert(decode_slots(body, SessionEstablishmentResponse::classifier(), SessionEstablishmentResponse::slot_kinds())[19] == decode_slot(body, SessionEstablishmentResponse::classifier(), 19, SlotKind::Many));
    assert(m.slots()[0].len() > 0);
    assert(m.slots()[1].len() > 0);
    assert(m.slots()[3].len() > 0);
}

/// Builder for SessionEstablishmentResponse messages.
#[derive(Debug)]
pub struct SessionEstablishmentResponseBuilder {
    pub seid: u64,
    pub sequence: u32,
    pub node_id: Option<Ie>,
    pub cause: Option<Ie>,
    pub offending_ie: Option<Ie>,
    pub fseid: Option<Ie>,
    pub created_pdrs: Vec<Ie>,
    pub pdn_type: Option<Ie>,
    pub load_control_information: Option<Ie>,
    pub overload_control_information: Option<Ie>,
    pub failed_rule_id: Option<Ie>,
    pub partial_failure_information: Vec<Ie>,
    pub created_traffic_endpoints: Vec<Ie>,
    pub fq_csids: Vec<Ie>,
    pub created_bridge_info_for_tsc: Option<Ie>,
    pub atsss_control_parameters: Option<Ie>,
    pub rds_configuration_information: Option<Ie>,
    pub created_l2tp_session: Option<Ie>,
    pub mbs_session_n4mb_information: Option<Ie>,
    pub mbs_session_n4_information: Vec<Ie>,
    pub tl_containers: Vec<Ie>,
    pub ies: Vec<Ie>,
}

impl SessionEstablishmentResponseBuilder {
    /// The IEs of each field of the message this builder builds, in wire order.
    pub open spec fn built_slots(&self) -> Seq<Seq<IeView>> {
        Seq::<Seq<IeView>>::empty().push(seq![self.node_id.unwrap()@]).push(seq![self.cause.unwrap()@]).push(opt_ie_seq(self.offending_ie)).push(seq![self.fseid.unwrap()@]).push(ies_view(self.created_pdrs@)).push(opt_ie_seq(self.pdn_type)).push(opt_ie_seq(self.load_control_information)).push(opt_ie_seq(self.overload_control_information)).push(opt_ie_seq(self.failed_rule_id)).push(ies_view(self.partial_failure_information@)).push(ies_view(self.created_traffic_endpoints@)).push(ies_view(self.fq_csids@)).push(opt_ie_seq(self.created_bridge_info_for_tsc)).push(opt_ie_seq(self.atsss_control_parameters)).push(opt_ie_seq(self.rds_configuration_information)).push(opt_ie_seq(self.created_l2tp_session)).push(opt_ie_seq(self.mbs_session_n4mb_information)).push(ies_view(self.mbs_session_n4_information@)).push(ies_view(self.tl_containers@)).push(ies_view(self.ies@))
    }

    /// The header of the message this builder builds.
    pub open spec fn built_header(&self) -> Header {
        message_header(MsgType::SessionEstablishmentResponse, true, self.seid, self.sequence, concat_slots(self.built_slots()))
    }

    /// Creates a builder whose cause IE carries `cause`.
    pub fn new(seid: u64, seq: u32, cause: CauseValue) -> (r: Self)
        ensures
            r.seid == seid,
            r.sequence == seq,
            r.cause is Some,
            r.cause.unwrap()@ == crate::ie::cause::cause_ie_view(cause),
            r.node_id is None,
            r.offending_ie is None,
            r.fseid is None,
            r.created_pdrs@.len() == 0,
            r.pdn_type is None,
            r.load_control_information is None,
            r.overload_control_information is None,
            r.failed_rule_id is None,
            r.partial_failure_information@.len() == 0,
            r.created_traffic_endpoints@.len() == 0,
            r.fq_csids@.len() == 0,
            r.created_bridge_info_for_tsc is None,
            r.atsss_control_parameters is None,
            r.rds_configuration_information is None,
            r.created_l2tp_session is None,
            r.mbs_session_n4mb_information is None,
            r.mbs_session_n4_information@.len() == 0,
            r.tl_containers@.len() == 0,
            r.ies@.len() == 0,
    {
        let cause_ie = Cause::new(cause).to_ie();
        SessionEstablishmentResponseBuilder { seid, sequence: seq, node_id: None, cause: Some(cause_ie), offending_ie: None, fseid: None, created_pdrs: Vec::new(), pdn_type: None, load_control_information: None, overload_control_information: None, failed_rule_id: None, partial_failure_information: Vec::new(), created_traffic_endpoints: Vec::new(), fq_csids: Vec::new(), created_bridge_info_for_tsc: None, atsss_control_parameters: None, rds_configuration_information: None, created_l2tp_session: None, mbs_session_n4mb_information: None, mbs_session_n4_information: Vec::new(), tl_containers: Vec::new(), ies: Vec::new() }
    }

    /// Creates a builder whose cause is "Request accepted".
    pub fn accepted(seid: u64, seq: u32) -> (r: Self)
        ensures
            r.seid == seid,
            r.sequence == seq,
            r.cause is Some,
            r.cause.unwrap()@ == crate::ie::cause::cause_ie_view(CauseValue::RequestAccepted),
            r.node_id is None,
            r.offending_ie is None,
            r.fseid is None,
            r.created_pdrs@.len() == 0,
            r.pdn_type is None,
            r.load_control_information is None,
            r.overload_control_information is None,
            r.failed_rule_id is None,
            r.partial_failure_information@.len() == 0,
            r.created_traffic_endpoints@.len() == 0,
            r.fq_csids@.len() == 0,
            r.created_bridge_info_for_tsc is None,
            r.atsss_control_parameters is None,
            r.rds_configuration_information is None,
            r.created_l2tp_session is None,
            r.mbs_session_n4mb_information is None,
            r.mbs_session_n4_information@.len() == 0,
            r.tl_containers@.len() == 0,
            r.ies@.len() == 0,
    {
        Self::new(seid, seq, CauseValue::RequestAccepted)
    }

    /// Creates a builder whose cause is "Request rejected".
    pub fn rejected(seid: u64, seq: u32) -> (r: Self)
        ensures
            r.seid == seid,
            r.sequence == seq,
            r.cause is Some,
            r.cause.unwrap()@ == crate::ie::cause::cause_ie_view(CauseValue::RequestRejected),
            r.node_id is None,
            r.offending_ie is None,
            r.fseid is None,
            r.created_pdrs@.len() == 0,
            r.pdn_type is None,
            r.load_control_information is None,
            r.overload_control_information is None,
            r.failed_rule_id is None,
            r.partial_failure_information@.len() == 0,
            r.created_traffic_endpoints@.len() == 0,
            r.fq_csids@.len() == 0,
            r.created_bridge_info_for_tsc is None,
            r.atsss_control_parameters is None,
            r.rds_configuration_information is None,
            r.created_l2tp_session is None,
            r.mbs_session_n4mb_information is None,
            r.mbs_session_n4_information@.len() == 0,
            r.tl_containers@.len() == 0,
            r.ies@.len() == 0,
    {
        Self::new(seid, seq, CauseValue::RequestRejected)
    }

    /// Creates a builder with the given cause IE.
    pub fn new_with_ie(seid: u64, seq: u32, cause: Ie) -> (r: Self)
        ensures
            r.seid == seid,
            r.sequence == seq,
            r.cause == Some(cause),
            r.node_id is None,
            r.offending_ie is None,
            r.fseid is None,
            r.created_pdrs@.len() == 0,
            r.pdn_type is None,
            r.load_control_information is None,
            r.overload_control_information is None,
            r.failed_rule_id is None,
            r.partial_failure_information@.len() == 0,
            r.created_traffic_endpoints@.len() == 0,
            r.fq_csids@.len() == 0,
            r.created_bridge_info_for_tsc is None,
            r.atsss_control_parameters is None,
            r.rds_configuration_information is None,
            r.created_l2tp_session is None,
            r.mbs_session_n4mb_information is None,
            r.mbs_session_n4_information@.len() == 0,
            r.tl_containers@.len() == 0,
            r.ies@.len() == 0,
    {
        SessionEstablishmentResponseBuilder { seid, sequence: seq, node_id: None, cause: Some(cause), offending_ie: None, fseid: None, created_pdrs: Vec::new(), pdn_type: None, load_control_information: None, overload_control_information: None, failed_rule_id: None, partial_failure_information: Vec::new(), created_traffic_endpoints: Vec::new(), fq_csids: Vec::new(), created_bridge_info_for_tsc: None, atsss_control_parameters: None, rds_configuration_information: None, created_l2tp_session: None, mbs_session_n4mb_information: None, mbs_session_n4_information: Vec::new(), tl_containers: Vec::new(), ies: Vec::new() }
    }

    /// Sets the offending ie IE.
    pub fn offending_ie(self, ie: Ie) -> (r: Self)
        ensures
            r == (Self { offending_ie: Some(ie), ..self }),
    {
        let mut s = self;
        s.offending_ie = Some(ie);
        s
    }

    /// Sets the Node ID.
    pub fn node_id(self, node_id: NodeId) -> (r: Self)
        ensures
            r.node_id is Some,
            r.node_id.unwrap()@ == (IeView { ie_type: IeType::NodeId, payload: crate::ie::node_id::node_id_bytes(node_id@) }),
            r == (Self { node_id: r.node_id, ..self }),
    {
        let mut s = self;
        s.node_id = Some(node_id.to_ie());
        s
    }

    /// Sets the Node ID to a fully qualified domain name.
    pub fn node_id_fqdn(self, fqdn: &str) -> (r: Self)
        ensures
            r.node_id is Some,
            r.node_id.unwrap()@ == crate::ie::node_id::fqdn_node_id_ie(fqdn@),
            r == (Self { node_id: r.node_id, ..self }),
    {
        let mut s = self;
        let node = NodeId::new_fqdn(fqdn);
        s.node_id = Some(node.to_ie());
        s
    }

    /// Sets the node id IE.
    pub fn node_id_ie(self, ie: Ie) -> (r: Self)
        ensures
            r == (Self { node_id: Some(ie), ..self }),
    {
        let mut s = self;
        s.node_id = Some(ie);
        s
    }

    /// Sets the UP F-SEID.
    pub fn fseid(self, fseid: Fseid) -> (r: Self)
        ensures
            r.fseid is Some,
            r.fseid.unwrap()@ == (IeView { ie_type: IeType::Fseid, payload: crate::ie::fseid::fseid_bytes(fseid@) }),
            r == (Self { fseid: r.fseid, ..self }),
    {
        let mut s = self;
        s.fseid = Some(fseid.to_ie());
        s
    }

    /// Sets the fseid IE.
    pub fn fseid_ie(self, ie: Ie) -> (r: Self)
        ensures
            r == (Self { fseid: Some(ie), ..self }),
    {
        let mut s = self;
        s.fseid = Some(ie);
        s
    }

    /// Adds a Created PDR IE.
    pub fn created_pdr(self, ie: Ie) -> (r: Self)
        ensures
            r.created_pdrs@ == self.created_pdrs@.push(ie),
            r == (Self { created_pdrs: r.created_pdrs, ..self }),
    {
        let mut s = self;
        s.created_pdrs.push(ie);
        s
    }

    /// Sets the pdn type IE.
    pub fn pdn_type(self, ie: Ie) -> (r: Self)
        ensures
            r == (Self { pdn_type: Some(ie), ..self }),
    {
        let mut s = self;
        s.pdn_type = Some(ie);
        s
    }

    /// Sets the load control information IE.
    pub fn load_control_information(self, ie: Ie) -> (r: Self)
        ensures
            r == (Self { load_control_information: Some(ie), ..self }),
    {
        let mut s = self;
        s.load_control_information = Some(ie);
        s
    }

    /// Sets the overload control information IE.
    pub fn overload_control_information(self, ie: Ie) -> (r: Self)
        ensures
            r == (Self { overload_control_information: Some(ie), ..self }),
    {
        let mut s = self;
        s.overload_control_information = Some(ie);
        s
    }

    /// Sets the failed rule id IE.
    pub fn failed_rule_id(self, ie: Ie) -> (r: Self)
        ensures
            r == (Self { failed_rule_id: Some(ie), ..self }),
    {
        let mut s = self;
        s.failed_rule_id = Some(ie);
        s
    }

    /// Adds a partial failure information IE.
    pub fn partial_failure_information(self, ie: Ie) -> (r: Self)
        ensures
            r.partial_failure_information@ == self.partial_failure_information@.push(ie),
            r == (Self { partial_failure_information: r.partial_failure_information, ..self }),
    {
        let mut s = self;
        s.partial_failure_information.push(ie);
        s
    }

    /// Adds a Created Traffic Endpoint IE.
    pub fn created_traffic_endpoint(self, ie: Ie) -> (r: Self)
        ensures
            r.created_traffic_endpoints@ == self.created_traffic_endpoints@.push(ie),
            r == (Self { created_traffic_endpoints: r.created_traffic_endpoints, ..self }),
    {
        let mut s = self;
        s.created_traffic_endpoints.push(ie);
        s
    }

    /// Adds an FQ-CSID IE.
    pub fn fq_csid(self, ie: Ie) -> (r: Self)
        ensures
            r.fq_csids@ == self.fq_csids@.push(ie),
            r == (Self { fq_csids: r.fq_csids, ..self }),
    {
        let mut s = self;
        s.fq_csids.push(ie);
        s
    }

    /// Sets the created bridge info for tsc IE.
    pub fn created_bridge_info_for_tsc(self, ie: Ie) -> (r: Self)
        ensures
            r == (Self { created_bridge_info_for_tsc: Some(ie), ..self }),
    {
        let mut s = self;
        s.created_bridge_info_for_tsc = Some(ie);
        s
    }

    /// Sets the atsss control parameters IE.
    pub fn atsss_control_parameters(self, ie: Ie) -> (r: Self)
        ensures
            r == (Self { atsss_control_parameters: Some(ie), ..self }),
    {
        let mut s = self;
        s.atsss_control_parameters = Some(ie);
        s
    }

    /// Sets the rds configuration information IE.
    pub fn rds_configuration_information(self, ie: Ie) -> (r: Self)
        ensures
            r == (Self { rds_configuration_information: Some(ie), ..self }),
    {
        let mut s = self;
        s.rds_configuration_information = Some(ie);
        s
    }

    /// Sets the created l2tp session IE.
    pub fn created_l2tp_session(self, ie: Ie) -> (r: Self)
        ensures
            r == (Self { created_l2tp_session: Some(ie), ..self }),
    {
        let mut s = self;
        s.created_l2tp_session = Some(ie);
        s
    }

    /// Sets the mbs session n4mb information IE.
    pub fn mbs_session_n4mb_information(self, ie: Ie) -> (r: Self)
        ensures
            r == (Self { mbs_session_n4mb_information: Some(ie), ..self }),
    {
        let mut s = self;
        s.mbs_session_n4mb_information = Some(ie);
        s
    }

    /// Adds an MBS session N4 information IE.
    pub fn add_mbs_session_n4_information(self, ie: Ie) -> (r: Self)
        ensures
            r.mbs_session_n4_information@ == self.mbs_session_n4_information@.push(ie),
            r == (Self { mbs_session_n4_information: r.mbs_session_n4_information, ..self }),
    {
        let mut s = self;
        s.mbs_session_n4_information.push(ie);
        s
    }

    /// Adds a TL-Container IE.
    pub fn tl_container(self, ie: Ie) -> (r: Self)
        ensures
            r.tl_containers@ == self.tl_containers@.push(ie),
            r == (Self { tl_containers: r.tl_containers, ..self }),
    {
        let mut s = self;
        s.tl_containers.push(ie);
        s
    }

    /// Sets the additional IEs.
    pub fn ies(self, ies: Vec<Ie>) -> (r: Self)
        ensures
            r == (Self { ies: ies, ..self }),
    {
        let mut s = self;
        s.ies = ies;
        s
    }

    /// Builds the message, or reports the first mandatory IE that is missing.
    pub fn build(self) -> (r: Result<SessionEstablishmentResponse, PfcpError>)
        ensures
            self.node_id is None ==> r == Err::<SessionEstablishmentResponse, PfcpError>(PfcpError::MissingMandatoryIe { ie_type: IeType::NodeId, message_type: Some(MsgType::SessionEstablishmentResponse) }),
            self.node_id is Some && self.cause is None ==> r == Err::<SessionEstablishmentResponse, PfcpError>(PfcpError::MissingMandatoryIe { ie_type: IeType::Cause, message_type: Some(MsgType::SessionEstablishmentResponse) }),
            self.node_id is Some && self.cause is Some && self.fseid is None ==> r == Err::<SessionEstablishmentResponse, PfcpError>(PfcpError::MissingMandatoryIe { ie_type: IeType::Fseid, message_type: Some(MsgType::SessionEstablishmentResponse) }),
            self.node_id is Some && self.cause is Some && self.fseid is Some ==> r is Ok,
            r matches Ok(r) ==> {
                r.header == message_header(MsgType::SessionEstablishmentResponse, true, self.seid, self.sequence, concat_slots(r.slots())) &&
                r.node_id == self.node_id.unwrap() &&
                r.cause == self.cause.unwrap() &&
                r.offending_ie == self.offending_ie &&
                r.fseid == self.fseid.unwrap() &&
                r.created_pdrs == self.created_pdrs &&
                r.pdn_type == self.pdn_type &&
                r.load_control_information == self.load_control_information &&
                r.overload_control_information == self.overload_control_information &&
                r.failed_rule_id == self.failed_rule_id &&
                r.partial_failure_information == self.partial_failure_information &&
                r.created_traffic_endpoints == self.created_traffic_endpoints &&
                r.fq_csids == self.fq_csids &&
                r.created_bridge_info_for_tsc == self.created_bridge_info_for_tsc &&
                r.atsss_control_parameters == self.atsss_control_parameters &&
                r.rds_configuration_information == self.rds_configuration_information &&
                r.created_l2tp_session == self.created_l2tp_session &&
                r.mbs_session_n4mb_information == self.mbs_session_n4mb_information &&
                r.mbs_session_n4_information == self.mbs_session_n4_information &&
                r.tl_containers == self.tl_containers &&
                r.ies == self.ies &&
                r.slots() == self.built_slots() &&
                r.header == self.built_header() &&
                true
            },
    {
        if self.node_id.is_none() {
            return Err(PfcpError::MissingMandatoryIe { ie_type: IeType::NodeId, message_type: Some(MsgType::SessionEstablishmentResponse) });
        }
        if self.cause.is_none() {
            return Err(PfcpError::MissingMandatoryIe { ie_type: IeType::Cause, message_type: Some(MsgType::SessionEstablishmentResponse) });
        }
        if self.fseid.is_none() {
            return Err(PfcpError::MissingMandatoryIe { ie_type: IeType::Fseid, message_type: Some(MsgType::SessionEstablishmentResponse) });
        }
        let node_id = match self.node_id { Some(x) => x, None => return Err(PfcpError::MissingMandatoryIe { ie_type: IeType::NodeId, message_type: Some(MsgType::SessionEstablishmentResponse) }) };
        let cause = match self.cause { Some(x) => x, None => return Err(PfcpError::MissingMandatoryIe { ie_type: IeType::Cause, message_type: Some(MsgType::SessionEstablishmentResponse) }) };
        let fseid = match self.fseid { Some(x) => x, None => return Err(PfcpError::MissingMandatoryIe { ie_type: IeType::Fseid, message_type: Some(MsgType::SessionEstablishmentResponse) }) };
        Ok(SessionEstablishmentResponse::assemble(self.seid, self.sequence, node_id, cause, self.offending_ie, fseid, self.created_pdrs, self.pdn_type, self.load_control_information, self.overload_control_information, self.failed_rule_id, self.partial_failure_information, self.created_traffic_endpoints, self.fq_csids, self.created_bridge_info_for_tsc, self.atsss_control_parameters, self.rds_configuration_information, self.created_l2tp_session, self.mbs_session_n4mb_information, self.mbs_session_n4_information, self.tl_containers, self.ies))
    }

    /// Builds the message and serializes it, or reports the first mandatory IE that is missing.
    pub fn marshal(self) -> (r: Result<Vec<u8>, PfcpError>)
        ensures
            self.node_id is None ==> r == Err::<Vec<u8>, PfcpError>(PfcpError::MissingMandatoryIe { ie_type: IeType::NodeId, message_type: Some(MsgType::SessionEstablishmentResponse) }),
            self.node_id is Some && self.cause is None ==> r == Err::<Vec<u8>, PfcpError>(PfcpError::MissingMandatoryIe { ie_type: IeType::Cause, message_type: Some(MsgType::SessionEstablishmentResponse) }),
            self.node_id is Some && self.cause is Some && self.fseid is None ==> r == Err::<Vec<u8>, PfcpError>(PfcpError::MissingMandatoryIe { ie_type: IeType::Fseid, message_type: Some(MsgType::SessionEstablishmentResponse) }),
            self.node_id is Some && self.cause is Some && self.fseid is Some ==> r is Ok,
            r matches Ok(bytes) ==> bytes@ == header_wire(self.built_header()) + ies_wire(concat_slots(self.built_slots())),
    {
        match self.build() {
            Ok(msg) => Ok(msg.marshal()),
            Err(e) => Err(e),
        }
    }

}

/// Decoding what a SessionEstablishmentResponse builder writes fails exactly when a mandatory IE is
/// missing from the IEs it was given, and a message decoded from it has the builder's
/// header, and so its sequence number; when every IE stands in the field for its type,
/// the decoded message has the builder's IEs in each field. This holds when the
/// sequence number fits the header's 24 bits and every IE fits its length field.
#[verifier::spinoff_prover]
pub proof fn lemma_session_establishment_response_builder_roundtrip(b: SessionEstablishmentResponseBuilder)
    requires
        b.sequence < 16777216,
        ies_wf(concat_slots(b.built_slots())),
    ensures
        SessionEstablishmentResponse::spec_decode_error(header_wire(b.built_header()) + ies_wire(concat_slots(b.built_slots()))) == (match SessionEstablishmentResponse::missing_ie(concat_slots(b.built_slots())) {
            Some(t) => Some(PfcpError::MissingMandatoryIe { ie_type: t, message_type: Some(MsgType::SessionEstablishmentResponse) }),
            None => None::<PfcpError>,
        }),
        forall|m: SessionEstablishmentResponse|
            #[trigger] SessionEstablishmentResponse::spec_decoded(header_wire(b.built_header()) + ies_wire(concat_slots(b.built_slots())), m) ==> m.header == b.built_header()
                && m.header.sequence_number == b.sequence,
        slots_typed(b.built_slots(), SessionEstablishmentResponse::classifier(), SessionEstablishmentResponse::slot_kinds()) ==> forall|m: SessionEstablishmentResponse|
            #[trigger] SessionEstablishmentResponse::spec_decoded(header_wire(b.built_header()) + ies_wire(concat_slots(b.built_slots())), m) ==> m.slots() == b.built_slots(),
{
    let h = b.built_header();
    let ss = b.built_slots();
    let body = concat_slots(ss);
    lemma_msg_type_code_roundtrip(MsgType::SessionEstablishmentResponse);
    assert(header_wf(h));
    lemma_header_roundtrip(h, ies_wire(body));
    lemma_header_wire_len(h);
    assert((header_wire(h) + ies_wire(body)).skip(header_size(h) as int) =~= ies_wire(body));
    crate::ie::lemma_parse_ies_wire(body);
    if slots_typed(ss, SessionEstablishmentResponse::classifier(), SessionEstablishmentResponse::slot_kinds()) {
        lemma_decode_concat(ss, SessionEstablishmentResponse::classifier(), SessionEstablishmentResponse::slot_kinds());
        assert(decode_slots(body, SessionEstablishmentResponse::classifier(), SessionEstablishmentResponse::slot_kinds()) == ss);
        assert(decode_slots(body, SessionEstablishmentResponse::classifier(), SessionEstablishmentResponse::slot_kinds())[0] == decode_slot(body, SessionEstablishmentResponse::classifier(), 0, SlotKind::One));
        assert(decode_slots(body, SessionEstablishmentResponse::classifier(), SessionEstablishmentResponse::slot_kinds())[1] == decode_slot(body, SessionEstablishmentResponse::classifier(), 1, SlotKind::One));
        assert(decode_slots(body, SessionEstablishmentResponse::classifier(), SessionEstablishmentResponse::slot_kinds())[2] == decode_slot(body, SessionEstablishmentResponse::classifier(), 2, SlotKind::One));
        assert(decode_slots(body, SessionEstablishmentResponse::classifier(), SessionEstablishmentResponse::slot_kinds())[3] == decode_slot(body, SessionEstablishmentResponse::classifier(), 3, SlotKind::One));
        assert(decode_slots(body, SessionEstablishmentResponse::classifier(), SessionEstablishmentResponse::slot_kinds())[4] == decode_slot(body, SessionEstablishmentResponse::classifier(), 4, SlotKind::Many));
        assert(decode_slots(body, SessionEstablishmentResponse::classifier(), SessionEstablishmentResponse::slot_kinds())[5] == decode_slot(body, SessionEstablishmentResponse::classifier(), 5, SlotKind::One));
        assert(decode_slots(body, SessionEstablishmentResponse::classifier(), SessionEstablishmentResponse::slot_kinds())[6] == decode_slot(body, SessionEstablishmentResponse::classifier(), 6, SlotKind::One));
        assert(decode_slots(body, SessionEstablishmentResponse::classifier(), SessionEstablishmentResponse::slot_kinds())[7] == decode_slot(body, SessionEstablishmentResponse::classifier(), 7, SlotKind::One));
        assert(decode_slots(body, SessionEstablishmentResponse::classifier(), SessionEstablishmentResponse::slot_kinds())[8] == decode_slot(body, SessionEstablishmentResponse::classifier(), 8, SlotKind::One));
        assert(decode_slots(body, SessionEstablishmentResponse::classifier(), SessionEstablishmentResponse::slot_kinds())[9] == decode_slot(body, SessionEstablishmentResponse::classifier(), 9, SlotKind::Many));
        assert(decode_slots(body, SessionEstablishmentResponse::classifier(), SessionEstablishmentResponse::slot_kinds())[10] == decode_slot(body, SessionEstablishmentResponse::classifier(), 10, SlotKind::Many));
        assert(decode_slots(body, SessionEstablishmentResponse::classifier(), SessionEstablishmentResponse::slot_kinds())[11] == decode_slot(body, SessionEstablishmentResponse::classifier(), 11, SlotKind::Many));
        assert(decode_slots(body, SessionEstablishmentResponse::classifier(), SessionEstablishmentResponse::slot_kinds())[12] == decode_slot(body, SessionEstablishmentResponse::classifier(), 12, SlotKind::One));
        assert(decode_slots(body, SessionEstablishmentResponse::classifier(), SessionEstablishmentResponse::slot_kinds())[13] == decode_slot(body, SessionEstablishmentResponse::classifier(), 13, SlotKind::One));
        assert(decode_slots(body, SessionEstablishmentResponse::classifier(), SessionEstablishmentResponse::slot_kinds())[14] == decode_slot(body, SessionEstablishmentResponse::classifier(), 14, SlotKind::One));
        assert(decode_slots(body, SessionEstablishmentResponse::classifier(), SessionEstablishmentResponse::slot_kinds())[15] == decode_slot(body, SessionEstablishmentResponse::classifier(), 15, SlotKind::One));
        assert(decode_slots(body, SessionEstablishmentResponse::classifier(), SessionEstablishmentResponse::slot_kinds())[16] == decode_slot(body, SessionEstablishmentResponse::classifier(), 16, SlotKind::One));
        assert(decode_slots(body, SessionEstablishmentResponse::classifier(), SessionEstablishmentResponse::slot_kinds())[17] == decode_slot(body, SessionEstablishmentResponse::classifier(), 17, SlotKind::Many));
        assert(decode_slots(body, SessionEstablishmentResponse::classifier(), SessionEstablishmentResponse::slot_kinds())[18] == decode_slot(body, SessionEstablishmentResponse::classifier(), 18, SlotKind::Many));
        assert(decode_slots(body, SessionEstablishmentResponse::classifier(), SessionEstablishmentResponse::slot_kinds())[19] == decode_slot(body, SessionEstablishmentResponse::classifier(), 19, SlotKind::Many));
        assert forall|m: SessionEstablishmentResponse| #[trigger] SessionEstablishmentResponse::spec_decoded(header_wire(b.built_header()) + ies_wire(concat_slots(b.built_slots())), m) implies m.slots() == ss by {
            assert(m.slots() =~= ss);
        }
    }
}

impl SessionEstablishmentResponse {
    /// Every IE is in the field named for its type, and the additional IEs are of
    /// no type that has a field of its own.
    #[verifier::opaque]
    pub open spec fn fields_hold_their_types(&self) -> bool {
        &&& self.node_id.ie_type == IeType::NodeId
        &&& self.cause.ie_type == IeType::Cause
        &&& (self.offending_ie matches Some(x) ==> x.ie_type == IeType::OffendingIe)
        &&& self.fseid.ie_type == IeType::Fseid
        &&& forall|i: int| 0 <= i < self.created_pdrs@.len() ==> (#[trigger] self.created_pdrs@[i]).ie_type == IeType::CreatedPdr
        &&& (self.pdn_type matches Some(x) ==> x.ie_type == IeType::PdnType)
        &&& (self.load_control_information matches Some(x) ==> x.ie_type == IeType::LoadControlInformation)
        &&& (self.overload_control_information matches Some(x) ==> x.ie_type == IeType::OverloadControlInformation)
        &&& (self.failed_rule_id matches Some(x) ==> x.ie_type == IeType::FailedRuleId)
        &&& forall|i: int| 0 <= i < self.partial_failure_information@.len() ==> (#[trigger] self.partial_failure_information@[i]).ie_type == IeType::PartialFailureInformation
        &&& forall|i: int| 0 <= i < self.created_traffic_endpoints@.len() ==> (#[trigger] self.created_traffic_endpoints@[i]).ie_type == IeType::CreatedTrafficEndpoint
        &&& forall|i: int| 0 <= i < self.fq_csids@.len() ==> (#[trigger] self.fq_csids@[i]).ie_type == IeType::FqCsid
        &&& (self.created_bridge_info_for_tsc matches Some(x) ==> x.ie_type == IeType::CreatedBridgeInfoForTsc)
        &&& (self.atsss_control_parameters matches Some(x) ==> x.ie_type == IeType::AtsssControlParameters)
        &&& (self.rds_configuration_information matches Some(x) ==> x.ie_type == IeType::RdsConfigurationInformation)
        &&& (self.created_l2tp_session matches Some(x) ==> x.ie_type == IeType::CreatedL2tpSession)
        &&& (self.mbs_session_n4mb_information matches Some(x) ==> x.ie_type == IeType::MbsSessionN4mbInformation)
        &&& forall|i: int| 0 <= i < self.mbs_session_n4_information@.len() ==> (#[trigger] self.mbs_session_n4_information@[i]).ie_type == IeType::MbsSessionN4Information
        &&& forall|i: int| 0 <= i < self.tl_containers@.len() ==> (#[trigger] self.tl_containers@[i]).ie_type == IeType::TlContainer
        &&& forall|i: int| 0 <= i < self.ies@.len() ==> {
            let t = (#[trigger] self.ies@[i]).ie_type;
            t != IeType::NodeId && t != IeType::Cause && t != IeType::OffendingIe && t != IeType::Fseid && t != IeType::CreatedPdr && t != IeType::PdnType && t != IeType::LoadControlInformation && t != IeType::OverloadControlInformation && t != IeType::FailedRuleId && t != IeType::PartialFailureInformation && t != IeType::CreatedTrafficEndpoint && t != IeType::FqCsid && t != IeType::CreatedBridgeInfoForTsc && t != IeType::AtsssControlParameters && t != IeType::RdsConfigurationInformation && t != IeType::CreatedL2tpSession && t != IeType::MbsSessionN4mbInformation && t != IeType::MbsSessionN4Information && t != IeType::TlContainer
        }
    }
}

/// Decoding puts every IE of the body into the field named for its IE type: a
/// field for one IE holds the last IE of its type, a list holds all IEs of its
/// type in wire order, and the additional IEs are the IEs of the other types, in
/// wire order.
#[verifier::spinoff_prover]
pub proof fn lemma_session_establishment_response_decoded_by_type(data: Seq<u8>, m: SessionEstablishmentResponse)
    requires
        SessionEstablishmentResponse::spec_decoded(data, m),
    ensures
        spec_parse_ies(data.skip(header_size(m.header) as int)) is Ok,
        ({
            let body = spec_parse_ies(data.skip(header_size(m.header) as int))->Ok_0;
            &&& ies_of_type(body, IeType::NodeId).len() > 0 && m.node_id@ == ies_of_type(body, IeType::NodeId).last()
            &&& ies_of_type(body, IeType::Cause).len() > 0 && m.cause@ == ies_of_type(body, IeType::Cause).last()
            &&& (ies_of_type(body, IeType::OffendingIe).len() == 0 ==> m.offending_ie is None)
            &&& (ies_of_type(body, IeType::OffendingIe).len() > 0 ==> (m.offending_ie matches Some(x) && x@ == ies_of_type(body, IeType::OffendingIe).last()))
            &&& ies_of_type(body, IeType::Fseid).len() > 0 && m.fseid@ == ies_of_type(body, IeType::Fseid).last()
            &&& ies_view(m.created_pdrs@) == ies_of_type(body, IeType::CreatedPdr)
            &&& (ies_of_type(body, IeType::PdnType).len() == 0 ==> m.pdn_type is None)
            &&& (ies_of_type(body, IeType::PdnType).len() > 0 ==> (m.pdn_type matches Some(x) && x@ == ies_of_type(body, IeType::PdnType).last()))
            &&& (ies_of_type(body, IeType::LoadControlInformation).len() == 0 ==> m.load_control_information is None)
            &&& (ies_of_type(body, IeType::LoadControlInformation).len() > 0 ==> (m.load_control_information matches Some(x) && x@ == ies_of_type(body, IeType::LoadControlInformation).last()))
            &&& (ies_of_type(body, IeType::OverloadControlInformation).len() == 0 ==> m.overload_control_information is None)
            &&& (ies_of_type(body, IeType::OverloadControlInformation).len() > 0 ==> (m.overload_control_information matches Some(x) && x@ == ies_of_type(body, IeType::OverloadControlInformation).last()))
            &&& (ies_of_type(body, IeType::FailedRuleId).len() == 0 ==> m.failed_rule_id is None)
            &&& (ies_of_type(body, IeType::FailedRuleId).len() > 0 ==> (m.failed_rule_id matches Some(x) && x@ == ies_of_type(body, IeType::FailedRuleId).last()))
            &&& ies_view(m.partial_failure_information@) == ies_of_type(body, IeType::PartialFailureInformation)
            &&& ies_view(m.created_traffic_endpoints@) == ies_of_type(body, IeType::CreatedTrafficEndpoint)
            &&& ies_view(m.fq_csids@) == ies_of_type(body, IeType::FqCsid)
            &&& (ies_of_type(body, IeType::CreatedBridgeInfoForTsc).len() == 0 ==> m.created_bridge_info_for_tsc is None)
            &&& (ies_of_type(body, IeType::CreatedBridgeInfoForTsc).len() > 0 ==> (m.created_bridge_info_for_tsc matches Some(x) && x@ == ies_of_type(body, IeType::CreatedBridgeInfoForTsc).last()))
            &&& (ies_of_type(body, IeType::AtsssControlParameters).len() == 0 ==> m.atsss_control_parameters is None)
            &&& (ies_of_type(body, IeType::AtsssControlParameters).len() > 0 ==> (m.atsss_control_parameters matches Some(x) && x@ == ies_of_type(body, IeType::AtsssControlParameters).last()))
            &&& (ies_of_type(body, IeType::RdsConfigurationInformation).len() == 0 ==> m.rds_configuration_information is None)
            &&& (ies_of_type(body, IeType::RdsConfigurationInformation).len() > 0 ==> (m.rds_configuration_information matches Some(x) && x@ == ies_of_type(body, IeType::RdsConfigurationInformation).last()))
            &&& (ies_of_type(body, IeType::CreatedL2tpSession).len() == 0 ==> m.created_l2tp_session is None)
            &&& (ies_of_type(body, IeType::CreatedL2tpSession).len() > 0 ==> (m.created_l2tp_session matches Some(x) && x@ == ies_of_type(body, IeType::CreatedL2tpSession).last()))
            &&& (ies_of_type(body, IeType::MbsSessionN4mbInformation).len() == 0 ==> m.mbs_session_n4mb_information is None)
            &&& (ies_of_type(body, IeType::MbsSessionN4mbInformation).len() > 0 ==> (m.mbs_session_n4mb_information matches Some(x) && x@ == ies_of_type(body, IeType::MbsSessionN4mbInformation).last()))
            &&& ies_view(m.mbs_session_n4_information@) == ies_of_type(body, IeType::MbsSessionN4Information)
            &&& ies_view(m.tl_containers@) == ies_of_type(body, IeType::TlContainer)
            &&& ies_view(m.ies@) == ies_where(body, |t: IeType| t != IeType::NodeId && t != IeType::Cause && t != IeType::OffendingIe && t != IeType::Fseid && t != IeType::CreatedPdr && t != IeType::PdnType && t != IeType::LoadControlInformation && t != IeType::OverloadControlInformation && t != IeType::FailedRuleId && t != IeType::PartialFailureInformation && t != IeType::CreatedTrafficEndpoint && t != IeType::FqCsid && t != IeType::CreatedBridgeInfoForTsc && t != IeType::AtsssControlParameters && t != IeType::RdsConfigurationInformation && t != IeType::CreatedL2tpSession && t != IeType::MbsSessionN4mbInformation && t != IeType::MbsSessionN4Information && t != IeType::TlContainer)
            &&& true
        }),
{
    if let Ok(h) = spec_parse_header(data) {
        let body = spec_parse_ies(data.skip(header_size(h) as int))->Ok_0;
        let cls = SessionEstablishmentResponse::classifier();
        assert(ies_of_type(body, IeType::NodeId).len() > 0 && m.node_id@ == ies_of_type(body, IeType::NodeId).last()) by {
            assert forall|x: IeType| #[trigger] slot_pred(cls, 0)(x) == (x == IeType::NodeId) by {}
            lemma_ies_where_ext(body, slot_pred(cls, 0), |x: IeType| x == IeType::NodeId);
            lemma_ies_of_type_is_where(body, IeType::NodeId);
            assert(decode_slot(body, cls, 0, SlotKind::One) == last_seq(ies_of_type(body, IeType::NodeId)));
            assert(seq![m.node_id@][0] == m.node_id@);
        }
        assert(ies_of_type(body, IeType::Cause).len() > 0 && m.cause@ == ies_of_type(body, IeType::Cause).last()) by {
            assert forall|x: IeType| #[trigger] slot_pred(cls, 1)(x) == (x == IeType::Cause) by {}
            lemma_ies_where_ext(body, slot_pred(cls, 1), |x: IeType| x == IeType::Cause);
            lemma_ies_of_type_is_where(body, IeType::Cause);
            assert(decode_slot(body, cls, 1, SlotKind::One) == last_seq(ies_of_type(body, IeType::Cause)));
            assert(seq![m.cause@][0] == m.cause@);
        }
        assert((ies_of_type(body, IeType::OffendingIe).len() == 0 ==> m.offending_ie is None) && (ies_of_type(body, IeType::OffendingIe).len() > 0 ==> (m.offending_ie matches Some(x) && x@ == ies_of_type(body, IeType::OffendingIe).last()))) by {
            assert forall|x: IeType| #[trigger] slot_pred(cls, 2)(x) == (x == IeType::OffendingIe) by {}
            lemma_ies_where_ext(body, slot_pred(cls, 2), |x: IeType| x == IeType::OffendingIe);
            lemma_ies_of_type_is_where(body, IeType::OffendingIe);
            assert(decode_slot(body, cls, 2, SlotKind::One) == last_seq(ies_of_type(body, IeType::OffendingIe)));
            if ies_of_type(body, IeType::OffendingIe).len() > 0 { assert(opt_ie_seq(m.offending_ie)[0] == ies_of_type(body, IeType::OffendingIe).last()); }
        }
        assert(ies_of_type(body, IeType::Fseid).len() > 0 && m.fseid@ == ies_of_type(body, IeType::Fseid).last()) by {
            assert forall|x: IeType| #[trigger] slot_pred(cls, 3)(x) == (x == IeType::Fseid) by {}
            lemma_ies_where_ext(body, slot_pred(cls, 3), |x: IeType| x == IeType::Fseid);
            lemma_ies_of_type_is_where(body, IeType::Fseid);
            assert(decode_slot(body, cls, 3, SlotKind::One) == last_seq(ies_of_type(body, IeType::Fseid)));
            assert(seq![m.fseid@][0] == m.fseid@);
        }
        assert(ies_view(m.created_pdrs@) == ies_of_type(body, IeType::CreatedPdr)) by {
            assert forall|x: IeType| #[trigger] slot_pred(cls, 4)(x) == (x == IeType::CreatedPdr) by {}
            lemma_ies_where_ext(body, slot_pred(cls, 4), |x: IeType| x == IeType::CreatedPdr);
            lemma_ies_of_type_is_where(body, IeType::CreatedPdr);
        }
        assert((ies_of_type(body, IeType::PdnType).len() == 0 ==> m.pdn_type is None) && (ies_of_type(body, IeType::PdnType).len() > 0 ==> (m.pdn_type matches Some(x) && x@ == ies_of_type(body, IeType::PdnType).last()))) by {
            assert forall|x: IeType| #[trigger] slot_pred(cls, 5)(x) == (x == IeType::PdnType) by {}
            lemma_ies_where_ext(body, slot_pred(cls, 5), |x: IeType| x == IeType::PdnType);
            lemma_ies_of_type_is_where(body, IeType::PdnType);
            assert(decode_slot(body, cls, 5, SlotKind::One) == last_seq(ies_of_type(body, IeType::PdnType)));
            if ies_of_type(body, IeType::PdnType).len() > 0 { assert(opt_ie_seq(m.pdn_type)[0] == ies_of_type(body, IeType::PdnType).last()); }
        }
        assert((ies_of_type(body, IeType::LoadControlInformation).len() == 0 ==> m.load_control_information is None) && (ies_of_type(body, IeType::LoadControlInformation).len() > 0 ==> (m.load_control_information matches Some(x) && x@ == ies_of_type(body, IeType::LoadControlInformation).last()))) by {
            assert forall|x: IeType| #[trigger] slot_pred(cls, 6)(x) == (x == IeType::LoadControlInformation) by {}
            lemma_ies_where_ext(body, slot_pred(cls, 6), |x: IeType| x == IeType::LoadControlInformation);
            lemma_ies_of_type_is_where(body, IeType::LoadControlInformation);
            assert(decode_slot(body, cls, 6, SlotKind::One) == last_seq(ies_of_type(body, IeType::LoadControlInformation)));
            if ies_of_type(body, IeType::LoadControlInformation).len() > 0 { assert(opt_ie_seq(m.load_control_information)[0] == ies_of_type(body, IeType::LoadControlInformation).last()); }
        }
        assert((ies_of_type(body, IeType::OverloadControlInformation).len() == 0 ==> m.overload_control_information is None) && (ies_of_type(body, IeType::OverloadControlInformation).len() > 0 ==> (m.overload_control_information matches Some(x) && x@ == ies_of_type(body, IeType::OverloadControlInformation).last()))) by {
            assert forall|x: IeType| #[trigger] slot_pred(cls, 7)(x) == (x == IeType::OverloadControlInformation) by {}
            lemma_ies_where_ext(body, slot_pred(cls, 7), |x: IeType| x == IeType::OverloadControlInformation);
            lemma_ies_of_type_is_where(body, IeType::OverloadControlInformation);
            assert(decode_slot(body, cls, 7, SlotKind::One) == last_seq(ies_of_type(body, IeType::OverloadControlInformation)));
            if ies_of_type(body, IeType::OverloadControlInformation).len() > 0 { assert(opt_ie_seq(m.overload_control_information)[0] == ies_of_type(body, IeType::OverloadControlInformation).last()); }
        }
        assert((ies_of_type(body, IeType::FailedRuleId).len() == 0 ==> m.failed_rule_id is None) && (ies_of_type(body, IeType::FailedRuleId).len() > 0 ==> (m.failed_rule_id matches Some(x) && x@ == ies_of_type(body, IeType::FailedRuleId).last()))) by {
            assert forall|x: IeType| #[trigger] slot_pred(cls, 8)(x) == (x == IeType::FailedRuleId) by {}
            lemma_ies_where_ext(body, slot_pred(cls, 8), |x: IeType| x == IeType::FailedRuleId);
            lemma_ies_of_type_is_where(body, IeType::FailedRuleId);
            assert(decode_slot(body, cls, 8, SlotKind::One) == last_seq(ies_of_type(body, IeType::FailedRuleId)));
            if ies_of_type(body, IeType::FailedRuleId).len() > 0 { assert(opt_ie_seq(m.failed_rule_id)[0] == ies_of_type(body, IeType::FailedRuleId).last()); }
        }
        assert(ies_view(m.partial_failure_information@) == ies_of_type(body, IeType::PartialFailureInformation)) by {
            assert forall|x: IeType| #[trigger] slot_pred(cls, 9)(x) == (x == IeType::PartialFailureInformation) by {}
            lemma_ies_where_ext(body, slot_pred(cls, 9), |x: IeType| x == IeType::PartialFailureInformation);
            lemma_ies_of_type_is_where(body, IeType::PartialFailureInformation);
        }
        assert(ies_view(m.created_traffic_endpoints@) == ies_of_type(body, IeType::CreatedTrafficEndpoint)) by {
            assert forall|x: IeType| #[trigger] slot_pred(cls, 10)(x) == (x == IeType::CreatedTrafficEndpoint) by {}
            lemma_ies_where_ext(body, slot_pred(cls, 10), |x: IeType| x == IeType::CreatedTrafficEndpoint);
            lemma_ies_of_type_is_where(body, IeType::CreatedTrafficEndpoint);
        }
        assert(ies_view(m.fq_csids@) == ies_of_type(body, IeType::FqCsid)) by {
            assert forall|x: IeType| #[trigger] slot_pred(cls, 11)(x) == (x == IeType::FqCsid) by {}
            lemma_ies_where_ext(body, slot_pred(cls, 11), |x: IeType| x == IeType::FqCsid);
            lemma_ies_of_type_is_where(body, IeType::FqCsid);
        }
        assert((ies_of_type(body, IeType::CreatedBridgeInfoForTsc).len() == 0 ==> m.created_bridge_info_for_tsc is None) && (ies_of_type(body, IeType::CreatedBridgeInfoForTsc).len() > 0 ==> (m.created_bridge_info_for_tsc matches Some(x) && x@ == ies_of_type(body, IeType::CreatedBridgeInfoForTsc).last()))) by {
            assert forall|x: IeType| #[trigger] slot_pred(cls, 12)(x) == (x == IeType::CreatedBridgeInfoForTsc) by {}
            lemma_ies_where_ext(body, slot_pred(cls, 12), |x: IeType| x == IeType::CreatedBridgeInfoForTsc);
            lemma_ies_of_type_is_where(body, IeType::CreatedBridgeInfoForTsc);
            assert(decode_slot(body, cls, 12, SlotKind::One) == last_seq(ies_of_type(body, IeType::CreatedBridgeInfoForTsc)));
            if ies_of_type(body, IeType::CreatedBridgeInfoForTsc).len() > 0 { assert(opt_ie_seq(m.created_bridge_info_for_tsc)[0] == ies_of_type(body, IeType::CreatedBridgeInfoForTsc).last()); }
        }
        assert((ies_of_type(body, IeType::AtsssControlParameters).len() == 0 ==> m.atsss_control_parameters is None) && (ies_of_type(body, IeType::AtsssControlParameters).len() > 0 ==> (m.atsss_control_parameters matches Some(x) && x@ == ies_of_type(body, IeType::AtsssControlParameters).last()))) by {
            assert forall|x: IeType| #[trigger] slot_pred(cls, 13)(x) == (x == IeType::AtsssControlParameters) by {}
            lemma_ies_where_ext(body, slot_pred(cls, 13), |x: IeType| x == IeType::AtsssControlParameters);
            lemma_ies_of_type_is_where(body, IeType::AtsssControlParameters);
            assert(decode_slot(body, cls, 13, SlotKind::One) == last_seq(ies_of_type(body, IeType::AtsssControlParameters)));
            if ies_of_type(body, IeType::AtsssControlParameters).len() > 0 { assert(opt_ie_seq(m.atsss_control_parameters)[0] == ies_of_type(body, IeType::AtsssControlParameters).last()); }
        }
        assert((ies_of_type(body, IeType::RdsConfigurationInformation).len() == 0 ==> m.rds_configuration_information is None) && (ies_of_type(body, IeType::RdsConfigurationInformation).len() > 0 ==> (m.rds_configuration_information matches Some(x) && x@ == ies_of_type(body, IeType::RdsConfigurationInformation).last()))) by {
            assert forall|x: IeType| #[trigger] slot_pred(cls, 14)(x) == (x == IeType::RdsConfigurationInformation) by {}
            lemma_ies_where_ext(body, slot_pred(cls, 14), |x: IeType| x == IeType::RdsConfigurationInformation);
            lemma_ies_of_type_is_where(body, IeType::RdsConfigurationInformation);
            assert(decode_slot(body, cls, 14, SlotKind::One) == last_seq(ies_of_type(body, IeType::RdsConfigurationInformation)));
            if ies_of_type(body, IeType::RdsConfigurationInformation).len() > 0 { assert(opt_ie_seq(m.rds_configuration_information)[0] == ies_of_type(body, IeType::RdsConfigurationInformation).last()); }
        }
        assert((ies_of_type(body, IeType::CreatedL2tpSession).len() == 0 ==> m.created_l2tp_session is None) && (ies_of_type(body, IeType::CreatedL2tpSession).len() > 0 ==> (m.created_l2tp_session matches Some(x) && x@ == ies_of_type(body, IeType::CreatedL2tpSession).last()))) by {
            assert forall|x: IeType| #[trigger] slot_pred(cls, 15)(x) == (x == IeType::CreatedL2tpSession) by {}
            lemma_ies_where_ext(body, slot_pred(cls, 15), |x: IeType| x == IeType::CreatedL2tpSession);
            lemma_ies_of_type_is_where(body, IeType::CreatedL2tpSession);
            assert(decode_slot(body, cls, 15, SlotKind::One) == last_seq(ies_of_type(body, IeType::CreatedL2tpSession)));
            if ies_of_type(body, IeType::CreatedL2tpSession).len() > 0 { assert(opt_ie_seq(m.created_l2tp_session)[0] == ies_of_type(body, IeType::CreatedL2tpSession).last()); }
        }
        assert((ies_of_type(body, IeType::MbsSessionN4mbInformation).len() == 0 ==> m.mbs_session_n4mb_information is None) && (ies_of_type(body, IeType::MbsSessionN4mbInformation).len() > 0 ==> (m.mbs_session_n4mb_information matches Some(x) && x@ == ies_of_type(body, IeType::MbsSessionN4mbInformation).last()))) by {
            assert forall|x: IeType| #[trigger] slot_pred(cls, 16)(x) == (x == IeType::MbsSessionN4mbInformation) by {}
            lemma_ies_where_ext(body, slot_pred(cls, 16), |x: IeType| x == IeType::MbsSessionN4mbInformation);
            lemma_ies_of_type_is_where(body, IeType::MbsSessionN4mbInformation);
            assert(decode_slot(body, cls, 16, SlotKind::One) == last_seq(ies_of_type(body, IeType::MbsSessionN4mbInformation)));
            if ies_of_type(body, IeType::MbsSessionN4mbInformation).len() > 0 { assert(opt_ie_seq(m.mbs_session_n4mb_information)[0] == ies_of_type(body, IeType::MbsSessionN4mbInformation).last()); }
        }
        assert(ies_view(m.mbs_session_n4_information@) == ies_of_type(body, IeType::MbsSessionN4Information)) by {
            assert forall|x: IeType| #[trigger] slot_pred(cls, 17)(x) == (x == IeType::MbsSessionN4Information) by {}
            lemma_ies_where_ext(body, slot_pred(cls, 17), |x: IeType| x == IeType::MbsSessionN4Information);
            lemma_ies_of_type_is_where(body, IeType::MbsSessionN4Information);
        }
        assert(ies_view(m.tl_containers@) == ies_of_type(body, IeType::TlContainer)) by {
            assert forall|x: IeType| #[trigger] slot_pred(cls, 18)(x) == (x == IeType::TlContainer) by {}
            lemma_ies_where_ext(body, slot_pred(cls, 18), |x: IeType| x == IeType::TlContainer);
            lemma_ies_of_type_is_where(body, IeType::TlContainer);
        }
        assert(ies_view(m.ies@) == ies_where(body, |t: IeType| t != IeType::NodeId && t != IeType::Cause && t != IeType::OffendingIe && t != IeType::Fseid && t != IeType::CreatedPdr && t != IeType::PdnType && t != IeType::LoadControlInformation && t != IeType::OverloadControlInformation && t != IeType::FailedRuleId && t != IeType::PartialFailureInformation && t != IeType::CreatedTrafficEndpoint && t != IeType::FqCsid && t != IeType::CreatedBridgeInfoForTsc && t != IeType::AtsssControlParameters && t != IeType::RdsConfigurationInformation && t != IeType::CreatedL2tpSession && t != IeType::MbsSessionN4mbInformation && t != IeType::MbsSessionN4Information && t != IeType::TlContainer)) by {
            assert forall|t: IeType| #[trigger] slot_pred(cls, 19)(t) == (t != IeType::NodeId && t != IeType::Cause && t != IeType::OffendingIe && t != IeType::Fseid && t != IeType::CreatedPdr && t != IeType::PdnType && t != IeType::LoadControlInformation && t != IeType::OverloadControlInformation && t != IeType::FailedRuleId && t != IeType::PartialFailureInformation && t != IeType::CreatedTrafficEndpoint && t != IeType::FqCsid && t != IeType::CreatedBridgeInfoForTsc && t != IeType::AtsssControlParameters && t != IeType::RdsConfigurationInformation && t != IeType::CreatedL2tpSession && t != IeType::MbsSessionN4mbInformation && t != IeType::MbsSessionN4Information && t != IeType::TlContainer) by {}
            lemma_ies_where_ext(body, slot_pred(cls, 19), |t: IeType| t != IeType::NodeId && t != IeType::Cause && t != IeType::OffendingIe && t != IeType::Fseid && t != IeType::CreatedPdr && t != IeType::PdnType && t != IeType::LoadControlInformation && t != IeType::OverloadControlInformation && t != IeType::FailedRuleId && t != IeType::PartialFailureInformation && t != IeType::CreatedTrafficEndpoint && t != IeType::FqCsid && t != IeType::CreatedBridgeInfoForTsc && t != IeType::AtsssControlParameters && t != IeType::RdsConfigurationInformation && t != IeType::CreatedL2tpSession && t != IeType::MbsSessionN4mbInformation && t != IeType::MbsSessionN4Information && t != IeType::TlContainer);
        }
    }
}

/// When every IE is in the field named for its type, every IE sits in the slot
/// that decoding assigns its type to.
proof fn lemma_session_establishment_response_fields_classified(m: SessionEstablishmentResponse)
    requires
        m.fields_hold_their_types(),
    ensures
        slots_classified(m.slots(), SessionEstablishmentResponse::classifier()),
{
    reveal(SessionEstablishmentResponse::fields_hold_their_types);
    let cls = SessionEstablishmentResponse::classifier();
    assert(slots_classified(Seq::<Seq<IeView>>::empty(), cls));
    assert(slots_classified(Seq::<Seq<IeView>>::empty().push(seq![m.node_id@]), cls)) by {
        assert forall|k: int| 0 <= k < seq![m.node_id@].len() implies cls(#[trigger] seq![m.node_id@][k].ie_type) == 0 by {
        }
        lemma_classified_push(Seq::<Seq<IeView>>::empty(), seq![m.node_id@], cls);
    }
    assert(slots_classified(Seq::<Seq<IeView>>::empty().push(seq![m.node_id@]).push(seq![m.cause@]), cls)) by {
        assert forall|k: int| 0 <= k < seq![m.cause@].len() implies cls(#[trigger] seq![m.cause@][k].ie_type) == 1 by {
        }
        lemma_classified_push(Seq::<Seq<IeView>>::empty().push(seq![m.node_id@]), seq![m.cause@], cls);
    }
    assert(slots_classified(Seq::<Seq<IeView>>::empty().push(seq![m.node_id@]).push(seq![m.cause@]).push(opt_ie_seq(m.offending_ie)), cls)) by {
        assert forall|k: int| 0 <= k < opt_ie_seq(m.offending_ie).len() implies cls(#[trigger] opt_ie_seq(m.offending_ie)[k].ie_type) == 2 by {
        }
        lemma_classified_push(Seq::<Seq<IeView>>::empty().push(seq![m.node_id@]).push(seq![m.cause@]), opt_ie_seq(m.offending_ie), cls);
    }
    assert(slots_classified(Seq::<Seq<IeView>>::empty().push(seq![m.node_id@]).push(seq![m.cause@]).push(opt_ie_seq(m.offending_ie)).push(seq![m.fseid@]), cls)) by {
        assert forall|k: int| 0 <= k < seq![m.fseid@].len() implies cls(#[trigger] seq![m.fseid@][k].ie_type) == 3 by {
        }
        lemma_classified_push(Seq::<Seq<IeView>>::empty().push(seq![m.node_id@]).push(seq![m.cause@]).push(opt_ie_seq(m.offending_ie)), seq![m.fseid@], cls);
    }
    assert(slots_classified(Seq::<Seq<IeView>>::empty().push(seq![m.node_id@]).push(seq![m.cause@]).push(opt_ie_seq(m.offending_ie)).push(seq![m.fseid@]).push(ies_view(m.created_pdrs@)), cls)) by {
        assert forall|k: int| 0 <= k < ies_view(m.created_pdrs@).len() implies cls(#[trigger] ies_view(m.created_pdrs@)[k].ie_type) == 4 by {
            assert(ies_view(m.created_pdrs@)[k] == m.created_pdrs@[k]@);
        }
        lemma_classified_push(Seq::<Seq<IeView>>::empty().push(seq![m.node_id@]).push(seq![m.cause@]).push(opt_ie_seq(m.offending_ie)).push(seq![m.fseid@]), ies_view(m.created_pdrs@), cls);
    }
    assert(slots_classified(Seq::<Seq<IeView>>::empty().push(seq![m.node_id@]).push(seq![m.cause@]).push(opt_ie_seq(m.offending_ie)).push(seq![m.fseid@]).push(ies_view(m.created_pdrs@)).push(opt_ie_seq(m.pdn_type)), cls)) by {
        assert forall|k: int| 0 <= k < opt_ie_seq(m.pdn_type).len() implies cls(#[trigger] opt_ie_seq(m.pdn_type)[k].ie_type) == 5 by {
        }
        lemma_classified_push(Seq::<Seq<IeView>>::empty().push(seq![m.node_id@]).push(seq![m.cause@]).push(opt_ie_seq(m.offending_ie)).push(seq![m.fseid@]).push(ies_view(m.created_pdrs@)), opt_ie_seq(m.pdn_type), cls);
    }
    assert(slots_classified(Seq::<Seq<IeView>>::empty().push(seq![m.node_id@]).push(seq![m.cause@]).push(opt_ie_seq(m.offending_ie)).push(seq![m.fseid@]).push(ies_view(m.created_pdrs@)).push(opt_ie_seq(m.pdn_type)).push(opt_ie_seq(m.load_control_information)), cls)) by {
        assert forall|k: int| 0 <= k < opt_ie_seq(m.load_control_information).len() implies cls(#[trigger] opt_ie_seq(m.load_control_information)[k].ie_type) == 6 by {
        }
        lemma_classified_push(Seq::<Seq<IeView>>::empty().push(seq![m.node_id@]).push(seq![m.cause@]).push(opt_ie_seq(m.offending_ie)).push(seq![m.fseid@]).push(ies_view(m.created_pdrs@)).push(opt_ie_seq(m.pdn_type)), opt_ie_seq(m.load_control_information), cls);
    }
    assert(slots_classified(Seq::<Seq<IeView>>::empty().push(seq![m.node_id@]).push(seq![m.cause@]).push(opt_ie_seq(m.offending_ie)).push(seq![m.fseid@]).push(ies_view(m.created_pdrs@)).push(opt_ie_seq(m.pdn_type)).push(opt_ie_seq(m.load_control_information)).push(opt_ie_seq(m.overload_control_information)), cls)) by {
        assert forall|k: int| 0 <= k < opt_ie_seq(m.overload_control_information).len() implies cls(#[trigger] opt_ie_seq(m.overload_control_information)[k].ie_type) == 7 by {
        }
        lemma_classified_push(Seq::<Seq<IeView>>::empty().push(seq![m.node_id@]).push(seq![m.cause@]).push(opt_ie_seq(m.offending_ie)).push(seq![m.fseid@]).push(ies_view(m.created_pdrs@)).push(opt_ie_seq(m.pdn_type)).push(opt_ie_seq(m.load_control_information)), opt_ie_seq(m.overload_control_information), cls);
    }
    assert(slots_classified(Seq::<Seq<IeView>>::empty().push(seq![m.node_id@]).push(seq![m.cause@]).push(opt_ie_seq(m.offending_ie)).push(seq![m.fseid@]).push(ies_view(m.created_pdrs@)).push(opt_ie_seq(m.pdn_type)).push(opt_ie_seq(m.load_control_information)).push(opt_ie_seq(m.overload_control_information)).push(opt_ie_seq(m.failed_rule_id)), cls)) by {
        assert forall|k: int| 0 <= k < opt_ie_seq(m.failed_rule_id).len() implies cls(#[trigger] opt_ie_seq(m.failed_rule_id)[k].ie_type) == 8 by {
        }
        lemma_classified_push(Seq::<Seq<IeView>>::empty().push(seq![m.node_id@]).push(seq![m.cause@]).push(opt_ie_seq(m.offending_ie)).push(seq![m.fseid@]).push(ies_view(m.created_pdrs@)).push(opt_ie_seq(m.pdn_type)).push(opt_ie_seq(m.load_control_information)).push(opt_ie_seq(m.overload_control_information)), opt_ie_seq(m.failed_rule_id), cls);
    }
    assert(slots_classified(Seq::<Seq<IeView>>::empty().push(seq![m.node_id@]).push(seq![m.cause@]).push(opt_ie_seq(m.offending_ie)).push(seq![m.fseid@]).push(ies_view(m.created_pdrs@)).push(opt_ie_seq(m.pdn_type)).push(opt_ie_seq(m.load_control_information)).push(opt_ie_seq(m.overload_control_information)).push(opt_ie_seq(m.failed_rule_id)).push(ies_view(m.partial_failure_information@)), cls)) by {
        assert forall|k: int| 0 <= k < ies_view(m.partial_failure_information@).len() implies cls(#[trigger] ies_view(m.partial_failure_information@)[k].ie_type) == 9 by {
            assert(ies_view(m.partial_failure_information@)[k] == m.partial_failure_information@[k]@);
        }
        lemma_classified_push(Seq::<Seq<IeView>>::empty().push(seq![m.node_id@]).push(seq![m.cause@]).push(opt_ie_seq(m.offending_ie)).push(seq![m.fseid@]).push(ies_view(m.created_pdrs@)).push(opt_ie_seq(m.pdn_type)).push(opt_ie_seq(m.load_control_information)).push(opt_ie_seq(m.overload_control_information)).push(opt_ie_seq(m.failed_rule_id)), ies_view(m.partial_failure_information@), cls);
    }
    assert(slots_classified(Seq::<Seq<IeView>>::empty().push(seq![m.node_id@]).push(seq![m.cause@]).push(opt_ie_seq(m.offending_ie)).push(seq![m.fseid@]).push(ies_view(m.created_pdrs@)).push(opt_ie_seq(m.pdn_type)).push(opt_ie_seq(m.load_control_information)).push(opt_ie_seq(m.overload_control_information)).push(opt_ie_seq(m.failed_rule_id)).push(ies_view(m.partial_failure_information@)).push(ies_view(m.created_traffic_endpoints@)), cls)) by {
        assert forall|k: int| 0 <= k < ies_view(m.created_traffic_endpoints@).len() implies cls(#[trigger] ies_view(m.created_traffic_endpoints@)[k].ie_type) == 10 by {
            assert(ies_view(m.created_traffic_endpoints@)[k] == m.created_traffic_endpoints@[k]@);
        }
        lemma_classified_push(Seq::<Seq<IeView>>::empty().push(seq![m.node_id@]).push(seq![m.cause@]).push(opt_ie_seq(m.offending_ie)).push(seq![m.fseid@]).push(ies_view(m.created_pdrs@)).push(opt_ie_seq(m.pdn_type)).push(opt_ie_seq(m.load_control_information)).push(opt_ie_seq(m.overload_control_information)).push(opt_ie_seq(m.failed_rule_id)).push(ies_view(m.partial_failure_information@)), ies_view(m.created_traffic_endpoints@), cls);
    }
    assert(slots_classified(Seq::<Seq<IeView>>::empty().push(seq![m.node_id@]).push(seq![m.cause@]).push(opt_ie_seq(m.offending_ie)).push(seq![m.fseid@]).push(ies_view(m.created_pdrs@)).push(opt_ie_seq(m.pdn_type)).push(opt_ie_seq(m.load_control_information)).push(opt_ie_seq(m.overload_control_information)).push(opt_ie_seq(m.failed_rule_id)).push(ies_view(m.partial_failure_information@)).push(ies_view(m.created_traffic_endpoints@)).push(ies_view(m.fq_csids@)), cls)) by {
        assert forall|k: int| 0 <= k < ies_view(m.fq_csids@).len() implies cls(#[trigger] ies_view(m.fq_csids@)[k].ie_type) == 11 by {
            assert(ies_view(m.fq_csids@)[k] == m.fq_csids@[k]@);
        }
        lemma_classified_push(Seq::<Seq<IeView>>::empty().push(seq![m.node_id@]).push(seq![m.cause@]).push(opt_ie_seq(m.offending_ie)).push(seq![m.fseid@]).push(ies_view(m.created_pdrs@)).push(opt_ie_seq(m.pdn_type)).push(opt_ie_seq(m.load_control_information)).push(opt_ie_seq(m.overload_control_information)).push(opt_ie_seq(m.failed_rule_id)).push(ies_view(m.partial_failure_information@)).push(ies_view(m.created_traffic_endpoints@)), ies_view(m.fq_csids@), cls);
    }
    assert(slots_classified(Seq::<Seq<IeView>>::empty().push(seq![m.node_id@]).push(seq![m.cause@]).push(opt_ie_seq(m.offending_ie)).push(seq![m.fseid@]).push(ies_view(m.created_pdrs@)).push(opt_ie_seq(m.pdn_type)).push(opt_ie_seq(m.load_control_information)).push(opt_ie_seq(m.overload_control_information)).push(opt_ie_seq(m.failed_rule_id)).push(ies_view(m.partial_failure_information@)).push(ies_view(m.created_traffic_endpoints@)).push(ies_view(m.fq_csids@)).push(opt_ie_seq(m.created_bridge_info_for_tsc)), cls)) by {
        assert forall|k: int| 0 <= k < opt_ie_seq(m.created_bridge_info_for_tsc).len() implies cls(#[trigger] opt_ie_seq(m.created_bridge_info_for_tsc)[k].ie_type) == 12 by {
        }
        lemma_classified_push(Seq::<Seq<IeView>>::empty().push(seq![m.node_id@]).push(seq![m.cause@]).push(opt_ie_seq(m.offending_ie)).push(seq![m.fseid@]).push(ies_view(m.created_pdrs@)).push(opt_ie_seq(m.pdn_type)).push(opt_ie_seq(m.load_control_information)).push(opt_ie_seq(m.overload_control_information)).push(opt_ie_seq(m.failed_rule_id)).push(ies_view(m.partial_failure_information@)).push(ies_view(m.created_traffic_endpoints@)).push(ies_view(m.fq_csids@)), opt_ie_seq(m.created_bridge_info_for_tsc), cls);
    }
    assert(slots_classified(Seq::<Seq<IeView>>::empty().push(seq![m.node_id@]).push(seq![m.cause@]).push(opt_ie_seq(m.offending_ie)).push(seq![m.fseid@]).push(ies_view(m.created_pdrs@)).push(opt_ie_seq(m.pdn_type)).push(opt_ie_seq(m.load_control_information)).push(opt_ie_seq(m.overload_control_information)).push(opt_ie_seq(m.failed_rule_id)).push(ies_view(m.partial_failure_information@)).push(ies_view(m.created_traffic_endpoints@)).push(ies_view(m.fq_csids@)).push(opt_ie_seq(m.created_bridge_info_for_tsc)).push(opt_ie_seq(m.atsss_control_parameters)), cls)) by {
        assert forall|k: int| 0 <= k < opt_ie_seq(m.atsss_control_parameters).len() implies cls(#[trigger] opt_ie_seq(m.atsss_control_parameters)[k].ie_type) == 13 by {
        }
        lemma_classified_push(Seq::<Seq<IeView>>::empty().push(seq![m.node_id@]).push(seq![m.cause@]).push(opt_ie_seq(m.offending_ie)).push(seq![m.fseid@]).push(ies_view(m.created_pdrs@)).push(opt_ie_seq(m.pdn_type)).push(opt_ie_seq(m.load_control_information)).push(opt_ie_seq(m.overload_control_information)).push(opt_ie_seq(m.failed_rule_id)).push(ies_view(m.partial_failure_information@)).push(ies_view(m.created_traffic_endpoints@)).push(ies_view(m.fq_csids@)).push(opt_ie_seq(m.created_bridge_info_for_tsc)), opt_ie_seq(m.atsss_control_parameters), cls);
    }
    assert(slots_classified(Seq::<Seq<IeView>>::empty().push(seq![m.node_id@]).push(seq![m.cause@]).push(opt_ie_seq(m.offending_ie)).push(seq![m.fseid@]).push(ies_view(m.created_pdrs@)).push(opt_ie_seq(m.pdn_type)).push(opt_ie_seq(m.load_control_information)).push(opt_ie_seq(m.overload_control_information)).push(opt_ie_seq(m.failed_rule_id)).push(ies_view(m.partial_failure_information@)).push(ies_view(m.created_traffic_endpoints@)).push(ies_view(m.fq_csids@)).push(opt_ie_seq(m.created_bridge_info_for_tsc)).push(opt_ie_seq(m.atsss_control_parameters)).push(opt_ie_seq(m.rds_configuration_information)), cls)) by {
        assert forall|k: int| 0 <= k < opt_ie_seq(m.rds_configuration_information).len() implies cls(#[trigger] opt_ie_seq(m.rds_configuration_information)[k].ie_type) == 14 by {
        }
        lemma_classified_push(Seq::<Seq<IeView>>::empty().push(seq![m.node_id@]).push(seq![m.cause@]).push(opt_ie_seq(m.offending_ie)).push(seq![m.fseid@]).push(ies_view(m.created_pdrs@)).push(opt_ie_seq(m.pdn_type)).push(opt_ie_seq(m.load_control_information)).push(opt_ie_seq(m.overload_control_information)).push(opt_ie_seq(m.failed_rule_id)).push(ies_view(m.partial_failure_information@)).push(ies_view(m.created_traffic_endpoints@)).push(ies_view(m.fq_csids@)).push(opt_ie_seq(m.created_bridge_info_for_tsc)).push(opt_ie_seq(m.atsss_control_parameters)), opt_ie_seq(m.rds_configuration_information), cls);
    }
    assert(slots_classified(Seq::<Seq<IeView>>::empty().push(seq![m.node_id@]).push(seq![m.cause@]).push(opt_ie_seq(m.offending_ie)).push(seq![m.fseid@]).push(ies_view(m.created_pdrs@)).push(opt_ie_seq(m.pdn_type)).push(opt_ie_seq(m.load_control_information)).push(opt_ie_seq(m.overload_control_information)).push(opt_ie_seq(m.failed_rule_id)).push(ies_view(m.partial_failure_information@)).push(ies_view(m.created_traffic_endpoints@)).push(ies_view(m.fq_csids@)).push(opt_ie_seq(m.created_bridge_info_for_tsc)).push(opt_ie_seq(m.atsss_control_parameters)).push(opt_ie_seq(m.rds_configuration_information)).push(opt_ie_seq(m.created_l2tp_session)), cls)) by {
        assert forall|k: int| 0 <= k < opt_ie_seq(m.created_l2tp_session).len() implies cls(#[trigger] opt_ie_seq(m.created_l2tp_session)[k].ie_type) == 15 by {
        }
        lemma_classified_push(Seq::<Seq<IeView>>::empty().push(seq![m.node_id@]).push(seq![m.cause@]).push(opt_ie_seq(m.offending_ie)).push(seq![m.fseid@]).push(ies_view(m.created_pdrs@)).push(opt_ie_seq(m.pdn_type)).push(opt_ie_seq(m.load_control_information)).push(opt_ie_seq(m.overload_control_information)).push(opt_ie_seq(m.failed_rule_id)).push(ies_view(m.partial_failure_information@)).push(ies_view(m.created_traffic_endpoints@)).push(ies_view(m.fq_csids@)).push(opt_ie_seq(m.created_bridge_info_for_tsc)).push(opt_ie_seq(m.atsss_control_parameters)).push(opt_ie_seq(m.rds_configuration_information)), opt_ie_seq(m.created_l2tp_session), cls);
    }
    assert(slots_classified(Seq::<Seq<IeView>>::empty().push(seq![m.node_id@]).push(seq![m.cause@]).push(opt_ie_seq(m.offending_ie)).push(seq![m.fseid@]).push(ies_view(m.created_pdrs@)).push(opt_ie_seq(m.pdn_type)).push(opt_ie_seq(m.load_control_information)).push(opt_ie_seq(m.overload_control_information)).push(opt_ie_seq(m.failed_rule_id)).push(ies_view(m.partial_failure_information@)).push(ies_view(m.created_traffic_endpoints@)).push(ies_view(m.fq_csids@)).push(opt_ie_seq(m.created_bridge_info_for_tsc)).push(opt_ie_seq(m.atsss_control_parameters)).push(opt_ie_seq(m.rds_configuration_information)).push(opt_ie_seq(m.created_l2tp_session)).push(opt_ie_seq(m.mbs_session_n4mb_information)), cls)) by {
        assert forall|k: int| 0 <= k < opt_ie_seq(m.mbs_session_n4mb_information).len() implies cls(#[trigger] opt_ie_seq(m.mbs_session_n4mb_information)[k].ie_type) == 16 by {
        }
        lemma_classified_push(Seq::<Seq<IeView>>::empty().push(seq![m.node_id@]).push(seq![m.cause@]).push(opt_ie_seq(m.offending_ie)).push(seq![m.fseid@]).push(ies_view(m.created_pdrs@)).push(opt_ie_seq(m.pdn_type)).push(opt_ie_seq(m.load_control_information)).push(opt_ie_seq(m.overload_control_information)).push(opt_ie_seq(m.failed_rule_id)).push(ies_view(m.partial_failure_information@)).push(ies_view(m.created_traffic_endpoints@)).push(ies_view(m.fq_csids@)).push(opt_ie_seq(m.created_bridge_info_for_tsc)).push(opt_ie_seq(m.atsss_control_parameters)).push(opt_ie_seq(m.rds_configuration_information)).push(opt_ie_seq(m.created_l2tp_session)), opt_ie_seq(m.mbs_session_n4mb_information), cls);
    }
    assert(slots_classified(Seq::<Seq<IeView>>::empty().push(seq![m.node_id@]).push(seq![m.cause@]).push(opt_ie_seq(m.offending_ie)).push(seq![m.fseid@]).push(ies_view(m.created_pdrs@)).push(opt_ie_seq(m.pdn_type)).push(opt_ie_seq(m.load_control_information)).push(opt_ie_seq(m.overload_control_information)).push(opt_ie_seq(m.failed_rule_id)).push(ies_view(m.partial_failure_information@)).push(ies_view(m.created_traffic_endpoints@)).push(ies_view(m.fq_csids@)).push(opt_ie_seq(m.created_bridge_info_for_tsc)).push(opt_ie_seq(m.atsss_control_parameters)).push(opt_ie_seq(m.rds_configuration_information)).push(opt_ie_seq(m.created_l2tp_session)).push(opt_ie_seq(m.mbs_session_n4mb_information)).push(ies_view(m.mbs_session_n4_information@)), cls)) by {
        assert forall|k: int| 0 <= k < ies_view(m.mbs_session_n4_information@).len() implies cls(#[trigger] ies_view(m.mbs_session_n4_information@)[k].ie_type) == 17 by {
            assert(ies_view(m.mbs_session_n4_information@)[k] == m.mbs_session_n4_information@[k]@);
        }
        lemma_classified_push(Seq::<Seq<IeView>>::empty().push(seq![m.node_id@]).push(seq![m.cause@]).push(opt_ie_seq(m.offending_ie)).push(seq![m.fseid@]).push(ies_view(m.created_pdrs@)).push(opt_ie_seq(m.pdn_type)).push(opt_ie_seq(m.load_control_information)).push(opt_ie_seq(m.overload_control_information)).push(opt_ie_seq(m.failed_rule_id)).push(ies_view(m.partial_failure_information@)).push(ies_view(m.created_traffic_endpoints@)).push(ies_view(m.fq_csids@)).push(opt_ie_seq(m.created_bridge_info_for_tsc)).push(opt_ie_seq(m.atsss_control_parameters)).push(opt_ie_seq(m.rds_configuration_information)).push(opt_ie_seq(m.created_l2tp_session)).push(opt_ie_seq(m.mbs_session_n4mb_information)), ies_view(m.mbs_session_n4_information@), cls);
    }
    assert(slots_classified(Seq::<Seq<IeView>>::empty().push(seq![m.node_id@]).push(seq![m.cause@]).push(opt_ie_seq(m.offending_ie)).push(seq![m.fseid@]).push(ies_view(m.created_pdrs@)).push(opt_ie_seq(m.pdn_type)).push(opt_ie_seq(m.load_control_information)).push(opt_ie_seq(m.overload_control_information)).push(opt_ie_seq(m.failed_rule_id)).push(ies_view(m.partial_failure_information@)).push(ies_view(m.created_traffic_endpoints@)).push(ies_view(m.fq_csids@)).push(opt_ie_seq(m.created_bridge_info_for_tsc)).push(opt_ie_seq(m.atsss_control_parameters)).push(opt_ie_seq(m.rds_configuration_information)).push(opt_ie_seq(m.created_l2tp_session)).push(opt_ie_seq(m.mbs_session_n4mb_information)).push(ies_view(m.mbs_session_n4_information@)).push(ies_view(m.tl_containers@)), cls)) by {
        assert forall|k: int| 0 <= k < ies_view(m.tl_containers@).len() implies cls(#[trigger] ies_view(m.tl_containers@)[k].ie_type) == 18 by {
            assert(ies_view(m.tl_containers@)[k] == m.tl_containers@[k]@);
        }
        lemma_classified_push(Seq::<Seq<IeView>>::empty().push(seq![m.node_id@]).push(seq![m.cause@]).push(opt_ie_seq(m.offending_ie)).push(seq![m.fseid@]).push(ies_view(m.created_pdrs@)).push(opt_ie_seq(m.pdn_type)).push(opt_ie_seq(m.load_control_information)).push(opt_ie_seq(m.overload_control_information)).push(opt_ie_seq(m.failed_rule_id)).push(ies_view(m.partial_failure_information@)).push(ies_view(m.created_traffic_endpoints@)).push(ies_view(m.fq_csids@)).push(opt_ie_seq(m.created_bridge_info_for_tsc)).push(opt_ie_seq(m.atsss_control_parameters)).push(opt_ie_seq(m.rds_configuration_information)).push(opt_ie_seq(m.created_l2tp_session)).push(opt_ie_seq(m.mbs_session_n4mb_information)).push(ies_view(m.mbs_session_n4_information@)), ies_view(m.tl_containers@), cls);
    }
    assert(slots_classified(Seq::<Seq<IeView>>::empty().push(seq![m.node_id@]).push(seq![m.cause@]).push(opt_ie_seq(m.offending_ie)).push(seq![m.fseid@]).push(ies_view(m.created_pdrs@)).push(opt_ie_seq(m.pdn_type)).push(opt_ie_seq(m.load_control_information)).push(opt_ie_seq(m.overload_control_information)).push(opt_ie_seq(m.failed_rule_id)).push(ies_view(m.partial_failure_information@)).push(ies_view(m.created_traffic_endpoints@)).push(ies_view(m.fq_csids@)).push(opt_ie_seq(m.created_bridge_info_for_tsc)).push(opt_ie_seq(m.atsss_control_parameters)).push(opt_ie_seq(m.rds_configuration_information)).push(opt_ie_seq(m.created_l2tp_session)).push(opt_ie_seq(m.mbs_session_n4mb_information)).push(ies_view(m.mbs_session_n4_information@)).push(ies_view(m.tl_containers@)).push(ies_view(m.ies@)), cls)) by {
        assert forall|k: int| 0 <= k < ies_view(m.ies@).len() implies cls(#[trigger] ies_view(m.ies@)[k].ie_type) == 19 by {
            assert(ies_view(m.ies@)[k] == m.ies@[k]@);
        }
        lemma_classified_push(Seq::<Seq<IeView>>::empty().push(seq![m.node_id@]).push(seq![m.cause@]).push(opt_ie_seq(m.offending_ie)).push(seq![m.fseid@]).push(ies_view(m.created_pdrs@)).push(opt_ie_seq(m.pdn_type)).push(opt_ie_seq(m.load_control_information)).push(opt_ie_seq(m.overload_control_information)).push(opt_ie_seq(m.failed_rule_id)).push(ies_view(m.partial_failure_information@)).push(ies_view(m.created_traffic_endpoints@)).push(ies_view(m.fq_csids@)).push(opt_ie_seq(m.created_bridge_info_for_tsc)).push(opt_ie_seq(m.atsss_control_parameters)).push(opt_ie_seq(m.rds_configuration_information)).push(opt_ie_seq(m.created_l2tp_session)).push(opt_ie_seq(m.mbs_session_n4mb_information)).push(ies_view(m.mbs_session_n4_information@)).push(ies_view(m.tl_containers@)), ies_view(m.ies@), cls);
    }
    assert(m.slots() == Seq::<Seq<IeView>>::empty().push(seq![m.node_id@]).push(seq![m.cause@]).push(opt_ie_seq(m.offending_ie)).push(seq![m.fseid@]).push(ies_view(m.created_pdrs@)).push(opt_ie_seq(m.pdn_type)).push(opt_ie_seq(m.load_control_information)).push(opt_ie_seq(m.overload_control_information)).push(opt_ie_seq(m.failed_rule_id)).push(ies_view(m.partial_failure_information@)).push(ies_view(m.created_traffic_endpoints@)).push(ies_view(m.fq_csids@)).push(opt_ie_seq(m.created_bridge_info_for_tsc)).push(opt_ie_seq(m.atsss_control_parameters)).push(opt_ie_seq(m.rds_configuration_information)).push(opt_ie_seq(m.created_l2tp_session)).push(opt_ie_seq(m.mbs_session_n4mb_information)).push(ies_view(m.mbs_session_n4_information@)).push(ies_view(m.tl_containers@)).push(ies_view(m.ies@)));
}

/// When every IE is in the field named for its type, the IEs of each field's type
/// in that field are the whole field.
proof fn lemma_session_establishment_response_fields_of_their_type(m: SessionEstablishmentResponse)
    requires
        m.fields_hold_their_types(),
    ensures
        ies_of_type(seq![m.node_id@], IeType::NodeId) == seq![m.node_id@],
        ies_of_type(seq![m.cause@], IeType::Cause) == seq![m.cause@],
        ies_of_type(opt_ie_seq(m.offending_ie), IeType::OffendingIe) == opt_ie_seq(m.offending_ie),
        ies_of_type(seq![m.fseid@], IeType::Fseid) == seq![m.fseid@],
        ies_of_type(ies_view(m.created_pdrs@), IeType::CreatedPdr) == ies_view(m.created_pdrs@),
        ies_of_type(opt_ie_seq(m.pdn_type), IeType::PdnType) == opt_ie_seq(m.pdn_type),
        ies_of_type(opt_ie_seq(m.load_control_information), IeType::LoadControlInformation) == opt_ie_seq(m.load_control_information),
        ies_of_type(opt_ie_seq(m.overload_control_information), IeType::OverloadControlInformation) == opt_ie_seq(m.overload_control_information),
        ies_of_type(opt_ie_seq(m.failed_rule_id), IeType::FailedRuleId) == opt_ie_seq(m.failed_rule_id),
        ies_of_type(ies_view(m.partial_failure_information@), IeType::PartialFailureInformation) == ies_view(m.partial_failure_information@),
        ies_of_type(ies_view(m.created_traffic_endpoints@), IeType::CreatedTrafficEndpoint) == ies_view(m.created_traffic_endpoints@),
        ies_of_type(ies_view(m.fq_csids@), IeType::FqCsid) == ies_view(m.fq_csids@),
        ies_of_type(opt_ie_seq(m.created_bridge_info_for_tsc), IeType::CreatedBridgeInfoForTsc) == opt_ie_seq(m.created_bridge_info_for_tsc),
        ies_of_type(opt_ie_seq(m.atsss_control_parameters), IeType::AtsssControlParameters) == opt_ie_seq(m.atsss_control_parameters),
        ies_of_type(opt_ie_seq(m.rds_configuration_information), IeType::RdsConfigurationInformation) == opt_ie_seq(m.rds_configuration_information),
        ies_of_type(opt_ie_seq(m.created_l2tp_session), IeType::CreatedL2tpSession) == opt_ie_seq(m.created_l2tp_session),
        ies_of_type(opt_ie_seq(m.mbs_session_n4mb_information), IeType::MbsSessionN4mbInformation) == opt_ie_seq(m.mbs_session_n4mb_information),
        ies_of_type(ies_view(m.mbs_session_n4_information@), IeType::MbsSessionN4Information) == ies_view(m.mbs_session_n4_information@),
        ies_of_type(ies_view(m.tl_containers@), IeType::TlContainer) == ies_view(m.tl_containers@),
{
    reveal(SessionEstablishmentResponse::fields_hold_their_types);
    assert(ies_of_type(seq![m.node_id@], IeType::NodeId) == seq![m.node_id@]) by {
        assert forall|k: int| 0 <= k < seq![m.node_id@].len() implies (#[trigger] seq![m.node_id@][k]).ie_type == IeType::NodeId by {
        }
        lemma_of_type_all(seq![m.node_id@], IeType::NodeId);
    }
    assert(ies_of_type(seq![m.cause@], IeType::Cause) == seq![m.cause@]) by {
        assert forall|k: int| 0 <= k < seq![m.cause@].len() implies (#[trigger] seq![m.cause@][k]).ie_type == IeType::Cause by {
        }
        lemma_of_type_all(seq![m.cause@], IeType::Cause);
    }
    assert(ies_of_type(opt_ie_seq(m.offending_ie), IeType::OffendingIe) == opt_ie_seq(m.offending_ie)) by {
        assert forall|k: int| 0 <= k < opt_ie_seq(m.offending_ie).len() implies (#[trigger] opt_ie_seq(m.offending_ie)[k]).ie_type == IeType::OffendingIe by {
        }
        lemma_of_type_all(opt_ie_seq(m.offending_ie), IeType::OffendingIe);
    }
    assert(ies_of_type(seq![m.fseid@], IeType::Fseid) == seq![m.fseid@]) by {
        assert forall|k: int| 0 <= k < seq![m.fseid@].len() implies (#[trigger] seq![m.fseid@][k]).ie_type == IeType::Fseid by {
        }
        lemma_of_type_all(seq![m.fseid@], IeType::Fseid);
    }
    assert(ies_of_type(ies_view(m.created_pdrs@), IeType::CreatedPdr) == ies_view(m.created_pdrs@)) by {
        assert forall|k: int| 0 <= k < ies_view(m.created_pdrs@).len() implies (#[trigger] ies_view(m.created_pdrs@)[k]).ie_type == IeType::CreatedPdr by {
            assert(ies_view(m.created_pdrs@)[k] == m.created_pdrs@[k]@);
        }
        lemma_of_type_all(ies_view(m.created_pdrs@), IeType::CreatedPdr);
    }
    assert(ies_of_type(opt_ie_seq(m.pdn_type), IeType::PdnType) == opt_ie_seq(m.pdn_type)) by {
        assert forall|k: int| 0 <= k < opt_ie_seq(m.pdn_type).len() implies (#[trigger] opt_ie_seq(m.pdn_type)[k]).ie_type == IeType::PdnType by {
        }
        lemma_of_type_all(opt_ie_seq(m.pdn_type), IeType::PdnType);
    }
    assert(ies_of_type(opt_ie_seq(m.load_control_information), IeType::LoadControlInformation) == opt_ie_seq(m.load_control_information)) by {
        assert forall|k: int| 0 <= k < opt_ie_seq(m.load_control_information).len() implies (#[trigger] opt_ie_seq(m.load_control_information)[k]).ie_type == IeType::LoadControlInformation by {
        }
        lemma_of_type_all(opt_ie_seq(m.load_control_information), IeType::LoadControlInformation);
    }
    assert(ies_of_type(opt_ie_seq(m.overload_control_information), IeType::OverloadControlInformation) == opt_ie_seq(m.overload_control_information)) by {
        assert forall|k: int| 0 <= k < opt_ie_seq(m.overload_control_information).len() implies (#[trigger] opt_ie_seq(m.overload_control_information)[k]).ie_type == IeType::OverloadControlInformation by {
        }
        lemma_of_type_all(opt_ie_seq(m.overload_control_information), IeType::OverloadControlInformation);
    }
    assert(ies_of_type(opt_ie_seq(m.failed_rule_id), IeType::FailedRuleId) == opt_ie_seq(m.failed_rule_id)) by {
        assert forall|k: int| 0 <= k < opt_ie_seq(m.failed_rule_id).len() implies (#[trigger] opt_ie_seq(m.failed_rule_id)[k]).ie_type == IeType::FailedRuleId by {
        }
        lemma_of_type_all(opt_ie_seq(m.failed_rule_id), IeType::FailedRuleId);
    }
    assert(ies_of_type(ies_view(m.partial_failure_information@), IeType::PartialFailureInformation) == ies_view(m.partial_failure_information@)) by {
        assert forall|k: int| 0 <= k < ies_view(m.partial_failure_information@).len() implies (#[trigger] ies_view(m.partial_failure_information@)[k]).ie_type == IeType::PartialFailureInformation by {
            assert(ies_view(m.partial_failure_information@)[k] == m.partial_failure_information@[k]@);
        }
        lemma_of_type_all(ies_view(m.partial_failure_information@), IeType::PartialFailureInformation);
    }
    assert(ies_of_type(ies_view(m.created_traffic_endpoints@), IeType::CreatedTrafficEndpoint) == ies_view(m.created_traffic_endpoints@)) by {
        assert forall|k: int| 0 <= k < ies_view(m.created_traffic_endpoints@).len() implies (#[trigger] ies_view(m.created_traffic_endpoints@)[k]).ie_type == IeType::CreatedTrafficEndpoint by {
            assert(ies_view(m.created_traffic_endpoints@)[k] == m.created_traffic_endpoints@[k]@);
        }
        lemma_of_type_all(ies_view(m.created_traffic_endpoints@), IeType::CreatedTrafficEndpoint);
    }
    assert(ies_of_type(ies_view(m.fq_csids@), IeType::FqCsid) == ies_view(m.fq_csids@)) by {
        assert forall|k: int| 0 <= k < ies_view(m.fq_csids@).len() implies (#[trigger] ies_view(m.fq_csids@)[k]).ie_type == IeType::FqCsid by {
            assert(ies_view(m.fq_csids@)[k] == m.fq_csids@[k]@);
        }
        lemma_of_type_all(ies_view(m.fq_csids@), IeType::FqCsid);
    }
    assert(ies_of_type(opt_ie_seq(m.created_bridge_info_for_tsc), IeType::CreatedBridgeInfoForTsc) == opt_ie_seq(m.created_bridge_info_for_tsc)) by {
        assert forall|k: int| 0 <= k < opt_ie_seq(m.created_bridge_info_for_tsc).len() implies (#[trigger] opt_ie_seq(m.created_bridge_info_for_tsc)[k]).ie_type == IeType::CreatedBridgeInfoForTsc by {
        }
        lemma_of_type_all(opt_ie_seq(m.created_bridge_info_for_tsc), IeType::CreatedBridgeInfoForTsc);
    }
    assert(ies_of_type(opt_ie_seq(m.atsss_control_parameters), IeType::AtsssControlParameters) == opt_ie_seq(m.atsss_control_parameters)) by {
        assert forall|k: int| 0 <= k < opt_ie_seq(m.atsss_control_parameters).len() implies (#[trigger] opt_ie_seq(m.atsss_control_parameters)[k]).ie_type == IeType::AtsssControlParameters by {
        }
        lemma_of_type_all(opt_ie_seq(m.atsss_control_parameters), IeType::AtsssControlParameters);
    }
    assert(ies_of_type(opt_ie_seq(m.rds_configuration_information), IeType::RdsConfigurationInformation) == opt_ie_seq(m.rds_configuration_information)) by {
        assert forall|k: int| 0 <= k < opt_ie_seq(m.rds_configuration_information).len() implies (#[trigger] opt_ie_seq(m.rds_configuration_information)[k]).ie_type == IeType::RdsConfigurationInformation by {
        }
        lemma_of_type_all(opt_ie_seq(m.rds_configuration_information), IeType::RdsConfigurationInformation);
    }
    assert(ies_of_type(opt_ie_seq(m.created_l2tp_session), IeType::CreatedL2tpSession) == opt_ie_seq(m.created_l2tp_session)) by {
        assert forall|k: int| 0 <= k < opt_ie_seq(m.created_l2tp_session).len() implies (#[trigger] opt_ie_seq(m.created_l2tp_session)[k]).ie_type == IeType::CreatedL2tpSession by {
        }
        lemma_of_type_all(opt_ie_seq(m.created_l2tp_session), IeType::CreatedL2tpSession);
    }
    assert(ies_of_type(opt_ie_seq(m.mbs_session_n4mb_information), IeType::MbsSessionN4mbInformation) == opt_ie_seq(m.mbs_session_n4mb_information)) by {
        assert forall|k: int| 0 <= k < opt_ie_seq(m.mbs_session_n4mb_information).len() implies (#[trigger] opt_ie_seq(m.mbs_session_n4mb_information)[k]).ie_type == IeType::MbsSessionN4mbInformation by {
        }
        lemma_of_type_all(opt_ie_seq(m.mbs_session_n4mb_information), IeType::MbsSessionN4mbInformation);
    }
    assert(ies_of_type(ies_view(m.mbs_session_n4_information@), IeType::MbsSessionN4Information) == ies_view(m.mbs_session_n4_information@)) by {
        assert forall|k: int| 0 <= k < ies_view(m.mbs_session_n4_information@).len() implies (#[trigger] ies_view(m.mbs_session_n4_information@)[k]).ie_type == IeType::MbsSessionN4Information by {
            assert(ies_view(m.mbs_session_n4_information@)[k] == m.mbs_session_n4_information@[k]@);
        }
        lemma_of_type_all(ies_view(m.mbs_session_n4_information@), IeType::MbsSessionN4Information);
    }
    assert(ies_of_type(ies_view(m.tl_containers@), IeType::TlContainer) == ies_view(m.tl_containers@)) by {
        assert forall|k: int| 0 <= k < ies_view(m.tl_containers@).len() implies (#[trigger] ies_view(m.tl_containers@)[k]).ie_type == IeType::TlContainer by {
            assert(ies_view(m.tl_containers@)[k] == m.tl_containers@[k]@);
        }
        lemma_of_type_all(ies_view(m.tl_containers@), IeType::TlContainer);
    }
}

/// Looking up the IEs of a type gives exactly the message's IEs of that type, in
/// wire order, when every IE is in the field named for its type.
#[verifier::spinoff_prover]
pub proof fn lemma_session_establishment_response_lookup_by_type(m: SessionEstablishmentResponse, t: IeType)
    requires
        m.fields_hold_their_types(),
    ensures
        m.spec_ies_of(t) == ies_of_type(m.spec_body(), t),
        forall|k: int| 0 <= k < m.spec_ies_of(t).len() ==> (#[trigger] m.spec_ies_of(t)[k]).ie_type == t,
{
    let cls = SessionEstablishmentResponse::classifier();
    lemma_session_establishment_response_fields_classified(m);
    lemma_of_type_classified(m.slots(), cls, t);
    lemma_session_establishment_response_fields_of_their_type(m);
    match t {
        IeType::NodeId => {
            assert(m.slots()[0] == seq![m.node_id@]);
        },
        IeType::Cause => {
            assert(m.slots()[1] == seq![m.cause@]);
        },
        IeType::OffendingIe => {
            assert(m.slots()[2] == opt_ie_seq(m.offending_ie));
        },
        IeType::Fseid => {
            assert(m.slots()[3] == seq![m.fseid@]);
        },
        IeType::CreatedPdr => {
            assert(m.slots()[4] == ies_view(m.created_pdrs@));
        },
        IeType::PdnType => {
            assert(m.slots()[5] == opt_ie_seq(m.pdn_type));
        },
        IeType::LoadControlInformation => {
            assert(m.slots()[6] == opt_ie_seq(m.load_control_information));
        },
        IeType::OverloadControlInformation => {
            assert(m.slots()[7] == opt_ie_seq(m.overload_control_information));
        },
        IeType::FailedRuleId => {
            assert(m.slots()[8] == opt_ie_seq(m.failed_rule_id));
        },
        IeType::PartialFailureInformation => {
            assert(m.slots()[9] == ies_view(m.partial_failure_information@));
        },
        IeType::CreatedTrafficEndpoint => {
            assert(m.slots()[10] == ies_view(m.created_traffic_endpoints@));
        },
        IeType::FqCsid => {
            assert(m.slots()[11] == ies_view(m.fq_csids@));
        },
        IeType::CreatedBridgeInfoForTsc => {
            assert(m.slots()[12] == opt_ie_seq(m.created_bridge_info_for_tsc));
        },
        IeType::AtsssControlParameters => {
            assert(m.slots()[13] == opt_ie_seq(m.atsss_control_parameters));
        },
        IeType::RdsConfigurationInformation => {
            assert(m.slots()[14] == opt_ie_seq(m.rds_configuration_information));
        },
        IeType::CreatedL2tpSession => {
            assert(m.slots()[15] == opt_ie_seq(m.created_l2tp_session));
        },
        IeType::MbsSessionN4mbInformation => {
            assert(m.slots()[16] == opt_ie_seq(m.mbs_session_n4mb_information));
        },
        IeType::MbsSessionN4Information => {
            assert(m.slots()[17] == ies_view(m.mbs_session_n4_information@));
        },
        IeType::TlContainer => {
            assert(m.slots()[18] == ies_view(m.tl_containers@));
        },
        _ => {
            assert(m.slots()[19] == ies_view(m.ies@));
        },
    }
    lemma_of_type_types(m.spec_body(), t);
}

} // verus!
