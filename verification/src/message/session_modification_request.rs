//! Session Modification Request message (3GPP TS 29.244 clause 7.5.4).
use crate::error::PfcpError;
use crate::ie::{
    ie_refs_view, ies_of_type, ies_size, ies_view, ies_where, ies_wf, ies_wire, parse_ies, spec_parse_ies, Ie,
    IeType, IeView,
};
use crate::message::header::{
    header_size, header_wf, header_wire, lemma_header_roundtrip, lemma_header_wire_len, spec_parse_header, Header,
};
use crate::message::ie_iter::IeIter;
use crate::message::slots::{
    concat_slots, decode_slot, decode_slots, empty_buckets, last_ie, lemma_decode_concat, lemma_len_step,
    lemma_slot_ies_empty, lemma_slot_ies_push_all, len_slot_many, len_slot_opt, len_slot_opt_many, list_slot_many,
    list_slot_opt, list_slot_opt_many, opt_ie_seq, opt_vec_canonical, opt_vec_seq, push_bucket, slot_ies,
    slots_typed, take_bucket, write_slot_many, write_slot_opt, write_slot_opt_many, SlotKind, last_seq,
    lemma_classified_push, lemma_ies_of_type_is_where, lemma_ies_where_ext, lemma_of_type_all,
    lemma_of_type_classified, lemma_of_type_types, slot_pred, slots_classified,
};
use crate::message::{lemma_msg_type_code_roundtrip, lemma_parse_header_size, message_header, Message, MsgType};
use crate::ie::fseid::Fseid;
use crate::ie::recovery_time_stamp::RecoveryTimeStamp;
use vstd::prelude::*;

verus! {

/// A Session Modification Request message (3GPP TS 29.244 clause 7.5.4)
#[derive(Debug, Clone, PartialEq, Eq)]
pub struct SessionModificationRequest {
    pub header: Header,
    pub fseid: Option<Ie>,
    pub remove_pdrs: Option<Vec<Ie>>,
    pub remove_fars: Option<Vec<Ie>>,
    pub remove_urrs: Option<Vec<Ie>>,
    pub remove_qers: Option<Vec<Ie>>,
    pub remove_bars: Option<Vec<Ie>>,
    pub remove_traffic_endpoints: Option<Vec<Ie>>,
    pub create_pdrs: Option<Vec<Ie>>,
    pub create_fars: Option<Vec<Ie>>,
    pub create_urrs: Option<Vec<Ie>>,
    pub create_qers: Option<Vec<Ie>>,
    pub create_bars: Option<Vec<Ie>>,
    pub create_traffic_endpoints: Option<Vec<Ie>>,
    pub update_pdrs: Option<Vec<Ie>>,
    pub update_fars: Option<Vec<Ie>>,
    pub update_urrs: Option<Vec<Ie>>,
    pub update_qers: Option<Vec<Ie>>,
    pub update_bars: Option<Vec<Ie>>,
    pub update_traffic_endpoints: Option<Vec<Ie>>,
    pub pdn_type: Option<Ie>,
    pub user_id: Option<Ie>,
    pub s_nssai: Option<Ie>,
    pub trace_information: Option<Ie>,
    pub recovery_time_stamp: Option<Ie>,
    pub cp_function_features: Option<Ie>,
    pub apn_dnn: Option<Ie>,
    pub user_plane_inactivity_timer: Option<Ie>,
    pub pfcpsm_req_flags: Option<Ie>,
    pub ethernet_context_information: Option<Ie>,
    pub ies: Vec<Ie>,
}

impl SessionModificationRequest {
    /// The slot that an IE of type `t` is read into.
    pub open spec fn slot_class(t: IeType) -> int {
        match t {
            IeType::Fseid => 0,
            IeType::RemovePdr => 1,
            IeType::RemoveFar => 2,
            IeType::RemoveUrr => 3,
            IeType::RemoveQer => 4,
            IeType::RemoveBar => 5,
            IeType::RemoveTrafficEndpoint => 6,
            IeType::CreatePdr => 7,
            IeType::CreateFar => 8,
            IeType::CreateUrr => 9,
            IeType::CreateQer => 10,
            IeType::CreateBar => 11,
            IeType::CreateTrafficEndpoint => 12,
            IeType::UpdatePdr => 13,
            IeType::UpdateFar => 14,
            IeType::UpdateUrr => 15,
            IeType::UpdateQer => 16,
            IeType::UpdateBar => 17,
            IeType::UpdateTrafficEndpoint => 18,
            IeType::PdnType => 19,
            IeType::UserId => 20,
            IeType::Snssai => 21,
            IeType::TraceInformation => 22,
            IeType::RecoveryTimeStamp => 23,
            IeType::CpFunctionFeatures => 24,
            IeType::ApnDnn => 25,
            IeType::UserPlaneInactivityTimer => 26,
            IeType::PfcpsmReqFlags => 27,
            IeType::EthernetContextInformation => 28,
            _ => 29,
        }
    }

    /// The slot that an IE of type `t` is read into.
    fn classify(t: IeType) -> (r: usize)
        ensures
            r == Self::slot_class(t),
    {
        match t {
            IeType::Fseid => 0,
            IeType::RemovePdr => 1,
            IeType::RemoveFar => 2,
            IeType::RemoveUrr => 3,
            IeType::RemoveQer => 4,
            IeType::RemoveBar => 5,
            IeType::RemoveTrafficEndpoint => 6,
            IeType::CreatePdr => 7,
            IeType::CreateFar => 8,
            IeType::CreateUrr => 9,
            IeType::CreateQer => 10,
            IeType::CreateBar => 11,
            IeType::CreateTrafficEndpoint => 12,
            IeType::UpdatePdr => 13,
            IeType::UpdateFar => 14,
            IeType::UpdateUrr => 15,
            IeType::UpdateQer => 16,
            IeType::UpdateBar => 17,
            IeType::UpdateTrafficEndpoint => 18,
            IeType::PdnType => 19,
            IeType::UserId => 20,
            IeType::Snssai => 21,
            IeType::TraceInformation => 22,
            IeType::RecoveryTimeStamp => 23,
            IeType::CpFunctionFeatures => 24,
            IeType::ApnDnn => 25,
            IeType::UserPlaneInactivityTimer => 26,
            IeType::PfcpsmReqFlags => 27,
            IeType::EthernetContextInformation => 28,
            _ => 29,
        }
    }

    /// `slot_class` as a function value.
    pub open spec fn classifier() -> spec_fn(IeType) -> int {
        |t: IeType| Self::slot_class(t)
    }

    /// How many IEs each slot keeps, in wire order.
    pub open spec fn slot_kinds() -> Seq<SlotKind> {
        seq![SlotKind::One, SlotKind::Many, SlotKind::Many, SlotKind::Many, SlotKind::Many, SlotKind::Many, SlotKind::Many, SlotKind::Many, SlotKind::Many, SlotKind::Many, SlotKind::Many, SlotKind::Many, SlotKind::Many, SlotKind::Many, SlotKind::Many, SlotKind::Many, SlotKind::Many, SlotKind::Many, SlotKind::Many, SlotKind::One, SlotKind::One, SlotKind::One, SlotKind::One, SlotKind::One, SlotKind::One, SlotKind::One, SlotKind::One, SlotKind::One, SlotKind::One, SlotKind::Many]
    }

    /// The IEs of each field, in wire order.
    pub open spec fn slots(&self) -> Seq<Seq<IeView>> {
        Seq::<Seq<IeView>>::empty().push(opt_ie_seq(self.fseid)).push(opt_vec_seq(self.remove_pdrs)).push(opt_vec_seq(self.remove_fars)).push(opt_vec_seq(self.remove_urrs)).push(opt_vec_seq(self.remove_qers)).push(opt_vec_seq(self.remove_bars)).push(opt_vec_seq(self.remove_traffic_endpoints)).push(opt_vec_seq(self.create_pdrs)).push(opt_vec_seq(self.create_fars)).push(opt_vec_seq(self.create_urrs)).push(opt_vec_seq(self.create_qers)).push(opt_vec_seq(self.create_bars)).push(opt_vec_seq(self.create_traffic_endpoints)).push(opt_vec_seq(self.update_pdrs)).push(opt_vec_seq(self.update_fars)).push(opt_vec_seq(self.update_urrs)).push(opt_vec_seq(self.update_qers)).push(opt_vec_seq(self.update_bars)).push(opt_vec_seq(self.update_traffic_endpoints)).push(opt_ie_seq(self.pdn_type)).push(opt_ie_seq(self.user_id)).push(opt_ie_seq(self.s_nssai)).push(opt_ie_seq(self.trace_information)).push(opt_ie_seq(self.recovery_time_stamp)).push(opt_ie_seq(self.cp_function_features)).push(opt_ie_seq(self.apn_dnn)).push(opt_ie_seq(self.user_plane_inactivity_timer)).push(opt_ie_seq(self.pfcpsm_req_flags)).push(opt_ie_seq(self.ethernet_context_information)).push(ies_view(self.ies@))
    }

    /// The IEs in the order that `all_ies` lists them.
    pub open spec fn listed_ies(&self) -> Seq<IeView> {
        concat_slots(Seq::<Seq<IeView>>::empty().push(opt_ie_seq(self.fseid)).push(opt_vec_seq(self.remove_pdrs)).push(opt_vec_seq(self.remove_fars)).push(opt_vec_seq(self.remove_urrs)).push(opt_vec_seq(self.remove_qers)).push(opt_vec_seq(self.remove_bars)).push(opt_vec_seq(self.remove_traffic_endpoints)).push(opt_vec_seq(self.create_pdrs)).push(opt_vec_seq(self.create_fars)).push(opt_vec_seq(self.create_urrs)).push(opt_vec_seq(self.create_qers)).push(opt_vec_seq(self.create_bars)).push(opt_vec_seq(self.create_traffic_endpoints)).push(opt_vec_seq(self.update_pdrs)).push(opt_vec_seq(self.update_fars)).push(opt_vec_seq(self.update_urrs)).push(opt_vec_seq(self.update_qers)).push(opt_vec_seq(self.update_bars)).push(opt_vec_seq(self.update_traffic_endpoints)).push(opt_ie_seq(self.pdn_type)).push(opt_ie_seq(self.user_id)).push(opt_ie_seq(self.s_nssai)).push(opt_ie_seq(self.trace_information)).push(opt_ie_seq(self.recovery_time_stamp)).push(opt_ie_seq(self.cp_function_features)).push(opt_ie_seq(self.apn_dnn)).push(opt_ie_seq(self.user_plane_inactivity_timer)).push(opt_ie_seq(self.pfcpsm_req_flags)).push(opt_ie_seq(self.ethernet_context_information)).push(ies_view(self.ies@)))
    }

    /// The first mandatory IE that `ies` lacks, checked in the order the decoder checks.
    pub open spec fn missing_ie(ies: Seq<IeView>) -> Option<IeType> {
        None
    }

    /// The fields have a shape that decoding gives back: every IE is in the field for its type,
    /// mandatory lists are not empty and optional lists are present only when not empty.
    pub open spec fn fields_canonical(&self) -> bool {
        slots_typed(self.slots(), Self::classifier(), Self::slot_kinds())
        && opt_vec_canonical(self.remove_pdrs)
        && opt_vec_canonical(self.remove_fars)
        && opt_vec_canonical(self.remove_urrs)
        && opt_vec_canonical(self.remove_qers)
        && opt_vec_canonical(self.remove_bars)
        && opt_vec_canonical(self.remove_traffic_endpoints)
        && opt_vec_canonical(self.create_pdrs)
        && opt_vec_canonical(self.create_fars)
        && opt_vec_canonical(self.create_urrs)
        && opt_vec_canonical(self.create_qers)
        && opt_vec_canonical(self.create_bars)
        && opt_vec_canonical(self.create_traffic_endpoints)
        && opt_vec_canonical(self.update_pdrs)
        && opt_vec_canonical(self.update_fars)
        && opt_vec_canonical(self.update_urrs)
        && opt_vec_canonical(self.update_qers)
        && opt_vec_canonical(self.update_bars)
        && opt_vec_canonical(self.update_traffic_endpoints)
    }

    /// A message that reads back as itself.
    pub open spec fn well_formed(&self) -> bool {
        header_wf(self.header) && ies_wf(concat_slots(self.slots())) && self.fields_canonical()
    }

    /// The wire form of the message: its header, then its IEs in wire order.
    pub open spec fn wire(&self) -> Seq<u8> {
        header_wire(self.header) + ies_wire(concat_slots(self.slots()))
    }

    /// Decoding `ies` gives these fields.
    pub open spec fn decodes_from(&self, ies: Seq<IeView>) -> bool {
        &&& opt_ie_seq(self.fseid) == decode_slot(ies, Self::classifier(), 0, SlotKind::One)
        &&& opt_vec_seq(self.remove_pdrs) == decode_slot(ies, Self::classifier(), 1, SlotKind::Many)
        &&& opt_vec_canonical(self.remove_pdrs)
        &&& opt_vec_seq(self.remove_fars) == decode_slot(ies, Self::classifier(), 2, SlotKind::Many)
        &&& opt_vec_canonical(self.remove_fars)
        &&& opt_vec_seq(self.remove_urrs) == decode_slot(ies, Self::classifier(), 3, SlotKind::Many)
        &&& opt_vec_canonical(self.remove_urrs)
        &&& opt_vec_seq(self.remove_qers) == decode_slot(ies, Self::classifier(), 4, SlotKind::Many)
        &&& opt_vec_canonical(self.remove_qers)
        &&& opt_vec_seq(self.remove_bars) == decode_slot(ies, Self::classifier(), 5, SlotKind::Many)
        &&& opt_vec_canonical(self.remove_bars)
        &&& opt_vec_seq(self.remove_traffic_endpoints) == decode_slot(ies, Self::classifier(), 6, SlotKind::Many)
        &&& opt_vec_canonical(self.remove_traffic_endpoints)
        &&& opt_vec_seq(self.create_pdrs) == decode_slot(ies, Self::classifier(), 7, SlotKind::Many)
        &&& opt_vec_canonical(self.create_pdrs)
        &&& opt_vec_seq(self.create_fars) == decode_slot(ies, Self::classifier(), 8, SlotKind::Many)
        &&& opt_vec_canonical(self.create_fars)
        &&& opt_vec_seq(self.create_urrs) == decode_slot(ies, Self::classifier(), 9, SlotKind::Many)
        &&& opt_vec_canonical(self.create_urrs)
        &&& opt_vec_seq(self.create_qers) == decode_slot(ies, Self::classifier(), 10, SlotKind::Many)
        &&& opt_vec_canonical(self.create_qers)
        &&& opt_vec_seq(self.create_bars) == decode_slot(ies, Self::classifier(), 11, SlotKind::Many)
        &&& opt_vec_canonical(self.create_bars)
        &&& opt_vec_seq(self.create_traffic_endpoints) == decode_slot(ies, Self::classifier(), 12, SlotKind::Many)
        &&& opt_vec_canonical(self.create_traffic_endpoints)
        &&& opt_vec_seq(self.update_pdrs) == decode_slot(ies, Self::classifier(), 13, SlotKind::Many)
        &&& opt_vec_canonical(self.update_pdrs)
        &&& opt_vec_seq(self.update_fars) == decode_slot(ies, Self::classifier(), 14, SlotKind::Many)
        &&& opt_vec_canonical(self.update_fars)
        &&& opt_vec_seq(self.update_urrs) == decode_slot(ies, Self::classifier(), 15, SlotKind::Many)
        &&& opt_vec_canonical(self.update_urrs)
        &&& opt_vec_seq(self.update_qers) == decode_slot(ies, Self::classifier(), 16, SlotKind::Many)
        &&& opt_vec_canonical(self.update_qers)
        &&& opt_vec_seq(self.update_bars) == decode_slot(ies, Self::classifier(), 17, SlotKind::Many)
        &&& opt_vec_canonical(self.update_bars)
        &&& opt_vec_seq(self.update_traffic_endpoints) == decode_slot(ies, Self::classifier(), 18, SlotKind::Many)
        &&& opt_vec_canonical(self.update_traffic_endpoints)
        &&& opt_ie_seq(self.pdn_type) == decode_slot(ies, Self::classifier(), 19, SlotKind::One)
        &&& opt_ie_seq(self.user_id) == decode_slot(ies, Self::classifier(), 20, SlotKind::One)
        &&& opt_ie_seq(self.s_nssai) == decode_slot(ies, Self::classifier(), 21, SlotKind::One)
        &&& opt_ie_seq(self.trace_information) == decode_slot(ies, Self::classifier(), 22, SlotKind::One)
        &&& opt_ie_seq(self.recovery_time_stamp) == decode_slot(ies, Self::classifier(), 23, SlotKind::One)
        &&& opt_ie_seq(self.cp_function_features) == decode_slot(ies, Self::classifier(), 24, SlotKind::One)
        &&& opt_ie_seq(self.apn_dnn) == decode_slot(ies, Self::classifier(), 25, SlotKind::One)
        &&& opt_ie_seq(self.user_plane_inactivity_timer) == decode_slot(ies, Self::classifier(), 26, SlotKind::One)
        &&& opt_ie_seq(self.pfcpsm_req_flags) == decode_slot(ies, Self::classifier(), 27, SlotKind::One)
        &&& opt_ie_seq(self.ethernet_context_information) == decode_slot(ies, Self::classifier(), 28, SlotKind::One)
        &&& ies_view(self.ies@) == decode_slot(ies, Self::classifier(), 29, SlotKind::Many)
    }

    /// Assembles a message from its fields; the header length covers the fields' IEs.
    fn assemble(seid: u64, seq: u32, fseid: Option<Ie>, remove_pdrs: Option<Vec<Ie>>, remove_fars: Option<Vec<Ie>>, remove_urrs: Option<Vec<Ie>>, remove_qers: Option<Vec<Ie>>, remove_bars: Option<Vec<Ie>>, remove_traffic_endpoints: Option<Vec<Ie>>, create_pdrs: Option<Vec<Ie>>, create_fars: Option<Vec<Ie>>, create_urrs: Option<Vec<Ie>>, create_qers: Option<Vec<Ie>>, create_bars: Option<Vec<Ie>>, create_traffic_endpoints: Option<Vec<Ie>>, update_pdrs: Option<Vec<Ie>>, update_fars: Option<Vec<Ie>>, update_urrs: Option<Vec<Ie>>, update_qers: Option<Vec<Ie>>, update_bars: Option<Vec<Ie>>, update_traffic_endpoints: Option<Vec<Ie>>, pdn_type: Option<Ie>, user_id: Option<Ie>, s_nssai: Option<Ie>, trace_information: Option<Ie>, recovery_time_stamp: Option<Ie>, cp_function_features: Option<Ie>, apn_dnn: Option<Ie>, user_plane_inactivity_timer: Option<Ie>, pfcpsm_req_flags: Option<Ie>, ethernet_context_information: Option<Ie>, ies: Vec<Ie>) -> (r: Self)
        ensures
            r.header == message_header(MsgType::SessionModificationRequest, true, seid, seq, concat_slots(r.slots())),
            r.fseid == fseid,
            r.remove_pdrs == remove_pdrs,
            r.remove_fars == remove_fars,
            r.remove_urrs == remove_urrs,
            r.remove_qers == remove_qers,
            r.remove_bars == remove_bars,
            r.remove_traffic_endpoints == remove_traffic_endpoints,
            r.create_pdrs == create_pdrs,
            r.create_fars == create_fars,
            r.create_urrs == create_urrs,
            r.create_qers == create_qers,
            r.create_bars == create_bars,
            r.create_traffic_endpoints == create_traffic_endpoints,
            r.update_pdrs == update_pdrs,
            r.update_fars == update_fars,
            r.update_urrs == update_urrs,
            r.update_qers == update_qers,
            r.update_bars == update_bars,
            r.update_traffic_endpoints == update_traffic_endpoints,
            r.pdn_type == pdn_type,
            r.user_id == user_id,
            r.s_nssai == s_nssai,
            r.trace_information == trace_information,
            r.recovery_time_stamp == recovery_time_stamp,
            r.cp_function_features == cp_function_features,
            r.apn_dnn == apn_dnn,
            r.user_plane_inactivity_timer == user_plane_inactivity_timer,
            r.pfcpsm_req_flags == pfcpsm_req_flags,
            r.ethernet_context_information == ethernet_context_information,
            r.ies == ies,
    {
        let len: u16 = 0;
        let len = len_slot_opt(len, &fseid, Ghost(Seq::<Seq<IeView>>::empty()));
        let len = len_slot_opt_many(len, &remove_pdrs, Ghost(Seq::<Seq<IeView>>::empty().push(opt_ie_seq(fseid))));
        let len = len_slot_opt_many(len, &remove_fars, Ghost(Seq::<Seq<IeView>>::empty().push(opt_ie_seq(fseid)).push(opt_vec_seq(remove_pdrs))));
        let len = len_slot_opt_many(len, &remove_urrs, Ghost(Seq::<Seq<IeView>>::empty().push(opt_ie_seq(fseid)).push(opt_vec_seq(remove_pdrs)).push(opt_vec_seq(remove_fars))));
        let len = len_slot_opt_many(len, &remove_qers, Ghost(Seq::<Seq<IeView>>::empty().push(opt_ie_seq(fseid)).push(opt_vec_seq(remove_pdrs)).push(opt_vec_seq(remove_fars)).push(opt_vec_seq(remove_urrs))));
        let len = len_slot_opt_many(len, &remove_bars, Ghost(Seq::<Seq<IeView>>::empty().push(opt_ie_seq(fseid)).push(opt_vec_seq(remove_pdrs)).push(opt_vec_seq(remove_fars)).push(opt_vec_seq(remove_urrs)).push(opt_vec_seq(remove_qers))));
        let len = len_slot_opt_many(len, &remove_traffic_endpoints, Ghost(Seq::<Seq<IeView>>::empty().push(opt_ie_seq(fseid)).push(opt_vec_seq(remove_pdrs)).push(opt_vec_seq(remove_fars)).push(opt_vec_seq(remove_urrs)).push(opt_vec_seq(remove_qers)).push(opt_vec_seq(remove_bars))));
        let len = len_slot_opt_many(len, &create_pdrs, Ghost(Seq::<Seq<IeView>>::empty().push(opt_ie_seq(fseid)).push(opt_vec_seq(remove_pdrs)).push(opt_vec_seq(remove_fars)).push(opt_vec_seq(remove_urrs)).push(opt_vec_seq(remove_qers)).push(opt_vec_seq(remove_bars)).push(opt_vec_seq(remove_traffic_endpoints))));
        let len = len_slot_opt_many(len, &create_fars, Ghost(Seq::<Seq<IeView>>::empty().push(opt_ie_seq(fseid)).push(opt_vec_seq(remove_pdrs)).push(opt_vec_seq(remove_fars)).push(opt_vec_seq(remove_urrs)).push(opt_vec_seq(remove_qers)).push(opt_vec_seq(remove_bars)).push(opt_vec_seq(remove_traffic_endpoints)).push(opt_vec_seq(create_pdrs))));
        let len = len_slot_opt_many(len, &create_urrs, Ghost(Seq::<Seq<IeView>>::empty().push(opt_ie_seq(fseid)).push(opt_vec_seq(remove_pdrs)).push(opt_vec_seq(remove_fars)).push(opt_vec_seq(remove_urrs)).push(opt_vec_seq(remove_qers)).push(opt_vec_seq(remove_bars)).push(opt_vec_seq(remove_traffic_endpoints)).push(opt_vec_seq(create_pdrs)).push(opt_vec_seq(create_fars))));
        let len = len_slot_opt_many(len, &create_qers, Ghost(Seq::<Seq<IeView>>::empty().push(opt_ie_seq(fseid)).push(opt_vec_seq(remove_pdrs)).push(opt_vec_seq(remove_fars)).push(opt_vec_seq(remove_urrs)).push(opt_vec_seq(remove_qers)).push(opt_vec_seq(remove_bars)).push(opt_vec_seq(remove_traffic_endpoints)).push(opt_vec_seq(create_pdrs)).push(opt_vec_seq(create_fars)).push(opt_vec_seq(create_urrs))));
        let len = len_slot_opt_many(len, &create_bars, Ghost(Seq::<Seq<IeView>>::empty().push(opt_ie_seq(fseid)).push(opt_vec_seq(remove_pdrs)).push(opt_vec_seq(remove_fars)).push(opt_vec_seq(remove_urrs)).push(opt_vec_seq(remove_qers)).push(opt_vec_seq(remove_bars)).push(opt_vec_seq(remove_traffic_endpoints)).push(opt_vec_seq(create_pdrs)).push(opt_vec_seq(create_fars)).push(opt_vec_seq(create_urrs)).push(opt_vec_seq(create_qers))));
        let len = len_slot_opt_many(len, &create_traffic_endpoints, Ghost(Seq::<Seq<IeView>>::empty().push(opt_ie_seq(fseid)).push(opt_vec_seq(remove_pdrs)).push(opt_vec_seq(remove_fars)).push(opt_vec_seq(remove_urrs)).push(opt_vec_seq(remove_qers)).push(opt_vec_seq(remove_bars)).push(opt_vec_seq(remove_traffic_endpoints)).push(opt_vec_seq(create_pdrs)).push(opt_vec_seq(create_fars)).push(opt_vec_seq(create_urrs)).push(opt_vec_seq(create_qers)).push(opt_vec_seq(create_bars))));
        let len = len_slot_opt_many(len, &update_pdrs, Ghost(Seq::<Seq<IeView>>::empty().push(opt_ie_seq(fseid)).push(opt_vec_seq(remove_pdrs)).push(opt_vec_seq(remove_fars)).push(opt_vec_seq(remove_urrs)).push(opt_vec_seq(remove_qers)).push(opt_vec_seq(remove_bars)).push(opt_vec_seq(remove_traffic_endpoints)).push(opt_vec_seq(create_pdrs)).push(opt_vec_seq(create_fars)).push(opt_vec_seq(create_urrs)).push(opt_vec_seq(create_qers)).push(opt_vec_seq(create_bars)).push(opt_vec_seq(create_traffic_endpoints))));
        let len = len_slot_opt_many(len, &update_fars, Ghost(Seq::<Seq<IeView>>::empty().push(opt_ie_seq(fseid)).push(opt_vec_seq(remove_pdrs)).push(opt_vec_seq(remove_fars)).push(opt_vec_seq(remove_urrs)).push(opt_vec_seq(remove_qers)).push(opt_vec_seq(remove_bars)).push(opt_vec_seq(remove_traffic_endpoints)).push(opt_vec_seq(create_pdrs)).push(opt_vec_seq(create_fars)).push(opt_vec_seq(create_urrs)).push(opt_vec_seq(create_qers)).push(opt_vec_seq(create_bars)).push(opt_vec_seq(create_traffic_endpoints)).push(opt_vec_seq(update_pdrs))));
        let len = len_slot_opt_many(len, &update_urrs, Ghost(Seq::<Seq<IeView>>::empty().push(opt_ie_seq(fseid)).push(opt_vec_seq(remove_pdrs)).push(opt_vec_seq(remove_fars)).push(opt_vec_seq(remove_urrs)).push(opt_vec_seq(remove_qers)).push(opt_vec_seq(remove_bars)).push(opt_vec_seq(remove_traffic_endpoints)).push(opt_vec_seq(create_pdrs)).push(opt_vec_seq(create_fars)).push(opt_vec_seq(create_urrs)).push(opt_vec_seq(create_qers)).push(opt_vec_seq(create_bars)).push(opt_vec_seq(create_traffic_endpoints)).push(opt_vec_seq(update_pdrs)).push(opt_vec_seq(update_fars))));
        let len = len_slot_opt_many(len, &update_qers, Ghost(Seq::<Seq<IeView>>::empty().push(opt_ie_seq(fseid)).push(opt_vec_seq(remove_pdrs)).push(opt_vec_seq(remove_fars)).push(opt_vec_seq(remove_urrs)).push(opt_vec_seq(remove_qers)).push(opt_vec_seq(remove_bars)).push(opt_vec_seq(remove_traffic_endpoints)).push(opt_vec_seq(create_pdrs)).push(opt_vec_seq(create_fars)).push(opt_vec_seq(create_urrs)).push(opt_vec_seq(create_qers)).push(opt_vec_seq(create_bars)).push(opt_vec_seq(create_traffic_endpoints)).push(opt_vec_seq(update_pdrs)).push(opt_vec_seq(update_fars)).push(opt_vec_seq(update_urrs))));
        let len = len_slot_opt_many(len, &update_bars, Ghost(Seq::<Seq<IeView>>::empty().push(opt_ie_seq(fseid)).push(opt_vec_seq(remove_pdrs)).push(opt_vec_seq(remove_fars)).push(opt_vec_seq(remove_urrs)).push(opt_vec_seq(remove_qers)).push(opt_vec_seq(remove_bars)).push(opt_vec_seq(remove_traffic_endpoints)).push(opt_vec_seq(create_pdrs)).push(opt_vec_seq(create_fars)).push(opt_vec_seq(create_urrs)).push(opt_vec_seq(create_qers)).push(opt_vec_seq(create_bars)).push(opt_vec_seq(create_traffic_endpoints)).push(opt_vec_seq(update_pdrs)).push(opt_vec_seq(update_fars)).push(opt_vec_seq(update_urrs)).push(opt_vec_seq(update_qers))));
        let len = len_slot_opt_many(len, &update_traffic_endpoints, Ghost(Seq::<Seq<IeView>>::empty().push(opt_ie_seq(fseid)).push(opt_vec_seq(remove_pdrs)).push(opt_vec_seq(remove_fars)).push(opt_vec_seq(remove_urrs)).push(opt_vec_seq(remove_qers)).push(opt_vec_seq(remove_bars)).push(opt_vec_seq(remove_traffic_endpoints)).push(opt_vec_seq(create_pdrs)).push(opt_vec_seq(create_fars)).push(opt_vec_seq(create_urrs)).push(opt_vec_seq(create_qers)).push(opt_vec_seq(create_bars)).push(opt_vec_seq(create_traffic_endpoints)).push(opt_vec_seq(update_pdrs)).push(opt_vec_seq(update_fars)).push(opt_vec_seq(update_urrs)).push(opt_vec_seq(update_qers)).push(opt_vec_seq(update_bars))));
        let len = len_slot_opt(len, &pdn_type, Ghost(Seq::<Seq<IeView>>::empty().push(opt_ie_seq(fseid)).push(opt_vec_seq(remove_pdrs)).push(opt_vec_seq(remove_fars)).push(opt_vec_seq(remove_urrs)).push(opt_vec_seq(remove_qers)).push(opt_vec_seq(remove_bars)).push(opt_vec_seq(remove_traffic_endpoints)).push(opt_vec_seq(create_pdrs)).push(opt_vec_seq(create_fars)).push(opt_vec_seq(create_urrs)).push(opt_vec_seq(create_qers)).push(opt_vec_seq(create_bars)).push(opt_vec_seq(create_traffic_endpoints)).push(opt_vec_seq(update_pdrs)).push(opt_vec_seq(update_fars)).push(opt_vec_seq(update_urrs)).push(opt_vec_seq(update_qers)).push(opt_vec_seq(update_bars)).push(opt_vec_seq(update_traffic_endpoints))));
        let len = len_slot_opt(len, &user_id, Ghost(Seq::<Seq<IeView>>::empty().push(opt_ie_seq(fseid)).push(opt_vec_seq(remove_pdrs)).push(opt_vec_seq(remove_fars)).push(opt_vec_seq(remove_urrs)).push(opt_vec_seq(remove_qers)).push(opt_vec_seq(remove_bars)).push(opt_vec_seq(remove_traffic_endpoints)).push(opt_vec_seq(create_pdrs)).push(opt_vec_seq(create_fars)).push(opt_vec_seq(create_urrs)).push(opt_vec_seq(create_qers)).push(opt_vec_seq(create_bars)).push(opt_vec_seq(create_traffic_endpoints)).push(opt_vec_seq(update_pdrs)).push(opt_vec_seq(update_fars)).push(opt_vec_seq(update_urrs)).push(opt_vec_seq(update_qers)).push(opt_vec_seq(update_bars)).push(opt_vec_seq(update_traffic_endpoints)).push(opt_ie_seq(pdn_type))));
        let len = len_slot_opt(len, &s_nssai, Ghost(Seq::<Seq<IeView>>::empty().push(opt_ie_seq(fseid)).push(opt_vec_seq(remove_pdrs)).push(opt_vec_seq(remove_fars)).push(opt_vec_seq(remove_urrs)).push(opt_vec_seq(remove_qers)).push(opt_vec_seq(remove_bars)).push(opt_vec_seq(remove_traffic_endpoints)).push(opt_vec_seq(create_pdrs)).push(opt_vec_seq(create_fars)).push(opt_vec_seq(create_urrs)).push(opt_vec_seq(create_qers)).push(opt_vec_seq(create_bars)).push(opt_vec_seq(create_traffic_endpoints)).push(opt_vec_seq(update_pdrs)).push(opt_vec_seq(update_fars)).push(opt_vec_seq(update_urrs)).push(opt_vec_seq(update_qers)).push(opt_vec_seq(update_bars)).push(opt_vec_seq(update_traffic_endpoints)).push(opt_ie_seq(pdn_type)).push(opt_ie_seq(user_id))));
        let len = len_slot_opt(len, &trace_information, Ghost(Seq::<Seq<IeView>>::empty().push(opt_ie_seq(fseid)).push(opt_vec_seq(remove_pdrs)).push(opt_vec_seq(remove_fars)).push(opt_vec_seq(remove_urrs)).push(opt_vec_seq(remove_qers)).push(opt_vec_seq(remove_bars)).push(opt_vec_seq(remove_traffic_endpoints)).push(opt_vec_seq(create_pdrs)).push(opt_vec_seq(create_fars)).push(opt_vec_seq(create_urrs)).push(opt_vec_seq(create_qers)).push(opt_vec_seq(create_bars)).push(opt_vec_seq(create_traffic_endpoints)).push(opt_vec_seq(update_pdrs)).push(opt_vec_seq(update_fars)).push(opt_vec_seq(update_urrs)).push(opt_vec_seq(update_qers)).push(opt_vec_seq(update_bars)).push(opt_vec_seq(update_traffic_endpoints)).push(opt_ie_seq(pdn_type)).push(opt_ie_seq(user_id)).push(opt_ie_seq(s_nssai))));
        let len = len_slot_opt(len, &recovery_time_stamp, Ghost(Seq::<Seq<IeView>>::empty().push(opt_ie_seq(fseid)).push(opt_vec_seq(remove_pdrs)).push(opt_vec_seq(remove_fars)).push(opt_vec_seq(remove_urrs)).push(opt_vec_seq(remove_qers)).push(opt_vec_seq(remove_bars)).push(opt_vec_seq(remove_traffic_endpoints)).push(opt_vec_seq(create_pdrs)).push(opt_vec_seq(create_fars)).push(opt_vec_seq(create_urrs)).push(opt_vec_seq(create_qers)).push(opt_vec_seq(create_bars)).push(opt_vec_seq(create_traffic_endpoints)).push(opt_vec_seq(update_pdrs)).push(opt_vec_seq(update_fars)).push(opt_vec_seq(update_urrs)).push(opt_vec_seq(update_qers)).push(opt_vec_seq(update_bars)).push(opt_vec_seq(update_traffic_endpoints)).push(opt_ie_seq(pdn_type)).push(opt_ie_seq(user_id)).push(opt_ie_seq(s_nssai)).push(opt_ie_seq(trace_information))));
        let len = len_slot_opt(len, &cp_function_features, Ghost(Seq::<Seq<IeView>>::empty().push(opt_ie_seq(fseid)).push(opt_vec_seq(remove_pdrs)).push(opt_vec_seq(remove_fars)).push(opt_vec_seq(remove_urrs)).push(opt_vec_seq(remove_qers)).push(opt_vec_seq(remove_bars)).push(opt_vec_seq(remove_traffic_endpoints)).push(opt_vec_seq(create_pdrs)).push(opt_vec_seq(create_fars)).push(opt_vec_seq(create_urrs)).push(opt_vec_seq(create_qers)).push(opt_vec_seq(create_bars)).push(opt_vec_seq(create_traffic_endpoints)).push(opt_vec_seq(update_pdrs)).push(opt_vec_seq(update_fars)).push(opt_vec_seq(update_urrs)).push(opt_vec_seq(update_qers)).push(opt_vec_seq(update_bars)).push(opt_vec_seq(update_traffic_endpoints)).push(opt_ie_seq(pdn_type)).push(opt_ie_seq(user_id)).push(opt_ie_seq(s_nssai)).push(opt_ie_seq(trace_information)).push(opt_ie_seq(recovery_time_stamp))));
        let len = len_slot_opt(len, &apn_dnn, Ghost(Seq::<Seq<IeView>>::empty().push(opt_ie_seq(fseid)).push(opt_vec_seq(remove_pdrs)).push(opt_vec_seq(remove_fars)).push(opt_vec_seq(remove_urrs)).push(opt_vec_seq(remove_qers)).push(opt_vec_seq(remove_bars)).push(opt_vec_seq(remove_traffic_endpoints)).push(opt_vec_seq(create_pdrs)).push(opt_vec_seq(create_fars)).push(opt_vec_seq(create_urrs)).push(opt_vec_seq(create_qers)).push(opt_vec_seq(create_bars)).push(opt_vec_seq(create_traffic_endpoints)).push(opt_vec_seq(update_pdrs)).push(opt_vec_seq(update_fars)).push(opt_vec_seq(update_urrs)).push(opt_vec_seq(update_qers)).push(opt_vec_seq(update_bars)).push(opt_vec_seq(update_traffic_endpoints)).push(opt_ie_seq(pdn_type)).push(opt_ie_seq(user_id)).push(opt_ie_seq(s_nssai)).push(opt_ie_seq(trace_information)).push(opt_ie_seq(recovery_time_stamp)).push(opt_ie_seq(cp_function_features))));
        let len = len_slot_opt(len, &user_plane_inactivity_timer, Ghost(Seq::<Seq<IeView>>::empty().push(opt_ie_seq(fseid)).push(opt_vec_seq(remove_pdrs)).push(opt_vec_seq(remove_fars)).push(opt_vec_seq(remove_urrs)).push(opt_vec_seq(remove_qers)).push(opt_vec_seq(remove_bars)).push(opt_vec_seq(remove_traffic_endpoints)).push(opt_vec_seq(create_pdrs)).push(opt_vec_seq(create_fars)).push(opt_vec_seq(create_urrs)).push(opt_vec_seq(create_qers)).push(opt_vec_seq(create_bars)).push(opt_vec_seq(create_traffic_endpoints)).push(opt_vec_seq(update_pdrs)).push(opt_vec_seq(update_fars)).push(opt_vec_seq(update_urrs)).push(opt_vec_seq(update_qers)).push(opt_vec_seq(update_bars)).push(opt_vec_seq(update_traffic_endpoints)).push(opt_ie_seq(pdn_type)).push(opt_ie_seq(user_id)).push(opt_ie_seq(s_nssai)).push(opt_ie_seq(trace_information)).push(opt_ie_seq(recovery_time_stamp)).push(opt_ie_seq(cp_function_features)).push(opt_ie_seq(apn_dnn))));
        let len = len_slot_opt(len, &pfcpsm_req_flags, Ghost(Seq::<Seq<IeView>>::empty().push(opt_ie_seq(fseid)).push(opt_vec_seq(remove_pdrs)).push(opt_vec_seq(remove_fars)).push(opt_vec_seq(remove_urrs)).push(opt_vec_seq(remove_qers)).push(opt_vec_seq(remove_bars)).push(opt_vec_seq(remove_traffic_endpoints)).push(opt_vec_seq(create_pdrs)).push(opt_vec_seq(create_fars)).push(opt_vec_seq(create_urrs)).push(opt_vec_seq(create_qers)).push(opt_vec_seq(create_bars)).push(opt_vec_seq(create_traffic_endpoints)).push(opt_vec_seq(update_pdrs)).push(opt_vec_seq(update_fars)).push(opt_vec_seq(update_urrs)).push(opt_vec_seq(update_qers)).push(opt_vec_seq(update_bars)).push(opt_vec_seq(update_traffic_endpoints)).push(opt_ie_seq(pdn_type)).push(opt_ie_seq(user_id)).push(opt_ie_seq(s_nssai)).push(opt_ie_seq(trace_information)).push(opt_ie_seq(recovery_time_stamp)).push(opt_ie_seq(cp_function_features)).push(opt_ie_seq(apn_dnn)).push(opt_ie_seq(user_plane_inactivity_timer))));
        let len = len_slot_opt(len, &ethernet_context_information, Ghost(Seq::<Seq<IeView>>::empty().push(opt_ie_seq(fseid)).push(opt_vec_seq(remove_pdrs)).push(opt_vec_seq(remove_fars)).push(opt_vec_seq(remove_urrs)).push(opt_vec_seq(remove_qers)).push(opt_vec_seq(remove_bars)).push(opt_vec_seq(remove_traffic_endpoints)).push(opt_vec_seq(create_pdrs)).push(opt_vec_seq(create_fars)).push(opt_vec_seq(create_urrs)).push(opt_vec_seq(create_qers)).push(opt_vec_seq(create_bars)).push(opt_vec_seq(create_traffic_endpoints)).push(opt_vec_seq(update_pdrs)).push(opt_vec_seq(update_fars)).push(opt_vec_seq(update_urrs)).push(opt_vec_seq(update_qers)).push(opt_vec_seq(update_bars)).push(opt_vec_seq(update_traffic_endpoints)).push(opt_ie_seq(pdn_type)).push(opt_ie_seq(user_id)).push(opt_ie_seq(s_nssai)).push(opt_ie_seq(trace_information)).push(opt_ie_seq(recovery_time_stamp)).push(opt_ie_seq(cp_function_features)).push(opt_ie_seq(apn_dnn)).push(opt_ie_seq(user_plane_inactivity_timer)).push(opt_ie_seq(pfcpsm_req_flags))));
        let len = len_slot_many(len, &ies, Ghost(Seq::<Seq<IeView>>::empty().push(opt_ie_seq(fseid)).push(opt_vec_seq(remove_pdrs)).push(opt_vec_seq(remove_fars)).push(opt_vec_seq(remove_urrs)).push(opt_vec_seq(remove_qers)).push(opt_vec_seq(remove_bars)).push(opt_vec_seq(remove_traffic_endpoints)).push(opt_vec_seq(create_pdrs)).push(opt_vec_seq(create_fars)).push(opt_vec_seq(create_urrs)).push(opt_vec_seq(create_qers)).push(opt_vec_seq(create_bars)).push(opt_vec_seq(create_traffic_endpoints)).push(opt_vec_seq(update_pdrs)).push(opt_vec_seq(update_fars)).push(opt_vec_seq(update_urrs)).push(opt_vec_seq(update_qers)).push(opt_vec_seq(update_bars)).push(opt_vec_seq(update_traffic_endpoints)).push(opt_ie_seq(pdn_type)).push(opt_ie_seq(user_id)).push(opt_ie_seq(s_nssai)).push(opt_ie_seq(trace_information)).push(opt_ie_seq(recovery_time_stamp)).push(opt_ie_seq(cp_function_features)).push(opt_ie_seq(apn_dnn)).push(opt_ie_seq(user_plane_inactivity_timer)).push(opt_ie_seq(pfcpsm_req_flags)).push(opt_ie_seq(ethernet_context_information))));
        let mut header = Header::new(MsgType::SessionModificationRequest, true, seid, seq);
        proof { lemma_len_step(ies_size(concat_slots(Seq::<Seq<IeView>>::empty().push(opt_ie_seq(fseid)).push(opt_vec_seq(remove_pdrs)).push(opt_vec_seq(remove_fars)).push(opt_vec_seq(remove_urrs)).push(opt_vec_seq(remove_qers)).push(opt_vec_seq(remove_bars)).push(opt_vec_seq(remove_traffic_endpoints)).push(opt_vec_seq(create_pdrs)).push(opt_vec_seq(create_fars)).push(opt_vec_seq(create_urrs)).push(opt_vec_seq(create_qers)).push(opt_vec_seq(create_bars)).push(opt_vec_seq(create_traffic_endpoints)).push(opt_vec_seq(update_pdrs)).push(opt_vec_seq(update_fars)).push(opt_vec_seq(update_urrs)).push(opt_vec_seq(update_qers)).push(opt_vec_seq(update_bars)).push(opt_vec_seq(update_traffic_endpoints)).push(opt_ie_seq(pdn_type)).push(opt_ie_seq(user_id)).push(opt_ie_seq(s_nssai)).push(opt_ie_seq(trace_information)).push(opt_ie_seq(recovery_time_stamp)).push(opt_ie_seq(cp_function_features)).push(opt_ie_seq(apn_dnn)).push(opt_ie_seq(user_plane_inactivity_timer)).push(opt_ie_seq(pfcpsm_req_flags)).push(opt_ie_seq(ethernet_context_information)).push(ies_view(ies@)))) as int, header_size(header) as int - 4, len as int); }
        header.length = ((len as u32 + header.len() as u32 - 4) % 65536) as u16;
        SessionModificationRequest { header, fseid, remove_pdrs, remove_fars, remove_urrs, remove_qers, remove_bars, remove_traffic_endpoints, create_pdrs, create_fars, create_urrs, create_qers, create_bars, create_traffic_endpoints, update_pdrs, update_fars, update_urrs, update_qers, update_bars, update_traffic_endpoints, pdn_type, user_id, s_nssai, trace_information, recovery_time_stamp, cp_function_features, apn_dnn, user_plane_inactivity_timer, pfcpsm_req_flags, ethernet_context_information, ies }
    }

}

impl Message for SessionModificationRequest {
    open spec fn spec_header(&self) -> Header {
        self.header
    }

    open spec fn spec_body(&self) -> Seq<IeView> {
        concat_slots(self.slots())
    }

    open spec fn spec_listed(&self) -> Seq<IeView> {
        self.listed_ies()
    }

    open spec fn spec_ies_of(&self, t: IeType) -> Seq<IeView> {
        match t {
            IeType::Fseid => opt_ie_seq(self.fseid),
            IeType::RemovePdr => opt_vec_seq(self.remove_pdrs),
            IeType::RemoveFar => opt_vec_seq(self.remove_fars),
            IeType::RemoveUrr => opt_vec_seq(self.remove_urrs),
            IeType::RemoveQer => opt_vec_seq(self.remove_qers),
            IeType::RemoveBar => opt_vec_seq(self.remove_bars),
            IeType::RemoveTrafficEndpoint => opt_vec_seq(self.remove_traffic_endpoints),
            IeType::CreatePdr => opt_vec_seq(self.create_pdrs),
            IeType::CreateFar => opt_vec_seq(self.create_fars),
            IeType::CreateUrr => opt_vec_seq(self.create_urrs),
            IeType::CreateQer => opt_vec_seq(self.create_qers),
            IeType::CreateBar => opt_vec_seq(self.create_bars),
            IeType::CreateTrafficEndpoint => opt_vec_seq(self.create_traffic_endpoints),
            IeType::UpdatePdr => opt_vec_seq(self.update_pdrs),
            IeType::UpdateFar => opt_vec_seq(self.update_fars),
            IeType::UpdateUrr => opt_vec_seq(self.update_urrs),
            IeType::UpdateQer => opt_vec_seq(self.update_qers),
            IeType::UpdateBar => opt_vec_seq(self.update_bars),
            IeType::UpdateTrafficEndpoint => opt_vec_seq(self.update_traffic_endpoints),
            IeType::PdnType => opt_ie_seq(self.pdn_type),
            IeType::UserId => opt_ie_seq(self.user_id),
            IeType::Snssai => opt_ie_seq(self.s_nssai),
            IeType::TraceInformation => opt_ie_seq(self.trace_information),
            IeType::RecoveryTimeStamp => opt_ie_seq(self.recovery_time_stamp),
            IeType::CpFunctionFeatures => opt_ie_seq(self.cp_function_features),
            IeType::ApnDnn => opt_ie_seq(self.apn_dnn),
            IeType::UserPlaneInactivityTimer => opt_ie_seq(self.user_plane_inactivity_timer),
            IeType::PfcpsmReqFlags => opt_ie_seq(self.pfcpsm_req_flags),
            IeType::EthernetContextInformation => opt_ie_seq(self.ethernet_context_information),
            _ => crate::ie::ies_of_type(ies_view(self.ies@), t),
        }
    }

    open spec fn spec_msg_type(&self) -> MsgType {
        MsgType::SessionModificationRequest
    }

    open spec fn spec_decode_error(data: Seq<u8>) -> Option<PfcpError> {
        match spec_parse_header(data) {
            Err(e) => Some(e),
            Ok(h) => match spec_parse_ies(data.skip(header_size(h) as int)) {
                Err(e) => Some(e),
                Ok(ies) => match Self::missing_ie(ies) {
                    Some(t) => Some(PfcpError::MissingMandatoryIe { ie_type: t, message_type: Some(MsgType::SessionModificationRequest) }),
                    None => None,
                },
            },
        }
    }

    open spec fn spec_decoded(data: Seq<u8>, m: Self) -> bool {
        match spec_parse_header(data) {
            Err(_) => false,
            Ok(h) => match spec_parse_ies(data.skip(header_size(h) as int)) {
                Err(_) => false,
                Ok(ies) => m.header == h && m.decodes_from(ies),
            },
        }
    }

    fn marshal_into(&self, buf: &mut Vec<u8>) {
        self.header.marshal_into(buf);
        let ghost p = buf@;
        assert(buf@ =~= p + ies_wire(concat_slots(Seq::<Seq<IeView>>::empty())));
        write_slot_opt(buf, &self.fseid, Ghost(p), Ghost(Seq::<Seq<IeView>>::empty()));
        write_slot_opt_many(buf, &self.remove_pdrs, Ghost(p), Ghost(Seq::<Seq<IeView>>::empty().push(opt_ie_seq(self.fseid))));
        write_slot_opt_many(buf, &self.remove_fars, Ghost(p), Ghost(Seq::<Seq<IeView>>::empty().push(opt_ie_seq(self.fseid)).push(opt_vec_seq(self.remove_pdrs))));
        write_slot_opt_many(buf, &self.remove_urrs, Ghost(p), Ghost(Seq::<Seq<IeView>>::empty().push(opt_ie_seq(self.fseid)).push(opt_vec_seq(self.remove_pdrs)).push(opt_vec_seq(self.remove_fars))));
        write_slot_opt_many(buf, &self.remove_qers, Ghost(p), Ghost(Seq::<Seq<IeView>>::empty().push(opt_ie_seq(self.fseid)).push(opt_vec_seq(self.remove_pdrs)).push(opt_vec_seq(self.remove_fars)).push(opt_vec_seq(self.remove_urrs))));
        write_slot_opt_many(buf, &self.remove_bars, Ghost(p), Ghost(Seq::<Seq<IeView>>::empty().push(opt_ie_seq(self.fseid)).push(opt_vec_seq(self.remove_pdrs)).push(opt_vec_seq(self.remove_fars)).push(opt_vec_seq(self.remove_urrs)).push(opt_vec_seq(self.remove_qers))));
        write_slot_opt_many(buf, &self.remove_traffic_endpoints, Ghost(p), Ghost(Seq::<Seq<IeView>>::empty().push(opt_ie_seq(self.fseid)).push(opt_vec_seq(self.remove_pdrs)).push(opt_vec_seq(self.remove_fars)).push(opt_vec_seq(self.remove_urrs)).push(opt_vec_seq(self.remove_qers)).push(opt_vec_seq(self.remove_bars))));
        write_slot_opt_many(buf, &self.create_pdrs, Ghost(p), Ghost(Seq::<Seq<IeView>>::empty().push(opt_ie_seq(self.fseid)).push(opt_vec_seq(self.remove_pdrs)).push(opt_vec_seq(self.remove_fars)).push(opt_vec_seq(self.remove_urrs)).push(opt_vec_seq(self.remove_qers)).push(opt_vec_seq(self.remove_bars)).push(opt_vec_seq(self.remove_traffic_endpoints))));
        write_slot_opt_many(buf, &self.create_fars, Ghost(p), Ghost(Seq::<Seq<IeView>>::empty().push(opt_ie_seq(self.fseid)).push(opt_vec_seq(self.remove_pdrs)).push(opt_vec_seq(self.remove_fars)).push(opt_vec_seq(self.remove_urrs)).push(opt_vec_seq(self.remove_qers)).push(opt_vec_seq(self.remove_bars)).push(opt_vec_seq(self.remove_traffic_endpoints)).push(opt_vec_seq(self.create_pdrs))));
        write_slot_opt_many(buf, &self.create_urrs, Ghost(p), Ghost(Seq::<Seq<IeView>>::empty().push(opt_ie_seq(self.fseid)).push(opt_vec_seq(self.remove_pdrs)).push(opt_vec_seq(self.remove_fars)).push(opt_vec_seq(self.remove_urrs)).push(opt_vec_seq(self.remove_qers)).push(opt_vec_seq(self.remove_bars)).push(opt_vec_seq(self.remove_traffic_endpoints)).push(opt_vec_seq(self.create_pdrs)).push(opt_vec_seq(self.create_fars))));
        write_slot_opt_many(buf, &self.create_qers, Ghost(p), Ghost(Seq::<Seq<IeView>>::empty().push(opt_ie_seq(self.fseid)).push(opt_vec_seq(self.remove_pdrs)).push(opt_vec_seq(self.remove_fars)).push(opt_vec_seq(self.remove_urrs)).push(opt_vec_seq(self.remove_qers)).push(opt_vec_seq(self.remove_bars)).push(opt_vec_seq(self.remove_traffic_endpoints)).push(opt_vec_seq(self.create_pdrs)).push(opt_vec_seq(self.create_fars)).push(opt_vec_seq(self.create_urrs))));
        write_slot_opt_many(buf, &self.create_bars, Ghost(p), Ghost(Seq::<Seq<IeView>>::empty().push(opt_ie_seq(self.fseid)).push(opt_vec_seq(self.remove_pdrs)).push(opt_vec_seq(self.remove_fars)).push(opt_vec_seq(self.remove_urrs)).push(opt_vec_seq(self.remove_qers)).push(opt_vec_seq(self.remove_bars)).push(opt_vec_seq(self.remove_traffic_endpoints)).push(opt_vec_seq(self.create_pdrs)).push(opt_vec_seq(self.create_fars)).push(opt_vec_seq(self.create_urrs)).push(opt_vec_seq(self.create_qers))));
        write_slot_opt_many(buf, &self.create_traffic_endpoints, Ghost(p), Ghost(Seq::<Seq<IeView>>::empty().push(opt_ie_seq(self.fseid)).push(opt_vec_seq(self.remove_pdrs)).push(opt_vec_seq(self.remove_fars)).push(opt_vec_seq(self.remove_urrs)).push(opt_vec_seq(self.remove_qers)).push(opt_vec_seq(self.remove_bars)).push(opt_vec_seq(self.remove_traffic_endpoints)).push(opt_vec_seq(self.create_pdrs)).push(opt_vec_seq(self.create_fars)).push(opt_vec_seq(self.create_urrs)).push(opt_vec_seq(self.create_qers)).push(opt_vec_seq(self.create_bars))));
        write_slot_opt_many(buf, &self.update_pdrs, Ghost(p), Ghost(Seq::<Seq<IeView>>::empty().push(opt_ie_seq(self.fseid)).push(opt_vec_seq(self.remove_pdrs)).push(opt_vec_seq(self.remove_fars)).push(opt_vec_seq(self.remove_urrs)).push(opt_vec_seq(self.remove_qers)).push(opt_vec_seq(self.remove_bars)).push(opt_vec_seq(self.remove_traffic_endpoints)).push(opt_vec_seq(self.create_pdrs)).push(opt_vec_seq(self.create_fars)).push(opt_vec_seq(self.create_urrs)).push(opt_vec_seq(self.create_qers)).push(opt_vec_seq(self.create_bars)).push(opt_vec_seq(self.create_traffic_endpoints))));
        write_slot_opt_many(buf, &self.update_fars, Ghost(p), Ghost(Seq::<Seq<IeView>>::empty().push(opt_ie_seq(self.fseid)).push(opt_vec_seq(self.remove_pdrs)).push(opt_vec_seq(self.remove_fars)).push(opt_vec_seq(self.remove_urrs)).push(opt_vec_seq(self.remove_qers)).push(opt_vec_seq(self.remove_bars)).push(opt_vec_seq(self.remove_traffic_endpoints)).push(opt_vec_seq(self.create_pdrs)).push(opt_vec_seq(self.create_fars)).push(opt_vec_seq(self.create_urrs)).push(opt_vec_seq(self.create_qers)).push(opt_vec_seq(self.create_bars)).push(opt_vec_seq(self.create_traffic_endpoints)).push(opt_vec_seq(self.update_pdrs))));
        write_slot_opt_many(buf, &self.update_urrs, Ghost(p), Ghost(Seq::<Seq<IeView>>::empty().push(opt_ie_seq(self.fseid)).push(opt_vec_seq(self.remove_pdrs)).push(opt_vec_seq(self.remove_fars)).push(opt_vec_seq(self.remove_urrs)).push(opt_vec_seq(self.remove_qers)).push(opt_vec_seq(self.remove_bars)).push(opt_vec_seq(self.remove_traffic_endpoints)).push(opt_vec_seq(self.create_pdrs)).push(opt_vec_seq(self.create_fars)).push(opt_vec_seq(self.create_urrs)).push(opt_vec_seq(self.create_qers)).push(opt_vec_seq(self.create_bars)).push(opt_vec_seq(self.create_traffic_endpoints)).push(opt_vec_seq(self.update_pdrs)).push(opt_vec_seq(self.update_fars))));
        write_slot_opt_many(buf, &self.update_qers, Ghost(p), Ghost(Seq::<Seq<IeView>>::empty().push(opt_ie_seq(self.fseid)).push(opt_vec_seq(self.remove_pdrs)).push(opt_vec_seq(self.remove_fars)).push(opt_vec_seq(self.remove_urrs)).push(opt_vec_seq(self.remove_qers)).push(opt_vec_seq(self.remove_bars)).push(opt_vec_seq(self.remove_traffic_endpoints)).push(opt_vec_seq(self.create_pdrs)).push(opt_vec_seq(self.create_fars)).push(opt_vec_seq(self.create_urrs)).push(opt_vec_seq(self.create_qers)).push(opt_vec_seq(self.create_bars)).push(opt_vec_seq(self.create_traffic_endpoints)).push(opt_vec_seq(self.update_pdrs)).push(opt_vec_seq(self.update_fars)).push(opt_vec_seq(self.update_urrs))));
        write_slot_opt_many(buf, &self.update_bars, Ghost(p), Ghost(Seq::<Seq<IeView>>::empty().push(opt_ie_seq(self.fseid)).push(opt_vec_seq(self.remove_pdrs)).push(opt_vec_seq(self.remove_fars)).push(opt_vec_seq(self.remove_urrs)).push(opt_vec_seq(self.remove_qers)).push(opt_vec_seq(self.remove_bars)).push(opt_vec_seq(self.remove_traffic_endpoints)).push(opt_vec_seq(self.create_pdrs)).push(opt_vec_seq(self.create_fars)).push(opt_vec_seq(self.create_urrs)).push(opt_vec_seq(self.create_qers)).push(opt_vec_seq(self.create_bars)).push(opt_vec_seq(self.create_traffic_endpoints)).push(opt_vec_seq(self.update_pdrs)).push(opt_vec_seq(self.update_fars)).push(opt_vec_seq(self.update_urrs)).push(opt_vec_seq(self.update_qers))));
        write_slot_opt_many(buf, &self.update_traffic_endpoints, Ghost(p), Ghost(Seq::<Seq<IeView>>::empty().push(opt_ie_seq(self.fseid)).push(opt_vec_seq(self.remove_pdrs)).push(opt_vec_seq(self.remove_fars)).push(opt_vec_seq(self.remove_urrs)).push(opt_vec_seq(self.remove_qers)).push(opt_vec_seq(self.remove_bars)).push(opt_vec_seq(self.remove_traffic_endpoints)).push(opt_vec_seq(self.create_pdrs)).push(opt_vec_seq(self.create_fars)).push(opt_vec_seq(self.create_urrs)).push(opt_vec_seq(self.create_qers)).push(opt_vec_seq(self.create_bars)).push(opt_vec_seq(self.create_traffic_endpoints)).push(opt_vec_seq(self.update_pdrs)).push(opt_vec_seq(self.update_fars)).push(opt_vec_seq(self.update_urrs)).push(opt_vec_seq(self.update_qers)).push(opt_vec_seq(self.update_bars))));
        write_slot_opt(buf, &self.pdn_type, Ghost(p), Ghost(Seq::<Seq<IeView>>::empty().push(opt_ie_seq(self.fseid)).push(opt_vec_seq(self.remove_pdrs)).push(opt_vec_seq(self.remove_fars)).push(opt_vec_seq(self.remove_urrs)).push(opt_vec_seq(self.remove_qers)).push(opt_vec_seq(self.remove_bars)).push(opt_vec_seq(self.remove_traffic_endpoints)).push(opt_vec_seq(self.create_pdrs)).push(opt_vec_seq(self.create_fars)).push(opt_vec_seq(self.create_urrs)).push(opt_vec_seq(self.create_qers)).push(opt_vec_seq(self.create_bars)).push(opt_vec_seq(self.create_traffic_endpoints)).push(opt_vec_seq(self.update_pdrs)).push(opt_vec_seq(self.update_fars)).push(opt_vec_seq(self.update_urrs)).push(opt_vec_seq(self.update_qers)).push(opt_vec_seq(self.update_bars)).push(opt_vec_seq(self.update_traffic_endpoints))));
        write_slot_opt(buf, &self.user_id, Ghost(p), Ghost(Seq::<Seq<IeView>>::empty().push(opt_ie_seq(self.fseid)).push(opt_vec_seq(self.remove_pdrs)).push(opt_vec_seq(self.remove_fars)).push(opt_vec_seq(self.remove_urrs)).push(opt_vec_seq(self.remove_qers)).push(opt_vec_seq(self.remove_bars)).push(opt_vec_seq(self.remove_traffic_endpoints)).push(opt_vec_seq(self.create_pdrs)).push(opt_vec_seq(self.create_fars)).push(opt_vec_seq(self.create_urrs)).push(opt_vec_seq(self.create_qers)).push(opt_vec_seq(self.create_bars)).push(opt_vec_seq(self.create_traffic_endpoints)).push(opt_vec_seq(self.update_pdrs)).push(opt_vec_seq(self.update_fars)).push(opt_vec_seq(self.update_urrs)).push(opt_vec_seq(self.update_qers)).push(opt_vec_seq(self.update_bars)).push(opt_vec_seq(self.update_traffic_endpoints)).push(opt_ie_seq(self.pdn_type))));
        write_slot_opt(buf, &self.s_nssai, Ghost(p), Ghost(Seq::<Seq<IeView>>::empty().push(opt_ie_seq(self.fseid)).push(opt_vec_seq(self.remove_pdrs)).push(opt_vec_seq(self.remove_fars)).push(opt_vec_seq(self.remove_urrs)).push(opt_vec_seq(self.remove_qers)).push(opt_vec_seq(self.remove_bars)).push(opt_vec_seq(self.remove_traffic_endpoints)).push(opt_vec_seq(self.create_pdrs)).push(opt_vec_seq(self.create_fars)).push(opt_vec_seq(self.create_urrs)).push(opt_vec_seq(self.create_qers)).push(opt_vec_seq(self.create_bars)).push(opt_vec_seq(self.create_traffic_endpoints)).push(opt_vec_seq(self.update_pdrs)).push(opt_vec_seq(self.update_fars)).push(opt_vec_seq(self.update_urrs)).push(opt_vec_seq(self.update_qers)).push(opt_vec_seq(self.update_bars)).push(opt_vec_seq(self.update_traffic_endpoints)).push(opt_ie_seq(self.pdn_type)).push(opt_ie_seq(self.user_id))));
        write_slot_opt(buf, &self.trace_information, Ghost(p), Ghost(Seq::<Seq<IeView>>::empty().push(opt_ie_seq(self.fseid)).push(opt_vec_seq(self.remove_pdrs)).push(opt_vec_seq(self.remove_fars)).push(opt_vec_seq(self.remove_urrs)).push(opt_vec_seq(self.remove_qers)).push(opt_vec_seq(self.remove_bars)).push(opt_vec_seq(self.remove_traffic_endpoints)).push(opt_vec_seq(self.create_pdrs)).push(opt_vec_seq(self.create_fars)).push(opt_vec_seq(self.create_urrs)).push(opt_vec_seq(self.create_qers)).push(opt_vec_seq(self.create_bars)).push(opt_vec_seq(self.create_traffic_endpoints)).push(opt_vec_seq(self.update_pdrs)).push(opt_vec_seq(self.update_fars)).push(opt_vec_seq(self.update_urrs)).push(opt_vec_seq(self.update_qers)).push(opt_vec_seq(self.update_bars)).push(opt_vec_seq(self.update_traffic_endpoints)).push(opt_ie_seq(self.pdn_type)).push(opt_ie_seq(self.user_id)).push(opt_ie_seq(self.s_nssai))));
        write_slot_opt(buf, &self.recovery_time_stamp, Ghost(p), Ghost(Seq::<Seq<IeView>>::empty().push(opt_ie_seq(self.fseid)).push(opt_vec_seq(self.remove_pdrs)).push(opt_vec_seq(self.remove_fars)).push(opt_vec_seq(self.remove_urrs)).push(opt_vec_seq(self.remove_qers)).push(opt_vec_seq(self.remove_bars)).push(opt_vec_seq(self.remove_traffic_endpoints)).push(opt_vec_seq(self.create_pdrs)).push(opt_vec_seq(self.create_fars)).push(opt_vec_seq(self.create_urrs)).push(opt_vec_seq(self.create_qers)).push(opt_vec_seq(self.create_bars)).push(opt_vec_seq(self.create_traffic_endpoints)).push(opt_vec_seq(self.update_pdrs)).push(opt_vec_seq(self.update_fars)).push(opt_vec_seq(self.update_urrs)).push(opt_vec_seq(self.update_qers)).push(opt_vec_seq(self.update_bars)).push(opt_vec_seq(self.update_traffic_endpoints)).push(opt_ie_seq(self.pdn_type)).push(opt_ie_seq(self.user_id)).push(opt_ie_seq(self.s_nssai)).push(opt_ie_seq(self.trace_information))));
        write_slot_opt(buf, &self.cp_function_features, Ghost(p), Ghost(Seq::<Seq<IeView>>::empty().push(opt_ie_seq(self.fseid)).push(opt_vec_seq(self.remove_pdrs)).push(opt_vec_seq(self.remove_fars)).push(opt_vec_seq(self.remove_urrs)).push(opt_vec_seq(self.remove_qers)).push(opt_vec_seq(self.remove_bars)).push(opt_vec_seq(self.remove_traffic_endpoints)).push(opt_vec_seq(self.create_pdrs)).push(opt_vec_seq(self.create_fars)).push(opt_vec_seq(self.create_urrs)).push(opt_vec_seq(self.create_qers)).push(opt_vec_seq(self.create_bars)).push(opt_vec_seq(self.create_traffic_endpoints)).push(opt_vec_seq(self.update_pdrs)).push(opt_vec_seq(self.update_fars)).push(opt_vec_seq(self.update_urrs)).push(opt_vec_seq(self.update_qers)).push(opt_vec_seq(self.update_bars)).push(opt_vec_seq(self.update_traffic_endpoints)).push(opt_ie_seq(self.pdn_type)).push(opt_ie_seq(self.user_id)).push(opt_ie_seq(self.s_nssai)).push(opt_ie_seq(self.trace_information)).push(opt_ie_seq(self.recovery_time_stamp))));
        write_slot_opt(buf, &self.apn_dnn, Ghost(p), Ghost(Seq::<Seq<IeView>>::empty().push(opt_ie_seq(self.fseid)).push(opt_vec_seq(self.remove_pdrs)).push(opt_vec_seq(self.remove_fars)).push(opt_vec_seq(self.remove_urrs)).push(opt_vec_seq(self.remove_qers)).push(opt_vec_seq(self.remove_bars)).push(opt_vec_seq(self.remove_traffic_endpoints)).push(opt_vec_seq(self.create_pdrs)).push(opt_vec_seq(self.create_fars)).push(opt_vec_seq(self.create_urrs)).push(opt_vec_seq(self.create_qers)).push(opt_vec_seq(self.create_bars)).push(opt_vec_seq(self.create_traffic_endpoints)).push(opt_vec_seq(self.update_pdrs)).push(opt_vec_seq(self.update_fars)).push(opt_vec_seq(self.update_urrs)).push(opt_vec_seq(self.update_qers)).push(opt_vec_seq(self.update_bars)).push(opt_vec_seq(self.update_traffic_endpoints)).push(opt_ie_seq(self.pdn_type)).push(opt_ie_seq(self.user_id)).push(opt_ie_seq(self.s_nssai)).push(opt_ie_seq(self.trace_information)).push(opt_ie_seq(self.recovery_time_stamp)).push(opt_ie_seq(self.cp_function_features))));
        write_slot_opt(buf, &self.user_plane_inactivity_timer, Ghost(p), Ghost(Seq::<Seq<IeView>>::empty().push(opt_ie_seq(self.fseid)).push(opt_vec_seq(self.remove_pdrs)).push(opt_vec_seq(self.remove_fars)).push(opt_vec_seq(self.remove_urrs)).push(opt_vec_seq(self.remove_qers)).push(opt_vec_seq(self.remove_bars)).push(opt_vec_seq(self.remove_traffic_endpoints)).push(opt_vec_seq(self.create_pdrs)).push(opt_vec_seq(self.create_fars)).push(opt_vec_seq(self.create_urrs)).push(opt_vec_seq(self.create_qers)).push(opt_vec_seq(self.create_bars)).push(opt_vec_seq(self.create_traffic_endpoints)).push(opt_vec_seq(self.update_pdrs)).push(opt_vec_seq(self.update_fars)).push(opt_vec_seq(self.update_urrs)).push(opt_vec_seq(self.update_qers)).push(opt_vec_seq(self.update_bars)).push(opt_vec_seq(self.update_traffic_endpoints)).push(opt_ie_seq(self.pdn_type)).push(opt_ie_seq(self.user_id)).push(opt_ie_seq(self.s_nssai)).push(opt_ie_seq(self.trace_information)).push(opt_ie_seq(self.recovery_time_stamp)).push(opt_ie_seq(self.cp_function_features)).push(opt_ie_seq(self.apn_dnn))));
        write_slot_opt(buf, &self.pfcpsm_req_flags, Ghost(p), Ghost(Seq::<Seq<IeView>>::empty().push(opt_ie_seq(self.fseid)).push(opt_vec_seq(self.remove_pdrs)).push(opt_vec_seq(self.remove_fars)).push(opt_vec_seq(self.remove_urrs)).push(opt_vec_seq(self.remove_qers)).push(opt_vec_seq(self.remove_bars)).push(opt_vec_seq(self.remove_traffic_endpoints)).push(opt_vec_seq(self.create_pdrs)).push(opt_vec_seq(self.create_fars)).push(opt_vec_seq(self.create_urrs)).push(opt_vec_seq(self.create_qers)).push(opt_vec_seq(self.create_bars)).push(opt_vec_seq(self.create_traffic_endpoints)).push(opt_vec_seq(self.update_pdrs)).push(opt_vec_seq(self.update_fars)).push(opt_vec_seq(self.update_urrs)).push(opt_vec_seq(self.update_qers)).push(opt_vec_seq(self.update_bars)).push(opt_vec_seq(self.update_traffic_endpoints)).push(opt_ie_seq(self.pdn_type)).push(opt_ie_seq(self.user_id)).push(opt_ie_seq(self.s_nssai)).push(opt_ie_seq(self.trace_information)).push(opt_ie_seq(self.recovery_time_stamp)).push(opt_ie_seq(self.cp_function_features)).push(opt_ie_seq(self.apn_dnn)).push(opt_ie_seq(self.user_plane_inactivity_timer))));
        write_slot_opt(buf, &self.ethernet_context_information, Ghost(p), Ghost(Seq::<Seq<IeView>>::empty().push(opt_ie_seq(self.fseid)).push(opt_vec_seq(self.remove_pdrs)).push(opt_vec_seq(self.remove_fars)).push(opt_vec_seq(self.remove_urrs)).push(opt_vec_seq(self.remove_qers)).push(opt_vec_seq(self.remove_bars)).push(opt_vec_seq(self.remove_traffic_endpoints)).push(opt_vec_seq(self.create_pdrs)).push(opt_vec_seq(self.create_fars)).push(opt_vec_seq(self.create_urrs)).push(opt_vec_seq(self.create_qers)).push(opt_vec_seq(self.create_bars)).push(opt_vec_seq(self.create_traffic_endpoints)).push(opt_vec_seq(self.update_pdrs)).push(opt_vec_seq(self.update_fars)).push(opt_vec_seq(self.update_urrs)).push(opt_vec_seq(self.update_qers)).push(opt_vec_seq(self.update_bars)).push(opt_vec_seq(self.update_traffic_endpoints)).push(opt_ie_seq(self.pdn_type)).push(opt_ie_seq(self.user_id)).push(opt_ie_seq(self.s_nssai)).push(opt_ie_seq(self.trace_information)).push(opt_ie_seq(self.recovery_time_stamp)).push(opt_ie_seq(self.cp_function_features)).push(opt_ie_seq(self.apn_dnn)).push(opt_ie_seq(self.user_plane_inactivity_timer)).push(opt_ie_seq(self.pfcpsm_req_flags))));
        write_slot_many(buf, &self.ies, Ghost(p), Ghost(Seq::<Seq<IeView>>::empty().push(opt_ie_seq(self.fseid)).push(opt_vec_seq(self.remove_pdrs)).push(opt_vec_seq(self.remove_fars)).push(opt_vec_seq(self.remove_urrs)).push(opt_vec_seq(self.remove_qers)).push(opt_vec_seq(self.remove_bars)).push(opt_vec_seq(self.remove_traffic_endpoints)).push(opt_vec_seq(self.create_pdrs)).push(opt_vec_seq(self.create_fars)).push(opt_vec_seq(self.create_urrs)).push(opt_vec_seq(self.create_qers)).push(opt_vec_seq(self.create_bars)).push(opt_vec_seq(self.create_traffic_endpoints)).push(opt_vec_seq(self.update_pdrs)).push(opt_vec_seq(self.update_fars)).push(opt_vec_seq(self.update_urrs)).push(opt_vec_seq(self.update_qers)).push(opt_vec_seq(self.update_bars)).push(opt_vec_seq(self.update_traffic_endpoints)).push(opt_ie_seq(self.pdn_type)).push(opt_ie_seq(self.user_id)).push(opt_ie_seq(self.s_nssai)).push(opt_ie_seq(self.trace_information)).push(opt_ie_seq(self.recovery_time_stamp)).push(opt_ie_seq(self.cp_function_features)).push(opt_ie_seq(self.apn_dnn)).push(opt_ie_seq(self.user_plane_inactivity_timer)).push(opt_ie_seq(self.pfcpsm_req_flags)).push(opt_ie_seq(self.ethernet_context_information))));
        assert(buf@ =~= old(buf)@ + header_wire(self.header) + ies_wire(concat_slots(self.slots())));
    }

    fn marshal(&self) -> (r: Vec<u8>) {
        let mut buf: Vec<u8> = Vec::new();
        self.marshal_into(&mut buf);
        assert(buf@ =~= header_wire(self.header) + ies_wire(concat_slots(self.slots())));
        buf
    }

    fn marshaled_size(&self) -> (r: usize) {
        let v = self.marshal();
        v.len()
    }

    #[verifier::rlimit(60)]
    fn unmarshal(data: &[u8]) -> (r: Result<Self, PfcpError>) {
        let header = match Header::unmarshal(data) {
            Ok(h) => h,
            Err(e) => return Err(e),
        };
        proof { lemma_parse_header_size(data@); }
        let start = header.len() as usize;
        let mut all = match parse_ies(data, start) {
            Ok(v) => v,
            Err(e) => return Err(e),
        };
        let ghost parsed = ies_view(all@);
        let ghost cls = Self::classifier();
        let mut buckets = empty_buckets(31);
        proof {
            lemma_slot_ies_empty(cls);
            assert(parsed.take(0) =~= Seq::<IeView>::empty());
            assert forall|j: int| 0 <= j < 31 implies ies_view(#[trigger] buckets@[j]@) == slot_ies(parsed.take(0), cls, j) by {
                assert(ies_view(buckets@[j]@) =~= Seq::<IeView>::empty());
            }
        }
        let ghost mut done: int = 0;
        while all.len() > 0
            invariant
                0 <= done <= parsed.len(),
                ies_view(all@) == parsed.skip(done),
                cls == Self::classifier(),
                buckets@.len() == 31,
                forall|j: int| 0 <= j < 31 ==> ies_view(#[trigger] buckets@[j]@) == slot_ies(parsed.take(done), cls, j),
            decreases all@.len(),
        {
            let ghost old_all = all@;
            let ghost old_buckets = buckets@;
            let ie = all.remove(0);
            let ghost iev = ie@;
            proof {
                assert(ies_view(old_all).len() == old_all.len());
                assert(done < parsed.len());
                assert(ies_view(old_all)[0] == old_all[0]@);
                assert(parsed.skip(done)[0] == parsed[done]);
                assert(parsed[done] == iev);
                assert(parsed.take(done + 1) =~= parsed.take(done).push(iev));
                lemma_slot_ies_push_all(parsed.take(done), iev, cls);
                assert(all@ =~= old_all.skip(1));
                assert(ies_view(all@) =~= ies_view(old_all).skip(1));
                assert(parsed.skip(done).skip(1) =~= parsed.skip(done + 1));
            }
            let c = Self::classify(ie.ie_type);
            push_bucket(&mut buckets, c, ie);
            proof {
                assert forall|j: int| 0 <= j < 31 implies ies_view(#[trigger] buckets@[j]@) == slot_ies(parsed.take(done + 1), cls, j) by {
                    if j != c {
                        assert(buckets@[j] == old_buckets[j]);
                    }
                }
                done = done + 1;
            }
        }
        proof { assert(parsed.take(done) =~= parsed); }
        let ghost bs = buckets@;
        assert(ies_view(bs[0]@) == slot_ies(parsed, cls, 0));
        assert(ies_view(bs[1]@) == slot_ies(parsed, cls, 1));
        assert(ies_view(bs[2]@) == slot_ies(parsed, cls, 2));
        assert(ies_view(bs[3]@) == slot_ies(parsed, cls, 3));
        assert(ies_view(bs[4]@) == slot_ies(parsed, cls, 4));
        assert(ies_view(bs[5]@) == slot_ies(parsed, cls, 5));
        assert(ies_view(bs[6]@) == slot_ies(parsed, cls, 6));
        assert(ies_view(bs[7]@) == slot_ies(parsed, cls, 7));
        assert(ies_view(bs[8]@) == slot_ies(parsed, cls, 8));
        assert(ies_view(bs[9]@) == slot_ies(parsed, cls, 9));
        assert(ies_view(bs[10]@) == slot_ies(parsed, cls, 10));
        assert(ies_view(bs[11]@) == slot_ies(parsed, cls, 11));
        assert(ies_view(bs[12]@) == slot_ies(parsed, cls, 12));
        assert(ies_view(bs[13]@) == slot_ies(parsed, cls, 13));
        assert(ies_view(bs[14]@) == slot_ies(parsed, cls, 14));
        assert(ies_view(bs[15]@) == slot_ies(parsed, cls, 15));
        assert(ies_view(bs[16]@) == slot_ies(parsed, cls, 16));
        assert(ies_view(bs[17]@) == slot_ies(parsed, cls, 17));
        assert(ies_view(bs[18]@) == slot_ies(parsed, cls, 18));
        assert(ies_view(bs[19]@) == slot_ies(parsed, cls, 19));
        assert(ies_view(bs[20]@) == slot_ies(parsed, cls, 20));
        assert(ies_view(bs[21]@) == slot_ies(parsed, cls, 21));
        assert(ies_view(bs[22]@) == slot_ies(parsed, cls, 22));
        assert(ies_view(bs[23]@) == slot_ies(parsed, cls, 23));
        assert(ies_view(bs[24]@) == slot_ies(parsed, cls, 24));
        assert(ies_view(bs[25]@) == slot_ies(parsed, cls, 25));
        assert(ies_view(bs[26]@) == slot_ies(parsed, cls, 26));
        assert(ies_view(bs[27]@) == slot_ies(parsed, cls, 27));
        assert(ies_view(bs[28]@) == slot_ies(parsed, cls, 28));
        assert(ies_view(bs[29]@) == slot_ies(parsed, cls, 29));
        let slot0 = last_ie(take_bucket(&mut buckets, 0, Ghost(bs)));
        assert(opt_ie_seq(slot0) == decode_slot(parsed, cls, 0, SlotKind::One));
        let slot1 = take_bucket(&mut buckets, 1, Ghost(bs));
        assert(ies_view(slot1@) == decode_slot(parsed, cls, 1, SlotKind::Many));
        let slot2 = take_bucket(&mut buckets, 2, Ghost(bs));
        assert(ies_view(slot2@) == decode_slot(parsed, cls, 2, SlotKind::Many));
        let slot3 = take_bucket(&mut buckets, 3, Ghost(bs));
        assert(ies_view(slot3@) == decode_slot(parsed, cls, 3, SlotKind::Many));
        let slot4 = take_bucket(&mut buckets, 4, Ghost(bs));
        assert(ies_view(slot4@) == decode_slot(parsed, cls, 4, SlotKind::Many));
        let slot5 = take_bucket(&mut buckets, 5, Ghost(bs));
        assert(ies_view(slot5@) == decode_slot(parsed, cls, 5, SlotKind::Many));
        let slot6 = take_bucket(&mut buckets, 6, Ghost(bs));
        assert(ies_view(slot6@) == decode_slot(parsed, cls, 6, SlotKind::Many));
        let slot7 = take_bucket(&mut buckets, 7, Ghost(bs));
        assert(ies_view(slot7@) == decode_slot(parsed, cls, 7, SlotKind::Many));
        let slot8 = take_bucket(&mut buckets, 8, Ghost(bs));
        assert(ies_view(slot8@) == decode_slot(parsed, cls, 8, SlotKind::Many));
        let slot9 = take_bucket(&mut buckets, 9, Ghost(bs));
        assert(ies_view(slot9@) == decode_slot(parsed, cls, 9, SlotKind::Many));
        let slot10 = take_bucket(&mut buckets, 10, Ghost(bs));
        assert(ies_view(slot10@) == decode_slot(parsed, cls, 10, SlotKind::Many));
        let slot11 = take_bucket(&mut buckets, 11, Ghost(bs));
        assert(ies_view(slot11@) == decode_slot(parsed, cls, 11, SlotKind::Many));
        let slot12 = take_bucket(&mut buckets, 12, Ghost(bs));
        assert(ies_view(slot12@) == decode_slot(parsed, cls, 12, SlotKind::Many));
        let slot13 = take_bucket(&mut buckets, 13, Ghost(bs));
        assert(ies_view(slot13@) == decode_slot(parsed, cls, 13, SlotKind::Many));
        let slot14 = take_bucket(&mut buckets, 14, Ghost(bs));
        assert(ies_view(slot14@) == decode_slot(parsed, cls, 14, SlotKind::Many));
        let slot15 = take_bucket(&mut buckets, 15, Ghost(bs));
        assert(ies_view(slot15@) == decode_slot(parsed, cls, 15, SlotKind::Many));
        let slot16 = take_bucket(&mut buckets, 16, Ghost(bs));
        assert(ies_view(slot16@) == decode_slot(parsed, cls, 16, SlotKind::Many));
        let slot17 = take_bucket(&mut buckets, 17, Ghost(bs));
        assert(ies_view(slot17@) == decode_slot(parsed, cls, 17, SlotKind::Many));
        let slot18 = take_bucket(&mut buckets, 18, Ghost(bs));
        assert(ies_view(slot18@) == decode_slot(parsed, cls, 18, SlotKind::Many));
        let slot19 = last_ie(take_bucket(&mut buckets, 19, Ghost(bs)));
        assert(opt_ie_seq(slot19) == decode_slot(parsed, cls, 19, SlotKind::One));
        let slot20 = last_ie(take_bucket(&mut buckets, 20, Ghost(bs)));
        assert(opt_ie_seq(slot20) == decode_slot(parsed, cls, 20, SlotKind::One));
        let slot21 = last_ie(take_bucket(&mut buckets, 21, Ghost(bs)));
        assert(opt_ie_seq(slot21) == decode_slot(parsed, cls, 21, SlotKind::One));
        let slot22 = last_ie(take_bucket(&mut buckets, 22, Ghost(bs)));
        assert(opt_ie_seq(slot22) == decode_slot(parsed, cls, 22, SlotKind::One));
        let slot23 = last_ie(take_bucket(&mut buckets, 23, Ghost(bs)));
        assert(opt_ie_seq(slot23) == decode_slot(parsed, cls, 23, SlotKind::One));
        let slot24 = last_ie(take_bucket(&mut buckets, 24, Ghost(bs)));
        assert(opt_ie_seq(slot24) == decode_slot(parsed, cls, 24, SlotKind::One));
        let slot25 = last_ie(take_bucket(&mut buckets, 25, Ghost(bs)));
        assert(opt_ie_seq(slot25) == decode_slot(parsed, cls, 25, SlotKind::One));
        let slot26 = last_ie(take_bucket(&mut buckets, 26, Ghost(bs)));
        assert(opt_ie_seq(slot26) == decode_slot(parsed, cls, 26, SlotKind::One));
        let slot27 = last_ie(take_bucket(&mut buckets, 27, Ghost(bs)));
        assert(opt_ie_seq(slot27) == decode_slot(parsed, cls, 27, SlotKind::One));
        let slot28 = last_ie(take_bucket(&mut buckets, 28, Ghost(bs)));
        assert(opt_ie_seq(slot28) == decode_slot(parsed, cls, 28, SlotKind::One));
        let slot29 = take_bucket(&mut buckets, 29, Ghost(bs));
        assert(ies_view(slot29@) == decode_slot(parsed, cls, 29, SlotKind::Many));
        let fseid = slot0;
        let remove_pdrs = if slot1.len() > 0 { Some(slot1) } else { None };
        let remove_fars = if slot2.len() > 0 { Some(slot2) } else { None };
        let remove_urrs = if slot3.len() > 0 { Some(slot3) } else { None };
        let remove_qers = if slot4.len() > 0 { Some(slot4) } else { None };
        let remove_bars = if slot5.len() > 0 { Some(slot5) } else { None };
        let remove_traffic_endpoints = if slot6.len() > 0 { Some(slot6) } else { None };
        let create_pdrs = if slot7.len() > 0 { Some(slot7) } else { None };
        let create_fars = if slot8.len() > 0 { Some(slot8) } else { None };
        let create_urrs = if slot9.len() > 0 { Some(slot9) } else { None };
        let create_qers = if slot10.len() > 0 { Some(slot10) } else { None };
        let create_bars = if slot11.len() > 0 { Some(slot11) } else { None };
        let create_traffic_endpoints = if slot12.len() > 0 { Some(slot12) } else { None };
        let update_pdrs = if slot13.len() > 0 { Some(slot13) } else { None };
        let update_fars = if slot14.len() > 0 { Some(slot14) } else { None };
        let update_urrs = if slot15.len() > 0 { Some(slot15) } else { None };
        let update_qers = if slot16.len() > 0 { Some(slot16) } else { None };
        let update_bars = if slot17.len() > 0 { Some(slot17) } else { None };
        let update_traffic_endpoints = if slot18.len() > 0 { Some(slot18) } else { None };
        let pdn_type = slot19;
        let user_id = slot20;
        let s_nssai = slot21;
        let trace_information = slot22;
        let recovery_time_stamp = slot23;
        let cp_function_features = slot24;
        let apn_dnn = slot25;
        let user_plane_inactivity_timer = slot26;
        let pfcpsm_req_flags = slot27;
        let ethernet_context_information = slot28;
        let ies = slot29;
        let r = SessionModificationRequest { header, fseid, remove_pdrs, remove_fars, remove_urrs, remove_qers, remove_bars, remove_traffic_endpoints, create_pdrs, create_fars, create_urrs, create_qers, create_bars, create_traffic_endpoints, update_pdrs, update_fars, update_urrs, update_qers, update_bars, update_traffic_endpoints, pdn_type, user_id, s_nssai, trace_information, recovery_time_stamp, cp_function_features, apn_dnn, user_plane_inactivity_timer, pfcpsm_req_flags, ethernet_context_information, ies };
        assert(opt_vec_seq(r.remove_pdrs) =~= decode_slot(parsed, cls, 1, SlotKind::Many));
        assert(opt_vec_seq(r.remove_fars) =~= decode_slot(parsed, cls, 2, SlotKind::Many));
        assert(opt_vec_seq(r.remove_urrs) =~= decode_slot(parsed, cls, 3, SlotKind::Many));
        assert(opt_vec_seq(r.remove_qers) =~= decode_slot(parsed, cls, 4, SlotKind::Many));
        assert(opt_vec_seq(r.remove_bars) =~= decode_slot(parsed, cls, 5, SlotKind::Many));
        assert(opt_vec_seq(r.remove_traffic_endpoints) =~= decode_slot(parsed, cls, 6, SlotKind::Many));
        assert(opt_vec_seq(r.create_pdrs) =~= decode_slot(parsed, cls, 7, SlotKind::Many));
        assert(opt_vec_seq(r.create_fars) =~= decode_slot(parsed, cls, 8, SlotKind::Many));
        assert(opt_vec_seq(r.create_urrs) =~= decode_slot(parsed, cls, 9, SlotKind::Many));
        assert(opt_vec_seq(r.create_qers) =~= decode_slot(parsed, cls, 10, SlotKind::Many));
        assert(opt_vec_seq(r.create_bars) =~= decode_slot(parsed, cls, 11, SlotKind::Many));
        assert(opt_vec_seq(r.create_traffic_endpoints) =~= decode_slot(parsed, cls, 12, SlotKind::Many));
        assert(opt_vec_seq(r.update_pdrs) =~= decode_slot(parsed, cls, 13, SlotKind::Many));
        assert(opt_vec_seq(r.update_fars) =~= decode_slot(parsed, cls, 14, SlotKind::Many));
        assert(opt_vec_seq(r.update_urrs) =~= decode_slot(parsed, cls, 15, SlotKind::Many));
        assert(opt_vec_seq(r.update_qers) =~= decode_slot(parsed, cls, 16, SlotKind::Many));
        assert(opt_vec_seq(r.update_bars) =~= decode_slot(parsed, cls, 17, SlotKind::Many));
        assert(opt_vec_seq(r.update_traffic_endpoints) =~= decode_slot(parsed, cls, 18, SlotKind::Many));
        Ok(r)
    }

    fn msg_type(&self) -> (r: MsgType) {
        MsgType::SessionModificationRequest
    }

    fn msg_name(&self) -> (r: String) {
        MsgType::SessionModificationRequest.name().to_owned()
    }

    fn version(&self) -> (r: u8) {
        1
    }

    fn seid(&self) -> (r: Option<u64>) {
        if self.header.has_seid {
            Some(self.header.seid)
        } else {
            None
        }
    }

    fn sequence(&self) -> (r: u32) {
        self.header.sequence_number
    }

    fn set_sequence(&mut self, seq: u32) {
        self.header.sequence_number = seq;
    }

    fn ies(&self, ie_type: IeType) -> (r: IeIter<'_>) {
        match ie_type {
            IeType::Fseid => match &self.fseid { Some(x) => IeIter::single(Some(x), ie_type), None => IeIter::single(None, ie_type) },
            IeType::RemovePdr => match &self.remove_pdrs { Some(v) => IeIter::multiple(v.as_slice(), ie_type), None => IeIter::single(None, ie_type) },
            IeType::RemoveFar => match &self.remove_fars { Some(v) => IeIter::multiple(v.as_slice(), ie_type), None => IeIter::single(None, ie_type) },
            IeType::RemoveUrr => match &self.remove_urrs { Some(v) => IeIter::multiple(v.as_slice(), ie_type), None => IeIter::single(None, ie_type) },
            IeType::RemoveQer => match &self.remove_qers { Some(v) => IeIter::multiple(v.as_slice(), ie_type), None => IeIter::single(None, ie_type) },
            IeType::RemoveBar => match &self.remove_bars { Some(v) => IeIter::multiple(v.as_slice(), ie_type), None => IeIter::single(None, ie_type) },
            IeType::RemoveTrafficEndpoint => match &self.remove_traffic_endpoints { Some(v) => IeIter::multiple(v.as_slice(), ie_type), None => IeIter::single(None, ie_type) },
            IeType::CreatePdr => match &self.create_pdrs { Some(v) => IeIter::multiple(v.as_slice(), ie_type), None => IeIter::single(None, ie_type) },
            IeType::CreateFar => match &self.create_fars { Some(v) => IeIter::multiple(v.as_slice(), ie_type), None => IeIter::single(None, ie_type) },
            IeType::CreateUrr => match &self.create_urrs { Some(v) => IeIter::multiple(v.as_slice(), ie_type), None => IeIter::single(None, ie_type) },
            IeType::CreateQer => match &self.create_qers { Some(v) => IeIter::multiple(v.as_slice(), ie_type), None => IeIter::single(None, ie_type) },
            IeType::CreateBar => match &self.create_bars { Some(v) => IeIter::multiple(v.as_slice(), ie_type), None => IeIter::single(None, ie_type) },
            IeType::CreateTrafficEndpoint => match &self.create_traffic_endpoints { Some(v) => IeIter::multiple(v.as_slice(), ie_type), None => IeIter::single(None, ie_type) },
            IeType::UpdatePdr => match &self.update_pdrs { Some(v) => IeIter::multiple(v.as_slice(), ie_type), None => IeIter::single(None, ie_type) },
            IeType::UpdateFar => match &self.update_fars { Some(v) => IeIter::multiple(v.as_slice(), ie_type), None => IeIter::single(None, ie_type) },
            IeType::UpdateUrr => match &self.update_urrs { Some(v) => IeIter::multiple(v.as_slice(), ie_type), None => IeIter::single(None, ie_type) },
            IeType::UpdateQer => match &self.update_qers { Some(v) => IeIter::multiple(v.as_slice(), ie_type), None => IeIter::single(None, ie_type) },
            IeType::UpdateBar => match &self.update_bars { Some(v) => IeIter::multiple(v.as_slice(), ie_type), None => IeIter::single(None, ie_type) },
            IeType::UpdateTrafficEndpoint => match &self.update_traffic_endpoints { Some(v) => IeIter::multiple(v.as_slice(), ie_type), None => IeIter::single(None, ie_type) },
            IeType::PdnType => match &self.pdn_type { Some(x) => IeIter::single(Some(x), ie_type), None => IeIter::single(None, ie_type) },
            IeType::UserId => match &self.user_id { Some(x) => IeIter::single(Some(x), ie_type), None => IeIter::single(None, ie_type) },
            IeType::Snssai => match &self.s_nssai { Some(x) => IeIter::single(Some(x), ie_type), None => IeIter::single(None, ie_type) },
            IeType::TraceInformation => match &self.trace_information { Some(x) => IeIter::single(Some(x), ie_type), None => IeIter::single(None, ie_type) },
            IeType::RecoveryTimeStamp => match &self.recovery_time_stamp { Some(x) => IeIter::single(Some(x), ie_type), None => IeIter::single(None, ie_type) },
            IeType::CpFunctionFeatures => match &self.cp_function_features { Some(x) => IeIter::single(Some(x), ie_type), None => IeIter::single(None, ie_type) },
            IeType::ApnDnn => match &self.apn_dnn { Some(x) => IeIter::single(Some(x), ie_type), None => IeIter::single(None, ie_type) },
            IeType::UserPlaneInactivityTimer => match &self.user_plane_inactivity_timer { Some(x) => IeIter::single(Some(x), ie_type), None => IeIter::single(None, ie_type) },
            IeType::PfcpsmReqFlags => match &self.pfcpsm_req_flags { Some(x) => IeIter::single(Some(x), ie_type), None => IeIter::single(None, ie_type) },
            IeType::EthernetContextInformation => match &self.ethernet_context_information { Some(x) => IeIter::single(Some(x), ie_type), None => IeIter::single(None, ie_type) },
            _ => IeIter::generic(self.ies.as_slice(), ie_type),
        }
    }

    fn find_ie(&self, ie_type: IeType) -> (r: Option<&Ie>) {
        let mut it = self.ies(ie_type);
        it.next()
    }

    fn find_all_ies(&self, ie_type: IeType) -> (r: Vec<&Ie>) {
        self.ies(ie_type).collect()
    }

    fn all_ies(&self) -> (r: Vec<&Ie>) {
        let mut out: Vec<&Ie> = Vec::new();
        assert(ie_refs_view(out@) =~= concat_slots(Seq::<Seq<IeView>>::empty()));
        list_slot_opt(&mut out, &self.fseid, Ghost(Seq::<Seq<IeView>>::empty()));
        list_slot_opt_many(&mut out, &self.remove_pdrs, Ghost(Seq::<Seq<IeView>>::empty().push(opt_ie_seq(self.fseid))));
        list_slot_opt_many(&mut out, &self.remove_fars, Ghost(Seq::<Seq<IeView>>::empty().push(opt_ie_seq(self.fseid)).push(opt_vec_seq(self.remove_pdrs))));
        list_slot_opt_many(&mut out, &self.remove_urrs, Ghost(Seq::<Seq<IeView>>::empty().push(opt_ie_seq(self.fseid)).push(opt_vec_seq(self.remove_pdrs)).push(opt_vec_seq(self.remove_fars))));
        list_slot_opt_many(&mut out, &self.remove_qers, Ghost(Seq::<Seq<IeView>>::empty().push(opt_ie_seq(self.fseid)).push(opt_vec_seq(self.remove_pdrs)).push(opt_vec_seq(self.remove_fars)).push(opt_vec_seq(self.remove_urrs))));
        list_slot_opt_many(&mut out, &self.remove_bars, Ghost(Seq::<Seq<IeView>>::empty().push(opt_ie_seq(self.fseid)).push(opt_vec_seq(self.remove_pdrs)).push(opt_vec_seq(self.remove_fars)).push(opt_vec_seq(self.remove_urrs)).push(opt_vec_seq(self.remove_qers))));
        list_slot_opt_many(&mut out, &self.remove_traffic_endpoints, Ghost(Seq::<Seq<IeView>>::empty().push(opt_ie_seq(self.fseid)).push(opt_vec_seq(self.remove_pdrs)).push(opt_vec_seq(self.remove_fars)).push(opt_vec_seq(self.remove_urrs)).push(opt_vec_seq(self.remove_qers)).push(opt_vec_seq(self.remove_bars))));
        list_slot_opt_many(&mut out, &self.create_pdrs, Ghost(Seq::<Seq<IeView>>::empty().push(opt_ie_seq(self.fseid)).push(opt_vec_seq(self.remove_pdrs)).push(opt_vec_seq(self.remove_fars)).push(opt_vec_seq(self.remove_urrs)).push(opt_vec_seq(self.remove_qers)).push(opt_vec_seq(self.remove_bars)).push(opt_vec_seq(self.remove_traffic_endpoints))));
        list_slot_opt_many(&mut out, &self.create_fars, Ghost(Seq::<Seq<IeView>>::empty().push(opt_ie_seq(self.fseid)).push(opt_vec_seq(self.remove_pdrs)).push(opt_vec_seq(self.remove_fars)).push(opt_vec_seq(self.remove_urrs)).push(opt_vec_seq(self.remove_qers)).push(opt_vec_seq(self.remove_bars)).push(opt_vec_seq(self.remove_traffic_endpoints)).push(opt_vec_seq(self.create_pdrs))));
        list_slot_opt_many(&mut out, &self.create_urrs, Ghost(Seq::<Seq<IeView>>::empty().push(opt_ie_seq(self.fseid)).push(opt_vec_seq(self.remove_pdrs)).push(opt_vec_seq(self.remove_fars)).push(opt_vec_seq(self.remove_urrs)).push(opt_vec_seq(self.remove_qers)).push(opt_vec_seq(self.remove_bars)).push(opt_vec_seq(self.remove_traffic_endpoints)).push(opt_vec_seq(self.create_pdrs)).push(opt_vec_seq(self.create_fars))));
        list_slot_opt_many(&mut out, &self.create_qers, Ghost(Seq::<Seq<IeView>>::empty().push(opt_ie_seq(self.fseid)).push(opt_vec_seq(self.remove_pdrs)).push(opt_vec_seq(self.remove_fars)).push(opt_vec_seq(self.remove_urrs)).push(opt_vec_seq(self.remove_qers)).push(opt_vec_seq(self.remove_bars)).push(opt_vec_seq(self.remove_traffic_endpoints)).push(opt_vec_seq(self.create_pdrs)).push(opt_vec_seq(self.create_fars)).push(opt_vec_seq(self.create_urrs))));
        list_slot_opt_many(&mut out, &self.create_bars, Ghost(Seq::<Seq<IeView>>::empty().push(opt_ie_seq(self.fseid)).push(opt_vec_seq(self.remove_pdrs)).push(opt_vec_seq(self.remove_fars)).push(opt_vec_seq(self.remove_urrs)).push(opt_vec_seq(self.remove_qers)).push(opt_vec_seq(self.remove_bars)).push(opt_vec_seq(self.remove_traffic_endpoints)).push(opt_vec_seq(self.create_pdrs)).push(opt_vec_seq(self.create_fars)).push(opt_vec_seq(self.create_urrs)).push(opt_vec_seq(self.create_qers))));
        list_slot_opt_many(&mut out, &self.create_traffic_endpoints, Ghost(Seq::<Seq<IeView>>::empty().push(opt_ie_seq(self.fseid)).push(opt_vec_seq(self.remove_pdrs)).push(opt_vec_seq(self.remove_fars)).push(opt_vec_seq(self.remove_urrs)).push(opt_vec_seq(self.remove_qers)).push(opt_vec_seq(self.remove_bars)).push(opt_vec_seq(self.remove_traffic_endpoints)).push(opt_vec_seq(self.create_pdrs)).push(opt_vec_seq(self.create_fars)).push(opt_vec_seq(self.create_urrs)).push(opt_vec_seq(self.create_qers)).push(opt_vec_seq(self.create_bars))));
        list_slot_opt_many(&mut out, &self.update_pdrs, Ghost(Seq::<Seq<IeView>>::empty().push(opt_ie_seq(self.fseid)).push(opt_vec_seq(self.remove_pdrs)).push(opt_vec_seq(self.remove_fars)).push(opt_vec_seq(self.remove_urrs)).push(opt_vec_seq(self.remove_qers)).push(opt_vec_seq(self.remove_bars)).push(opt_vec_seq(self.remove_traffic_endpoints)).push(opt_vec_seq(self.create_pdrs)).push(opt_vec_seq(self.create_fars)).push(opt_vec_seq(self.create_urrs)).push(opt_vec_seq(self.create_qers)).push(opt_vec_seq(self.create_bars)).push(opt_vec_seq(self.create_traffic_endpoints))));
        list_slot_opt_many(&mut out, &self.update_fars, Ghost(Seq::<Seq<IeView>>::empty().push(opt_ie_seq(self.fseid)).push(opt_vec_seq(self.remove_pdrs)).push(opt_vec_seq(self.remove_fars)).push(opt_vec_seq(self.remove_urrs)).push(opt_vec_seq(self.remove_qers)).push(opt_vec_seq(self.remove_bars)).push(opt_vec_seq(self.remove_traffic_endpoints)).push(opt_vec_seq(self.create_pdrs)).push(opt_vec_seq(self.create_fars)).push(opt_vec_seq(self.create_urrs)).push(opt_vec_seq(self.create_qers)).push(opt_vec_seq(self.create_bars)).push(opt_vec_seq(self.create_traffic_endpoints)).push(opt_vec_seq(self.update_pdrs))));
        list_slot_opt_many(&mut out, &self.update_urrs, Ghost(Seq::<Seq<IeView>>::empty().push(opt_ie_seq(self.fseid)).push(opt_vec_seq(self.remove_pdrs)).push(opt_vec_seq(self.remove_fars)).push(opt_vec_seq(self.remove_urrs)).push(opt_vec_seq(self.remove_qers)).push(opt_vec_seq(self.remove_bars)).push(opt_vec_seq(self.remove_traffic_endpoints)).push(opt_vec_seq(self.create_pdrs)).push(opt_vec_seq(self.create_fars)).push(opt_vec_seq(self.create_urrs)).push(opt_vec_seq(self.create_qers)).push(opt_vec_seq(self.create_bars)).push(opt_vec_seq(self.create_traffic_endpoints)).push(opt_vec_seq(self.update_pdrs)).push(opt_vec_seq(self.update_fars))));
        list_slot_opt_many(&mut out, &self.update_qers, Ghost(Seq::<Seq<IeView>>::empty().push(opt_ie_seq(self.fseid)).push(opt_vec_seq(self.remove_pdrs)).push(opt_vec_seq(self.remove_fars)).push(opt_vec_seq(self.remove_urrs)).push(opt_vec_seq(self.remove_qers)).push(opt_vec_seq(self.remove_bars)).push(opt_vec_seq(self.remove_traffic_endpoints)).push(opt_vec_seq(self.create_pdrs)).push(opt_vec_seq(self.create_fars)).push(opt_vec_seq(self.create_urrs)).push(opt_vec_seq(self.create_qers)).push(opt_vec_seq(self.create_bars)).push(opt_vec_seq(self.create_traffic_endpoints)).push(opt_vec_seq(self.update_pdrs)).push(opt_vec_seq(self.update_fars)).push(opt_vec_seq(self.update_urrs))));
        list_slot_opt_many(&mut out, &self.update_bars, Ghost(Seq::<Seq<IeView>>::empty().push(opt_ie_seq(self.fseid)).push(opt_vec_seq(self.remove_pdrs)).push(opt_vec_seq(self.remove_fars)).push(opt_vec_seq(self.remove_urrs)).push(opt_vec_seq(self.remove_qers)).push(opt_vec_seq(self.remove_bars)).push(opt_vec_seq(self.remove_traffic_endpoints)).push(opt_vec_seq(self.create_pdrs)).push(opt_vec_seq(self.create_fars)).push(opt_vec_seq(self.create_urrs)).push(opt_vec_seq(self.create_qers)).push(opt_vec_seq(self.create_bars)).push(opt_vec_seq(self.create_traffic_endpoints)).push(opt_vec_seq(self.update_pdrs)).push(opt_vec_seq(self.update_fars)).push(opt_vec_seq(self.update_urrs)).push(opt_vec_seq(self.update_qers))));
        list_slot_opt_many(&mut out, &self.update_traffic_endpoints, Ghost(Seq::<Seq<IeView>>::empty().push(opt_ie_seq(self.fseid)).push(opt_vec_seq(self.remove_pdrs)).push(opt_vec_seq(self.remove_fars)).push(opt_vec_seq(self.remove_urrs)).push(opt_vec_seq(self.remove_qers)).push(opt_vec_seq(self.remove_bars)).push(opt_vec_seq(self.remove_traffic_endpoints)).push(opt_vec_seq(self.create_pdrs)).push(opt_vec_seq(self.create_fars)).push(opt_vec_seq(self.create_urrs)).push(opt_vec_seq(self.create_qers)).push(opt_vec_seq(self.create_bars)).push(opt_vec_seq(self.create_traffic_endpoints)).push(opt_vec_seq(self.update_pdrs)).push(opt_vec_seq(self.update_fars)).push(opt_vec_seq(self.update_urrs)).push(opt_vec_seq(self.update_qers)).push(opt_vec_seq(self.update_bars))));
        list_slot_opt(&mut out, &self.pdn_type, Ghost(Seq::<Seq<IeView>>::empty().push(opt_ie_seq(self.fseid)).push(opt_vec_seq(self.remove_pdrs)).push(opt_vec_seq(self.remove_fars)).push(opt_vec_seq(self.remove_urrs)).push(opt_vec_seq(self.remove_qers)).push(opt_vec_seq(self.remove_bars)).push(opt_vec_seq(self.remove_traffic_endpoints)).push(opt_vec_seq(self.create_pdrs)).push(opt_vec_seq(self.create_fars)).push(opt_vec_seq(self.create_urrs)).push(opt_vec_seq(self.create_qers)).push(opt_vec_seq(self.create_bars)).push(opt_vec_seq(self.create_traffic_endpoints)).push(opt_vec_seq(self.update_pdrs)).push(opt_vec_seq(self.update_fars)).push(opt_vec_seq(self.update_urrs)).push(opt_vec_seq(self.update_qers)).push(opt_vec_seq(self.update_bars)).push(opt_vec_seq(self.update_traffic_endpoints))));
        list_slot_opt(&mut out, &self.user_id, Ghost(Seq::<Seq<IeView>>::empty().push(opt_ie_seq(self.fseid)).push(opt_vec_seq(self.remove_pdrs)).push(opt_vec_seq(self.remove_fars)).push(opt_vec_seq(self.remove_urrs)).push(opt_vec_seq(self.remove_qers)).push(opt_vec_seq(self.remove_bars)).push(opt_vec_seq(self.remove_traffic_endpoints)).push(opt_vec_seq(self.create_pdrs)).push(opt_vec_seq(self.create_fars)).push(opt_vec_seq(self.create_urrs)).push(opt_vec_seq(self.create_qers)).push(opt_vec_seq(self.create_bars)).push(opt_vec_seq(self.create_traffic_endpoints)).push(opt_vec_seq(self.update_pdrs)).push(opt_vec_seq(self.update_fars)).push(opt_vec_seq(self.update_urrs)).push(opt_vec_seq(self.update_qers)).push(opt_vec_seq(self.update_bars)).push(opt_vec_seq(self.update_traffic_endpoints)).push(opt_ie_seq(self.pdn_type))));
        list_slot_opt(&mut out, &self.s_nssai, Ghost(Seq::<Seq<IeView>>::empty().push(opt_ie_seq(self.fseid)).push(opt_vec_seq(self.remove_pdrs)).push(opt_vec_seq(self.remove_fars)).push(opt_vec_seq(self.remove_urrs)).push(opt_vec_seq(self.remove_qers)).push(opt_vec_seq(self.remove_bars)).push(opt_vec_seq(self.remove_traffic_endpoints)).push(opt_vec_seq(self.create_pdrs)).push(opt_vec_seq(self.create_fars)).push(opt_vec_seq(self.create_urrs)).push(opt_vec_seq(self.create_qers)).push(opt_vec_seq(self.create_bars)).push(opt_vec_seq(self.create_traffic_endpoints)).push(opt_vec_seq(self.update_pdrs)).push(opt_vec_seq(self.update_fars)).push(opt_vec_seq(self.update_urrs)).push(opt_vec_seq(self.update_qers)).push(opt_vec_seq(self.update_bars)).push(opt_vec_seq(self.update_traffic_endpoints)).push(opt_ie_seq(self.pdn_type)).push(opt_ie_seq(self.user_id))));
        list_slot_opt(&mut out, &self.trace_information, Ghost(Seq::<Seq<IeView>>::empty().push(opt_ie_seq(self.fseid)).push(opt_vec_seq(self.remove_pdrs)).push(opt_vec_seq(self.remove_fars)).push(opt_vec_seq(self.remove_urrs)).push(opt_vec_seq(self.remove_qers)).push(opt_vec_seq(self.remove_bars)).push(opt_vec_seq(self.remove_traffic_endpoints)).push(opt_vec_seq(self.create_pdrs)).push(opt_vec_seq(self.create_fars)).push(opt_vec_seq(self.create_urrs)).push(opt_vec_seq(self.create_qers)).push(opt_vec_seq(self.create_bars)).push(opt_vec_seq(self.create_traffic_endpoints)).push(opt_vec_seq(self.update_pdrs)).push(opt_vec_seq(self.update_fars)).push(opt_vec_seq(self.update_urrs)).push(opt_vec_seq(self.update_qers)).push(opt_vec_seq(self.update_bars)).push(opt_vec_seq(self.update_traffic_endpoints)).push(opt_ie_seq(self.pdn_type)).push(opt_ie_seq(self.user_id)).push(opt_ie_seq(self.s_nssai))));
        list_slot_opt(&mut out, &self.recovery_time_stamp, Ghost(Seq::<Seq<IeView>>::empty().push(opt_ie_seq(self.fseid)).push(opt_vec_seq(self.remove_pdrs)).push(opt_vec_seq(self.remove_fars)).push(opt_vec_seq(self.remove_urrs)).push(opt_vec_seq(self.remove_qers)).push(opt_vec_seq(self.remove_bars)).push(opt_vec_seq(self.remove_traffic_endpoints)).push(opt_vec_seq(self.create_pdrs)).push(opt_vec_seq(self.create_fars)).push(opt_vec_seq(self.create_urrs)).push(opt_vec_seq(self.create_qers)).push(opt_vec_seq(self.create_bars)).push(opt_vec_seq(self.create_traffic_endpoints)).push(opt_vec_seq(self.update_pdrs)).push(opt_vec_seq(self.update_fars)).push(opt_vec_seq(self.update_urrs)).push(opt_vec_seq(self.update_qers)).push(opt_vec_seq(self.update_bars)).push(opt_vec_seq(self.update_traffic_endpoints)).push(opt_ie_seq(self.pdn_type)).push(opt_ie_seq(self.user_id)).push(opt_ie_seq(self.s_nssai)).push(opt_ie_seq(self.trace_information))));
        list_slot_opt(&mut out, &self.cp_function_features, Ghost(Seq::<Seq<IeView>>::empty().push(opt_ie_seq(self.fseid)).push(opt_vec_seq(self.remove_pdrs)).push(opt_vec_seq(self.remove_fars)).push(opt_vec_seq(self.remove_urrs)).push(opt_vec_seq(self.remove_qers)).push(opt_vec_seq(self.remove_bars)).push(opt_vec_seq(self.remove_traffic_endpoints)).push(opt_vec_seq(self.create_pdrs)).push(opt_vec_seq(self.create_fars)).push(opt_vec_seq(self.create_urrs)).push(opt_vec_seq(self.create_qers)).push(opt_vec_seq(self.create_bars)).push(opt_vec_seq(self.create_traffic_endpoints)).push(opt_vec_seq(self.update_pdrs)).push(opt_vec_seq(self.update_fars)).push(opt_vec_seq(self.update_urrs)).push(opt_vec_seq(self.update_qers)).push(opt_vec_seq(self.update_bars)).push(opt_vec_seq(self.update_traffic_endpoints)).push(opt_ie_seq(self.pdn_type)).push(opt_ie_seq(self.user_id)).push(opt_ie_seq(self.s_nssai)).push(opt_ie_seq(self.trace_information)).push(opt_ie_seq(self.recovery_time_stamp))));
        list_slot_opt(&mut out, &self.apn_dnn, Ghost(Seq::<Seq<IeView>>::empty().push(opt_ie_seq(self.fseid)).push(opt_vec_seq(self.remove_pdrs)).push(opt_vec_seq(self.remove_fars)).push(opt_vec_seq(self.remove_urrs)).push(opt_vec_seq(self.remove_qers)).push(opt_vec_seq(self.remove_bars)).push(opt_vec_seq(self.remove_traffic_endpoints)).push(opt_vec_seq(self.create_pdrs)).push(opt_vec_seq(self.create_fars)).push(opt_vec_seq(self.create_urrs)).push(opt_vec_seq(self.create_qers)).push(opt_vec_seq(self.create_bars)).push(opt_vec_seq(self.create_traffic_endpoints)).push(opt_vec_seq(self.update_pdrs)).push(opt_vec_seq(self.update_fars)).push(opt_vec_seq(self.update_urrs)).push(opt_vec_seq(self.update_qers)).push(opt_vec_seq(self.update_bars)).push(opt_vec_seq(self.update_traffic_endpoints)).push(opt_ie_seq(self.pdn_type)).push(opt_ie_seq(self.user_id)).push(opt_ie_seq(self.s_nssai)).push(opt_ie_seq(self.trace_information)).push(opt_ie_seq(self.recovery_time_stamp)).push(opt_ie_seq(self.cp_function_features))));
        list_slot_opt(&mut out, &self.user_plane_inactivity_timer, Ghost(Seq::<Seq<IeView>>::empty().push(opt_ie_seq(self.fseid)).push(opt_vec_seq(self.remove_pdrs)).push(opt_vec_seq(self.remove_fars)).push(opt_vec_seq(self.remove_urrs)).push(opt_vec_seq(self.remove_qers)).push(opt_vec_seq(self.remove_bars)).push(opt_vec_seq(self.remove_traffic_endpoints)).push(opt_vec_seq(self.create_pdrs)).push(opt_vec_seq(self.create_fars)).push(opt_vec_seq(self.create_urrs)).push(opt_vec_seq(self.create_qers)).push(opt_vec_seq(self.create_bars)).push(opt_vec_seq(self.create_traffic_endpoints)).push(opt_vec_seq(self.update_pdrs)).push(opt_vec_seq(self.update_fars)).push(opt_vec_seq(self.update_urrs)).push(opt_vec_seq(self.update_qers)).push(opt_vec_seq(self.update_bars)).push(opt_vec_seq(self.update_traffic_endpoints)).push(opt_ie_seq(self.pdn_type)).push(opt_ie_seq(self.user_id)).push(opt_ie_seq(self.s_nssai)).push(opt_ie_seq(self.trace_information)).push(opt_ie_seq(self.recovery_time_stamp)).push(opt_ie_seq(self.cp_function_features)).push(opt_ie_seq(self.apn_dnn))));
        list_slot_opt(&mut out, &self.pfcpsm_req_flags, Ghost(Seq::<Seq<IeView>>::empty().push(opt_ie_seq(self.fseid)).push(opt_vec_seq(self.remove_pdrs)).push(opt_vec_seq(self.remove_fars)).push(opt_vec_seq(self.remove_urrs)).push(opt_vec_seq(self.remove_qers)).push(opt_vec_seq(self.remove_bars)).push(opt_vec_seq(self.remove_traffic_endpoints)).push(opt_vec_seq(self.create_pdrs)).push(opt_vec_seq(self.create_fars)).push(opt_vec_seq(self.create_urrs)).push(opt_vec_seq(self.create_qers)).push(opt_vec_seq(self.create_bars)).push(opt_vec_seq(self.create_traffic_endpoints)).push(opt_vec_seq(self.update_pdrs)).push(opt_vec_seq(self.update_fars)).push(opt_vec_seq(self.update_urrs)).push(opt_vec_seq(self.update_qers)).push(opt_vec_seq(self.update_bars)).push(opt_vec_seq(self.update_traffic_endpoints)).push(opt_ie_seq(self.pdn_type)).push(opt_ie_seq(self.user_id)).push(opt_ie_seq(self.s_nssai)).push(opt_ie_seq(self.trace_information)).push(opt_ie_seq(self.recovery_time_stamp)).push(opt_ie_seq(self.cp_function_features)).push(opt_ie_seq(self.apn_dnn)).push(opt_ie_seq(self.user_plane_inactivity_timer))));
        list_slot_opt(&mut out, &self.ethernet_context_information, Ghost(Seq::<Seq<IeView>>::empty().push(opt_ie_seq(self.fseid)).push(opt_vec_seq(self.remove_pdrs)).push(opt_vec_seq(self.remove_fars)).push(opt_vec_seq(self.remove_urrs)).push(opt_vec_seq(self.remove_qers)).push(opt_vec_seq(self.remove_bars)).push(opt_vec_seq(self.remove_traffic_endpoints)).push(opt_vec_seq(self.create_pdrs)).push(opt_vec_seq(self.create_fars)).push(opt_vec_seq(self.create_urrs)).push(opt_vec_seq(self.create_qers)).push(opt_vec_seq(self.create_bars)).push(opt_vec_seq(self.create_traffic_endpoints)).push(opt_vec_seq(self.update_pdrs)).push(opt_vec_seq(self.update_fars)).push(opt_vec_seq(self.update_urrs)).push(opt_vec_seq(self.update_qers)).push(opt_vec_seq(self.update_bars)).push(opt_vec_seq(self.update_traffic_endpoints)).push(opt_ie_seq(self.pdn_type)).push(opt_ie_seq(self.user_id)).push(opt_ie_seq(self.s_nssai)).push(opt_ie_seq(self.trace_information)).push(opt_ie_seq(self.recovery_time_stamp)).push(opt_ie_seq(self.cp_function_features)).push(opt_ie_seq(self.apn_dnn)).push(opt_ie_seq(self.user_plane_inactivity_timer)).push(opt_ie_seq(self.pfcpsm_req_flags))));
        list_slot_many(&mut out, &self.ies, Ghost(Seq::<Seq<IeView>>::empty().push(opt_ie_seq(self.fseid)).push(opt_vec_seq(self.remove_pdrs)).push(opt_vec_seq(self.remove_fars)).push(opt_vec_seq(self.remove_urrs)).push(opt_vec_seq(self.remove_qers)).push(opt_vec_seq(self.remove_bars)).push(opt_vec_seq(self.remove_traffic_endpoints)).push(opt_vec_seq(self.create_pdrs)).push(opt_vec_seq(self.create_fars)).push(opt_vec_seq(self.create_urrs)).push(opt_vec_seq(self.create_qers)).push(opt_vec_seq(self.create_bars)).push(opt_vec_seq(self.create_traffic_endpoints)).push(opt_vec_seq(self.update_pdrs)).push(opt_vec_seq(self.update_fars)).push(opt_vec_seq(self.update_urrs)).push(opt_vec_seq(self.update_qers)).push(opt_vec_seq(self.update_bars)).push(opt_vec_seq(self.update_traffic_endpoints)).push(opt_ie_seq(self.pdn_type)).push(opt_ie_seq(self.user_id)).push(opt_ie_seq(self.s_nssai)).push(opt_ie_seq(self.trace_information)).push(opt_ie_seq(self.recovery_time_stamp)).push(opt_ie_seq(self.cp_function_features)).push(opt_ie_seq(self.apn_dnn)).push(opt_ie_seq(self.user_plane_inactivity_timer)).push(opt_ie_seq(self.pfcpsm_req_flags)).push(opt_ie_seq(self.ethernet_context_information))));
        out
    }
}

/// A well-formed SessionModificationRequest reads back as itself: decoding its wire form gives its
/// header and fields.
pub proof fn lemma_session_modification_request_roundtrip(m: SessionModificationRequest)
    requires
        m.well_formed(),
    ensures
        SessionModificationRequest::spec_decode_error(m.wire()) is None,
        SessionModificationRequest::spec_decoded(m.wire(), m),
{
    let body = concat_slots(m.slots());
    lemma_header_roundtrip(m.header, ies_wire(body));
    lemma_header_wire_len(m.header);
    assert((header_wire(m.header) + ies_wire(body)).skip(header_size(m.header) as int) =~= ies_wire(body));
    crate::ie::lemma_parse_ies_wire(body);
    lemma_decode_concat(m.slots(), SessionModificationRequest::classifier(), SessionModificationRequest::slot_kinds());
    assert(decode_slots(body, SessionModificationRequest::classifier(), SessionModificationRequest::slot_kinds()) == m.slots());
    assert(decode_slots(body, SessionModificationRequest::classifier(), SessionModificationRequest::slot_kinds())[0] == decode_slot(body, SessionModificationRequest::classifier(), 0, SlotKind::One));
    assert(decode_slots(body, SessionModificationRequest::classifier(), SessionModificationRequest::slot_kinds())[1] == decode_slot(body, SessionModificationRequest::classifier(), 1, SlotKind::Many));
    assert(decode_slots(body, SessionModificationRequest::classifier(), SessionModificationRequest::slot_kinds())[2] == decode_slot(body, SessionModificationRequest::classifier(), 2, SlotKind::Many));
    assert(decode_slots(body, SessionModificationRequest::classifier(), SessionModificationRequest::slot_kinds())[3] == decode_slot(body, SessionModificationRequest::classifier(), 3, SlotKind::Many));
    assert(decode_slots(body, SessionModificationRequest::classifier(), SessionModificationRequest::slot_kinds())[4] == decode_slot(body, SessionModificationRequest::classifier(), 4, SlotKind::Many));
    assert(decode_slots(body, SessionModificationRequest::classifier(), SessionModificationRequest::slot_kinds())[5] == decode_slot(body, SessionModificationRequest::classifier(), 5, SlotKind::Many));
    assert(decode_slots(body, SessionModificationRequest::classifier(), SessionModificationRequest::slot_kinds())[6] == decode_slot(body, SessionModificationRequest::classifier(), 6, SlotKind::Many));
    assert(decode_slots(body, SessionModificationRequest::classifier(), SessionModificationRequest::slot_kinds())[7] == decode_slot(body, SessionModificationRequest::classifier(), 7, SlotKind::Many));
    assert(decode_slots(body, SessionModificationRequest::classifier(), SessionModificationRequest::slot_kinds())[8] == decode_slot(body, SessionModificationRequest::classifier(), 8, SlotKind::Many));
    assert(decode_slots(body, SessionModificationRequest::classifier(), SessionModificationRequest::slot_kinds())[9] == decode_slot(body, SessionModificationRequest::classifier(), 9, SlotKind::Many));
    assert(decode_slots(body, SessionModificationRequest::classifier(), SessionModificationRequest::slot_kinds())[10] == decode_slot(body, SessionModificationRequest::classifier(), 10, SlotKind::Many));
    assert(decode_slots(body, SessionModificationRequest::classifier(), SessionModificationRequest::slot_kinds())[11] == decode_slot(body, SessionModificationRequest::classifier(), 11, SlotKind::Many));
    assert(decode_slots(body, SessionModificationRequest::classifier(), SessionModificationRequest::slot_kinds())[12] == decode_slot(body, SessionModificationRequest::classifier(), 12, SlotKind::Many));
    assert(decode_slots(body, SessionModificationRequest::classifier(), SessionModificationRequest::slot_kinds())[13] == decode_slot(body, SessionModificationRequest::classifier(), 13, SlotKind::Many));
    assert(decode_slots(body, SessionModificationRequest::classifier(), SessionModificationRequest::slot_kinds())[14] == decode_slot(body, SessionModificationRequest::classifier(), 14, SlotKind::Many));
    assert(decode_slots(body, SessionModificationRequest::classifier(), SessionModificationRequest::slot_kinds())[15] == decode_slot(body, SessionModificationRequest::classifier(), 15, SlotKind::Many));
    assert(decode_slots(body, SessionModificationRequest::classifier(), SessionModificationRequest::slot_kinds())[16] == decode_slot(body, SessionModificationRequest::classifier(), 16, SlotKind::Many));
    assert(decode_slots(body, SessionModificationRequest::classifier(), SessionModificationRequest::slot_kinds())[17] == decode_slot(body, SessionModificationRequest::classifier(), 17, SlotKind::Many));
    assert(decode_slots(body, SessionModificationRequest::classifier(), SessionModificationRequest::slot_kinds())[18] == decode_slot(body, SessionModificationRequest::classifier(), 18, SlotKind::Many));
    assert(decode_slots(body, SessionModificationRequest::classifier(), SessionModificationRequest::slot_kinds())[19] == decode_slot(body, SessionModificationRequest::classifier(), 19, SlotKind::One));
    assert(decode_slots(body, SessionModificationRequest::classifier(), SessionModificationRequest::slot_kinds())[20] == decode_slot(body, SessionModificationRequest::classifier(), 20, SlotKind::One));
    assert(decode_slots(body, SessionModificationRequest::classifier(), SessionModificationRequest::slot_kinds())[21] == decode_slot(body, SessionModificationRequest::classifier(), 21, SlotKind::One));
    assert(decode_slots(body, SessionModificationRequest::classifier(), SessionModificationRequest::slot_kinds())[22] == decode_slot(body, SessionModificationRequest::classifier(), 22, SlotKind::One));
    assert(decode_slots(body, SessionModificationRequest::classifier(), SessionModificationRequest::slot_kinds())[23] == decode_slot(body, SessionModificationRequest::classifier(), 23, SlotKind::One));
    assert(decode_slots(body, SessionModificationRequest::classifier(), SessionModificationRequest::slot_kinds())[24] == decode_slot(body, SessionModificationRequest::classifier(), 24, SlotKind::One));
    assert(decode_slots(body, SessionModificationRequest::classifier(), SessionModificationRequest::slot_kinds())[25] == decode_slot(body, SessionModificationRequest::classifier(), 25, SlotKind::One));
    assert(decode_slots(body, SessionModificationRequest::classifier(), SessionModificationRequest::slot_kinds())[26] == decode_slot(body, SessionModificationRequest::classifier(), 26, SlotKind::One));
    assert(decode_slots(body, SessionModificationRequest::classifier(), SessionModificationRequest::slot_kinds())[27] == decode_slot(body, SessionModificationRequest::classifier(), 27, SlotKind::One));
    assert(decode_slots(body, SessionModificationRequest::classifier(), SessionModificationRequest::slot_kinds())[28] == decode_slot(body, SessionModificationRequest::classifier(), 28, SlotKind::One));
    assert(decode_slots(body, SessionModificationRequest::classifier(), SessionModificationRequest::slot_kinds())[29] == decode_slot(body, SessionModificationRequest::classifier(), 29, SlotKind::Many));
}

/// Builder for SessionModificationRequest messages.
#[derive(Debug)]
pub struct SessionModificationRequestBuilder {
    pub seid: u64,
    pub sequence: u32,
    pub fseid: Option<Ie>,
    pub remove_pdrs: Option<Vec<Ie>>,
    pub remove_fars: Option<Vec<Ie>>,
    pub remove_urrs: Option<Vec<Ie>>,
    pub remove_qers: Option<Vec<Ie>>,
    pub remove_bars: Option<Vec<Ie>>,
    pub remove_traffic_endpoints: Option<Vec<Ie>>,
    pub create_pdrs: Option<Vec<Ie>>,
    pub create_fars: Option<Vec<Ie>>,
    pub create_urrs: Option<Vec<Ie>>,
    pub create_qers: Option<Vec<Ie>>,
    pub create_bars: Option<Vec<Ie>>,
    pub create_traffic_endpoints: Option<Vec<Ie>>,
    pub update_pdrs: Option<Vec<Ie>>,
    pub update_fars: Option<Vec<Ie>>,
    pub update_urrs: Option<Vec<Ie>>,
    pub update_qers: Option<Vec<Ie>>,
    pub update_bars: Option<Vec<Ie>>,
    pub update_traffic_endpoints: Option<Vec<Ie>>,
    pub pdn_type: Option<Ie>,
    pub user_id: Option<Ie>,
    pub s_nssai: Option<Ie>,
    pub trace_information: Option<Ie>,
    pub recovery_time_stamp: Option<Ie>,
    pub cp_function_features: Option<Ie>,
    pub apn_dnn: Option<Ie>,
    pub user_plane_inactivity_timer: Option<Ie>,
    pub pfcpsm_req_flags: Option<Ie>,
    pub ethernet_context_information: Option<Ie>,
    pub ies: Vec<Ie>,
}

impl SessionModificationRequestBuilder {
    /// The IEs of each field of the message this builder builds, in wire order.
    pub open spec fn built_slots(&self) -> Seq<Seq<IeView>> {
        Seq::<Seq<IeView>>::empty().push(opt_ie_seq(self.fseid)).push(opt_vec_seq(self.remove_pdrs)).push(opt_vec_seq(self.remove_fars)).push(opt_vec_seq(self.remove_urrs)).push(opt_vec_seq(self.remove_qers)).push(opt_vec_seq(self.remove_bars)).push(opt_vec_seq(self.remove_traffic_endpoints)).push(opt_vec_seq(self.create_pdrs)).push(opt_vec_seq(self.create_fars)).push(opt_vec_seq(self.create_urrs)).push(opt_vec_seq(self.create_qers)).push(opt_vec_seq(self.create_bars)).push(opt_vec_seq(self.create_traffic_endpoints)).push(opt_vec_seq(self.update_pdrs)).push(opt_vec_seq(self.update_fars)).push(opt_vec_seq(self.update_urrs)).push(opt_vec_seq(self.update_qers)).push(opt_vec_seq(self.update_bars)).push(opt_vec_seq(self.update_traffic_endpoints)).push(opt_ie_seq(self.pdn_type)).push(opt_ie_seq(self.user_id)).push(opt_ie_seq(self.s_nssai)).push(opt_ie_seq(self.trace_information)).push(opt_ie_seq(self.recovery_time_stamp)).push(opt_ie_seq(self.cp_function_features)).push(opt_ie_seq(self.apn_dnn)).push(opt_ie_seq(self.user_plane_inactivity_timer)).push(opt_ie_seq(self.pfcpsm_req_flags)).push(opt_ie_seq(self.ethernet_context_information)).push(ies_view(self.ies@))
    }

    /// The header of the message this builder builds.
    pub open spec fn built_header(&self) -> Header {
        message_header(MsgType::SessionModificationRequest, true, self.seid, self.sequence, concat_slots(self.built_slots()))
    }

    /// Creates a builder with no IEs set.
    pub fn new(seid: u64, sequence: u32) -> (r: Self)
        ensures
            r.seid == seid,
            r.sequence == sequence,
            r.fseid is None,
            r.remove_pdrs is None,
            r.remove_fars is None,
            r.remove_urrs is None,
            r.remove_qers is None,
            r.remove_bars is None,
            r.remove_traffic_endpoints is None,
            r.create_pdrs is None,
            r.create_fars is None,
            r.create_urrs is None,
            r.create_qers is None,
            r.create_bars is None,
            r.create_traffic_endpoints is None,
            r.update_pdrs is None,
            r.update_fars is None,
            r.update_urrs is None,
            r.update_qers is None,
            r.update_bars is None,
            r.update_traffic_endpoints is None,
            r.pdn_type is None,
            r.user_id is None,
            r.s_nssai is None,
            r.trace_information is None,
            r.recovery_time_stamp is None,
            r.cp_function_features is None,
            r.apn_dnn is None,
            r.user_plane_inactivity_timer is None,
            r.pfcpsm_req_flags is None,
            r.ethernet_context_information is None,
            r.ies@.len() == 0,
    {
        SessionModificationRequestBuilder { seid, sequence, fseid: None, remove_pdrs: None, remove_fars: None, remove_urrs: None, remove_qers: None, remove_bars: None, remove_traffic_endpoints: None, create_pdrs: None, create_fars: None, create_urrs: None, create_qers: None, create_bars: None, create_traffic_endpoints: None, update_pdrs: None, update_fars: None, update_urrs: None, update_qers: None, update_bars: None, update_traffic_endpoints: None, pdn_type: None, user_id: None, s_nssai: None, trace_information: None, recovery_time_stamp: None, cp_function_features: None, apn_dnn: None, user_plane_inactivity_timer: None, pfcpsm_req_flags: None, ethernet_context_information: None, ies: Vec::new() }
    }

    /// Sets the CP F-SEID.
    pub fn fseid(self, fseid: Fseid) -> (r: Self)
        ensures
            r.fseid is Some,
            r.fseid.unwrap()@ == (IeView { ie_type: IeType::Fseid, payload: crate::ie::fseid::fseid_bytes(fseid@) }),
            r == (Self { fseid: r.fseid, ..self }),
    {
        let mut s = self;
        s.fseid = Some(fseid.to_ie());
        s
    }

    /// Sets the fseid IE.
    pub fn fseid_ie(self, ie: Ie) -> (r: Self)
        ensures
            r == (Self { fseid: Some(ie), ..self }),
    {
        let mut s = self;
        s.fseid = Some(ie);
        s
    }

    /// Sets the remove pdr IEs.
    pub fn remove_pdrs(self, ies: Vec<Ie>) -> (r: Self)
        ensures
            r == (Self { remove_pdrs: Some(ies), ..self }),
    {
        let mut s = self;
        s.remove_pdrs = Some(ies);
        s
    }

    /// Sets the remove far IEs.
    pub fn remove_fars(self, ies: Vec<Ie>) -> (r: Self)
        ensures
            r == (Self { remove_fars: Some(ies), ..self }),
    {
        let mut s = self;
        s.remove_fars = Some(ies);
        s
    }

    /// Sets the remove urr IEs.
    pub fn remove_urrs(self, ies: Vec<Ie>) -> (r: Self)
        ensures
            r == (Self { remove_urrs: Some(ies), ..self }),
    {
        let mut s = self;
        s.remove_urrs = Some(ies);
        s
    }

    /// Sets the remove qer IEs.
    pub fn remove_qers(self, ies: Vec<Ie>) -> (r: Self)
        ensures
            r == (Self { remove_qers: Some(ies), ..self }),
    {
        let mut s = self;
        s.remove_qers = Some(ies);
        s
    }

    /// Sets the remove bar IEs.
    pub fn remove_bars(self, ies: Vec<Ie>) -> (r: Self)
        ensures
            r == (Self { remove_bars: Some(ies), ..self }),
    {
        let mut s = self;
        s.remove_bars = Some(ies);
        s
    }

    /// Sets the remove traffic endpoint IEs.
    pub fn remove_traffic_endpoints(self, ies: Vec<Ie>) -> (r: Self)
        ensures
            r == (Self { remove_traffic_endpoints: Some(ies), ..self }),
    {
        let mut s = self;
        s.remove_traffic_endpoints = Some(ies);
        s
    }

    /// Sets the create pdr IEs.
    pub fn create_pdrs(self, ies: Vec<Ie>) -> (r: Self)
        ensures
            r == (Self { create_pdrs: Some(ies), ..self }),
    {
        let mut s = self;
        s.create_pdrs = Some(ies);
        s
    }

    /// Sets the create far IEs.
    pub fn create_fars(self, ies: Vec<Ie>) -> (r: Self)
        ensures
            r == (Self { create_fars: Some(ies), ..self }),
    {
        let mut s = self;
        s.create_fars = Some(ies);
        s
    }

    /// Sets the create urr IEs.
    pub fn create_urrs(self, ies: Vec<Ie>) -> (r: Self)
        ensures
            r == (Self { create_urrs: Some(ies), ..self }),
    {
        let mut s = self;
        s.create_urrs = Some(ies);
        s
    }

    /// Sets the create qer IEs.
    pub fn create_qers(self, ies: Vec<Ie>) -> (r: Self)
        ensures
            r == (Self { create_qers: Some(ies), ..self }),
    {
        let mut s = self;
        s.create_qers = Some(ies);
        s
    }

    /// Sets the create bar IEs.
    pub fn create_bars(self, ies: Vec<Ie>) -> (r: Self)
        ensures
            r == (Self { create_bars: Some(ies), ..self }),
    {
        let mut s = self;
        s.create_bars = Some(ies);
        s
    }

    /// Sets the create traffic endpoint IEs.
    pub fn create_traffic_endpoints(self, ies: Vec<Ie>) -> (r: Self)
        ensures
            r == (Self { create_traffic_endpoints: Some(ies), ..self }),
    {
        let mut s = self;
        s.create_traffic_endpoints = Some(ies);
        s
    }

    /// Sets the update pdr IEs.
    pub fn update_pdrs(self, ies: Vec<Ie>) -> (r: Self)
        ensures
            r == (Self { update_pdrs: Some(ies), ..self }),
    {
        let mut s = self;
        s.update_pdrs = Some(ies);
        s
    }

    /// Sets the update far IEs.
    pub fn update_fars(self, ies: Vec<Ie>) -> (r: Self)
        ensures
            r == (Self { update_fars: Some(ies), ..self }),
    {
        let mut s = self;
        s.update_fars = Some(ies);
        s
    }

    /// Sets the update urr IEs.
    pub fn update_urrs(self, ies: Vec<Ie>) -> (r: Self)
        ensures
            r == (Self { update_urrs: Some(ies), ..self }),
    {
        let mut s = self;
        s.update_urrs = Some(ies);
        s
    }

    /// Sets the update qer IEs.
    pub fn update_qers(self, ies: Vec<Ie>) -> (r: Self)
        ensures
            r == (Self { update_qers: Some(ies), ..self }),
    {
        let mut s = self;
        s.update_qers = Some(ies);
        s
    }

    /// Sets the update bar IEs.
    pub fn update_bars(self, ies: Vec<Ie>) -> (r: Self)
        ensures
            r == (Self { update_bars: Some(ies), ..self }),
    {
        let mut s = self;
        s.update_bars = Some(ies);
        s
    }

    /// Sets the update traffic endpoint IEs.
    pub fn update_traffic_endpoints(self, ies: Vec<Ie>) -> (r: Self)
        ensures
            r == (Self { update_traffic_endpoints: Some(ies), ..self }),
    {
        let mut s = self;
        s.update_traffic_endpoints = Some(ies);
        s
    }

    /// Sets the pdn type IE.
    pub fn pdn_type(self, ie: Ie) -> (r: Self)
        ensures
            r == (Self { pdn_type: Some(ie), ..self }),
    {
        let mut s = self;
        s.pdn_type = Some(ie);
        s
    }

    /// Sets the user id IE.
    pub fn user_id(self, ie: Ie) -> (r: Self)
        ensures
            r == (Self { user_id: Some(ie), ..self }),
    {
        let mut s = self;
        s.user_id = Some(ie);
        s
    }

    /// Sets the s nssai IE.
    pub fn s_nssai(self, ie: Ie) -> (r: Self)
        ensures
            r == (Self { s_nssai: Some(ie), ..self }),
    {
        let mut s = self;
        s.s_nssai = Some(ie);
        s
    }

    /// Sets the trace information IE.
    pub fn trace_information(self, ie: Ie) -> (r: Self)
        ensures
            r == (Self { trace_information: Some(ie), ..self }),
    {
        let mut s = self;
        s.trace_information = Some(ie);
        s
    }

    /// Sets the recovery time stamp from a point in time.
    pub fn recovery_time_stamp(self, timestamp: std::time::SystemTime) -> (r: Self)
        ensures
            r.recovery_time_stamp is Some,
            r.recovery_time_stamp.unwrap()@ == crate::ie::recovery_time_stamp::recovery_time_stamp_ie_view(crate::ie::recovery_time_stamp::unix_seconds_of(timestamp)),
            r == (Self { recovery_time_stamp: r.recovery_time_stamp, ..self }),
    {
        let mut s = self;
        let ts = RecoveryTimeStamp::new(timestamp);
        s.recovery_time_stamp = Some(ts.to_ie());
        s
    }

    /// Sets the recovery time stamp IE.
    pub fn recovery_time_stamp_ie(self, ie: Ie) -> (r: Self)
        ensures
            r == (Self { recovery_time_stamp: Some(ie), ..self }),
    {
        let mut s = self;
        s.recovery_time_stamp = Some(ie);
        s
    }

    /// Sets the cp function features IE.
    pub fn cp_function_features(self, ie: Ie) -> (r: Self)
        ensures
            r == (Self { cp_function_features: Some(ie), ..self }),
    {
        let mut s = self;
        s.cp_function_features = Some(ie);
        s
    }

    /// Sets the apn dnn IE.
    pub fn apn_dnn(self, ie: Ie) -> (r: Self)
        ensures
            r == (Self { apn_dnn: Some(ie), ..self }),
    {
        let mut s = self;
        s.apn_dnn = Some(ie);
        s
    }

    /// Sets the user plane inactivity timer IE.
    pub fn user_plane_inactivity_timer(self, ie: Ie) -> (r: Self)
        ensures
            r == (Self { user_plane_inactivity_timer: Some(ie), ..self }),
    {
        let mut s = self;
        s.user_plane_inactivity_timer = Some(ie);
        s
    }

    /// Sets the pfcpsm req flags IE.
    pub fn pfcpsm_req_flags(self, ie: Ie) -> (r: Self)
        ensures
            r == (Self { pfcpsm_req_flags: Some(ie), ..self }),
    {
        let mut s = self;
        s.pfcpsm_req_flags = Some(ie);
        s
    }

    /// Sets the ethernet context information IE.
    pub fn ethernet_context_information(self, ie: Ie) -> (r: Self)
        ensures
            r == (Self { ethernet_context_information: Some(ie), ..self }),
    {
        let mut s = self;
        s.ethernet_context_information = Some(ie);
        s
    }

    /// Sets the additional IEs.
    pub fn ies(self, ies: Vec<Ie>) -> (r: Self)
        ensures
            r == (Self { ies: ies, ..self }),
    {
        let mut s = self;
        s.ies = ies;
        s
    }

    /// Builds the message.
    pub fn build(self) -> (r: SessionModificationRequest)
        ensures
            r.header == message_header(MsgType::SessionModificationRequest, true, self.seid, self.sequence, concat_slots(r.slots())),
            r.fseid == self.fseid,
            r.remove_pdrs == self.remove_pdrs,
            r.remove_fars == self.remove_fars,
            r.remove_urrs == self.remove_urrs,
            r.remove_qers == self.remove_qers,
            r.remove_bars == self.remove_bars,
            r.remove_traffic_endpoints == self.remove_traffic_endpoints,
            r.create_pdrs == self.create_pdrs,
            r.create_fars == self.create_fars,
            r.create_urrs == self.create_urrs,
            r.create_qers == self.create_qers,
            r.create_bars == self.create_bars,
            r.create_traffic_endpoints == self.create_traffic_endpoints,
            r.update_pdrs == self.update_pdrs,
            r.update_fars == self.update_fars,
            r.update_urrs == self.update_urrs,
            r.update_qers == self.update_qers,
            r.update_bars == self.update_bars,
            r.update_traffic_endpoints == self.update_traffic_endpoints,
            r.pdn_type == self.pdn_type,
            r.user_id == self.user_id,
            r.s_nssai == self.s_nssai,
            r.trace_information == self.trace_information,
            r.recovery_time_stamp == self.recovery_time_stamp,
            r.cp_function_features == self.cp_function_features,
            r.apn_dnn == self.apn_dnn,
            r.user_plane_inactivity_timer == self.user_plane_inactivity_timer,
            r.pfcpsm_req_flags == self.pfcpsm_req_flags,
            r.ethernet_context_information == self.ethernet_context_information,
            r.ies == self.ies,
            r.slots() == self.built_slots(),
            r.header == self.built_header(),
    {
        SessionModificationRequest::assemble(self.seid, self.sequence, self.fseid, self.remove_pdrs, self.remove_fars, self.remove_urrs, self.remove_qers, self.remove_bars, self.remove_traffic_endpoints, self.create_pdrs, self.create_fars, self.create_urrs, self.create_qers, self.create_bars, self.create_traffic_endpoints, self.update_pdrs, self.update_fars, self.update_urrs, self.update_qers, self.update_bars, self.update_traffic_endpoints, self.pdn_type, self.user_id, self.s_nssai, self.trace_information, self.recovery_time_stamp, self.cp_function_features, self.apn_dnn, self.user_plane_inactivity_timer, self.pfcpsm_req_flags, self.ethernet_context_information, self.ies)
    }

    /// Builds the message and serializes it.
    pub fn marshal(self) -> (r: Vec<u8>)
        ensures
            r@ == header_wire(self.built_header()) + ies_wire(concat_slots(self.built_slots())),
    {
        let msg = self.build();
        msg.marshal()
    }

}

/// Decoding what a SessionModificationRequest builder writes fails exactly when a mandatory IE is
/// missing from the IEs it was given, and a message decoded from it has the builder's
/// header, and so its sequence number; when every IE stands in the field for its type,
/// the decoded message has the builder's IEs in each field. This holds when the
/// sequence number fits the header's 24 bits and every IE fits its length field.
#[verifier::spinoff_prover]
pub proof fn lemma_session_modification_request_builder_roundtrip(b: SessionModificationRequestBuilder)
    requires
        b.sequence < 16777216,
        ies_wf(concat_slots(b.built_slots())),
    ensures
        SessionModificationRequest::spec_decode_error(header_wire(b.built_header()) + ies_wire(concat_slots(b.built_slots()))) == (match SessionModificationRequest::missing_ie(concat_slots(b.built_slots())) {
            Some(t) => Some(PfcpError::MissingMandatoryIe { ie_type: t, message_type: Some(MsgType::SessionModificationRequest) }),
            None => None::<PfcpError>,
        }),
        forall|m: SessionModificationRequest|
            #[trigger] SessionModificationRequest::spec_decoded(header_wire(b.built_header()) + ies_wire(concat_slots(b.built_slots())), m) ==> m.header == b.built_header()
                && m.header.sequence_number == b.sequence,
        slots_typed(b.built_slots(), SessionModificationRequest::classifier(), SessionModificationRequest::slot_kinds()) ==> forall|m: SessionModificationRequest|
            #[trigger] SessionModificationRequest::spec_decoded(header_wire(b.built_header()) + ies_wire(concat_slots(b.built_slots())), m) ==> m.slots() == b.built_slots(),
{
    let h = b.built_header();
    let ss = b.built_slots();
    let body = concat_slots(ss);
    lemma_msg_type_code_roundtrip(MsgType::SessionModificationRequest);
    assert(header_wf(h));
    lemma_header_roundtrip(h, ies_wire(body));
    lemma_header_wire_len(h);
    assert((header_wire(h) + ies_wire(body)).skip(header_size(h) as int) =~= ies_wire(body));
    crate::ie::lemma_parse_ies_wire(body);
    if slots_typed(ss, SessionModificationRequest::classifier(), SessionModificationRequest::slot_kinds()) {
        lemma_decode_concat(ss, SessionModificationRequest::classifier(), SessionModificationRequest::slot_kinds());
        assert(decode_slots(body, SessionModificationRequest::classifier(), SessionModificationRequest::slot_kinds()) == ss);
        assert(decode_slots(body, SessionModificationRequest::classifier(), SessionModificationRequest::slot_kinds())[0] == decode_slot(body, SessionModificationRequest::classifier(), 0, SlotKind::One));
        assert(decode_slots(body, SessionModificationRequest::classifier(), SessionModificationRequest::slot_kinds())[1] == decode_slot(body, SessionModificationRequest::classifier(), 1, SlotKind::Many));
        assert(decode_slots(body, SessionModificationRequest::classifier(), SessionModificationRequest::slot_kinds())[2] == decode_slot(body, SessionModificationRequest::classifier(), 2, SlotKind::Many));
        assert(decode_slots(body, SessionModificationRequest::classifier(), SessionModificationRequest::slot_kinds())[3] == decode_slot(body, SessionModificationRequest::classifier(), 3, SlotKind::Many));
        assert(decode_slots(body, SessionModificationRequest::classifier(), SessionModificationRequest::slot_kinds())[4] == decode_slot(body, SessionModificationRequest::classifier(), 4, SlotKind::Many));
        assert(decode_slots(body, SessionModificationRequest::classifier(), SessionModificationRequest::slot_kinds())[5] == decode_slot(body, SessionModificationRequest::classifier(), 5, SlotKind::Many));
        assert(decode_slots(body, SessionModificationRequest::classifier(), SessionModificationRequest::slot_kinds())[6] == decode_slot(body, SessionModificationRequest::classifier(), 6, SlotKind::Many));
        assert(decode_slots(body, SessionModificationRequest::classifier(), SessionModificationRequest::slot_kinds())[7] == decode_slot(body, SessionModificationRequest::classifier(), 7, SlotKind::Many));
        assert(decode_slots(body, SessionModificationRequest::classifier(), SessionModificationRequest::slot_kinds())[8] == decode_slot(body, SessionModificationRequest::classifier(), 8, SlotKind::Many));
        assert(decode_slots(body, SessionModificationRequest::classifier(), SessionModificationRequest::slot_kinds())[9] == decode_slot(body, SessionModificationRequest::classifier(), 9, SlotKind::Many));
        assert(decode_slots(body, SessionModificationRequest::classifier(), SessionModificationRequest::slot_kinds())[10] == decode_slot(body, SessionModificationRequest::classifier(), 10, SlotKind::Many));
        assert(decode_slots(body, SessionModificationRequest::classifier(), SessionModificationRequest::slot_kinds())[11] == decode_slot(body, SessionModificationRequest::classifier(), 11, SlotKind::Many));
        assert(decode_slots(body, SessionModificationRequest::classifier(), SessionModificationRequest::slot_kinds())[12] == decode_slot(body, SessionModificationRequest::classifier(), 12, SlotKind::Many));
        assert(decode_slots(body, SessionModificationRequest::classifier(), SessionModificationRequest::slot_kinds())[13] == decode_slot(body, SessionModificationRequest::classifier(), 13, SlotKind::Many));
        assert(decode_slots(body, SessionModificationRequest::classifier(), SessionModificationRequest::slot_kinds())[14] == decode_slot(body, SessionModificationRequest::classifier(), 14, SlotKind::Many));
        assert(decode_slots(body, SessionModificationRequest::classifier(), SessionModificationRequest::slot_kinds())[15] == decode_slot(body, SessionModificationRequest::classifier(), 15, SlotKind::Many));
        assert(decode_slots(body, SessionModificationRequest::classifier(), SessionModificationRequest::slot_kinds())[16] == decode_slot(body, SessionModificationRequest::classifier(), 16, SlotKind::Many));
        assert(decode_slots(body, SessionModificationRequest::classifier(), SessionModificationRequest::slot_kinds())[17] == decode_slot(body, SessionModificationRequest::classifier(), 17, SlotKind::Many));
        assert(decode_slots(body, SessionModificationRequest::classifier(), SessionModificationRequest::slot_kinds())[18] == decode_slot(body, SessionModificationRequest::classifier(), 18, SlotKind::Many));
        assert(decode_slots(body, SessionModificationRequest::classifier(), SessionModificationRequest::slot_kinds())[19] == decode_slot(body, SessionModificationRequest::classifier(), 19, SlotKind::One));
        assert(decode_slots(body, SessionModificationRequest::classifier(), SessionModificationRequest::slot_kinds())[20] == decode_slot(body, SessionModificationRequest::classifier(), 20, SlotKind::One));
        assert(decode_slots(body, SessionModificationRequest::classifier(), SessionModificationRequest::slot_kinds())[21] == decode_slot(body, SessionModificationRequest::classifier(), 21, SlotKind::One));
        assert(decode_slots(body, SessionModificationRequest::classifier(), SessionModificationRequest::slot_kinds())[22] == decode_slot(body, SessionModificationRequest::classifier(), 22, SlotKind::One));
        assert(decode_slots(body, SessionModificationRequest::classifier(), SessionModificationRequest::slot_kinds())[23] == decode_slot(body, SessionModificationRequest::classifier(), 23, SlotKind::One));
        assert(decode_slots(body, SessionModificationRequest::classifier(), SessionModificationRequest::slot_kinds())[24] == decode_slot(body, SessionModificationRequest::classifier(), 24, SlotKind::One));
        assert(decode_slots(body, SessionModificationRequest::classifier(), SessionModificationRequest::slot_kinds())[25] == decode_slot(body, SessionModificationRequest::classifier(), 25, SlotKind::One));
        assert(decode_slots(body, SessionModificationRequest::classifier(), SessionModificationRequest::slot_kinds())[26] == decode_slot(body, SessionModificationRequest::classifier(), 26, SlotKind::One));
        assert(decode_slots(body, SessionModificationRequest::classifier(), SessionModificationRequest::slot_kinds())[27] == decode_slot(body, SessionModificationRequest::classifier(), 27, SlotKind::One));
        assert(decode_slots(body, SessionModificationRequest::classifier(), SessionModificationRequest::slot_kinds())[28] == decode_slot(body, SessionModificationRequest::classifier(), 28, SlotKind::One));
        assert(decode_slots(body, SessionModificationRequest::classifier(), SessionModificationRequest::slot_kinds())[29] == decode_slot(body, SessionModificationRequest::classifier(), 29, SlotKind::Many));
        assert forall|m: SessionModificationRequest| #[trigger] SessionModificationRequest::spec_decoded(header_wire(b.built_header()) + ies_wire(concat_slots(b.built_slots())), m) implies m.slots() == ss by {
            assert(m.slots() =~= ss);
        }
    }
}

impl SessionModificationRequest {
    /// Every IE is in the field named for its type, and the additional IEs are of
    /// no type that has a field of its own.
    #[verifier::opaque]
    pub open spec fn fields_hold_their_types(&self) -> bool {
        &&& (self.fseid matches Some(x) ==> x.ie_type == IeType::Fseid)
        &&& (self.remove_pdrs matches Some(v) ==> forall|i: int| 0 <= i < v@.len() ==> (#[trigger] v@[i]).ie_type == IeType::RemovePdr)
        &&& (self.remove_fars matches Some(v) ==> forall|i: int| 0 <= i < v@.len() ==> (#[trigger] v@[i]).ie_type == IeType::RemoveFar)
        &&& (self.remove_urrs matches Some(v) ==> forall|i: int| 0 <= i < v@.len() ==> (#[trigger] v@[i]).ie_type == IeType::RemoveUrr)
        &&& (self.remove_qers matches Some(v) ==> forall|i: int| 0 <= i < v@.len() ==> (#[trigger] v@[i]).ie_type == IeType::RemoveQer)
        &&& (self.remove_bars matches Some(v) ==> forall|i: int| 0 <= i < v@.len() ==> (#[trigger] v@[i]).ie_type == IeType::RemoveBar)
        &&& (self.remove_traffic_endpoints matches Some(v) ==> forall|i: int| 0 <= i < v@.len() ==> (#[trigger] v@[i]).ie_type == IeType::RemoveTrafficEndpoint)
        &&& (self.create_pdrs matches Some(v) ==> forall|i: int| 0 <= i < v@.len() ==> (#[trigger] v@[i]).ie_type == IeType::CreatePdr)
        &&& (self.create_fars matches Some(v) ==> forall|i: int| 0 <= i < v@.len() ==> (#[trigger] v@[i]).ie_type == IeType::CreateFar)
        &&& (self.create_urrs matches Some(v) ==> forall|i: int| 0 <= i < v@.len() ==> (#[trigger] v@[i]).ie_type == IeType::CreateUrr)
        &&& (self.create_qers matches Some(v) ==> forall|i: int| 0 <= i < v@.len() ==> (#[trigger] v@[i]).ie_type == IeType::CreateQer)
        &&& (self.create_bars matches Some(v) ==> forall|i: int| 0 <= i < v@.len() ==> (#[trigger] v@[i]).ie_type == IeType::CreateBar)
        &&& (self.create_traffic_endpoints matches Some(v) ==> forall|i: int| 0 <= i < v@.len() ==> (#[trigger] v@[i]).ie_type == IeType::CreateTrafficEndpoint)
        &&& (self.update_pdrs matches Some(v) ==> forall|i: int| 0 <= i < v@.len() ==> (#[trigger] v@[i]).ie_type == IeType::UpdatePdr)
        &&& (self.update_fars matches Some(v) ==> forall|i: int| 0 <= i < v@.len() ==> (#[trigger] v@[i]).ie_type == IeType::UpdateFar)
        &&& (self.update_urrs matches Some(v) ==> forall|i: int| 0 <= i < v@.len() ==> (#[trigger] v@[i]).ie_type == IeType::UpdateUrr)
        &&& (self.update_qers matches Some(v) ==> forall|i: int| 0 <= i < v@.len() ==> (#[trigger] v@[i]).ie_type == IeType::UpdateQer)
        &&& (self.update_bars matches Some(v) ==> forall|i: int| 0 <= i < v@.len() ==> (#[trigger] v@[i]).ie_type == IeType::UpdateBar)
        &&& (self.update_traffic_endpoints matches Some(v) ==> forall|i: int| 0 <= i < v@.len() ==> (#[trigger] v@[i]).ie_type == IeType::UpdateTrafficEndpoint)
        &&& (self.pdn_type matches Some(x) ==> x.ie_type == IeType::PdnType)
        &&& (self.user_id matches Some(x) ==> x.ie_type == IeType::UserId)
        &&& (self.s_nssai matches Some(x) ==> x.ie_type == IeType::Snssai)
        &&& (self.trace_information matches Some(x) ==> x.ie_type == IeType::TraceInformation)
        &&& (self.recovery_time_stamp matches Some(x) ==> x.ie_type == IeType::RecoveryTimeStamp)
        &&& (self.cp_function_features matches Some(x) ==> x.ie_type == IeType::CpFunctionFeatures)
        &&& (self.apn_dnn matches Some(x) ==> x.ie_type == IeType::ApnDnn)
        &&& (self.user_plane_inactivity_timer matches Some(x) ==> x.ie_type == IeType::UserPlaneInactivityTimer)
        &&& (self.pfcpsm_req_flags matches Some(x) ==> x.ie_type == IeType::PfcpsmReqFlags)
        &&& (self.ethernet_context_information matches Some(x) ==> x.ie_type == IeType::EthernetContextInformation)
        &&& forall|i: int| 0 <= i < self.ies@.len() ==> {
            let t = (#[trigger] self.ies@[i]).ie_type;
            t != IeType::Fseid && t != IeType::RemovePdr && t != IeType::RemoveFar && t != IeType::RemoveUrr && t != IeType::RemoveQer && t != IeType::RemoveBar && t != IeType::RemoveTrafficEndpoint && t != IeType::CreatePdr && t != IeType::CreateFar && t != IeType::CreateUrr && t != IeType::CreateQer && t != IeType::CreateBar && t != IeType::CreateTrafficEndpoint && t != IeType::UpdatePdr && t != IeType::UpdateFar && t != IeType::UpdateUrr && t != IeType::UpdateQer && t != IeType::UpdateBar && t != IeType::UpdateTrafficEndpoint && t != IeType::PdnType && t != IeType::UserId && t != IeType::Snssai && t != IeType::TraceInformation && t != IeType::RecoveryTimeStamp && t != IeType::CpFunctionFeatures && t != IeType::ApnDnn && t != IeType::UserPlaneInactivityTimer && t != IeType::PfcpsmReqFlags && t != IeType::EthernetContextInformation
        }
    }
}

/// Decoding puts every IE of the body into the field named for its IE type: a
/// field for one IE holds the last IE of its type, a list holds all IEs of its
/// type in wire order, and the additional IEs are the IEs of the other types, in
/// wire order.
#[verifier::spinoff_prover]
pub proof fn lemma_session_modification_request_decoded_by_type(data: Seq<u8>, m: SessionModificationRequest)
    requires
        SessionModificationRequest::spec_decoded(data, m),
    ensures
        spec_parse_ies(data.skip(header_size(m.header) as int)) is Ok,
        ({
            let body = spec_parse_ies(data.skip(header_size(m.header) as int))->Ok_0;
            &&& (ies_of_type(body, IeType::Fseid).len() == 0 ==> m.fseid is None)
            &&& (ies_of_type(body, IeType::Fseid).len() > 0 ==> (m.fseid matches Some(x) && x@ == ies_of_type(body, IeType::Fseid).last()))
            &&& opt_vec_seq(m.remove_pdrs) == ies_of_type(body, IeType::RemovePdr)
            &&& (m.remove_pdrs is Some <==> ies_of_type(body, IeType::RemovePdr).len() > 0)
            &&& opt_vec_seq(m.remove_fars) == ies_of_type(body, IeType::RemoveFar)
            &&& (m.remove_fars is Some <==> ies_of_type(body, IeType::RemoveFar).len() > 0)
            &&& opt_vec_seq(m.remove_urrs) == ies_of_type(body, IeType::RemoveUrr)
            &&& (m.remove_urrs is Some <==> ies_of_type(body, IeType::RemoveUrr).len() > 0)
            &&& opt_vec_seq(m.remove_qers) == ies_of_type(body, IeType::RemoveQer)
            &&& (m.remove_qers is Some <==> ies_of_type(body, IeType::RemoveQer).len() > 0)
            &&& opt_vec_seq(m.remove_bars) == ies_of_type(body, IeType::RemoveBar)
            &&& (m.remove_bars is Some <==> ies_of_type(body, IeType::RemoveBar).len() > 0)
            &&& opt_vec_seq(m.remove_traffic_endpoints) == ies_of_type(body, IeType::RemoveTrafficEndpoint)
            &&& (m.remove_traffic_endpoints is Some <==> ies_of_type(body, IeType::RemoveTrafficEndpoint).len() > 0)
            &&& opt_vec_seq(m.create_pdrs) == ies_of_type(body, IeType::CreatePdr)
            &&& (m.create_pdrs is Some <==> ies_of_type(body, IeType::CreatePdr).len() > 0)
            &&& opt_vec_seq(m.create_fars) == ies_of_type(body, IeType::CreateFar)
            &&& (m.create_fars is Some <==> ies_of_type(body, IeType::CreateFar).len() > 0)
            &&& opt_vec_seq(m.create_urrs) == ies_of_type(body, IeType::CreateUrr)
            &&& (m.create_urrs is Some <==> ies_of_type(body, IeType::CreateUrr).len() > 0)
            &&& opt_vec_seq(m.create_qers) == ies_of_type(body, IeType::CreateQer)
            &&& (m.create_qers is Some <==> ies_of_type(body, IeType::CreateQer).len() > 0)
            &&& opt_vec_seq(m.create_bars) == ies_of_type(body, IeType::CreateBar)
            &&& (m.create_bars is Some <==> ies_of_type(body, IeType::CreateBar).len() > 0)
            &&& opt_vec_seq(m.create_traffic_endpoints) == ies_of_type(body, IeType::CreateTrafficEndpoint)
            &&& (m.create_traffic_endpoints is Some <==> ies_of_type(body, IeType::CreateTrafficEndpoint).len() > 0)
            &&& opt_vec_seq(m.update_pdrs) == ies_of_type(body, IeType::UpdatePdr)
            &&& (m.update_pdrs is Some <==> ies_of_type(body, IeType::UpdatePdr).len() > 0)
            &&& opt_vec_seq(m.update_fars) == ies_of_type(body, IeType::UpdateFar)
            &&& (m.update_fars is Some <==> ies_of_type(body, IeType::UpdateFar).len() > 0)
            &&& opt_vec_seq(m.update_urrs) == ies_of_type(body, IeType::UpdateUrr)
            &&& (m.update_urrs is Some <==> ies_of_type(body, IeType::UpdateUrr).len() > 0)
            &&& opt_vec_seq(m.update_qers) == ies_of_type(body, IeType::UpdateQer)
            &&& (m.update_qers is Some <==> ies_of_type(body, IeType::UpdateQer).len() > 0)
            &&& opt_vec_seq(m.update_bars) == ies_of_type(body, IeType::UpdateBar)
            &&& (m.update_bars is Some <==> ies_of_type(body, IeType::UpdateBar).len() > 0)
            &&& opt_vec_seq(m.update_traffic_endpoints) == ies_of_type(body, IeType::UpdateTrafficEndpoint)
            &&& (m.update_traffic_endpoints is Some <==> ies_of_type(body, IeType::UpdateTrafficEndpoint).len() > 0)
            &&& (ies_of_type(body, IeType::PdnType).len() == 0 ==> m.pdn_type is None)
            &&& (ies_of_type(body, IeType::PdnType).len() > 0 ==> (m.pdn_type matches Some(x) && x@ == ies_of_type(body, IeType::PdnType).last()))
            &&& (ies_of_type(body, IeType::UserId).len() == 0 ==> m.user_id is None)
            &&& (ies_of_type(body, IeType::UserId).len() > 0 ==> (m.user_id matches Some(x) && x@ == ies_of_type(body, IeType::UserId).last()))
            &&& (ies_of_type(body, IeType::Snssai).len() == 0 ==> m.s_nssai is None)
            &&& (ies_of_type(body, IeType::Snssai).len() > 0 ==> (m.s_nssai matches Some(x) && x@ == ies_of_type(body, IeType::Snssai).last()))
            &&& (ies_of_type(body, IeType::TraceInformation).len() == 0 ==> m.trace_information is None)
            &&& (ies_of_type(body, IeType::TraceInformation).len() > 0 ==> (m.trace_information matches Some(x) && x@ == ies_of_type(body, IeType::TraceInformation).last()))
            &&& (ies_of_type(body, IeType::RecoveryTimeStamp).len() == 0 ==> m.recovery_time_stamp is None)
            &&& (ies_of_type(body, IeType::RecoveryTimeStamp).len() > 0 ==> (m.recovery_time_stamp matches Some(x) && x@ == ies_of_type(body, IeType::RecoveryTimeStamp).last()))
            &&& (ies_of_type(body, IeType::CpFunctionFeatures).len() == 0 ==> m.cp_function_features is None)
            &&& (ies_of_type(body, IeType::CpFunctionFeatures).len() > 0 ==> (m.cp_function_features matches Some(x) && x@ == ies_of_type(body, IeType::CpFunctionFeatures).last()))
            &&& (ies_of_type(body, IeType::ApnDnn).len() == 0 ==> m.apn_dnn is None)
            &&& (ies_of_type(body, IeType::ApnDnn).len() > 0 ==> (m.apn_dnn matches Some(x) && x@ == ies_of_type(body, IeType::ApnDnn).last()))
            &&& (ies_of_type(body, IeType::UserPlaneInactivityTimer).len() == 0 ==> m.user_plane_inactivity_timer is None)
            &&& (ies_of_type(body, IeType::UserPlaneInactivityTimer).len() > 0 ==> (m.user_plane_inactivity_timer matches Some(x) && x@ == ies_of_type(body, IeType::UserPlaneInactivityTimer).last()))
            &&& (ies_of_type(body, IeType::PfcpsmReqFlags).len() == 0 ==> m.pfcpsm_req_flags is None)
            &&& (ies_of_type(body, IeType::PfcpsmReqFlags).len() > 0 ==> (m.pfcpsm_req_flags matches Some(x) && x@ == ies_of_type(body, IeType::PfcpsmReqFlags).last()))
            &&& (ies_of_type(body, IeType::EthernetContextInformation).len() == 0 ==> m.ethernet_context_information is None)
            &&& (ies_of_type(body, IeType::EthernetContextInformation).len() > 0 ==> (m.ethernet_context_information matches Some(x) && x@ == ies_of_type(body, IeType::EthernetContextInformation).last()))
            &&& ies_view(m.ies@) == ies_where(body, |t: IeType| t != IeType::Fseid && t != IeType::RemovePdr && t != IeType::RemoveFar && t != IeType::RemoveUrr && t != IeType::RemoveQer && t != IeType::RemoveBar && t != IeType::RemoveTrafficEndpoint && t != IeType::CreatePdr && t != IeType::CreateFar && t != IeType::CreateUrr && t != IeType::CreateQer && t != IeType::CreateBar && t != IeType::CreateTrafficEndpoint && t != IeType::UpdatePdr && t != IeType::UpdateFar && t != IeType::UpdateUrr && t != IeType::UpdateQer && t != IeType::UpdateBar && t != IeType::UpdateTrafficEndpoint && t != IeType::PdnType && t != IeType::UserId && t != IeType::Snssai && t != IeType::TraceInformation && t != IeType::RecoveryTimeStamp && t != IeType::CpFunctionFeatures && t != IeType::ApnDnn && t != IeType::UserPlaneInactivityTimer && t != IeType::PfcpsmReqFlags && t != IeType::EthernetContextInformation)
            &&& true
        }),
{
    if let Ok(h) = spec_parse_header(data) {
        let body = spec_parse_ies(data.skip(header_size(h) as int))->Ok_0;
        let cls = SessionModificationRequest::classifier();
        assert((ies_of_type(body, IeType::Fseid).len() == 0 ==> m.fseid is None) && (ies_of_type(body, IeType::Fseid).len() > 0 ==> (m.fseid matches Some(x) && x@ == ies_of_type(body, IeType::Fseid).last()))) by {
            assert forall|x: IeType| #[trigger] slot_pred(cls, 0)(x) == (x == IeType::Fseid) by {}
            lemma_ies_where_ext(body, slot_pred(cls, 0), |x: IeType| x == IeType::Fseid);
            lemma_ies_of_type_is_where(body, IeType::Fseid);
            assert(decode_slot(body, cls, 0, SlotKind::One) == last_seq(ies_of_type(body, IeType::Fseid)));
            if ies_of_type(body, IeType::Fseid).len() > 0 { assert(opt_ie_seq(m.fseid)[0] == ies_of_type(body, IeType::Fseid).last()); }
        }
        assert(opt_vec_seq(m.remove_pdrs) == ies_of_type(body, IeType::RemovePdr) && (m.remove_pdrs is Some <==> ies_of_type(body, IeType::RemovePdr).len() > 0)) by {
            assert forall|x: IeType| #[trigger] slot_pred(cls, 1)(x) == (x == IeType::RemovePdr) by {}
            lemma_ies_where_ext(body, slot_pred(cls, 1), |x: IeType| x == IeType::RemovePdr);
            lemma_ies_of_type_is_where(body, IeType::RemovePdr);
        }
        assert(opt_vec_seq(m.remove_fars) == ies_of_type(body, IeType::RemoveFar) && (m.remove_fars is Some <==> ies_of_type(body, IeType::RemoveFar).len() > 0)) by {
            assert forall|x: IeType| #[trigger] slot_pred(cls, 2)(x) == (x == IeType::RemoveFar) by {}
            lemma_ies_where_ext(body, slot_pred(cls, 2), |x: IeType| x == IeType::RemoveFar);
            lemma_ies_of_type_is_where(body, IeType::RemoveFar);
        }
        assert(opt_vec_seq(m.remove_urrs) == ies_of_type(body, IeType::RemoveUrr) && (m.remove_urrs is Some <==> ies_of_type(body, IeType::RemoveUrr).len() > 0)) by {
            assert forall|x: IeType| #[trigger] slot_pred(cls, 3)(x) == (x == IeType::RemoveUrr) by {}
            lemma_ies_where_ext(body, slot_pred(cls, 3), |x: IeType| x == IeType::RemoveUrr);
            lemma_ies_of_type_is_where(body, IeType::RemoveUrr);
        }
        assert(opt_vec_seq(m.remove_qers) == ies_of_type(body, IeType::RemoveQer) && (m.remove_qers is Some <==> ies_of_type(body, IeType::RemoveQer).len() > 0)) by {
            assert forall|x: IeType| #[trigger] slot_pred(cls, 4)(x) == (x == IeType::RemoveQer) by {}
            lemma_ies_where_ext(body, slot_pred(cls, 4), |x: IeType| x == IeType::RemoveQer);
            lemma_ies_of_type_is_where(body, IeType::RemoveQer);
        }
        assert(opt_vec_seq(m.remove_bars) == ies_of_type(body, IeType::RemoveBar) && (m.remove_bars is Some <==> ies_of_type(body, IeType::RemoveBar).len() > 0)) by {
            assert forall|x: IeType| #[trigger] slot_pred(cls, 5)(x) == (x == IeType::RemoveBar) by {}
            lemma_ies_where_ext(body, slot_pred(cls, 5), |x: IeType| x == IeType::RemoveBar);
            lemma_ies_of_type_is_where(body, IeType::RemoveBar);
        }
        assert(opt_vec_seq(m.remove_traffic_endpoints) == ies_of_type(body, IeType::RemoveTrafficEndpoint) && (m.remove_traffic_endpoints is Some <==> ies_of_type(body, IeType::RemoveTrafficEndpoint).len() > 0)) by {
            assert forall|x: IeType| #[trigger] slot_pred(cls, 6)(x) == (x == IeType::RemoveTrafficEndpoint) by {}
            lemma_ies_where_ext(body, slot_pred(cls, 6), |x: IeType| x == IeType::RemoveTrafficEndpoint);
            lemma_ies_of_type_is_where(body, IeType::RemoveTrafficEndpoint);
        }
        assert(opt_vec_seq(m.create_pdrs) == ies_of_type(body, IeType::CreatePdr) && (m.create_pdrs is Some <==> ies_of_type(body, IeType::CreatePdr).len() > 0)) by {
            assert forall|x: IeType| #[trigger] slot_pred(cls, 7)(x) == (x == IeType::CreatePdr) by {}
            lemma_ies_where_ext(body, slot_pred(cls, 7), |x: IeType| x == IeType::CreatePdr);
            lemma_ies_of_type_is_where(body, IeType::CreatePdr);
        }
        assert(opt_vec_seq(m.create_fars) == ies_of_type(body, IeType::CreateFar) && (m.create_fars is Some <==> ies_of_type(body, IeType::CreateFar).len() > 0)) by {
            assert forall|x: IeType| #[trigger] slot_pred(cls, 8)(x) == (x == IeType::CreateFar) by {}
            lemma_ies_where_ext(body, slot_pred(cls, 8), |x: IeType| x == IeType::CreateFar);
            lemma_ies_of_type_is_where(body, IeType::CreateFar);
        }
        assert(opt_vec_seq(m.create_urrs) == ies_of_type(body, IeType::CreateUrr) && (m.create_urrs is Some <==> ies_of_type(body, IeType::CreateUrr).len() > 0)) by {
            assert forall|x: IeType| #[trigger] slot_pred(cls, 9)(x) == (x == IeType::CreateUrr) by {}
            lemma_ies_where_ext(body, slot_pred(cls, 9), |x: IeType| x == IeType::CreateUrr);
            lemma_ies_of_type_is_where(body, IeType::CreateUrr);
        }
        assert(opt_vec_seq(m.create_qers) == ies_of_type(body, IeType::CreateQer) && (m.create_qers is Some <==> ies_of_type(body, IeType::CreateQer).len() > 0)) by {
            assert forall|x: IeType| #[trigger] slot_pred(cls, 10)(x) == (x == IeType::CreateQer) by {}
            lemma_ies_where_ext(body, slot_pred(cls, 10), |x: IeType| x == IeType::CreateQer);
            lemma_ies_of_type_is_where(body, IeType::CreateQer);
        }
        assert(opt_vec_seq(m.create_bars) == ies_of_type(body, IeType::CreateBar) && (m.create_bars is Some <==> ies_of_type(body, IeType::CreateBar).len() > 0)) by {
            assert forall|x: IeType| #[trigger] slot_pred(cls, 11)(x) == (x == IeType::CreateBar) by {}
            lemma_ies_where_ext(body, slot_pred(cls, 11), |x: IeType| x == IeType::CreateBar);
            lemma_ies_of_type_is_where(body, IeType::CreateBar);
        }
        assert(opt_vec_seq(m.create_traffic_endpoints) == ies_of_type(body, IeType::CreateTrafficEndpoint) && (m.create_traffic_endpoints is Some <==> ies_of_type(body, IeType::CreateTrafficEndpoint).len() > 0)) by {
            assert forall|x: IeType| #[trigger] slot_pred(cls, 12)(x) == (x == IeType::CreateTrafficEndpoint) by {}
            lemma_ies_where_ext(body, slot_pred(cls, 12), |x: IeType| x == IeType::CreateTrafficEndpoint);
            lemma_ies_of_type_is_where(body, IeType::CreateTrafficEndpoint);
        }
        assert(opt_vec_seq(m.update_pdrs) == ies_of_type(body, IeType::UpdatePdr) && (m.update_pdrs is Some <==> ies_of_type(body, IeType::UpdatePdr).len() > 0)) by {
            assert forall|x: IeType| #[trigger] slot_pred(cls, 13)(x) == (x == IeType::UpdatePdr) by {}
            lemma_ies_where_ext(body, slot_pred(cls, 13), |x: IeType| x == IeType::UpdatePdr);
            lemma_ies_of_type_is_where(body, IeType::UpdatePdr);
        }
        assert(opt_vec_seq(m.update_fars) == ies_of_type(body, IeType::UpdateFar) && (m.update_fars is Some <==> ies_of_type(body, IeType::UpdateFar).len() > 0)) by {
            assert forall|x: IeType| #[trigger] slot_pred(cls, 14)(x) == (x == IeType::UpdateFar) by {}
            lemma_ies_where_ext(body, slot_pred(cls, 14), |x: IeType| x == IeType::UpdateFar);
            lemma_ies_of_type_is_where(body, IeType::UpdateFar);
        }
        assert(opt_vec_seq(m.update_urrs) == ies_of_type(body, IeType::UpdateUrr) && (m.update_urrs is Some <==> ies_of_type(body, IeType::UpdateUrr).len() > 0)) by {
            assert forall|x: IeType| #[trigger] slot_pred(cls, 15)(x) == (x == IeType::UpdateUrr) by {}
            lemma_ies_where_ext(body, slot_pred(cls, 15), |x: IeType| x == IeType::UpdateUrr);
            lemma_ies_of_type_is_where(body, IeType::UpdateUrr);
        }
        assert(opt_vec_seq(m.update_qers) == ies_of_type(body, IeType::UpdateQer) && (m.update_qers is Some <==> ies_of_type(body, IeType::UpdateQer).len() > 0)) by {
            assert forall|x: IeType| #[trigger] slot_pred(cls, 16)(x) == (x == IeType::UpdateQer) by {}
            lemma_ies_where_ext(body, slot_pred(cls, 16), |x: IeType| x == IeType::UpdateQer);
            lemma_ies_of_type_is_where(body, IeType::UpdateQer);
        }
        assert(opt_vec_seq(m.update_bars) == ies_of_type(body, IeType::UpdateBar) && (m.update_bars is Some <==> ies_of_type(body, IeType::UpdateBar).len() > 0)) by {
            assert forall|x: IeType| #[trigger] slot_pred(cls, 17)(x) == (x == IeType::UpdateBar) by {}
            lemma_ies_where_ext(body, slot_pred(cls, 17), |x: IeType| x == IeType::UpdateBar);
            lemma_ies_of_type_is_where(body, IeType::UpdateBar);
        }
        assert(opt_vec_seq(m.update_traffic_endpoints) == ies_of_type(body, IeType::UpdateTrafficEndpoint) && (m.update_traffic_endpoints is Some <==> ies_of_type(body, IeType::UpdateTrafficEndpoint).len() > 0)) by {
            assert forall|x: IeType| #[trigger] slot_pred(cls, 18)(x) == (x == IeType::UpdateTrafficEndpoint) by {}
            lemma_ies_where_ext(body, slot_pred(cls, 18), |x: IeType| x == IeType::UpdateTrafficEndpoint);
            lemma_ies_of_type_is_where(body, IeType::UpdateTrafficEndpoint);
        }
        assert((ies_of_type(body, IeType::PdnType).len() == 0 ==> m.pdn_type is None) && (ies_of_type(body, IeType::PdnType).len() > 0 ==> (m.pdn_type matches Some(x) && x@ == ies_of_type(body, IeType::PdnType).last()))) by {
            assert forall|x: IeType| #[trigger] slot_pred(cls, 19)(x) == (x == IeType::PdnType) by {}
            lemma_ies_where_ext(body, slot_pred(cls, 19), |x: IeType| x == IeType::PdnType);
            lemma_ies_of_type_is_where(body, IeType::PdnType);
            assert(decode_slot(body, cls, 19, SlotKind::One) == last_seq(ies_of_type(body, IeType::PdnType)));
            if ies_of_type(body, IeType::PdnType).len() > 0 { assert(opt_ie_seq(m.pdn_type)[0] == ies_of_type(body, IeType::PdnType).last()); }
        }
        assert((ies_of_type(body, IeType::UserId).len() == 0 ==> m.user_id is None) && (ies_of_type(body, IeType::UserId).len() > 0 ==> (m.user_id matches Some(x) && x@ == ies_of_type(body, IeType::UserId).last()))) by {
            assert forall|x: IeType| #[trigger] slot_pred(cls, 20)(x) == (x == IeType::UserId) by {}
            lemma_ies_where_ext(body, slot_pred(cls, 20), |x: IeType| x == IeType::UserId);
            lemma_ies_of_type_is_where(body, IeType::UserId);
            assert(decode_slot(body, cls, 20, SlotKind::One) == last_seq(ies_of_type(body, IeType::UserId)));
            if ies_of_type(body, IeType::UserId).len() > 0 { assert(opt_ie_seq(m.user_id)[0] == ies_of_type(body, IeType::UserId).last()); }
        }
        assert((ies_of_type(body, IeType::Snssai).len() == 0 ==> m.s_nssai is None) && (ies_of_type(body, IeType::Snssai).len() > 0 ==> (m.s_nssai matches Some(x) && x@ == ies_of_type(body, IeType::Snssai).last()))) by {
            assert forall|x: IeType| #[trigger] slot_pred(cls, 21)(x) == (x == IeType::Snssai) by {}
            lemma_ies_where_ext(body, slot_pred(cls, 21), |x: IeType| x == IeType::Snssai);
            lemma_ies_of_type_is_where(body, IeType::Snssai);
            assert(decode_slot(body, cls, 21, SlotKind::One) == last_seq(ies_of_type(body, IeType::Snssai)));
            if ies_of_type(body, IeType::Snssai).len() > 0 { assert(opt_ie_seq(m.s_nssai)[0] == ies_of_type(body, IeType::Snssai).last()); }
        }
        assert((ies_of_type(body, IeType::TraceInformation).len() == 0 ==> m.trace_information is None) && (ies_of_type(body, IeType::TraceInformation).len() > 0 ==> (m.trace_information matches Some(x) && x@ == ies_of_type(body, IeType::TraceInformation).last()))) by {
            assert forall|x: IeType| #[trigger] slot_pred(cls, 22)(x) == (x == IeType::TraceInformation) by {}
            lemma_ies_where_ext(body, slot_pred(cls, 22), |x: IeType| x == IeType::TraceInformation);
            lemma_ies_of_type_is_where(body, IeType::TraceInformation);
            assert(decode_slot(body, cls, 22, SlotKind::One) == last_seq(ies_of_type(body, IeType::TraceInformation)));
            if ies_of_type(body, IeType::TraceInformation).len() > 0 { assert(opt_ie_seq(m.trace_information)[0] == ies_of_type(body, IeType::TraceInformation).last()); }
        }
        assert((ies_of_type(body, IeType::RecoveryTimeStamp).len() == 0 ==> m.recovery_time_stamp is None) && (ies_of_type(body, IeType::RecoveryTimeStamp).len() > 0 ==> (m.recovery_time_stamp matches Some(x) && x@ == ies_of_type(body, IeType::RecoveryTimeStamp).last()))) by {
            assert forall|x: IeType| #[trigger] slot_pred(cls, 23)(x) == (x == IeType::RecoveryTimeStamp) by {}
            lemma_ies_where_ext(body, slot_pred(cls, 23), |x: IeType| x == IeType::RecoveryTimeStamp);
            lemma_ies_of_type_is_where(body, IeType::RecoveryTimeStamp);
            assert(decode_slot(body, cls, 23, SlotKind::One) == last_seq(ies_of_type(body, IeType::RecoveryTimeStamp)));
            if ies_of_type(body, IeType::RecoveryTimeStamp).len() > 0 { assert(opt_ie_seq(m.recovery_time_stamp)[0] == ies_of_type(body, IeType::RecoveryTimeStamp).last()); }
        }
        assert((ies_of_type(body, IeType::CpFunctionFeatures).len() == 0 ==> m.cp_function_features is None) && (ies_of_type(body, IeType::CpFunctionFeatures).len() > 0 ==> (m.cp_function_features matches Some(x) && x@ == ies_of_type(body, IeType::CpFunctionFeatures).last()))) by {
            assert forall|x: IeType| #[trigger] slot_pred(cls, 24)(x) == (x == IeType::CpFunctionFeatures) by {}
            lemma_ies_where_ext(body, slot_pred(cls, 24), |x: IeType| x == IeType::CpFunctionFeatures);
            lemma_ies_of_type_is_where(body, IeType::CpFunctionFeatures);
            assert(decode_slot(body, cls, 24, SlotKind::One) == last_seq(ies_of_type(body, IeType::CpFunctionFeatures)));
            if ies_of_type(body, IeType::CpFunctionFeatures).len() > 0 { assert(opt_ie_seq(m.cp_function_features)[0] == ies_of_type(body, IeType::CpFunctionFeatures).last()); }
        }
        assert((ies_of_type(body, IeType::ApnDnn).len() == 0 ==> m.apn_dnn is None) && (ies_of_type(body, IeType::ApnDnn).len() > 0 ==> (m.apn_dnn matches Some(x) && x@ == ies_of_type(body, IeType::ApnDnn).last()))) by {
            assert forall|x: IeType| #[trigger] slot_pred(cls, 25)(x) == (x == IeType::ApnDnn) by {}
            lemma_ies_where_ext(body, slot_pred(cls, 25), |x: IeType| x == IeType::ApnDnn);
            lemma_ies_of_type_is_where(body, IeType::ApnDnn);
            assert(decode_slot(body, cls, 25, SlotKind::One) == last_seq(ies_of_type(body, IeType::ApnDnn)));
            if ies_of_type(body, IeType::ApnDnn).len() > 0 { assert(opt_ie_seq(m.apn_dnn)[0] == ies_of_type(body, IeType::ApnDnn).last()); }
        }
        assert((ies_of_type(body, IeType::UserPlaneInactivityTimer).len() == 0 ==> m.user_plane_inactivity_timer is None) && (ies_of_type(body, IeType::UserPlaneInactivityTimer).len() > 0 ==> (m.user_plane_inactivity_timer matches Some(x) && x@ == ies_of_type(body, IeType::UserPlaneInactivityTimer).last()))) by {
            assert forall|x: IeType| #[trigger] slot_pred(cls, 26)(x) == (x == IeType::UserPlaneInactivityTimer) by {}
            lemma_ies_where_ext(body, slot_pred(cls, 26), |x: IeType| x == IeType::UserPlaneInactivityTimer);
            lemma_ies_of_type_is_where(body, IeType::UserPlaneInactivityTimer);
            assert(decode_slot(body, cls, 26, SlotKind::One) == last_seq(ies_of_type(body, IeType::UserPlaneInactivityTimer)));
            if ies_of_type(body, IeType::UserPlaneInactivityTimer).len() > 0 { assert(opt_ie_seq(m.user_plane_inactivity_timer)[0] == ies_of_type(body, IeType::UserPlaneInactivityTimer).last()); }
        }
        assert((ies_of_type(body, IeType::PfcpsmReqFlags).len() == 0 ==> m.pfcpsm_req_flags is None) && (ies_of_type(body, IeType::PfcpsmReqFlags).len() > 0 ==> (m.pfcpsm_req_flags matches Some(x) && x@ == ies_of_type(body, IeType::PfcpsmReqFlags).last()))) by {
            assert forall|x: IeType| #[trigger] slot_pred(cls, 27)(x) == (x == IeType::PfcpsmReqFlags) by {}
            lemma_ies_where_ext(body, slot_pred(cls, 27), |x: IeType| x == IeType::PfcpsmReqFlags);
            lemma_ies_of_type_is_where(body, IeType::PfcpsmReqFlags);
            assert(decode_slot(body, cls, 27, SlotKind::One) == last_seq(ies_of_type(body, IeType::PfcpsmReqFlags)));
            if ies_of_type(body, IeType::PfcpsmReqFlags).len() > 0 { assert(opt_ie_seq(m.pfcpsm_req_flags)[0] == ies_of_type(body, IeType::PfcpsmReqFlags).last()); }
        }
        assert((ies_of_type(body, IeType::EthernetContextInformation).len() == 0 ==> m.ethernet_context_information is None) && (ies_of_type(body, IeType::EthernetContextInformation).len() > 0 ==> (m.ethernet_context_information matches Some(x) && x@ == ies_of_type(body, IeType::EthernetContextInformation).last()))) by {
            assert forall|x: IeType| #[trigger] slot_pred(cls, 28)(x) == (x == IeType::EthernetContextInformation) by {}
            lemma_ies_where_ext(body, slot_pred(cls, 28), |x: IeType| x == IeType::EthernetContextInformation);
            lemma_ies_of_type_is_where(body, IeType::EthernetContextInformation);
            assert(decode_slot(body, cls, 28, SlotKind::One) == last_seq(ies_of_type(body, IeType::EthernetContextInformation)));
            if ies_of_type(body, IeType::EthernetContextInformation).len() > 0 { assert(opt_ie_seq(m.ethernet_context_information)[0] == ies_of_type(body, IeType::EthernetContextInformation).last()); }
        }
        assert(ies_view(m.ies@) == ies_where(body, |t: IeType| t != IeType::Fseid && t != IeType::RemovePdr && t != IeType::RemoveFar && t != IeType::RemoveUrr && t != IeType::RemoveQer && t != IeType::RemoveBar && t != IeType::RemoveTrafficEndpoint && t != IeType::CreatePdr && t != IeType::CreateFar && t != IeType::CreateUrr && t != IeType::CreateQer && t != IeType::CreateBar && t != IeType::CreateTrafficEndpoint && t != IeType::UpdatePdr && t != IeType::UpdateFar && t != IeType::UpdateUrr && t != IeType::UpdateQer && t != IeType::UpdateBar && t != IeType::UpdateTrafficEndpoint && t != IeType::PdnType && t != IeType::UserId && t != IeType::Snssai && t != IeType::TraceInformation && t != IeType::RecoveryTimeStamp && t != IeType::CpFunctionFeatures && t != IeType::ApnDnn && t != IeType::UserPlaneInactivityTimer && t != IeType::PfcpsmReqFlags && t != IeType::EthernetContextInformation)) by {
            assert forall|t: IeType| #[trigger] slot_pred(cls, 29)(t) == (t != IeType::Fseid && t != IeType::RemovePdr && t != IeType::RemoveFar && t != IeType::RemoveUrr && t != IeType::RemoveQer && t != IeType::RemoveBar && t != IeType::RemoveTrafficEndpoint && t != IeType::CreatePdr && t != IeType::CreateFar && t != IeType::CreateUrr && t != IeType::CreateQer && t != IeType::CreateBar && t != IeType::CreateTrafficEndpoint && t != IeType::UpdatePdr && t != IeType::UpdateFar && t != IeType::UpdateUrr && t != IeType::UpdateQer && t != IeType::UpdateBar && t != IeType::UpdateTrafficEndpoint && t != IeType::PdnType && t != IeType::UserId && t != IeType::Snssai && t != IeType::TraceInformation && t != IeType::RecoveryTimeStamp && t != IeType::CpFunctionFeatures && t != IeType::ApnDnn && t != IeType::UserPlaneInactivityTimer && t != IeType::PfcpsmReqFlags && t != IeType::EthernetContextInformation) by {}
            lemma_ies_where_ext(body, slot_pred(cls, 29), |t: IeType| t != IeType::Fseid && t != IeType::RemovePdr && t != IeType::RemoveFar && t != IeType::RemoveUrr && t != IeType::RemoveQer && t != IeType::RemoveBar && t != IeType::RemoveTrafficEndpoint && t != IeType::CreatePdr && t != IeType::CreateFar && t != IeType::CreateUrr && t != IeType::CreateQer && t != IeType::CreateBar && t != IeType::CreateTrafficEndpoint && t != IeType::UpdatePdr && t != IeType::UpdateFar && t != IeType::UpdateUrr && t != IeType::UpdateQer && t != IeType::UpdateBar && t != IeType::UpdateTrafficEndpoint && t != IeType::PdnType && t != IeType::UserId && t != IeType::Snssai && t != IeType::TraceInformation && t != IeType::RecoveryTimeStamp && t != IeType::CpFunctionFeatures && t != IeType::ApnDnn && t != IeType::UserPlaneInactivityTimer && t != IeType::PfcpsmReqFlags && t != IeType::EthernetContextInformation);
        }
    }
}

/// When every IE is in the field named for its type, every IE sits in the slot
/// that decoding assigns its type to.
proof fn lemma_session_modification_request_fields_classified(m: SessionModificationRequest)
    requires
        m.fields_hold_their_types(),
    ensures
        slots_classified(m.slots(), SessionModificationRequest::classifier()),
{
    reveal(SessionModificationRequest::fields_hold_their_types);
    let cls = SessionModificationRequest::classifier();
    assert(slots_classified(Seq::<Seq<IeView>>::empty(), cls));
    assert(slots_classified(Seq::<Seq<IeView>>::empty().push(opt_ie_seq(m.fseid)), cls)) by {
        assert forall|k: int| 0 <= k < opt_ie_seq(m.fseid).len() implies cls(#[trigger] opt_ie_seq(m.fseid)[k].ie_type) == 0 by {
        }
        lemma_classified_push(Seq::<Seq<IeView>>::empty(), opt_ie_seq(m.fseid), cls);
    }
    assert(slots_classified(Seq::<Seq<IeView>>::empty().push(opt_ie_seq(m.fseid)).push(opt_vec_seq(m.remove_pdrs)), cls)) by {
        assert forall|k: int| 0 <= k < opt_vec_seq(m.remove_pdrs).len() implies cls(#[trigger] opt_vec_seq(m.remove_pdrs)[k].ie_type) == 1 by {
            assert(opt_vec_seq(m.remove_pdrs)[k] == m.remove_pdrs->Some_0@[k]@);
        }
        lemma_classified_push(Seq::<Seq<IeView>>::empty().push(opt_ie_seq(m.fseid)), opt_vec_seq(m.remove_pdrs), cls);
    }
    assert(slots_classified(Seq::<Seq<IeView>>::empty().push(opt_ie_seq(m.fseid)).push(opt_vec_seq(m.remove_pdrs)).push(opt_vec_seq(m.remove_fars)), cls)) by {
        assert forall|k: int| 0 <= k < opt_vec_seq(m.remove_fars).len() implies cls(#[trigger] opt_vec_seq(m.remove_fars)[k].ie_type) == 2 by {
            assert(opt_vec_seq(m.remove_fars)[k] == m.remove_fars->Some_0@[k]@);
        }
        lemma_classified_push(Seq::<Seq<IeView>>::empty().push(opt_ie_seq(m.fseid)).push(opt_vec_seq(m.remove_pdrs)), opt_vec_seq(m.remove_fars), cls);
    }
    assert(slots_classified(Seq::<Seq<IeView>>::empty().push(opt_ie_seq(m.fseid)).push(opt_vec_seq(m.remove_pdrs)).push(opt_vec_seq(m.remove_fars)).push(opt_vec_seq(m.remove_urrs)), cls)) by {
        assert forall|k: int| 0 <= k < opt_vec_seq(m.remove_urrs).len() implies cls(#[trigger] opt_vec_seq(m.remove_urrs)[k].ie_type) == 3 by {
            assert(opt_vec_seq(m.remove_urrs)[k] == m.remove_urrs->Some_0@[k]@);
        }
        lemma_classified_push(Seq::<Seq<IeView>>::empty().push(opt_ie_seq(m.fseid)).push(opt_vec_seq(m.remove_pdrs)).push(opt_vec_seq(m.remove_fars)), opt_vec_seq(m.remove_urrs), cls);
    }
    assert(slots_classified(Seq::<Seq<IeView>>::empty().push(opt_ie_seq(m.fseid)).push(opt_vec_seq(m.remove_pdrs)).push(opt_vec_seq(m.remove_fars)).push(opt_vec_seq(m.remove_urrs)).push(opt_vec_seq(m.remove_qers)), cls)) by {
        assert forall|k: int| 0 <= k < opt_vec_seq(m.remove_qers).len() implies cls(#[trigger] opt_vec_seq(m.remove_qers)[k].ie_type) == 4 by {
            assert(opt_vec_seq(m.remove_qers)[k] == m.remove_qers->Some_0@[k]@);
        }
        lemma_classified_push(Seq::<Seq<IeView>>::empty().push(opt_ie_seq(m.fseid)).push(opt_vec_seq(m.remove_pdrs)).push(opt_vec_seq(m.remove_fars)).push(opt_vec_seq(m.remove_urrs)), opt_vec_seq(m.remove_qers), cls);
    }
    assert(slots_classified(Seq::<Seq<IeView>>::empty().push(opt_ie_seq(m.fseid)).push(opt_vec_seq(m.remove_pdrs)).push(opt_vec_seq(m.remove_fars)).push(opt_vec_seq(m.remove_urrs)).push(opt_vec_seq(m.remove_qers)).push(opt_vec_seq(m.remove_bars)), cls)) by {
        assert forall|k: int| 0 <= k < opt_vec_seq(m.remove_bars).len() implies cls(#[trigger] opt_vec_seq(m.remove_bars)[k].ie_type) == 5 by {
            assert(opt_vec_seq(m.remove_bars)[k] == m.remove_bars->Some_0@[k]@);
        }
        lemma_classified_push(Seq::<Seq<IeView>>::empty().push(opt_ie_seq(m.fseid)).push(opt_vec_seq(m.remove_pdrs)).push(opt_vec_seq(m.remove_fars)).push(opt_vec_seq(m.remove_urrs)).push(opt_vec_seq(m.remove_qers)), opt_vec_seq(m.remove_bars), cls);
    }
    assert(slots_classified(Seq::<Seq<IeView>>::empty().push(opt_ie_seq(m.fseid)).push(opt_vec_seq(m.remove_pdrs)).push(opt_vec_seq(m.remove_fars)).push(opt_vec_seq(m.remove_urrs)).push(opt_vec_seq(m.remove_qers)).push(opt_vec_seq(m.remove_bars)).push(opt_vec_seq(m.remove_traffic_endpoints)), cls)) by {
        assert forall|k: int| 0 <= k < opt_vec_seq(m.remove_traffic_endpoints).len() implies cls(#[trigger] opt_vec_seq(m.remove_traffic_endpoints)[k].ie_type) == 6 by {
            assert(opt_vec_seq(m.remove_traffic_endpoints)[k] == m.remove_traffic_endpoints->Some_0@[k]@);
        }
        lemma_classified_push(Seq::<Seq<IeView>>::empty().push(opt_ie_seq(m.fseid)).push(opt_vec_seq(m.remove_pdrs)).push(opt_vec_seq(m.remove_fars)).push(opt_vec_seq(m.remove_urrs)).push(opt_vec_seq(m.remove_qers)).push(opt_vec_seq(m.remove_bars)), opt_vec_seq(m.remove_traffic_endpoints), cls);
    }
    assert(slots_classified(Seq::<Seq<IeView>>::empty().push(opt_ie_seq(m.fseid)).push(opt_vec_seq(m.remove_pdrs)).push(opt_vec_seq(m.remove_fars)).push(opt_vec_seq(m.remove_urrs)).push(opt_vec_seq(m.remove_qers)).push(opt_vec_seq(m.remove_bars)).push(opt_vec_seq(m.remove_traffic_endpoints)).push(opt_vec_seq(m.create_pdrs)), cls)) by {
        assert forall|k: int| 0 <= k < opt_vec_seq(m.create_pdrs).len() implies cls(#[trigger] opt_vec_seq(m.create_pdrs)[k].ie_type) == 7 by {
            assert(opt_vec_seq(m.create_pdrs)[k] == m.create_pdrs->Some_0@[k]@);
        }
        lemma_classified_push(Seq::<Seq<IeView>>::empty().push(opt_ie_seq(m.fseid)).push(opt_vec_seq(m.remove_pdrs)).push(opt_vec_seq(m.remove_fars)).push(opt_vec_seq(m.remove_urrs)).push(opt_vec_seq(m.remove_qers)).push(opt_vec_seq(m.remove_bars)).push(opt_vec_seq(m.remove_traffic_endpoints)), opt_vec_seq(m.create_pdrs), cls);
    }
    assert(slots_classified(Seq::<Seq<IeView>>::empty().push(opt_ie_seq(m.fseid)).push(opt_vec_seq(m.remove_pdrs)).push(opt_vec_seq(m.remove_fars)).push(opt_vec_seq(m.remove_urrs)).push(opt_vec_seq(m.remove_qers)).push(opt_vec_seq(m.remove_bars)).push(opt_vec_seq(m.remove_traffic_endpoints)).push(opt_vec_seq(m.create_pdrs)).push(opt_vec_seq(m.create_fars)), cls)) by {
        assert forall|k: int| 0 <= k < opt_vec_seq(m.create_fars).len() implies cls(#[trigger] opt_vec_seq(m.create_fars)[k].ie_type) == 8 by {
            assert(opt_vec_seq(m.create_fars)[k] == m.create_fars->Some_0@[k]@);
        }
        lemma_classified_push(Seq::<Seq<IeView>>::empty().push(opt_ie_seq(m.fseid)).push(opt_vec_seq(m.remove_pdrs)).push(opt_vec_seq(m.remove_fars)).push(opt_vec_seq(m.remove_urrs)).push(opt_vec_seq(m.remove_qers)).push(opt_vec_seq(m.remove_bars)).push(opt_vec_seq(m.remove_traffic_endpoints)).push(opt_vec_seq(m.create_pdrs)), opt_vec_seq(m.create_fars), cls);
    }
    assert(slots_classified(Seq::<Seq<IeView>>::empty().push(opt_ie_seq(m.fseid)).push(opt_vec_seq(m.remove_pdrs)).push(opt_vec_seq(m.remove_fars)).push(opt_vec_seq(m.remove_urrs)).push(opt_vec_seq(m.remove_qers)).push(opt_vec_seq(m.remove_bars)).push(opt_vec_seq(m.remove_traffic_endpoints)).push(opt_vec_seq(m.create_pdrs)).push(opt_vec_seq(m.create_fars)).push(opt_vec_seq(m.create_urrs)), cls)) by {
        assert forall|k: int| 0 <= k < opt_vec_seq(m.create_urrs).len() implies cls(#[trigger] opt_vec_seq(m.create_urrs)[k].ie_type) == 9 by {
            assert(opt_vec_seq(m.create_urrs)[k] == m.create_urrs->Some_0@[k]@);
        }
        lemma_classified_push(Seq::<Seq<IeView>>::empty().push(opt_ie_seq(m.fseid)).push(opt_vec_seq(m.remove_pdrs)).push(opt_vec_seq(m.remove_fars)).push(opt_vec_seq(m.remove_urrs)).push(opt_vec_seq(m.remove_qers)).push(opt_vec_seq(m.remove_bars)).push(opt_vec_seq(m.remove_traffic_endpoints)).push(opt_vec_seq(m.create_pdrs)).push(opt_vec_seq(m.create_fars)), opt_vec_seq(m.create_urrs), cls);
    }
    assert(slots_classified(Seq::<Seq<IeView>>::empty().push(opt_ie_seq(m.fseid)).push(opt_vec_seq(m.remove_pdrs)).push(opt_vec_seq(m.remove_fars)).push(opt_vec_seq(m.remove_urrs)).push(opt_vec_seq(m.remove_qers)).push(opt_vec_seq(m.remove_bars)).push(opt_vec_seq(m.remove_traffic_endpoints)).push(opt_vec_seq(m.create_pdrs)).push(opt_vec_seq(m.create_fars)).push(opt_vec_seq(m.create_urrs)).push(opt_vec_seq(m.create_qers)), cls)) by {
        assert forall|k: int| 0 <= k < opt_vec_seq(m.create_qers).len() implies cls(#[trigger] opt_vec_seq(m.create_qers)[k].ie_type) == 10 by {
            assert(opt_vec_seq(m.create_qers)[k] == m.create_qers->Some_0@[k]@);
        }
        lemma_classified_push(Seq::<Seq<IeView>>::empty().push(opt_ie_seq(m.fseid)).push(opt_vec_seq(m.remove_pdrs)).push(opt_vec_seq(m.remove_fars)).push(opt_vec_seq(m.remove_urrs)).push(opt_vec_seq(m.remove_qers)).push(opt_vec_seq(m.remove_bars)).push(opt_vec_seq(m.remove_traffic_endpoints)).push(opt_vec_seq(m.create_pdrs)).push(opt_vec_seq(m.create_fars)).push(opt_vec_seq(m.create_urrs)), opt_vec_seq(m.create_qers), cls);
    }
    assert(slots_classified(Seq::<Seq<IeView>>::empty().push(opt_ie_seq(m.fseid)).push(opt_vec_seq(m.remove_pdrs)).push(opt_vec_seq(m.remove_fars)).push(opt_vec_seq(m.remove_urrs)).push(opt_vec_seq(m.remove_qers)).push(opt_vec_seq(m.remove_bars)).push(opt_vec_seq(m.remove_traffic_endpoints)).push(opt_vec_seq(m.create_pdrs)).push(opt_vec_seq(m.create_fars)).push(opt_vec_seq(m.create_urrs)).push(opt_vec_seq(m.create_qers)).push(opt_vec_seq(m.create_bars)), cls)) by {
        assert forall|k: int| 0 <= k < opt_vec_seq(m.create_bars).len() implies cls(#[trigger] opt_vec_seq(m.create_bars)[k].ie_type) == 11 by {
            assert(opt_vec_seq(m.create_bars)[k] == m.create_bars->Some_0@[k]@);
        }
        lemma_classified_push(Seq::<Seq<IeView>>::empty().push(opt_ie_seq(m.fseid)).push(opt_vec_seq(m.remove_pdrs)).push(opt_vec_seq(m.remove_fars)).push(opt_vec_seq(m.remove_urrs)).push(opt_vec_seq(m.remove_qers)).push(opt_vec_seq(m.remove_bars)).push(opt_vec_seq(m.remove_traffic_endpoints)).push(opt_vec_seq(m.create_pdrs)).push(opt_vec_seq(m.create_fars)).push(opt_vec_seq(m.create_urrs)).push(opt_vec_seq(m.create_qers)), opt_vec_seq(m.create_bars), cls);
    }
    assert(slots_classified(Seq::<Seq<IeView>>::empty().push(opt_ie_seq(m.fseid)).push(opt_vec_seq(m.remove_pdrs)).push(opt_vec_seq(m.remove_fars)).push(opt_vec_seq(m.remove_urrs)).push(opt_vec_seq(m.remove_qers)).push(opt_vec_seq(m.remove_bars)).push(opt_vec_seq(m.remove_traffic_endpoints)).push(opt_vec_seq(m.create_pdrs)).push(opt_vec_seq(m.create_fars)).push(opt_vec_seq(m.create_urrs)).push(opt_vec_seq(m.create_qers)).push(opt_vec_seq(m.create_bars)).push(opt_vec_seq(m.create_traffic_endpoints)), cls)) by {
        assert forall|k: int| 0 <= k < opt_vec_seq(m.create_traffic_endpoints).len() implies cls(#[trigger] opt_vec_seq(m.create_traffic_endpoints)[k].ie_type) == 12 by {
            assert(opt_vec_seq(m.create_traffic_endpoints)[k] == m.create_traffic_endpoints->Some_0@[k]@);
        }
        lemma_classified_push(Seq::<Seq<IeView>>::empty().push(opt_ie_seq(m.fseid)).push(opt_vec_seq(m.remove_pdrs)).push(opt_vec_seq(m.remove_fars)).push(opt_vec_seq(m.remove_urrs)).push(opt_vec_seq(m.remove_qers)).push(opt_vec_seq(m.remove_bars)).push(opt_vec_seq(m.remove_traffic_endpoints)).push(opt_vec_seq(m.create_pdrs)).push(opt_vec_seq(m.create_fars)).push(opt_vec_seq(m.create_urrs)).push(opt_vec_seq(m.create_qers)).push(opt_vec_seq(m.create_bars)), opt_vec_seq(m.create_traffic_endpoints), cls);
    }
    assert(slots_classified(Seq::<Seq<IeView>>::empty().push(opt_ie_seq(m.fseid)).push(opt_vec_seq(m.remove_pdrs)).push(opt_vec_seq(m.remove_fars)).push(opt_vec_seq(m.remove_urrs)).push(opt_vec_seq(m.remove_qers)).push(opt_vec_seq(m.remove_bars)).push(opt_vec_seq(m.remove_traffic_endpoints)).push(opt_vec_seq(m.create_pdrs)).push(opt_vec_seq(m.create_fars)).push(opt_vec_seq(m.create_urrs)).push(opt_vec_seq(m.create_qers)).push(opt_vec_seq(m.create_bars)).push(opt_vec_seq(m.create_traffic_endpoints)).push(opt_vec_seq(m.update_pdrs)), cls)) by {
        assert forall|k: int| 0 <= k < opt_vec_seq(m.update_pdrs).len() implies cls(#[trigger] opt_vec_seq(m.update_pdrs)[k].ie_type) == 13 by {
            assert(opt_vec_seq(m.update_pdrs)[k] == m.update_pdrs->Some_0@[k]@);
        }
        lemma_classified_push(Seq::<Seq<IeView>>::empty().push(opt_ie_seq(m.fseid)).push(opt_vec_seq(m.remove_pdrs)).push(opt_vec_seq(m.remove_fars)).push(opt_vec_seq(m.remove_urrs)).push(opt_vec_seq(m.remove_qers)).push(opt_vec_seq(m.remove_bars)).push(opt_vec_seq(m.remove_traffic_endpoints)).push(opt_vec_seq(m.create_pdrs)).push(opt_vec_seq(m.create_fars)).push(opt_vec_seq(m.create_urrs)).push(opt_vec_seq(m.create_qers)).push(opt_vec_seq(m.create_bars)).push(opt_vec_seq(m.create_traffic_endpoints)), opt_vec_seq(m.update_pdrs), cls);
    }
    assert(slots_classified(Seq::<Seq<IeView>>::empty().push(opt_ie_seq(m.fseid)).push(opt_vec_seq(m.remove_pdrs)).push(opt_vec_seq(m.remove_fars)).push(opt_vec_seq(m.remove_urrs)).push(opt_vec_seq(m.remove_qers)).push(opt_vec_seq(m.remove_bars)).push(opt_vec_seq(m.remove_traffic_endpoints)).push(opt_vec_seq(m.create_pdrs)).push(opt_vec_seq(m.create_fars)).push(opt_vec_seq(m.create_urrs)).push(opt_vec_seq(m.create_qers)).push(opt_vec_seq(m.create_bars)).push(opt_vec_seq(m.create_traffic_endpoints)).push(opt_vec_seq(m.update_pdrs)).push(opt_vec_seq(m.update_fars)), cls)) by {
        assert forall|k: int| 0 <= k < opt_vec_seq(m.update_fars).len() implies cls(#[trigger] opt_vec_seq(m.update_fars)[k].ie_type) == 14 by {
            assert(opt_vec_seq(m.update_fars)[k] == m.update_fars->Some_0@[k]@);
        }
        lemma_classified_push(Seq::<Seq<IeView>>::empty().push(opt_ie_seq(m.fseid)).push(opt_vec_seq(m.remove_pdrs)).push(opt_vec_seq(m.remove_fars)).push(opt_vec_seq(m.remove_urrs)).push(opt_vec_seq(m.remove_qers)).push(opt_vec_seq(m.remove_bars)).push(opt_vec_seq(m.remove_traffic_endpoints)).push(opt_vec_seq(m.create_pdrs)).push(opt_vec_seq(m.create_fars)).push(opt_vec_seq(m.create_urrs)).push(opt_vec_seq(m.create_qers)).push(opt_vec_seq(m.create_bars)).push(opt_vec_seq(m.create_traffic_endpoints)).push(opt_vec_seq(m.update_pdrs)), opt_vec_seq(m.update_fars), cls);
    }
    assert(slots_classified(Seq::<Seq<IeView>>::empty().push(opt_ie_seq(m.fseid)).push(opt_vec_seq(m.remove_pdrs)).push(opt_vec_seq(m.remove_fars)).push(opt_vec_seq(m.remove_urrs)).push(opt_vec_seq(m.remove_qers)).push(opt_vec_seq(m.remove_bars)).push(opt_vec_seq(m.remove_traffic_endpoints)).push(opt_vec_seq(m.create_pdrs)).push(opt_vec_seq(m.create_fars)).push(opt_vec_seq(m.create_urrs)).push(opt_vec_seq(m.create_qers)).push(opt_vec_seq(m.create_bars)).push(opt_vec_seq(m.create_traffic_endpoints)).push(opt_vec_seq(m.update_pdrs)).push(opt_vec_seq(m.update_fars)).push(opt_vec_seq(m.update_urrs)), cls)) by {
        assert forall|k: int| 0 <= k < opt_vec_seq(m.update_urrs).len() implies cls(#[trigger] opt_vec_seq(m.update_urrs)[k].ie_type) == 15 by {
            assert(opt_vec_seq(m.update_urrs)[k] == m.update_urrs->Some_0@[k]@);
        }
        lemma_classified_push(Seq::<Seq<IeView>>::empty().push(opt_ie_seq(m.fseid)).push(opt_vec_seq(m.remove_pdrs)).push(opt_vec_seq(m.remove_fars)).push(opt_vec_seq(m.remove_urrs)).push(opt_vec_seq(m.remove_qers)).push(opt_vec_seq(m.remove_bars)).push(opt_vec_seq(m.remove_traffic_endpoints)).push(opt_vec_seq(m.create_pdrs)).push(opt_vec_seq(m.create_fars)).push(opt_vec_seq(m.create_urrs)).push(opt_vec_seq(m.create_qers)).push(opt_vec_seq(m.create_bars)).push(opt_vec_seq(m.create_traffic_endpoints)).push(opt_vec_seq(m.update_pdrs)).push(opt_vec_seq(m.update_fars)), opt_vec_seq(m.update_urrs), cls);
    }
    assert(slots_classified(Seq::<Seq<IeView>>::empty().push(opt_ie_seq(m.fseid)).push(opt_vec_seq(m.remove_pdrs)).push(opt_vec_seq(m.remove_fars)).push(opt_vec_seq(m.remove_urrs)).push(opt_vec_seq(m.remove_qers)).push(opt_vec_seq(m.remove_bars)).push(opt_vec_seq(m.remove_traffic_endpoints)).push(opt_vec_seq(m.create_pdrs)).push(opt_vec_seq(m.create_fars)).push(opt_vec_seq(m.create_urrs)).push(opt_vec_seq(m.create_qers)).push(opt_vec_seq(m.create_bars)).push(opt_vec_seq(m.create_traffic_endpoints)).push(opt_vec_seq(m.update_pdrs)).push(opt_vec_seq(m.update_fars)).push(opt_vec_seq(m.update_urrs)).push(opt_vec_seq(m.update_qers)), cls)) by {
        assert forall|k: int| 0 <= k < opt_vec_seq(m.update_qers).len() implies cls(#[trigger] opt_vec_seq(m.update_qers)[k].ie_type) == 16 by {
            assert(opt_vec_seq(m.update_qers)[k] == m.update_qers->Some_0@[k]@);
        }
        lemma_classified_push(Seq::<Seq<IeView>>::empty().push(opt_ie_seq(m.fseid)).push(opt_vec_seq(m.remove_pdrs)).push(opt_vec_seq(m.remove_fars)).push(opt_vec_seq(m.remove_urrs)).push(opt_vec_seq(m.remove_qers)).push(opt_vec_seq(m.remove_bars)).push(opt_vec_seq(m.remove_traffic_endpoints)).push(opt_vec_seq(m.create_pdrs)).push(opt_vec_seq(m.create_fars)).push(opt_vec_seq(m.create_urrs)).push(opt_vec_seq(m.create_qers)).push(opt_vec_seq(m.create_bars)).push(opt_vec_seq(m.create_traffic_endpoints)).push(opt_vec_seq(m.update_pdrs)).push(opt_vec_seq(m.update_fars)).push(opt_vec_seq(m.update_urrs)), opt_vec_seq(m.update_qers), cls);
    }
    assert(slots_classified(Seq::<Seq<IeView>>::empty().push(opt_ie_seq(m.fseid)).push(opt_vec_seq(m.remove_pdrs)).push(opt_vec_seq(m.remove_fars)).push(opt_vec_seq(m.remove_urrs)).push(opt_vec_seq(m.remove_qers)).push(opt_vec_seq(m.remove_bars)).push(opt_vec_seq(m.remove_traffic_endpoints)).push(opt_vec_seq(m.create_pdrs)).push(opt_vec_seq(m.create_fars)).push(opt_vec_seq(m.create_urrs)).push(opt_vec_seq(m.create_qers)).push(opt_vec_seq(m.create_bars)).push(opt_vec_seq(m.create_traffic_endpoints)).push(opt_vec_seq(m.update_pdrs)).push(opt_vec_seq(m.update_fars)).push(opt_vec_seq(m.update_urrs)).push(opt_vec_seq(m.update_qers)).push(opt_vec_seq(m.update_bars)), cls)) by {
        assert forall|k: int| 0 <= k < opt_vec_seq(m.update_bars).len() implies cls(#[trigger] opt_vec_seq(m.update_bars)[k].ie_type) == 17 by {
            assert(opt_vec_seq(m.update_bars)[k] == m.update_bars->Some_0@[k]@);
        }
        lemma_classified_push(Seq::<Seq<IeView>>::empty().push(opt_ie_seq(m.fseid)).push(opt_vec_seq(m.remove_pdrs)).push(opt_vec_seq(m.remove_fars)).push(opt_vec_seq(m.remove_urrs)).push(opt_vec_seq(m.remove_qers)).push(opt_vec_seq(m.remove_bars)).push(opt_vec_seq(m.remove_traffic_endpoints)).push(opt_vec_seq(m.create_pdrs)).push(opt_vec_seq(m.create_fars)).push(opt_vec_seq(m.create_urrs)).push(opt_vec_seq(m.create_qers)).push(opt_vec_seq(m.create_bars)).push(opt_vec_seq(m.create_traffic_endpoints)).push(opt_vec_seq(m.update_pdrs)).push(opt_vec_seq(m.update_fars)).push(opt_vec_seq(m.update_urrs)).push(opt_vec_seq(m.update_qers)), opt_vec_seq(m.update_bars), cls);
    }
    assert(slots_classified(Seq::<Seq<IeView>>::empty().push(opt_ie_seq(m.fseid)).push(opt_vec_seq(m.remove_pdrs)).push(opt_vec_seq(m.remove_fars)).push(opt_vec_seq(m.remove_urrs)).push(opt_vec_seq(m.remove_qers)).push(opt_vec_seq(m.remove_bars)).push(opt_vec_seq(m.remove_traffic_endpoints)).push(opt_vec_seq(m.create_pdrs)).push(opt_vec_seq(m.create_fars)).push(opt_vec_seq(m.create_urrs)).push(opt_vec_seq(m.create_qers)).push(opt_vec_seq(m.create_bars)).push(opt_vec_seq(m.create_traffic_endpoints)).push(opt_vec_seq(m.update_pdrs)).push(opt_vec_seq(m.update_fars)).push(opt_vec_seq(m.update_urrs)).push(opt_vec_seq(m.update_qers)).push(opt_vec_seq(m.update_bars)).push(opt_vec_seq(m.update_traffic_endpoints)), cls)) by {
        assert forall|k: int| 0 <= k < opt_vec_seq(m.update_traffic_endpoints).len() implies cls(#[trigger] opt_vec_seq(m.update_traffic_endpoints)[k].ie_type) == 18 by {
            assert(opt_vec_seq(m.update_traffic_endpoints)[k] == m.update_traffic_endpoints->Some_0@[k]@);
        }
        lemma_classified_push(Seq::<Seq<IeView>>::empty().push(opt_ie_seq(m.fseid)).push(opt_vec_seq(m.remove_pdrs)).push(opt_vec_seq(m.remove_fars)).push(opt_vec_seq(m.remove_urrs)).push(opt_vec_seq(m.remove_qers)).push(opt_vec_seq(m.remove_bars)).push(opt_vec_seq(m.remove_traffic_endpoints)).push(opt_vec_seq(m.create_pdrs)).push(opt_vec_seq(m.create_fars)).push(opt_vec_seq(m.create_urrs)).push(opt_vec_seq(m.create_qers)).push(opt_vec_seq(m.create_bars)).push(opt_vec_seq(m.create_traffic_endpoints)).push(opt_vec_seq(m.update_pdrs)).push(opt_vec_seq(m.update_fars)).push(opt_vec_seq(m.update_urrs)).push(opt_vec_seq(m.update_qers)).push(opt_vec_seq(m.update_bars)), opt_vec_seq(m.update_traffic_endpoints), cls);
    }
    assert(slots_classified(Seq::<Seq<IeView>>::empty().push(opt_ie_seq(m.fseid)).push(opt_vec_seq(m.remove_pdrs)).push(opt_vec_seq(m.remove_fars)).push(opt_vec_seq(m.remove_urrs)).push(opt_vec_seq(m.remove_qers)).push(opt_vec_seq(m.remove_bars)).push(opt_vec_seq(m.remove_traffic_endpoints)).push(opt_vec_seq(m.create_pdrs)).push(opt_vec_seq(m.create_fars)).push(opt_vec_seq(m.create_urrs)).push(opt_vec_seq(m.create_qers)).push(opt_vec_seq(m.create_bars)).push(opt_vec_seq(m.create_traffic_endpoints)).push(opt_vec_seq(m.update_pdrs)).push(opt_vec_seq(m.update_fars)).push(opt_vec_seq(m.update_urrs)).push(opt_vec_seq(m.update_qers)).push(opt_vec_seq(m.update_bars)).push(opt_vec_seq(m.update_traffic_endpoints)).push(opt_ie_seq(m.pdn_type)), cls)) by {
        assert forall|k: int| 0 <= k < opt_ie_seq(m.pdn_type).len() implies cls(#[trigger] opt_ie_seq(m.pdn_type)[k].ie_type) == 19 by {
        }
        lemma_classified_push(Seq::<Seq<IeView>>::empty().push(opt_ie_seq(m.fseid)).push(opt_vec_seq(m.remove_pdrs)).push(opt_vec_seq(m.remove_fars)).push(opt_vec_seq(m.remove_urrs)).push(opt_vec_seq(m.remove_qers)).push(opt_vec_seq(m.remove_bars)).push(opt_vec_seq(m.remove_traffic_endpoints)).push(opt_vec_seq(m.create_pdrs)).push(opt_vec_seq(m.create_fars)).push(opt_vec_seq(m.create_urrs)).push(opt_vec_seq(m.create_qers)).push(opt_vec_seq(m.create_bars)).push(opt_vec_seq(m.create_traffic_endpoints)).push(opt_vec_seq(m.update_pdrs)).push(opt_vec_seq(m.update_fars)).push(opt_vec_seq(m.update_urrs)).push(opt_vec_seq(m.update_qers)).push(opt_vec_seq(m.update_bars)).push(opt_vec_seq(m.update_traffic_endpoints)), opt_ie_seq(m.pdn_type), cls);
    }
    assert(slots_classified(Seq::<Seq<IeView>>::empty().push(opt_ie_seq(m.fseid)).push(opt_vec_seq(m.remove_pdrs)).push(opt_vec_seq(m.remove_fars)).push(opt_vec_seq(m.remove_urrs)).push(opt_vec_seq(m.remove_qers)).push(opt_vec_seq(m.remove_bars)).push(opt_vec_seq(m.remove_traffic_endpoints)).push(opt_vec_seq(m.create_pdrs)).push(opt_vec_seq(m.create_fars)).push(opt_vec_seq(m.create_urrs)).push(opt_vec_seq(m.create_qers)).push(opt_vec_seq(m.create_bars)).push(opt_vec_seq(m.create_traffic_endpoints)).push(opt_vec_seq(m.update_pdrs)).push(opt_vec_seq(m.update_fars)).push(opt_vec_seq(m.update_urrs)).push(opt_vec_seq(m.update_qers)).push(opt_vec_seq(m.update_bars)).push(opt_vec_seq(m.update_traffic_endpoints)).push(opt_ie_seq(m.pdn_type)).push(opt_ie_seq(m.user_id)), cls)) by {
        assert forall|k: int| 0 <= k < opt_ie_seq(m.user_id).len() implies cls(#[trigger] opt_ie_seq(m.user_id)[k].ie_type) == 20 by {
        }
        lemma_classified_push(Seq::<Seq<IeView>>::empty().push(opt_ie_seq(m.fseid)).push(opt_vec_seq(m.remove_pdrs)).push(opt_vec_seq(m.remove_fars)).push(opt_vec_seq(m.remove_urrs)).push(opt_vec_seq(m.remove_qers)).push(opt_vec_seq(m.remove_bars)).push(opt_vec_seq(m.remove_traffic_endpoints)).push(opt_vec_seq(m.create_pdrs)).push(opt_vec_seq(m.create_fars)).push(opt_vec_seq(m.create_urrs)).push(opt_vec_seq(m.create_qers)).push(opt_vec_seq(m.create_bars)).push(opt_vec_seq(m.create_traffic_endpoints)).push(opt_vec_seq(m.update_pdrs)).push(opt_vec_seq(m.update_fars)).push(opt_vec_seq(m.update_urrs)).push(opt_vec_seq(m.update_qers)).push(opt_vec_seq(m.update_bars)).push(opt_vec_seq(m.update_traffic_endpoints)).push(opt_ie_seq(m.pdn_type)), opt_ie_seq(m.user_id), cls);
    }
    assert(slots_classified(Seq::<Seq<IeView>>::empty().push(opt_ie_seq(m.fseid)).push(opt_vec_seq(m.remove_pdrs)).push(opt_vec_seq(m.remove_fars)).push(opt_vec_seq(m.remove_urrs)).push(opt_vec_seq(m.remove_qers)).push(opt_vec_seq(m.remove_bars)).push(opt_vec_seq(m.remove_traffic_endpoints)).push(opt_vec_seq(m.create_pdrs)).push(opt_vec_seq(m.create_fars)).push(opt_vec_seq(m.create_urrs)).push(opt_vec_seq(m.create_qers)).push(opt_vec_seq(m.create_bars)).push(opt_vec_seq(m.create_traffic_endpoints)).push(opt_vec_seq(m.update_pdrs)).push(opt_vec_seq(m.update_fars)).push(opt_vec_seq(m.update_urrs)).push(opt_vec_seq(m.update_qers)).push(opt_vec_seq(m.update_bars)).push(opt_vec_seq(m.update_traffic_endpoints)).push(opt_ie_seq(m.pdn_type)).push(opt_ie_seq(m.user_id)).push(opt_ie_seq(m.s_nssai)), cls)) by {
        assert forall|k: int| 0 <= k < opt_ie_seq(m.s_nssai).len() implies cls(#[trigger] opt_ie_seq(m.s_nssai)[k].ie_type) == 21 by {
        }
        lemma_classified_push(Seq::<Seq<IeView>>::empty().push(opt_ie_seq(m.fseid)).push(opt_vec_seq(m.remove_pdrs)).push(opt_vec_seq(m.remove_fars)).push(opt_vec_seq(m.remove_urrs)).push(opt_vec_seq(m.remove_qers)).push(opt_vec_seq(m.remove_bars)).push(opt_vec_seq(m.remove_traffic_endpoints)).push(opt_vec_seq(m.create_pdrs)).push(opt_vec_seq(m.create_fars)).push(opt_vec_seq(m.create_urrs)).push(opt_vec_seq(m.create_qers)).push(opt_vec_seq(m.create_bars)).push(opt_vec_seq(m.create_traffic_endpoints)).push(opt_vec_seq(m.update_pdrs)).push(opt_vec_seq(m.update_fars)).push(opt_vec_seq(m.update_urrs)).push(opt_vec_seq(m.update_qers)).push(opt_vec_seq(m.update_bars)).push(opt_vec_seq(m.update_traffic_endpoints)).push(opt_ie_seq(m.pdn_type)).push(opt_ie_seq(m.user_id)), opt_ie_seq(m.s_nssai), cls);
    }
    assert(slots_classified(Seq::<Seq<IeView>>::empty().push(opt_ie_seq(m.fseid)).push(opt_vec_seq(m.remove_pdrs)).push(opt_vec_seq(m.remove_fars)).push(opt_vec_seq(m.remove_urrs)).push(opt_vec_seq(m.remove_qers)).push(opt_vec_seq(m.remove_bars)).push(opt_vec_seq(m.remove_traffic_endpoints)).push(opt_vec_seq(m.create_pdrs)).push(opt_vec_seq(m.create_fars)).push(opt_vec_seq(m.create_urrs)).push(opt_vec_seq(m.create_qers)).push(opt_vec_seq(m.create_bars)).push(opt_vec_seq(m.create_traffic_endpoints)).push(opt_vec_seq(m.update_pdrs)).push(opt_vec_seq(m.update_fars)).push(opt_vec_seq(m.update_urrs)).push(opt_vec_seq(m.update_qers)).push(opt_vec_seq(m.update_bars)).push(opt_vec_seq(m.update_traffic_endpoints)).push(opt_ie_seq(m.pdn_type)).push(opt_ie_seq(m.user_id)).push(opt_ie_seq(m.s_nssai)).push(opt_ie_seq(m.trace_information)), cls)) by {
        assert forall|k: int| 0 <= k < opt_ie_seq(m.trace_information).len() implies cls(#[trigger] opt_ie_seq(m.trace_information)[k].ie_type) == 22 by {
        }
        lemma_classified_push(Seq::<Seq<IeView>>::empty().push(opt_ie_seq(m.fseid)).push(opt_vec_seq(m.remove_pdrs)).push(opt_vec_seq(m.remove_fars)).push(opt_vec_seq(m.remove_urrs)).push(opt_vec_seq(m.remove_qers)).push(opt_vec_seq(m.remove_bars)).push(opt_vec_seq(m.remove_traffic_endpoints)).push(opt_vec_seq(m.create_pdrs)).push(opt_vec_seq(m.create_fars)).push(opt_vec_seq(m.create_urrs)).push(opt_vec_seq(m.create_qers)).push(opt_vec_seq(m.create_bars)).push(opt_vec_seq(m.create_traffic_endpoints)).push(opt_vec_seq(m.update_pdrs)).push(opt_vec_seq(m.update_fars)).push(opt_vec_seq(m.update_urrs)).push(opt_vec_seq(m.update_qers)).push(opt_vec_seq(m.update_bars)).push(opt_vec_seq(m.update_traffic_endpoints)).push(opt_ie_seq(m.pdn_type)).push(opt_ie_seq(m.user_id)).push(opt_ie_seq(m.s_nssai)), opt_ie_seq(m.trace_information), cls);
    }
    assert(slots_classified(Seq::<Seq<IeView>>::empty().push(opt_ie_seq(m.fseid)).push(opt_vec_seq(m.remove_pdrs)).push(opt_vec_seq(m.remove_fars)).push(opt_vec_seq(m.remove_urrs)).push(opt_vec_seq(m.remove_qers)).push(opt_vec_seq(m.remove_bars)).push(opt_vec_seq(m.remove_traffic_endpoints)).push(opt_vec_seq(m.create_pdrs)).push(opt_vec_seq(m.create_fars)).push(opt_vec_seq(m.create_urrs)).push(opt_vec_seq(m.create_qers)).push(opt_vec_seq(m.create_bars)).push(opt_vec_seq(m.create_traffic_endpoints)).push(opt_vec_seq(m.update_pdrs)).push(opt_vec_seq(m.update_fars)).push(opt_vec_seq(m.update_urrs)).push(opt_vec_seq(m.update_qers)).push(opt_vec_seq(m.update_bars)).push(opt_vec_seq(m.update_traffic_endpoints)).push(opt_ie_seq(m.pdn_type)).push(opt_ie_seq(m.user_id)).push(opt_ie_seq(m.s_nssai)).push(opt_ie_seq(m.trace_information)).push(opt_ie_seq(m.recovery_time_stamp)), cls)) by {
        assert forall|k: int| 0 <= k < opt_ie_seq(m.recovery_time_stamp).len() implies cls(#[trigger] opt_ie_seq(m.recovery_time_stamp)[k].ie_type) == 23 by {
        }
        lemma_classified_push(Seq::<Seq<IeView>>::empty().push(opt_ie_seq(m.fseid)).push(opt_vec_seq(m.remove_pdrs)).push(opt_vec_seq(m.remove_fars)).push(opt_vec_seq(m.remove_urrs)).push(opt_vec_seq(m.remove_qers)).push(opt_vec_seq(m.remove_bars)).push(opt_vec_seq(m.remove_traffic_endpoints)).push(opt_vec_seq(m.create_pdrs)).push(opt_vec_seq(m.create_fars)).push(opt_vec_seq(m.create_urrs)).push(opt_vec_seq(m.create_qers)).push(opt_vec_seq(m.create_bars)).push(opt_vec_seq(m.create_traffic_endpoints)).push(opt_vec_seq(m.update_pdrs)).push(opt_vec_seq(m.update_fars)).push(opt_vec_seq(m.update_urrs)).push(opt_vec_seq(m.update_qers)).push(opt_vec_seq(m.update_bars)).push(opt_vec_seq(m.update_traffic_endpoints)).push(opt_ie_seq(m.pdn_type)).push(opt_ie_seq(m.user_id)).push(opt_ie_seq(m.s_nssai)).push(opt_ie_seq(m.trace_information)), opt_ie_seq(m.recovery_time_stamp), cls);
    }
    assert(slots_classified(Seq::<Seq<IeView>>::empty().push(opt_ie_seq(m.fseid)).push(opt_vec_seq(m.remove_pdrs)).push(opt_vec_seq(m.remove_fars)).push(opt_vec_seq(m.remove_urrs)).push(opt_vec_seq(m.remove_qers)).push(opt_vec_seq(m.remove_bars)).push(opt_vec_seq(m.remove_traffic_endpoints)).push(opt_vec_seq(m.create_pdrs)).push(opt_vec_seq(m.create_fars)).push(opt_vec_seq(m.create_urrs)).push(opt_vec_seq(m.create_qers)).push(opt_vec_seq(m.create_bars)).push(opt_vec_seq(m.create_traffic_endpoints)).push(opt_vec_seq(m.update_pdrs)).push(opt_vec_seq(m.update_fars)).push(opt_vec_seq(m.update_urrs)).push(opt_vec_seq(m.update_qers)).push(opt_vec_seq(m.update_bars)).push(opt_vec_seq(m.update_traffic_endpoints)).push(opt_ie_seq(m.pdn_type)).push(opt_ie_seq(m.user_id)).push(opt_ie_seq(m.s_nssai)).push(opt_ie_seq(m.trace_information)).push(opt_ie_seq(m.recovery_time_stamp)).push(opt_ie_seq(m.cp_function_features)), cls)) by {
        assert forall|k: int| 0 <= k < opt_ie_seq(m.cp_function_features).len() implies cls(#[trigger] opt_ie_seq(m.cp_function_features)[k].ie_type) == 24 by {
        }
        lemma_classified_push(Seq::<Seq<IeView>>::empty().push(opt_ie_seq(m.fseid)).push(opt_vec_seq(m.remove_pdrs)).push(opt_vec_seq(m.remove_fars)).push(opt_vec_seq(m.remove_urrs)).push(opt_vec_seq(m.remove_qers)).push(opt_vec_seq(m.remove_bars)).push(opt_vec_seq(m.remove_traffic_endpoints)).push(opt_vec_seq(m.create_pdrs)).push(opt_vec_seq(m.create_fars)).push(opt_vec_seq(m.create_urrs)).push(opt_vec_seq(m.create_qers)).push(opt_vec_seq(m.create_bars)).push(opt_vec_seq(m.create_traffic_endpoints)).push(opt_vec_seq(m.update_pdrs)).push(opt_vec_seq(m.update_fars)).push(opt_vec_seq(m.update_urrs)).push(opt_vec_seq(m.update_qers)).push(opt_vec_seq(m.update_bars)).push(opt_vec_seq(m.update_traffic_endpoints)).push(opt_ie_seq(m.pdn_type)).push(opt_ie_seq(m.user_id)).push(opt_ie_seq(m.s_nssai)).push(opt_ie_seq(m.trace_information)).push(opt_ie_seq(m.recovery_time_stamp)), opt_ie_seq(m.cp_function_features), cls);
    }
    assert(slots_classified(Seq::<Seq<IeView>>::empty().push(opt_ie_seq(m.fseid)).push(opt_vec_seq(m.remove_pdrs)).push(opt_vec_seq(m.remove_fars)).push(opt_vec_seq(m.remove_urrs)).push(opt_vec_seq(m.remove_qers)).push(opt_vec_seq(m.remove_bars)).push(opt_vec_seq(m.remove_traffic_endpoints)).push(opt_vec_seq(m.create_pdrs)).push(opt_vec_seq(m.create_fars)).push(opt_vec_seq(m.create_urrs)).push(opt_vec_seq(m.create_qers)).push(opt_vec_seq(m.create_bars)).push(opt_vec_seq(m.create_traffic_endpoints)).push(opt_vec_seq(m.update_pdrs)).push(opt_vec_seq(m.update_fars)).push(opt_vec_seq(m.update_urrs)).push(opt_vec_seq(m.update_qers)).push(opt_vec_seq(m.update_bars)).push(opt_vec_seq(m.update_traffic_endpoints)).push(opt_ie_seq(m.pdn_type)).push(opt_ie_seq(m.user_id)).push(opt_ie_seq(m.s_nssai)).push(opt_ie_seq(m.trace_information)).push(opt_ie_seq(m.recovery_time_stamp)).push(opt_ie_seq(m.cp_function_features)).push(opt_ie_seq(m.apn_dnn)), cls)) by {
        assert forall|k: int| 0 <= k < opt_ie_seq(m.apn_dnn).len() implies cls(#[trigger] opt_ie_seq(m.apn_dnn)[k].ie_type) == 25 by {
        }
        lemma_classified_push(Seq::<Seq<IeView>>::empty().push(opt_ie_seq(m.fseid)).push(opt_vec_seq(m.remove_pdrs)).push(opt_vec_seq(m.remove_fars)).push(opt_vec_seq(m.remove_urrs)).push(opt_vec_seq(m.remove_qers)).push(opt_vec_seq(m.remove_bars)).push(opt_vec_seq(m.remove_traffic_endpoints)).push(opt_vec_seq(m.create_pdrs)).push(opt_vec_seq(m.create_fars)).push(opt_vec_seq(m.create_urrs)).push(opt_vec_seq(m.create_qers)).push(opt_vec_seq(m.create_bars)).push(opt_vec_seq(m.create_traffic_endpoints)).push(opt_vec_seq(m.update_pdrs)).push(opt_vec_seq(m.update_fars)).push(opt_vec_seq(m.update_urrs)).push(opt_vec_seq(m.update_qers)).push(opt_vec_seq(m.update_bars)).push(opt_vec_seq(m.update_traffic_endpoints)).push(opt_ie_seq(m.pdn_type)).push(opt_ie_seq(m.user_id)).push(opt_ie_seq(m.s_nssai)).push(opt_ie_seq(m.trace_information)).push(opt_ie_seq(m.recovery_time_stamp)).push(opt_ie_seq(m.cp_function_features)), opt_ie_seq(m.apn_dnn), cls);
    }
    assert(slots_classified(Seq::<Seq<IeView>>::empty().push(opt_ie_seq(m.fseid)).push(opt_vec_seq(m.remove_pdrs)).push(opt_vec_seq(m.remove_fars)).push(opt_vec_seq(m.remove_urrs)).push(opt_vec_seq(m.remove_qers)).push(opt_vec_seq(m.remove_bars)).push(opt_vec_seq(m.remove_traffic_endpoints)).push(opt_vec_seq(m.create_pdrs)).push(opt_vec_seq(m.create_fars)).push(opt_vec_seq(m.create_urrs)).push(opt_vec_seq(m.create_qers)).push(opt_vec_seq(m.create_bars)).push(opt_vec_seq(m.create_traffic_endpoints)).push(opt_vec_seq(m.update_pdrs)).push(opt_vec_seq(m.update_fars)).push(opt_vec_seq(m.update_urrs)).push(opt_vec_seq(m.update_qers)).push(opt_vec_seq(m.update_bars)).push(opt_vec_seq(m.update_traffic_endpoints)).push(opt_ie_seq(m.pdn_type)).push(opt_ie_seq(m.user_id)).push(opt_ie_seq(m.s_nssai)).push(opt_ie_seq(m.trace_information)).push(opt_ie_seq(m.recovery_time_stamp)).push(opt_ie_seq(m.cp_function_features)).push(opt_ie_seq(m.apn_dnn)).push(opt_ie_seq(m.user_plane_inactivity_timer)), cls)) by {
        assert forall|k: int| 0 <= k < opt_ie_seq(m.user_plane_inactivity_timer).len() implies cls(#[trigger] opt_ie_seq(m.user_plane_inactivity_timer)[k].ie_type) == 26 by {
        }
        lemma_classified_push(Seq::<Seq<IeView>>::empty().push(opt_ie_seq(m.fseid)).push(opt_vec_seq(m.remove_pdrs)).push(opt_vec_seq(m.remove_fars)).push(opt_vec_seq(m.remove_urrs)).push(opt_vec_seq(m.remove_qers)).push(opt_vec_seq(m.remove_bars)).push(opt_vec_seq(m.remove_traffic_endpoints)).push(opt_vec_seq(m.create_pdrs)).push(opt_vec_seq(m.create_fars)).push(opt_vec_seq(m.create_urrs)).push(opt_vec_seq(m.create_qers)).push(opt_vec_seq(m.create_bars)).push(opt_vec_seq(m.create_traffic_endpoints)).push(opt_vec_seq(m.update_pdrs)).push(opt_vec_seq(m.update_fars)).push(opt_vec_seq(m.update_urrs)).push(opt_vec_seq(m.update_qers)).push(opt_vec_seq(m.update_bars)).push(opt_vec_seq(m.update_traffic_endpoints)).push(opt_ie_seq(m.pdn_type)).push(opt_ie_seq(m.user_id)).push(opt_ie_seq(m.s_nssai)).push(opt_ie_seq(m.trace_information)).push(opt_ie_seq(m.recovery_time_stamp)).push(opt_ie_seq(m.cp_function_features)).push(opt_ie_seq(m.apn_dnn)), opt_ie_seq(m.user_plane_inactivity_timer), cls);
    }
    assert(slots_classified(Seq::<Seq<IeView>>::empty().push(opt_ie_seq(m.fseid)).push(opt_vec_seq(m.remove_pdrs)).push(opt_vec_seq(m.remove_fars)).push(opt_vec_seq(m.remove_urrs)).push(opt_vec_seq(m.remove_qers)).push(opt_vec_seq(m.remove_bars)).push(opt_vec_seq(m.remove_traffic_endpoints)).push(opt_vec_seq(m.create_pdrs)).push(opt_vec_seq(m.create_fars)).push(opt_vec_seq(m.create_urrs)).push(opt_vec_seq(m.create_qers)).push(opt_vec_seq(m.create_bars)).push(opt_vec_seq(m.create_traffic_endpoints)).push(opt_vec_seq(m.update_pdrs)).push(opt_vec_seq(m.update_fars)).push(opt_vec_seq(m.update_urrs)).push(opt_vec_seq(m.update_qers)).push(opt_vec_seq(m.update_bars)).push(opt_vec_seq(m.update_traffic_endpoints)).push(opt_ie_seq(m.pdn_type)).push(opt_ie_seq(m.user_id)).push(opt_ie_seq(m.s_nssai)).push(opt_ie_seq(m.trace_information)).push(opt_ie_seq(m.recovery_time_stamp)).push(opt_ie_seq(m.cp_function_features)).push(opt_ie_seq(m.apn_dnn)).push(opt_ie_seq(m.user_plane_inactivity_timer)).push(opt_ie_seq(m.pfcpsm_req_flags)), cls)) by {
        assert forall|k: int| 0 <= k < opt_ie_seq(m.pfcpsm_req_flags).len() implies cls(#[trigger] opt_ie_seq(m.pfcpsm_req_flags)[k].ie_type) == 27 by {
        }
        lemma_classified_push(Seq::<Seq<IeView>>::empty().push(opt_ie_seq(m.fseid)).push(opt_vec_seq(m.remove_pdrs)).push(opt_vec_seq(m.remove_fars)).push(opt_vec_seq(m.remove_urrs)).push(opt_vec_seq(m.remove_qers)).push(opt_vec_seq(m.remove_bars)).push(opt_vec_seq(m.remove_traffic_endpoints)).push(opt_vec_seq(m.create_pdrs)).push(opt_vec_seq(m.create_fars)).push(opt_vec_seq(m.create_urrs)).push(opt_vec_seq(m.create_qers)).push(opt_vec_seq(m.create_bars)).push(opt_vec_seq(m.create_traffic_endpoints)).push(opt_vec_seq(m.update_pdrs)).push(opt_vec_seq(m.update_fars)).push(opt_vec_seq(m.update_urrs)).push(opt_vec_seq(m.update_qers)).push(opt_vec_seq(m.update_bars)).push(opt_vec_seq(m.update_traffic_endpoints)).push(opt_ie_seq(m.pdn_type)).push(opt_ie_seq(m.user_id)).push(opt_ie_seq(m.s_nssai)).push(opt_ie_seq(m.trace_information)).push(opt_ie_seq(m.recovery_time_stamp)).push(opt_ie_seq(m.cp_function_features)).push(opt_ie_seq(m.apn_dnn)).push(opt_ie_seq(m.user_plane_inactivity_timer)), opt_ie_seq(m.pfcpsm_req_flags), cls);
    }
    assert(slots_classified(Seq::<Seq<IeView>>::empty().push(opt_ie_seq(m.fseid)).push(opt_vec_seq(m.remove_pdrs)).push(opt_vec_seq(m.remove_fars)).push(opt_vec_seq(m.remove_urrs)).push(opt_vec_seq(m.remove_qers)).push(opt_vec_seq(m.remove_bars)).push(opt_vec_seq(m.remove_traffic_endpoints)).push(opt_vec_seq(m.create_pdrs)).push(opt_vec_seq(m.create_fars)).push(opt_vec_seq(m.create_urrs)).push(opt_vec_seq(m.create_qers)).push(opt_vec_seq(m.create_bars)).push(opt_vec_seq(m.create_traffic_endpoints)).push(opt_vec_seq(m.update_pdrs)).push(opt_vec_seq(m.update_fars)).push(opt_vec_seq(m.update_urrs)).push(opt_vec_seq(m.update_qers)).push(opt_vec_seq(m.update_bars)).push(opt_vec_seq(m.update_traffic_endpoints)).push(opt_ie_seq(m.pdn_type)).push(opt_ie_seq(m.user_id)).push(opt_ie_seq(m.s_nssai)).push(opt_ie_seq(m.trace_information)).push(opt_ie_seq(m.recovery_time_stamp)).push(opt_ie_seq(m.cp_function_features)).push(opt_ie_seq(m.apn_dnn)).push(opt_ie_seq(m.user_plane_inactivity_timer)).push(opt_ie_seq(m.pfcpsm_req_flags)).push(opt_ie_seq(m.ethernet_context_information)), cls)) by {
        assert forall|k: int| 0 <= k < opt_ie_seq(m.ethernet_context_information).len() implies cls(#[trigger] opt_ie_seq(m.ethernet_context_information)[k].ie_type) == 28 by {
        }
        lemma_classified_push(Seq::<Seq<IeView>>::empty().push(opt_ie_seq(m.fseid)).push(opt_vec_seq(m.remove_pdrs)).push(opt_vec_seq(m.remove_fars)).push(opt_vec_seq(m.remove_urrs)).push(opt_vec_seq(m.remove_qers)).push(opt_vec_seq(m.remove_bars)).push(opt_vec_seq(m.remove_traffic_endpoints)).push(opt_vec_seq(m.create_pdrs)).push(opt_vec_seq(m.create_fars)).push(opt_vec_seq(m.create_urrs)).push(opt_vec_seq(m.create_qers)).push(opt_vec_seq(m.create_bars)).push(opt_vec_seq(m.create_traffic_endpoints)).push(opt_vec_seq(m.update_pdrs)).push(opt_vec_seq(m.update_fars)).push(opt_vec_seq(m.update_urrs)).push(opt_vec_seq(m.update_qers)).push(opt_vec_seq(m.update_bars)).push(opt_vec_seq(m.update_traffic_endpoints)).push(opt_ie_seq(m.pdn_type)).push(opt_ie_seq(m.user_id)).push(opt_ie_seq(m.s_nssai)).push(opt_ie_seq(m.trace_information)).push(opt_ie_seq(m.recovery_time_stamp)).push(opt_ie_seq(m.cp_function_features)).push(opt_ie_seq(m.apn_dnn)).push(opt_ie_seq(m.user_plane_inactivity_timer)).push(opt_ie_seq(m.pfcpsm_req_flags)), opt_ie_seq(m.ethernet_context_information), cls);
    }
    assert(slots_classified(Seq::<Seq<IeView>>::empty().push(opt_ie_seq(m.fseid)).push(opt_vec_seq(m.remove_pdrs)).push(opt_vec_seq(m.remove_fars)).push(opt_vec_seq(m.remove_urrs)).push(opt_vec_seq(m.remove_qers)).push(opt_vec_seq(m.remove_bars)).push(opt_vec_seq(m.remove_traffic_endpoints)).push(opt_vec_seq(m.create_pdrs)).push(opt_vec_seq(m.create_fars)).push(opt_vec_seq(m.create_urrs)).push(opt_vec_seq(m.create_qers)).push(opt_vec_seq(m.create_bars)).push(opt_vec_seq(m.create_traffic_endpoints)).push(opt_vec_seq(m.update_pdrs)).push(opt_vec_seq(m.update_fars)).push(opt_vec_seq(m.update_urrs)).push(opt_vec_seq(m.update_qers)).push(opt_vec_seq(m.update_bars)).push(opt_vec_seq(m.update_traffic_endpoints)).push(opt_ie_seq(m.pdn_type)).push(opt_ie_seq(m.user_id)).push(opt_ie_seq(m.s_nssai)).push(opt_ie_seq(m.trace_information)).push(opt_ie_seq(m.recovery_time_stamp)).push(opt_ie_seq(m.cp_function_features)).push(opt_ie_seq(m.apn_dnn)).push(opt_ie_seq(m.user_plane_inactivity_timer)).push(opt_ie_seq(m.pfcpsm_req_flags)).push(opt_ie_seq(m.ethernet_context_information)).push(ies_view(m.ies@)), cls)) by {
        assert forall|k: int| 0 <= k < ies_view(m.ies@).len() implies cls(#[trigger] ies_view(m.ies@)[k].ie_type) == 29 by {
            assert(ies_view(m.ies@)[k] == m.ies@[k]@);
        }
        lemma_classified_push(Seq::<Seq<IeView>>::empty().push(opt_ie_seq(m.fseid)).push(opt_vec_seq(m.remove_pdrs)).push(opt_vec_seq(m.remove_fars)).push(opt_vec_seq(m.remove_urrs)).push(opt_vec_seq(m.remove_qers)).push(opt_vec_seq(m.remove_bars)).push(opt_vec_seq(m.remove_traffic_endpoints)).push(opt_vec_seq(m.create_pdrs)).push(opt_vec_seq(m.create_fars)).push(opt_vec_seq(m.create_urrs)).push(opt_vec_seq(m.create_qers)).push(opt_vec_seq(m.create_bars)).push(opt_vec_seq(m.create_traffic_endpoints)).push(opt_vec_seq(m.update_pdrs)).push(opt_vec_seq(m.update_fars)).push(opt_vec_seq(m.update_urrs)).push(opt_vec_seq(m.update_qers)).push(opt_vec_seq(m.update_bars)).push(opt_vec_seq(m.update_traffic_endpoints)).push(opt_ie_seq(m.pdn_type)).push(opt_ie_seq(m.user_id)).push(opt_ie_seq(m.s_nssai)).push(opt_ie_seq(m.trace_information)).push(opt_ie_seq(m.recovery_time_stamp)).push(opt_ie_seq(m.cp_function_features)).push(opt_ie_seq(m.apn_dnn)).push(opt_ie_seq(m.user_plane_inactivity_timer)).push(opt_ie_seq(m.pfcpsm_req_flags)).push(opt_ie_seq(m.ethernet_context_information)), ies_view(m.ies@), cls);
    }
    assert(m.slots() == Seq::<Seq<IeView>>::empty().push(opt_ie_seq(m.fseid)).push(opt_vec_seq(m.remove_pdrs)).push(opt_vec_seq(m.remove_fars)).push(opt_vec_seq(m.remove_urrs)).push(opt_vec_seq(m.remove_qers)).push(opt_vec_seq(m.remove_bars)).push(opt_vec_seq(m.remove_traffic_endpoints)).push(opt_vec_seq(m.create_pdrs)).push(opt_vec_seq(m.create_fars)).push(opt_vec_seq(m.create_urrs)).push(opt_vec_seq(m.create_qers)).push(opt_vec_seq(m.create_bars)).push(opt_vec_seq(m.create_traffic_endpoints)).push(opt_vec_seq(m.update_pdrs)).push(opt_vec_seq(m.update_fars)).push(opt_vec_seq(m.update_urrs)).push(opt_vec_seq(m.update_qers)).push(opt_vec_seq(m.update_bars)).push(opt_vec_seq(m.update_traffic_endpoints)).push(opt_ie_seq(m.pdn_type)).push(opt_ie_seq(m.user_id)).push(opt_ie_seq(m.s_nssai)).push(opt_ie_seq(m.trace_information)).push(opt_ie_seq(m.recovery_time_stamp)).push(opt_ie_seq(m.cp_function_features)).push(opt_ie_seq(m.apn_dnn)).push(opt_ie_seq(m.user_plane_inactivity_timer)).push(opt_ie_seq(m.pfcpsm_req_flags)).push(opt_ie_seq(m.ethernet_context_information)).push(ies_view(m.ies@)));
}

/// When every IE is in the field named for its type, the IEs of each field's type
/// in that field are the whole field.
proof fn lemma_session_modification_request_fields_of_their_type(m: SessionModificationRequest)
    requires
        m.fields_hold_their_types(),
    ensures
        ies_of_type(opt_ie_seq(m.fseid), IeType::Fseid) == opt_ie_seq(m.fseid),
        ies_of_type(opt_vec_seq(m.remove_pdrs), IeType::RemovePdr) == opt_vec_seq(m.remove_pdrs),
        ies_of_type(opt_vec_seq(m.remove_fars), IeType::RemoveFar) == opt_vec_seq(m.remove_fars),
        ies_of_type(opt_vec_seq(m.remove_urrs), IeType::RemoveUrr) == opt_vec_seq(m.remove_urrs),
        ies_of_type(opt_vec_seq(m.remove_qers), IeType::RemoveQer) == opt_vec_seq(m.remove_qers),
        ies_of_type(opt_vec_seq(m.remove_bars), IeType::RemoveBar) == opt_vec_seq(m.remove_bars),
        ies_of_type(opt_vec_seq(m.remove_traffic_endpoints), IeType::RemoveTrafficEndpoint) == opt_vec_seq(m.remove_traffic_endpoints),
        ies_of_type(opt_vec_seq(m.create_pdrs), IeType::CreatePdr) == opt_vec_seq(m.create_pdrs),
        ies_of_type(opt_vec_seq(m.create_fars), IeType::CreateFar) == opt_vec_seq(m.create_fars),
        ies_of_type(opt_vec_seq(m.create_urrs), IeType::CreateUrr) == opt_vec_seq(m.create_urrs),
        ies_of_type(opt_vec_seq(m.create_qers), IeType::CreateQer) == opt_vec_seq(m.create_qers),
        ies_of_type(opt_vec_seq(m.create_bars), IeType::CreateBar) == opt_vec_seq(m.create_bars),
        ies_of_type(opt_vec_seq(m.create_traffic_endpoints), IeType::CreateTrafficEndpoint) == opt_vec_seq(m.create_traffic_endpoints),
        ies_of_type(opt_vec_seq(m.update_pdrs), IeType::UpdatePdr) == opt_vec_seq(m.update_pdrs),
        ies_of_type(opt_vec_seq(m.update_fars), IeType::UpdateFar) == opt_vec_seq(m.update_fars),
        ies_of_type(opt_vec_seq(m.update_urrs), IeType::UpdateUrr) == opt_vec_seq(m.update_urrs),
        ies_of_type(opt_vec_seq(m.update_qers), IeType::UpdateQer) == opt_vec_seq(m.update_qers),
        ies_of_type(opt_vec_seq(m.update_bars), IeType::UpdateBar) == opt_vec_seq(m.update_bars),
        ies_of_type(opt_vec_seq(m.update_traffic_endpoints), IeType::UpdateTrafficEndpoint) == opt_vec_seq(m.update_traffic_endpoints),
        ies_of_type(opt_ie_seq(m.pdn_type), IeType::PdnType) == opt_ie_seq(m.pdn_type),
        ies_of_type(opt_ie_seq(m.user_id), IeType::UserId) == opt_ie_seq(m.user_id),
        ies_of_type(opt_ie_seq(m.s_nssai), IeType::Snssai) == opt_ie_seq(m.s_nssai),
        ies_of_type(opt_ie_seq(m.trace_information), IeType::TraceInformation) == opt_ie_seq(m.trace_information),
        ies_of_type(opt_ie_seq(m.recovery_time_stamp), IeType::RecoveryTimeStamp) == opt_ie_seq(m.recovery_time_stamp),
        ies_of_type(opt_ie_seq(m.cp_function_features), IeType::CpFunctionFeatures) == opt_ie_seq(m.cp_function_features),
        ies_of_type(opt_ie_seq(m.apn_dnn), IeType::ApnDnn) == opt_ie_seq(m.apn_dnn),
        ies_of_type(opt_ie_seq(m.user_plane_inactivity_timer), IeType::UserPlaneInactivityTimer) == opt_ie_seq(m.user_plane_inactivity_timer),
        ies_of_type(opt_ie_seq(m.pfcpsm_req_flags), IeType::PfcpsmReqFlags) == opt_ie_seq(m.pfcpsm_req_flags),
        ies_of_type(opt_ie_seq(m.ethernet_context_information), IeType::EthernetContextInformation) == opt_ie_seq(m.ethernet_context_information),
{
    reveal(SessionModificationRequest::fields_hold_their_types);
    assert(ies_of_type(opt_ie_seq(m.fseid), IeType::Fseid) == opt_ie_seq(m.fseid)) by {
        assert forall|k: int| 0 <= k < opt_ie_seq(m.fseid).len() implies (#[trigger] opt_ie_seq(m.fseid)[k]).ie_type == IeType::Fseid by {
        }
        lemma_of_type_all(opt_ie_seq(m.fseid), IeType::Fseid);
    }
    assert(ies_of_type(opt_vec_seq(m.remove_pdrs), IeType::RemovePdr) == opt_vec_seq(m.remove_pdrs)) by {
        assert forall|k: int| 0 <= k < opt_vec_seq(m.remove_pdrs).len() implies (#[trigger] opt_vec_seq(m.remove_pdrs)[k]).ie_type == IeType::RemovePdr by {
            assert(opt_vec_seq(m.remove_pdrs)[k] == m.remove_pdrs->Some_0@[k]@);
        }
        lemma_of_type_all(opt_vec_seq(m.remove_pdrs), IeType::RemovePdr);
    }
    assert(ies_of_type(opt_vec_seq(m.remove_fars), IeType::RemoveFar) == opt_vec_seq(m.remove_fars)) by {
        assert forall|k: int| 0 <= k < opt_vec_seq(m.remove_fars).len() implies (#[trigger] opt_vec_seq(m.remove_fars)[k]).ie_type == IeType::RemoveFar by {
            assert(opt_vec_seq(m.remove_fars)[k] == m.remove_fars->Some_0@[k]@);
        }
        lemma_of_type_all(opt_vec_seq(m.remove_fars), IeType::RemoveFar);
    }
    assert(ies_of_type(opt_vec_seq(m.remove_urrs), IeType::RemoveUrr) == opt_vec_seq(m.remove_urrs)) by {
        assert forall|k: int| 0 <= k < opt_vec_seq(m.remove_urrs).len() implies (#[trigger] opt_vec_seq(m.remove_urrs)[k]).ie_type == IeType::RemoveUrr by {
            assert(opt_vec_seq(m.remove_urrs)[k] == m.remove_urrs->Some_0@[k]@);
        }
        lemma_of_type_all(opt_vec_seq(m.remove_urrs), IeType::RemoveUrr);
    }
    assert(ies_of_type(opt_vec_seq(m.remove_qers), IeType::RemoveQer) == opt_vec_seq(m.remove_qers)) by {
        assert forall|k: int| 0 <= k < opt_vec_seq(m.remove_qers).len() implies (#[trigger] opt_vec_seq(m.remove_qers)[k]).ie_type == IeType::RemoveQer by {
            assert(opt_vec_seq(m.remove_qers)[k] == m.remove_qers->Some_0@[k]@);
        }
        lemma_of_type_all(opt_vec_seq(m.remove_qers), IeType::RemoveQer);
    }
    assert(ies_of_type(opt_vec_seq(m.remove_bars), IeType::RemoveBar) == opt_vec_seq(m.remove_bars)) by {
        assert forall|k: int| 0 <= k < opt_vec_seq(m.remove_bars).len() implies (#[trigger] opt_vec_seq(m.remove_bars)[k]).ie_type == IeType::RemoveBar by {
            assert(opt_vec_seq(m.remove_bars)[k] == m.remove_bars->Some_0@[k]@);
        }
        lemma_of_type_all(opt_vec_seq(m.remove_bars), IeType::RemoveBar);
    }
    assert(ies_of_type(opt_vec_seq(m.remove_traffic_endpoints), IeType::RemoveTrafficEndpoint) == opt_vec_seq(m.remove_traffic_endpoints)) by {
        assert forall|k: int| 0 <= k < opt_vec_seq(m.remove_traffic_endpoints).len() implies (#[trigger] opt_vec_seq(m.remove_traffic_endpoints)[k]).ie_type == IeType::RemoveTrafficEndpoint by {
            assert(opt_vec_seq(m.remove_traffic_endpoints)[k] == m.remove_traffic_endpoints->Some_0@[k]@);
        }
        lemma_of_type_all(opt_vec_seq(m.remove_traffic_endpoints), IeType::RemoveTrafficEndpoint);
    }
    assert(ies_of_type(opt_vec_seq(m.create_pdrs), IeType::CreatePdr) == opt_vec_seq(m.create_pdrs)) by {
        assert forall|k: int| 0 <= k < opt_vec_seq(m.create_pdrs).len() implies (#[trigger] opt_vec_seq(m.create_pdrs)[k]).ie_type == IeType::CreatePdr by {
            assert(opt_vec_seq(m.create_pdrs)[k] == m.create_pdrs->Some_0@[k]@);
        }
        lemma_of_type_all(opt_vec_seq(m.create_pdrs), IeType::CreatePdr);
    }
    assert(ies_of_type(opt_vec_seq(m.create_fars), IeType::CreateFar) == opt_vec_seq(m.create_fars)) by {
        assert forall|k: int| 0 <= k < opt_vec_seq(m.create_fars).len() implies (#[trigger] opt_vec_seq(m.create_fars)[k]).ie_type == IeType::CreateFar by {
            assert(opt_vec_seq(m.create_fars)[k] == m.create_fars->Some_0@[k]@);
        }
        lemma_of_type_all(opt_vec_seq(m.create_fars), IeType::CreateFar);
    }
    assert(ies_of_type(opt_vec_seq(m.create_urrs), IeType::CreateUrr) == opt_vec_seq(m.create_urrs)) by {
        assert forall|k: int| 0 <= k < opt_vec_seq(m.create_urrs).len() implies (#[trigger] opt_vec_seq(m.create_urrs)[k]).ie_type == IeType::CreateUrr by {
            assert(opt_vec_seq(m.create_urrs)[k] == m.create_urrs->Some_0@[k]@);
        }
        lemma_of_type_all(opt_vec_seq(m.create_urrs), IeType::CreateUrr);
    }
    assert(ies_of_type(opt_vec_seq(m.create_qers), IeType::CreateQer) == opt_vec_seq(m.create_qers)) by {
        assert forall|k: int| 0 <= k < opt_vec_seq(m.create_qers).len() implies (#[trigger] opt_vec_seq(m.create_qers)[k]).ie_type == IeType::CreateQer by {
            assert(opt_vec_seq(m.create_qers)[k] == m.create_qers->Some_0@[k]@);
        }
        lemma_of_type_all(opt_vec_seq(m.create_qers), IeType::CreateQer);
    }
    assert(ies_of_type(opt_vec_seq(m.create_bars), IeType::CreateBar) == opt_vec_seq(m.create_bars)) by {
        assert forall|k: int| 0 <= k < opt_vec_seq(m.create_bars).len() implies (#[trigger] opt_vec_seq(m.create_bars)[k]).ie_type == IeType::CreateBar by {
            assert(opt_vec_seq(m.create_bars)[k] == m.create_bars->Some_0@[k]@);
        }
        lemma_of_type_all(opt_vec_seq(m.create_bars), IeType::CreateBar);
    }
    assert(ies_of_type(opt_vec_seq(m.create_traffic_endpoints), IeType::CreateTrafficEndpoint) == opt_vec_seq(m.create_traffic_endpoints)) by {
        assert forall|k: int| 0 <= k < opt_vec_seq(m.create_traffic_endpoints).len() implies (#[trigger] opt_vec_seq(m.create_traffic_endpoints)[k]).ie_type == IeType::CreateTrafficEndpoint by {
            assert(opt_vec_seq(m.create_traffic_endpoints)[k] == m.create_traffic_endpoints->Some_0@[k]@);
        }
        lemma_of_type_all(opt_vec_seq(m.create_traffic_endpoints), IeType::CreateTrafficEndpoint);
    }
    assert(ies_of_type(opt_vec_seq(m.update_pdrs), IeType::UpdatePdr) == opt_vec_seq(m.update_pdrs)) by {
        assert forall|k: int| 0 <= k < opt_vec_seq(m.update_pdrs).len() implies (#[trigger] opt_vec_seq(m.update_pdrs)[k]).ie_type == IeType::UpdatePdr by {
            assert(opt_vec_seq(m.update_pdrs)[k] == m.update_pdrs->Some_0@[k]@);
        }
        lemma_of_type_all(opt_vec_seq(m.update_pdrs), IeType::UpdatePdr);
    }
    assert(ies_of_type(opt_vec_seq(m.update_fars), IeType::UpdateFar) == opt_vec_seq(m.update_fars)) by {
        assert forall|k: int| 0 <= k < opt_vec_seq(m.update_fars).len() implies (#[trigger] opt_vec_seq(m.update_fars)[k]).ie_type == IeType::UpdateFar by {
            assert(opt_vec_seq(m.update_fars)[k] == m.update_fars->Some_0@[k]@);
        }
        lemma_of_type_all(opt_vec_seq(m.update_fars), IeType::UpdateFar);
    }
    assert(ies_of_type(opt_vec_seq(m.update_urrs), IeType::UpdateUrr) == opt_vec_seq(m.update_urrs)) by {
        assert forall|k: int| 0 <= k < opt_vec_seq(m.update_urrs).len() implies (#[trigger] opt_vec_seq(m.update_urrs)[k]).ie_type == IeType::UpdateUrr by {
            assert(opt_vec_seq(m.update_urrs)[k] == m.update_urrs->Some_0@[k]@);
        }
        lemma_of_type_all(opt_vec_seq(m.update_urrs), IeType::UpdateUrr);
    }
    assert(ies_of_type(opt_vec_seq(m.update_qers), IeType::UpdateQer) == opt_vec_seq(m.update_qers)) by {
        assert forall|k: int| 0 <= k < opt_vec_seq(m.update_qers).len() implies (#[trigger] opt_vec_seq(m.update_qers)[k]).ie_type == IeType::UpdateQer by {
            assert(opt_vec_seq(m.update_qers)[k] == m.update_qers->Some_0@[k]@);
        }
        lemma_of_type_all(opt_vec_seq(m.update_qers), IeType::UpdateQer);
    }
    assert(ies_of_type(opt_vec_seq(m.update_bars), IeType::UpdateBar) == opt_vec_seq(m.update_bars)) by {
        assert forall|k: int| 0 <= k < opt_vec_seq(m.update_bars).len() implies (#[trigger] opt_vec_seq(m.update_bars)[k]).ie_type == IeType::UpdateBar by {
            assert(opt_vec_seq(m.update_bars)[k] == m.update_bars->Some_0@[k]@);
        }
        lemma_of_type_all(opt_vec_seq(m.update_bars), IeType::UpdateBar);
    }
    assert(ies_of_type(opt_vec_seq(m.update_traffic_endpoints), IeType::UpdateTrafficEndpoint) == opt_vec_seq(m.update_traffic_endpoints)) by {
        assert forall|k: int| 0 <= k < opt_vec_seq(m.update_traffic_endpoints).len() implies (#[trigger] opt_vec_seq(m.update_traffic_endpoints)[k]).ie_type == IeType::UpdateTrafficEndpoint by {
            assert(opt_vec_seq(m.update_traffic_endpoints)[k] == m.update_traffic_endpoints->Some_0@[k]@);
        }
        lemma_of_type_all(opt_vec_seq(m.update_traffic_endpoints), IeType::UpdateTrafficEndpoint);
    }
    assert(ies_of_type(opt_ie_seq(m.pdn_type), IeType::PdnType) == opt_ie_seq(m.pdn_type)) by {
        assert forall|k: int| 0 <= k < opt_ie_seq(m.pdn_type).len() implies (#[trigger] opt_ie_seq(m.pdn_type)[k]).ie_type == IeType::PdnType by {
        }
        lemma_of_type_all(opt_ie_seq(m.pdn_type), IeType::PdnType);
    }
    assert(ies_of_type(opt_ie_seq(m.user_id), IeType::UserId) == opt_ie_seq(m.user_id)) by {
        assert forall|k: int| 0 <= k < opt_ie_seq(m.user_id).len() implies (#[trigger] opt_ie_seq(m.user_id)[k]).ie_type == IeType::UserId by {
        }
        lemma_of_type_all(opt_ie_seq(m.user_id), IeType::UserId);
    }
    assert(ies_of_type(opt_ie_seq(m.s_nssai), IeType::Snssai) == opt_ie_seq(m.s_nssai)) by {
        assert forall|k: int| 0 <= k < opt_ie_seq(m.s_nssai).len() implies (#[trigger] opt_ie_seq(m.s_nssai)[k]).ie_type == IeType::Snssai by {
        }
        lemma_of_type_all(opt_ie_seq(m.s_nssai), IeType::Snssai);
    }
    assert(ies_of_type(opt_ie_seq(m.trace_information), IeType::TraceInformation) == opt_ie_seq(m.trace_information)) by {
        assert forall|k: int| 0 <= k < opt_ie_seq(m.trace_information).len() implies (#[trigger] opt_ie_seq(m.trace_information)[k]).ie_type == IeType::TraceInformation by {
        }
        lemma_of_type_all(opt_ie_seq(m.trace_information), IeType::TraceInformation);
    }
    assert(ies_of_type(opt_ie_seq(m.recovery_time_stamp), IeType::RecoveryTimeStamp) == opt_ie_seq(m.recovery_time_stamp)) by {
        assert forall|k: int| 0 <= k < opt_ie_seq(m.recovery_time_stamp).len() implies (#[trigger] opt_ie_seq(m.recovery_time_stamp)[k]).ie_type == IeType::RecoveryTimeStamp by {
        }
        lemma_of_type_all(opt_ie_seq(m.recovery_time_stamp), IeType::RecoveryTimeStamp);
    }
    assert(ies_of_type(opt_ie_seq(m.cp_function_features), IeType::CpFunctionFeatures) == opt_ie_seq(m.cp_function_features)) by {
        assert forall|k: int| 0 <= k < opt_ie_seq(m.cp_function_features).len() implies (#[trigger] opt_ie_seq(m.cp_function_features)[k]).ie_type == IeType::CpFunctionFeatures by {
        }
        lemma_of_type_all(opt_ie_seq(m.cp_function_features), IeType::CpFunctionFeatures);
    }
    assert(ies_of_type(opt_ie_seq(m.apn_dnn), IeType::ApnDnn) == opt_ie_seq(m.apn_dnn)) by {
        assert forall|k: int| 0 <= k < opt_ie_seq(m.apn_dnn).len() implies (#[trigger] opt_ie_seq(m.apn_dnn)[k]).ie_type == IeType::ApnDnn by {
        }
        lemma_of_type_all(opt_ie_seq(m.apn_dnn), IeType::ApnDnn);
    }
    assert(ies_of_type(opt_ie_seq(m.user_plane_inactivity_timer), IeType::UserPlaneInactivityTimer) == opt_ie_seq(m.user_plane_inactivity_timer)) by {
        assert forall|k: int| 0 <= k < opt_ie_seq(m.user_plane_inactivity_timer).len() implies (#[trigger] opt_ie_seq(m.user_plane_inactivity_timer)[k]).ie_type == IeType::UserPlaneInactivityTimer by {
        }
        lemma_of_type_all(opt_ie_seq(m.user_plane_inactivity_timer), IeType::UserPlaneInactivityTimer);
    }
    assert(ies_of_type(opt_ie_seq(m.pfcpsm_req_flags), IeType::PfcpsmReqFlags) == opt_ie_seq(m.pfcpsm_req_flags)) by {
        assert forall|k: int| 0 <= k < opt_ie_seq(m.pfcpsm_req_flags).len() implies (#[trigger] opt_ie_seq(m.pfcpsm_req_flags)[k]).ie_type == IeType::PfcpsmReqFlags by {
        }
        lemma_of_type_all(opt_ie_seq(m.pfcpsm_req_flags), IeType::PfcpsmReqFlags);
    }
    assert(ies_of_type(opt_ie_seq(m.ethernet_context_information), IeType::EthernetContextInformation) == opt_ie_seq(m.ethernet_context_information)) by {
        assert forall|k: int| 0 <= k < opt_ie_seq(m.ethernet_context_information).len() implies (#[trigger] opt_ie_seq(m.ethernet_context_information)[k]).ie_type == IeType::EthernetContextInformation by {
        }
        lemma_of_type_all(opt_ie_seq(m.ethernet_context_information), IeType::EthernetContextInformation);
    }
}

/// Looking up the IEs of a type gives exactly the message's IEs of that type, in
/// wire order, when every IE is in the field named for its type.
#[verifier::spinoff_prover]
pub proof fn lemma_session_modification_request_lookup_by_type(m: SessionModificationRequest, t: IeType)
    requires
        m.fields_hold_their_types(),
    ensures
        m.spec_ies_of(t) == ies_of_type(m.spec_body(), t),
        forall|k: int| 0 <= k < m.spec_ies_of(t).len() ==> (#[trigger] m.spec_ies_of(t)[k]).ie_type == t,
{
    let cls = SessionModificationRequest::classifier();
    lemma_session_modification_request_fields_classified(m);
    lemma_of_type_classified(m.slots(), cls, t);
    lemma_session_modification_request_fields_of_their_type(m);
    match t {
        IeType::Fseid => {
            assert(m.slots()[0] == opt_ie_seq(m.fseid));
        },
        IeType::RemovePdr => {
            assert(m.slots()[1] == opt_vec_seq(m.remove_pdrs));
        },
        IeType::RemoveFar => {
            assert(m.slots()[2] == opt_vec_seq(m.remove_fars));
        },
        IeType::RemoveUrr => {
            assert(m.slots()[3] == opt_vec_seq(m.remove_urrs));
        },
        IeType::RemoveQer => {
            assert(m.slots()[4] == opt_vec_seq(m.remove_qers));
        },
        IeType::RemoveBar => {
            assert(m.slots()[5] == opt_vec_seq(m.remove_bars));
        },
        IeType::RemoveTrafficEndpoint => {
            assert(m.slots()[6] == opt_vec_seq(m.remove_traffic_endpoints));
        },
        IeType::CreatePdr => {
            assert(m.slots()[7] == opt_vec_seq(m.create_pdrs));
        },
        IeType::CreateFar => {
            assert(m.slots()[8] == opt_vec_seq(m.create_fars));
        },
        IeType::CreateUrr => {
            assert(m.slots()[9] == opt_vec_seq(m.create_urrs));
        },
        IeType::CreateQer => {
            assert(m.slots()[10] == opt_vec_seq(m.create_qers));
        },
        IeType::CreateBar => {
            assert(m.slots()[11] == opt_vec_seq(m.create_bars));
        },
        IeType::CreateTrafficEndpoint => {
            assert(m.slots()[12] == opt_vec_seq(m.create_traffic_endpoints));
        },
        IeType::UpdatePdr => {
            assert(m.slots()[13] == opt_vec_seq(m.update_pdrs));
        },
        IeType::UpdateFar => {
            assert(m.slots()[14] == opt_vec_seq(m.update_fars));
        },
        IeType::UpdateUrr => {
            assert(m.slots()[15] == opt_vec_seq(m.update_urrs));
        },
        IeType::UpdateQer => {
            assert(m.slots()[16] == opt_vec_seq(m.update_qers));
        },
        IeType::UpdateBar => {
            assert(m.slots()[17] == opt_vec_seq(m.update_bars));
        },
        IeType::UpdateTrafficEndpoint => {
            assert(m.slots()[18] == opt_vec_seq(m.update_traffic_endpoints));
        },
        IeType::PdnType => {
            assert(m.slots()[19] == opt_ie_seq(m.pdn_type));
        },
        IeType::UserId => {
            assert(m.slots()[20] == opt_ie_seq(m.user_id));
        },
        IeType::Snssai => {
            assert(m.slots()[21] == opt_ie_seq(m.s_nssai));
        },
        IeType::TraceInformation => {
            assert(m.slots()[22] == opt_ie_seq(m.trace_information));
        },
        IeType::RecoveryTimeStamp => {
            assert(m.slots()[23] == opt_ie_seq(m.recovery_time_stamp));
        },
        IeType::CpFunctionFeatures => {
            assert(m.slots()[24] == opt_ie_seq(m.cp_function_features));
        },
        IeType::ApnDnn => {
            assert(m.slots()[25] == opt_ie_seq(m.apn_dnn));
        },
        IeType::UserPlaneInactivityTimer => {
            assert(m.slots()[26] == opt_ie_seq(m.user_plane_inactivity_timer));
        },
        IeType::PfcpsmReqFlags => {
            assert(m.slots()[27] == opt_ie_seq(m.pfcpsm_req_flags));
        },
        IeType::EthernetContextInformation => {
            assert(m.slots()[28] == opt_ie_seq(m.ethernet_context_information));
        },
        _ => {
            assert(m.slots()[29] == ies_view(m.ies@));
        },
    }
    lemma_of_type_types(m.spec_body(), t);
}

} // verus!
