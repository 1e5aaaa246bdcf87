//! Session Establishment Request message (3GPP TS 29.244 clause 7.5.2).
use crate::error::PfcpError;
use crate::ie::{
    ie_refs_view, ies_of_type, ies_size, ies_view, ies_where, ies_wf, ies_wire, parse_ies, spec_parse_ies, Ie,
    IeType, IeView,
};
use crate::message::header::{
    header_size, header_wf, header_wire, lemma_header_roundtrip, lemma_header_wire_len, spec_parse_header, Header,
};
use crate::message::ie_iter::IeIter;
use crate::message::slots::{
    concat_slots, decode_slot, decode_slots, empty_buckets, last_ie, lemma_decode_concat, lemma_len_step,
    lemma_slot_ies_empty, lemma_slot_ies_push_all, len_slot_many, len_slot_one, len_slot_opt, list_slot_many,
    list_slot_one, list_slot_opt, opt_ie_seq, push_bucket, slot_ies, slots_typed, take_bucket, write_slot_many,
    write_slot_one, write_slot_opt, SlotKind, last_seq, lemma_classified_push, lemma_ies_of_type_is_where,
    lemma_ies_where_ext, lemma_of_type_all, lemma_of_type_classified, lemma_of_type_types, slot_pred,
    slots_classified,
};
use crate::message::{lemma_msg_type_code_roundtrip, lemma_parse_header_size, message_header, Message, MsgType};
use crate::ie::fseid::Fseid;
use crate::ie::node_id::NodeId;
use crate::ie::recovery_time_stamp::RecoveryTimeStamp;
use vstd::prelude::*;

verus! {

/// A Session Establishment Request message (3GPP TS 29.244 clause 7.5.2)
#[derive(Debug, Clone, PartialEq, Eq)]
pub struct SessionEstablishmentRequest {
    pub header: Header,
    pub node_id: Ie,
    pub fseid: Ie,
    pub create_pdrs: Vec<Ie>,
    pub create_fars: Vec<Ie>,
    pub create_urrs: Vec<Ie>,
    pub create_qers: Vec<Ie>,
    pub create_bars: Vec<Ie>,
    pub create_traffic_endpoints: Vec<Ie>,
    pub pdn_type: Option<Ie>,
    pub user_id: Option<Ie>,
    pub s_nssai: Option<Ie>,
    pub trace_information: Option<Ie>,
    pub recovery_time_stamp: Option<Ie>,
    pub cp_function_features: Option<Ie>,
    pub apn_dnn: Option<Ie>,
    pub user_plane_inactivity_timer: Option<Ie>,
    pub pfcpsm_req_flags: Option<Ie>,
    pub ies: Vec<Ie>,
}

impl SessionEstablishmentRequest {
    /// The slot that an IE of type `t` is read into.
    pub open spec fn slot_class(t: IeType) -> int {
        match t {
            IeType::NodeId => 0,
            IeType::Fseid => 1,
            IeType::CreatePdr => 2,
            IeType::CreateFar => 3,
            IeType::CreateUrr => 4,
            IeType::CreateQer => 5,
            IeType::CreateBar => 6,
            IeType::CreateTrafficEndpoint => 7,
            IeType::PdnType => 8,
            IeType::UserId => 9,
            IeType::Snssai => 10,
            IeType::TraceInformation => 11,
            IeType::RecoveryTimeStamp => 12,
            IeType::CpFunctionFeatures => 13,
            IeType::ApnDnn => 14,
            IeType::UserPlaneInactivityTimer => 15,
            IeType::PfcpsmReqFlags => 16,
            _ => 17,
        }
    }

    /// The slot that an IE of type `t` is read into.
    fn classify(t: IeType) -> (r: usize)
        ensures
            r == Self::slot_class(t),
    {
        match t {
            IeType::NodeId => 0,
            IeType::Fseid => 1,
            IeType::CreatePdr => 2,
            IeType::CreateFar => 3,
            IeType::CreateUrr => 4,
            IeType::CreateQer => 5,
            IeType::CreateBar => 6,
            IeType::CreateTrafficEndpoint => 7,
            IeType::PdnType => 8,
            IeType::UserId => 9,
            IeType::Snssai => 10,
            IeType::TraceInformation => 11,
            IeType::RecoveryTimeStamp => 12,
            IeType::CpFunctionFeatures => 13,
            IeType::ApnDnn => 14,
            IeType::UserPlaneInactivityTimer => 15,
            IeType::PfcpsmReqFlags => 16,
            _ => 17,
        }
    }

    /// `slot_class` as a function value.
    pub open spec fn classifier() -> spec_fn(IeType) -> int {
        |t: IeType| Self::slot_class(t)
    }

    /// How many IEs each slot keeps, in wire order.
    pub open spec fn slot_kinds() -> Seq<SlotKind> {
        seq![SlotKind::One, SlotKind::One, SlotKind::Many, SlotKind::Many, SlotKind::Many, SlotKind::Many, SlotKind::Many, SlotKind::Many, SlotKind::One, SlotKind::One, SlotKind::One, SlotKind::One, SlotKind::One, SlotKind::One, SlotKind::One, SlotKind::One, SlotKind::One, SlotKind::Many]
    }

    /// The IEs of each field, in wire order.
    pub open spec fn slots(&self) -> Seq<Seq<IeView>> {
        Seq::<Seq<IeView>>::empty().push(seq![self.node_id@]).push(seq![self.fseid@]).push(ies_view(self.create_pdrs@)).push(ies_view(self.create_fars@)).push(ies_view(self.create_urrs@)).push(ies_view(self.create_qers@)).push(ies_view(self.create_bars@)).push(ies_view(self.create_traffic_endpoints@)).push(opt_ie_seq(self.pdn_type)).push(opt_ie_seq(self.user_id)).push(opt_ie_seq(self.s_nssai)).push(opt_ie_seq(self.trace_information)).push(opt_ie_seq(self.recovery_time_stamp)).push(opt_ie_seq(self.cp_function_features)).push(opt_ie_seq(self.apn_dnn)).push(opt_ie_seq(self.user_plane_inactivity_timer)).push(opt_ie_seq(self.pfcpsm_req_flags)).push(ies_view(self.ies@))
    }

    /// The IEs in the order that `all_ies` lists them.
    pub open spec fn listed_ies(&self) -> Seq<IeView> {
        concat_slots(Seq::<Seq<IeView>>::empty().push(seq![self.node_id@]).push(seq![self.fseid@]).push(ies_view(self.create_pdrs@)).push(ies_view(self.create_fars@)).push(ies_view(self.create_urrs@)).push(ies_view(self.create_qers@)).push(ies_view(self.create_bars@)).push(ies_view(self.create_traffic_endpoints@)).push(opt_ie_seq(self.pdn_type)).push(opt_ie_seq(self.user_id)).push(opt_ie_seq(self.s_nssai)).push(opt_ie_seq(self.trace_information)).push(opt_ie_seq(self.recovery_time_stamp)).push(opt_ie_seq(self.cp_function_features)).push(opt_ie_seq(self.apn_dnn)).push(opt_ie_seq(self.user_plane_inactivity_timer)).push(opt_ie_seq(self.pfcpsm_req_flags)).push(ies_view(self.ies@)))
    }

    /// The first mandatory IE that `ies` lacks, checked in the order the decoder checks.
    pub open spec fn missing_ie(ies: Seq<IeView>) -> Option<IeType> {
        if decode_slot(ies, Self::classifier(), 2, SlotKind::Many).len() == 0 {
            Some(IeType::CreatePdr)
        } else {
            if decode_slot(ies, Self::classifier(), 3, SlotKind::Many).len() == 0 {
            Some(IeType::CreateFar)
        } else {
            if decode_slot(ies, Self::classifier(), 0, SlotKind::One).len() == 0 {
            Some(IeType::NodeId)
        } else {
            if decode_slot(ies, Self::classifier(), 1, SlotKind::One).len() == 0 {
            Some(IeType::Fseid)
        } else {
            None
        }
        }
        }
        }
    }

    /// The fields have a shape that decoding gives back: every IE is in the field for its type,
    /// mandatory lists are not empty and optional lists are present only when not empty.
    pub open spec fn fields_canonical(&self) -> bool {
        slots_typed(self.slots(), Self::classifier(), Self::slot_kinds())
        && self.create_pdrs@.len() > 0
        && self.create_fars@.len() > 0
    }

    /// A message that reads back as itself.
    pub open spec fn well_formed(&self) -> bool {
        header_wf(self.header) && ies_wf(concat_slots(self.slots())) && self.fields_canonical()
    }

    /// The wire form of the message: its header, then its IEs in wire order.
    pub open spec fn wire(&self) -> Seq<u8> {
        header_wire(self.header) + ies_wire(concat_slots(self.slots()))
    }

    /// Decoding `ies` gives these fields.
    pub open spec fn decodes_from(&self, ies: Seq<IeView>) -> bool {
        &&& seq![self.node_id@] == decode_slot(ies, Self::classifier(), 0, SlotKind::One)
        &&& seq![self.fseid@] == decode_slot(ies, Self::classifier(), 1, SlotKind::One)
        &&& ies_view(self.create_pdrs@) == decode_slot(ies, Self::classifier(), 2, SlotKind::Many)
        &&& ies_view(self.create_fars@) == decode_slot(ies, Self::classifier(), 3, SlotKind::Many)
        &&& ies_view(self.create_urrs@) == decode_slot(ies, Self::classifier(), 4, SlotKind::Many)
        &&& ies_view(self.create_qers@) == decode_slot(ies, Self::classifier(), 5, SlotKind::Many)
        &&& ies_view(self.create_bars@) == decode_slot(ies, Self::classifier(), 6, SlotKind::Many)
        &&& ies_view(self.create_traffic_endpoints@) == decode_slot(ies, Self::classifier(), 7, SlotKind::Many)
        &&& opt_ie_seq(self.pdn_type) == decode_slot(ies, Self::classifier(), 8, SlotKind::One)
        &&& opt_ie_seq(self.user_id) == decode_slot(ies, Self::classifier(), 9, SlotKind::One)
        &&& opt_ie_seq(self.s_nssai) == decode_slot(ies, Self::classifier(), 10, SlotKind::One)
        &&& opt_ie_seq(self.trace_information) == decode_slot(ies, Self::classifier(), 11, SlotKind::One)
        &&& opt_ie_seq(self.recovery_time_stamp) == decode_slot(ies, Self::classifier(), 12, SlotKind::One)
        &&& opt_ie_seq(self.cp_function_features) == decode_slot(ies, Self::classifier(), 13, SlotKind::One)
        &&& opt_ie_seq(self.apn_dnn) == decode_slot(ies, Self::classifier(), 14, SlotKind::One)
        &&& opt_ie_seq(self.user_plane_inactivity_timer) == decode_slot(ies, Self::classifier(), 15, SlotKind::One)
        &&& opt_ie_seq(self.pfcpsm_req_flags) == decode_slot(ies, Self::classifier(), 16, SlotKind::One)
        &&& ies_view(self.ies@) == decode_slot(ies, Self::classifier(), 17, SlotKind::Many)
    }

    /// Assembles a message from its fields; the header length covers the fields' IEs.
    fn assemble(seid: u64, seq: u32, node_id: Ie, fseid: Ie, create_pdrs: Vec<Ie>, create_fars: Vec<Ie>, create_urrs: Vec<Ie>, create_qers: Vec<Ie>, create_bars: Vec<Ie>, create_traffic_endpoints: Vec<Ie>, pdn_type: Option<Ie>, user_id: Option<Ie>, s_nssai: Option<Ie>, trace_information: Option<Ie>, recovery_time_stamp: Option<Ie>, cp_function_features: Option<Ie>, apn_dnn: Option<Ie>, user_plane_inactivity_timer: Option<Ie>, pfcpsm_req_flags: Option<Ie>, ies: Vec<Ie>) -> (r: Self)
        ensures
            r.header == message_header(MsgType::SessionEstablishmentRequest, true, seid, seq, concat_slots(r.slots())),
            r.node_id == node_id,
            r.fseid == fseid,
            r.create_pdrs == create_pdrs,
            r.create_fars == create_fars,
            r.create_urrs == create_urrs,
            r.create_qers == create_qers,
            r.create_bars == create_bars,
            r.create_traffic_endpoints == create_traffic_endpoints,
            r.pdn_type == pdn_type,
            r.user_id == user_id,
            r.s_nssai == s_nssai,
            r.trace_information == trace_information,
            r.recovery_time_stamp == recovery_time_stamp,
            r.cp_function_features == cp_function_features,
            r.apn_dnn == apn_dnn,
            r.user_plane_inactivity_timer == user_plane_inactivity_timer,
            r.pfcpsm_req_flags == pfcpsm_req_flags,
            r.ies == ies,
    {
        let len: u16 = 0;
        let len = len_slot_one(len, &node_id, Ghost(Seq::<Seq<IeView>>::empty()));
        let len = len_slot_one(len, &fseid, Ghost(Seq::<Seq<IeView>>::empty().push(seq![node_id@])));
        let len = len_slot_many(len, &create_pdrs, Ghost(Seq::<Seq<IeView>>::empty().push(seq![node_id@]).push(seq![fseid@])));
        let len = len_slot_many(len, &create_fars, Ghost(Seq::<Seq<IeView>>::empty().push(seq![node_id@]).push(seq![fseid@]).push(ies_view(create_pdrs@))));
        let len = len_slot_many(len, &create_urrs, Ghost(Seq::<Seq<IeView>>::empty().push(seq![node_id@]).push(seq![fseid@]).push(ies_view(create_pdrs@)).push(ies_view(create_fars@))));
        let len = len_slot_many(len, &create_qers, Ghost(Seq::<Seq<IeView>>::empty().push(seq![node_id@]).push(seq![fseid@]).push(ies_view(create_pdrs@)).push(ies_view(create_fars@)).push(ies_view(create_urrs@))));
        let len = len_slot_many(len, &create_bars, Ghost(Seq::<Seq<IeView>>::empty().push(seq![node_id@]).push(seq![fseid@]).push(ies_view(create_pdrs@)).push(ies_view(create_fars@)).push(ies_view(create_urrs@)).push(ies_view(create_qers@))));
        let len = len_slot_many(len, &create_traffic_endpoints, Ghost(Seq::<Seq<IeView>>::empty().push(seq![node_id@]).push(seq![fseid@]).push(ies_view(create_pdrs@)).push(ies_view(create_fars@)).push(ies_view(create_urrs@)).push(ies_view(create_qers@)).push(ies_view(create_bars@))));
        let len = len_slot_opt(len, &pdn_type, Ghost(Seq::<Seq<IeView>>::empty().push(seq![node_id@]).push(seq![fseid@]).push(ies_view(create_pdrs@)).push(ies_view(create_fars@)).push(ies_view(create_urrs@)).push(ies_view(create_qers@)).push(ies_view(create_bars@)).push(ies_view(create_traffic_endpoints@))));
        let len = len_slot_opt(len, &user_id, Ghost(Seq::<Seq<IeView>>::empty().push(seq![node_id@]).push(seq![fseid@]).push(ies_view(create_pdrs@)).push(ies_view(create_fars@)).push(ies_view(create_urrs@)).push(ies_view(create_qers@)).push(ies_view(create_bars@)).push(ies_view(create_traffic_endpoints@)).push(opt_ie_seq(pdn_type))));
        let len = len_slot_opt(len, &s_nssai, Ghost(Seq::<Seq<IeView>>::empty().push(seq![node_id@]).push(seq![fseid@]).push(ies_view(create_pdrs@)).push(ies_view(create_fars@)).push(ies_view(create_urrs@)).push(ies_view(create_qers@)).push(ies_view(create_bars@)).push(ies_view(create_traffic_endpoints@)).push(opt_ie_seq(pdn_type)).push(opt_ie_seq(user_id))));
        let len = len_slot_opt(len, &trace_information, Ghost(Seq::<Seq<IeView>>::empty().push(seq![node_id@]).push(seq![fseid@]).push(ies_view(create_pdrs@)).push(ies_view(create_fars@)).push(ies_view(create_urrs@)).push(ies_view(create_qers@)).push(ies_view(create_bars@)).push(ies_view(create_traffic_endpoints@)).push(opt_ie_seq(pdn_type)).push(opt_ie_seq(user_id)).push(opt_ie_seq(s_nssai))));
        let len = len_slot_opt(len, &recovery_time_stamp, Ghost(Seq::<Seq<IeView>>::empty().push(seq![node_id@]).push(seq![fseid@]).push(ies_view(create_pdrs@)).push(ies_view(create_fars@)).push(ies_view(create_urrs@)).push(ies_view(create_qers@)).push(ies_view(create_bars@)).push(ies_view(create_traffic_endpoints@)).push(opt_ie_seq(pdn_type)).push(opt_ie_seq(user_id)).push(opt_ie_seq(s_nssai)).push(opt_ie_seq(trace_information))));
        let len = len_slot_opt(len, &cp_function_features, Ghost(Seq::<Seq<IeView>>::empty().push(seq![node_id@]).push(seq![fseid@]).push(ies_view(create_pdrs@)).push(ies_view(create_fars@)).push(ies_view(create_urrs@)).push(ies_view(create_qers@)).push(ies_view(create_bars@)).push(ies_view(create_traffic_endpoints@)).push(opt_ie_seq(pdn_type)).push(opt_ie_seq(user_id)).push(opt_ie_seq(s_nssai)).push(opt_ie_seq(trace_information)).push(opt_ie_seq(recovery_time_stamp))));
        let len = len_slot_opt(len, &apn_dnn, Ghost(Seq::<Seq<IeView>>::empty().push(seq![node_id@]).push(seq![fseid@]).push(ies_view(create_pdrs@)).push(ies_view(create_fars@)).push(ies_view(create_urrs@)).push(ies_view(create_qers@)).push(ies_view(create_bars@)).push(ies_view(create_traffic_endpoints@)).push(opt_ie_seq(pdn_type)).push(opt_ie_seq(user_id)).push(opt_ie_seq(s_nssai)).push(opt_ie_seq(trace_information)).push(opt_ie_seq(recovery_time_stamp)).push(opt_ie_seq(cp_function_features))));
        let len = len_slot_opt(len, &user_plane_inactivity_timer, Ghost(Seq::<Seq<IeView>>::empty().push(seq![node_id@]).push(seq![fseid@]).push(ies_view(create_pdrs@)).push(ies_view(create_fars@)).push(ies_view(create_urrs@)).push(ies_view(create_qers@)).push(ies_view(create_bars@)).push(ies_view(create_traffic_endpoints@)).push(opt_ie_seq(pdn_type)).push(opt_ie_seq(user_id)).push(opt_ie_seq(s_nssai)).push(opt_ie_seq(trace_information)).push(opt_ie_seq(recovery_time_stamp)).push(opt_ie_seq(cp_function_features)).push(opt_ie_seq(apn_dnn))));
        let len = len_slot_opt(len, &pfcpsm_req_flags, Ghost(Seq::<Seq<IeView>>::empty().push(seq![node_id@]).push(seq![fseid@]).push(ies_view(create_pdrs@)).push(ies_view(create_fars@)).push(ies_view(create_urrs@)).push(ies_view(create_qers@)).push(ies_view(create_bars@)).push(ies_view(create_traffic_endpoints@)).push(opt_ie_seq(pdn_type)).push(opt_ie_seq(user_id)).push(opt_ie_seq(s_nssai)).push(opt_ie_seq(trace_information)).push(opt_ie_seq(recovery_time_stamp)).push(opt_ie_seq(cp_function_features)).push(opt_ie_seq(apn_dnn)).push(opt_ie_seq(user_plane_inactivity_timer))));
        let len = len_slot_many(len, &ies, Ghost(Seq::<Seq<IeView>>::empty().push(seq![node_id@]).push(seq![fseid@]).push(ies_view(create_pdrs@)).push(ies_view(create_fars@)).push(ies_view(create_urrs@)).push(ies_view(create_qers@)).push(ies_view(create_bars@)).push(ies_view(create_traffic_endpoints@)).push(opt_ie_seq(pdn_type)).push(opt_ie_seq(user_id)).push(opt_ie_seq(s_nssai)).push(opt_ie_seq(trace_information)).push(opt_ie_seq(recovery_time_stamp)).push(opt_ie_seq(cp_function_features)).push(opt_ie_seq(apn_dnn)).push(opt_ie_seq(user_plane_inactivity_timer)).push(opt_ie_seq(pfcpsm_req_flags))));
        let mut header = Header::new(MsgType::SessionEstablishmentRequest, true, seid, seq);
        proof { lemma_len_step(ies_size(concat_slots(Seq::<Seq<IeView>>::empty().push(seq![node_id@]).push(seq![fseid@]).push(ies_view(create_pdrs@)).push(ies_view(create_fars@)).push(ies_view(create_urrs@)).push(ies_view(create_qers@)).push(ies_view(create_bars@)).push(ies_view(create_traffic_endpoints@)).push(opt_ie_seq(pdn_type)).push(opt_ie_seq(user_id)).push(opt_ie_seq(s_nssai)).push(opt_ie_seq(trace_information)).push(opt_ie_seq(recovery_time_stamp)).push(opt_ie_seq(cp_function_features)).push(opt_ie_seq(apn_dnn)).push(opt_ie_seq(user_plane_inactivity_timer)).push(opt_ie_seq(pfcpsm_req_flags)).push(ies_view(ies@)))) as int, header_size(header) as int - 4, len as int); }
        header.length = ((len as u32 + header.len() as u32 - 4) % 65536) as u16;
        SessionEstablishmentRequest { header, node_id, fseid, create_pdrs, create_fars, create_urrs, create_qers, create_bars, create_traffic_endpoints, pdn_type, user_id, s_nssai, trace_information, recovery_time_stamp, cp_function_features, apn_dnn, user_plane_inactivity_timer, pfcpsm_req_flags, ies }
    }

}

impl Message for SessionEstablishmentRequest {
    open spec fn spec_header(&self) -> Header {
        self.header
    }

    open spec fn spec_body(&self) -> Seq<IeView> {
        concat_slots(self.slots())
    }

    open spec fn spec_listed(&self) -> Seq<IeView> {
        self.listed_ies()
    }

    open spec fn spec_ies_of(&self, t: IeType) -> Seq<IeView> {
        match t {
            IeType::NodeId => seq![self.node_id@],
            IeType::Fseid => seq![self.fseid@],
            IeType::CreatePdr => ies_view(self.create_pdrs@),
            IeType::CreateFar => ies_view(self.create_fars@),
            IeType::CreateUrr => ies_view(self.create_urrs@),
            IeType::CreateQer => ies_view(self.create_qers@),
            IeType::CreateBar => ies_view(self.create_bars@),
            IeType::CreateTrafficEndpoint => ies_view(self.create_traffic_endpoints@),
            IeType::PdnType => opt_ie_seq(self.pdn_type),
            IeType::UserId => opt_ie_seq(self.user_id),
            IeType::Snssai => opt_ie_seq(self.s_nssai),
            IeType::TraceInformation => opt_ie_seq(self.trace_information),
            IeType::RecoveryTimeStamp => opt_ie_seq(self.recovery_time_stamp),
            IeType::CpFunctionFeatures => opt_ie_seq(self.cp_function_features),
            IeType::ApnDnn => opt_ie_seq(self.apn_dnn),
            IeType::UserPlaneInactivityTimer => opt_ie_seq(self.user_plane_inactivity_timer),
            IeType::PfcpsmReqFlags => opt_ie_seq(self.pfcpsm_req_flags),
            _ => crate::ie::ies_of_type(ies_view(self.ies@), t),
        }
    }

    open spec fn spec_msg_type(&self) -> MsgType {
        MsgType::SessionEstablishmentRequest
    }

    open spec fn spec_decode_error(data: Seq<u8>) -> Option<PfcpError> {
        match spec_parse_header(data) {
            Err(e) => Some(e),
            Ok(h) => match spec_parse_ies(data.skip(header_size(h) as int)) {
                Err(e) => Some(e),
                Ok(ies) => match Self::missing_ie(ies) {
                    Some(t) => Some(PfcpError::MissingMandatoryIe { ie_type: t, message_type: Some(MsgType::SessionEstablishmentRequest) }),
                    None => None,
                },
            },
        }
    }

    open spec fn spec_decoded(data: Seq<u8>, m: Self) -> bool {
        match spec_parse_header(data) {
            Err(_) => false,
            Ok(h) => match spec_parse_ies(data.skip(header_size(h) as int)) {
                Err(_) => false,
                Ok(ies) => m.header == h && m.decodes_from(ies),
            },
        }
    }

    fn marshal_into(&self, buf: &mut Vec<u8>) {
        self.header.marshal_into(buf);
        let ghost p = buf@;
        assert(buf@ =~= p + ies_wire(concat_slots(Seq::<Seq<IeView>>::empty())));
        write_slot_one(buf, &self.node_id, Ghost(p), Ghost(Seq::<Seq<IeView>>::empty()));
        write_slot_one(buf, &self.fseid, Ghost(p), Ghost(Seq::<Seq<IeView>>::empty().push(seq![self.node_id@])));
        write_slot_many(buf, &self.create_pdrs, Ghost(p), Ghost(Seq::<Seq<IeView>>::empty().push(seq![self.node_id@]).push(seq![self.fseid@])));
        write_slot_many(buf, &self.create_fars, Ghost(p), Ghost(Seq::<Seq<IeView>>::empty().push(seq![self.node_id@]).push(seq![self.fseid@]).push(ies_view(self.create_pdrs@))));
        write_slot_many(buf, &self.create_urrs, Ghost(p), Ghost(Seq::<Seq<IeView>>::empty().push(seq![self.node_id@]).push(seq![self.fseid@]).push(ies_view(self.create_pdrs@)).push(ies_view(self.create_fars@))));
        write_slot_many(buf, &self.create_qers, Ghost(p), Ghost(Seq::<Seq<IeView>>::empty().push(seq![self.node_id@]).push(seq![self.fseid@]).push(ies_view(self.create_pdrs@)).push(ies_view(self.create_fars@)).push(ies_view(self.create_urrs@))));
        write_slot_many(buf, &self.create_bars, Ghost(p), Ghost(Seq::<Seq<IeView>>::empty().push(seq![self.node_id@]).push(seq![self.fseid@]).push(ies_view(self.create_pdrs@)).push(ies_view(self.create_fars@)).push(ies_view(self.create_urrs@)).push(ies_view(self.create_qers@))));
        write_slot_many(buf, &self.create_traffic_endpoints, Ghost(p), Ghost(Seq::<Seq<IeView>>::empty().push(seq![self.node_id@]).push(seq![self.fseid@]).push(ies_view(self.create_pdrs@)).push(ies_view(self.create_fars@)).push(ies_view(self.create_urrs@)).push(ies_view(self.create_qers@)).push(ies_view(self.create_bars@))));
        write_slot_opt(buf, &self.pdn_type, Ghost(p), Ghost(Seq::<Seq<IeView>>::empty().push(seq![self.node_id@]).push(seq![self.fseid@]).push(ies_view(self.create_pdrs@)).push(ies_view(self.create_fars@)).push(ies_view(self.create_urrs@)).push(ies_view(self.create_qers@)).push(ies_view(self.create_bars@)).push(ies_view(self.create_traffic_endpoints@))));
        write_slot_opt(buf, &self.user_id, Ghost(p), Ghost(Seq::<Seq<IeView>>::empty().push(seq![self.node_id@]).push(seq![self.fseid@]).push(ies_view(self.create_pdrs@)).push(ies_view(self.create_fars@)).push(ies_view(self.create_urrs@)).push(ies_view(self.create_qers@)).push(ies_view(self.create_bars@)).push(ies_view(self.create_traffic_endpoints@)).push(opt_ie_seq(self.pdn_type))));
        write_slot_opt(buf, &self.s_nssai, Ghost(p), Ghost(Seq::<Seq<IeView>>::empty().push(seq![self.node_id@]).push(seq![self.fseid@]).push(ies_view(self.create_pdrs@)).push(ies_view(self.create_fars@)).push(ies_view(self.create_urrs@)).push(ies_view(self.create_qers@)).push(ies_view(self.create_bars@)).push(ies_view(self.create_traffic_endpoints@)).push(opt_ie_seq(self.pdn_type)).push(opt_ie_seq(self.user_id))));
        write_slot_opt(buf, &self.trace_information, Ghost(p), Ghost(Seq::<Seq<IeView>>::empty().push(seq![self.node_id@]).push(seq![self.fseid@]).push(ies_view(self.create_pdrs@)).push(ies_view(self.create_fars@)).push(ies_view(self.create_urrs@)).push(ies_view(self.create_qers@)).push(ies_view(self.create_bars@)).push(ies_view(self.create_traffic_endpoints@)).push(opt_ie_seq(self.pdn_type)).push(opt_ie_seq(self.user_id)).push(opt_ie_seq(self.s_nssai))));
        write_slot_opt(buf, &self.recovery_time_stamp, Ghost(p), Ghost(Seq::<Seq<IeView>>::empty().push(seq![self.node_id@]).push(seq![self.fseid@]).push(ies_view(self.create_pdrs@)).push(ies_view(self.create_fars@)).push(ies_view(self.create_urrs@)).push(ies_view(self.create_qers@)).push(ies_view(self.create_bars@)).push(ies_view(self.create_traffic_endpoints@)).push(opt_ie_seq(self.pdn_type)).push(opt_ie_seq(self.user_id)).push(opt_ie_seq(self.s_nssai)).push(opt_ie_seq(self.trace_information))));
        write_slot_opt(buf, &self.cp_function_features, Ghost(p), Ghost(Seq::<Seq<IeView>>::empty().push(seq![self.node_id@]).push(seq![self.fseid@]).push(ies_view(self.create_pdrs@)).push(ies_view(self.create_fars@)).push(ies_view(self.create_urrs@)).push(ies_view(self.create_qers@)).push(ies_view(self.create_bars@)).push(ies_view(self.create_traffic_endpoints@)).push(opt_ie_seq(self.pdn_type)).push(opt_ie_seq(self.user_id)).push(opt_ie_seq(self.s_nssai)).push(opt_ie_seq(self.trace_information)).push(opt_ie_seq(self.recovery_time_stamp))));
        write_slot_opt(buf, &self.apn_dnn, Ghost(p), Ghost(Seq::<Seq<IeView>>::empty().push(seq![self.node_id@]).push(seq![self.fseid@]).push(ies_view(self.create_pdrs@)).push(ies_view(self.create_fars@)).push(ies_view(self.create_urrs@)).push(ies_view(self.create_qers@)).push(ies_view(self.create_bars@)).push(ies_view(self.create_traffic_endpoints@)).push(opt_ie_seq(self.pdn_type)).push(opt_ie_seq(self.user_id)).push(opt_ie_seq(self.s_nssai)).push(opt_ie_seq(self.trace_information)).push(opt_ie_seq(self.recovery_time_stamp)).push(opt_ie_seq(self.cp_function_features))));
        write_slot_opt(buf, &self.user_plane_inactivity_timer, Ghost(p), Ghost(Seq::<Seq<IeView>>::empty().push(seq![self.node_id@]).push(seq![self.fseid@]).push(ies_view(self.create_pdrs@)).push(ies_view(self.create_fars@)).push(ies_view(self.create_urrs@)).push(ies_view(self.create_qers@)).push(ies_view(self.create_bars@)).push(ies_view(self.create_traffic_endpoints@)).push(opt_ie_seq(self.pdn_type)).push(opt_ie_seq(self.user_id)).push(opt_ie_seq(self.s_nssai)).push(opt_ie_seq(self.trace_information)).push(opt_ie_seq(self.recovery_time_stamp)).push(opt_ie_seq(self.cp_function_features)).push(opt_ie_seq(self.apn_dnn))));
        write_slot_opt(buf, &self.pfcpsm_req_flags, Ghost(p), Ghost(Seq::<Seq<IeView>>::empty().push(seq![self.node_id@]).push(seq![self.fseid@]).push(ies_view(self.create_pdrs@)).push(ies_view(self.create_fars@)).push(ies_view(self.create_urrs@)).push(ies_view(self.create_qers@)).push(ies_view(self.create_bars@)).push(ies_view(self.create_traffic_endpoints@)).push(opt_ie_seq(self.pdn_type)).push(opt_ie_seq(self.user_id)).push(opt_ie_seq(self.s_nssai)).push(opt_ie_seq(self.trace_information)).push(opt_ie_seq(self.recovery_time_stamp)).push(opt_ie_seq(self.cp_function_features)).push(opt_ie_seq(self.apn_dnn)).push(opt_ie_seq(self.user_plane_inactivity_timer))));
        write_slot_many(buf, &self.ies, Ghost(p), Ghost(Seq::<Seq<IeView>>::empty().push(seq![self.node_id@]).push(seq![self.fseid@]).push(ies_view(self.create_pdrs@)).push(ies_view(self.create_fars@)).push(ies_view(self.create_urrs@)).push(ies_view(self.create_qers@)).push(ies_view(self.create_bars@)).push(ies_view(self.create_traffic_endpoints@)).push(opt_ie_seq(self.pdn_type)).push(opt_ie_seq(self.user_id)).push(opt_ie_seq(self.s_nssai)).push(opt_ie_seq(self.trace_information)).push(opt_ie_seq(self.recovery_time_stamp)).push(opt_ie_seq(self.cp_function_features)).push(opt_ie_seq(self.apn_dnn)).push(opt_ie_seq(self.user_plane_inactivity_timer)).push(opt_ie_seq(self.pfcpsm_req_flags))));
        assert(buf@ =~= old(buf)@ + header_wire(self.header) + ies_wire(concat_slots(self.slots())));
    }

    fn marshal(&self) -> (r: Vec<u8>) {
        let mut buf: Vec<u8> = Vec::new();
        self.marshal_into(&mut buf);
        assert(buf@ =~= header_wire(self.header) + ies_wire(concat_slots(self.slots())));
        buf
    }

    fn marshaled_size(&self) -> (r: usize) {
        let v = self.marshal();
        v.len()
    }

    #[verifier::rlimit(60)]
    fn unmarshal(data: &[u8]) -> (r: Result<Self, PfcpError>) {
        let header = match Header::unmarshal(data) {
            Ok(h) => h,
            Err(e) => return Err(e),
        };
        proof { lemma_parse_header_size(data@); }
        let start = header.len() as usize;
        let mut all = match parse_ies(data, start) {
            Ok(v) => v,
            Err(e) => return Err(e),
        };
        let ghost parsed = ies_view(all@);
        let ghost cls = Self::classifier();
        let mut buckets = empty_buckets(19);
        proof {
            lemma_slot_ies_empty(cls);
            assert(parsed.take(0) =~= Seq::<IeView>::empty());
            assert forall|j: int| 0 <= j < 19 implies ies_view(#[trigger] buckets@[j]@) == slot_ies(parsed.take(0), cls, j) by {
                assert(ies_view(buckets@[j]@) =~= Seq::<IeView>::empty());
            }
        }
        let ghost mut done: int = 0;
        while all.len() > 0
            invariant
                0 <= done <= parsed.len(),
                ies_view(all@) == parsed.skip(done),
                cls == Self::classifier(),
                buckets@.len() == 19,
                forall|j: int| 0 <= j < 19 ==> ies_view(#[trigger] buckets@[j]@) == slot_ies(parsed.take(done), cls, j),
            decreases all@.len(),
        {
            let ghost old_all = all@;
            let ghost old_buckets = buckets@;
            let ie = all.remove(0);
            let ghost iev = ie@;
            proof {
                assert(ies_view(old_all).len() == old_all.len());
                assert(done < parsed.len());
                assert(ies_view(old_all)[0] == old_all[0]@);
                assert(parsed.skip(done)[0] == parsed[done]);
                assert(parsed[done] == iev);
                assert(parsed.take(done + 1) =~= parsed.take(done).push(iev));
                lemma_slot_ies_push_all(parsed.take(done), iev, cls);
                assert(all@ =~= old_all.skip(1));
                assert(ies_view(all@) =~= ies_view(old_all).skip(1));
                assert(parsed.skip(done).skip(1) =~= parsed.skip(done + 1));
            }
            let c = Self::classify(ie.ie_type);
            push_bucket(&mut buckets, c, ie);
            proof {
                assert forall|j: int| 0 <= j < 19 implies ies_view(#[trigger] buckets@[j]@) == slot_ies(parsed.take(done + 1), cls, j) by {
                    if j != c {
                        assert(buckets@[j] == old_buckets[j]);
                    }
                }
                done = done + 1;
            }
        }
        proof { assert(parsed.take(done) =~= parsed); }
        let ghost bs = buckets@;
        assert(ies_view(bs[0]@) == slot_ies(parsed, cls, 0));
        assert(ies_view(bs[1]@) == slot_ies(parsed, cls, 1));
        assert(ies_view(bs[2]@) == slot_ies(parsed, cls, 2));
        assert(ies_view(bs[3]@) == slot_ies(parsed, cls, 3));
        assert(ies_view(bs[4]@) == slot_ies(parsed, cls, 4));
        assert(ies_view(bs[5]@) == slot_ies(parsed, cls, 5));
        assert(ies_view(bs[6]@) == slot_ies(parsed, cls, 6));
        assert(ies_view(bs[7]@) == slot_ies(parsed, cls, 7));
        assert(ies_view(bs[8]@) == slot_ies(parsed, cls, 8));
        assert(ies_view(bs[9]@) == slot_ies(parsed, cls, 9));
        assert(ies_view(bs[10]@) == slot_ies(parsed, cls, 10));
        assert(ies_view(bs[11]@) == slot_ies(parsed, cls, 11));
        assert(ies_view(bs[12]@) == slot_ies(parsed, cls, 12));
        assert(ies_view(bs[13]@) == slot_ies(parsed, cls, 13));
        assert(ies_view(bs[14]@) == slot_ies(parsed, cls, 14));
        assert(ies_view(bs[15]@) == slot_ies(parsed, cls, 15));
        assert(ies_view(bs[16]@) == slot_ies(parsed, cls, 16));
        assert(ies_view(bs[17]@) == slot_ies(parsed, cls, 17));
        let slot0 = last_ie(take_bucket(&mut buckets, 0, Ghost(bs)));
        assert(opt_ie_seq(slot0) == decode_slot(parsed, cls, 0, SlotKind::One));
        let slot1 = last_ie(take_bucket(&mut buckets, 1, Ghost(bs)));
        assert(opt_ie_seq(slot1) == decode_slot(parsed, cls, 1, SlotKind::One));
        let slot2 = take_bucket(&mut buckets, 2, Ghost(bs));
        assert(ies_view(slot2@) == decode_slot(parsed, cls, 2, SlotKind::Many));
        let slot3 = take_bucket(&mut buckets, 3, Ghost(bs));
        assert(ies_view(slot3@) == decode_slot(parsed, cls, 3, SlotKind::Many));
        let slot4 = take_bucket(&mut buckets, 4, Ghost(bs));
        assert(ies_view(slot4@) == decode_slot(parsed, cls, 4, SlotKind::Many));
        let slot5 = take_bucket(&mut buckets, 5, Ghost(bs));
        assert(ies_view(slot5@) == decode_slot(parsed, cls, 5, SlotKind::Many));
        let slot6 = take_bucket(&mut buckets, 6, Ghost(bs));
        assert(ies_view(slot6@) == decode_slot(parsed, cls, 6, SlotKind::Many));
        let slot7 = take_bucket(&mut buckets, 7, Ghost(bs));
        assert(ies_view(slot7@) == decode_slot(parsed, cls, 7, SlotKind::Many));
        let slot8 = last_ie(take_bucket(&mut buckets, 8, Ghost(bs)));
        assert(opt_ie_seq(slot8) == decode_slot(parsed, cls, 8, SlotKind::One));
        let slot9 = last_ie(take_bucket(&mut buckets, 9, Ghost(bs)));
        assert(opt_ie_seq(slot9) == decode_slot(parsed, cls, 9, SlotKind::One));
        let slot10 = last_ie(take_bucket(&mut buckets, 10, Ghost(bs)));
        assert(opt_ie_seq(slot10) == decode_slot(parsed, cls, 10, SlotKind::One));
        let slot11 = last_ie(take_bucket(&mut buckets, 11, Ghost(bs)));
        assert(opt_ie_seq(slot11) == decode_slot(parsed, cls, 11, SlotKind::One));
        let slot12 = last_ie(take_bucket(&mut buckets, 12, Ghost(bs)));
        assert(opt_ie_seq(slot12) == decode_slot(parsed, cls, 12, SlotKind::One));
        let slot13 = last_ie(take_bucket(&mut buckets, 13, Ghost(bs)));
        assert(opt_ie_seq(slot13) == decode_slot(parsed, cls, 13, SlotKind::One));
        let slot14 = last_ie(take_bucket(&mut buckets, 14, Ghost(bs)));
        assert(opt_ie_seq(slot14) == decode_slot(parsed, cls, 14, SlotKind::One));
        let slot15 = last_ie(take_bucket(&mut buckets, 15, Ghost(bs)));
        assert(opt_ie_seq(slot15) == decode_slot(parsed, cls, 15, SlotKind::One));
        let slot16 = last_ie(take_bucket(&mut buckets, 16, Ghost(bs)));
        assert(opt_ie_seq(slot16) == decode_slot(parsed, cls, 16, SlotKind::One));
        let slot17 = take_bucket(&mut buckets, 17, Ghost(bs));
        assert(ies_view(slot17@) == decode_slot(parsed, cls, 17, SlotKind::Many));
        if slot2.len() == 0 {
            return Err(PfcpError::MissingMandatoryIe { ie_type: IeType::CreatePdr, message_type: Some(MsgType::SessionEstablishmentRequest) });
        }
        if slot3.len() == 0 {
            return Err(PfcpError::MissingMandatoryIe { ie_type: IeType::CreateFar, message_type: Some(MsgType::SessionEstablishmentRequest) });
        }
        if slot0.is_none() {
            return Err(PfcpError::MissingMandatoryIe { ie_type: IeType::NodeId, message_type: Some(MsgType::SessionEstablishmentRequest) });
        }
        if slot1.is_none() {
            return Err(PfcpError::MissingMandatoryIe { ie_type: IeType::Fseid, message_type: Some(MsgType::SessionEstablishmentRequest) });
        }
        let node_id = match slot0 { Some(x) => x, None => return Err(PfcpError::MissingMandatoryIe { ie_type: IeType::NodeId, message_type: Some(MsgType::SessionEstablishmentRequest) }) };
        let fseid = match slot1 { Some(x) => x, None => return Err(PfcpError::MissingMandatoryIe { ie_type: IeType::Fseid, message_type: Some(MsgType::SessionEstablishmentRequest) }) };
        let create_pdrs = slot2;
        let create_fars = slot3;
        let create_urrs = slot4;
        let create_qers = slot5;
        let create_bars = slot6;
        let create_traffic_endpoints = slot7;
        let pdn_type = slot8;
        let user_id = slot9;
        let s_nssai = slot10;
        let trace_information = slot11;
        let recovery_time_stamp = slot12;
        let cp_function_features = slot13;
        let apn_dnn = slot14;
        let user_plane_inactivity_timer = slot15;
        let pfcpsm_req_flags = slot16;
        let ies = slot17;
        let r = SessionEstablishmentRequest { header, node_id, fseid, create_pdrs, create_fars, create_urrs, create_qers, create_bars, create_traffic_endpoints, pdn_type, user_id, s_nssai, trace_information, recovery_time_stamp, cp_function_features, apn_dnn, user_plane_inactivity_timer, pfcpsm_req_flags, ies };
        Ok(r)
    }

    fn msg_type(&self) -> (r: MsgType) {
        MsgType::SessionEstablishmentRequest
    }

    fn msg_name(&self) -> (r: String) {
        MsgType::SessionEstablishmentRequest.name().to_owned()
    }

    fn version(&self) -> (r: u8) {
        1
    }

    fn seid(&self) -> (r: Option<u64>) {
        if self.header.has_seid {
            Some(self.header.seid)
        } else {
            None
        }
    }

    fn sequence(&self) -> (r: u32) {
        self.header.sequence_number
    }

    fn set_sequence(&mut self, seq: u32) {
        self.header.sequence_number = seq;
    }

    fn ies(&self, ie_type: IeType) -> (r: IeIter<'_>) {
        match ie_type {
            IeType::NodeId => IeIter::single(Some(&self.node_id), ie_type),
            IeType::Fseid => IeIter::single(Some(&self.fseid), ie_type),
            IeType::CreatePdr => IeIter::multiple(self.create_pdrs.as_slice(), ie_type),
            IeType::CreateFar => IeIter::multiple(self.create_fars.as_slice(), ie_type),
            IeType::CreateUrr => IeIter::multiple(self.create_urrs.as_slice(), ie_type),
            IeType::CreateQer => IeIter::multiple(self.create_qers.as_slice(), ie_type),
            IeType::CreateBar => IeIter::multiple(self.create_bars.as_slice(), ie_type),
            IeType::CreateTrafficEndpoint => IeIter::multiple(self.create_traffic_endpoints.as_slice(), ie_type),
            IeType::PdnType => match &self.pdn_type { Some(x) => IeIter::single(Some(x), ie_type), None => IeIter::single(None, ie_type) },
            IeType::UserId => match &self.user_id { Some(x) => IeIter::single(Some(x), ie_type), None => IeIter::single(None, ie_type) },
            IeType::Snssai => match &self.s_nssai { Some(x) => IeIter::single(Some(x), ie_type), None => IeIter::single(None, ie_type) },
            IeType::TraceInformation => match &self.trace_information { Some(x) => IeIter::single(Some(x), ie_type), None => IeIter::single(None, ie_type) },
            IeType::RecoveryTimeStamp => match &self.recovery_time_stamp { Some(x) => IeIter::single(Some(x), ie_type), None => IeIter::single(None, ie_type) },
            IeType::CpFunctionFeatures => match &self.cp_function_features { Some(x) => IeIter::single(Some(x), ie_type), None => IeIter::single(None, ie_type) },
            IeType::ApnDnn => match &self.apn_dnn { Some(x) => IeIter::single(Some(x), ie_type), None => IeIter::single(None, ie_type) },
            IeType::UserPlaneInactivityTimer => match &self.user_plane_inactivity_timer { Some(x) => IeIter::single(Some(x), ie_type), None => IeIter::single(None, ie_type) },
            IeType::PfcpsmReqFlags => match &self.pfcpsm_req_flags { Some(x) => IeIter::single(Some(x), ie_type), None => IeIter::single(None, ie_type) },
            _ => IeIter::generic(self.ies.as_slice(), ie_type),
        }
    }

    fn find_ie(&self, ie_type: IeType) -> (r: Option<&Ie>) {
        let mut it = self.ies(ie_type);
        it.next()
    }

    fn find_all_ies(&self, ie_type: IeType) -> (r: Vec<&Ie>) {
        self.ies(ie_type).collect()
    }

    fn all_ies(&self) -> (r: Vec<&Ie>) {
        let mut out: Vec<&Ie> = Vec::new();
        assert(ie_refs_view(out@) =~= concat_slots(Seq::<Seq<IeView>>::empty()));
        list_slot_one(&mut out, &self.node_id, Ghost(Seq::<Seq<IeView>>::empty()));
        list_slot_one(&mut out, &self.fseid, Ghost(Seq::<Seq<IeView>>::empty().push(seq![self.node_id@])));
        list_slot_many(&mut out, &self.create_pdrs, Ghost(Seq::<Seq<IeView>>::empty().push(seq![self.node_id@]).push(seq![self.fseid@])));
        list_slot_many(&mut out, &self.create_fars, Ghost(Seq::<Seq<IeView>>::empty().push(seq![self.node_id@]).push(seq![self.fseid@]).push(ies_view(self.create_pdrs@))));
        list_slot_many(&mut out, &self.create_urrs, Ghost(Seq::<Seq<IeView>>::empty().push(seq![self.node_id@]).push(seq![self.fseid@]).push(ies_view(self.create_pdrs@)).push(ies_view(self.create_fars@))));
        list_slot_many(&mut out, &self.create_qers, Ghost(Seq::<Seq<IeView>>::empty().push(seq![self.node_id@]).push(seq![self.fseid@]).push(ies_view(self.create_pdrs@)).push(ies_view(self.create_fars@)).push(ies_view(self.create_urrs@))));
        list_slot_many(&mut out, &self.create_bars, Ghost(Seq::<Seq<IeView>>::empty().push(seq![self.node_id@]).push(seq![self.fseid@]).push(ies_view(self.create_pdrs@)).push(ies_view(self.create_fars@)).push(ies_view(self.create_urrs@)).push(ies_view(self.create_qers@))));
        list_slot_many(&mut out, &self.create_traffic_endpoints, Ghost(Seq::<Seq<IeView>>::empty().push(seq![self.node_id@]).push(seq![self.fseid@]).push(ies_view(self.create_pdrs@)).push(ies_view(self.create_fars@)).push(ies_view(self.create_urrs@)).push(ies_view(self.create_qers@)).push(ies_view(self.create_bars@))));
        list_slot_opt(&mut out, &self.pdn_type, Ghost(Seq::<Seq<IeView>>::empty().push(seq![self.node_id@]).push(seq![self.fseid@]).push(ies_view(self.create_pdrs@)).push(ies_view(self.create_fars@)).push(ies_view(self.create_urrs@)).push(ies_view(self.create_qers@)).push(ies_view(self.create_bars@)).push(ies_view(self.create_traffic_endpoints@))));
        list_slot_opt(&mut out, &self.user_id, Ghost(Seq::<Seq<IeView>>::empty().push(seq![self.node_id@]).push(seq![self.fseid@]).push(ies_view(self.create_pdrs@)).push(ies_view(self.create_fars@)).push(ies_view(self.create_urrs@)).push(ies_view(self.create_qers@)).push(ies_view(self.create_bars@)).push(ies_view(self.create_traffic_endpoints@)).push(opt_ie_seq(self.pdn_type))));
        list_slot_opt(&mut out, &self.s_nssai, Ghost(Seq::<Seq<IeView>>::empty().push(seq![self.node_id@]).push(seq![self.fseid@]).push(ies_view(self.create_pdrs@)).push(ies_view(self.create_fars@)).push(ies_view(self.create_urrs@)).push(ies_view(self.create_qers@)).push(ies_view(self.create_bars@)).push(ies_view(self.create_traffic_endpoints@)).push(opt_ie_seq(self.pdn_type)).push(opt_ie_seq(self.user_id))));
        list_slot_opt(&mut out, &self.trace_information, Ghost(Seq::<Seq<IeView>>::empty().push(seq![self.node_id@]).push(seq![self.fseid@]).push(ies_view(self.create_pdrs@)).push(ies_view(self.create_fars@)).push(ies_view(self.create_urrs@)).push(ies_view(self.create_qers@)).push(ies_view(self.create_bars@)).push(ies_view(self.create_traffic_endpoints@)).push(opt_ie_seq(self.pdn_type)).push(opt_ie_seq(self.user_id)).push(opt_ie_seq(self.s_nssai))));
        list_slot_opt(&mut out, &self.recovery_time_stamp, Ghost(Seq::<Seq<IeView>>::empty().push(seq![self.node_id@]).push(seq![self.fseid@]).push(ies_view(self.create_pdrs@)).push(ies_view(self.create_fars@)).push(ies_view(self.create_urrs@)).push(ies_view(self.create_qers@)).push(ies_view(self.create_bars@)).push(ies_view(self.create_traffic_endpoints@)).push(opt_ie_seq(self.pdn_type)).push(opt_ie_seq(self.user_id)).push(opt_ie_seq(self.s_nssai)).push(opt_ie_seq(self.trace_information))));
        list_slot_opt(&mut out, &self.cp_function_features, Ghost(Seq::<Seq<IeView>>::empty().push(seq![self.node_id@]).push(seq![self.fseid@]).push(ies_view(self.create_pdrs@)).push(ies_view(self.create_fars@)).push(ies_view(self.create_urrs@)).push(ies_view(self.create_qers@)).push(ies_view(self.create_bars@)).push(ies_view(self.create_traffic_endpoints@)).push(opt_ie_seq(self.pdn_type)).push(opt_ie_seq(self.user_id)).push(opt_ie_seq(self.s_nssai)).push(opt_ie_seq(self.trace_information)).push(opt_ie_seq(self.recovery_time_stamp))));
        list_slot_opt(&mut out, &self.apn_dnn, Ghost(Seq::<Seq<IeView>>::empty().push(seq![self.node_id@]).push(seq![self.fseid@]).push(ies_view(self.create_pdrs@)).push(ies_view(self.create_fars@)).push(ies_view(self.create_urrs@)).push(ies_view(self.create_qers@)).push(ies_view(self.create_bars@)).push(ies_view(self.create_traffic_endpoints@)).push(opt_ie_seq(self.pdn_type)).push(opt_ie_seq(self.user_id)).push(opt_ie_seq(self.s_nssai)).push(opt_ie_seq(self.trace_information)).push(opt_ie_seq(self.recovery_time_stamp)).push(opt_ie_seq(self.cp_function_features))));
        list_slot_opt(&mut out, &self.user_plane_inactivity_timer, Ghost(Seq::<Seq<IeView>>::empty().push(seq![self.node_id@]).push(seq![self.fseid@]).push(ies_view(self.create_pdrs@)).push(ies_view(self.create_fars@)).push(ies_view(self.create_urrs@)).push(ies_view(self.create_qers@)).push(ies_view(self.create_bars@)).push(ies_view(self.create_traffic_endpoints@)).push(opt_ie_seq(self.pdn_type)).push(opt_ie_seq(self.user_id)).push(opt_ie_seq(self.s_nssai)).push(opt_ie_seq(self.trace_information)).push(opt_ie_seq(self.recovery_time_stamp)).push(opt_ie_seq(self.cp_function_features)).push(opt_ie_seq(self.apn_dnn))));
        list_slot_opt(&mut out, &self.pfcpsm_req_flags, Ghost(Seq::<Seq<IeView>>::empty().push(seq![self.node_id@]).push(seq![self.fseid@]).push(ies_view(self.create_pdrs@)).push(ies_view(self.create_fars@)).push(ies_view(self.create_urrs@)).push(ies_view(self.create_qers@)).push(ies_view(self.create_bars@)).push(ies_view(self.create_traffic_endpoints@)).push(opt_ie_seq(self.pdn_type)).push(opt_ie_seq(self.user_id)).push(opt_ie_seq(self.s_nssai)).push(opt_ie_seq(self.trace_information)).push(opt_ie_seq(self.recovery_time_stamp)).push(opt_ie_seq(self.cp_function_features)).push(opt_ie_seq(self.apn_dnn)).push(opt_ie_seq(self.user_plane_inactivity_timer))));
        list_slot_many(&mut out, &self.ies, Ghost(Seq::<Seq<IeView>>::empty().push(seq![self.node_id@]).push(seq![self.fseid@]).push(ies_view(self.create_pdrs@)).push(ies_view(self.create_fars@)).push(ies_view(self.create_urrs@)).push(ies_view(self.create_qers@)).push(ies_view(self.create_bars@)).push(ies_view(self.create_traffic_endpoints@)).push(opt_ie_seq(self.pdn_type)).push(opt_ie_seq(self.user_id)).push(opt_ie_seq(self.s_nssai)).push(opt_ie_seq(self.trace_information)).push(opt_ie_seq(self.recovery_time_stamp)).push(opt_ie_seq(self.cp_function_features)).push(opt_ie_seq(self.apn_dnn)).push(opt_ie_seq(self.user_plane_inactivity_timer)).push(opt_ie_seq(self.pfcpsm_req_flags))));
        out
    }
}

/// A well-formed SessionEstablishmentRequest reads back as itself: decoding its wire form gives its
/// header and fields.
pub proof fn lemma_session_establishment_request_roundtrip(m: SessionEstablishmentRequest)
    requires
        m.well_formed(),
    ensures
        SessionEstablishmentRequest::spec_decode_error(m.wire()) is None,
        SessionEstablishmentRequest::spec_decoded(m.wire(), m),
{
    let body = concat_slots(m.slots());
    lemma_header_roundtrip(m.header, ies_wire(body));
    lemma_header_wire_len(m.header);
    assert((header_wire(m.header) + ies_wire(body)).skip(header_size(m.header) as int) =~= ies_wire(body));
    crate::ie::lemma_parse_ies_wire(body);
    lemma_decode_concat(m.slots(), SessionEstablishmentRequest::classifier(), SessionEstablishmentRequest::slot_kinds());
    assert(decode_slots(body, SessionEstablishmentRequest::classifier(), SessionEstablishmentRequest::slot_kinds()) == m.slots());
    assert(decode_slots(body, SessionEstablishmentRequest::classifier(), SessionEstablishmentRequest::slot_kinds())[0] == decode_slot(body, SessionEstablishmentRequest::classifier(), 0, SlotKind::One));
    assert(decode_slots(body, SessionEstablishmentRequest::classifier(), SessionEstablishmentRequest::slot_kinds())[1] == decode_slot(body, SessionEstablishmentRequest::classifier(), 1, SlotKind::One));
    assert(decode_slots(body, SessionEstablishmentRequest::classifier(), SessionEstablishmentRequest::slot_kinds())[2] == decode_slot(body, SessionEstablishmentRequest::classifier(), 2, SlotKind::Many));
    assert(decode_slots(body, SessionEstablishmentRequest::classifier(), SessionEstablishmentRequest::slot_kinds())[3] == decode_slot(body, SessionEstablishmentRequest::classifier(), 3, SlotKind::Many));
    assert(decode_slots(body, SessionEstablishmentRequest::classifier(), SessionEstablishmentRequest::slot_kinds())[4] == decode_slot(body, SessionEstablishmentRequest::classifier(), 4, SlotKind::Many));
    assert(decode_slots(body, SessionEstablishmentRequest::classifier(), SessionEstablishmentRequest::slot_kinds())[5] == decode_slot(body, SessionEstablishmentRequest::classifier(), 5, SlotKind::Many));
    assert(decode_slots(body, SessionEstablishmentRequest::classifier(), SessionEstablishmentRequest::slot_kinds())[6] == decode_slot(body, SessionEstablishmentRequest::classifier(), 6, SlotKind::Many));
    assert(decode_slots(body, SessionEstablishmentRequest::classifier(), SessionEstablishmentRequest::slot_kinds())[7] == decode_slot(body, SessionEstablishmentRequest::classifier(), 7, SlotKind::Many));
    assert(decode_slots(body, SessionEstablishmentRequest::classifier(), SessionEstablishmentRequest::slot_kinds())[8] == decode_slot(body, SessionEstablishmentRequest::classifier(), 8, SlotKind::One));
    assert(decode_slots(body, SessionEstablishmentRequest::classifier(), SessionEstablishmentRequest::slot_kinds())[9] == decode_slot(body, SessionEstablishmentRequest::classifier(), 9, SlotKind::One));
    assert(decode_slots(body, SessionEstablishmentRequest::classifier(), SessionEstablishmentRequest::slot_kinds())[10] == decode_slot(body, SessionEstablishmentRequest::classifier(), 10, SlotKind::One));
    assert(decode_slots(body, SessionEstablishmentRequest::classifier(), SessionEstablishmentRequest::slot_kinds())[11] == decode_slot(body, SessionEstablishmentRequest::classifier(), 11, SlotKind::One));
    assert(decode_slots(body, SessionEstablishmentRequest::classifier(), SessionEstablishmentRequest::slot_kinds())[12] == decode_slot(body, SessionEstablishmentRequest::classifier(), 12, SlotKind::One));
    assert(decode_slots(body, SessionEstablishmentRequest::classifier(), SessionEstablishmentRequest::slot_kinds())[13] == decode_slot(body, SessionEstablishmentRequest::classifier(), 13, SlotKind::One));
    assert(decode_slots(body, SessionEstablishmentRequest::classifier(), SessionEstablishmentRequest::slot_kinds())[14] == decode_slot(body, SessionEstablishmentRequest::classifier(), 14, SlotKind::One));
    assert(decode_slots(body, SessionEstablishmentRequest::classifier(), SessionEstablishmentRequest::slot_kinds())[15] == decode_slot(body, SessionEstablishmentRequest::classifier(), 15, SlotKind::One));
    assert(decode_slots(body, SessionEstablishmentRequest::classifier(), SessionEstablishmentRequest::slot_kinds())[16] == decode_slot(body, SessionEstablishmentRequest::classifier(), 16, SlotKind::One));
    assert(decode_slots(body, SessionEstablishmentRequest::classifier(), SessionEstablishmentRequest::slot_kinds())[17] == decode_slot(body, SessionEstablishmentRequest::classifier(), 17, SlotKind::Many));
    assert(m.slots()[2].len() > 0);
    assert(m.slots()[3].len() > 0);
    assert(m.slots()[0].len() > 0);
    assert(m.slots()[1].len() > 0);
}

/// Builder for SessionEstablishmentRequest messages.
#[derive(Debug)]
pub struct SessionEstablishmentRequestBuilder {
    pub seid: u64,
    pub sequence: u32,
    pub node_id: Option<Ie>,
    pub fseid: Option<Ie>,
    pub create_pdrs: Vec<Ie>,
    pub create_fars: Vec<Ie>,
    pub create_urrs: Vec<Ie>,
    pub create_qers: Vec<Ie>,
    pub create_bars: Vec<Ie>,
    pub create_traffic_endpoints: Vec<Ie>,
    pub pdn_type: Option<Ie>,
    pub user_id: Option<Ie>,
    pub s_nssai: Option<Ie>,
    pub trace_information: Option<Ie>,
    pub recovery_time_stamp: Option<Ie>,
    pub cp_function_features: Option<Ie>,
    pub apn_dnn: Option<Ie>,
    pub user_plane_inactivity_timer: Option<Ie>,
    pub pfcpsm_req_flags: Option<Ie>,
    pub ies: Vec<Ie>,
}

impl SessionEstablishmentRequestBuilder {
    /// The IEs of each field of the message this builder builds, in wire order.
    pub open spec fn built_slots(&self) -> Seq<Seq<IeView>> {
        Seq::<Seq<IeView>>::empty().push(seq![self.node_id.unwrap()@]).push(seq![self.fseid.unwrap()@]).push(ies_view(self.create_pdrs@)).push(ies_view(self.create_fars@)).push(ies_view(self.create_urrs@)).push(ies_view(self.create_qers@)).push(ies_view(self.create_bars@)).push(ies_view(self.create_traffic_endpoints@)).push(opt_ie_seq(self.pdn_type)).push(opt_ie_seq(self.user_id)).push(opt_ie_seq(self.s_nssai)).push(opt_ie_seq(self.trace_information)).push(opt_ie_seq(self.recovery_time_stamp)).push(opt_ie_seq(self.cp_function_features)).push(opt_ie_seq(self.apn_dnn)).push(opt_ie_seq(self.user_plane_inactivity_timer)).push(opt_ie_seq(self.pfcpsm_req_flags)).push(ies_view(self.ies@))
    }

    /// The header of the message this builder builds.
    pub open spec fn built_header(&self) -> Header {
        message_header(MsgType::SessionEstablishmentRequest, true, self.seid, self.sequence, concat_slots(self.built_slots()))
    }

    /// Creates a builder with no IEs set.
    pub fn new(seid: u64, sequence: u32) -> (r: Self)
        ensures
            r.seid == seid,
            r.sequence == sequence,
            r.node_id is None,
            r.fseid is None,
            r.create_pdrs@.len() == 0,
            r.create_fars@.len() == 0,
            r.create_urrs@.len() == 0,
            r.create_qers@.len() == 0,
            r.create_bars@.len() == 0,
            r.create_traffic_endpoints@.len() == 0,
            r.pdn_type is None,
            r.user_id is None,
            r.s_nssai is None,
            r.trace_information is None,
            r.recovery_time_stamp is None,
            r.cp_function_features is None,
            r.apn_dnn is None,
            r.user_plane_inactivity_timer is None,
            r.pfcpsm_req_flags is None,
            r.ies@.len() == 0,
    {
        SessionEstablishmentRequestBuilder { seid, sequence, node_id: None, fseid: None, create_pdrs: Vec::new(), create_fars: Vec::new(), create_urrs: Vec::new(), create_qers: Vec::new(), create_bars: Vec::new(), create_traffic_endpoints: Vec::new(), pdn_type: None, user_id: None, s_nssai: None, trace_information: None, recovery_time_stamp: None, cp_function_features: None, apn_dnn: None, user_plane_inactivity_timer: None, pfcpsm_req_flags: None, ies: Vec::new() }
    }

    /// Sets the Node ID.
    pub fn node_id(self, node_id: NodeId) -> (r: Self)
        ensures
            r.node_id is Some,
            r.node_id.unwrap()@ == (IeView { ie_type: IeType::NodeId, payload: crate::ie::node_id::node_id_bytes(node_id@) }),
            r == (Self { node_id: r.node_id, ..self }),
    {
        let mut s = self;
        s.node_id = Some(node_id.to_ie());
        s
    }

    /// Sets the Node ID to a fully qualified domain name.
    pub fn node_id_fqdn(self, fqdn: &str) -> (r: Self)
        ensures
            r.node_id is Some,
            r.node_id.unwrap()@ == crate::ie::node_id::fqdn_node_id_ie(fqdn@),
            r == (Self { node_id: r.node_id, ..self }),
    {
        let mut s = self;
        let node = NodeId::new_fqdn(fqdn);
        s.node_id = Some(node.to_ie());
        s
    }

    /// Sets the node id IE.
    pub fn node_id_ie(self, ie: Ie) -> (r: Self)
        ensures
            r == (Self { node_id: Some(ie), ..self }),
    {
        let mut s = self;
        s.node_id = Some(ie);
        s
    }

    /// Sets the CP F-SEID.
    pub fn fseid(self, fseid: Fseid) -> (r: Self)
        ensures
            r.fseid is Some,
            r.fseid.unwrap()@ == (IeView { ie_type: IeType::Fseid, payload: crate::ie::fseid::fseid_bytes(fseid@) }),
            r == (Self { fseid: r.fseid, ..self }),
    {
        let mut s = self;
        s.fseid = Some(fseid.to_ie());
        s
    }

    /// Sets the fseid IE.
    pub fn fseid_ie(self, ie: Ie) -> (r: Self)
        ensures
            r == (Self { fseid: Some(ie), ..self }),
    {
        let mut s = self;
        s.fseid = Some(ie);
        s
    }

    /// Sets the create pdr IEs.
    pub fn create_pdrs(self, ies: Vec<Ie>) -> (r: Self)
        ensures
            r == (Self { create_pdrs: ies, ..self }),
    {
        let mut s = self;
        s.create_pdrs = ies;
        s
    }

    /// Sets the create far IEs.
    pub fn create_fars(self, ies: Vec<Ie>) -> (r: Self)
        ensures
            r == (Self { create_fars: ies, ..self }),
    {
        let mut s = self;
        s.create_fars = ies;
        s
    }

    /// Sets the create urr IEs.
    pub fn create_urrs(self, ies: Vec<Ie>) -> (r: Self)
        ensures
            r == (Self { create_urrs: ies, ..self }),
    {
        let mut s = self;
        s.create_urrs = ies;
        s
    }

    /// Sets the create qer IEs.
    pub fn create_qers(self, ies: Vec<Ie>) -> (r: Self)
        ensures
            r == (Self { create_qers: ies, ..self }),
    {
        let mut s = self;
        s.create_qers = ies;
        s
    }

    /// Sets the create bar IEs.
    pub fn create_bars(self, ies: Vec<Ie>) -> (r: Self)
        ensures
            r == (Self { create_bars: ies, ..self }),
    {
        let mut s = self;
        s.create_bars = ies;
        s
    }

    /// Sets the create traffic endpoint IEs.
    pub fn create_traffic_endpoints(self, ies: Vec<Ie>) -> (r: Self)
        ensures
            r == (Self { create_traffic_endpoints: ies, ..self }),
    {
        let mut s = self;
        s.create_traffic_endpoints = ies;
        s
    }

    /// Sets the pdn type IE.
    pub fn pdn_type(self, ie: Ie) -> (r: Self)
        ensures
            r == (Self { pdn_type: Some(ie), ..self }),
    {
        let mut s = self;
        s.pdn_type = Some(ie);
        s
    }

    /// Sets the user id IE.
    pub fn user_id(self, ie: Ie) -> (r: Self)
        ensures
            r == (Self { user_id: Some(ie), ..self }),
    {
        let mut s = self;
        s.user_id = Some(ie);
        s
    }

    /// Sets the s nssai IE.
    pub fn s_nssai(self, ie: Ie) -> (r: Self)
        ensures
            r == (Self { s_nssai: Some(ie), ..self }),
    {
        let mut s = self;
        s.s_nssai = Some(ie);
        s
    }

    /// Sets the trace information IE.
    pub fn trace_information(self, ie: Ie) -> (r: Self)
        ensures
            r == (Self { trace_information: Some(ie), ..self }),
    {
        let mut s = self;
        s.trace_information = Some(ie);
        s
    }

    /// Sets the recovery time stamp from a point in time.
    pub fn recovery_time_stamp(self, timestamp: std::time::SystemTime) -> (r: Self)
        ensures
            r.recovery_time_stamp is Some,
            r.recovery_time_stamp.unwrap()@ == crate::ie::recovery_time_stamp::recovery_time_stamp_ie_view(crate::ie::recovery_time_stamp::unix_seconds_of(timestamp)),
            r == (Self { recovery_time_stamp: r.recovery_time_stamp, ..self }),
    {
        let mut s = self;
        let ts = RecoveryTimeStamp::new(timestamp);
        s.recovery_time_stamp = Some(ts.to_ie());
        s
    }

    /// Sets the recovery time stamp IE.
    pub fn recovery_time_stamp_ie(self, ie: Ie) -> (r: Self)
        ensures
            r == (Self { recovery_time_stamp: Some(ie), ..self }),
    {
        let mut s = self;
        s.recovery_time_stamp = Some(ie);
        s
    }

    /// Sets the cp function features IE.
    pub fn cp_function_features(self, ie: Ie) -> (r: Self)
        ensures
            r == (Self { cp_function_features: Some(ie), ..self }),
    {
        let mut s = self;
        s.cp_function_features = Some(ie);
        s
    }

    /// Sets the apn dnn IE.
    pub fn apn_dnn(self, ie: Ie) -> (r: Self)
        ensures
            r == (Self { apn_dnn: Some(ie), ..self }),
    {
        let mut s = self;
        s.apn_dnn = Some(ie);
        s
    }

    /// Sets the user plane inactivity timer IE.
    pub fn user_plane_inactivity_timer(self, ie: Ie) -> (r: Self)
        ensures
            r == (Self { user_plane_inactivity_timer: Some(ie), ..self }),
    {
        let mut s = self;
        s.user_plane_inactivity_timer = Some(ie);
        s
    }

    /// Sets the pfcpsm req flags IE.
    pub fn pfcpsm_req_flags(self, ie: Ie) -> (r: Self)
        ensures
            r == (Self { pfcpsm_req_flags: Some(ie), ..self }),
    {
        let mut s = self;
        s.pfcpsm_req_flags = Some(ie);
        s
    }

    /// Sets the additional IEs.
    pub fn ies(self, ies: Vec<Ie>) -> (r: Self)
        ensures
            r == (Self { ies: ies, ..self }),
    {
        let mut s = self;
        s.ies = ies;
        s
    }

    /// Builds the message, or reports the first mandatory IE that is missing.
    pub fn build(self) -> (r: Result<SessionEstablishmentRequest, PfcpError>)
        ensures
            self.node_id is None ==> r == Err::<SessionEstablishmentRequest, PfcpError>(PfcpError::MissingMandatoryIe { ie_type: IeType::NodeId, message_type: Some(MsgType::SessionEstablishmentRequest) }),
            self.node_id is Some && self.fseid is None ==> r == Err::<SessionEstablishmentRequest, PfcpError>(PfcpError::MissingMandatoryIe { ie_type: IeType::Fseid, message_type: Some(MsgType::SessionEstablishmentRequest) }),
            self.node_id is Some && self.fseid is Some && self.create_pdrs@.len() == 0 ==> r == Err::<SessionEstablishmentRequest, PfcpError>(PfcpError::MissingMandatoryIe { ie_type: IeType::CreatePdr, message_type: Some(MsgType::SessionEstablishmentRequest) }),
            self.node_id is Some && self.fseid is Some && self.create_pdrs@.len() > 0 && self.create_fars@.len() == 0 ==> r == Err::<SessionEstablishmentRequest, PfcpError>(PfcpError::MissingMandatoryIe { ie_type: IeType::CreateFar, message_type: Some(MsgType::SessionEstablishmentRequest) }),
            self.node_id is Some && self.fseid is Some && self.create_pdrs@.len() > 0 && self.create_fars@.len() > 0 ==> r is Ok,
            r matches Ok(r) ==> {
                r.header == message_header(MsgType::SessionEstablishmentRequest, true, self.seid, self.sequence, concat_slots(r.slots())) &&
                r.node_id == self.node_id.unwrap() &&
                r.fseid == self.fseid.unwrap() &&
                r.create_pdrs == self.create_pdrs &&
                r.create_fars == self.create_fars &&
                r.create_urrs == self.create_urrs &&
                r.create_qers == self.create_qers &&
                r.create_bars == self.create_bars &&
                r.create_traffic_endpoints == self.create_traffic_endpoints &&
                r.pdn_type == self.pdn_type &&
                r.user_id == self.user_id &&
                r.s_nssai == self.s_nssai &&
                r.trace_information == self.trace_information &&
                r.recovery_time_stamp == self.recovery_time_stamp &&
                r.cp_function_features == self.cp_function_features &&
                r.apn_dnn == self.apn_dnn &&
                r.user_plane_inactivity_timer == self.user_plane_inactivity_timer &&
                r.pfcpsm_req_flags == self.pfcpsm_req_flags &&
                r.ies == self.ies &&
                r.slots() == self.built_slots() &&
                r.header == self.built_header() &&
                true
            },
    {
        if self.node_id.is_none() {
            return Err(PfcpError::MissingMandatoryIe { ie_type: IeType::NodeId, message_type: Some(MsgType::SessionEstablishmentRequest) });
        }
        if self.fseid.is_none() {
            return Err(PfcpError::MissingMandatoryIe { ie_type: IeType::Fseid, message_type: Some(MsgType::SessionEstablishmentRequest) });
        }
        if self.create_pdrs.len() == 0 {
            return Err(PfcpError::MissingMandatoryIe { ie_type: IeType::CreatePdr, message_type: Some(MsgType::SessionEstablishmentRequest) });
        }
        if self.create_fars.len() == 0 {
            return Err(PfcpError::MissingMandatoryIe { ie_type: IeType::CreateFar, message_type: Some(MsgType::SessionEstablishmentRequest) });
        }
        let node_id = match self.node_id { Some(x) => x, None => return Err(PfcpError::MissingMandatoryIe { ie_type: IeType::NodeId, message_type: Some(MsgType::SessionEstablishmentRequest) }) };
        let fseid = match self.fseid { Some(x) => x, None => return Err(PfcpError::MissingMandatoryIe { ie_type: IeType::Fseid, message_type: Some(MsgType::SessionEstablishmentRequest) }) };
        Ok(SessionEstablishmentRequest::assemble(self.seid, self.sequence, node_id, fseid, self.create_pdrs, self.create_fars, self.create_urrs, self.create_qers, self.create_bars, self.create_traffic_endpoints, self.pdn_type, self.user_id, self.s_nssai, self.trace_information, self.recovery_time_stamp, self.cp_function_features, self.apn_dnn, self.user_plane_inactivity_timer, self.pfcpsm_req_flags, self.ies))
    }

    /// Builds the message and serializes it, or reports the first mandatory IE that is missing.
    pub fn marshal(self) -> (r: Result<Vec<u8>, PfcpError>)
        ensures
            self.node_id is None ==> r == Err::<Vec<u8>, PfcpError>(PfcpError::MissingMandatoryIe { ie_type: IeType::NodeId, message_type: Some(MsgType::SessionEstablishmentRequest) }),
            self.node_id is Some && self.fseid is None ==> r == Err::<Vec<u8>, PfcpError>(PfcpError::MissingMandatoryIe { ie_type: IeType::Fseid, message_type: Some(MsgType::SessionEstablishmentRequest) }),
            self.node_id is Some && self.fseid is Some && self.create_pdrs@.len() == 0 ==> r == Err::<Vec<u8>, PfcpError>(PfcpError::MissingMandatoryIe { ie_type: IeType::CreatePdr, message_type: Some(MsgType::SessionEstablishmentRequest) }),
            self.node_id is Some && self.fseid is Some && self.create_pdrs@.len() > 0 && self.create_fars@.len() == 0 ==> r == Err::<Vec<u8>, PfcpError>(PfcpError::MissingMandatoryIe { ie_type: IeType::CreateFar, message_type: Some(MsgType::SessionEstablishmentRequest) }),
            self.node_id is Some && self.fseid is Some && self.create_pdrs@.len() > 0 && self.create_fars@.len() > 0 ==> r is Ok,
            r matches Ok(bytes) ==> bytes@ == header_wire(self.built_header()) + ies_wire(concat_slots(self.built_slots())),
    {
        match self.build() {
            Ok(msg) => Ok(msg.marshal()),
            Err(e) => Err(e),
        }
    }

}

/// Decoding what a SessionEstablishmentRequest builder writes fails exactly when a mandatory IE is
/// missing from the IEs it was given, and a message decoded from it has the builder's
/// header, and so its sequence number; when every IE stands in the field for its type,
/// the decoded message has the builder's IEs in each field. This holds when the
/// sequence number fits the header's 24 bits and every IE fits its length field.
#[verifier::spinoff_prover]
pub proof fn lemma_session_establishment_request_builder_roundtrip(b: SessionEstablishmentRequestBuilder)
    requires
        b.sequence < 16777216,
        ies_wf(concat_slots(b.built_slots())),
    ensures
        SessionEstablishmentRequest::spec_decode_error(header_wire(b.built_header()) + ies_wire(concat_slots(b.built_slots()))) == (match SessionEstablishmentRequest::missing_ie(concat_slots(b.built_slots())) {
            Some(t) => Some(PfcpError::MissingMandatoryIe { ie_type: t, message_type: Some(MsgType::SessionEstablishmentRequest) }),
            None => None::<PfcpError>,
        }),
        forall|m: SessionEstablishmentRequest|
            #[trigger] SessionEstablishmentRequest::spec_decoded(header_wire(b.built_header()) + ies_wire(concat_slots(b.built_slots())), m) ==> m.header == b.built_header()
                && m.header.sequence_number == b.sequence,
        slots_typed(b.built_slots(), SessionEstablishmentRequest::classifier(), SessionEstablishmentRequest::slot_kinds()) ==> forall|m: SessionEstablishmentRequest|
            #[trigger] SessionEstablishmentRequest::spec_decoded(header_wire(b.built_header()) + ies_wire(concat_slots(b.built_slots())), m) ==> m.slots() == b.built_slots(),
{
    let h = b.built_header();
    let ss = b.built_slots();
    let body = concat_slots(ss);
    lemma_msg_type_code_roundtrip(MsgType::SessionEstablishmentRequest);
    assert(header_wf(h));
    lemma_header_roundtrip(h, ies_wire(body));
    lemma_header_wire_len(h);
    assert((header_wire(h) + ies_wire(body)).skip(header_size(h) as int) =~= ies_wire(body));
    crate::ie::lemma_parse_ies_wire(body);
    if slots_typed(ss, SessionEstablishmentRequest::classifier(), SessionEstablishmentRequest::slot_kinds()) {
        lemma_decode_concat(ss, SessionEstablishmentRequest::classifier(), SessionEstablishmentRequest::slot_kinds());
        assert(decode_slots(body, SessionEstablishmentRequest::classifier(), SessionEstablishmentRequest::slot_kinds()) == ss);
        assert(decode_slots(body, SessionEstablishmentRequest::classifier(), SessionEstablishmentRequest::slot_kinds())[0] == decode_slot(body, SessionEstablishmentRequest::classifier(), 0, SlotKind::One));
        assert(decode_slots(body, SessionEstablishmentRequest::classifier(), SessionEstablishmentRequest::slot_kinds())[1] == decode_slot(body, SessionEstablishmentRequest::classifier(), 1, SlotKind::One));
        assert(decode_slots(body, SessionEstablishmentRequest::classifier(), SessionEstablishmentRequest::slot_kinds())[2] == decode_slot(body, SessionEstablishmentRequest::classifier(), 2, SlotKind::Many));
        assert(decode_slots(body, SessionEstablishmentRequest::classifier(), SessionEstablishmentRequest::slot_kinds())[3] == decode_slot(body, SessionEstablishmentRequest::classifier(), 3, SlotKind::Many));
        assert(decode_slots(body, SessionEstablishmentRequest::classifier(), SessionEstablishmentRequest::slot_kinds())[4] == decode_slot(body, SessionEstablishmentRequest::classifier(), 4, SlotKind::Many));
        assert(decode_slots(body, SessionEstablishmentRequest::classifier(), SessionEstablishmentRequest::slot_kinds())[5] == decode_slot(body, SessionEstablishmentRequest::classifier(), 5, SlotKind::Many));
        assert(decode_slots(body, SessionEstablishmentRequest::classifier(), SessionEstablishmentRequest::slot_kinds())[6] == decode_slot(body, SessionEstablishmentRequest::classifier(), 6, SlotKind::Many));
        assert(decode_slots(body, SessionEstablishmentRequest::classifier(), SessionEstablishmentRequest::slot_kinds())[7] == decode_slot(body, SessionEstablishmentRequest::classifier(), 7, SlotKind::Many));
        assert(decode_slots(body, SessionEstablishmentRequest::classifier(), SessionEstablishmentRequest::slot_kinds())[8] == decode_slot(body, SessionEstablishmentRequest::classifier(), 8, SlotKind::One));
        assert(decode_slots(body, SessionEstablishmentRequest::classifier(), SessionEstablishmentRequest::slot_kinds())[9] == decode_slot(body, SessionEstablishmentRequest::classifier(), 9, SlotKind::One));
        assert(decode_slots(body, SessionEstablishmentRequest::classifier(), SessionEstablishmentRequest::slot_kinds())[10] == decode_slot(body, SessionEstablishmentRequest::classifier(), 10, SlotKind::One));
        assert(decode_slots(body, SessionEstablishmentRequest::classifier(), SessionEstablishmentRequest::slot_kinds())[11] == decode_slot(body, SessionEstablishmentRequest::classifier(), 11, SlotKind::One));
        assert(decode_slots(body, SessionEstablishmentRequest::classifier(), SessionEstablishmentRequest::slot_kinds())[12] == decode_slot(body, SessionEstablishmentRequest::classifier(), 12, SlotKind::One));
        assert(decode_slots(body, SessionEstablishmentRequest::classifier(), SessionEstablishmentRequest::slot_kinds())[13] == decode_slot(body, SessionEstablishmentRequest::classifier(), 13, SlotKind::One));
        assert(decode_slots(body, SessionEstablishmentRequest::classifier(), SessionEstablishmentRequest::slot_kinds())[14] == decode_slot(body, SessionEstablishmentRequest::classifier(), 14, SlotKind::One));
        assert(decode_slots(body, SessionEstablishmentRequest::classifier(), SessionEstablishmentRequest::slot_kinds())[15] == decode_slot(body, SessionEstablishmentRequest::classifier(), 15, SlotKind::One));
        assert(decode_slots(body, SessionEstablishmentRequest::classifier(), SessionEstablishmentRequest::slot_kinds())[16] == decode_slot(body, SessionEstablishmentRequest::classifier(), 16, SlotKind::One));
        assert(decode_slots(body, SessionEstablishmentRequest::classifier(), SessionEstablishmentRequest::slot_kinds())[17] == decode_slot(body, SessionEstablishmentRequest::classifier(), 17, SlotKind::Many));
        assert forall|m: SessionEstablishmentRequest| #[trigger] SessionEstablishmentRequest::spec_decoded(header_wire(b.built_header()) + ies_wire(concat_slots(b.built_slots())), m) implies m.slots() == ss by {
            assert(m.slots() =~= ss);
        }
    }
}

impl SessionEstablishmentRequest {
    /// Every IE is in the field named for its type, and the additional IEs are of
    /// no type that has a field of its own.
    #[verifier::opaque]
    pub open spec fn fields_hold_their_types(&self) -> bool {
        &&& self.node_id.ie_type == IeType::NodeId
        &&& self.fseid.ie_type == IeType::Fseid
        &&& forall|i: int| 0 <= i < self.create_pdrs@.len() ==> (#[trigger] self.create_pdrs@[i]).ie_type == IeType::CreatePdr
        &&& forall|i: int| 0 <= i < self.create_fars@.len() ==> (#[trigger] self.create_fars@[i]).ie_type == IeType::CreateFar
        &&& forall|i: int| 0 <= i < self.create_urrs@.len() ==> (#[trigger] self.create_urrs@[i]).ie_type == IeType::CreateUrr
        &&& forall|i: int| 0 <= i < self.create_qers@.len() ==> (#[trigger] self.create_qers@[i]).ie_type == IeType::CreateQer
        &&& forall|i: int| 0 <= i < self.create_bars@.len() ==> (#[trigger] self.create_bars@[i]).ie_type == IeType::CreateBar
        &&& forall|i: int| 0 <= i < self.create_traffic_endpoints@.len() ==> (#[trigger] self.create_traffic_endpoints@[i]).ie_type == IeType::CreateTrafficEndpoint
        &&& (self.pdn_type matches Some(x) ==> x.ie_type == IeType::PdnType)
        &&& (self.user_id matches Some(x) ==> x.ie_type == IeType::UserId)
        &&& (self.s_nssai matches Some(x) ==> x.ie_type == IeType::Snssai)
        &&& (self.trace_information matches Some(x) ==> x.ie_type == IeType::TraceInformation)
        &&& (self.recovery_time_stamp matches Some(x) ==> x.ie_type == IeType::RecoveryTimeStamp)
        &&& (self.cp_function_features matches Some(x) ==> x.ie_type == IeType::CpFunctionFeatures)
        &&& (self.apn_dnn matches Some(x) ==> x.ie_type == IeType::ApnDnn)
        &&& (self.user_plane_inactivity_timer matches Some(x) ==> x.ie_type == IeType::UserPlaneInactivityTimer)
        &&& (self.pfcpsm_req_flags matches Some(x) ==> x.ie_type == IeType::PfcpsmReqFlags)
        &&& forall|i: int| 0 <= i < self.ies@.len() ==> {
            let t = (#[trigger] self.ies@[i]).ie_type;
            t != IeType::NodeId && t != IeType::Fseid && t != IeType::CreatePdr && t != IeType::CreateFar && t != IeType::CreateUrr && t != IeType::CreateQer && t != IeType::CreateBar && t != IeType::CreateTrafficEndpoint && t != IeType::PdnType && t != IeType::UserId && t != IeType::Snssai && t != IeType::TraceInformation && t != IeType::RecoveryTimeStamp && t != IeType::CpFunctionFeatures && t != IeType::ApnDnn && t != IeType::UserPlaneInactivityTimer && t != IeType::PfcpsmReqFlags
        }
    }
}

/// Decoding puts every IE of the body into the field named for its IE type: a
/// field for one IE holds the last IE of its type, a list holds all IEs of its
/// type in wire order, and the additional IEs are the IEs of the other types, in
/// wire order.
#[verifier::spinoff_prover]
pub proof fn lemma_session_establishment_request_decoded_by_type(data: Seq<u8>, m: SessionEstablishmentRequest)
    requires
        SessionEstablishmentRequest::spec_decoded(data, m),
    ensures
        spec_parse_ies(data.skip(header_size(m.header) as int)) is Ok,
        ({
            let body = spec_parse_ies(data.skip(header_size(m.header) as int))->Ok_0;
            &&& ies_of_type(body, IeType::NodeId).len() > 0 && m.node_id@ == ies_of_type(body, IeType::NodeId).last()
            &&& ies_of_type(body, IeType::Fseid).len() > 0 && m.fseid@ == ies_of_type(body, IeType::Fseid).last()
            &&& ies_view(m.create_pdrs@) == ies_of_type(body, IeType::CreatePdr)
            &&& ies_view(m.create_fars@) == ies_of_type(body, IeType::CreateFar)
            &&& ies_view(m.create_urrs@) == ies_of_type(body, IeType::CreateUrr)
            &&& ies_view(m.create_qers@) == ies_of_type(body, IeType::CreateQer)
            &&& ies_view(m.create_bars@) == ies_of_type(body, IeType::CreateBar)
            &&& ies_view(m.create_traffic_endpoints@) == ies_of_type(body, IeType::CreateTrafficEndpoint)
            &&& (ies_of_type(body, IeType::PdnType).len() == 0 ==> m.pdn_type is None)
            &&& (ies_of_type(body, IeType::PdnType).len() > 0 ==> (m.pdn_type matches Some(x) && x@ == ies_of_type(body, IeType::PdnType).last()))
            &&& (ies_of_type(body, IeType::UserId).len() == 0 ==> m.user_id is None)
            &&& (ies_of_type(body, IeType::UserId).len() > 0 ==> (m.user_id matches Some(x) && x@ == ies_of_type(body, IeType::UserId).last()))
            &&& (ies_of_type(body, IeType::Snssai).len() == 0 ==> m.s_nssai is None)
            &&& (ies_of_type(body, IeType::Snssai).len() > 0 ==> (m.s_nssai matches Some(x) && x@ == ies_of_type(body, IeType::Snssai).last()))
            &&& (ies_of_type(body, IeType::TraceInformation).len() == 0 ==> m.trace_information is None)
            &&& (ies_of_type(body, IeType::TraceInformation).len() > 0 ==> (m.trace_information matches Some(x) && x@ == ies_of_type(body, IeType::TraceInformation).last()))
            &&& (ies_of_type(body, IeType::RecoveryTimeStamp).len() == 0 ==> m.recovery_time_stamp is None)
            &&& (ies_of_type(body, IeType::RecoveryTimeStamp).len() > 0 ==> (m.recovery_time_stamp matches Some(x) && x@ == ies_of_type(body, IeType::RecoveryTimeStamp).last()))
            &&& (ies_of_type(body, IeType::CpFunctionFeatures).len() == 0 ==> m.cp_function_features is None)
            &&& (ies_of_type(body, IeType::CpFunctionFeatures).len() > 0 ==> (m.cp_function_features matches Some(x) && x@ == ies_of_type(body, IeType::CpFunctionFeatures).last()))
            &&& (ies_of_type(body, IeType::ApnDnn).len() == 0 ==> m.apn_dnn is None)
            &&& (ies_of_type(body, IeType::ApnDnn).len() > 0 ==> (m.apn_dnn matches Some(x) && x@ == ies_of_type(body, IeType::ApnDnn).last()))
            &&& (ies_of_type(body, IeType::UserPlaneInactivityTimer).len() == 0 ==> m.user_plane_inactivity_timer is None)
            &&& (ies_of_type(body, IeType::UserPlaneInactivityTimer).len() > 0 ==> (m.user_plane_inactivity_timer matches Some(x) && x@ == ies_of_type(body, IeType::UserPlaneInactivityTimer).last()))
            &&& (ies_of_type(body, IeType::PfcpsmReqFlags).len() == 0 ==> m.pfcpsm_req_flags is None)
            &&& (ies_of_type(body, IeType::PfcpsmReqFlags).len() > 0 ==> (m.pfcpsm_req_flags matches Some(x) && x@ == ies_of_type(body, IeType::PfcpsmReqFlags).last()))
            &&& ies_view(m.ies@) == ies_where(body, |t: IeType| t != IeType::NodeId && t != IeType::Fseid && t != IeType::CreatePdr && t != IeType::CreateFar && t != IeType::CreateUrr && t != IeType::CreateQer && t != IeType::CreateBar && t != IeType::CreateTrafficEndpoint && t != IeType::PdnType && t != IeType::UserId && t != IeType::Snssai && t != IeType::TraceInformation && t != IeType::RecoveryTimeStamp && t != IeType::CpFunctionFeatures && t != IeType::ApnDnn && t != IeType::UserPlaneInactivityTimer && t != IeType::PfcpsmReqFlags)
            &&& true
        }),
{
    if let Ok(h) = spec_parse_header(data) {
        let body = spec_parse_ies(data.skip(header_size(h) as int))->Ok_0;
        let cls = SessionEstablishmentRequest::classifier();
        assert(ies_of_type(body, IeType::NodeId).len() > 0 && m.node_id@ == ies_of_type(body, IeType::NodeId).last()) by {
            assert forall|x: IeType| #[trigger] slot_pred(cls, 0)(x) == (x == IeType::NodeId) by {}
            lemma_ies_where_ext(body, slot_pred(cls, 0), |x: IeType| x == IeType::NodeId);
            lemma_ies_of_type_is_where(body, IeType::NodeId);
            assert(decode_slot(body, cls, 0, SlotKind::One) == last_seq(ies_of_type(body, IeType::NodeId)));
            assert(seq![m.node_id@][0] == m.node_id@);
        }
        assert(ies_of_type(body, IeType::Fseid).len() > 0 && m.fseid@ == ies_of_type(body, IeType::Fseid).last()) by {
            assert forall|x: IeType| #[trigger] slot_pred(cls, 1)(x) == (x == IeType::Fseid) by {}
            lemma_ies_where_ext(body, slot_pred(cls, 1), |x: IeType| x == IeType::Fseid);
            lemma_ies_of_type_is_where(body, IeType::Fseid);
            assert(decode_slot(body, cls, 1, SlotKind::One) == last_seq(ies_of_type(body, IeType::Fseid)));
            assert(seq![m.fseid@][0] == m.fseid@);
        }
        assert(ies_view(m.create_pdrs@) == ies_of_type(body, IeType::CreatePdr)) by {
            assert forall|x: IeType| #[trigger] slot_pred(cls, 2)(x) == (x == IeType::CreatePdr) by {}
            lemma_ies_where_ext(body, slot_pred(cls, 2), |x: IeType| x == IeType::CreatePdr);
            lemma_ies_of_type_is_where(body, IeType::CreatePdr);
        }
        assert(ies_view(m.create_fars@) == ies_of_type(body, IeType::CreateFar)) by {
            assert forall|x: IeType| #[trigger] slot_pred(cls, 3)(x) == (x == IeType::CreateFar) by {}
            lemma_ies_where_ext(body, slot_pred(cls, 3), |x: IeType| x == IeType::CreateFar);
            lemma_ies_of_type_is_where(body, IeType::CreateFar);
        }
        assert(ies_view(m.create_urrs@) == ies_of_type(body, IeType::CreateUrr)) by {
            assert forall|x: IeType| #[trigger] slot_pred(cls, 4)(x) == (x == IeType::CreateUrr) by {}
            lemma_ies_where_ext(body, slot_pred(cls, 4), |x: IeType| x == IeType::CreateUrr);
            lemma_ies_of_type_is_where(body, IeType::CreateUrr);
        }
        assert(ies_view(m.create_qers@) == ies_of_type(body, IeType::CreateQer)) by {
            assert forall|x: IeType| #[trigger] slot_pred(cls, 5)(x) == (x == IeType::CreateQer) by {}
            lemma_ies_where_ext(body, slot_pred(cls, 5), |x: IeType| x == IeType::CreateQer);
            lemma_ies_of_type_is_where(body, IeType::CreateQer);
        }
        assert(ies_view(m.create_bars@) == ies_of_type(body, IeType::CreateBar)) by {
            assert forall|x: IeType| #[trigger] slot_pred(cls, 6)(x) == (x == IeType::CreateBar) by {}
            lemma_ies_where_ext(body, slot_pred(cls, 6), |x: IeType| x == IeType::CreateBar);
            lemma_ies_of_type_is_where(body, IeType::CreateBar);
        }
        assert(ies_view(m.create_traffic_endpoints@) == ies_of_type(body, IeType::CreateTrafficEndpoint)) by {
            assert forall|x: IeType| #[trigger] slot_pred(cls, 7)(x) == (x == IeType::CreateTrafficEndpoint) by {}
            lemma_ies_where_ext(body, slot_pred(cls, 7), |x: IeType| x == IeType::CreateTrafficEndpoint);
            lemma_ies_of_type_is_where(body, IeType::CreateTrafficEndpoint);
        }
        assert((ies_of_type(body, IeType::PdnType).len() == 0 ==> m.pdn_type is None) && (ies_of_type(body, IeType::PdnType).len() > 0 ==> (m.pdn_type matches Some(x) && x@ == ies_of_type(body, IeType::PdnType).last()))) by {
            assert forall|x: IeType| #[trigger] slot_pred(cls, 8)(x) == (x == IeType::PdnType) by {}
            lemma_ies_where_ext(body, slot_pred(cls, 8), |x: IeType| x == IeType::PdnType);
            lemma_ies_of_type_is_where(body, IeType::PdnType);
            assert(decode_slot(body, cls, 8, SlotKind::One) == last_seq(ies_of_type(body, IeType::PdnType)));
            if ies_of_type(body, IeType::PdnType).len() > 0 { assert(opt_ie_seq(m.pdn_type)[0] == ies_of_type(body, IeType::PdnType).last()); }
        }
        assert((ies_of_type(body, IeType::UserId).len() == 0 ==> m.user_id is None) && (ies_of_type(body, IeType::UserId).len() > 0 ==> (m.user_id matches Some(x) && x@ == ies_of_type(body, IeType::UserId).last()))) by {
            assert forall|x: IeType| #[trigger] slot_pred(cls, 9)(x) == (x == IeType::UserId) by {}
            lemma_ies_where_ext(body, slot_pred(cls, 9), |x: IeType| x == IeType::UserId);
            lemma_ies_of_type_is_where(body, IeType::UserId);
            assert(decode_slot(body, cls, 9, SlotKind::One) == last_seq(ies_of_type(body, IeType::UserId)));
            if ies_of_type(body, IeType::UserId).len() > 0 { assert(opt_ie_seq(m.user_id)[0] == ies_of_type(body, IeType::UserId).last()); }
        }
        assert((ies_of_type(body, IeType::Snssai).len() == 0 ==> m.s_nssai is None) && (ies_of_type(body, IeType::Snssai).len() > 0 ==> (m.s_nssai matches Some(x) && x@ == ies_of_type(body, IeType::Snssai).last()))) by {
            assert forall|x: IeType| #[trigger] slot_pred(cls, 10)(x) == (x == IeType::Snssai) by {}
            lemma_ies_where_ext(body, slot_pred(cls, 10), |x: IeType| x == IeType::Snssai);
            lemma_ies_of_type_is_where(body, IeType::Snssai);
            assert(decode_slot(body, cls, 10, SlotKind::One) == last_seq(ies_of_type(body, IeType::Snssai)));
            if ies_of_type(body, IeType::Snssai).len() > 0 { assert(opt_ie_seq(m.s_nssai)[0] == ies_of_type(body, IeType::Snssai).last()); }
        }
        assert((ies_of_type(body, IeType::TraceInformation).len() == 0 ==> m.trace_information is None) && (ies_of_type(body, IeType::TraceInformation).len() > 0 ==> (m.trace_information matches Some(x) && x@ == ies_of_type(body, IeType::TraceInformation).last()))) by {
            assert forall|x: IeType| #[trigger] slot_pred(cls, 11)(x) == (x == IeType::TraceInformation) by {}
            lemma_ies_where_ext(body, slot_pred(cls, 11), |x: IeType| x == IeType::TraceInformation);
            lemma_ies_of_type_is_where(body, IeType::TraceInformation);
            assert(decode_slot(body, cls, 11, SlotKind::One) == last_seq(ies_of_type(body, IeType::TraceInformation)));
            if ies_of_type(body, IeType::TraceInformation).len() > 0 { assert(opt_ie_seq(m.trace_information)[0] == ies_of_type(body, IeType::TraceInformation).last()); }
        }
        assert((ies_of_type(body, IeType::RecoveryTimeStamp).len() == 0 ==> m.recovery_time_stamp is None) && (ies_of_type(body, IeType::RecoveryTimeStamp).len() > 0 ==> (m.recovery_time_stamp matches Some(x) && x@ == ies_of_type(body, IeType::RecoveryTimeStamp).last()))) by {
            assert forall|x: IeType| #[trigger] slot_pred(cls, 12)(x) == (x == IeType::RecoveryTimeStamp) by {}
            lemma_ies_where_ext(body, slot_pred(cls, 12), |x: IeType| x == IeType::RecoveryTimeStamp);
            lemma_ies_of_type_is_where(body, IeType::RecoveryTimeStamp);
            assert(decode_slot(body, cls, 12, SlotKind::One) == last_seq(ies_of_type(body, IeType::RecoveryTimeStamp)));
            if ies_of_type(body, IeType::RecoveryTimeStamp).len() > 0 { assert(opt_ie_seq(m.recovery_time_stamp)[0] == ies_of_type(body, IeType::RecoveryTimeStamp).last()); }
        }
        assert((ies_of_type(body, IeType::CpFunctionFeatures).len() == 0 ==> m.cp_function_features is None) && (ies_of_type(body, IeType::CpFunctionFeatures).len() > 0 ==> (m.cp_function_features matches Some(x) && x@ == ies_of_type(body, IeType::CpFunctionFeatures).last()))) by {
            assert forall|x: IeType| #[trigger] slot_pred(cls, 13)(x) == (x == IeType::CpFunctionFeatures) by {}
            lemma_ies_where_ext(body, slot_pred(cls, 13), |x: IeType| x == IeType::CpFunctionFeatures);
            lemma_ies_of_type_is_where(body, IeType::CpFunctionFeatures);
            assert(decode_slot(body, cls, 13, SlotKind::One) == last_seq(ies_of_type(body, IeType::CpFunctionFeatures)));
            if ies_of_type(body, IeType::CpFunctionFeatures).len() > 0 { assert(opt_ie_seq(m.cp_function_features)[0] == ies_of_type(body, IeType::CpFunctionFeatures).last()); }
        }
        assert((ies_of_type(body, IeType::ApnDnn).len() == 0 ==> m.apn_dnn is None) && (ies_of_type(body, IeType::ApnDnn).len() > 0 ==> (m.apn_dnn matches Some(x) && x@ == ies_of_type(body, IeType::ApnDnn).last()))) by {
            assert forall|x: IeType| #[trigger] slot_pred(cls, 14)(x) == (x == IeType::ApnDnn) by {}
            lemma_ies_where_ext(body, slot_pred(cls, 14), |x: IeType| x == IeType::ApnDnn);
            lemma_ies_of_type_is_where(body, IeType::ApnDnn);
            assert(decode_slot(body, cls, 14, SlotKind::One) == last_seq(ies_of_type(body, IeType::ApnDnn)));
            if ies_of_type(body, IeType::ApnDnn).len() > 0 { assert(opt_ie_seq(m.apn_dnn)[0] == ies_of_type(body, IeType::ApnDnn).last()); }
        }
        assert((ies_of_type(body, IeType::UserPlaneInactivityTimer).len() == 0 ==> m.user_plane_inactivity_timer is None) && (ies_of_type(body, IeType::UserPlaneInactivityTimer).len() > 0 ==> (m.user_plane_inactivity_timer matches Some(x) && x@ == ies_of_type(body, IeType::UserPlaneInactivityTimer).last()))) by {
            assert forall|x: IeType| #[trigger] slot_pred(cls, 15)(x) == (x == IeType::UserPlaneInactivityTimer) by {}
            lemma_ies_where_ext(body, slot_pred(cls, 15), |x: IeType| x == IeType::UserPlaneInactivityTimer);
            lemma_ies_of_type_is_where(body, IeType::UserPlaneInactivityTimer);
            assert(decode_slot(body, cls, 15, SlotKind::One) == last_seq(ies_of_type(body, IeType::UserPlaneInactivityTimer)));
            if ies_of_type(body, IeType::UserPlaneInactivityTimer).len() > 0 { assert(opt_ie_seq(m.user_plane_inactivity_timer)[0] == ies_of_type(body, IeType::UserPlaneInactivityTimer).last()); }
        }
        assert((ies_of_type(body, IeType::PfcpsmReqFlags).len() == 0 ==> m.pfcpsm_req_flags is None) && (ies_of_type(body, IeType::PfcpsmReqFlags).len() > 0 ==> (m.pfcpsm_req_flags matches Some(x) && x@ == ies_of_type(body, IeType::PfcpsmReqFlags).last()))) by {
            assert forall|x: IeType| #[trigger] slot_pred(cls, 16)(x) == (x == IeType::PfcpsmReqFlags) by {}
            lemma_ies_where_ext(body, slot_pred(cls, 16), |x: IeType| x == IeType::PfcpsmReqFlags);
            lemma_ies_of_type_is_where(body, IeType::PfcpsmReqFlags);
            assert(decode_slot(body, cls, 16, SlotKind::One) == last_seq(ies_of_type(body, IeType::PfcpsmReqFlags)));
            if ies_of_type(body, IeType::PfcpsmReqFlags).len() > 0 { assert(opt_ie_seq(m.pfcpsm_req_flags)[0] == ies_of_type(body, IeType::PfcpsmReqFlags).last()); }
        }
        assert(ies_view(m.ies@) == ies_where(body, |t: IeType| t != IeType::NodeId && t != IeType::Fseid && t != IeType::CreatePdr && t != IeType::CreateFar && t != IeType::CreateUrr && t != IeType::CreateQer && t != IeType::CreateBar && t != IeType::CreateTrafficEndpoint && t != IeType::PdnType && t != IeType::UserId && t != IeType::Snssai && t != IeType::TraceInformation && t != IeType::RecoveryTimeStamp && t != IeType::CpFunctionFeatures && t != IeType::ApnDnn && t != IeType::UserPlaneInactivityTimer && t != IeType::PfcpsmReqFlags)) by {
            assert forall|t: IeType| #[trigger] slot_pred(cls, 17)(t) == (t != IeType::NodeId && t != IeType::Fseid && t != IeType::CreatePdr && t != IeType::CreateFar && t != IeType::CreateUrr && t != IeType::CreateQer && t != IeType::CreateBar && t != IeType::CreateTrafficEndpoint && t != IeType::PdnType && t != IeType::UserId && t != IeType::Snssai && t != IeType::TraceInformation && t != IeType::RecoveryTimeStamp && t != IeType::CpFunctionFeatures && t != IeType::ApnDnn && t != IeType::UserPlaneInactivityTimer && t != IeType::PfcpsmReqFlags) by {}
            lemma_ies_where_ext(body, slot_pred(cls, 17), |t: IeType| t != IeType::NodeId && t != IeType::Fseid && t != IeType::CreatePdr && t != IeType::CreateFar && t != IeType::CreateUrr && t != IeType::CreateQer && t != IeType::CreateBar && t != IeType::CreateTrafficEndpoint && t != IeType::PdnType && t != IeType::UserId && t != IeType::Snssai && t != IeType::TraceInformation && t != IeType::RecoveryTimeStamp && t != IeType::CpFunctionFeatures && t != IeType::ApnDnn && t != IeType::UserPlaneInactivityTimer && t != IeType::PfcpsmReqFlags);
        }
    }
}

/// When every IE is in the field named for its type, every IE sits in the slot
/// that decoding assigns its type to.
proof fn lemma_session_establishment_request_fields_classified(m: SessionEstablishmentRequest)
    requires
        m.fields_hold_their_types(),
    ensures
        slots_classified(m.slots(), SessionEstablishmentRequest::classifier()),
{
    reveal(SessionEstablishmentRequest::fields_hold_their_types);
    let cls = SessionEstablishmentRequest::classifier();
    assert(slots_classified(Seq::<Seq<IeView>>::empty(), cls));
    assert(slots_classified(Seq::<Seq<IeView>>::empty().push(seq![m.node_id@]), cls)) by {
        assert forall|k: int| 0 <= k < seq![m.node_id@].len() implies cls(#[trigger] seq![m.node_id@][k].ie_type) == 0 by {
        }
        lemma_classified_push(Seq::<Seq<IeView>>::empty(), seq![m.node_id@], cls);
    }
    assert(slots_classified(Seq::<Seq<IeView>>::empty().push(seq![m.node_id@]).push(seq![m.fseid@]), cls)) by {
        assert forall|k: int| 0 <= k < seq![m.fseid@].len() implies cls(#[trigger] seq![m.fseid@][k].ie_type) == 1 by {
        }
        lemma_classified_push(Seq::<Seq<IeView>>::empty().push(seq![m.node_id@]), seq![m.fseid@], cls);
    }
    assert(slots_classified(Seq::<Seq<IeView>>::empty().push(seq![m.node_id@]).push(seq![m.fseid@]).push(ies_view(m.create_pdrs@)), cls)) by {
        assert forall|k: int| 0 <= k < ies_view(m.create_pdrs@).len() implies cls(#[trigger] ies_view(m.create_pdrs@)[k].ie_type) == 2 by {
            assert(ies_view(m.create_pdrs@)[k] == m.create_pdrs@[k]@);
        }
        lemma_classified_push(Seq::<Seq<IeView>>::empty().push(seq![m.node_id@]).push(seq![m.fseid@]), ies_view(m.create_pdrs@), cls);
    }
    assert(slots_classified(Seq::<Seq<IeView>>::empty().push(seq![m.node_id@]).push(seq![m.fseid@]).push(ies_view(m.create_pdrs@)).push(ies_view(m.create_fars@)), cls)) by {
        assert forall|k: int| 0 <= k < ies_view(m.create_fars@).len() implies cls(#[trigger] ies_view(m.create_fars@)[k].ie_type) == 3 by {
            assert(ies_view(m.create_fars@)[k] == m.create_fars@[k]@);
        }
        lemma_classified_push(Seq::<Seq<IeView>>::empty().push(seq![m.node_id@]).push(seq![m.fseid@]).push(ies_view(m.create_pdrs@)), ies_view(m.create_fars@), cls);
    }
    assert(slots_classified(Seq::<Seq<IeView>>::empty().push(seq![m.node_id@]).push(seq![m.fseid@]).push(ies_view(m.create_pdrs@)).push(ies_view(m.create_fars@)).push(ies_view(m.create_urrs@)), cls)) by {
        assert forall|k: int| 0 <= k < ies_view(m.create_urrs@).len() implies cls(#[trigger] ies_view(m.create_urrs@)[k].ie_type) == 4 by {
            assert(ies_view(m.create_urrs@)[k] == m.create_urrs@[k]@);
        }
        lemma_classified_push(Seq::<Seq<IeView>>::empty().push(seq![m.node_id@]).push(seq![m.fseid@]).push(ies_view(m.create_pdrs@)).push(ies_view(m.create_fars@)), ies_view(m.create_urrs@), cls);
    }
    assert(slots_classified(Seq::<Seq<IeView>>::empty().push(seq![m.node_id@]).push(seq![m.fseid@]).push(ies_view(m.create_pdrs@)).push(ies_view(m.create_fars@)).push(ies_view(m.create_urrs@)).push(ies_view(m.create_qers@)), cls)) by {
        assert forall|k: int| 0 <= k < ies_view(m.create_qers@).len() implies cls(#[trigger] ies_view(m.create_qers@)[k].ie_type) == 5 by {
            assert(ies_view(m.create_qers@)[k] == m.create_qers@[k]@);
        }
        lemma_classified_push(Seq::<Seq<IeView>>::empty().push(seq![m.node_id@]).push(seq![m.fseid@]).push(ies_view(m.create_pdrs@)).push(ies_view(m.create_fars@)).push(ies_view(m.create_urrs@)), ies_view(m.create_qers@), cls);
    }
    assert(slots_classified(Seq::<Seq<IeView>>::empty().push(seq![m.node_id@]).push(seq![m.fseid@]).push(ies_view(m.create_pdrs@)).push(ies_view(m.create_fars@)).push(ies_view(m.create_urrs@)).push(ies_view(m.create_qers@)).push(ies_view(m.create_bars@)), cls)) by {
        assert forall|k: int| 0 <= k < ies_view(m.create_bars@).len() implies cls(#[trigger] ies_view(m.create_bars@)[k].ie_type) == 6 by {
            assert(ies_view(m.create_bars@)[k] == m.create_bars@[k]@);
        }
        lemma_classified_push(Seq::<Seq<IeView>>::empty().push(seq![m.node_id@]).push(seq![m.fseid@]).push(ies_view(m.create_pdrs@)).push(ies_view(m.create_fars@)).push(ies_view(m.create_urrs@)).push(ies_view(m.create_qers@)), ies_view(m.create_bars@), cls);
    }
    assert(slots_classified(Seq::<Seq<IeView>>::empty().push(seq![m.node_id@]).push(seq![m.fseid@]).push(ies_view(m.create_pdrs@)).push(ies_view(m.create_fars@)).push(ies_view(m.create_urrs@)).push(ies_view(m.create_qers@)).push(ies_view(m.create_bars@)).push(ies_view(m.create_traffic_endpoints@)), cls)) by {
        assert forall|k: int| 0 <= k < ies_view(m.create_traffic_endpoints@).len() implies cls(#[trigger] ies_view(m.create_traffic_endpoints@)[k].ie_type) == 7 by {
            assert(ies_view(m.create_traffic_endpoints@)[k] == m.create_traffic_endpoints@[k]@);
        }
        lemma_classified_push(Seq::<Seq<IeView>>::empty().push(seq![m.node_id@]).push(seq![m.fseid@]).push(ies_view(m.create_pdrs@)).push(ies_view(m.create_fars@)).push(ies_view(m.create_urrs@)).push(ies_view(m.create_qers@)).push(ies_view(m.create_bars@)), ies_view(m.create_traffic_endpoints@), cls);
    }
    assert(slots_classified(Seq::<Seq<IeView>>::empty().push(seq![m.node_id@]).push(seq![m.fseid@]).push(ies_view(m.create_pdrs@)).push(ies_view(m.create_fars@)).push(ies_view(m.create_urrs@)).push(ies_view(m.create_qers@)).push(ies_view(m.create_bars@)).push(ies_view(m.create_traffic_endpoints@)).push(opt_ie_seq(m.pdn_type)), cls)) by {
        assert forall|k: int| 0 <= k < opt_ie_seq(m.pdn_type).len() implies cls(#[trigger] opt_ie_seq(m.pdn_type)[k].ie_type) == 8 by {
        }
        lemma_classified_push(Seq::<Seq<IeView>>::empty().push(seq![m.node_id@]).push(seq![m.fseid@]).push(ies_view(m.create_pdrs@)).push(ies_view(m.create_fars@)).push(ies_view(m.create_urrs@)).push(ies_view(m.create_qers@)).push(ies_view(m.create_bars@)).push(ies_view(m.create_traffic_endpoints@)), opt_ie_seq(m.pdn_type), cls);
    }
    assert(slots_classified(Seq::<Seq<IeView>>::empty().push(seq![m.node_id@]).push(seq![m.fseid@]).push(ies_view(m.create_pdrs@)).push(ies_view(m.create_fars@)).push(ies_view(m.create_urrs@)).push(ies_view(m.create_qers@)).push(ies_view(m.create_bars@)).push(ies_view(m.create_traffic_endpoints@)).push(opt_ie_seq(m.pdn_type)).push(opt_ie_seq(m.user_id)), cls)) by {
        assert forall|k: int| 0 <= k < opt_ie_seq(m.user_id).len() implies cls(#[trigger] opt_ie_seq(m.user_id)[k].ie_type) == 9 by {
        }
        lemma_classified_push(Seq::<Seq<IeView>>::empty().push(seq![m.node_id@]).push(seq![m.fseid@]).push(ies_view(m.create_pdrs@)).push(ies_view(m.create_fars@)).push(ies_view(m.create_urrs@)).push(ies_view(m.create_qers@)).push(ies_view(m.create_bars@)).push(ies_view(m.create_traffic_endpoints@)).push(opt_ie_seq(m.pdn_type)), opt_ie_seq(m.user_id), cls);
    }
    assert(slots_classified(Seq::<Seq<IeView>>::empty().push(seq![m.node_id@]).push(seq![m.fseid@]).push(ies_view(m.create_pdrs@)).push(ies_view(m.create_fars@)).push(ies_view(m.create_urrs@)).push(ies_view(m.create_qers@)).push(ies_view(m.create_bars@)).push(ies_view(m.create_traffic_endpoints@)).push(opt_ie_seq(m.pdn_type)).push(opt_ie_seq(m.user_id)).push(opt_ie_seq(m.s_nssai)), cls)) by {
        assert forall|k: int| 0 <= k < opt_ie_seq(m.s_nssai).len() implies cls(#[trigger] opt_ie_seq(m.s_nssai)[k].ie_type) == 10 by {
        }
        lemma_classified_push(Seq::<Seq<IeView>>::empty().push(seq![m.node_id@]).push(seq![m.fseid@]).push(ies_view(m.create_pdrs@)).push(ies_view(m.create_fars@)).push(ies_view(m.create_urrs@)).push(ies_view(m.create_qers@)).push(ies_view(m.create_bars@)).push(ies_view(m.create_traffic_endpoints@)).push(opt_ie_seq(m.pdn_type)).push(opt_ie_seq(m.user_id)), opt_ie_seq(m.s_nssai), cls);
    }
    assert(slots_classified(Seq::<Seq<IeView>>::empty().push(seq![m.node_id@]).push(seq![m.fseid@]).push(ies_view(m.create_pdrs@)).push(ies_view(m.create_fars@)).push(ies_view(m.create_urrs@)).push(ies_view(m.create_qers@)).push(ies_view(m.create_bars@)).push(ies_view(m.create_traffic_endpoints@)).push(opt_ie_seq(m.pdn_type)).push(opt_ie_seq(m.user_id)).push(opt_ie_seq(m.s_nssai)).push(opt_ie_seq(m.trace_information)), cls)) by {
        assert forall|k: int| 0 <= k < opt_ie_seq(m.trace_information).len() implies cls(#[trigger] opt_ie_seq(m.trace_information)[k].ie_type) == 11 by {
        }
        lemma_classified_push(Seq::<Seq<IeView>>::empty().push(seq![m.node_id@]).push(seq![m.fseid@]).push(ies_view(m.create_pdrs@)).push(ies_view(m.create_fars@)).push(ies_view(m.create_urrs@)).push(ies_view(m.create_qers@)).push(ies_view(m.create_bars@)).push(ies_view(m.create_traffic_endpoints@)).push(opt_ie_seq(m.pdn_type)).push(opt_ie_seq(m.user_id)).push(opt_ie_seq(m.s_nssai)), opt_ie_seq(m.trace_information), cls);
    }
    assert(slots_classified(Seq::<Seq<IeView>>::empty().push(seq![m.node_id@]).push(seq![m.fseid@]).push(ies_view(m.create_pdrs@)).push(ies_view(m.create_fars@)).push(ies_view(m.create_urrs@)).push(ies_view(m.create_qers@)).push(ies_view(m.create_bars@)).push(ies_view(m.create_traffic_endpoints@)).push(opt_ie_seq(m.pdn_type)).push(opt_ie_seq(m.user_id)).push(opt_ie_seq(m.s_nssai)).push(opt_ie_seq(m.trace_information)).push(opt_ie_seq(m.recovery_time_stamp)), cls)) by {
        assert forall|k: int| 0 <= k < opt_ie_seq(m.recovery_time_stamp).len() implies cls(#[trigger] opt_ie_seq(m.recovery_time_stamp)[k].ie_type) == 12 by {
        }
        lemma_classified_push(Seq::<Seq<IeView>>::empty().push(seq![m.node_id@]).push(seq![m.fseid@]).push(ies_view(m.create_pdrs@)).push(ies_view(m.create_fars@)).push(ies_view(m.create_urrs@)).push(ies_view(m.create_qers@)).push(ies_view(m.create_bars@)).push(ies_view(m.create_traffic_endpoints@)).push(opt_ie_seq(m.pdn_type)).push(opt_ie_seq(m.user_id)).push(opt_ie_seq(m.s_nssai)).push(opt_ie_seq(m.trace_information)), opt_ie_seq(m.recovery_time_stamp), cls);
    }
    assert(slots_classified(Seq::<Seq<IeView>>::empty().push(seq![m.node_id@]).push(seq![m.fseid@]).push(ies_view(m.create_pdrs@)).push(ies_view(m.create_fars@)).push(ies_view(m.create_urrs@)).push(ies_view(m.create_qers@)).push(ies_view(m.create_bars@)).push(ies_view(m.create_traffic_endpoints@)).push(opt_ie_seq(m.pdn_type)).push(opt_ie_seq(m.user_id)).push(opt_ie_seq(m.s_nssai)).push(opt_ie_seq(m.trace_information)).push(opt_ie_seq(m.recovery_time_stamp)).push(opt_ie_seq(m.cp_function_features)), cls)) by {
        assert forall|k: int| 0 <= k < opt_ie_seq(m.cp_function_features).len() implies cls(#[trigger] opt_ie_seq(m.cp_function_features)[k].ie_type) == 13 by {
        }
        lemma_classified_push(Seq::<Seq<IeView>>::empty().push(seq![m.node_id@]).push(seq![m.fseid@]).push(ies_view(m.create_pdrs@)).push(ies_view(m.create_fars@)).push(ies_view(m.create_urrs@)).push(ies_view(m.create_qers@)).push(ies_view(m.create_bars@)).push(ies_view(m.create_traffic_endpoints@)).push(opt_ie_seq(m.pdn_type)).push(opt_ie_seq(m.user_id)).push(opt_ie_seq(m.s_nssai)).push(opt_ie_seq(m.trace_information)).push(opt_ie_seq(m.recovery_time_stamp)), opt_ie_seq(m.cp_function_features), cls);
    }
    assert(slots_classified(Seq::<Seq<IeView>>::empty().push(seq![m.node_id@]).push(seq![m.fseid@]).push(ies_view(m.create_pdrs@)).push(ies_view(m.create_fars@)).push(ies_view(m.create_urrs@)).push(ies_view(m.create_qers@)).push(ies_view(m.create_bars@)).push(ies_view(m.create_traffic_endpoints@)).push(opt_ie_seq(m.pdn_type)).push(opt_ie_seq(m.user_id)).push(opt_ie_seq(m.s_nssai)).push(opt_ie_seq(m.trace_information)).push(opt_ie_seq(m.recovery_time_stamp)).push(opt_ie_seq(m.cp_function_features)).push(opt_ie_seq(m.apn_dnn)), cls)) by {
        assert forall|k: int| 0 <= k < opt_ie_seq(m.apn_dnn).len() implies cls(#[trigger] opt_ie_seq(m.apn_dnn)[k].ie_type) == 14 by {
        }
        lemma_classified_push(Seq::<Seq<IeView>>::empty().push(seq![m.node_id@]).push(seq![m.fseid@]).push(ies_view(m.create_pdrs@)).push(ies_view(m.create_fars@)).push(ies_view(m.create_urrs@)).push(ies_view(m.create_qers@)).push(ies_view(m.create_bars@)).push(ies_view(m.create_traffic_endpoints@)).push(opt_ie_seq(m.pdn_type)).push(opt_ie_seq(m.user_id)).push(opt_ie_seq(m.s_nssai)).push(opt_ie_seq(m.trace_information)).push(opt_ie_seq(m.recovery_time_stamp)).push(opt_ie_seq(m.cp_function_features)), opt_ie_seq(m.apn_dnn), cls);
    }
    assert(slots_classified(Seq::<Seq<IeView>>::empty().push(seq![m.node_id@]).push(seq![m.fseid@]).push(ies_view(m.create_pdrs@)).push(ies_view(m.create_fars@)).push(ies_view(m.create_urrs@)).push(ies_view(m.create_qers@)).push(ies_view(m.create_bars@)).push(ies_view(m.create_traffic_endpoints@)).push(opt_ie_seq(m.pdn_type)).push(opt_ie_seq(m.user_id)).push(opt_ie_seq(m.s_nssai)).push(opt_ie_seq(m.trace_information)).push(opt_ie_seq(m.recovery_time_stamp)).push(opt_ie_seq(m.cp_function_features)).push(opt_ie_seq(m.apn_dnn)).push(opt_ie_seq(m.user_plane_inactivity_timer)), cls)) by {
        assert forall|k: int| 0 <= k < opt_ie_seq(m.user_plane_inactivity_timer).len() implies cls(#[trigger] opt_ie_seq(m.user_plane_inactivity_timer)[k].ie_type) == 15 by {
        }
        lemma_classified_push(Seq::<Seq<IeView>>::empty().push(seq![m.node_id@]).push(seq![m.fseid@]).push(ies_view(m.create_pdrs@)).push(ies_view(m.create_fars@)).push(ies_view(m.create_urrs@)).push(ies_view(m.create_qers@)).push(ies_view(m.create_bars@)).push(ies_view(m.create_traffic_endpoints@)).push(opt_ie_seq(m.pdn_type)).push(opt_ie_seq(m.user_id)).push(opt_ie_seq(m.s_nssai)).push(opt_ie_seq(m.trace_information)).push(opt_ie_seq(m.recovery_time_stamp)).push(opt_ie_seq(m.cp_function_features)).push(opt_ie_seq(m.apn_dnn)), opt_ie_seq(m.user_plane_inactivity_timer), cls);
    }
    assert(slots_classified(Seq::<Seq<IeView>>::empty().push(seq![m.node_id@]).push(seq![m.fseid@]).push(ies_view(m.create_pdrs@)).push(ies_view(m.create_fars@)).push(ies_view(m.create_urrs@)).push(ies_view(m.create_qers@)).push(ies_view(m.create_bars@)).push(ies_view(m.create_traffic_endpoints@)).push(opt_ie_seq(m.pdn_type)).push(opt_ie_seq(m.user_id)).push(opt_ie_seq(m.s_nssai)).push(opt_ie_seq(m.trace_information)).push(opt_ie_seq(m.recovery_time_stamp)).push(opt_ie_seq(m.cp_function_features)).push(opt_ie_seq(m.apn_dnn)).push(opt_ie_seq(m.user_plane_inactivity_timer)).push(opt_ie_seq(m.pfcpsm_req_flags)), cls)) by {
        assert forall|k: int| 0 <= k < opt_ie_seq(m.pfcpsm_req_flags).len() implies cls(#[trigger] opt_ie_seq(m.pfcpsm_req_flags)[k].ie_type) == 16 by {
        }
        lemma_classified_push(Seq::<Seq<IeView>>::empty().push(seq![m.node_id@]).push(seq![m.fseid@]).push(ies_view(m.create_pdrs@)).push(ies_view(m.create_fars@)).push(ies_view(m.create_urrs@)).push(ies_view(m.create_qers@)).push(ies_view(m.create_bars@)).push(ies_view(m.create_traffic_endpoints@)).push(opt_ie_seq(m.pdn_type)).push(opt_ie_seq(m.user_id)).push(opt_ie_seq(m.s_nssai)).push(opt_ie_seq(m.trace_information)).push(opt_ie_seq(m.recovery_time_stamp)).push(opt_ie_seq(m.cp_function_features)).push(opt_ie_seq(m.apn_dnn)).push(opt_ie_seq(m.user_plane_inactivity_timer)), opt_ie_seq(m.pfcpsm_req_flags), cls);
    }
    assert(slots_classified(Seq::<Seq<IeView>>::empty().push(seq![m.node_id@]).push(seq![m.fseid@]).push(ies_view(m.create_pdrs@)).push(ies_view(m.create_fars@)).push(ies_view(m.create_urrs@)).push(ies_view(m.create_qers@)).push(ies_view(m.create_bars@)).push(ies_view(m.create_traffic_endpoints@)).push(opt_ie_seq(m.pdn_type)).push(opt_ie_seq(m.user_id)).push(opt_ie_seq(m.s_nssai)).push(opt_ie_seq(m.trace_information)).push(opt_ie_seq(m.recovery_time_stamp)).push(opt_ie_seq(m.cp_function_features)).push(opt_ie_seq(m.apn_dnn)).push(opt_ie_seq(m.user_plane_inactivity_timer)).push(opt_ie_seq(m.pfcpsm_req_flags)).push(ies_view(m.ies@)), cls)) by {
        assert forall|k: int| 0 <= k < ies_view(m.ies@).len() implies cls(#[trigger] ies_view(m.ies@)[k].ie_type) == 17 by {
            assert(ies_view(m.ies@)[k] == m.ies@[k]@);
        }
        lemma_classified_push(Seq::<Seq<IeView>>::empty().push(seq![m.node_id@]).push(seq![m.fseid@]).push(ies_view(m.create_pdrs@)).push(ies_view(m.create_fars@)).push(ies_view(m.create_urrs@)).push(ies_view(m.create_qers@)).push(ies_view(m.create_bars@)).push(ies_view(m.create_traffic_endpoints@)).push(opt_ie_seq(m.pdn_type)).push(opt_ie_seq(m.user_id)).push(opt_ie_seq(m.s_nssai)).push(opt_ie_seq(m.trace_information)).push(opt_ie_seq(m.recovery_time_stamp)).push(opt_ie_seq(m.cp_function_features)).push(opt_ie_seq(m.apn_dnn)).push(opt_ie_seq(m.user_plane_inactivity_timer)).push(opt_ie_seq(m.pfcpsm_req_flags)), ies_view(m.ies@), cls);
    }
    assert(m.slots() == Seq::<Seq<IeView>>::empty().push(seq![m.node_id@]).push(seq![m.fseid@]).push(ies_view(m.create_pdrs@)).push(ies_view(m.create_fars@)).push(ies_view(m.create_urrs@)).push(ies_view(m.create_qers@)).push(ies_view(m.create_bars@)).push(ies_view(m.create_traffic_endpoints@)).push(opt_ie_seq(m.pdn_type)).push(opt_ie_seq(m.user_id)).push(opt_ie_seq(m.s_nssai)).push(opt_ie_seq(m.trace_information)).push(opt_ie_seq(m.recovery_time_stamp)).push(opt_ie_seq(m.cp_function_features)).push(opt_ie_seq(m.apn_dnn)).push(opt_ie_seq(m.user_plane_inactivity_timer)).push(opt_ie_seq(m.pfcpsm_req_flags)).push(ies_view(m.ies@)));
}

/// When every IE is in the field named for its type, the IEs of each field's type
/// in that field are the whole field.
proof fn lemma_session_establishment_request_fields_of_their_type(m: SessionEstablishmentRequest)
    requires
        m.fields_hold_their_types(),
    ensures
        ies_of_type(seq![m.node_id@], IeType::NodeId) == seq![m.node_id@],
        ies_of_type(seq![m.fseid@], IeType::Fseid) == seq![m.fseid@],
        ies_of_type(ies_view(m.create_pdrs@), IeType::CreatePdr) == ies_view(m.create_pdrs@),
        ies_of_type(ies_view(m.create_fars@), IeType::CreateFar) == ies_view(m.create_fars@),
        ies_of_type(ies_view(m.create_urrs@), IeType::CreateUrr) == ies_view(m.create_urrs@),
        ies_of_type(ies_view(m.create_qers@), IeType::CreateQer) == ies_view(m.create_qers@),
        ies_of_type(ies_view(m.create_bars@), IeType::CreateBar) == ies_view(m.create_bars@),
        ies_of_type(ies_view(m.create_traffic_endpoints@), IeType::CreateTrafficEndpoint) == ies_view(m.create_traffic_endpoints@),
        ies_of_type(opt_ie_seq(m.pdn_type), IeType::PdnType) == opt_ie_seq(m.pdn_type),
        ies_of_type(opt_ie_seq(m.user_id), IeType::UserId) == opt_ie_seq(m.user_id),
        ies_of_type(opt_ie_seq(m.s_nssai), IeType::Snssai) == opt_ie_seq(m.s_nssai),
        ies_of_type(opt_ie_seq(m.trace_information), IeType::TraceInformation) == opt_ie_seq(m.trace_information),
        ies_of_type(opt_ie_seq(m.recovery_time_stamp), IeType::RecoveryTimeStamp) == opt_ie_seq(m.recovery_time_stamp),
        ies_of_type(opt_ie_seq(m.cp_function_features), IeType::CpFunctionFeatures) == opt_ie_seq(m.cp_function_features),
        ies_of_type(opt_ie_seq(m.apn_dnn), IeType::ApnDnn) == opt_ie_seq(m.apn_dnn),
        ies_of_type(opt_ie_seq(m.user_plane_inactivity_timer), IeType::UserPlaneInactivityTimer) == opt_ie_seq(m.user_plane_inactivity_timer),
        ies_of_type(opt_ie_seq(m.pfcpsm_req_flags), IeType::PfcpsmReqFlags) == opt_ie_seq(m.pfcpsm_req_flags),
{
    reveal(SessionEstablishmentRequest::fields_hold_their_types);
    assert(ies_of_type(seq![m.node_id@], IeType::NodeId) == seq![m.node_id@]) by {
        assert forall|k: int| 0 <= k < seq![m.node_id@].len() implies (#[trigger] seq![m.node_id@][k]).ie_type == IeType::NodeId by {
        }
        lemma_of_type_all(seq![m.node_id@], IeType::NodeId);
    }
    assert(ies_of_type(seq![m.fseid@], IeType::Fseid) == seq![m.fseid@]) by {
        assert forall|k: int| 0 <= k < seq![m.fseid@].len() implies (#[trigger] seq![m.fseid@][k]).ie_type == IeType::Fseid by {
        }
        lemma_of_type_all(seq![m.fseid@], IeType::Fseid);
    }
    assert(ies_of_type(ies_view(m.create_pdrs@), IeType::CreatePdr) == ies_view(m.create_pdrs@)) by {
        assert forall|k: int| 0 <= k < ies_view(m.create_pdrs@).len() implies (#[trigger] ies_view(m.create_pdrs@)[k]).ie_type == IeType::CreatePdr by {
            assert(ies_view(m.create_pdrs@)[k] == m.create_pdrs@[k]@);
        }
        lemma_of_type_all(ies_view(m.create_pdrs@), IeType::CreatePdr);
    }
    assert(ies_of_type(ies_view(m.create_fars@), IeType::CreateFar) == ies_view(m.create_fars@)) by {
        assert forall|k: int| 0 <= k < ies_view(m.create_fars@).len() implies (#[trigger] ies_view(m.create_fars@)[k]).ie_type == IeType::CreateFar by {
            assert(ies_view(m.create_fars@)[k] == m.create_fars@[k]@);
        }
        lemma_of_type_all(ies_view(m.create_fars@), IeType::CreateFar);
    }
    assert(ies_of_type(ies_view(m.create_urrs@), IeType::CreateUrr) == ies_view(m.create_urrs@)) by {
        assert forall|k: int| 0 <= k < ies_view(m.create_urrs@).len() implies (#[trigger] ies_view(m.create_urrs@)[k]).ie_type == IeType::CreateUrr by {
            assert(ies_view(m.create_urrs@)[k] == m.create_urrs@[k]@);
        }
        lemma_of_type_all(ies_view(m.create_urrs@), IeType::CreateUrr);
    }
    assert(ies_of_type(ies_view(m.create_qers@), IeType::CreateQer) == ies_view(m.create_qers@)) by {
        assert forall|k: int| 0 <= k < ies_view(m.create_qers@).len() implies (#[trigger] ies_view(m.create_qers@)[k]).ie_type == IeType::CreateQer by {
            assert(ies_view(m.create_qers@)[k] == m.create_qers@[k]@);
        }
        lemma_of_type_all(ies_view(m.create_qers@), IeType::CreateQer);
    }
    assert(ies_of_type(ies_view(m.create_bars@), IeType::CreateBar) == ies_view(m.create_bars@)) by {
        assert forall|k: int| 0 <= k < ies_view(m.create_bars@).len() implies (#[trigger] ies_view(m.create_bars@)[k]).ie_type == IeType::CreateBar by {
            assert(ies_view(m.create_bars@)[k] == m.create_bars@[k]@);
        }
        lemma_of_type_all(ies_view(m.create_bars@), IeType::CreateBar);
    }
    assert(ies_of_type(ies_view(m.create_traffic_endpoints@), IeType::CreateTrafficEndpoint) == ies_view(m.create_traffic_endpoints@)) by {
        assert forall|k: int| 0 <= k < ies_view(m.create_traffic_endpoints@).len() implies (#[trigger] ies_view(m.create_traffic_endpoints@)[k]).ie_type == IeType::CreateTrafficEndpoint by {
            assert(ies_view(m.create_traffic_endpoints@)[k] == m.create_traffic_endpoints@[k]@);
        }
        lemma_of_type_all(ies_view(m.create_traffic_endpoints@), IeType::CreateTrafficEndpoint);
    }
    assert(ies_of_type(opt_ie_seq(m.pdn_type), IeType::PdnType) == opt_ie_seq(m.pdn_type)) by {
        assert forall|k: int| 0 <= k < opt_ie_seq(m.pdn_type).len() implies (#[trigger] opt_ie_seq(m.pdn_type)[k]).ie_type == IeType::PdnType by {
        }
        lemma_of_type_all(opt_ie_seq(m.pdn_type), IeType::PdnType);
    }
    assert(ies_of_type(opt_ie_seq(m.user_id), IeType::UserId) == opt_ie_seq(m.user_id)) by {
        assert forall|k: int| 0 <= k < opt_ie_seq(m.user_id).len() implies (#[trigger] opt_ie_seq(m.user_id)[k]).ie_type == IeType::UserId by {
        }
        lemma_of_type_all(opt_ie_seq(m.user_id), IeType::UserId);
    }
    assert(ies_of_type(opt_ie_seq(m.s_nssai), IeType::Snssai) == opt_ie_seq(m.s_nssai)) by {
        assert forall|k: int| 0 <= k < opt_ie_seq(m.s_nssai).len() implies (#[trigger] opt_ie_seq(m.s_nssai)[k]).ie_type == IeType::Snssai by {
        }
        lemma_of_type_all(opt_ie_seq(m.s_nssai), IeType::Snssai);
    }
    assert(ies_of_type(opt_ie_seq(m.trace_information), IeType::TraceInformation) == opt_ie_seq(m.trace_information)) by {
        assert forall|k: int| 0 <= k < opt_ie_seq(m.trace_information).len() implies (#[trigger] opt_ie_seq(m.trace_information)[k]).ie_type == IeType::TraceInformation by {
        }
        lemma_of_type_all(opt_ie_seq(m.trace_information), IeType::TraceInformation);
    }
    assert(ies_of_type(opt_ie_seq(m.recovery_time_stamp), IeType::RecoveryTimeStamp) == opt_ie_seq(m.recovery_time_stamp)) by {
        assert forall|k: int| 0 <= k < opt_ie_seq(m.recovery_time_stamp).len() implies (#[trigger] opt_ie_seq(m.recovery_time_stamp)[k]).ie_type == IeType::RecoveryTimeStamp by {
        }
        lemma_of_type_all(opt_ie_seq(m.recovery_time_stamp), IeType::RecoveryTimeStamp);
    }
    assert(ies_of_type(opt_ie_seq(m.cp_function_features), IeType::CpFunctionFeatures) == opt_ie_seq(m.cp_function_features)) by {
        assert forall|k: int| 0 <= k < opt_ie_seq(m.cp_function_features).len() implies (#[trigger] opt_ie_seq(m.cp_function_features)[k]).ie_type == IeType::CpFunctionFeatures by {
        }
        lemma_of_type_all(opt_ie_seq(m.cp_function_features), IeType::CpFunctionFeatures);
    }
    assert(ies_of_type(opt_ie_seq(m.apn_dnn), IeType::ApnDnn) == opt_ie_seq(m.apn_dnn)) by {
        assert forall|k: int| 0 <= k < opt_ie_seq(m.apn_dnn).len() implies (#[trigger] opt_ie_seq(m.apn_dnn)[k]).ie_type == IeType::ApnDnn by {
        }
        lemma_of_type_all(opt_ie_seq(m.apn_dnn), IeType::ApnDnn);
    }
    assert(ies_of_type(opt_ie_seq(m.user_plane_inactivity_timer), IeType::UserPlaneInactivityTimer) == opt_ie_seq(m.user_plane_inactivity_timer)) by {
        assert forall|k: int| 0 <= k < opt_ie_seq(m.user_plane_inactivity_timer).len() implies (#[trigger] opt_ie_seq(m.user_plane_inactivity_timer)[k]).ie_type == IeType::UserPlaneInactivityTimer by {
        }
        lemma_of_type_all(opt_ie_seq(m.user_plane_inactivity_timer), IeType::UserPlaneInactivityTimer);
    }
    assert(ies_of_type(opt_ie_seq(m.pfcpsm_req_flags), IeType::PfcpsmReqFlags) == opt_ie_seq(m.pfcpsm_req_flags)) by {
        assert forall|k: int| 0 <= k < opt_ie_seq(m.pfcpsm_req_flags).len() implies (#[trigger] opt_ie_seq(m.pfcpsm_req_flags)[k]).ie_type == IeType::PfcpsmReqFlags by {
        }
        lemma_of_type_all(opt_ie_seq(m.pfcpsm_req_flags), IeType::PfcpsmReqFlags);
    }
}

/// Looking up the IEs of a type gives exactly the message's IEs of that type, in
/// wire order, when every IE is in the field named for its type.
#[verifier::spinoff_prover]
pub proof fn lemma_session_establishment_request_lookup_by_type(m: SessionEstablishmentRequest, t: IeType)
    requires
        m.fields_hold_their_types(),
    ensures
        m.spec_ies_of(t) == ies_of_type(m.spec_body(), t),
        forall|k: int| 0 <= k < m.spec_ies_of(t).len() ==> (#[trigger] m.spec_ies_of(t)[k]).ie_type == t,
{
    let cls = SessionEstablishmentRequest::classifier();
    lemma_session_establishment_request_fields_classified(m);
    lemma_of_type_classified(m.slots(), cls, t);
    lemma_session_establishment_request_fields_of_their_type(m);
    match t {
        IeType::NodeId => {
            assert(m.slots()[0] == seq![m.node_id@]);
        },
        IeType::Fseid => {
            assert(m.slots()[1] == seq![m.fseid@]);
        },
        IeType::CreatePdr => {
            assert(m.slots()[2] == ies_view(m.create_pdrs@));
        },
        IeType::CreateFar => {
            assert(m.slots()[3] == ies_view(m.create_fars@));
        },
        IeType::CreateUrr => {
            assert(m.slots()[4] == ies_view(m.create_urrs@));
        },
        IeType::CreateQer => {
            assert(m.slots()[5] == ies_view(m.create_qers@));
        },
        IeType::CreateBar => {
            assert(m.slots()[6] == ies_view(m.create_bars@));
        },
        IeType::CreateTrafficEndpoint => {
            assert(m.slots()[7] == ies_view(m.create_traffic_endpoints@));
        },
        IeType::PdnType => {
            assert(m.slots()[8] == opt_ie_seq(m.pdn_type));
        },
        IeType::UserId => {
            assert(m.slots()[9] == opt_ie_seq(m.user_id));
        },
        IeType::Snssai => {
            assert(m.slots()[10] == opt_ie_seq(m.s_nssai));
        },
        IeType::TraceInformation => {
            assert(m.slots()[11] == opt_ie_seq(m.trace_information));
        },
        IeType::RecoveryTimeStamp => {
            assert(m.slots()[12] == opt_ie_seq(m.recovery_time_stamp));
        },
        IeType::CpFunctionFeatures => {
            assert(m.slots()[13] == opt_ie_seq(m.cp_function_features));
        },
        IeType::ApnDnn => {
            assert(m.slots()[14] == opt_ie_seq(m.apn_dnn));
        },
        IeType::UserPlaneInactivityTimer => {
            assert(m.slots()[15] == opt_ie_seq(m.user_plane_inactivity_timer));
        },
        IeType::PfcpsmReqFlags => {
            assert(m.slots()[16] == opt_ie_seq(m.pfcpsm_req_flags));
        },
        _ => {
            assert(m.slots()[17] == ies_view(m.ies@));
        },
    }
    lemma_of_type_types(m.spec_body(), t);
}

} // verus!
