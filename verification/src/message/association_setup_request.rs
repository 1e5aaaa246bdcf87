//! Association Setup Request message (3GPP TS 29.244 clause 7.4.4.1).
use crate::error::PfcpError;
use crate::ie::{
    ie_refs_view, ies_of_type, ies_size, ies_view, ies_where, ies_wf, ies_wire, parse_ies, spec_parse_ies, Ie,
    IeType, IeView,
};
use crate::message::header::{
    header_size, header_wf, header_wire, lemma_header_roundtrip, lemma_header_wire_len, spec_parse_header, Header,
};
use crate::message::ie_iter::IeIter;
use crate::message::slots::{
    concat_slots, decode_slot, decode_slots, empty_buckets, last_ie, lemma_decode_concat, lemma_len_step,
    lemma_slot_ies_empty, lemma_slot_ies_push_all, len_slot_many, len_slot_one, len_slot_opt, list_slot_many,
    list_slot_one, list_slot_opt, opt_ie_seq, push_bucket, slot_ies, slots_typed, take_bucket, write_slot_many,
    write_slot_one, write_slot_opt, SlotKind, last_seq, lemma_classified_push, lemma_ies_of_type_is_where,
    lemma_ies_where_ext, lemma_of_type_all, lemma_of_type_classified, lemma_of_type_types, slot_pred,
    slots_classified,
};
use crate::message::{lemma_msg_type_code_roundtrip, lemma_parse_header_size, message_header, Message, MsgType};
use crate::ie::node_id::NodeId;
use crate::ie::recovery_time_stamp::RecoveryTimeStamp;
use vstd::prelude::*;

verus! {

/// A Association Setup Request message (3GPP TS 29.244 clause 7.4.4.1)
#[derive(Debug, Clone, PartialEq, Eq)]
pub struct AssociationSetupRequest {
    pub header: Header,
    pub node_id: Ie,
    pub recovery_time_stamp: Ie,
    pub up_function_features: Option<Ie>,
    pub cp_function_features: Option<Ie>,
    pub alternative_smf_ip_addresses: Vec<Ie>,
    pub smf_set_id: Option<Ie>,
    pub pfcp_session_retention_information: Option<Ie>,
    pub gtpu_path_qos_control_information: Vec<Ie>,
    pub nf_instance_id: Option<Ie>,
    pub pfcpas_req_flags: Option<Ie>,
    pub ies: Vec<Ie>,
}

impl AssociationSetupRequest {
    /// The slot that an IE of type `t` is read into.
    pub open spec fn slot_class(t: IeType) -> int {
        match t {
            IeType::NodeId => 0,
            IeType::RecoveryTimeStamp => 1,
            IeType::UpFunctionFeatures => 2,
            IeType::CpFunctionFeatures => 3,
            IeType::AlternativeSmfIpAddress => 4,
            IeType::SmfSetId => 5,
            IeType::PfcpSessionRetentionInformation => 6,
            IeType::GtpuPathQosControlInformation => 7,
            IeType::NfInstanceId => 8,
            IeType::PfcpasReqFlags => 9,
            _ => 10,
        }
    }

    /// The slot that an IE of type `t` is read into.
    fn classify(t: IeType) -> (r: usize)
        ensures
            r == Self::slot_class(t),
    {
        match t {
            IeType::NodeId => 0,
            IeType::RecoveryTimeStamp => 1,
            IeType::UpFunctionFeatures => 2,
            IeType::CpFunctionFeatures => 3,
            IeType::AlternativeSmfIpAddress => 4,
            IeType::SmfSetId => 5,
            IeType::PfcpSessionRetentionInformation => 6,
            IeType::GtpuPathQosControlInformation => 7,
            IeType::NfInstanceId => 8,
            IeType::PfcpasReqFlags => 9,
            _ => 10,
        }
    }

    /// `slot_class` as a function value.
    pub open spec fn classifier() -> spec_fn(IeType) -> int {
        |t: IeType| Self::slot_class(t)
    }

    /// How many IEs each slot keeps, in wire order.
    pub open spec fn slot_kinds() -> Seq<SlotKind> {
        seq![SlotKind::One, SlotKind::One, SlotKind::One, SlotKind::One, SlotKind::Many, SlotKind::One, SlotKind::One, SlotKind::Many, SlotKind::One, SlotKind::One, SlotKind::Many]
    }

    /// The IEs of each field, in wire order.
    pub open spec fn slots(&self) -> Seq<Seq<IeView>> {
        Seq::<Seq<IeView>>::empty().push(seq![self.node_id@]).push(seq![self.recovery_time_stamp@]).push(opt_ie_seq(self.up_function_features)).push(opt_ie_seq(self.cp_function_features)).push(ies_view(self.alternative_smf_ip_addresses@)).push(opt_ie_seq(self.smf_set_id)).push(opt_ie_seq(self.pfcp_session_retention_information)).push(ies_view(self.gtpu_path_qos_control_information@)).push(opt_ie_seq(self.nf_instance_id)).push(opt_ie_seq(self.pfcpas_req_flags)).push(ies_view(self.ies@))
    }

    /// The IEs in the order that `all_ies` lists them.
    pub open spec fn listed_ies(&self) -> Seq<IeView> {
        concat_slots(Seq::<Seq<IeView>>::empty().push(seq![self.node_id@]).push(seq![self.recovery_time_stamp@]).push(opt_ie_seq(self.up_function_features)).push(opt_ie_seq(self.cp_function_features)).push(ies_view(self.alternative_smf_ip_addresses@)).push(opt_ie_seq(self.smf_set_id)).push(opt_ie_seq(self.pfcp_session_retention_information)).push(ies_view(self.gtpu_path_qos_control_information@)).push(opt_ie_seq(self.nf_instance_id)).push(opt_ie_seq(self.pfcpas_req_flags)).push(ies_view(self.ies@)))
    }

    /// The first mandatory IE that `ies` lacks, checked in the order the decoder checks.
    pub open spec fn missing_ie(ies: Seq<IeView>) -> Option<IeType> {
        if decode_slot(ies, Self::classifier(), 0, SlotKind::One).len() == 0 {
            Some(IeType::NodeId)
        } else {
            if decode_slot(ies, Self::classifier(), 1, SlotKind::One).len() == 0 {
            Some(IeType::RecoveryTimeStamp)
        } else {
            None
        }
        }
    }

    /// The fields have a shape that decoding gives back: every IE is in the field for its type,
    /// mandatory lists are not empty and optional lists are present only when not empty.
    pub open spec fn fields_canonical(&self) -> bool {
        slots_typed(self.slots(), Self::classifier(), Self::slot_kinds())
    }

    /// A message that reads back as itself.
    pub open spec fn well_formed(&self) -> bool {
        header_wf(self.header) && ies_wf(concat_slots(self.slots())) && self.fields_canonical()
    }

    /// The wire form of the message: its header, then its IEs in wire order.
    pub open spec fn wire(&self) -> Seq<u8> {
        header_wire(self.header) + ies_wire(concat_slots(self.slots()))
    }

    /// Decoding `ies` gives these fields.
    pub open spec fn decodes_from(&self, ies: Seq<IeView>) -> bool {
        &&& seq![self.node_id@] == decode_slot(ies, Self::classifier(), 0, SlotKind::One)
        &&& seq![self.recovery_time_stamp@] == decode_slot(ies, Self::classifier(), 1, SlotKind::One)
        &&& opt_ie_seq(self.up_function_features) == decode_slot(ies, Self::classifier(), 2, SlotKind::One)
        &&& opt_ie_seq(self.cp_function_features) == decode_slot(ies, Self::classifier(), 3, SlotKind::One)
        &&& ies_view(self.alternative_smf_ip_addresses@) == decode_slot(ies, Self::classifier(), 4, SlotKind::Many)
        &&& opt_ie_seq(self.smf_set_id) == decode_slot(ies, Self::classifier(), 5, SlotKind::One)
        &&& opt_ie_seq(self.pfcp_session_retention_information) == decode_slot(ies, Self::classifier(), 6, SlotKind::One)
        &&& ies_view(self.gtpu_path_qos_control_information@) == decode_slot(ies, Self::classifier(), 7, SlotKind::Many)
        &&& opt_ie_seq(self.nf_instance_id) == decode_slot(ies, Self::classifier(), 8, SlotKind::One)
        &&& opt_ie_seq(self.pfcpas_req_flags) == decode_slot(ies, Self::classifier(), 9, SlotKind::One)
        &&& ies_view(self.ies@) == decode_slot(ies, Self::classifier(), 10, SlotKind::Many)
    }

    /// Assembles a message from its fields; the header length covers the fields' IEs.
    fn assemble(seq: u32, node_id: Ie, recovery_time_stamp: Ie, up_function_features: Option<Ie>, cp_function_features: Option<Ie>, alternative_smf_ip_addresses: Vec<Ie>, smf_set_id: Option<Ie>, pfcp_session_retention_information: Option<Ie>, gtpu_path_qos_control_information: Vec<Ie>, nf_instance_id: Option<Ie>, pfcpas_req_flags: Option<Ie>, ies: Vec<Ie>) -> (r: Self)
        ensures
            r.header == message_header(MsgType::AssociationSetupRequest, false, 0, seq, concat_slots(r.slots())),
            r.node_id == node_id,
            r.recovery_time_stamp == recovery_time_stamp,
            r.up_function_features == up_function_features,
            r.cp_function_features == cp_function_features,
            r.alternative_smf_ip_addresses == alternative_smf_ip_addresses,
            r.smf_set_id == smf_set_id,
            r.pfcp_session_retention_information == pfcp_session_retention_information,
            r.gtpu_path_qos_control_information == gtpu_path_qos_control_information,
            r.nf_instance_id == nf_instance_id,
            r.pfcpas_req_flags == pfcpas_req_flags,
            r.ies == ies,
    {
        let len: u16 = 0;
        let len = len_slot_one(len, &node_id, Ghost(Seq::<Seq<IeView>>::empty()));
        let len = len_slot_one(len, &recovery_time_stamp, Ghost(Seq::<Seq<IeView>>::empty().push(seq![node_id@])));
        let len = len_slot_opt(len, &up_function_features, Ghost(Seq::<Seq<IeView>>::empty().push(seq![node_id@]).push(seq![recovery_time_stamp@])));
        let len = len_slot_opt(len, &cp_function_features, Ghost(Seq::<Seq<IeView>>::empty().push(seq![node_id@]).push(seq![recovery_time_stamp@]).push(opt_ie_seq(up_function_features))));
        let len = len_slot_many(len, &alternative_smf_ip_addresses, Ghost(Seq::<Seq<IeView>>::empty().push(seq![node_id@]).push(seq![recovery_time_stamp@]).push(opt_ie_seq(up_function_features)).push(opt_ie_seq(cp_function_features))));
        let len = len_slot_opt(len, &smf_set_id, Ghost(Seq::<Seq<IeView>>::empty().push(seq![node_id@]).push(seq![recovery_time_stamp@]).push(opt_ie_seq(up_function_features)).push(opt_ie_seq(cp_function_features)).push(ies_view(alternative_smf_ip_addresses@))));
        let len = len_slot_opt(len, &pfcp_session_retention_information, Ghost(Seq::<Seq<IeView>>::empty().push(seq![node_id@]).push(seq![recovery_time_stamp@]).push(opt_ie_seq(up_function_features)).push(opt_ie_seq(cp_function_features)).push(ies_view(alternative_smf_ip_addresses@)).push(opt_ie_seq(smf_set_id))));
        let len = len_slot_many(len, &gtpu_path_qos_control_information, Ghost(Seq::<Seq<IeView>>::empty().push(seq![node_id@]).push(seq![recovery_time_stamp@]).push(opt_ie_seq(up_function_features)).push(opt_ie_seq(cp_function_features)).push(ies_view(alternative_smf_ip_addresses@)).push(opt_ie_seq(smf_set_id)).push(opt_ie_seq(pfcp_session_retention_information))));
        let len = len_slot_opt(len, &nf_instance_id, Ghost(Seq::<Seq<IeView>>::empty().push(seq![node_id@]).push(seq![recovery_time_stamp@]).push(opt_ie_seq(up_function_features)).push(opt_ie_seq(cp_function_features)).push(ies_view(alternative_smf_ip_addresses@)).push(opt_ie_seq(smf_set_id)).push(opt_ie_seq(pfcp_session_retention_information)).push(ies_view(gtpu_path_qos_control_information@))));
        let len = len_slot_opt(len, &pfcpas_req_flags, Ghost(Seq::<Seq<IeView>>::empty().push(seq![node_id@]).push(seq![recovery_time_stamp@]).push(opt_ie_seq(up_function_features)).push(opt_ie_seq(cp_function_features)).push(ies_view(alternative_smf_ip_addresses@)).push(opt_ie_seq(smf_set_id)).push(opt_ie_seq(pfcp_session_retention_information)).push(ies_view(gtpu_path_qos_control_information@)).push(opt_ie_seq(nf_instance_id))));
        let len = len_slot_many(len, &ies, Ghost(Seq::<Seq<IeView>>::empty().push(seq![node_id@]).push(seq![recovery_time_stamp@]).push(opt_ie_seq(up_function_features)).push(opt_ie_seq(cp_function_features)).push(ies_view(alternative_smf_ip_addresses@)).push(opt_ie_seq(smf_set_id)).push(opt_ie_seq(pfcp_session_retention_information)).push(ies_view(gtpu_path_qos_control_information@)).push(opt_ie_seq(nf_instance_id)).push(opt_ie_seq(pfcpas_req_flags))));
        let mut header = Header::new(MsgType::AssociationSetupRequest, false, 0, seq);
        proof { lemma_len_step(ies_size(concat_slots(Seq::<Seq<IeView>>::empty().push(seq![node_id@]).push(seq![recovery_time_stamp@]).push(opt_ie_seq(up_function_features)).push(opt_ie_seq(cp_function_features)).push(ies_view(alternative_smf_ip_addresses@)).push(opt_ie_seq(smf_set_id)).push(opt_ie_seq(pfcp_session_retention_information)).push(ies_view(gtpu_path_qos_control_information@)).push(opt_ie_seq(nf_instance_id)).push(opt_ie_seq(pfcpas_req_flags)).push(ies_view(ies@)))) as int, header_size(header) as int - 4, len as int); }
        header.length = ((len as u32 + header.len() as u32 - 4) % 65536) as u16;
        AssociationSetupRequest { header, node_id, recovery_time_stamp, up_function_features, cp_function_features, alternative_smf_ip_addresses, smf_set_id, pfcp_session_retention_information, gtpu_path_qos_control_information, nf_instance_id, pfcpas_req_flags, ies }
    }

    /// Creates a Association Setup Request message; the header length covers the given IEs.
    pub fn new(seq: u32, node_id: Ie, recovery_time_stamp: Ie, up_function_features: Option<Ie>, cp_function_features: Option<Ie>, alternative_smf_ip_addresses: Vec<Ie>, smf_set_id: Option<Ie>, pfcp_session_retention_information: Option<Ie>, gtpu_path_qos_control_information: Vec<Ie>, nf_instance_id: Option<Ie>, pfcpas_req_flags: Option<Ie>, ies: Vec<Ie>) -> (r: Self)
        ensures
            r.header == message_header(MsgType::AssociationSetupRequest, false, 0, seq, concat_slots(r.slots())),
            r.node_id == node_id,
            r.recovery_time_stamp == recovery_time_stamp,
            r.up_function_features == up_function_features,
            r.cp_function_features == cp_function_features,
            r.alternative_smf_ip_addresses == alternative_smf_ip_addresses,
            r.smf_set_id == smf_set_id,
            r.pfcp_session_retention_information == pfcp_session_retention_information,
            r.gtpu_path_qos_control_information == gtpu_path_qos_control_information,
            r.nf_instance_id == nf_instance_id,
            r.pfcpas_req_flags == pfcpas_req_flags,
            r.ies == ies,
    {
        Self::assemble(seq, node_id, recovery_time_stamp, up_function_features, cp_function_features, alternative_smf_ip_addresses, smf_set_id, pfcp_session_retention_information, gtpu_path_qos_control_information, nf_instance_id, pfcpas_req_flags, ies)
    }

}

impl Message for AssociationSetupRequest {
    open spec fn spec_header(&self) -> Header {
        self.header
    }

    open spec fn spec_body(&self) -> Seq<IeView> {
        concat_slots(self.slots())
    }

    open spec fn spec_listed(&self) -> Seq<IeView> {
        self.listed_ies()
    }

    open spec fn spec_ies_of(&self, t: IeType) -> Seq<IeView> {
        match t {
            IeType::NodeId => seq![self.node_id@],
            IeType::RecoveryTimeStamp => seq![self.recovery_time_stamp@],
            IeType::UpFunctionFeatures => opt_ie_seq(self.up_function_features),
            IeType::CpFunctionFeatures => opt_ie_seq(self.cp_function_features),
            IeType::AlternativeSmfIpAddress => ies_view(self.alternative_smf_ip_addresses@),
            IeType::SmfSetId => opt_ie_seq(self.smf_set_id),
            IeType::PfcpSessionRetentionInformation => opt_ie_seq(self.pfcp_session_retention_information),
            IeType::GtpuPathQosControlInformation => ies_view(self.gtpu_path_qos_control_information@),
            IeType::NfInstanceId => opt_ie_seq(self.nf_instance_id),
            IeType::PfcpasReqFlags => opt_ie_seq(self.pfcpas_req_flags),
            _ => crate::ie::ies_of_type(ies_view(self.ies@), t),
        }
    }

    open spec fn spec_msg_type(&self) -> MsgType {
        MsgType::AssociationSetupRequest
    }

    open spec fn spec_decode_error(data: Seq<u8>) -> Option<PfcpError> {
        match spec_parse_header(data) {
            Err(e) => Some(e),
            Ok(h) => match spec_parse_ies(data.skip(header_size(h) as int)) {
                Err(e) => Some(e),
                Ok(ies) => match Self::missing_ie(ies) {
                    Some(t) => Some(PfcpError::MissingMandatoryIe { ie_type: t, message_type: Some(MsgType::AssociationSetupRequest) }),
                    None => None,
                },
            },
        }
    }

    open spec fn spec_decoded(data: Seq<u8>, m: Self) -> bool {
        match spec_parse_header(data) {
            Err(_) => false,
            Ok(h) => match spec_parse_ies(data.skip(header_size(h) as int)) {
                Err(_) => false,
                Ok(ies) => m.header == h && m.decodes_from(ies),
            },
        }
    }

    fn marshal_into(&self, buf: &mut Vec<u8>) {
        self.header.marshal_into(buf);
        let ghost p = buf@;
        assert(buf@ =~= p + ies_wire(concat_slots(Seq::<Seq<IeView>>::empty())));
        write_slot_one(buf, &self.node_id, Ghost(p), Ghost(Seq::<Seq<IeView>>::empty()));
        write_slot_one(buf, &self.recovery_time_stamp, Ghost(p), Ghost(Seq::<Seq<IeView>>::empty().push(seq![self.node_id@])));
        write_slot_opt(buf, &self.up_function_features, Ghost(p), Ghost(Seq::<Seq<IeView>>::empty().push(seq![self.node_id@]).push(seq![self.recovery_time_stamp@])));
        write_slot_opt(buf, &self.cp_function_features, Ghost(p), Ghost(Seq::<Seq<IeView>>::empty().push(seq![self.node_id@]).push(seq![self.recovery_time_stamp@]).push(opt_ie_seq(self.up_function_features))));
        write_slot_many(buf, &self.alternative_smf_ip_addresses, Ghost(p), Ghost(Seq::<Seq<IeView>>::empty().push(seq![self.node_id@]).push(seq![self.recovery_time_stamp@]).push(opt_ie_seq(self.up_function_features)).push(opt_ie_seq(self.cp_function_features))));
        write_slot_opt(buf, &self.smf_set_id, Ghost(p), Ghost(Seq::<Seq<IeView>>::empty().push(seq![self.node_id@]).push(seq![self.recovery_time_stamp@]).push(opt_ie_seq(self.up_function_features)).push(opt_ie_seq(self.cp_function_features)).push(ies_view(self.alternative_smf_ip_addresses@))));
        write_slot_opt(buf, &self.pfcp_session_retention_information, Ghost(p), Ghost(Seq::<Seq<IeView>>::empty().push(seq![self.node_id@]).push(seq![self.recovery_time_stamp@]).push(opt_ie_seq(self.up_function_features)).push(opt_ie_seq(self.cp_function_features)).push(ies_view(self.alternative_smf_ip_addresses@)).push(opt_ie_seq(self.smf_set_id))));
        write_slot_many(buf, &self.gtpu_path_qos_control_information, Ghost(p), Ghost(Seq::<Seq<IeView>>::empty().push(seq![self.node_id@]).push(seq![self.recovery_time_stamp@]).push(opt_ie_seq(self.up_function_features)).push(opt_ie_seq(self.cp_function_features)).push(ies_view(self.alternative_smf_ip_addresses@)).push(opt_ie_seq(self.smf_set_id)).push(opt_ie_seq(self.pfcp_session_retention_information))));
        write_slot_opt(buf, &self.nf_instance_id, Ghost(p), Ghost(Seq::<Seq<IeView>>::empty().push(seq![self.node_id@]).push(seq![self.recovery_time_stamp@]).push(opt_ie_seq(self.up_function_features)).push(opt_ie_seq(self.cp_function_features)).push(ies_view(self.alternative_smf_ip_addresses@)).push(opt_ie_seq(self.smf_set_id)).push(opt_ie_seq(self.pfcp_session_retention_information)).push(ies_view(self.gtpu_path_qos_control_information@))));
        write_slot_opt(buf, &self.pfcpas_req_flags, Ghost(p), Ghost(Seq::<Seq<IeView>>::empty().push(seq![self.node_id@]).push(seq![self.recovery_time_stamp@]).push(opt_ie_seq(self.up_function_features)).push(opt_ie_seq(self.cp_function_features)).push(ies_view(self.alternative_smf_ip_addresses@)).push(opt_ie_seq(self.smf_set_id)).push(opt_ie_seq(self.pfcp_session_retention_information)).push(ies_view(self.gtpu_path_qos_control_information@)).push(opt_ie_seq(self.nf_instance_id))));
        write_slot_many(buf, &self.ies, Ghost(p), Ghost(Seq::<Seq<IeView>>::empty().push(seq![self.node_id@]).push(seq![self.recovery_time_stamp@]).push(opt_ie_seq(self.up_function_features)).push(opt_ie_seq(self.cp_function_features)).push(ies_view(self.alternative_smf_ip_addresses@)).push(opt_ie_seq(self.smf_set_id)).push(opt_ie_seq(self.pfcp_session_retention_information)).push(ies_view(self.gtpu_path_qos_control_information@)).push(opt_ie_seq(self.nf_instance_id)).push(opt_ie_seq(self.pfcpas_req_flags))));
        assert(buf@ =~= old(buf)@ + header_wire(self.header) + ies_wire(concat_slots(self.slots())));
    }

    fn marshal(&self) -> (r: Vec<u8>) {
        let mut buf: Vec<u8> = Vec::new();
        self.marshal_into(&mut buf);
        assert(buf@ =~= header_wire(self.header) + ies_wire(concat_slots(self.slots())));
        buf
    }

    fn marshaled_size(&self) -> (r: usize) {
        let v = self.marshal();
        v.len()
    }

    #[verifier::rlimit(60)]
    fn unmarshal(data: &[u8]) -> (r: Result<Self, PfcpError>) {
        let header = match Header::unmarshal(data) {
            Ok(h) => h,
            Err(e) => return Err(e),
        };
        proof { lemma_parse_header_size(data@); }
        let start = header.len() as usize;
        let mut all = match parse_ies(data, start) {
            Ok(v) => v,
            Err(e) => return Err(e),
        };
        let ghost parsed = ies_view(all@);
        let ghost cls = Self::classifier();
        let mut buckets = empty_buckets(12);
        proof {
            lemma_slot_ies_empty(cls);
            assert(parsed.take(0) =~= Seq::<IeView>::empty());
            assert forall|j: int| 0 <= j < 12 implies ies_view(#[trigger] buckets@[j]@) == slot_ies(parsed.take(0), cls, j) by {
                assert(ies_view(buckets@[j]@) =~= Seq::<IeView>::empty());
            }
        }
        let ghost mut done: int = 0;
        while all.len() > 0
            invariant
                0 <= done <= parsed.len(),
                ies_view(all@) == parsed.skip(done),
                cls == Self::classifier(),
                buckets@.len() == 12,
                forall|j: int| 0 <= j < 12 ==> ies_view(#[trigger] buckets@[j]@) == slot_ies(parsed.take(done), cls, j),
            decreases all@.len(),
        {
            let ghost old_all = all@;
            let ghost old_buckets = buckets@;
            let ie = all.remove(0);
            let ghost iev = ie@;
            proof {
                assert(ies_view(old_all).len() == old_all.len());
                assert(done < parsed.len());
                assert(ies_view(old_all)[0] == old_all[0]@);
                assert(parsed.skip(done)[0] == parsed[done]);
                assert(parsed[done] == iev);
                assert(parsed.take(done + 1) =~= parsed.take(done).push(iev));
                lemma_slot_ies_push_all(parsed.take(done), iev, cls);
                assert(all@ =~= old_all.skip(1));
                assert(ies_view(all@) =~= ies_view(old_all).skip(1));
                assert(parsed.skip(done).skip(1) =~= parsed.skip(done + 1));
            }
            let c = Self::classify(ie.ie_type);
            push_bucket(&mut buckets, c, ie);
            proof {
                assert forall|j: int| 0 <= j < 12 implies ies_view(#[trigger] buckets@[j]@) == slot_ies(parsed.take(done + 1), cls, j) by {
                    if j != c {
                        assert(buckets@[j] == old_buckets[j]);
                    }
                }
                done = done + 1;
            }
        }
        proof { assert(parsed.take(done) =~= parsed); }
        let ghost bs = buckets@;
        assert(ies_view(bs[0]@) == slot_ies(parsed, cls, 0));
        assert(ies_view(bs[1]@) == slot_ies(parsed, cls, 1));
        assert(ies_view(bs[2]@) == slot_ies(parsed, cls, 2));
        assert(ies_view(bs[3]@) == slot_ies(parsed, cls, 3));
        assert(ies_view(bs[4]@) == slot_ies(parsed, cls, 4));
        assert(ies_view(bs[5]@) == slot_ies(parsed, cls, 5));
        assert(ies_view(bs[6]@) == slot_ies(parsed, cls, 6));
        assert(ies_view(bs[7]@) == slot_ies(parsed, cls, 7));
        assert(ies_view(bs[8]@) == slot_ies(parsed, cls, 8));
        assert(ies_view(bs[9]@) == slot_ies(parsed, cls, 9));
        assert(ies_view(bs[10]@) == slot_ies(parsed, cls, 10));
        let slot0 = last_ie(take_bucket(&mut buckets, 0, Ghost(bs)));
        assert(opt_ie_seq(slot0) == decode_slot(parsed, cls, 0, SlotKind::One));
        let slot1 = last_ie(take_bucket(&mut buckets, 1, Ghost(bs)));
        assert(opt_ie_seq(slot1) == decode_slot(parsed, cls, 1, SlotKind::One));
        let slot2 = last_ie(take_bucket(&mut buckets, 2, Ghost(bs)));
        assert(opt_ie_seq(slot2) == decode_slot(parsed, cls, 2, SlotKind::One));
        let slot3 = last_ie(take_bucket(&mut buckets, 3, Ghost(bs)));
        assert(opt_ie_seq(slot3) == decode_slot(parsed, cls, 3, SlotKind::One));
        let slot4 = take_bucket(&mut buckets, 4, Ghost(bs));
        assert(ies_view(slot4@) == decode_slot(parsed, cls, 4, SlotKind::Many));
        let slot5 = last_ie(take_bucket(&mut buckets, 5, Ghost(bs)));
        assert(opt_ie_seq(slot5) == decode_slot(parsed, cls, 5, SlotKind::One));
        let slot6 = last_ie(take_bucket(&mut buckets, 6, Ghost(bs)));
        assert(opt_ie_seq(slot6) == decode_slot(parsed, cls, 6, SlotKind::One));
        let slot7 = take_bucket(&mut buckets, 7, Ghost(bs));
        assert(ies_view(slot7@) == decode_slot(parsed, cls, 7, SlotKind::Many));
        let slot8 = last_ie(take_bucket(&mut buckets, 8, Ghost(bs)));
        assert(opt_ie_seq(slot8) == decode_slot(parsed, cls, 8, SlotKind::One));
        let slot9 = last_ie(take_bucket(&mut buckets, 9, Ghost(bs)));
        assert(opt_ie_seq(slot9) == decode_slot(parsed, cls, 9, SlotKind::One));
        let slot10 = take_bucket(&mut buckets, 10, Ghost(bs));
        assert(ies_view(slot10@) == decode_slot(parsed, cls, 10, SlotKind::Many));
        if slot0.is_none() {
            return Err(PfcpError::MissingMandatoryIe { ie_type: IeType::NodeId, message_type: Some(MsgType::AssociationSetupRequest) });
        }
        if slot1.is_none() {
            return Err(PfcpError::MissingMandatoryIe { ie_type: IeType::RecoveryTimeStamp, message_type: Some(MsgType::AssociationSetupRequest) });
        }
        let node_id = match slot0 { Some(x) => x, None => return Err(PfcpError::MissingMandatoryIe { ie_type: IeType::NodeId, message_type: Some(MsgType::AssociationSetupRequest) }) };
        let recovery_time_stamp = match slot1 { Some(x) => x, None => return Err(PfcpError::MissingMandatoryIe { ie_type: IeType::RecoveryTimeStamp, message_type: Some(MsgType::AssociationSetupRequest) }) };
        let up_function_features = slot2;
        let cp_function_features = slot3;
        let alternative_smf_ip_addresses = slot4;
        let smf_set_id = slot5;
        let pfcp_session_retention_information = slot6;
        let gtpu_path_qos_control_information = slot7;
        let nf_instance_id = slot8;
        let pfcpas_req_flags = slot9;
        let ies = slot10;
        let r = AssociationSetupRequest { header, node_id, recovery_time_stamp, up_function_features, cp_function_features, alternative_smf_ip_addresses, smf_set_id, pfcp_session_retention_information, gtpu_path_qos_control_information, nf_instance_id, pfcpas_req_flags, ies };
        Ok(r)
    }

    fn msg_type(&self) -> (r: MsgType) {
        MsgType::AssociationSetupRequest
    }

    fn msg_name(&self) -> (r: String) {
        MsgType::AssociationSetupRequest.name().to_owned()
    }

    fn version(&self) -> (r: u8) {
        1
    }

    fn seid(&self) -> (r: Option<u64>) {
        if self.header.has_seid {
            Some(self.header.seid)
        } else {
            None
        }
    }

    fn sequence(&self) -> (r: u32) {
        self.header.sequence_number
    }

    fn set_sequence(&mut self, seq: u32) {
        self.header.sequence_number = seq;
    }

    fn ies(&self, ie_type: IeType) -> (r: IeIter<'_>) {
        match ie_type {
            IeType::NodeId => IeIter::single(Some(&self.node_id), ie_type),
            IeType::RecoveryTimeStamp => IeIter::single(Some(&self.recovery_time_stamp), ie_type),
            IeType::UpFunctionFeatures => match &self.up_function_features { Some(x) => IeIter::single(Some(x), ie_type), None => IeIter::single(None, ie_type) },
            IeType::CpFunctionFeatures => match &self.cp_function_features { Some(x) => IeIter::single(Some(x), ie_type), None => IeIter::single(None, ie_type) },
            IeType::AlternativeSmfIpAddress => IeIter::multiple(self.alternative_smf_ip_addresses.as_slice(), ie_type),
            IeType::SmfSetId => match &self.smf_set_id { Some(x) => IeIter::single(Some(x), ie_type), None => IeIter::single(None, ie_type) },
            IeType::PfcpSessionRetentionInformation => match &self.pfcp_session_retention_information { Some(x) => IeIter::single(Some(x), ie_type), None => IeIter::single(None, ie_type) },
            IeType::GtpuPathQosControlInformation => IeIter::multiple(self.gtpu_path_qos_control_information.as_slice(), ie_type),
            IeType::NfInstanceId => match &self.nf_instance_id { Some(x) => IeIter::single(Some(x), ie_type), None => IeIter::single(None, ie_type) },
            IeType::PfcpasReqFlags => match &self.pfcpas_req_flags { Some(x) => IeIter::single(Some(x), ie_type), None => IeIter::single(None, ie_type) },
            _ => IeIter::generic(self.ies.as_slice(), ie_type),
        }
    }

    fn find_ie(&self, ie_type: IeType) -> (r: Option<&Ie>) {
        let mut it = self.ies(ie_type);
        it.next()
    }

    fn find_all_ies(&self, ie_type: IeType) -> (r: Vec<&Ie>) {
        self.ies(ie_type).collect()
    }

    fn all_ies(&self) -> (r: Vec<&Ie>) {
        let mut out: Vec<&Ie> = Vec::new();
        assert(ie_refs_view(out@) =~= concat_slots(Seq::<Seq<IeView>>::empty()));
        list_slot_one(&mut out, &self.node_id, Ghost(Seq::<Seq<IeView>>::empty()));
        list_slot_one(&mut out, &self.recovery_time_stamp, Ghost(Seq::<Seq<IeView>>::empty().push(seq![self.node_id@])));
        list_slot_opt(&mut out, &self.up_function_features, Ghost(Seq::<Seq<IeView>>::empty().push(seq![self.node_id@]).push(seq![self.recovery_time_stamp@])));
        list_slot_opt(&mut out, &self.cp_function_features, Ghost(Seq::<Seq<IeView>>::empty().push(seq![self.node_id@]).push(seq![self.recovery_time_stamp@]).push(opt_ie_seq(self.up_function_features))));
        list_slot_many(&mut out, &self.alternative_smf_ip_addresses, Ghost(Seq::<Seq<IeView>>::empty().push(seq![self.node_id@]).push(seq![self.recovery_time_stamp@]).push(opt_ie_seq(self.up_function_features)).push(opt_ie_seq(self.cp_function_features))));
        list_slot_opt(&mut out, &self.smf_set_id, Ghost(Seq::<Seq<IeView>>::empty().push(seq![self.node_id@]).push(seq![self.recovery_time_stamp@]).push(opt_ie_seq(self.up_function_features)).push(opt_ie_seq(self.cp_function_features)).push(ies_view(self.alternative_smf_ip_addresses@))));
        list_slot_opt(&mut out, &self.pfcp_session_retention_information, Ghost(Seq::<Seq<IeView>>::empty().push(seq![self.node_id@]).push(seq![self.recovery_time_stamp@]).push(opt_ie_seq(self.up_function_features)).push(opt_ie_seq(self.cp_function_features)).push(ies_view(self.alternative_smf_ip_addresses@)).push(opt_ie_seq(self.smf_set_id))));
        list_slot_many(&mut out, &self.gtpu_path_qos_control_information, Ghost(Seq::<Seq<IeView>>::empty().push(seq![self.node_id@]).push(seq![self.recovery_time_stamp@]).push(opt_ie_seq(self.up_function_features)).push(opt_ie_seq(self.cp_function_features)).push(ies_view(self.alternative_smf_ip_addresses@)).push(opt_ie_seq(self.smf_set_id)).push(opt_ie_seq(self.pfcp_session_retention_information))));
        list_slot_opt(&mut out, &self.nf_instance_id, Ghost(Seq::<Seq<IeView>>::empty().push(seq![self.node_id@]).push(seq![self.recovery_time_stamp@]).push(opt_ie_seq(self.up_function_features)).push(opt_ie_seq(self.cp_function_features)).push(ies_view(self.alternative_smf_ip_addresses@)).push(opt_ie_seq(self.smf_set_id)).push(opt_ie_seq(self.pfcp_session_retention_information)).push(ies_view(self.gtpu_path_qos_control_information@))));
        list_slot_opt(&mut out, &self.pfcpas_req_flags, Ghost(Seq::<Seq<IeView>>::empty().push(seq![self.node_id@]).push(seq![self.recovery_time_stamp@]).push(opt_ie_seq(self.up_function_features)).push(opt_ie_seq(self.cp_function_features)).push(ies_view(self.alternative_smf_ip_addresses@)).push(opt_ie_seq(self.smf_set_id)).push(opt_ie_seq(self.pfcp_session_retention_information)).push(ies_view(self.gtpu_path_qos_control_information@)).push(opt_ie_seq(self.nf_instance_id))));
        list_slot_many(&mut out, &self.ies, Ghost(Seq::<Seq<IeView>>::empty().push(seq![self.node_id@]).push(seq![self.recovery_time_stamp@]).push(opt_ie_seq(self.up_function_features)).push(opt_ie_seq(self.cp_function_features)).push(ies_view(self.alternative_smf_ip_addresses@)).push(opt_ie_seq(self.smf_set_id)).push(opt_ie_seq(self.pfcp_session_retention_information)).push(ies_view(self.gtpu_path_qos_control_information@)).push(opt_ie_seq(self.nf_instance_id)).push(opt_ie_seq(self.pfcpas_req_flags))));
        out
    }
}

/// A well-formed AssociationSetupRequest reads back as itself: decoding its wire form gives its
/// header and fields.
pub proof fn lemma_association_setup_request_roundtrip(m: AssociationSetupRequest)
    requires
        m.well_formed(),
    ensures
        AssociationSetupRequest::spec_decode_error(m.wire()) is None,
        AssociationSetupRequest::spec_decoded(m.wire(), m),
{
    let body = concat_slots(m.slots());
    lemma_header_roundtrip(m.header, ies_wire(body));
    lemma_header_wire_len(m.header);
    assert((header_wire(m.header) + ies_wire(body)).skip(header_size(m.header) as int) =~= ies_wire(body));
    crate::ie::lemma_parse_ies_wire(body);
    lemma_decode_concat(m.slots(), AssociationSetupRequest::classifier(), AssociationSetupRequest::slot_kinds());
    assert(decode_slots(body, AssociationSetupRequest::classifier(), AssociationSetupRequest::slot_kinds()) == m.slots());
    assert(decode_slots(body, AssociationSetupRequest::classifier(), AssociationSetupRequest::slot_kinds())[0] == decode_slot(body, AssociationSetupRequest::classifier(), 0, SlotKind::One));
    assert(decode_slots(body, AssociationSetupRequest::classifier(), AssociationSetupRequest::slot_kinds())[1] == decode_slot(body, AssociationSetupRequest::classifier(), 1, SlotKind::One));
    assert(decode_slots(body, AssociationSetupRequest::classifier(), AssociationSetupRequest::slot_kinds())[2] == decode_slot(body, AssociationSetupRequest::classifier(), 2, SlotKind::One));
    assert(decode_slots(body, AssociationSetupRequest::classifier(), AssociationSetupRequest::slot_kinds())[3] == decode_slot(body, AssociationSetupRequest::classifier(), 3, SlotKind::One));
    assert(decode_slots(body, AssociationSetupRequest::classifier(), AssociationSetupRequest::slot_kinds())[4] == decode_slot(body, AssociationSetupRequest::classifier(), 4, SlotKind::Many));
    assert(decode_slots(body, AssociationSetupRequest::classifier(), AssociationSetupRequest::slot_kinds())[5] == decode_slot(body, AssociationSetupRequest::classifier(), 5, SlotKind::One));
    assert(decode_slots(body, AssociationSetupRequest::classifier(), AssociationSetupRequest::slot_kinds())[6] == decode_slot(body, AssociationSetupRequest::classifier(), 6, SlotKind::One));
    assert(decode_slots(body, AssociationSetupRequest::classifier(), AssociationSetupRequest::slot_kinds())[7] == decode_slot(body, AssociationSetupRequest::classifier(), 7, SlotKind::Many));
    assert(decode_slots(body, AssociationSetupRequest::classifier(), AssociationSetupRequest::slot_kinds())[8] == decode_slot(body, AssociationSetupRequest::classifier(), 8, SlotKind::One));
    assert(decode_slots(body, AssociationSetupRequest::classifier(), AssociationSetupRequest::slot_kinds())[9] == decode_slot(body, AssociationSetupRequest::classifier(), 9, SlotKind::One));
    assert(decode_slots(body, AssociationSetupRequest::classifier(), AssociationSetupRequest::slot_kinds())[10] == decode_slot(body, AssociationSetupRequest::classifier(), 10, SlotKind::Many));
    assert(m.slots()[0].len() > 0);
    assert(m.slots()[1].len() > 0);
}

/// Builder for AssociationSetupRequest messages.
#[derive(Debug)]
pub struct AssociationSetupRequestBuilder {
    pub sequence: u32,
    pub node_id: Option<Ie>,
    pub recovery_time_stamp: Option<Ie>,
    pub up_function_features: Option<Ie>,
    pub cp_function_features: Option<Ie>,
    pub alternative_smf_ip_addresses: Vec<Ie>,
    pub smf_set_id: Option<Ie>,
    pub pfcp_session_retention_information: Option<Ie>,
    pub gtpu_path_qos_control_information: Vec<Ie>,
    pub nf_instance_id: Option<Ie>,
    pub pfcpas_req_flags: Option<Ie>,
    pub ies: Vec<Ie>,
}

impl AssociationSetupRequestBuilder {
    /// The IEs of each field of the message this builder builds, in wire order.
    pub open spec fn built_slots(&self) -> Seq<Seq<IeView>> {
        Seq::<Seq<IeView>>::empty().push(seq![self.node_id.unwrap()@]).push(seq![self.recovery_time_stamp.unwrap()@]).push(opt_ie_seq(self.up_function_features)).push(opt_ie_seq(self.cp_function_features)).push(ies_view(self.alternative_smf_ip_addresses@)).push(opt_ie_seq(self.smf_set_id)).push(opt_ie_seq(self.pfcp_session_retention_information)).push(ies_view(self.gtpu_path_qos_control_information@)).push(opt_ie_seq(self.nf_instance_id)).push(opt_ie_seq(self.pfcpas_req_flags)).push(ies_view(self.ies@))
    }

    /// The header of the message this builder builds.
    pub open spec fn built_header(&self) -> Header {
        message_header(MsgType::AssociationSetupRequest, false, 0, self.sequence, concat_slots(self.built_slots()))
    }

    /// Creates a builder with no IEs set.
    pub fn new(sequence: u32) -> (r: Self)
        ensures
            r.sequence == sequence,
            r.node_id is None,
            r.recovery_time_stamp is None,
            r.up_function_features is None,
            r.cp_function_features is None,
            r.alternative_smf_ip_addresses@.len() == 0,
            r.smf_set_id is None,
            r.pfcp_session_retention_information is None,
            r.gtpu_path_qos_control_information@.len() == 0,
            r.nf_instance_id is None,
            r.pfcpas_req_flags is None,
            r.ies@.len() == 0,
    {
        AssociationSetupRequestBuilder { sequence, node_id: None, recovery_time_stamp: None, up_function_features: None, cp_function_features: None, alternative_smf_ip_addresses: Vec::new(), smf_set_id: None, pfcp_session_retention_information: None, gtpu_path_qos_control_information: Vec::new(), nf_instance_id: None, pfcpas_req_flags: None, ies: Vec::new() }
    }

    /// Sets the Node ID.
    pub fn node_id(self, node_id: NodeId) -> (r: Self)
        ensures
            r.node_id is Some,
            r.node_id.unwrap()@ == (IeView { ie_type: IeType::NodeId, payload: crate::ie::node_id::node_id_bytes(node_id@) }),
            r == (Self { node_id: r.node_id, ..self }),
    {
        let mut s = self;
        s.node_id = Some(node_id.to_ie());
        s
    }

    /// Sets the Node ID to a fully qualified domain name.
    pub fn node_id_fqdn(self, fqdn: &str) -> (r: Self)
        ensures
            r.node_id is Some,
            r.node_id.unwrap()@ == crate::ie::node_id::fqdn_node_id_ie(fqdn@),
            r == (Self { node_id: r.node_id, ..self }),
    {
        let mut s = self;
        let node = NodeId::new_fqdn(fqdn);
        s.node_id = Some(node.to_ie());
        s
    }

    /// Sets the node id IE.
    pub fn node_id_ie(self, ie: Ie) -> (r: Self)
        ensures
            r == (Self { node_id: Some(ie), ..self }),
    {
        let mut s = self;
        s.node_id = Some(ie);
        s
    }

    /// Sets the recovery time stamp from a point in time.
    pub fn recovery_time_stamp(self, timestamp: std::time::SystemTime) -> (r: Self)
        ensures
            r.recovery_time_stamp is Some,
            r.recovery_time_stamp.unwrap()@ == crate::ie::recovery_time_stamp::recovery_time_stamp_ie_view(crate::ie::recovery_time_stamp::unix_seconds_of(timestamp)),
            r == (Self { recovery_time_stamp: r.recovery_time_stamp, ..self }),
    {
        let mut s = self;
        let ts = RecoveryTimeStamp::new(timestamp);
        s.recovery_time_stamp = Some(ts.to_ie());
        s
    }

    /// Sets the recovery time stamp IE.
    pub fn recovery_time_stamp_ie(self, ie: Ie) -> (r: Self)
        ensures
            r == (Self { recovery_time_stamp: Some(ie), ..self }),
    {
        let mut s = self;
        s.recovery_time_stamp = Some(ie);
        s
    }

    /// Sets the up function features IE.
    pub fn up_function_features(self, ie: Ie) -> (r: Self)
        ensures
            r == (Self { up_function_features: Some(ie), ..self }),
    {
        let mut s = self;
        s.up_function_features = Some(ie);
        s
    }

    /// Sets the cp function features IE.
    pub fn cp_function_features(self, ie: Ie) -> (r: Self)
        ensures
            r == (Self { cp_function_features: Some(ie), ..self }),
    {
        let mut s = self;
        s.cp_function_features = Some(ie);
        s
    }

    /// Adds an alternative SMF IP address IE.
    pub fn alternative_smf_ip_address(self, ie: Ie) -> (r: Self)
        ensures
            r.alternative_smf_ip_addresses@ == self.alternative_smf_ip_addresses@.push(ie),
            r == (Self { alternative_smf_ip_addresses: r.alternative_smf_ip_addresses, ..self }),
    {
        let mut s = self;
        s.alternative_smf_ip_addresses.push(ie);
        s
    }

    /// Adds several alternative SMF IP address IEs.
    pub fn alternative_smf_ip_addresses(self, ies: Vec<Ie>) -> (r: Self)
        ensures
            r.alternative_smf_ip_addresses@ == self.alternative_smf_ip_addresses@ + ies@,
            r == (Self { alternative_smf_ip_addresses: r.alternative_smf_ip_addresses, ..self }),
    {
        let mut s = self;
        let mut v = ies;
        s.alternative_smf_ip_addresses.append(&mut v);
        s
    }

    /// Sets the smf set id IE.
    pub fn smf_set_id(self, ie: Ie) -> (r: Self)
        ensures
            r == (Self { smf_set_id: Some(ie), ..self }),
    {
        let mut s = self;
        s.smf_set_id = Some(ie);
        s
    }

    /// Sets the pfcp session retention information IE.
    pub fn pfcp_session_retention_information(self, ie: Ie) -> (r: Self)
        ensures
            r == (Self { pfcp_session_retention_information: Some(ie), ..self }),
    {
        let mut s = self;
        s.pfcp_session_retention_information = Some(ie);
        s
    }

    /// Adds a GTP-U path QoS control information IE.
    pub fn gtpu_path_qos_control_information(self, ie: Ie) -> (r: Self)
        ensures
            r.gtpu_path_qos_control_information@ == self.gtpu_path_qos_control_information@.push(ie),
            r == (Self { gtpu_path_qos_control_information: r.gtpu_path_qos_control_information, ..self }),
    {
        let mut s = self;
        s.gtpu_path_qos_control_information.push(ie);
        s
    }

    /// Sets the nf instance id IE.
    pub fn nf_instance_id(self, ie: Ie) -> (r: Self)
        ensures
            r == (Self { nf_instance_id: Some(ie), ..self }),
    {
        let mut s = self;
        s.nf_instance_id = Some(ie);
        s
    }

    /// Sets the pfcpas req flags IE.
    pub fn pfcpas_req_flags(self, ie: Ie) -> (r: Self)
        ensures
            r == (Self { pfcpas_req_flags: Some(ie), ..self }),
    {
        let mut s = self;
        s.pfcpas_req_flags = Some(ie);
        s
    }

    /// Adds an additional IE.
    pub fn ie(self, ie: Ie) -> (r: Self)
        ensures
            r.ies@ == self.ies@.push(ie),
            r == (Self { ies: r.ies, ..self }),
    {
        let mut s = self;
        s.ies.push(ie);
        s
    }

    /// Adds several additional IEs.
    pub fn ies(self, ies: Vec<Ie>) -> (r: Self)
        ensures
            r.ies@ == self.ies@ + ies@,
            r == (Self { ies: r.ies, ..self }),
    {
        let mut s = self;
        let mut v = ies;
        s.ies.append(&mut v);
        s
    }

    /// Builds the message. Every mandatory IE must have been set.
    pub fn build(self) -> (r: AssociationSetupRequest)
        requires
            self.node_id is Some,
            self.recovery_time_stamp is Some,
        ensures
            r.header == message_header(MsgType::AssociationSetupRequest, false, 0, self.sequence, concat_slots(r.slots())),
            r.node_id == self.node_id.unwrap(),
            r.recovery_time_stamp == self.recovery_time_stamp.unwrap(),
            r.up_function_features == self.up_function_features,
            r.cp_function_features == self.cp_function_features,
            r.alternative_smf_ip_addresses == self.alternative_smf_ip_addresses,
            r.smf_set_id == self.smf_set_id,
            r.pfcp_session_retention_information == self.pfcp_session_retention_information,
            r.gtpu_path_qos_control_information == self.gtpu_path_qos_control_information,
            r.nf_instance_id == self.nf_instance_id,
            r.pfcpas_req_flags == self.pfcpas_req_flags,
            r.ies == self.ies,
            r.slots() == self.built_slots(),
            r.header == self.built_header(),
    {
        let node_id = self.node_id.unwrap();
        let recovery_time_stamp = self.recovery_time_stamp.unwrap();
        AssociationSetupRequest::assemble(self.sequence, node_id, recovery_time_stamp, self.up_function_features, self.cp_function_features, self.alternative_smf_ip_addresses, self.smf_set_id, self.pfcp_session_retention_information, self.gtpu_path_qos_control_information, self.nf_instance_id, self.pfcpas_req_flags, self.ies)
    }

    /// Builds the message and serializes it. Every mandatory IE must have been set.
    pub fn marshal(self) -> (r: Vec<u8>)
        requires
            self.node_id is Some,
            self.recovery_time_stamp is Some,
        ensures
            r@ == header_wire(self.built_header()) + ies_wire(concat_slots(self.built_slots())),
    {
        let msg = self.build();
        msg.marshal()
    }

    /// Builds the message, or says which mandatory IE is missing.
    pub fn try_build(self) -> (r: Result<AssociationSetupRequest, &'static str>)
        ensures
            self.node_id is None ==> r is Err && r->Err_0@ == "Node ID IE is required for AssociationSetupRequest"@,
            self.node_id is Some && self.recovery_time_stamp is None ==> r is Err && r->Err_0@ == "Recovery Time Stamp IE is required for AssociationSetupRequest"@,
            self.node_id is Some && self.recovery_time_stamp is Some ==> r is Ok,
            r matches Ok(r) ==> {
                r.header == message_header(MsgType::AssociationSetupRequest, false, 0, self.sequence, concat_slots(r.slots())) &&
                r.node_id == self.node_id.unwrap() &&
                r.recovery_time_stamp == self.recovery_time_stamp.unwrap() &&
                r.up_function_features == self.up_function_features &&
                r.cp_function_features == self.cp_function_features &&
                r.alternative_smf_ip_addresses == self.alternative_smf_ip_addresses &&
                r.smf_set_id == self.smf_set_id &&
                r.pfcp_session_retention_information == self.pfcp_session_retention_information &&
                r.gtpu_path_qos_control_information == self.gtpu_path_qos_control_information &&
                r.nf_instance_id == self.nf_instance_id &&
                r.pfcpas_req_flags == self.pfcpas_req_flags &&
                r.ies == self.ies &&
                r.slots() == self.built_slots() &&
                r.header == self.built_header() &&
                true
            },
    {
        let node_id = match self.node_id {
            Some(x) => x,
            None => return Err("Node ID IE is required for AssociationSetupRequest"),
        };
        let recovery_time_stamp = match self.recovery_time_stamp {
            Some(x) => x,
            None => return Err("Recovery Time Stamp IE is required for AssociationSetupRequest"),
        };
        Ok(AssociationSetupRequest::assemble(self.sequence, node_id, recovery_time_stamp, self.up_function_features, self.cp_function_features, self.alternative_smf_ip_addresses, self.smf_set_id, self.pfcp_session_retention_information, self.gtpu_path_qos_control_information, self.nf_instance_id, self.pfcpas_req_flags, self.ies))
    }

}

/// Decoding what a AssociationSetupRequest builder writes fails exactly when a mandatory IE is
/// missing from the IEs it was given, and a message decoded from it has the builder's
/// header, and so its sequence number; when every IE stands in the field for its type,
/// the decoded message has the builder's IEs in each field. This holds when the
/// sequence number fits the header's 24 bits and every IE fits its length field.
#[verifier::spinoff_prover]
pub proof fn lemma_association_setup_request_builder_roundtrip(b: AssociationSetupRequestBuilder)
    requires
        b.sequence < 16777216,
        ies_wf(concat_slots(b.built_slots())),
    ensures
        AssociationSetupRequest::spec_decode_error(header_wire(b.built_header()) + ies_wire(concat_slots(b.built_slots()))) == (match AssociationSetupRequest::missing_ie(concat_slots(b.built_slots())) {
            Some(t) => Some(PfcpError::MissingMandatoryIe { ie_type: t, message_type: Some(MsgType::AssociationSetupRequest) }),
            None => None::<PfcpError>,
        }),
        forall|m: AssociationSetupRequest|
            #[trigger] AssociationSetupRequest::spec_decoded(header_wire(b.built_header()) + ies_wire(concat_slots(b.built_slots())), m) ==> m.header == b.built_header()
                && m.header.sequence_number == b.sequence,
        slots_typed(b.built_slots(), AssociationSetupRequest::classifier(), AssociationSetupRequest::slot_kinds()) ==> forall|m: AssociationSetupRequest|
            #[trigger] AssociationSetupRequest::spec_decoded(header_wire(b.built_header()) + ies_wire(concat_slots(b.built_slots())), m) ==> m.slots() == b.built_slots(),
{
    let h = b.built_header();
    let ss = b.built_slots();
    let body = concat_slots(ss);
    lemma_msg_type_code_roundtrip(MsgType::AssociationSetupRequest);
    assert(header_wf(h));
    lemma_header_roundtrip(h, ies_wire(body));
    lemma_header_wire_len(h);
    assert((header_wire(h) + ies_wire(body)).skip(header_size(h) as int) =~= ies_wire(body));
    crate::ie::lemma_parse_ies_wire(body);
    if slots_typed(ss, AssociationSetupRequest::classifier(), AssociationSetupRequest::slot_kinds()) {
        lemma_decode_concat(ss, AssociationSetupRequest::classifier(), AssociationSetupRequest::slot_kinds());
        assert(decode_slots(body, AssociationSetupRequest::classifier(), AssociationSetupRequest::slot_kinds()) == ss);
        assert(decode_slots(body, AssociationSetupRequest::classifier(), AssociationSetupRequest::slot_kinds())[0] == decode_slot(body, AssociationSetupRequest::classifier(), 0, SlotKind::One));
        assert(decode_slots(body, AssociationSetupRequest::classifier(), AssociationSetupRequest::slot_kinds())[1] == decode_slot(body, AssociationSetupRequest::classifier(), 1, SlotKind::One));
        assert(decode_slots(body, AssociationSetupRequest::classifier(), AssociationSetupRequest::slot_kinds())[2] == decode_slot(body, AssociationSetupRequest::classifier(), 2, SlotKind::One));
        assert(decode_slots(body, AssociationSetupRequest::classifier(), AssociationSetupRequest::slot_kinds())[3] == decode_slot(body, AssociationSetupRequest::classifier(), 3, SlotKind::One));
        assert(decode_slots(body, AssociationSetupRequest::classifier(), AssociationSetupRequest::slot_kinds())[4] == decode_slot(body, AssociationSetupRequest::classifier(), 4, SlotKind::Many));
        assert(decode_slots(body, AssociationSetupRequest::classifier(), AssociationSetupRequest::slot_kinds())[5] == decode_slot(body, AssociationSetupRequest::classifier(), 5, SlotKind::One));
        assert(decode_slots(body, AssociationSetupRequest::classifier(), AssociationSetupRequest::slot_kinds())[6] == decode_slot(body, AssociationSetupRequest::classifier(), 6, SlotKind::One));
        assert(decode_slots(body, AssociationSetupRequest::classifier(), AssociationSetupRequest::slot_kinds())[7] == decode_slot(body, AssociationSetupRequest::classifier(), 7, SlotKind::Many));
        assert(decode_slots(body, AssociationSetupRequest::classifier(), AssociationSetupRequest::slot_kinds())[8] == decode_slot(body, AssociationSetupRequest::classifier(), 8, SlotKind::One));
        assert(decode_slots(body, AssociationSetupRequest::classifier(), AssociationSetupRequest::slot_kinds())[9] == decode_slot(body, AssociationSetupRequest::classifier(), 9, SlotKind::One));
        assert(decode_slots(body, AssociationSetupRequest::classifier(), AssociationSetupRequest::slot_kinds())[10] == decode_slot(body, AssociationSetupRequest::classifier(), 10, SlotKind::Many));
        assert forall|m: AssociationSetupRequest| #[trigger] AssociationSetupRequest::spec_decoded(header_wire(b.built_header()) + ies_wire(concat_slots(b.built_slots())), m) implies m.slots() == ss by {
            assert(m.slots() =~= ss);
        }
    }
}

impl AssociationSetupRequest {
    /// Every IE is in the field named for its type, and the additional IEs are of
    /// no type that has a field of its own.
    #[verifier::opaque]
    pub open spec fn fields_hold_their_types(&self) -> bool {
        &&& self.node_id.ie_type == IeType::NodeId
        &&& self.recovery_time_stamp.ie_type == IeType::RecoveryTimeStamp
        &&& (self.up_function_features matches Some(x) ==> x.ie_type == IeType::UpFunctionFeatures)
        &&& (self.cp_function_features matches Some(x) ==> x.ie_type == IeType::CpFunctionFeatures)
        &&& forall|i: int| 0 <= i < self.alternative_smf_ip_addresses@.len() ==> (#[trigger] self.alternative_smf_ip_addresses@[i]).ie_type == IeType::AlternativeSmfIpAddress
        &&& (self.smf_set_id matches Some(x) ==> x.ie_type == IeType::SmfSetId)
        &&& (self.pfcp_session_retention_information matches Some(x) ==> x.ie_type == IeType::PfcpSessionRetentionInformation)
        &&& forall|i: int| 0 <= i < self.gtpu_path_qos_control_information@.len() ==> (#[trigger] self.gtpu_path_qos_control_information@[i]).ie_type == IeType::GtpuPathQosControlInformation
        &&& (self.nf_instance_id matches Some(x) ==> x.ie_type == IeType::NfInstanceId)
        &&& (self.pfcpas_req_flags matches Some(x) ==> x.ie_type == IeType::PfcpasReqFlags)
        &&& forall|i: int| 0 <= i < self.ies@.len() ==> {
            let t = (#[trigger] self.ies@[i]).ie_type;
            t != IeType::NodeId && t != IeType::RecoveryTimeStamp && t != IeType::UpFunctionFeatures && t != IeType::CpFunctionFeatures && t != IeType::AlternativeSmfIpAddress && t != IeType::SmfSetId && t != IeType::PfcpSessionRetentionInformation && t != IeType::GtpuPathQosControlInformation && t != IeType::NfInstanceId && t != IeType::PfcpasReqFlags
        }
    }
}

/// Decoding puts every IE of the body into the field named for its IE type: a
/// field for one IE holds the last IE of its type, a list holds all IEs of its
/// type in wire order, and the additional IEs are the IEs of the other types, in
/// wire order.
#[verifier::spinoff_prover]
pub proof fn lemma_association_setup_request_decoded_by_type(data: Seq<u8>, m: AssociationSetupRequest)
    requires
        AssociationSetupRequest::spec_decoded(data, m),
    ensures
        spec_parse_ies(data.skip(header_size(m.header) as int)) is Ok,
        ({
            let body = spec_parse_ies(data.skip(header_size(m.header) as int))->Ok_0;
            &&& ies_of_type(body, IeType::NodeId).len() > 0 && m.node_id@ == ies_of_type(body, IeType::NodeId).last()
            &&& ies_of_type(body, IeType::RecoveryTimeStamp).len() > 0 && m.recovery_time_stamp@ == ies_of_type(body, IeType::RecoveryTimeStamp).last()
            &&& (ies_of_type(body, IeType::UpFunctionFeatures).len() == 0 ==> m.up_function_features is None)
            &&& (ies_of_type(body, IeType::UpFunctionFeatures).len() > 0 ==> (m.up_function_features matches Some(x) && x@ == ies_of_type(body, IeType::UpFunctionFeatures).last()))
            &&& (ies_of_type(body, IeType::CpFunctionFeatures).len() == 0 ==> m.cp_function_features is None)
            &&& (ies_of_type(body, IeType::CpFunctionFeatures).len() > 0 ==> (m.cp_function_features matches Some(x) && x@ == ies_of_type(body, IeType::CpFunctionFeatures).last()))
            &&& ies_view(m.alternative_smf_ip_addresses@) == ies_of_type(body, IeType::AlternativeSmfIpAddress)
            &&& (ies_of_type(body, IeType::SmfSetId).len() == 0 ==> m.smf_set_id is None)
            &&& (ies_of_type(body, IeType::SmfSetId).len() > 0 ==> (m.smf_set_id matches Some(x) && x@ == ies_of_type(body, IeType::SmfSetId).last()))
            &&& (ies_of_type(body, IeType::PfcpSessionRetentionInformation).len() == 0 ==> m.pfcp_session_retention_information is None)
            &&& (ies_of_type(body, IeType::PfcpSessionRetentionInformation).len() > 0 ==> (m.pfcp_session_retention_information matches Some(x) && x@ == ies_of_type(body, IeType::PfcpSessionRetentionInformation).last()))
            &&& ies_view(m.gtpu_path_qos_control_information@) == ies_of_type(body, IeType::GtpuPathQosControlInformation)
            &&& (ies_of_type(body, IeType::NfInstanceId).len() == 0 ==> m.nf_instance_id is None)
            &&& (ies_of_type(body, IeType::NfInstanceId).len() > 0 ==> (m.nf_instance_id matches Some(x) && x@ == ies_of_type(body, IeType::NfInstanceId).last()))
            &&& (ies_of_type(body, IeType::PfcpasReqFlags).len() == 0 ==> m.pfcpas_req_flags is None)
            &&& (ies_of_type(body, IeType::PfcpasReqFlags).len() > 0 ==> (m.pfcpas_req_flags matches Some(x) && x@ == ies_of_type(body, IeType::PfcpasReqFlags).last()))
            &&& ies_view(m.ies@) == ies_where(body, |t: IeType| t != IeType::NodeId && t != IeType::RecoveryTimeStamp && t != IeType::UpFunctionFeatures && t != IeType::CpFunctionFeatures && t != IeType::AlternativeSmfIpAddress && t != IeType::SmfSetId && t != IeType::PfcpSessionRetentionInformation && t != IeType::GtpuPathQosControlInformation && t != IeType::NfInstanceId && t != IeType::PfcpasReqFlags)
            &&& true
        }),
{
    if let Ok(h) = spec_parse_header(data) {
        let body = spec_parse_ies(data.skip(header_size(h) as int))->Ok_0;
        let cls = AssociationSetupRequest::classifier();
        assert(ies_of_type(body, IeType::NodeId).len() > 0 && m.node_id@ == ies_of_type(body, IeType::NodeId).last()) by {
            assert forall|x: IeType| #[trigger] slot_pred(cls, 0)(x) == (x == IeType::NodeId) by {}
            lemma_ies_where_ext(body, slot_pred(cls, 0), |x: IeType| x == IeType::NodeId);
            lemma_ies_of_type_is_where(body, IeType::NodeId);
            assert(decode_slot(body, cls, 0, SlotKind::One) == last_seq(ies_of_type(body, IeType::NodeId)));
            assert(seq![m.node_id@][0] == m.node_id@);
        }
        assert(ies_of_type(body, IeType::RecoveryTimeStamp).len() > 0 && m.recovery_time_stamp@ == ies_of_type(body, IeType::RecoveryTimeStamp).last()) by {
            assert forall|x: IeType| #[trigger] slot_pred(cls, 1)(x) == (x == IeType::RecoveryTimeStamp) by {}
            lemma_ies_where_ext(body, slot_pred(cls, 1), |x: IeType| x == IeType::RecoveryTimeStamp);
            lemma_ies_of_type_is_where(body, IeType::RecoveryTimeStamp);
            assert(decode_slot(body, cls, 1, SlotKind::One) == last_seq(ies_of_type(body, IeType::RecoveryTimeStamp)));
            assert(seq![m.recovery_time_stamp@][0] == m.recovery_time_stamp@);
        }
        assert((ies_of_type(body, IeType::UpFunctionFeatures).len() == 0 ==> m.up_function_features is None) && (ies_of_type(body, IeType::UpFunctionFeatures).len() > 0 ==> (m.up_function_features matches Some(x) && x@ == ies_of_type(body, IeType::UpFunctionFeatures).last()))) by {
            assert forall|x: IeType| #[trigger] slot_pred(cls, 2)(x) == (x == IeType::UpFunctionFeatures) by {}
            lemma_ies_where_ext(body, slot_pred(cls, 2), |x: IeType| x == IeType::UpFunctionFeatures);
            lemma_ies_of_type_is_where(body, IeType::UpFunctionFeatures);
            assert(decode_slot(body, cls, 2, SlotKind::One) == last_seq(ies_of_type(body, IeType::UpFunctionFeatures)));
            if ies_of_type(body, IeType::UpFunctionFeatures).len() > 0 { assert(opt_ie_seq(m.up_function_features)[0] == ies_of_type(body, IeType::UpFunctionFeatures).last()); }
        }
        assert((ies_of_type(body, IeType::CpFunctionFeatures).len() == 0 ==> m.cp_function_features is None) && (ies_of_type(body, IeType::CpFunctionFeatures).len() > 0 ==> (m.cp_function_features matches Some(x) && x@ == ies_of_type(body, IeType::CpFunctionFeatures).last()))) by {
            assert forall|x: IeType| #[trigger] slot_pred(cls, 3)(x) == (x == IeType::CpFunctionFeatures) by {}
            lemma_ies_where_ext(body, slot_pred(cls, 3), |x: IeType| x == IeType::CpFunctionFeatures);
            lemma_ies_of_type_is_where(body, IeType::CpFunctionFeatures);
            assert(decode_slot(body, cls, 3, SlotKind::One) == last_seq(ies_of_type(body, IeType::CpFunctionFeatures)));
            if ies_of_type(body, IeType::CpFunctionFeatures).len() > 0 { assert(opt_ie_seq(m.cp_function_features)[0] == ies_of_type(body, IeType::CpFunctionFeatures).last()); }
        }
        assert(ies_view(m.alternative_smf_ip_addresses@) == ies_of_type(body, IeType::AlternativeSmfIpAddress)) by {
            assert forall|x: IeType| #[trigger] slot_pred(cls, 4)(x) == (x == IeType::AlternativeSmfIpAddress) by {}
            lemma_ies_where_ext(body, slot_pred(cls, 4), |x: IeType| x == IeType::AlternativeSmfIpAddress);
            lemma_ies_of_type_is_where(body, IeType::AlternativeSmfIpAddress);
        }
        assert((ies_of_type(body, IeType::SmfSetId).len() == 0 ==> m.smf_set_id is None) && (ies_of_type(body, IeType::SmfSetId).len() > 0 ==> (m.smf_set_id matches Some(x) && x@ == ies_of_type(body, IeType::SmfSetId).last()))) by {
            assert forall|x: IeType| #[trigger] slot_pred(cls, 5)(x) == (x == IeType::SmfSetId) by {}
            lemma_ies_where_ext(body, slot_pred(cls, 5), |x: IeType| x == IeType::SmfSetId);
            lemma_ies_of_type_is_where(body, IeType::SmfSetId);
            assert(decode_slot(body, cls, 5, SlotKind::One) == last_seq(ies_of_type(body, IeType::SmfSetId)));
            if ies_of_type(body, IeType::SmfSetId).len() > 0 { assert(opt_ie_seq(m.smf_set_id)[0] == ies_of_type(body, IeType::SmfSetId).last()); }
        }
        assert((ies_of_type(body, IeType::PfcpSessionRetentionInformation).len() == 0 ==> m.pfcp_session_retention_information is None) && (ies_of_type(body, IeType::PfcpSessionRetentionInformation).len() > 0 ==> (m.pfcp_session_retention_information matches Some(x) && x@ == ies_of_type(body, IeType::PfcpSessionRetentionInformation).last()))) by {
            assert forall|x: IeType| #[trigger] slot_pred(cls, 6)(x) == (x == IeType::PfcpSessionRetentionInformation) by {}
            lemma_ies_where_ext(body, slot_pred(cls, 6), |x: IeType| x == IeType::PfcpSessionRetentionInformation);
            lemma_ies_of_type_is_where(body, IeType::PfcpSessionRetentionInformation);
            assert(decode_slot(body, cls, 6, SlotKind::One) == last_seq(ies_of_type(body, IeType::PfcpSessionRetentionInformation)));
            if ies_of_type(body, IeType::PfcpSessionRetentionInformation).len() > 0 { assert(opt_ie_seq(m.pfcp_session_retention_information)[0] == ies_of_type(body, IeType::PfcpSessionRetentionInformation).last()); }
        }
        assert(ies_view(m.gtpu_path_qos_control_information@) == ies_of_type(body, IeType::GtpuPathQosControlInformation)) by {
            assert forall|x: IeType| #[trigger] slot_pred(cls, 7)(x) == (x == IeType::GtpuPathQosControlInformation) by {}
            lemma_ies_where_ext(body, slot_pred(cls, 7), |x: IeType| x == IeType::GtpuPathQosControlInformation);
            lemma_ies_of_type_is_where(body, IeType::GtpuPathQosControlInformation);
        }
        assert((ies_of_type(body, IeType::NfInstanceId).len() == 0 ==> m.nf_instance_id is None) && (ies_of_type(body, IeType::NfInstanceId).len() > 0 ==> (m.nf_instance_id matches Some(x) && x@ == ies_of_type(body, IeType::NfInstanceId).last()))) by {
            assert forall|x: IeType| #[trigger] slot_pred(cls, 8)(x) == (x == IeType::NfInstanceId) by {}
            lemma_ies_where_ext(body, slot_pred(cls, 8), |x: IeType| x == IeType::NfInstanceId);
            lemma_ies_of_type_is_where(body, IeType::NfInstanceId);
            assert(decode_slot(body, cls, 8, SlotKind::One) == last_seq(ies_of_type(body, IeType::NfInstanceId)));
            if ies_of_type(body, IeType::NfInstanceId).len() > 0 { assert(opt_ie_seq(m.nf_instance_id)[0] == ies_of_type(body, IeType::NfInstanceId).last()); }
        }
        assert((ies_of_type(body, IeType::PfcpasReqFlags).len() == 0 ==> m.pfcpas_req_flags is None) && (ies_of_type(body, IeType::PfcpasReqFlags).len() > 0 ==> (m.pfcpas_req_flags matches Some(x) && x@ == ies_of_type(body, IeType::PfcpasReqFlags).last()))) by {
            assert forall|x: IeType| #[trigger] slot_pred(cls, 9)(x) == (x == IeType::PfcpasReqFlags) by {}
            lemma_ies_where_ext(body, slot_pred(cls, 9), |x: IeType| x == IeType::PfcpasReqFlags);
            lemma_ies_of_type_is_where(body, IeType::PfcpasReqFlags);
            assert(decode_slot(body, cls, 9, SlotKind::One) == last_seq(ies_of_type(body, IeType::PfcpasReqFlags)));
            if ies_of_type(body, IeType::PfcpasReqFlags).len() > 0 { assert(opt_ie_seq(m.pfcpas_req_flags)[0] == ies_of_type(body, IeType::PfcpasReqFlags).last()); }
        }
        assert(ies_view(m.ies@) == ies_where(body, |t: IeType| t != IeType::NodeId && t != IeType::RecoveryTimeStamp && t != IeType::UpFunctionFeatures && t != IeType::CpFunctionFeatures && t != IeType::AlternativeSmfIpAddress && t != IeType::SmfSetId && t != IeType::PfcpSessionRetentionInformation && t != IeType::GtpuPathQosControlInformation && t != IeType::NfInstanceId && t != IeType::PfcpasReqFlags)) by {
            assert forall|t: IeType| #[trigger] slot_pred(cls, 10)(t) == (t != IeType::NodeId && t != IeType::RecoveryTimeStamp && t != IeType::UpFunctionFeatures && t != IeType::CpFunctionFeatures && t != IeType::AlternativeSmfIpAddress && t != IeType::SmfSetId && t != IeType::PfcpSessionRetentionInformation && t != IeType::GtpuPathQosControlInformation && t != IeType::NfInstanceId && t != IeType::PfcpasReqFlags) by {}
            lemma_ies_where_ext(body, slot_pred(cls, 10), |t: IeType| t != IeType::NodeId && t != IeType::RecoveryTimeStamp && t != IeType::UpFunctionFeatures && t != IeType::CpFunctionFeatures && t != IeType::AlternativeSmfIpAddress && t != IeType::SmfSetId && t != IeType::PfcpSessionRetentionInformation && t != IeType::GtpuPathQosControlInformation && t != IeType::NfInstanceId && t != IeType::PfcpasReqFlags);
        }
    }
}

/// When every IE is in the field named for its type, every IE sits in the slot
/// that decoding assigns its type to.
proof fn lemma_association_setup_request_fields_classified(m: AssociationSetupRequest)
    requires
        m.fields_hold_their_types(),
    ensures
        slots_classified(m.slots(), AssociationSetupRequest::classifier()),
{
    reveal(AssociationSetupRequest::fields_hold_their_types);
    let cls = AssociationSetupRequest::classifier();
    assert(slots_classified(Seq::<Seq<IeView>>::empty(), cls));
    assert(slots_classified(Seq::<Seq<IeView>>::empty().push(seq![m.node_id@]), cls)) by {
        assert forall|k: int| 0 <= k < seq![m.node_id@].len() implies cls(#[trigger] seq![m.node_id@][k].ie_type) == 0 by {
        }
        lemma_classified_push(Seq::<Seq<IeView>>::empty(), seq![m.node_id@], cls);
    }
    assert(slots_classified(Seq::<Seq<IeView>>::empty().push(seq![m.node_id@]).push(seq![m.recovery_time_stamp@]), cls)) by {
        assert forall|k: int| 0 <= k < seq![m.recovery_time_stamp@].len() implies cls(#[trigger] seq![m.recovery_time_stamp@][k].ie_type) == 1 by {
        }
        lemma_classified_push(Seq::<Seq<IeView>>::empty().push(seq![m.node_id@]), seq![m.recovery_time_stamp@], cls);
    }
    assert(slots_classified(Seq::<Seq<IeView>>::empty().push(seq![m.node_id@]).push(seq![m.recovery_time_stamp@]).push(opt_ie_seq(m.up_function_features)), cls)) by {
        assert forall|k: int| 0 <= k < opt_ie_seq(m.up_function_features).len() implies cls(#[trigger] opt_ie_seq(m.up_function_features)[k].ie_type) == 2 by {
        }
        lemma_classified_push(Seq::<Seq<IeView>>::empty().push(seq![m.node_id@]).push(seq![m.recovery_time_stamp@]), opt_ie_seq(m.up_function_features), cls);
    }
    assert(slots_classified(Seq::<Seq<IeView>>::empty().push(seq![m.node_id@]).push(seq![m.recovery_time_stamp@]).push(opt_ie_seq(m.up_function_features)).push(opt_ie_seq(m.cp_function_features)), cls)) by {
        assert forall|k: int| 0 <= k < opt_ie_seq(m.cp_function_features).len() implies cls(#[trigger] opt_ie_seq(m.cp_function_features)[k].ie_type) == 3 by {
        }
        lemma_classified_push(Seq::<Seq<IeView>>::empty().push(seq![m.node_id@]).push(seq![m.recovery_time_stamp@]).push(opt_ie_seq(m.up_function_features)), opt_ie_seq(m.cp_function_features), cls);
    }
    assert(slots_classified(Seq::<Seq<IeView>>::empty().push(seq![m.node_id@]).push(seq![m.recovery_time_stamp@]).push(opt_ie_seq(m.up_function_features)).push(opt_ie_seq(m.cp_function_features)).push(ies_view(m.alternative_smf_ip_addresses@)), cls)) by {
        assert forall|k: int| 0 <= k < ies_view(m.alternative_smf_ip_addresses@).len() implies cls(#[trigger] ies_view(m.alternative_smf_ip_addresses@)[k].ie_type) == 4 by {
            assert(ies_view(m.alternative_smf_ip_addresses@)[k] == m.alternative_smf_ip_addresses@[k]@);
        }
        lemma_classified_push(Seq::<Seq<IeView>>::empty().push(seq![m.node_id@]).push(seq![m.recovery_time_stamp@]).push(opt_ie_seq(m.up_function_features)).push(opt_ie_seq(m.cp_function_features)), ies_view(m.alternative_smf_ip_addresses@), cls);
    }
    assert(slots_classified(Seq::<Seq<IeView>>::empty().push(seq![m.node_id@]).push(seq![m.recovery_time_stamp@]).push(opt_ie_seq(m.up_function_features)).push(opt_ie_seq(m.cp_function_features)).push(ies_view(m.alternative_smf_ip_addresses@)).push(opt_ie_seq(m.smf_set_id)), cls)) by {
        assert forall|k: int| 0 <= k < opt_ie_seq(m.smf_set_id).len() implies cls(#[trigger] opt_ie_seq(m.smf_set_id)[k].ie_type) == 5 by {
        }
        lemma_classified_push(Seq::<Seq<IeView>>::empty().push(seq![m.node_id@]).push(seq![m.recovery_time_stamp@]).push(opt_ie_seq(m.up_function_features)).push(opt_ie_seq(m.cp_function_features)).push(ies_view(m.alternative_smf_ip_addresses@)), opt_ie_seq(m.smf_set_id), cls);
    }
    assert(slots_classified(Seq::<Seq<IeView>>::empty().push(seq![m.node_id@]).push(seq![m.recovery_time_stamp@]).push(opt_ie_seq(m.up_function_features)).push(opt_ie_seq(m.cp_function_features)).push(ies_view(m.alternative_smf_ip_addresses@)).push(opt_ie_seq(m.smf_set_id)).push(opt_ie_seq(m.pfcp_session_retention_information)), cls)) by {
        assert forall|k: int| 0 <= k < opt_ie_seq(m.pfcp_session_retention_information).len() implies cls(#[trigger] opt_ie_seq(m.pfcp_session_retention_information)[k].ie_type) == 6 by {
        }
        lemma_classified_push(Seq::<Seq<IeView>>::empty().push(seq![m.node_id@]).push(seq![m.recovery_time_stamp@]).push(opt_ie_seq(m.up_function_features)).push(opt_ie_seq(m.cp_function_features)).push(ies_view(m.alternative_smf_ip_addresses@)).push(opt_ie_seq(m.smf_set_id)), opt_ie_seq(m.pfcp_session_retention_information), cls);
    }
    assert(slots_classified(Seq::<Seq<IeView>>::empty().push(seq![m.node_id@]).push(seq![m.recovery_time_stamp@]).push(opt_ie_seq(m.up_function_features)).push(opt_ie_seq(m.cp_function_features)).push(ies_view(m.alternative_smf_ip_addresses@)).push(opt_ie_seq(m.smf_set_id)).push(opt_ie_seq(m.pfcp_session_retention_information)).push(ies_view(m.gtpu_path_qos_control_information@)), cls)) by {
        assert forall|k: int| 0 <= k < ies_view(m.gtpu_path_qos_control_information@).len() implies cls(#[trigger] ies_view(m.gtpu_path_qos_control_information@)[k].ie_type) == 7 by {
            assert(ies_view(m.gtpu_path_qos_control_information@)[k] == m.gtpu_path_qos_control_information@[k]@);
        }
        lemma_classified_push(Seq::<Seq<IeView>>::empty().push(seq![m.node_id@]).push(seq![m.recovery_time_stamp@]).push(opt_ie_seq(m.up_function_features)).push(opt_ie_seq(m.cp_function_features)).push(ies_view(m.alternative_smf_ip_addresses@)).push(opt_ie_seq(m.smf_set_id)).push(opt_ie_seq(m.pfcp_session_retention_information)), ies_view(m.gtpu_path_qos_control_information@), cls);
    }
    assert(slots_classified(Seq::<Seq<IeView>>::empty().push(seq![m.node_id@]).push(seq![m.recovery_time_stamp@]).push(opt_ie_seq(m.up_function_features)).push(opt_ie_seq(m.cp_function_features)).push(ies_view(m.alternative_smf_ip_addresses@)).push(opt_ie_seq(m.smf_set_id)).push(opt_ie_seq(m.pfcp_session_retention_information)).push(ies_view(m.gtpu_path_qos_control_information@)).push(opt_ie_seq(m.nf_instance_id)), cls)) by {
        assert forall|k: int| 0 <= k < opt_ie_seq(m.nf_instance_id).len() implies cls(#[trigger] opt_ie_seq(m.nf_instance_id)[k].ie_type) == 8 by {
        }
        lemma_classified_push(Seq::<Seq<IeView>>::empty().push(seq![m.node_id@]).push(seq![m.recovery_time_stamp@]).push(opt_ie_seq(m.up_function_features)).push(opt_ie_seq(m.cp_function_features)).push(ies_view(m.alternative_smf_ip_addresses@)).push(opt_ie_seq(m.smf_set_id)).push(opt_ie_seq(m.pfcp_session_retention_information)).push(ies_view(m.gtpu_path_qos_control_information@)), opt_ie_seq(m.nf_instance_id), cls);
    }
    assert(slots_classified(Seq::<Seq<IeView>>::empty().push(seq![m.node_id@]).push(seq![m.recovery_time_stamp@]).push(opt_ie_seq(m.up_function_features)).push(opt_ie_seq(m.cp_function_features)).push(ies_view(m.alternative_smf_ip_addresses@)).push(opt_ie_seq(m.smf_set_id)).push(opt_ie_seq(m.pfcp_session_retention_information)).push(ies_view(m.gtpu_path_qos_control_information@)).push(opt_ie_seq(m.nf_instance_id)).push(opt_ie_seq(m.pfcpas_req_flags)), cls)) by {
        assert forall|k: int| 0 <= k < opt_ie_seq(m.pfcpas_req_flags).len() implies cls(#[trigger] opt_ie_seq(m.pfcpas_req_flags)[k].ie_type) == 9 by {
        }
        lemma_classified_push(Seq::<Seq<IeView>>::empty().push(seq![m.node_id@]).push(seq![m.recovery_time_stamp@]).push(opt_ie_seq(m.up_function_features)).push(opt_ie_seq(m.cp_function_features)).push(ies_view(m.alternative_smf_ip_addresses@)).push(opt_ie_seq(m.smf_set_id)).push(opt_ie_seq(m.pfcp_session_retention_information)).push(ies_view(m.gtpu_path_qos_control_information@)).push(opt_ie_seq(m.nf_instance_id)), opt_ie_seq(m.pfcpas_req_flags), cls);
    }
    assert(slots_classified(Seq::<Seq<IeView>>::empty().push(seq![m.node_id@]).push(seq![m.recovery_time_stamp@]).push(opt_ie_seq(m.up_function_features)).push(opt_ie_seq(m.cp_function_features)).push(ies_view(m.alternative_smf_ip_addresses@)).push(opt_ie_seq(m.smf_set_id)).push(opt_ie_seq(m.pfcp_session_retention_information)).push(ies_view(m.gtpu_path_qos_control_information@)).push(opt_ie_seq(m.nf_instance_id)).push(opt_ie_seq(m.pfcpas_req_flags)).push(ies_view(m.ies@)), cls)) by {
        assert forall|k: int| 0 <= k < ies_view(m.ies@).len() implies cls(#[trigger] ies_view(m.ies@)[k].ie_type) == 10 by {
            assert(ies_view(m.ies@)[k] == m.ies@[k]@);
        }
        lemma_classified_push(Seq::<Seq<IeView>>::empty().push(seq![m.node_id@]).push(seq![m.recovery_time_stamp@]).push(opt_ie_seq(m.up_function_features)).push(opt_ie_seq(m.cp_function_features)).push(ies_view(m.alternative_smf_ip_addresses@)).push(opt_ie_seq(m.smf_set_id)).push(opt_ie_seq(m.pfcp_session_retention_information)).push(ies_view(m.gtpu_path_qos_control_information@)).push(opt_ie_seq(m.nf_instance_id)).push(opt_ie_seq(m.pfcpas_req_flags)), ies_view(m.ies@), cls);
    }
    assert(m.slots() == Seq::<Seq<IeView>>::empty().push(seq![m.node_id@]).push(seq![m.recovery_time_stamp@]).push(opt_ie_seq(m.up_function_features)).push(opt_ie_seq(m.cp_function_features)).push(ies_view(m.alternative_smf_ip_addresses@)).push(opt_ie_seq(m.smf_set_id)).push(opt_ie_seq(m.pfcp_session_retention_information)).push(ies_view(m.gtpu_path_qos_control_information@)).push(opt_ie_seq(m.nf_instance_id)).push(opt_ie_seq(m.pfcpas_req_flags)).push(ies_view(m.ies@)));
}

/// When every IE is in the field named for its type, the IEs of each field's type
/// in that field are the whole field.
proof fn lemma_association_setup_request_fields_of_their_type(m: AssociationSetupRequest)
    requires
        m.fields_hold_their_types(),
    ensures
        ies_of_type(seq![m.node_id@], IeType::NodeId) == seq![m.node_id@],
        ies_of_type(seq![m.recovery_time_stamp@], IeType::RecoveryTimeStamp) == seq![m.recovery_time_stamp@],
        ies_of_type(opt_ie_seq(m.up_function_features), IeType::UpFunctionFeatures) == opt_ie_seq(m.up_function_features),
        ies_of_type(opt_ie_seq(m.cp_function_features), IeType::CpFunctionFeatures) == opt_ie_seq(m.cp_function_features),
        ies_of_type(ies_view(m.alternative_smf_ip_addresses@), IeType::AlternativeSmfIpAddress) == ies_view(m.alternative_smf_ip_addresses@),
        ies_of_type(opt_ie_seq(m.smf_set_id), IeType::SmfSetId) == opt_ie_seq(m.smf_set_id),
        ies_of_type(opt_ie_seq(m.pfcp_session_retention_information), IeType::PfcpSessionRetentionInformation) == opt_ie_seq(m.pfcp_session_retention_information),
        ies_of_type(ies_view(m.gtpu_path_qos_control_information@), IeType::GtpuPathQosControlInformation) == ies_view(m.gtpu_path_qos_control_information@),
        ies_of_type(opt_ie_seq(m.nf_instance_id), IeType::NfInstanceId) == opt_ie_seq(m.nf_instance_id),
        ies_of_type(opt_ie_seq(m.pfcpas_req_flags), IeType::PfcpasReqFlags) == opt_ie_seq(m.pfcpas_req_flags),
{
    reveal(AssociationSetupRequest::fields_hold_their_types);
    assert(ies_of_type(seq![m.node_id@], IeType::NodeId) == seq![m.node_id@]) by {
        assert forall|k: int| 0 <= k < seq![m.node_id@].len() implies (#[trigger] seq![m.node_id@][k]).ie_type == IeType::NodeId by {
        }
        lemma_of_type_all(seq![m.node_id@], IeType::NodeId);
    }
    assert(ies_of_type(seq![m.recovery_time_stamp@], IeType::RecoveryTimeStamp) == seq![m.recovery_time_stamp@]) by {
        assert forall|k: int| 0 <= k < seq![m.recovery_time_stamp@].len() implies (#[trigger] seq![m.recovery_time_stamp@][k]).ie_type == IeType::RecoveryTimeStamp by {
        }
        lemma_of_type_all(seq![m.recovery_time_stamp@], IeType::RecoveryTimeStamp);
    }
    assert(ies_of_type(opt_ie_seq(m.up_function_features), IeType::UpFunctionFeatures) == opt_ie_seq(m.up_function_features)) by {
        assert forall|k: int| 0 <= k < opt_ie_seq(m.up_function_features).len() implies (#[trigger] opt_ie_seq(m.up_function_features)[k]).ie_type == IeType::UpFunctionFeatures by {
        }
        lemma_of_type_all(opt_ie_seq(m.up_function_features), IeType::UpFunctionFeatures);
    }
    assert(ies_of_type(opt_ie_seq(m.cp_function_features), IeType::CpFunctionFeatures) == opt_ie_seq(m.cp_function_features)) by {
        assert forall|k: int| 0 <= k < opt_ie_seq(m.cp_function_features).len() implies (#[trigger] opt_ie_seq(m.cp_function_features)[k]).ie_type == IeType::CpFunctionFeatures by {
        }
        lemma_of_type_all(opt_ie_seq(m.cp_function_features), IeType::CpFunctionFeatures);
    }
    assert(ies_of_type(ies_view(m.alternative_smf_ip_addresses@), IeType::AlternativeSmfIpAddress) == ies_view(m.alternative_smf_ip_addresses@)) by {
        assert forall|k: int| 0 <= k < ies_view(m.alternative_smf_ip_addresses@).len() implies (#[trigger] ies_view(m.alternative_smf_ip_addresses@)[k]).ie_type == IeType::AlternativeSmfIpAddress by {
            assert(ies_view(m.alternative_smf_ip_addresses@)[k] == m.alternative_smf_ip_addresses@[k]@);
        }
        lemma_of_type_all(ies_view(m.alternative_smf_ip_addresses@), IeType::AlternativeSmfIpAddress);
    }
    assert(ies_of_type(opt_ie_seq(m.smf_set_id), IeType::SmfSetId) == opt_ie_seq(m.smf_set_id)) by {
        assert forall|k: int| 0 <= k < opt_ie_seq(m.smf_set_id).len() implies (#[trigger] opt_ie_seq(m.smf_set_id)[k]).ie_type == IeType::SmfSetId by {
        }
        lemma_of_type_all(opt_ie_seq(m.smf_set_id), IeType::SmfSetId);
    }
    assert(ies_of_type(opt_ie_seq(m.pfcp_session_retention_information), IeType::PfcpSessionRetentionInformation) == opt_ie_seq(m.pfcp_session_retention_information)) by {
        assert forall|k: int| 0 <= k < opt_ie_seq(m.pfcp_session_retention_information).len() implies (#[trigger] opt_ie_seq(m.pfcp_session_retention_information)[k]).ie_type == IeType::PfcpSessionRetentionInformation by {
        }
        lemma_of_type_all(opt_ie_seq(m.pfcp_session_retention_information), IeType::PfcpSessionRetentionInformation);
    }
    assert(ies_of_type(ies_view(m.gtpu_path_qos_control_information@), IeType::GtpuPathQosControlInformation) == ies_view(m.gtpu_path_qos_control_information@)) by {
        assert forall|k: int| 0 <= k < ies_view(m.gtpu_path_qos_control_information@).len() implies (#[trigger] ies_view(m.gtpu_path_qos_control_information@)[k]).ie_type == IeType::GtpuPathQosControlInformation by {
            assert(ies_view(m.gtpu_path_qos_control_information@)[k] == m.gtpu_path_qos_control_information@[k]@);
        }
        lemma_of_type_all(ies_view(m.gtpu_path_qos_control_information@), IeType::GtpuPathQosControlInformation);
    }
    assert(ies_of_type(opt_ie_seq(m.nf_instance_id), IeType::NfInstanceId) == opt_ie_seq(m.nf_instance_id)) by {
        assert forall|k: int| 0 <= k < opt_ie_seq(m.nf_instance_id).len() implies (#[trigger] opt_ie_seq(m.nf_instance_id)[k]).ie_type == IeType::NfInstanceId by {
        }
        lemma_of_type_all(opt_ie_seq(m.nf_instance_id), IeType::NfInstanceId);
    }
    assert(ies_of_type(opt_ie_seq(m.pfcpas_req_flags), IeType::PfcpasReqFlags) == opt_ie_seq(m.pfcpas_req_flags)) by {
        assert forall|k: int| 0 <= k < opt_ie_seq(m.pfcpas_req_flags).len() implies (#[trigger] opt_ie_seq(m.pfcpas_req_flags)[k]).ie_type == IeType::PfcpasReqFlags by {
        }
        lemma_of_type_all(opt_ie_seq(m.pfcpas_req_flags), IeType::PfcpasReqFlags);
    }
}

/// Looking up the IEs of a type gives exactly the message's IEs of that type, in
/// wire order, when every IE is in the field named for its type.
#[verifier::spinoff_prover]
pub proof fn lemma_association_setup_request_lookup_by_type(m: AssociationSetupRequest, t: IeType)
    requires
        m.fields_hold_their_types(),
    ensures
        m.spec_ies_of(t) == ies_of_type(m.spec_body(), t),
        forall|k: int| 0 <= k < m.spec_ies_of(t).len() ==> (#[trigger] m.spec_ies_of(t)[k]).ie_type == t,
{
    let cls = AssociationSetupRequest::classifier();
    lemma_association_setup_request_fields_classified(m);
    lemma_of_type_classified(m.slots(), cls, t);
    lemma_association_setup_request_fields_of_their_type(m);
    match t {
        IeType::NodeId => {
            assert(m.slots()[0] == seq![m.node_id@]);
        },
        IeType::RecoveryTimeStamp => {
            assert(m.slots()[1] == seq![m.recovery_time_stamp@]);
        },
        IeType::UpFunctionFeatures => {
            assert(m.slots()[2] == opt_ie_seq(m.up_function_features));
        },
        IeType::CpFunctionFeatures => {
            assert(m.slots()[3] == opt_ie_seq(m.cp_function_features));
        },
        IeType::AlternativeSmfIpAddress => {
            assert(m.slots()[4] == ies_view(m.alternative_smf_ip_addresses@));
        },
        IeType::SmfSetId => {
            assert(m.slots()[5] == opt_ie_seq(m.smf_set_id));
        },
        IeType::PfcpSessionRetentionInformation => {
            assert(m.slots()[6] == opt_ie_seq(m.pfcp_session_retention_information));
        },
        IeType::GtpuPathQosControlInformation => {
            assert(m.slots()[7] == ies_view(m.gtpu_path_qos_control_information@));
        },
        IeType::NfInstanceId => {
            assert(m.slots()[8] == opt_ie_seq(m.nf_instance_id));
        },
        IeType::PfcpasReqFlags => {
            assert(m.slots()[9] == opt_ie_seq(m.pfcpas_req_flags));
        },
        _ => {
            assert(m.slots()[10] == ies_view(m.ies@));
        },
    }
    lemma_of_type_types(m.spec_body(), t);
}

} // verus!
