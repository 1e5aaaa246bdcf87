//! Association Setup Response message (3GPP TS 29.244 clause 7.4.4.2).
use crate::error::PfcpError;
use crate::ie::{
    ie_refs_view, ies_of_type, ies_size, ies_view, ies_where, ies_wf, ies_wire, parse_ies, spec_parse_ies, Ie,
    IeType, IeView,
};
use crate::message::header::{
    header_size, header_wf, header_wire, lemma_header_roundtrip, lemma_header_wire_len, spec_parse_header, Header,
};
use crate::message::ie_iter::IeIter;
use crate::message::slots::{
    concat_slots, decode_slot, decode_slots, empty_buckets, last_ie, lemma_decode_concat, lemma_len_step,
    lemma_slot_ies_empty, lemma_slot_ies_push_all, len_slot_many, len_slot_one, len_slot_opt, list_slot_many,
    list_slot_one, list_slot_opt, opt_ie_seq, push_bucket, slot_ies, slots_typed, take_bucket, write_slot_many,
    write_slot_one, write_slot_opt, SlotKind, last_seq, lemma_classified_push, lemma_ies_of_type_is_where,
    lemma_ies_where_ext, lemma_of_type_all, lemma_of_type_classified, lemma_of_type_types, slot_pred,
    slots_classified,
};
use crate::message::{lemma_msg_type_code_roundtrip, lemma_parse_header_size, message_header, Message, MsgType};
use crate::ie::cause::{Cause, CauseValue};
use crate::ie::node_id::NodeId;
use crate::ie::recovery_time_stamp::RecoveryTimeStamp;
use vstd::prelude::*;

verus! {

/// A Association Setup Response message (3GPP TS 29.244 clause 7.4.4.2)
#[derive(Debug, Clone, PartialEq, Eq)]
pub struct AssociationSetupResponse {
    pub header: Header,
    pub cause: Ie,
    pub node_id: Ie,
    pub up_function_features: Option<Ie>,
    pub cp_function_features: Option<Ie>,
    pub recovery_time_stamp: Option<Ie>,
    pub ies: Vec<Ie>,
}

impl AssociationSetupResponse {
    /// The slot that an IE of type `t` is read into.
    pub open spec fn slot_class(t: IeType) -> int {
        match t {
            IeType::Cause => 0,
            IeType::NodeId => 1,
            IeType::UpFunctionFeatures => 2,
            IeType::CpFunctionFeatures => 3,
            IeType::RecoveryTimeStamp => 4,
            _ => 5,
        }
    }

    /// The slot that an IE of type `t` is read into.
    fn classify(t: IeType) -> (r: usize)
        ensures
            r == Self::slot_class(t),
    {
        match t {
            IeType::Cause => 0,
            IeType::NodeId => 1,
            IeType::UpFunctionFeatures => 2,
            IeType::CpFunctionFeatures => 3,
            IeType::RecoveryTimeStamp => 4,
            _ => 5,
        }
    }

    /// `slot_class` as a function value.
    pub open spec fn classifier() -> spec_fn(IeType) -> int {
        |t: IeType| Self::slot_class(t)
    }

    /// How many IEs each slot keeps, in wire order.
    pub open spec fn slot_kinds() -> Seq<SlotKind> {
        seq![SlotKind::One, SlotKind::One, SlotKind::One, SlotKind::One, SlotKind::One, SlotKind::Many]
    }

    /// The IEs of each field, in wire order.
    pub open spec fn slots(&self) -> Seq<Seq<IeView>> {
        Seq::<Seq<IeView>>::empty().push(seq![self.cause@]).push(seq![self.node_id@]).push(opt_ie_seq(self.up_function_features)).push(opt_ie_seq(self.cp_function_features)).push(opt_ie_seq(self.recovery_time_stamp)).push(ies_view(self.ies@))
    }

    /// The IEs in the order that `all_ies` lists them.
    pub open spec fn listed_ies(&self) -> Seq<IeView> {
        concat_slots(Seq::<Seq<IeView>>::empty().push(seq![self.cause@]).push(seq![self.node_id@]).push(opt_ie_seq(self.up_function_features)).push(opt_ie_seq(self.cp_function_features)).push(opt_ie_seq(self.recovery_time_stamp)).push(ies_view(self.ies@)))
    }

    /// The first mandatory IE that `ies` lacks, checked in the order the decoder checks.
    pub open spec fn missing_ie(ies: Seq<IeView>) -> Option<IeType> {
        if decode_slot(ies, Self::classifier(), 0, SlotKind::One).len() == 0 {
            Some(IeType::Cause)
        } else {
            if decode_slot(ies, Self::classifier(), 1, SlotKind::One).len() == 0 {
            Some(IeType::NodeId)
        } else {
            None
        }
        }
    }

    /// The fields have a shape that decoding gives back: every IE is in the field for its type,
    /// mandatory lists are not empty and optional lists are present only when not empty.
    pub open spec fn fields_canonical(&self) -> bool {
        slots_typed(self.slots(), Self::classifier(), Self::slot_kinds())
    }

    /// A message that reads back as itself.
    pub open spec fn well_formed(&self) -> bool {
        header_wf(self.header) && ies_wf(concat_slots(self.slots())) && self.fields_canonical()
    }

    /// The wire form of the message: its header, then its IEs in wire order.
    pub open spec fn wire(&self) -> Seq<u8> {
        header_wire(self.header) + ies_wire(concat_slots(self.slots()))
    }

    /// Decoding `ies` gives these fields.
    pub open spec fn decodes_from(&self, ies: Seq<IeView>) -> bool {
        &&& seq![self.cause@] == decode_slot(ies, Self::classifier(), 0, SlotKind::One)
        &&& seq![self.node_id@] == decode_slot(ies, Self::classifier(), 1, SlotKind::One)
        &&& opt_ie_seq(self.up_function_features) == decode_slot(ies, Self::classifier(), 2, SlotKind::One)
        &&& opt_ie_seq(self.cp_function_features) == decode_slot(ies, Self::classifier(), 3, SlotKind::One)
        &&& opt_ie_seq(self.recovery_time_stamp) == decode_slot(ies, Self::classifier(), 4, SlotKind::One)
        &&& ies_view(self.ies@) == decode_slot(ies, Self::classifier(), 5, SlotKind::Many)
    }

    /// Assembles a message from its fields; the header length covers the fields' IEs.
    fn assemble(seq: u32, cause: Ie, node_id: Ie, up_function_features: Option<Ie>, cp_function_features: Option<Ie>, recovery_time_stamp: Option<Ie>, ies: Vec<Ie>) -> (r: Self)
        ensures
            r.header == message_header(MsgType::AssociationSetupResponse, false, 0, seq, concat_slots(r.slots())),
            r.cause == cause,
            r.node_id == node_id,
            r.up_function_features == up_function_features,
            r.cp_function_features == cp_function_features,
            r.recovery_time_stamp == recovery_time_stamp,
            r.ies == ies,
    {
        let len: u16 = 0;
        let len = len_slot_one(len, &cause, Ghost(Seq::<Seq<IeView>>::empty()));
        let len = len_slot_one(len, &node_id, Ghost(Seq::<Seq<IeView>>::empty().push(seq![cause@])));
        let len = len_slot_opt(len, &up_function_features, Ghost(Seq::<Seq<IeView>>::empty().push(seq![cause@]).push(seq![node_id@])));
        let len = len_slot_opt(len, &cp_function_features, Ghost(Seq::<Seq<IeView>>::empty().push(seq![cause@]).push(seq![node_id@]).push(opt_ie_seq(up_function_features))));
        let len = len_slot_opt(len, &recovery_time_stamp, Ghost(Seq::<Seq<IeView>>::empty().push(seq![cause@]).push(seq![node_id@]).push(opt_ie_seq(up_function_features)).push(opt_ie_seq(cp_function_features))));
        let len = len_slot_many(len, &ies, Ghost(Seq::<Seq<IeView>>::empty().push(seq![cause@]).push(seq![node_id@]).push(opt_ie_seq(up_function_features)).push(opt_ie_seq(cp_function_features)).push(opt_ie_seq(recovery_time_stamp))));
        let mut header = Header::new(MsgType::AssociationSetupResponse, false, 0, seq);
        proof { lemma_len_step(ies_size(concat_slots(Seq::<Seq<IeView>>::empty().push(seq![cause@]).push(seq![node_id@]).push(opt_ie_seq(up_function_features)).push(opt_ie_seq(cp_function_features)).push(opt_ie_seq(recovery_time_stamp)).push(ies_view(ies@)))) as int, header_size(header) as int - 4, len as int); }
        header.length = ((len as u32 + header.len() as u32 - 4) % 65536) as u16;
        AssociationSetupResponse { header, cause, node_id, up_function_features, cp_function_features, recovery_time_stamp, ies }
    }

    /// Creates a Association Setup Response message; the header length covers the given IEs.
    pub fn new(seq: u32, cause: Ie, node_id: Ie, up_function_features: Option<Ie>, cp_function_features: Option<Ie>, recovery_time_stamp: Option<Ie>, ies: Vec<Ie>) -> (r: Self)
        ensures
            r.header == message_header(MsgType::AssociationSetupResponse, false, 0, seq, concat_slots(r.slots())),
            r.cause == cause,
            r.node_id == node_id,
            r.up_function_features == up_function_features,
            r.cp_function_features == cp_function_features,
            r.recovery_time_stamp == recovery_time_stamp,
            r.ies == ies,
    {
        Self::assemble(seq, cause, node_id, up_function_features, cp_function_features, recovery_time_stamp, ies)
    }

}

impl Message for AssociationSetupResponse {
    open spec fn spec_header(&self) -> Header {
        self.header
    }

    open spec fn spec_body(&self) -> Seq<IeView> {
        concat_slots(self.slots())
    }

    open spec fn spec_listed(&self) -> Seq<IeView> {
        self.listed_ies()
    }

    open spec fn spec_ies_of(&self, t: IeType) -> Seq<IeView> {
        match t {
            IeType::Cause => seq![self.cause@],
            IeType::NodeId => seq![self.node_id@],
            IeType::UpFunctionFeatures => opt_ie_seq(self.up_function_features),
            IeType::CpFunctionFeatures => opt_ie_seq(self.cp_function_features),
            IeType::RecoveryTimeStamp => opt_ie_seq(self.recovery_time_stamp),
            _ => crate::ie::ies_of_type(ies_view(self.ies@), t),
        }
    }

    open spec fn spec_msg_type(&self) -> MsgType {
        MsgType::AssociationSetupResponse
    }

    open spec fn spec_decode_error(data: Seq<u8>) -> Option<PfcpError> {
        match spec_parse_header(data) {
            Err(e) => Some(e),
            Ok(h) => match spec_parse_ies(data.skip(header_size(h) as int)) {
                Err(e) => Some(e),
                Ok(ies) => match Self::missing_ie(ies) {
                    Some(t) => Some(PfcpError::MissingMandatoryIe { ie_type: t, message_type: Some(MsgType::AssociationSetupResponse) }),
                    None => None,
                },
            },
        }
    }

    open spec fn spec_decoded(data: Seq<u8>, m: Self) -> bool {
        match spec_parse_header(data) {
            Err(_) => false,
            Ok(h) => match spec_parse_ies(data.skip(header_size(h) as int)) {
                Err(_) => false,
                Ok(ies) => m.header == h && m.decodes_from(ies),
            },
        }
    }

    fn marshal_into(&self, buf: &mut Vec<u8>) {
        self.header.marshal_into(buf);
        let ghost p = buf@;
        assert(buf@ =~= p + ies_wire(concat_slots(Seq::<Seq<IeView>>::empty())));
        write_slot_one(buf, &self.cause, Ghost(p), Ghost(Seq::<Seq<IeView>>::empty()));
        write_slot_one(buf, &self.node_id, Ghost(p), Ghost(Seq::<Seq<IeView>>::empty().push(seq![self.cause@])));
        write_slot_opt(buf, &self.up_function_features, Ghost(p), Ghost(Seq::<Seq<IeView>>::empty().push(seq![self.cause@]).push(seq![self.node_id@])));
        write_slot_opt(buf, &self.cp_function_features, Ghost(p), Ghost(Seq::<Seq<IeView>>::empty().push(seq![self.cause@]).push(seq![self.node_id@]).push(opt_ie_seq(self.up_function_features))));
        write_slot_opt(buf, &self.recovery_time_stamp, Ghost(p), Ghost(Seq::<Seq<IeView>>::empty().push(seq![self.cause@]).push(seq![self.node_id@]).push(opt_ie_seq(self.up_function_features)).push(opt_ie_seq(self.cp_function_features))));
        write_slot_many(buf, &self.ies, Ghost(p), Ghost(Seq::<Seq<IeView>>::empty().push(seq![self.cause@]).push(seq![self.node_id@]).push(opt_ie_seq(self.up_function_features)).push(opt_ie_seq(self.cp_function_features)).push(opt_ie_seq(self.recovery_time_stamp))));
        assert(buf@ =~= old(buf)@ + header_wire(self.header) + ies_wire(concat_slots(self.slots())));
    }

    fn marshal(&self) -> (r: Vec<u8>) {
        let mut buf: Vec<u8> = Vec::new();
        self.marshal_into(&mut buf);
        assert(buf@ =~= header_wire(self.header) + ies_wire(concat_slots(self.slots())));
        buf
    }

    fn marshaled_size(&self) -> (r: usize) {
        let v = self.marshal();
        v.len()
    }

    fn unmarshal(data: &[u8]) -> (r: Result<Self, PfcpError>) {
        let header = match Header::unmarshal(data) {
            Ok(h) => h,
            Err(e) => return Err(e),
        };
        proof { lemma_parse_header_size(data@); }
        let start = header.len() as usize;
        let mut all = match parse_ies(data, start) {
            Ok(v) => v,
            Err(e) => return Err(e),
        };
        let ghost parsed = ies_view(all@);
        let ghost cls = Self::classifier();
        let mut buckets = empty_buckets(7);
        proof {
            lemma_slot_ies_empty(cls);
            assert(parsed.take(0) =~= Seq::<IeView>::empty());
            assert forall|j: int| 0 <= j < 7 implies ies_view(#[trigger] buckets@[j]@) == slot_ies(parsed.take(0), cls, j) by {
                assert(ies_view(buckets@[j]@) =~= Seq::<IeView>::empty());
            }
        }
        let ghost mut done: int = 0;
        while all.len() > 0
            invariant
                0 <= done <= parsed.len(),
                ies_view(all@) == parsed.skip(done),
                cls == Self::classifier(),
                buckets@.len() == 7,
                forall|j: int| 0 <= j < 7 ==> ies_view(#[trigger] buckets@[j]@) == slot_ies(parsed.take(done), cls, j),
            decreases all@.len(),
        {
            let ghost old_all = all@;
            let ghost old_buckets = buckets@;
            let ie = all.remove(0);
            let ghost iev = ie@;
            proof {
                assert(ies_view(old_all).len() == old_all.len());
                assert(done < parsed.len());
                assert(ies_view(old_all)[0] == old_all[0]@);
                assert(parsed.skip(done)[0] == parsed[done]);
                assert(parsed[done] == iev);
                assert(parsed.take(done + 1) =~= parsed.take(done).push(iev));
                lemma_slot_ies_push_all(parsed.take(done), iev, cls);
                assert(all@ =~= old_all.skip(1));
                assert(ies_view(all@) =~= ies_view(old_all).skip(1));
                assert(parsed.skip(done).skip(1) =~= parsed.skip(done + 1));
            }
            let c = Self::classify(ie.ie_type);
            push_bucket(&mut buckets, c, ie);
            proof {
                assert forall|j: int| 0 <= j < 7 implies ies_view(#[trigger] buckets@[j]@) == slot_ies(parsed.take(done + 1), cls, j) by {
                    if j != c {
                        assert(buckets@[j] == old_buckets[j]);
                    }
                }
                done = done + 1;
            }
        }
        proof { assert(parsed.take(done) =~= parsed); }
        let ghost bs = buckets@;
        assert(ies_view(bs[0]@) == slot_ies(parsed, cls, 0));
        assert(ies_view(bs[1]@) == slot_ies(parsed, cls, 1));
        assert(ies_view(bs[2]@) == slot_ies(parsed, cls, 2));
        assert(ies_view(bs[3]@) == slot_ies(parsed, cls, 3));
        assert(ies_view(bs[4]@) == slot_ies(parsed, cls, 4));
        assert(ies_view(bs[5]@) == slot_ies(parsed, cls, 5));
        let slot0 = last_ie(take_bucket(&mut buckets, 0, Ghost(bs)));
        assert(opt_ie_seq(slot0) == decode_slot(parsed, cls, 0, SlotKind::One));
        let slot1 = last_ie(take_bucket(&mut buckets, 1, Ghost(bs)));
        assert(opt_ie_seq(slot1) == decode_slot(parsed, cls, 1, SlotKind::One));
        let slot2 = last_ie(take_bucket(&mut buckets, 2, Ghost(bs)));
        assert(opt_ie_seq(slot2) == decode_slot(parsed, cls, 2, SlotKind::One));
        let slot3 = last_ie(take_bucket(&mut buckets, 3, Ghost(bs)));
        assert(opt_ie_seq(slot3) == decode_slot(parsed, cls, 3, SlotKind::One));
        let slot4 = last_ie(take_bucket(&mut buckets, 4, Ghost(bs)));
        assert(opt_ie_seq(slot4) == decode_slot(parsed, cls, 4, SlotKind::One));
        let slot5 = take_bucket(&mut buckets, 5, Ghost(bs));
        assert(ies_view(slot5@) == decode_slot(parsed, cls, 5, SlotKind::Many));
        if slot0.is_none() {
            return Err(PfcpError::MissingMandatoryIe { ie_type: IeType::Cause, message_type: Some(MsgType::AssociationSetupResponse) });
        }
        if slot1.is_none() {
            return Err(PfcpError::MissingMandatoryIe { ie_type: IeType::NodeId, message_type: Some(MsgType::AssociationSetupResponse) });
        }
        let cause = match slot0 { Some(x) => x, None => return Err(PfcpError::MissingMandatoryIe { ie_type: IeType::Cause, message_type: Some(MsgType::AssociationSetupResponse) }) };
        let node_id = match slot1 { Some(x) => x, None => return Err(PfcpError::MissingMandatoryIe { ie_type: IeType::NodeId, message_type: Some(MsgType::AssociationSetupResponse) }) };
        let up_function_features = slot2;
        let cp_function_features = slot3;
        let recovery_time_stamp = slot4;
        let ies = slot5;
        let r = AssociationSetupResponse { header, cause, node_id, up_function_features, cp_function_features, recovery_time_stamp, ies };
        Ok(r)
    }

    fn msg_type(&self) -> (r: MsgType) {
        MsgType::AssociationSetupResponse
    }

    fn msg_name(&self) -> (r: String) {
        MsgType::AssociationSetupResponse.name().to_owned()
    }

    fn version(&self) -> (r: u8) {
        1
    }

    fn seid(&self) -> (r: Option<u64>) {
        if self.header.has_seid {
            Some(self.header.seid)
        } else {
            None
        }
    }

    fn sequence(&self) -> (r: u32) {
        self.header.sequence_number
    }

    fn set_sequence(&mut self, seq: u32) {
        self.header.sequence_number = seq;
    }

    fn ies(&self, ie_type: IeType) -> (r: IeIter<'_>) {
        match ie_type {
            IeType::Cause => IeIter::single(Some(&self.cause), ie_type),
            IeType::NodeId => IeIter::single(Some(&self.node_id), ie_type),
            IeType::UpFunctionFeatures => match &self.up_function_features { Some(x) => IeIter::single(Some(x), ie_type), None => IeIter::single(None, ie_type) },
            IeType::CpFunctionFeatures => match &self.cp_function_features { Some(x) => IeIter::single(Some(x), ie_type), None => IeIter::single(None, ie_type) },
            IeType::RecoveryTimeStamp => match &self.recovery_time_stamp { Some(x) => IeIter::single(Some(x), ie_type), None => IeIter::single(None, ie_type) },
            _ => IeIter::generic(self.ies.as_slice(), ie_type),
        }
    }

    fn find_ie(&self, ie_type: IeType) -> (r: Option<&Ie>) {
        let mut it = self.ies(ie_type);
        it.next()
    }

    fn find_all_ies(&self, ie_type: IeType) -> (r: Vec<&Ie>) {
        self.ies(ie_type).collect()
    }

    fn all_ies(&self) -> (r: Vec<&Ie>) {
        let mut out: Vec<&Ie> = Vec::new();
        assert(ie_refs_view(out@) =~= concat_slots(Seq::<Seq<IeView>>::empty()));
        list_slot_one(&mut out, &self.cause, Ghost(Seq::<Seq<IeView>>::empty()));
        list_slot_one(&mut out, &self.node_id, Ghost(Seq::<Seq<IeView>>::empty().push(seq![self.cause@])));
        list_slot_opt(&mut out, &self.up_function_features, Ghost(Seq::<Seq<IeView>>::empty().push(seq![self.cause@]).push(seq![self.node_id@])));
        list_slot_opt(&mut out, &self.cp_function_features, Ghost(Seq::<Seq<IeView>>::empty().push(seq![self.cause@]).push(seq![self.node_id@]).push(opt_ie_seq(self.up_function_features))));
        list_slot_opt(&mut out, &self.recovery_time_stamp, Ghost(Seq::<Seq<IeView>>::empty().push(seq![self.cause@]).push(seq![self.node_id@]).push(opt_ie_seq(self.up_function_features)).push(opt_ie_seq(self.cp_function_features))));
        list_slot_many(&mut out, &self.ies, Ghost(Seq::<Seq<IeView>>::empty().push(seq![self.cause@]).push(seq![self.node_id@]).push(opt_ie_seq(self.up_function_features)).push(opt_ie_seq(self.cp_function_features)).push(opt_ie_seq(self.recovery_time_stamp))));
        out
    }
}

/// A well-formed AssociationSetupResponse reads back as itself: decoding its wire form gives its
/// header and fields.
pub proof fn lemma_association_setup_response_roundtrip(m: AssociationSetupResponse)
    requires
        m.well_formed(),
    ensures
        AssociationSetupResponse::spec_decode_error(m.wire()) is None,
        AssociationSetupResponse::spec_decoded(m.wire(), m),
{
    let body = concat_slots(m.slots());
    lemma_header_roundtrip(m.header, ies_wire(body));
    lemma_header_wire_len(m.header);
    assert((header_wire(m.header) + ies_wire(body)).skip(header_size(m.header) as int) =~= ies_wire(body));
    crate::ie::lemma_parse_ies_wire(body);
    lemma_decode_concat(m.slots(), AssociationSetupResponse::classifier(), AssociationSetupResponse::slot_kinds());
    assert(decode_slots(body, AssociationSetupResponse::classifier(), AssociationSetupResponse::slot_kinds()) == m.slots());
    assert(decode_slots(body, AssociationSetupResponse::classifier(), AssociationSetupResponse::slot_kinds())[0] == decode_slot(body, AssociationSetupResponse::classifier(), 0, SlotKind::One));
    assert(decode_slots(body, AssociationSetupResponse::classifier(), AssociationSetupResponse::slot_kinds())[1] == decode_slot(body, AssociationSetupResponse::classifier(), 1, SlotKind::One));
    assert(decode_slots(body, AssociationSetupResponse::classifier(), AssociationSetupResponse::slot_kinds())[2] == decode_slot(body, AssociationSetupResponse::classifier(), 2, SlotKind::One));
    assert(decode_slots(body, AssociationSetupResponse::classifier(), AssociationSetupResponse::slot_kinds())[3] == decode_slot(body, AssociationSetupResponse::classifier(), 3, SlotKind::One));
    assert(decode_slots(body, AssociationSetupResponse::classifier(), AssociationSetupResponse::slot_kinds())[4] == decode_slot(body, AssociationSetupResponse::classifier(), 4, SlotKind::One));
    assert(decode_slots(body, AssociationSetupResponse::classifier(), AssociationSetupResponse::slot_kinds())[5] == decode_slot(body, AssociationSetupResponse::classifier(), 5, SlotKind::Many));
    assert(m.slots()[0].len() > 0);
    assert(m.slots()[1].len() > 0);
}

/// Builder for AssociationSetupResponse messages.
#[derive(Debug)]
pub struct AssociationSetupResponseBuilder {
    pub sequence: u32,
    pub cause: Option<Ie>,
    pub node_id: Option<Ie>,
    pub up_function_features: Option<Ie>,
    pub cp_function_features: Option<Ie>,
    pub recovery_time_stamp: Option<Ie>,
    pub ies: Vec<Ie>,
}

impl AssociationSetupResponseBuilder {
    /// The IEs of each field of the message this builder builds, in wire order.
    pub open spec fn built_slots(&self) -> Seq<Seq<IeView>> {
        Seq::<Seq<IeView>>::empty().push(seq![self.cause.unwrap()@]).push(seq![self.node_id.unwrap()@]).push(opt_ie_seq(self.up_function_features)).push(opt_ie_seq(self.cp_function_features)).push(opt_ie_seq(self.recovery_time_stamp)).push(ies_view(self.ies@))
    }

    /// The header of the message this builder builds.
    pub open spec fn built_header(&self) -> Header {
        message_header(MsgType::AssociationSetupResponse, false, 0, self.sequence, concat_slots(self.built_slots()))
    }

    /// Creates a builder with no IEs set.
    pub fn new(sequence: u32) -> (r: Self)
        ensures
            r.sequence == sequence,
            r.cause is None,
            r.node_id is None,
            r.up_function_features is None,
            r.cp_function_features is None,
            r.recovery_time_stamp is None,
            r.ies@.len() == 0,
    {
        AssociationSetupResponseBuilder { sequence, cause: None, node_id: None, up_function_features: None, cp_function_features: None, recovery_time_stamp: None, ies: Vec::new() }
    }

    /// Sets the cause.
    pub fn cause(self, cause_value: CauseValue) -> (r: Self)
        ensures
            r.cause is Some,
            r.cause.unwrap()@ == crate::ie::cause::cause_ie_view(cause_value),
            r == (Self { cause: r.cause, ..self }),
    {
        let mut s = self;
        let cause = Cause::new(cause_value);
        s.cause = Some(cause.to_ie());
        s
    }

    /// Sets the cause to "Request accepted".
    pub fn cause_accepted(self) -> (r: Self)
        ensures
            r.cause is Some,
            r.cause.unwrap()@ == crate::ie::cause::cause_ie_view(CauseValue::RequestAccepted),
            r == (Self { cause: r.cause, ..self }),
    {
        self.cause(CauseValue::RequestAccepted)
    }

    /// Sets the cause to "Request rejected".
    pub fn cause_rejected(self) -> (r: Self)
        ensures
            r.cause is Some,
            r.cause.unwrap()@ == crate::ie::cause::cause_ie_view(CauseValue::RequestRejected),
            r == (Self { cause: r.cause, ..self }),
    {
        self.cause(CauseValue::RequestRejected)
    }

    /// Sets the cause IE.
    pub fn cause_ie(self, ie: Ie) -> (r: Self)
        ensures
            r == (Self { cause: Some(ie), ..self }),
    {
        let mut s = self;
        s.cause = Some(ie);
        s
    }

    /// Sets the Node ID.
    pub fn node_id(self, node_id: NodeId) -> (r: Self)
        ensures
            r.node_id is Some,
            r.node_id.unwrap()@ == (IeView { ie_type: IeType::NodeId, payload: crate::ie::node_id::node_id_bytes(node_id@) }),
            r == (Self { node_id: r.node_id, ..self }),
    {
        let mut s = self;
        s.node_id = Some(node_id.to_ie());
        s
    }

    /// Sets the Node ID to a fully qualified domain name.
    pub fn node_id_fqdn(self, fqdn: &str) -> (r: Self)
        ensures
            r.node_id is Some,
            r.node_id.unwrap()@ == crate::ie::node_id::fqdn_node_id_ie(fqdn@),
            r == (Self { node_id: r.node_id, ..self }),
    {
        let mut s = self;
        let node = NodeId::new_fqdn(fqdn);
        s.node_id = Some(node.to_ie());
        s
    }

    /// Sets the node id IE.
    pub fn node_id_ie(self, ie: Ie) -> (r: Self)
        ensures
            r == (Self { node_id: Some(ie), ..self }),
    {
        let mut s = self;
        s.node_id = Some(ie);
        s
    }

    /// Sets the up function features IE.
    pub fn up_function_features(self, ie: Ie) -> (r: Self)
        ensures
            r == (Self { up_function_features: Some(ie), ..self }),
    {
        let mut s = self;
        s.up_function_features = Some(ie);
        s
    }

    /// Sets the cp function features IE.
    pub fn cp_function_features(self, ie: Ie) -> (r: Self)
        ensures
            r == (Self { cp_function_features: Some(ie), ..self }),
    {
        let mut s = self;
        s.cp_function_features = Some(ie);
        s
    }

    /// Sets the recovery time stamp from a point in time.
    pub fn recovery_time_stamp(self, timestamp: std::time::SystemTime) -> (r: Self)
        ensures
            r.recovery_time_stamp is Some,
            r.recovery_time_stamp.unwrap()@ == crate::ie::recovery_time_stamp::recovery_time_stamp_ie_view(crate::ie::recovery_time_stamp::unix_seconds_of(timestamp)),
            r == (Self { recovery_time_stamp: r.recovery_time_stamp, ..self }),
    {
        let mut s = self;
        let ts = RecoveryTimeStamp::new(timestamp);
        s.recovery_time_stamp = Some(ts.to_ie());
        s
    }

    /// Sets the recovery time stamp IE.
    pub fn recovery_time_stamp_ie(self, ie: Ie) -> (r: Self)
        ensures
            r == (Self { recovery_time_stamp: Some(ie), ..self }),
    {
        let mut s = self;
        s.recovery_time_stamp = Some(ie);
        s
    }

    /// Adds an additional IE.
    pub fn ie(self, ie: Ie) -> (r: Self)
        ensures
            r.ies@ == self.ies@.push(ie),
            r == (Self { ies: r.ies, ..self }),
    {
        let mut s = self;
        s.ies.push(ie);
        s
    }

    /// Adds several additional IEs.
    pub fn ies(self, ies: Vec<Ie>) -> (r: Self)
        ensures
            r.ies@ == self.ies@ + ies@,
            r == (Self { ies: r.ies, ..self }),
    {
        let mut s = self;
        let mut v = ies;
        s.ies.append(&mut v);
        s
    }

    /// Builds the message. Every mandatory IE must have been set.
    pub fn build(self) -> (r: AssociationSetupResponse)
        requires
            self.cause is Some,
            self.node_id is Some,
        ensures
            r.header == message_header(MsgType::AssociationSetupResponse, false, 0, self.sequence, concat_slots(r.slots())),
            r.cause == self.cause.unwrap(),
            r.node_id == self.node_id.unwrap(),
            r.up_function_features == self.up_function_features,
            r.cp_function_features == self.cp_function_features,
            r.recovery_time_stamp == self.recovery_time_stamp,
            r.ies == self.ies,
            r.slots() == self.built_slots(),
            r.header == self.built_header(),
    {
        let cause = self.cause.unwrap();
        let node_id = self.node_id.unwrap();
        AssociationSetupResponse::assemble(self.sequence, cause, node_id, self.up_function_features, self.cp_function_features, self.recovery_time_stamp, self.ies)
    }

    /// Builds the message and serializes it. Every mandatory IE must have been set.
    pub fn marshal(self) -> (r: Vec<u8>)
        requires
            self.cause is Some,
            self.node_id is Some,
        ensures
            r@ == header_wire(self.built_header()) + ies_wire(concat_slots(self.built_slots())),
    {
        let msg = self.build();
        msg.marshal()
    }

    /// Builds the message, or says which mandatory IE is missing.
    pub fn try_build(self) -> (r: Result<AssociationSetupResponse, &'static str>)
        ensures
            self.cause is None ==> r is Err && r->Err_0@ == "Cause IE is required for AssociationSetupResponse"@,
            self.cause is Some && self.node_id is None ==> r is Err && r->Err_0@ == "Node ID IE is required for AssociationSetupResponse"@,
            self.cause is Some && self.node_id is Some ==> r is Ok,
            r matches Ok(r) ==> {
                r.header == message_header(MsgType::AssociationSetupResponse, false, 0, self.sequence, concat_slots(r.slots())) &&
                r.cause == self.cause.unwrap() &&
                r.node_id == self.node_id.unwrap() &&
                r.up_function_features == self.up_function_features &&
                r.cp_function_features == self.cp_function_features &&
                r.recovery_time_stamp == self.recovery_time_stamp &&
                r.ies == self.ies &&
                r.slots() == self.built_slots() &&
                r.header == self.built_header() &&
                true
            },
    {
        let cause = match self.cause {
            Some(x) => x,
            None => return Err("Cause IE is required for AssociationSetupResponse"),
        };
        let node_id = match self.node_id {
            Some(x) => x,
            None => return Err("Node ID IE is required for AssociationSetupResponse"),
        };
        Ok(AssociationSetupResponse::assemble(self.sequence, cause, node_id, self.up_function_features, self.cp_function_features, self.recovery_time_stamp, self.ies))
    }

}

/// Decoding what a AssociationSetupResponse builder writes fails exactly when a mandatory IE is
/// missing from the IEs it was given, and a message decoded from it has the builder's
/// header, and so its sequence number; when every IE stands in the field for its type,
/// the decoded message has the builder's IEs in each field. This holds when the
/// sequence number fits the header's 24 bits and every IE fits its length field.
#[verifier::spinoff_prover]
pub proof fn lemma_association_setup_response_builder_roundtrip(b: AssociationSetupResponseBuilder)
    requires
        b.sequence < 16777216,
        ies_wf(concat_slots(b.built_slots())),
    ensures
        AssociationSetupResponse::spec_decode_error(header_wire(b.built_header()) + ies_wire(concat_slots(b.built_slots()))) == (match AssociationSetupResponse::missing_ie(concat_slots(b.built_slots())) {
            Some(t) => Some(PfcpError::MissingMandatoryIe { ie_type: t, message_type: Some(MsgType::AssociationSetupResponse) }),
            None => None::<PfcpError>,
        }),
        forall|m: AssociationSetupResponse|
            #[trigger] AssociationSetupResponse::spec_decoded(header_wire(b.built_header()) + ies_wire(concat_slots(b.built_slots())), m) ==> m.header == b.built_header()
                && m.header.sequence_number == b.sequence,
        slots_typed(b.built_slots(), AssociationSetupResponse::classifier(), AssociationSetupResponse::slot_kinds()) ==> forall|m: AssociationSetupResponse|
            #[trigger] AssociationSetupResponse::spec_decoded(header_wire(b.built_header()) + ies_wire(concat_slots(b.built_slots())), m) ==> m.slots() == b.built_slots(),
{
    let h = b.built_header();
    let ss = b.built_slots();
    let body = concat_slots(ss);
    lemma_msg_type_code_roundtrip(MsgType::AssociationSetupResponse);
    assert(header_wf(h));
    lemma_header_roundtrip(h, ies_wire(body));
    lemma_header_wire_len(h);
    assert((header_wire(h) + ies_wire(body)).skip(header_size(h) as int) =~= ies_wire(body));
    crate::ie::lemma_parse_ies_wire(body);
    if slots_typed(ss, AssociationSetupResponse::classifier(), AssociationSetupResponse::slot_kinds()) {
        lemma_decode_concat(ss, AssociationSetupResponse::classifier(), AssociationSetupResponse::slot_kinds());
        assert(decode_slots(body, AssociationSetupResponse::classifier(), AssociationSetupResponse::slot_kinds()) == ss);
        assert(decode_slots(body, AssociationSetupResponse::classifier(), AssociationSetupResponse::slot_kinds())[0] == decode_slot(body, AssociationSetupResponse::classifier(), 0, SlotKind::One));
        assert(decode_slots(body, AssociationSetupResponse::classifier(), AssociationSetupResponse::slot_kinds())[1] == decode_slot(body, AssociationSetupResponse::classifier(), 1, SlotKind::One));
        assert(decode_slots(body, AssociationSetupResponse::classifier(), AssociationSetupResponse::slot_kinds())[2] == decode_slot(body, AssociationSetupResponse::classifier(), 2, SlotKind::One));
        assert(decode_slots(body, AssociationSetupResponse::classifier(), AssociationSetupResponse::slot_kinds())[3] == decode_slot(body, AssociationSetupResponse::classifier(), 3, SlotKind::One));
        assert(decode_slots(body, AssociationSetupResponse::classifier(), AssociationSetupResponse::slot_kinds())[4] == decode_slot(body, AssociationSetupResponse::classifier(), 4, SlotKind::One));
        assert(decode_slots(body, AssociationSetupResponse::classifier(), AssociationSetupResponse::slot_kinds())[5] == decode_slot(body, AssociationSetupResponse::classifier(), 5, SlotKind::Many));
        assert forall|m: AssociationSetupResponse| #[trigger] AssociationSetupResponse::spec_decoded(header_wire(b.built_header()) + ies_wire(concat_slots(b.built_slots())), m) implies m.slots() == ss by {
            assert(m.slots() =~= ss);
        }
    }
}

impl AssociationSetupResponse {
    /// Every IE is in the field named for its type, and the additional IEs are of
    /// no type that has a field of its own.
    #[verifier::opaque]
    pub open spec fn fields_hold_their_types(&self) -> bool {
        &&& self.cause.ie_type == IeType::Cause
        &&& self.node_id.ie_type == IeType::NodeId
        &&& (self.up_function_features matches Some(x) ==> x.ie_type == IeType::UpFunctionFeatures)
        &&& (self.cp_function_features matches Some(x) ==> x.ie_type == IeType::CpFunctionFeatures)
        &&& (self.recovery_time_stamp matches Some(x) ==> x.ie_type == IeType::RecoveryTimeStamp)
        &&& forall|i: int| 0 <= i < self.ies@.len() ==> {
            let t = (#[trigger] self.ies@[i]).ie_type;
            t != IeType::Cause && t != IeType::NodeId && t != IeType::UpFunctionFeatures && t != IeType::CpFunctionFeatures && t != IeType::RecoveryTimeStamp
        }
    }
}

/// Decoding puts every IE of the body into the field named for its IE type: a
/// field for one IE holds the last IE of its type, a list holds all IEs of its
/// type in wire order, and the additional IEs are the IEs of the other types, in
/// wire order.
#[verifier::spinoff_prover]
pub proof fn lemma_association_setup_response_decoded_by_type(data: Seq<u8>, m: AssociationSetupResponse)
    requires
        AssociationSetupResponse::spec_decoded(data, m),
    ensures
        spec_parse_ies(data.skip(header_size(m.header) as int)) is Ok,
        ({
            let body = spec_parse_ies(data.skip(header_size(m.header) as int))->Ok_0;
            &&& ies_of_type(body, IeType::Cause).len() > 0 && m.cause@ == ies_of_type(body, IeType::Cause).last()
            &&& ies_of_type(body, IeType::NodeId).len() > 0 && m.node_id@ == ies_of_type(body, IeType::NodeId).last()
            &&& (ies_of_type(body, IeType::UpFunctionFeatures).len() == 0 ==> m.up_function_features is None)
            &&& (ies_of_type(body, IeType::UpFunctionFeatures).len() > 0 ==> (m.up_function_features matches Some(x) && x@ == ies_of_type(body, IeType::UpFunctionFeatures).last()))
            &&& (ies_of_type(body, IeType::CpFunctionFeatures).len() == 0 ==> m.cp_function_features is None)
            &&& (ies_of_type(body, IeType::CpFunctionFeatures).len() > 0 ==> (m.cp_function_features matches Some(x) && x@ == ies_of_type(body, IeType::CpFunctionFeatures).last()))
            &&& (ies_of_type(body, IeType::RecoveryTimeStamp).len() == 0 ==> m.recovery_time_stamp is None)
            &&& (ies_of_type(body, IeType::RecoveryTimeStamp).len() > 0 ==> (m.recovery_time_stamp matches Some(x) && x@ == ies_of_type(body, IeType::RecoveryTimeStamp).last()))
            &&& ies_view(m.ies@) == ies_where(body, |t: IeType| t != IeType::Cause && t != IeType::NodeId && t != IeType::UpFunctionFeatures && t != IeType::CpFunctionFeatures && t != IeType::RecoveryTimeStamp)
            &&& true
        }),
{
    if let Ok(h) = spec_parse_header(data) {
        let body = spec_parse_ies(data.skip(header_size(h) as int))->Ok_0;
        let cls = AssociationSetupResponse::classifier();
        assert(ies_of_type(body, IeType::Cause).len() > 0 && m.cause@ == ies_of_type(body, IeType::Cause).last()) by {
            assert forall|x: IeType| #[trigger] slot_pred(cls, 0)(x) == (x == IeType::Cause) by {}
            lemma_ies_where_ext(body, slot_pred(cls, 0), |x: IeType| x == IeType::Cause);
            lemma_ies_of_type_is_where(body, IeType::Cause);
            assert(decode_slot(body, cls, 0, SlotKind::One) == last_seq(ies_of_type(body, IeType::Cause)));
            assert(seq![m.cause@][0] == m.cause@);
        }
        assert(ies_of_type(body, IeType::NodeId).len() > 0 && m.node_id@ == ies_of_type(body, IeType::NodeId).last()) by {
            assert forall|x: IeType| #[trigger] slot_pred(cls, 1)(x) == (x == IeType::NodeId) by {}
            lemma_ies_where_ext(body, slot_pred(cls, 1), |x: IeType| x == IeType::NodeId);
            lemma_ies_of_type_is_where(body, IeType::NodeId);
            assert(decode_slot(body, cls, 1, SlotKind::One) == last_seq(ies_of_type(body, IeType::NodeId)));
            assert(seq![m.node_id@][0] == m.node_id@);
        }
        assert((ies_of_type(body, IeType::UpFunctionFeatures).len() == 0 ==> m.up_function_features is None) && (ies_of_type(body, IeType::UpFunctionFeatures).len() > 0 ==> (m.up_function_features matches Some(x) && x@ == ies_of_type(body, IeType::UpFunctionFeatures).last()))) by {
            assert forall|x: IeType| #[trigger] slot_pred(cls, 2)(x) == (x == IeType::UpFunctionFeatures) by {}
            lemma_ies_where_ext(body, slot_pred(cls, 2), |x: IeType| x == IeType::UpFunctionFeatures);
            lemma_ies_of_type_is_where(body, IeType::UpFunctionFeatures);
            assert(decode_slot(body, cls, 2, SlotKind::One) == last_seq(ies_of_type(body, IeType::UpFunctionFeatures)));
            if ies_of_type(body, IeType::UpFunctionFeatures).len() > 0 { assert(opt_ie_seq(m.up_function_features)[0] == ies_of_type(body, IeType::UpFunctionFeatures).last()); }
        }
        assert((ies_of_type(body, IeType::CpFunctionFeatures).len() == 0 ==> m.cp_function_features is None) && (ies_of_type(body, IeType::CpFunctionFeatures).len() > 0 ==> (m.cp_function_features matches Some(x) && x@ == ies_of_type(body, IeType::CpFunctionFeatures).last()))) by {
            assert forall|x: IeType| #[trigger] slot_pred(cls, 3)(x) == (x == IeType::CpFunctionFeatures) by {}
            lemma_ies_where_ext(body, slot_pred(cls, 3), |x: IeType| x == IeType::CpFunctionFeatures);
            lemma_ies_of_type_is_where(body, IeType::CpFunctionFeatures);
            assert(decode_slot(body, cls, 3, SlotKind::One) == last_seq(ies_of_type(body, IeType::CpFunctionFeatures)));
            if ies_of_type(body, IeType::CpFunctionFeatures).len() > 0 { assert(opt_ie_seq(m.cp_function_features)[0] == ies_of_type(body, IeType::CpFunctionFeatures).last()); }
        }
        assert((ies_of_type(body, IeType::RecoveryTimeStamp).len() == 0 ==> m.recovery_time_stamp is None) && (ies_of_type(body, IeType::RecoveryTimeStamp).len() > 0 ==> (m.recovery_time_stamp matches Some(x) && x@ == ies_of_type(body, IeType::RecoveryTimeStamp).last()))) by {
            assert forall|x: IeType| #[trigger] slot_pred(cls, 4)(x) == (x == IeType::RecoveryTimeStamp) by {}
            lemma_ies_where_ext(body, slot_pred(cls, 4), |x: IeType| x == IeType::RecoveryTimeStamp);
            lemma_ies_of_type_is_where(body, IeType::RecoveryTimeStamp);
            assert(decode_slot(body, cls, 4, SlotKind::One) == last_seq(ies_of_type(body, IeType::RecoveryTimeStamp)));
            if ies_of_type(body, IeType::RecoveryTimeStamp).len() > 0 { assert(opt_ie_seq(m.recovery_time_stamp)[0] == ies_of_type(body, IeType::RecoveryTimeStamp).last()); }
        }
        assert(ies_view(m.ies@) == ies_where(body, |t: IeType| t != IeType::Cause && t != IeType::NodeId && t != IeType::UpFunctionFeatures && t != IeType::CpFunctionFeatures && t != IeType::RecoveryTimeStamp)) by {
            assert forall|t: IeType| #[trigger] slot_pred(cls, 5)(t) == (t != IeType::Cause && t != IeType::NodeId && t != IeType::UpFunctionFeatures && t != IeType::CpFunctionFeatures && t != IeType::RecoveryTimeStamp) by {}
            lemma_ies_where_ext(body, slot_pred(cls, 5), |t: IeType| t != IeType::Cause && t != IeType::NodeId && t != IeType::UpFunctionFeatures && t != IeType::CpFunctionFeatures && t != IeType::RecoveryTimeStamp);
        }
    }
}

/// When every IE is in the field named for its type, every IE sits in the slot
/// that decoding assigns its type to.
proof fn lemma_association_setup_response_fields_classified(m: AssociationSetupResponse)
    requires
        m.fields_hold_their_types(),
    ensures
        slots_classified(m.slots(), AssociationSetupResponse::classifier()),
{
    reveal(AssociationSetupResponse::fields_hold_their_types);
    let cls = AssociationSetupResponse::classifier();
    assert(slots_classified(Seq::<Seq<IeView>>::empty(), cls));
    assert(slots_classified(Seq::<Seq<IeView>>::empty().push(seq![m.cause@]), cls)) by {
        assert forall|k: int| 0 <= k < seq![m.cause@].len() implies cls(#[trigger] seq![m.cause@][k].ie_type) == 0 by {
        }
        lemma_classified_push(Seq::<Seq<IeView>>::empty(), seq![m.cause@], cls);
    }
    assert(slots_classified(Seq::<Seq<IeView>>::empty().push(seq![m.cause@]).push(seq![m.node_id@]), cls)) by {
        assert forall|k: int| 0 <= k < seq![m.node_id@].len() implies cls(#[trigger] seq![m.node_id@][k].ie_type) == 1 by {
        }
        lemma_classified_push(Seq::<Seq<IeView>>::empty().push(seq![m.cause@]), seq![m.node_id@], cls);
    }
    assert(slots_classified(Seq::<Seq<IeView>>::empty().push(seq![m.cause@]).push(seq![m.node_id@]).push(opt_ie_seq(m.up_function_features)), cls)) by {
        assert forall|k: int| 0 <= k < opt_ie_seq(m.up_function_features).len() implies cls(#[trigger] opt_ie_seq(m.up_function_features)[k].ie_type) == 2 by {
        }
        lemma_classified_push(Seq::<Seq<IeView>>::empty().push(seq![m.cause@]).push(seq![m.node_id@]), opt_ie_seq(m.up_function_features), cls);
    }
    assert(slots_classified(Seq::<Seq<IeView>>::empty().push(seq![m.cause@]).push(seq![m.node_id@]).push(opt_ie_seq(m.up_function_features)).push(opt_ie_seq(m.cp_function_features)), cls)) by {
        assert forall|k: int| 0 <= k < opt_ie_seq(m.cp_function_features).len() implies cls(#[trigger] opt_ie_seq(m.cp_function_features)[k].ie_type) == 3 by {
        }
        lemma_classified_push(Seq::<Seq<IeView>>::empty().push(seq![m.cause@]).push(seq![m.node_id@]).push(opt_ie_seq(m.up_function_features)), opt_ie_seq(m.cp_function_features), cls);
    }
    assert(slots_classified(Seq::<Seq<IeView>>::empty().push(seq![m.cause@]).push(seq![m.node_id@]).push(opt_ie_seq(m.up_function_features)).push(opt_ie_seq(m.cp_function_features)).push(opt_ie_seq(m.recovery_time_stamp)), cls)) by {
        assert forall|k: int| 0 <= k < opt_ie_seq(m.recovery_time_stamp).len() implies cls(#[trigger] opt_ie_seq(m.recovery_time_stamp)[k].ie_type) == 4 by {
        }
        lemma_classified_push(Seq::<Seq<IeView>>::empty().push(seq![m.cause@]).push(seq![m.node_id@]).push(opt_ie_seq(m.up_function_features)).push(opt_ie_seq(m.cp_function_features)), opt_ie_seq(m.recovery_time_stamp), cls);
    }
    assert(slots_classified(Seq::<Seq<IeView>>::empty().push(seq![m.cause@]).push(seq![m.node_id@]).push(opt_ie_seq(m.up_function_features)).push(opt_ie_seq(m.cp_function_features)).push(opt_ie_seq(m.recovery_time_stamp)).push(ies_view(m.ies@)), cls)) by {
        assert forall|k: int| 0 <= k < ies_view(m.ies@).len() implies cls(#[trigger] ies_view(m.ies@)[k].ie_type) == 5 by {
            assert(ies_view(m.ies@)[k] == m.ies@[k]@);
        }
        lemma_classified_push(Seq::<Seq<IeView>>::empty().push(seq![m.cause@]).push(seq![m.node_id@]).push(opt_ie_seq(m.up_function_features)).push(opt_ie_seq(m.cp_function_features)).push(opt_ie_seq(m.recovery_time_stamp)), ies_view(m.ies@), cls);
    }
    assert(m.slots() == Seq::<Seq<IeView>>::empty().push(seq![m.cause@]).push(seq![m.node_id@]).push(opt_ie_seq(m.up_function_features)).push(opt_ie_seq(m.cp_function_features)).push(opt_ie_seq(m.recovery_time_stamp)).push(ies_view(m.ies@)));
}

/// When every IE is in the field named for its type, the IEs of each field's type
/// in that field are the whole field.
proof fn lemma_association_setup_response_fields_of_their_type(m: AssociationSetupResponse)
    requires
        m.fields_hold_their_types(),
    ensures
        ies_of_type(seq![m.cause@], IeType::Cause) == seq![m.cause@],
        ies_of_type(seq![m.node_id@], IeType::NodeId) == seq![m.node_id@],
        ies_of_type(opt_ie_seq(m.up_function_features), IeType::UpFunctionFeatures) == opt_ie_seq(m.up_function_features),
        ies_of_type(opt_ie_seq(m.cp_function_features), IeType::CpFunctionFeatures) == opt_ie_seq(m.cp_function_features),
        ies_of_type(opt_ie_seq(m.recovery_time_stamp), IeType::RecoveryTimeStamp) == opt_ie_seq(m.recovery_time_stamp),
{
    reveal(AssociationSetupResponse::fields_hold_their_types);
    assert(ies_of_type(seq![m.cause@], IeType::Cause) == seq![m.cause@]) by {
        assert forall|k: int| 0 <= k < seq![m.cause@].len() implies (#[trigger] seq![m.cause@][k]).ie_type == IeType::Cause by {
        }
        lemma_of_type_all(seq![m.cause@], IeType::Cause);
    }
    assert(ies_of_type(seq![m.node_id@], IeType::NodeId) == seq![m.node_id@]) by {
        assert forall|k: int| 0 <= k < seq![m.node_id@].len() implies (#[trigger] seq![m.node_id@][k]).ie_type == IeType::NodeId by {
        }
        lemma_of_type_all(seq![m.node_id@], IeType::NodeId);
    }
    assert(ies_of_type(opt_ie_seq(m.up_function_features), IeType::UpFunctionFeatures) == opt_ie_seq(m.up_function_features)) by {
        assert forall|k: int| 0 <= k < opt_ie_seq(m.up_function_features).len() implies (#[trigger] opt_ie_seq(m.up_function_features)[k]).ie_type == IeType::UpFunctionFeatures by {
        }
        lemma_of_type_all(opt_ie_seq(m.up_function_features), IeType::UpFunctionFeatures);
    }
    assert(ies_of_type(opt_ie_seq(m.cp_function_features), IeType::CpFunctionFeatures) == opt_ie_seq(m.cp_function_features)) by {
        assert forall|k: int| 0 <= k < opt_ie_seq(m.cp_function_features).len() implies (#[trigger] opt_ie_seq(m.cp_function_features)[k]).ie_type == IeType::CpFunctionFeatures by {
        }
        lemma_of_type_all(opt_ie_seq(m.cp_function_features), IeType::CpFunctionFeatures);
    }
    assert(ies_of_type(opt_ie_seq(m.recovery_time_stamp), IeType::RecoveryTimeStamp) == opt_ie_seq(m.recovery_time_stamp)) by {
        assert forall|k: int| 0 <= k < opt_ie_seq(m.recovery_time_stamp).len() implies (#[trigger] opt_ie_seq(m.recovery_time_stamp)[k]).ie_type == IeType::RecoveryTimeStamp by {
        }
        lemma_of_type_all(opt_ie_seq(m.recovery_time_stamp), IeType::RecoveryTimeStamp);
    }
}

/// Looking up the IEs of a type gives exactly the message's IEs of that type, in
/// wire order, when every IE is in the field named for its type.
#[verifier::spinoff_prover]
pub proof fn lemma_association_setup_response_lookup_by_type(m: AssociationSetupResponse, t: IeType)
    requires
        m.fields_hold_their_types(),
    ensures
        m.spec_ies_of(t) == ies_of_type(m.spec_body(), t),
        forall|k: int| 0 <= k < m.spec_ies_of(t).len() ==> (#[trigger] m.spec_ies_of(t)[k]).ie_type == t,
{
    let cls = AssociationSetupResponse::classifier();
    lemma_association_setup_response_fields_classified(m);
    lemma_of_type_classified(m.slots(), cls, t);
    lemma_association_setup_response_fields_of_their_type(m);
    match t {
        IeType::Cause => {
            assert(m.slots()[0] == seq![m.cause@]);
        },
        IeType::NodeId => {
            assert(m.slots()[1] == seq![m.node_id@]);
        },
        IeType::UpFunctionFeatures => {
            assert(m.slots()[2] == opt_ie_seq(m.up_function_features));
        },
        IeType::CpFunctionFeatures => {
            assert(m.slots()[3] == opt_ie_seq(m.cp_function_features));
        },
        IeType::RecoveryTimeStamp => {
            assert(m.slots()[4] == opt_ie_seq(m.recovery_time_stamp));
        },
        _ => {
            assert(m.slots()[5] == ies_view(m.ies@));
        },
    }
    lemma_of_type_types(m.spec_body(), t);
}

} // verus!
