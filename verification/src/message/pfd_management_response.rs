//! PFD Management Response message (3GPP TS 29.244 clause 7.4.3.2).
use crate::error::PfcpError;
use crate::ie::{
    ie_refs_view, ies_of_type, ies_size, ies_view, ies_where, ies_wf, ies_wire, parse_ies, spec_parse_ies, Ie,
    IeType, IeView,
};
use crate::message::header::{
    header_size, header_wf, header_wire, lemma_header_roundtrip, lemma_header_wire_len, spec_parse_header, Header,
};
use crate::message::ie_iter::IeIter;
use crate::message::slots::{
    concat_slots, decode_slot, decode_slots, empty_buckets, last_ie, lemma_decode_concat, lemma_len_step,
    lemma_slot_ies_empty, lemma_slot_ies_push_all, len_slot_many, len_slot_one, len_slot_opt, list_slot_many,
    list_slot_one, list_slot_opt, opt_ie_seq, push_bucket, slot_ies, slots_typed, take_bucket, write_slot_many,
    write_slot_one, write_slot_opt, SlotKind, last_seq, lemma_classified_push, lemma_ies_of_type_is_where,
    lemma_ies_where_ext, lemma_of_type_all, lemma_of_type_classified, lemma_of_type_types, slot_pred,
    slots_classified,
};
use crate::message::{lemma_msg_type_code_roundtrip, lemma_parse_header_size, message_header, Message, MsgType};
use crate::ie::cause::{Cause, CauseValue};
use crate::ie::node_id::NodeId;
use vstd::prelude::*;

verus! {

/// A PFD Management Response message (3GPP TS 29.244 clause 7.4.3.2)
#[derive(Debug, Clone, PartialEq, Eq)]
pub struct PfdManagementResponse {
    pub header: Header,
    pub cause: Ie,
    pub offending_ie: Option<Ie>,
    pub node_id: Option<Ie>,
    pub ies: Vec<Ie>,
}

impl PfdManagementResponse {
    /// The slot that an IE of type `t` is read into.
    pub open spec fn slot_class(t: IeType) -> int {
        match t {
            IeType::Cause => 0,
            IeType::OffendingIe => 1,
            IeType::NodeId => 2,
            _ => 3,
        }
    }

    /// The slot that an IE of type `t` is read into.
    fn classify(t: IeType) -> (r: usize)
        ensures
            r == Self::slot_class(t),
    {
        match t {
            IeType::Cause => 0,
            IeType::OffendingIe => 1,
            IeType::NodeId => 2,
            _ => 3,
        }
    }

    /// `slot_class` as a function value.
    pub open spec fn classifier() -> spec_fn(IeType) -> int {
        |t: IeType| Self::slot_class(t)
    }

    /// How many IEs each slot keeps, in wire order.
    pub open spec fn slot_kinds() -> Seq<SlotKind> {
        seq![SlotKind::One, SlotKind::One, SlotKind::One, SlotKind::Many]
    }

    /// The IEs of each field, in wire order.
    pub open spec fn slots(&self) -> Seq<Seq<IeView>> {
        Seq::<Seq<IeView>>::empty().push(seq![self.cause@]).push(opt_ie_seq(self.offending_ie)).push(opt_ie_seq(self.node_id)).push(ies_view(self.ies@))
    }

    /// The IEs in the order that `all_ies` lists them.
    pub open spec fn listed_ies(&self) -> Seq<IeView> {
        concat_slots(Seq::<Seq<IeView>>::empty().push(seq![self.cause@]).push(opt_ie_seq(self.offending_ie)).push(opt_ie_seq(self.node_id)).push(ies_view(self.ies@)))
    }

    /// The first mandatory IE that `ies` lacks, checked in the order the decoder checks.
    pub open spec fn missing_ie(ies: Seq<IeView>) -> Option<IeType> {
        if decode_slot(ies, Self::classifier(), 0, SlotKind::One).len() == 0 {
            Some(IeType::Cause)
        } else {
            None
        }
    }

    /// The fields have a shape that decoding gives back: every IE is in the field for its type,
    /// mandatory lists are not empty and optional lists are present only when not empty.
    pub open spec fn fields_canonical(&self) -> bool {
        slots_typed(self.slots(), Self::classifier(), Self::slot_kinds())
    }

    /// A message that reads back as itself.
    pub open spec fn well_formed(&self) -> bool {
        header_wf(self.header) && ies_wf(concat_slots(self.slots())) && self.fields_canonical()
    }

    /// The wire form of the message: its header, then its IEs in wire order.
    pub open spec fn wire(&self) -> Seq<u8> {
        header_wire(self.header) + ies_wire(concat_slots(self.slots()))
    }

    /// Decoding `ies` gives these fields.
    pub open spec fn decodes_from(&self, ies: Seq<IeView>) -> bool {
        &&& seq![self.cause@] == decode_slot(ies, Self::classifier(), 0, SlotKind::One)
        &&& opt_ie_seq(self.offending_ie) == decode_slot(ies, Self::classifier(), 1, SlotKind::One)
        &&& opt_ie_seq(self.node_id) == decode_slot(ies, Self::classifier(), 2, SlotKind::One)
        &&& ies_view(self.ies@) == decode_slot(ies, Self::classifier(), 3, SlotKind::Many)
    }

    /// Assembles a message from its fields; the header length covers the fields' IEs.
    fn assemble(seq: u32, cause: Ie, offending_ie: Option<Ie>, node_id: Option<Ie>, ies: Vec<Ie>) -> (r: Self)
        ensures
            r.header == message_header(MsgType::PfdManagementResponse, false, 0, seq, concat_slots(r.slots())),
            r.cause == cause,
            r.offending_ie == offending_ie,
            r.node_id == node_id,
            r.ies == ies,
    {
        let len: u16 = 0;
        let len = len_slot_one(len, &cause, Ghost(Seq::<Seq<IeView>>::empty()));
        let len = len_slot_opt(len, &offending_ie, Ghost(Seq::<Seq<IeView>>::empty().push(seq![cause@])));
        let len = len_slot_opt(len, &node_id, Ghost(Seq::<Seq<IeView>>::empty().push(seq![cause@]).push(opt_ie_seq(offending_ie))));
        let len = len_slot_many(len, &ies, Ghost(Seq::<Seq<IeView>>::empty().push(seq![cause@]).push(opt_ie_seq(offending_ie)).push(opt_ie_seq(node_id))));
        let mut header = Header::new(MsgType::PfdManagementResponse, false, 0, seq);
        proof { lemma_len_step(ies_size(concat_slots(Seq::<Seq<IeView>>::empty().push(seq![cause@]).push(opt_ie_seq(offending_ie)).push(opt_ie_seq(node_id)).push(ies_view(ies@)))) as int, header_size(header) as int - 4, len as int); }
        header.length = ((len as u32 + header.len() as u32 - 4) % 65536) as u16;
        PfdManagementResponse { header, cause, offending_ie, node_id, ies }
    }

    /// Creates a PFD Management Response message; the header length covers the given IEs.
    pub fn new(seq: u32, cause: Ie, offending_ie: Option<Ie>, node_id: Option<Ie>, ies: Vec<Ie>) -> (r: Self)
        ensures
            r.header == message_header(MsgType::PfdManagementResponse, false, 0, seq, concat_slots(r.slots())),
            r.cause == cause,
            r.offending_ie == offending_ie,
            r.node_id == node_id,
            r.ies == ies,
    {
        Self::assemble(seq, cause, offending_ie, node_id, ies)
    }

}

impl Message for PfdManagementResponse {
    open spec fn spec_header(&self) -> Header {
        self.header
    }

    open spec fn spec_body(&self) -> Seq<IeView> {
        concat_slots(self.slots())
    }

    open spec fn spec_listed(&self) -> Seq<IeView> {
        self.listed_ies()
    }

    open spec fn spec_ies_of(&self, t: IeType) -> Seq<IeView> {
        match t {
            IeType::Cause => seq![self.cause@],
            IeType::OffendingIe => opt_ie_seq(self.offending_ie),
            IeType::NodeId => opt_ie_seq(self.node_id),
            _ => crate::ie::ies_of_type(ies_view(self.ies@), t),
        }
    }

    open spec fn spec_msg_type(&self) -> MsgType {
        MsgType::PfdManagementResponse
    }

    open spec fn spec_decode_error(data: Seq<u8>) -> Option<PfcpError> {
        match spec_parse_header(data) {
            Err(e) => Some(e),
            Ok(h) => match spec_parse_ies(data.skip(header_size(h) as int)) {
                Err(e) => Some(e),
                Ok(ies) => match Self::missing_ie(ies) {
                    Some(t) => Some(PfcpError::MissingMandatoryIe { ie_type: t, message_type: Some(MsgType::PfdManagementResponse) }),
                    None => None,
                },
            },
        }
    }

    open spec fn spec_decoded(data: Seq<u8>, m: Self) -> bool {
        match spec_parse_header(data) {
            Err(_) => false,
            Ok(h) => match spec_parse_ies(data.skip(header_size(h) as int)) {
                Err(_) => false,
                Ok(ies) => m.header == h && m.decodes_from(ies),
            },
        }
    }

    fn marshal_into(&self, buf: &mut Vec<u8>) {
        self.header.marshal_into(buf);
        let ghost p = buf@;
        assert(buf@ =~= p + ies_wire(concat_slots(Seq::<Seq<IeView>>::empty())));
        write_slot_one(buf, &self.cause, Ghost(p), Ghost(Seq::<Seq<IeView>>::empty()));
        write_slot_opt(buf, &self.offending_ie, Ghost(p), Ghost(Seq::<Seq<IeView>>::empty().push(seq![self.cause@])));
        write_slot_opt(buf, &self.node_id, Ghost(p), Ghost(Seq::<Seq<IeView>>::empty().push(seq![self.cause@]).push(opt_ie_seq(self.offending_ie))));
        write_slot_many(buf, &self.ies, Ghost(p), Ghost(Seq::<Seq<IeView>>::empty().push(seq![self.cause@]).push(opt_ie_seq(self.offending_ie)).push(opt_ie_seq(self.node_id))));
        assert(buf@ =~= old(buf)@ + header_wire(self.header) + ies_wire(concat_slots(self.slots())));
    }

    fn marshal(&self) -> (r: Vec<u8>) {
        let mut buf: Vec<u8> = Vec::new();
        self.marshal_into(&mut buf);
        assert(buf@ =~= header_wire(self.header) + ies_wire(concat_slots(self.slots())));
        buf
    }

    fn marshaled_size(&self) -> (r: usize) {
        let v = self.marshal();
        v.len()
    }

    fn unmarshal(data: &[u8]) -> (r: Result<Self, PfcpError>) {
        let header = match Header::unmarshal(data) {
            Ok(h) => h,
            Err(e) => return Err(e),
        };
        proof { lemma_parse_header_size(data@); }
        let start = header.len() as usize;
        let mut all = match parse_ies(data, start) {
            Ok(v) => v,
            Err(e) => return Err(e),
        };
        let ghost parsed = ies_view(all@);
        let ghost cls = Self::classifier();
        let mut buckets = empty_buckets(5);
        proof {
            lemma_slot_ies_empty(cls);
            assert(parsed.take(0) =~= Seq::<IeView>::empty());
            assert forall|j: int| 0 <= j < 5 implies ies_view(#[trigger] buckets@[j]@) == slot_ies(parsed.take(0), cls, j) by {
                assert(ies_view(buckets@[j]@) =~= Seq::<IeView>::empty());
            }
        }
        let ghost mut done: int = 0;
        while all.len() > 0
            invariant
                0 <= done <= parsed.len(),
                ies_view(all@) == parsed.skip(done),
                cls == Self::classifier(),
                buckets@.len() == 5,
                forall|j: int| 0 <= j < 5 ==> ies_view(#[trigger] buckets@[j]@) == slot_ies(parsed.take(done), cls, j),
            decreases all@.len(),
        {
            let ghost old_all = all@;
            let ghost old_buckets = buckets@;
            let ie = all.remove(0);
            let ghost iev = ie@;
            proof {
                assert(ies_view(old_all).len() == old_all.len());
                assert(done < parsed.len());
                assert(ies_view(old_all)[0] == old_all[0]@);
                assert(parsed.skip(done)[0] == parsed[done]);
                assert(parsed[done] == iev);
                assert(parsed.take(done + 1) =~= parsed.take(done).push(iev));
                lemma_slot_ies_push_all(parsed.take(done), iev, cls);
                assert(all@ =~= old_all.skip(1));
                assert(ies_view(all@) =~= ies_view(old_all).skip(1));
                assert(parsed.skip(done).skip(1) =~= parsed.skip(done + 1));
            }
            let c = Self::classify(ie.ie_type);
            push_bucket(&mut buckets, c, ie);
            proof {
                assert forall|j: int| 0 <= j < 5 implies ies_view(#[trigger] buckets@[j]@) == slot_ies(parsed.take(done + 1), cls, j) by {
                    if j != c {
                        assert(buckets@[j] == old_buckets[j]);
                    }
                }
                done = done + 1;
            }
        }
        proof { assert(parsed.take(done) =~= parsed); }
        let ghost bs = buckets@;
        assert(ies_view(bs[0]@) == slot_ies(parsed, cls, 0));
        assert(ies_view(bs[1]@) == slot_ies(parsed, cls, 1));
        assert(ies_view(bs[2]@) == slot_ies(parsed, cls, 2));
        assert(ies_view(bs[3]@) == slot_ies(parsed, cls, 3));
        let slot0 = last_ie(take_bucket(&mut buckets, 0, Ghost(bs)));
        assert(opt_ie_seq(slot0) == decode_slot(parsed, cls, 0, SlotKind::One));
        let slot1 = last_ie(take_bucket(&mut buckets, 1, Ghost(bs)));
        assert(opt_ie_seq(slot1) == decode_slot(parsed, cls, 1, SlotKind::One));
        let slot2 = last_ie(take_bucket(&mut buckets, 2, Ghost(bs)));
        assert(opt_ie_seq(slot2) == decode_slot(parsed, cls, 2, SlotKind::One));
        let slot3 = take_bucket(&mut buckets, 3, Ghost(bs));
        assert(ies_view(slot3@) == decode_slot(parsed, cls, 3, SlotKind::Many));
        if slot0.is_none() {
            return Err(PfcpError::MissingMandatoryIe { ie_type: IeType::Cause, message_type: Some(MsgType::PfdManagementResponse) });
        }
        let cause = match slot0 { Some(x) => x, None => return Err(PfcpError::MissingMandatoryIe { ie_type: IeType::Cause, message_type: Some(MsgType::PfdManagementResponse) }) };
        let offending_ie = slot1;
        let node_id = slot2;
        let ies = slot3;
        let r = PfdManagementResponse { header, cause, offending_ie, node_id, ies };
        Ok(r)
    }

    fn msg_type(&self) -> (r: MsgType) {
        MsgType::PfdManagementResponse
    }

    fn msg_name(&self) -> (r: String) {
        MsgType::PfdManagementResponse.name().to_owned()
    }

    fn version(&self) -> (r: u8) {
        1
    }

    fn seid(&self) -> (r: Option<u64>) {
        if self.header.has_seid {
            Some(self.header.seid)
        } else {
            None
        }
    }

    fn sequence(&self) -> (r: u32) {
        self.header.sequence_number
    }

    fn set_sequence(&mut self, seq: u32) {
        self.header.sequence_number = seq;
    }

    fn ies(&self, ie_type: IeType) -> (r: IeIter<'_>) {
        match ie_type {
            IeType::Cause => IeIter::single(Some(&self.cause), ie_type),
            IeType::OffendingIe => match &self.offending_ie { Some(x) => IeIter::single(Some(x), ie_type), None => IeIter::single(None, ie_type) },
            IeType::NodeId => match &self.node_id { Some(x) => IeIter::single(Some(x), ie_type), None => IeIter::single(None, ie_type) },
            _ => IeIter::generic(self.ies.as_slice(), ie_type),
        }
    }

    fn find_ie(&self, ie_type: IeType) -> (r: Option<&Ie>) {
        let mut it = self.ies(ie_type);
        it.next()
    }

    fn find_all_ies(&self, ie_type: IeType) -> (r: Vec<&Ie>) {
        self.ies(ie_type).collect()
    }

    fn all_ies(&self) -> (r: Vec<&Ie>) {
        let mut out: Vec<&Ie> = Vec::new();
        assert(ie_refs_view(out@) =~= concat_slots(Seq::<Seq<IeView>>::empty()));
        list_slot_one(&mut out, &self.cause, Ghost(Seq::<Seq<IeView>>::empty()));
        list_slot_opt(&mut out, &self.offending_ie, Ghost(Seq::<Seq<IeView>>::empty().push(seq![self.cause@])));
        list_slot_opt(&mut out, &self.node_id, Ghost(Seq::<Seq<IeView>>::empty().push(seq![self.cause@]).push(opt_ie_seq(self.offending_ie))));
        list_slot_many(&mut out, &self.ies, Ghost(Seq::<Seq<IeView>>::empty().push(seq![self.cause@]).push(opt_ie_seq(self.offending_ie)).push(opt_ie_seq(self.node_id))));
        out
    }
}

/// A well-formed PfdManagementResponse reads back as itself: decoding its wire form gives its
/// header and fields.
pub proof fn lemma_pfd_management_response_roundtrip(m: PfdManagementResponse)
    requires
        m.well_formed(),
    ensures
        PfdManagementResponse::spec_decode_error(m.wire()) is None,
        PfdManagementResponse::spec_decoded(m.wire(), m),
{
    let body = concat_slots(m.slots());
    lemma_header_roundtrip(m.header, ies_wire(body));
    lemma_header_wire_len(m.header);
    assert((header_wire(m.header) + ies_wire(body)).skip(header_size(m.header) as int) =~= ies_wire(body));
    crate::ie::lemma_parse_ies_wire(body);
    lemma_decode_concat(m.slots(), PfdManagementResponse::classifier(), PfdManagementResponse::slot_kinds());
    assert(decode_slots(body, PfdManagementResponse::classifier(), PfdManagementResponse::slot_kinds()) == m.slots());
    assert(decode_slots(body, PfdManagementResponse::classifier(), PfdManagementResponse::slot_kinds())[0] == decode_slot(body, PfdManagementResponse::classifier(), 0, SlotKind::One));
    assert(decode_slots(body, PfdManagementResponse::classifier(), PfdManagementResponse::slot_kinds())[1] == decode_slot(body, PfdManagementResponse::classifier(), 1, SlotKind::One));
    assert(decode_slots(body, PfdManagementResponse::classifier(), PfdManagementResponse::slot_kinds())[2] == decode_slot(body, PfdManagementResponse::classifier(), 2, SlotKind::One));
    assert(decode_slots(body, PfdManagementResponse::classifier(), PfdManagementResponse::slot_kinds())[3] == decode_slot(body, PfdManagementResponse::classifier(), 3, SlotKind::Many));
    assert(m.slots()[0].len() > 0);
}

/// Builder for PfdManagementResponse messages.
#[derive(Debug)]
pub struct PfdManagementResponseBuilder {
    pub sequence: u32,
    pub cause: Option<Ie>,
    pub offending_ie: Option<Ie>,
    pub node_id: Option<Ie>,
    pub ies: Vec<Ie>,
}

impl PfdManagementResponseBuilder {
    /// The IEs of each field of the message this builder builds, in wire order.
    pub open spec fn built_slots(&self) -> Seq<Seq<IeView>> {
        Seq::<Seq<IeView>>::empty().push(seq![self.cause.unwrap()@]).push(opt_ie_seq(self.offending_ie)).push(opt_ie_seq(self.node_id)).push(ies_view(self.ies@))
    }

    /// The header of the message this builder builds.
    pub open spec fn built_header(&self) -> Header {
        message_header(MsgType::PfdManagementResponse, false, 0, self.sequence, concat_slots(self.built_slots()))
    }

    /// Creates a builder with no IEs set.
    pub fn new(sequence: u32) -> (r: Self)
        ensures
            r.sequence == sequence,
            r.cause is None,
            r.offending_ie is None,
            r.node_id is None,
            r.ies@.len() == 0,
    {
        PfdManagementResponseBuilder { sequence, cause: None, offending_ie: None, node_id: None, ies: Vec::new() }
    }

    /// Sets the cause.
    pub fn cause(self, cause_value: CauseValue) -> (r: Self)
        ensures
            r.cause is Some,
            r.cause.unwrap()@ == crate::ie::cause::cause_ie_view(cause_value),
            r == (Self { cause: r.cause, ..self }),
    {
        let mut s = self;
        let cause = Cause::new(cause_value);
        s.cause = Some(cause.to_ie());
        s
    }

    /// Sets the cause to "Request accepted".
    pub fn cause_accepted(self) -> (r: Self)
        ensures
            r.cause is Some,
            r.cause.unwrap()@ == crate::ie::cause::cause_ie_view(CauseValue::RequestAccepted),
            r == (Self { cause: r.cause, ..self }),
    {
        self.cause(CauseValue::RequestAccepted)
    }

    /// Sets the cause to "Request rejected".
    pub fn cause_rejected(self) -> (r: Self)
        ensures
            r.cause is Some,
            r.cause.unwrap()@ == crate::ie::cause::cause_ie_view(CauseValue::RequestRejected),
            r == (Self { cause: r.cause, ..self }),
    {
        self.cause(CauseValue::RequestRejected)
    }

    /// Sets the cause IE.
    pub fn cause_ie(self, ie: Ie) -> (r: Self)
        ensures
            r == (Self { cause: Some(ie), ..self }),
    {
        let mut s = self;
        s.cause = Some(ie);
        s
    }

    /// Sets the offending ie IE.
    pub fn offending_ie(self, ie: Ie) -> (r: Self)
        ensures
            r == (Self { offending_ie: Some(ie), ..self }),
    {
        let mut s = self;
        s.offending_ie = Some(ie);
        s
    }

    /// Sets the node id IE.
    pub fn node_id_ie(self, ie: Ie) -> (r: Self)
        ensures
            r == (Self { node_id: Some(ie), ..self }),
    {
        let mut s = self;
        s.node_id = Some(ie);
        s
    }

    /// Sets the Node ID.
    pub fn node_id(self, node_id: NodeId) -> (r: Self)
        ensures
            r.node_id is Some,
            r.node_id.unwrap()@ == (IeView { ie_type: IeType::NodeId, payload: crate::ie::node_id::node_id_bytes(node_id@) }),
            r == (Self { node_id: r.node_id, ..self }),
    {
        let mut s = self;
        s.node_id = Some(node_id.to_ie());
        s
    }

    /// Sets the Node ID to a fully qualified domain name.
    pub fn node_id_fqdn(self, fqdn: &str) -> (r: Self)
        ensures
            r.node_id is Some,
            r.node_id.unwrap()@ == crate::ie::node_id::fqdn_node_id_ie(fqdn@),
            r == (Self { node_id: r.node_id, ..self }),
    {
        let mut s = self;
        let node = NodeId::new_fqdn(fqdn);
        s.node_id = Some(node.to_ie());
        s
    }

    /// Adds an additional IE.
    pub fn ie(self, ie: Ie) -> (r: Self)
        ensures
            r.ies@ == self.ies@.push(ie),
            r == (Self { ies: r.ies, ..self }),
    {
        let mut s = self;
        s.ies.push(ie);
        s
    }

    /// Adds several additional IEs.
    pub fn ies(self, ies: Vec<Ie>) -> (r: Self)
        ensures
            r.ies@ == self.ies@ + ies@,
            r == (Self { ies: r.ies, ..self }),
    {
        let mut s = self;
        let mut v = ies;
        s.ies.append(&mut v);
        s
    }

    /// Builds the message. Every mandatory IE must have been set.
    pub fn build(self) -> (r: PfdManagementResponse)
        requires
            self.cause is Some,
        ensures
            r.header == message_header(MsgType::PfdManagementResponse, false, 0, self.sequence, concat_slots(r.slots())),
            r.cause == self.cause.unwrap(),
            r.offending_ie == self.offending_ie,
            r.node_id == self.node_id,
            r.ies == self.ies,
            r.slots() == self.built_slots(),
            r.header == self.built_header(),
    {
        let cause = self.cause.unwrap();
        PfdManagementResponse::assemble(self.sequence, cause, self.offending_ie, self.node_id, self.ies)
    }

    /// Builds the message and serializes it. Every mandatory IE must have been set.
    pub fn marshal(self) -> (r: Vec<u8>)
        requires
            self.cause is Some,
        ensures
            r@ == header_wire(self.built_header()) + ies_wire(concat_slots(self.built_slots())),
    {
        let msg = self.build();
        msg.marshal()
    }

    /// Builds the message, or says which mandatory IE is missing.
    pub fn try_build(self) -> (r: Result<PfdManagementResponse, &'static str>)
        ensures
            self.cause is None ==> r is Err && r->Err_0@ == "Cause IE is required for PfdManagementResponse"@,
            self.cause is Some ==> r is Ok,
            r matches Ok(r) ==> {
                r.header == message_header(MsgType::PfdManagementResponse, false, 0, self.sequence, concat_slots(r.slots())) &&
                r.cause == self.cause.unwrap() &&
                r.offending_ie == self.offending_ie &&
                r.node_id == self.node_id &&
                r.ies == self.ies &&
                r.slots() == self.built_slots() &&
                r.header == self.built_header() &&
                true
            },
    {
        let cause = match self.cause {
            Some(x) => x,
            None => return Err("Cause IE is required for PfdManagementResponse"),
        };
        Ok(PfdManagementResponse::assemble(self.sequence, cause, self.offending_ie, self.node_id, self.ies))
    }

}

/// Decoding what a PfdManagementResponse builder writes fails exactly when a mandatory IE is
/// missing from the IEs it was given, and a message decoded from it has the builder's
/// header, and so its sequence number; when every IE stands in the field for its type,
/// the decoded message has the builder's IEs in each field. This holds when the
/// sequence number fits the header's 24 bits and every IE fits its length field.
#[verifier::spinoff_prover]
pub proof fn lemma_pfd_management_response_builder_roundtrip(b: PfdManagementResponseBuilder)
    requires
        b.sequence < 16777216,
        ies_wf(concat_slots(b.built_slots())),
    ensures
        PfdManagementResponse::spec_decode_error(header_wire(b.built_header()) + ies_wire(concat_slots(b.built_slots()))) == (match PfdManagementResponse::missing_ie(concat_slots(b.built_slots())) {
            Some(t) => Some(PfcpError::MissingMandatoryIe { ie_type: t, message_type: Some(MsgType::PfdManagementResponse) }),
            None => None::<PfcpError>,
        }),
        forall|m: PfdManagementResponse|
            #[trigger] PfdManagementResponse::spec_decoded(header_wire(b.built_header()) + ies_wire(concat_slots(b.built_slots())), m) ==> m.header == b.built_header()
                && m.header.sequence_number == b.sequence,
        slots_typed(b.built_slots(), PfdManagementResponse::classifier(), PfdManagementResponse::slot_kinds()) ==> forall|m: PfdManagementResponse|
            #[trigger] PfdManagementResponse::spec_decoded(header_wire(b.built_header()) + ies_wire(concat_slots(b.built_slots())), m) ==> m.slots() == b.built_slots(),
{
    let h = b.built_header();
    let ss = b.built_slots();
    let body = concat_slots(ss);
    lemma_msg_type_code_roundtrip(MsgType::PfdManagementResponse);
    assert(header_wf(h));
    lemma_header_roundtrip(h, ies_wire(body));
    lemma_header_wire_len(h);
    assert((header_wire(h) + ies_wire(body)).skip(header_size(h) as int) =~= ies_wire(body));
    crate::ie::lemma_parse_ies_wire(body);
    if slots_typed(ss, PfdManagementResponse::classifier(), PfdManagementResponse::slot_kinds()) {
        lemma_decode_concat(ss, PfdManagementResponse::classifier(), PfdManagementResponse::slot_kinds());
        assert(decode_slots(body, PfdManagementResponse::classifier(), PfdManagementResponse::slot_kinds()) == ss);
        assert(decode_slots(body, PfdManagementResponse::classifier(), PfdManagementResponse::slot_kinds())[0] == decode_slot(body, PfdManagementResponse::classifier(), 0, SlotKind::One));
        assert(decode_slots(body, PfdManagementResponse::classifier(), PfdManagementResponse::slot_kinds())[1] == decode_slot(body, PfdManagementResponse::classifier(), 1, SlotKind::One));
        assert(decode_slots(body, PfdManagementResponse::classifier(), PfdManagementResponse::slot_kinds())[2] == decode_slot(body, PfdManagementResponse::classifier(), 2, SlotKind::One));
        assert(decode_slots(body, PfdManagementResponse::classifier(), PfdManagementResponse::slot_kinds())[3] == decode_slot(body, PfdManagementResponse::classifier(), 3, SlotKind::Many));
        assert forall|m: PfdManagementResponse| #[trigger] PfdManagementResponse::spec_decoded(header_wire(b.built_header()) + ies_wire(concat_slots(b.built_slots())), m) implies m.slots() == ss by {
            assert(m.slots() =~= ss);
        }
    }
}

impl PfdManagementResponse {
    /// Every IE is in the field named for its type, and the additional IEs are of
    /// no type that has a field of its own.
    #[verifier::opaque]
    pub open spec fn fields_hold_their_types(&self) -> bool {
        &&& self.cause.ie_type == IeType::Cause
        &&& (self.offending_ie matches Some(x) ==> x.ie_type == IeType::OffendingIe)
        &&& (self.node_id matches Some(x) ==> x.ie_type == IeType::NodeId)
        &&& forall|i: int| 0 <= i < self.ies@.len() ==> {
            let t = (#[trigger] self.ies@[i]).ie_type;
            t != IeType::Cause && t != IeType::OffendingIe && t != IeType::NodeId
        }
    }
}

/// Decoding puts every IE of the body into the field named for its IE type: a
/// field for one IE holds the last IE of its type, a list holds all IEs of its
/// type in wire order, and the additional IEs are the IEs of the other types, in
/// wire order.
#[verifier::spinoff_prover]
pub proof fn lemma_pfd_management_response_decoded_by_type(data: Seq<u8>, m: PfdManagementResponse)
    requires
        PfdManagementResponse::spec_decoded(data, m),
    ensures
        spec_parse_ies(data.skip(header_size(m.header) as int)) is Ok,
        ({
            let body = spec_parse_ies(data.skip(header_size(m.header) as int))->Ok_0;
            &&& ies_of_type(body, IeType::Cause).len() > 0 && m.cause@ == ies_of_type(body, IeType::Cause).last()
            &&& (ies_of_type(body, IeType::OffendingIe).len() == 0 ==> m.offending_ie is None)
            &&& (ies_of_type(body, IeType::OffendingIe).len() > 0 ==> (m.offending_ie matches Some(x) && x@ == ies_of_type(body, IeType::OffendingIe).last()))
            &&& (ies_of_type(body, IeType::NodeId).len() == 0 ==> m.node_id is None)
            &&& (ies_of_type(body, IeType::NodeId).len() > 0 ==> (m.node_id matches Some(x) && x@ == ies_of_type(body, IeType::NodeId).last()))
            &&& ies_view(m.ies@) == ies_where(body, |t: IeType| t != IeType::Cause && t != IeType::OffendingIe && t != IeType::NodeId)
            &&& true
        }),
{
    if let Ok(h) = spec_parse_header(data) {
        let body = spec_parse_ies(data.skip(header_size(h) as int))->Ok_0;
        let cls = PfdManagementResponse::classifier();
        assert(ies_of_type(body, IeType::Cause).len() > 0 && m.cause@ == ies_of_type(body, IeType::Cause).last()) by {
            assert forall|x: IeType| #[trigger] slot_pred(cls, 0)(x) == (x == IeType::Cause) by {}
            lemma_ies_where_ext(body, slot_pred(cls, 0), |x: IeType| x == IeType::Cause);
            lemma_ies_of_type_is_where(body, IeType::Cause);
            assert(decode_slot(body, cls, 0, SlotKind::One) == last_seq(ies_of_type(body, IeType::Cause)));
            assert(seq![m.cause@][0] == m.cause@);
        }
        assert((ies_of_type(body, IeType::OffendingIe).len() == 0 ==> m.offending_ie is None) && (ies_of_type(body, IeType::OffendingIe).len() > 0 ==> (m.offending_ie matches Some(x) && x@ == ies_of_type(body, IeType::OffendingIe).last()))) by {
            assert forall|x: IeType| #[trigger] slot_pred(cls, 1)(x) == (x == IeType::OffendingIe) by {}
            lemma_ies_where_ext(body, slot_pred(cls, 1), |x: IeType| x == IeType::OffendingIe);
            lemma_ies_of_type_is_where(body, IeType::OffendingIe);
            assert(decode_slot(body, cls, 1, SlotKind::One) == last_seq(ies_of_type(body, IeType::OffendingIe)));
            if ies_of_type(body, IeType::OffendingIe).len() > 0 { assert(opt_ie_seq(m.offending_ie)[0] == ies_of_type(body, IeType::OffendingIe).last()); }
        }
        assert((ies_of_type(body, IeType::NodeId).len() == 0 ==> m.node_id is None) && (ies_of_type(body, IeType::NodeId).len() > 0 ==> (m.node_id matches Some(x) && x@ == ies_of_type(body, IeType::NodeId).last()))) by {
            assert forall|x: IeType| #[trigger] slot_pred(cls, 2)(x) == (x == IeType::NodeId) by {}
            lemma_ies_where_ext(body, slot_pred(cls, 2), |x: IeType| x == IeType::NodeId);
            lemma_ies_of_type_is_where(body, IeType::NodeId);
            assert(decode_slot(body, cls, 2, SlotKind::One) == last_seq(ies_of_type(body, IeType::NodeId)));
            if ies_of_type(body, IeType::NodeId).len() > 0 { assert(opt_ie_seq(m.node_id)[0] == ies_of_type(body, IeType::NodeId).last()); }
        }
        assert(ies_view(m.ies@) == ies_where(body, |t: IeType| t != IeType::Cause && t != IeType::OffendingIe && t != IeType::NodeId)) by {
            assert forall|t: IeType| #[trigger] slot_pred(cls, 3)(t) == (t != IeType::Cause && t != IeType::OffendingIe && t != IeType::NodeId) by {}
            lemma_ies_where_ext(body, slot_pred(cls, 3), |t: IeType| t != IeType::Cause && t != IeType::OffendingIe && t != IeType::NodeId);
        }
    }
}

/// When every IE is in the field named for its type, every IE sits in the slot
/// that decoding assigns its type to.
proof fn lemma_pfd_management_response_fields_classified(m: PfdManagementResponse)
    requires
        m.fields_hold_their_types(),
    ensures
        slots_classified(m.slots(), PfdManagementResponse::classifier()),
{
    reveal(PfdManagementResponse::fields_hold_their_types);
    let cls = PfdManagementResponse::classifier();
    assert(slots_classified(Seq::<Seq<IeView>>::empty(), cls));
    assert(slots_classified(Seq::<Seq<IeView>>::empty().push(seq![m.cause@]), cls)) by {
        assert forall|k: int| 0 <= k < seq![m.cause@].len() implies cls(#[trigger] seq![m.cause@][k].ie_type) == 0 by {
        }
        lemma_classified_push(Seq::<Seq<IeView>>::empty(), seq![m.cause@], cls);
    }
    assert(slots_classified(Seq::<Seq<IeView>>::empty().push(seq![m.cause@]).push(opt_ie_seq(m.offending_ie)), cls)) by {
        assert forall|k: int| 0 <= k < opt_ie_seq(m.offending_ie).len() implies cls(#[trigger] opt_ie_seq(m.offending_ie)[k].ie_type) == 1 by {
        }
        lemma_classified_push(Seq::<Seq<IeView>>::empty().push(seq![m.cause@]), opt_ie_seq(m.offending_ie), cls);
    }
    assert(slots_classified(Seq::<Seq<IeView>>::empty().push(seq![m.cause@]).push(opt_ie_seq(m.offending_ie)).push(opt_ie_seq(m.node_id)), cls)) by {
        assert forall|k: int| 0 <= k < opt_ie_seq(m.node_id).len() implies cls(#[trigger] opt_ie_seq(m.node_id)[k].ie_type) == 2 by {
        }
        lemma_classified_push(Seq::<Seq<IeView>>::empty().push(seq![m.cause@]).push(opt_ie_seq(m.offending_ie)), opt_ie_seq(m.node_id), cls);
    }
    assert(slots_classified(Seq::<Seq<IeView>>::empty().push(seq![m.cause@]).push(opt_ie_seq(m.offending_ie)).push(opt_ie_seq(m.node_id)).push(ies_view(m.ies@)), cls)) by {
        assert forall|k: int| 0 <= k < ies_view(m.ies@).len() implies cls(#[trigger] ies_view(m.ies@)[k].ie_type) == 3 by {
            assert(ies_view(m.ies@)[k] == m.ies@[k]@);
        }
        lemma_classified_push(Seq::<Seq<IeView>>::empty().push(seq![m.cause@]).push(opt_ie_seq(m.offending_ie)).push(opt_ie_seq(m.node_id)), ies_view(m.ies@), cls);
    }
    assert(m.slots() == Seq::<Seq<IeView>>::empty().push(seq![m.cause@]).push(opt_ie_seq(m.offending_ie)).push(opt_ie_seq(m.node_id)).push(ies_view(m.ies@)));
}

/// When every IE is in the field named for its type, the IEs of each field's type
/// in that field are the whole field.
proof fn lemma_pfd_management_response_fields_of_their_type(m: PfdManagementResponse)
    requires
        m.fields_hold_their_types(),
    ensures
        ies_of_type(seq![m.cause@], IeType::Cause) == seq![m.cause@],
        ies_of_type(opt_ie_seq(m.offending_ie), IeType::OffendingIe) == opt_ie_seq(m.offending_ie),
        ies_of_type(opt_ie_seq(m.node_id), IeType::NodeId) == opt_ie_seq(m.node_id),
{
    reveal(PfdManagementResponse::fields_hold_their_types);
    assert(ies_of_type(seq![m.cause@], IeType::Cause) == seq![m.cause@]) by {
        assert forall|k: int| 0 <= k < seq![m.cause@].len() implies (#[trigger] seq![m.cause@][k]).ie_type == IeType::Cause by {
        }
        lemma_of_type_all(seq![m.cause@], IeType::Cause);
    }
    assert(ies_of_type(opt_ie_seq(m.offending_ie), IeType::OffendingIe) == opt_ie_seq(m.offending_ie)) by {
        assert forall|k: int| 0 <= k < opt_ie_seq(m.offending_ie).len() implies (#[trigger] opt_ie_seq(m.offending_ie)[k]).ie_type == IeType::OffendingIe by {
        }
        lemma_of_type_all(opt_ie_seq(m.offending_ie), IeType::OffendingIe);
    }
    assert(ies_of_type(opt_ie_seq(m.node_id), IeType::NodeId) == opt_ie_seq(m.node_id)) by {
        assert forall|k: int| 0 <= k < opt_ie_seq(m.node_id).len() implies (#[trigger] opt_ie_seq(m.node_id)[k]).ie_type == IeType::NodeId by {
        }
        lemma_of_type_all(opt_ie_seq(m.node_id), IeType::NodeId);
    }
}

/// Looking up the IEs of a type gives exactly the message's IEs of that type, in
/// wire order, when every IE is in the field named for its type.
#[verifier::spinoff_prover]
pub proof fn lemma_pfd_management_response_lookup_by_type(m: PfdManagementResponse, t: IeType)
    requires
        m.fields_hold_their_types(),
    ensures
        m.spec_ies_of(t) == ies_of_type(m.spec_body(), t),
        forall|k: int| 0 <= k < m.spec_ies_of(t).len() ==> (#[trigger] m.spec_ies_of(t)[k]).ie_type == t,
{
    let cls = PfdManagementResponse::classifier();
    lemma_pfd_management_response_fields_classified(m);
    lemma_of_type_classified(m.slots(), cls, t);
    lemma_pfd_management_response_fields_of_their_type(m);
    match t {
        IeType::Cause => {
            assert(m.slots()[0] == seq![m.cause@]);
        },
        IeType::OffendingIe => {
            assert(m.slots()[1] == opt_ie_seq(m.offending_ie));
        },
        IeType::NodeId => {
            assert(m.slots()[2] == opt_ie_seq(m.node_id));
        },
        _ => {
            assert(m.slots()[3] == ies_view(m.ies@));
        },
    }
    lemma_of_type_types(m.spec_body(), t);
}

} // verus!
