//! Session Deletion Request message (3GPP TS 29.244 clause 7.5.6).
use crate::error::PfcpError;
use crate::ie::{
    ie_refs_view, ies_of_type, ies_size, ies_view, ies_where, ies_wf, ies_wire, parse_ies, spec_parse_ies, Ie,
    IeType, IeView,
};
use crate::message::header::{
    header_size, header_wf, header_wire, lemma_header_roundtrip, lemma_header_wire_len, spec_parse_header, Header,
};
use crate::message::ie_iter::IeIter;
use crate::message::slots::{
    concat_slots, decode_slot, decode_slots, empty_buckets, last_ie, lemma_decode_concat, lemma_len_step,
    lemma_slot_ies_empty, lemma_slot_ies_push_all, len_slot_many, len_slot_opt, list_slot_many, list_slot_opt,
    opt_ie_seq, push_bucket, slot_ies, slots_typed, take_bucket, write_slot_many, write_slot_opt, SlotKind,
    last_seq, lemma_classified_push, lemma_ies_of_type_is_where, lemma_ies_where_ext, lemma_of_type_all,
    lemma_of_type_classified, lemma_of_type_types, slot_pred, slots_classified,
};
use crate::message::{lemma_msg_type_code_roundtrip, lemma_parse_header_size, message_header, Message, MsgType};
use crate::ie::fseid::Fseid;
use crate::ie::node_id::NodeId;
use vstd::prelude::*;

verus! {

/// A Session Deletion Request message (3GPP TS 29.244 clause 7.5.6)
#[derive(Debug, Clone, PartialEq, Eq)]
pub struct SessionDeletionRequest {
    pub header: Header,
    pub tl_container: Vec<Ie>,
    pub node_id: Option<Ie>,
    pub cp_fseid: Option<Ie>,
    pub ies: Vec<Ie>,
}

impl SessionDeletionRequest {
    /// The slot that an IE of type `t` is read into.
    pub open spec fn slot_class(t: IeType) -> int {
        match t {
            IeType::TlContainer => 0,
            IeType::NodeId => 1,
            IeType::Fseid => 2,
            _ => 3,
        }
    }

    /// The slot that an IE of type `t` is read into.
    fn classify(t: IeType) -> (r: usize)
        ensures
            r == Self::slot_class(t),
    {
        match t {
            IeType::TlContainer => 0,
            IeType::NodeId => 1,
            IeType::Fseid => 2,
            _ => 3,
        }
    }

    /// `slot_class` as a function value.
    pub open spec fn classifier() -> spec_fn(IeType) -> int {
        |t: IeType| Self::slot_class(t)
    }

    /// How many IEs each slot keeps, in wire order.
    pub open spec fn slot_kinds() -> Seq<SlotKind> {
        seq![SlotKind::Many, SlotKind::One, SlotKind::One, SlotKind::Many]
    }

    /// The IEs of each field, in wire order.
    pub open spec fn slots(&self) -> Seq<Seq<IeView>> {
        Seq::<Seq<IeView>>::empty().push(ies_view(self.tl_container@)).push(opt_ie_seq(self.node_id)).push(opt_ie_seq(self.cp_fseid)).push(ies_view(self.ies@))
    }

    /// The IEs in the order that `all_ies` lists them.
    pub open spec fn listed_ies(&self) -> Seq<IeView> {
        concat_slots(Seq::<Seq<IeView>>::empty().push(ies_view(self.tl_container@)).push(opt_ie_seq(self.node_id)).push(opt_ie_seq(self.cp_fseid)).push(ies_view(self.ies@)))
    }

    /// The first mandatory IE that `ies` lacks, checked in the order the decoder checks.
    pub open spec fn missing_ie(ies: Seq<IeView>) -> Option<IeType> {
        None
    }

    /// The fields have a shape that decoding gives back: every IE is in the field for its type,
    /// mandatory lists are not empty and optional lists are present only when not empty.
    pub open spec fn fields_canonical(&self) -> bool {
        slots_typed(self.slots(), Self::classifier(), Self::slot_kinds())
    }

    /// A message that reads back as itself.
    pub open spec fn well_formed(&self) -> bool {
        header_wf(self.header) && ies_wf(concat_slots(self.slots())) && self.fields_canonical()
    }

    /// The wire form of the message: its header, then its IEs in wire order.
    pub open spec fn wire(&self) -> Seq<u8> {
        header_wire(self.header) + ies_wire(concat_slots(self.slots()))
    }

    /// Decoding `ies` gives these fields.
    pub open spec fn decodes_from(&self, ies: Seq<IeView>) -> bool {
        &&& ies_view(self.tl_container@) == decode_slot(ies, Self::classifier(), 0, SlotKind::Many)
        &&& opt_ie_seq(self.node_id) == decode_slot(ies, Self::classifier(), 1, SlotKind::One)
        &&& opt_ie_seq(self.cp_fseid) == decode_slot(ies, Self::classifier(), 2, SlotKind::One)
        &&& ies_view(self.ies@) == decode_slot(ies, Self::classifier(), 3, SlotKind::Many)
    }

    /// Assembles a message from its fields; the header length covers the fields' IEs.
    fn assemble(seid: u64, seq: u32, tl_container: Vec<Ie>, node_id: Option<Ie>, cp_fseid: Option<Ie>, ies: Vec<Ie>) -> (r: Self)
        ensures
            r.header == message_header(MsgType::SessionDeletionRequest, true, seid, seq, concat_slots(r.slots())),
            r.tl_container == tl_container,
            r.node_id == node_id,
            r.cp_fseid == cp_fseid,
            r.ies == ies,
    {
        let len: u16 = 0;
        let len = len_slot_many(len, &tl_container, Ghost(Seq::<Seq<IeView>>::empty()));
        let len = len_slot_opt(len, &node_id, Ghost(Seq::<Seq<IeView>>::empty().push(ies_view(tl_container@))));
        let len = len_slot_opt(len, &cp_fseid, Ghost(Seq::<Seq<IeView>>::empty().push(ies_view(tl_container@)).push(opt_ie_seq(node_id))));
        let len = len_slot_many(len, &ies, Ghost(Seq::<Seq<IeView>>::empty().push(ies_view(tl_container@)).push(opt_ie_seq(node_id)).push(opt_ie_seq(cp_fseid))));
        let mut header = Header::new(MsgType::SessionDeletionRequest, true, seid, seq);
        proof { lemma_len_step(ies_size(concat_slots(Seq::<Seq<IeView>>::empty().push(ies_view(tl_container@)).push(opt_ie_seq(node_id)).push(opt_ie_seq(cp_fseid)).push(ies_view(ies@)))) as int, header_size(header) as int - 4, len as int); }
        header.length = ((len as u32 + header.len() as u32 - 4) % 65536) as u16;
        SessionDeletionRequest { header, tl_container, node_id, cp_fseid, ies }
    }

    /// Creates a Session Deletion Request message; the header length covers the given IEs.
    pub fn new(seid: u64, seq: u32, tl_container: Vec<Ie>, node_id: Option<Ie>, cp_fseid: Option<Ie>, ies: Vec<Ie>) -> (r: Self)
        ensures
            r.header == message_header(MsgType::SessionDeletionRequest, true, seid, seq, concat_slots(r.slots())),
            r.tl_container == tl_container,
            r.node_id == node_id,
            r.cp_fseid == cp_fseid,
            r.ies == ies,
    {
        Self::assemble(seid, seq, tl_container, node_id, cp_fseid, ies)
    }

    /// The node id, decoded from its IE, if present.
    pub fn node_id(&self) -> (r: Option<Result<NodeId, PfcpError>>)
        ensures
            self.node_id is None ==> r is None,
            self.node_id matches Some(x) ==> r matches Some(d) && (match crate::ie::node_id::spec_parse_node_id(x.payload@) { Ok(v) => d is Ok && d->Ok_0@ == v, Err(e) => d == Err::<NodeId, PfcpError>(e) }),
    {
        match &self.node_id {
            Some(x) => Some(NodeId::unmarshal(x.payload.as_slice())),
            None => None,
        }
    }

    /// The cp fseid, decoded from its IE, if present.
    pub fn cp_fseid(&self) -> (r: Option<Result<Fseid, PfcpError>>)
        ensures
            self.cp_fseid is None ==> r is None,
            self.cp_fseid matches Some(x) ==> r matches Some(d) && (match crate::ie::fseid::spec_parse_fseid(x.payload@) { Ok(v) => d is Ok && d->Ok_0@ == v, Err(e) => d == Err::<Fseid, PfcpError>(e) }),
    {
        match &self.cp_fseid {
            Some(x) => Some(Fseid::unmarshal(x.payload.as_slice())),
            None => None,
        }
    }

}

impl Message for SessionDeletionRequest {
    open spec fn spec_header(&self) -> Header {
        self.header
    }

    open spec fn spec_body(&self) -> Seq<IeView> {
        concat_slots(self.slots())
    }

    open spec fn spec_listed(&self) -> Seq<IeView> {
        self.listed_ies()
    }

    open spec fn spec_ies_of(&self, t: IeType) -> Seq<IeView> {
        match t {
            IeType::TlContainer => ies_view(self.tl_container@),
            IeType::NodeId => opt_ie_seq(self.node_id),
            IeType::Fseid => opt_ie_seq(self.cp_fseid),
            _ => crate::ie::ies_of_type(ies_view(self.ies@), t),
        }
    }

    open spec fn spec_msg_type(&self) -> MsgType {
        MsgType::SessionDeletionRequest
    }

    open spec fn spec_decode_error(data: Seq<u8>) -> Option<PfcpError> {
        match spec_parse_header(data) {
            Err(e) => Some(e),
            Ok(h) => match spec_parse_ies(data.skip(header_size(h) as int)) {
                Err(e) => Some(e),
                Ok(ies) => match Self::missing_ie(ies) {
                    Some(t) => Some(PfcpError::MissingMandatoryIe { ie_type: t, message_type: Some(MsgType::SessionDeletionRequest) }),
                    None => None,
                },
            },
        }
    }

    open spec fn spec_decoded(data: Seq<u8>, m: Self) -> bool {
        match spec_parse_header(data) {
            Err(_) => false,
            Ok(h) => match spec_parse_ies(data.skip(header_size(h) as int)) {
                Err(_) => false,
                Ok(ies) => m.header == h && m.decodes_from(ies),
            },
        }
    }

    fn marshal_into(&self, buf: &mut Vec<u8>) {
        self.header.marshal_into(buf);
        let ghost p = buf@;
        assert(buf@ =~= p + ies_wire(concat_slots(Seq::<Seq<IeView>>::empty())));
        write_slot_many(buf, &self.tl_container, Ghost(p), Ghost(Seq::<Seq<IeView>>::empty()));
        write_slot_opt(buf, &self.node_id, Ghost(p), Ghost(Seq::<Seq<IeView>>::empty().push(ies_view(self.tl_container@))));
        write_slot_opt(buf, &self.cp_fseid, Ghost(p), Ghost(Seq::<Seq<IeView>>::empty().push(ies_view(self.tl_container@)).push(opt_ie_seq(self.node_id))));
        write_slot_many(buf, &self.ies, Ghost(p), Ghost(Seq::<Seq<IeView>>::empty().push(ies_view(self.tl_container@)).push(opt_ie_seq(self.node_id)).push(opt_ie_seq(self.cp_fseid))));
        assert(buf@ =~= old(buf)@ + header_wire(self.header) + ies_wire(concat_slots(self.slots())));
    }

    fn marshal(&self) -> (r: Vec<u8>) {
        let mut buf: Vec<u8> = Vec::new();
        self.marshal_into(&mut buf);
        assert(buf@ =~= header_wire(self.header) + ies_wire(concat_slots(self.slots())));
        buf
    }

    fn marshaled_size(&self) -> (r: usize) {
        let v = self.marshal();
        v.len()
    }

    fn unmarshal(data: &[u8]) -> (r: Result<Self, PfcpError>) {
        let header = match Header::unmarshal(data) {
            Ok(h) => h,
            Err(e) => return Err(e),
        };
        proof { lemma_parse_header_size(data@); }
        let start = header.len() as usize;
        let mut all = match parse_ies(data, start) {
            Ok(v) => v,
            Err(e) => return Err(e),
        };
        let ghost parsed = ies_view(all@);
        let ghost cls = Self::classifier();
        let mut buckets = empty_buckets(5);
        proof {
            lemma_slot_ies_empty(cls);
            assert(parsed.take(0) =~= Seq::<IeView>::empty());
            assert forall|j: int| 0 <= j < 5 implies ies_view(#[trigger] buckets@[j]@) == slot_ies(parsed.take(0), cls, j) by {
                assert(ies_view(buckets@[j]@) =~= Seq::<IeView>::empty());
            }
        }
        let ghost mut done: int = 0;
        while all.len() > 0
            invariant
                0 <= done <= parsed.len(),
                ies_view(all@) == parsed.skip(done),
                cls == Self::classifier(),
                buckets@.len() == 5,
                forall|j: int| 0 <= j < 5 ==> ies_view(#[trigger] buckets@[j]@) == slot_ies(parsed.take(done), cls, j),
            decreases all@.len(),
        {
            let ghost old_all = all@;
            let ghost old_buckets = buckets@;
            let ie = all.remove(0);
            let ghost iev = ie@;
            proof {
                assert(ies_view(old_all).len() == old_all.len());
                assert(done < parsed.len());
                assert(ies_view(old_all)[0] == old_all[0]@);
                assert(parsed.skip(done)[0] == parsed[done]);
                assert(parsed[done] == iev);
                assert(parsed.take(done + 1) =~= parsed.take(done).push(iev));
                lemma_slot_ies_push_all(parsed.take(done), iev, cls);
                assert(all@ =~= old_all.skip(1));
                assert(ies_view(all@) =~= ies_view(old_all).skip(1));
                assert(parsed.skip(done).skip(1) =~= parsed.skip(done + 1));
            }
            let c = Self::classify(ie.ie_type);
            push_bucket(&mut buckets, c, ie);
            proof {
                assert forall|j: int| 0 <= j < 5 implies ies_view(#[trigger] buckets@[j]@) == slot_ies(parsed.take(done + 1), cls, j) by {
                    if j != c {
                        assert(buckets@[j] == old_buckets[j]);
                    }
                }
                done = done + 1;
            }
        }
        proof { assert(parsed.take(done) =~= parsed); }
        let ghost bs = buckets@;
        assert(ies_view(bs[0]@) == slot_ies(parsed, cls, 0));
        assert(ies_view(bs[1]@) == slot_ies(parsed, cls, 1));
        assert(ies_view(bs[2]@) == slot_ies(parsed, cls, 2));
        assert(ies_view(bs[3]@) == slot_ies(parsed, cls, 3));
        let slot0 = take_bucket(&mut buckets, 0, Ghost(bs));
        assert(ies_view(slot0@) == decode_slot(parsed, cls, 0, SlotKind::Many));
        let slot1 = last_ie(take_bucket(&mut buckets, 1, Ghost(bs)));
        assert(opt_ie_seq(slot1) == decode_slot(parsed, cls, 1, SlotKind::One));
        let slot2 = last_ie(take_bucket(&mut buckets, 2, Ghost(bs)));
        assert(opt_ie_seq(slot2) == decode_slot(parsed, cls, 2, SlotKind::One));
        let slot3 = take_bucket(&mut buckets, 3, Ghost(bs));
        assert(ies_view(slot3@) == decode_slot(parsed, cls, 3, SlotKind::Many));
        let tl_container = slot0;
        let node_id = slot1;
        let cp_fseid = slot2;
        let ies = slot3;
        let r = SessionDeletionRequest { header, tl_container, node_id, cp_fseid, ies };
        Ok(r)
    }

    fn msg_type(&self) -> (r: MsgType) {
        MsgType::SessionDeletionRequest
    }

    fn msg_name(&self) -> (r: String) {
        MsgType::SessionDeletionRequest.name().to_owned()
    }

    fn version(&self) -> (r: u8) {
        1
    }

    fn seid(&self) -> (r: Option<u64>) {
        if self.header.has_seid {
            Some(self.header.seid)
        } else {
            None
        }
    }

    fn sequence(&self) -> (r: u32) {
        self.header.sequence_number
    }

    fn set_sequence(&mut self, seq: u32) {
        self.header.sequence_number = seq;
    }

    fn ies(&self, ie_type: IeType) -> (r: IeIter<'_>) {
        match ie_type {
            IeType::TlContainer => IeIter::multiple(self.tl_container.as_slice(), ie_type),
            IeType::NodeId => match &self.node_id { Some(x) => IeIter::single(Some(x), ie_type), None => IeIter::single(None, ie_type) },
            IeType::Fseid => match &self.cp_fseid { Some(x) => IeIter::single(Some(x), ie_type), None => IeIter::single(None, ie_type) },
            _ => IeIter::generic(self.ies.as_slice(), ie_type),
        }
    }

    fn find_ie(&self, ie_type: IeType) -> (r: Option<&Ie>) {
        let mut it = self.ies(ie_type);
        it.next()
    }

    fn find_all_ies(&self, ie_type: IeType) -> (r: Vec<&Ie>) {
        self.ies(ie_type).collect()
    }

    fn all_ies(&self) -> (r: Vec<&Ie>) {
        let mut out: Vec<&Ie> = Vec::new();
        assert(ie_refs_view(out@) =~= concat_slots(Seq::<Seq<IeView>>::empty()));
        list_slot_many(&mut out, &self.tl_container, Ghost(Seq::<Seq<IeView>>::empty()));
        list_slot_opt(&mut out, &self.node_id, Ghost(Seq::<Seq<IeView>>::empty().push(ies_view(self.tl_container@))));
        list_slot_opt(&mut out, &self.cp_fseid, Ghost(Seq::<Seq<IeView>>::empty().push(ies_view(self.tl_container@)).push(opt_ie_seq(self.node_id))));
        list_slot_many(&mut out, &self.ies, Ghost(Seq::<Seq<IeView>>::empty().push(ies_view(self.tl_container@)).push(opt_ie_seq(self.node_id)).push(opt_ie_seq(self.cp_fseid))));
        out
    }
}

/// A well-formed SessionDeletionRequest reads back as itself: decoding its wire form gives its
/// header and fields.
pub proof fn lemma_session_deletion_request_roundtrip(m: SessionDeletionRequest)
    requires
        m.well_formed(),
    ensures
        SessionDeletionRequest::spec_decode_error(m.wire()) is None,
        SessionDeletionRequest::spec_decoded(m.wire(), m),
{
    let body = concat_slots(m.slots());
    lemma_header_roundtrip(m.header, ies_wire(body));
    lemma_header_wire_len(m.header);
    assert((header_wire(m.header) + ies_wire(body)).skip(header_size(m.header) as int) =~= ies_wire(body));
    crate::ie::lemma_parse_ies_wire(body);
    lemma_decode_concat(m.slots(), SessionDeletionRequest::classifier(), SessionDeletionRequest::slot_kinds());
    assert(decode_slots(body, SessionDeletionRequest::classifier(), SessionDeletionRequest::slot_kinds()) == m.slots());
    assert(decode_slots(body, SessionDeletionRequest::classifier(), SessionDeletionRequest::slot_kinds())[0] == decode_slot(body, SessionDeletionRequest::classifier(), 0, SlotKind::Many));
    assert(decode_slots(body, SessionDeletionRequest::classifier(), SessionDeletionRequest::slot_kinds())[1] == decode_slot(body, SessionDeletionRequest::classifier(), 1, SlotKind::One));
    assert(decode_slots(body, SessionDeletionRequest::classifier(), SessionDeletionRequest::slot_kinds())[2] == decode_slot(body, SessionDeletionRequest::classifier(), 2, SlotKind::One));
    assert(decode_slots(body, SessionDeletionRequest::classifier(), SessionDeletionRequest::slot_kinds())[3] == decode_slot(body, SessionDeletionRequest::classifier(), 3, SlotKind::Many));
}

/// Builder for SessionDeletionRequest messages.
#[derive(Debug)]
pub struct SessionDeletionRequestBuilder {
    pub seid: u64,
    pub sequence: u32,
    pub tl_container: Vec<Ie>,
    pub node_id: Option<Ie>,
    pub cp_fseid: Option<Ie>,
    pub ies: Vec<Ie>,
}

impl SessionDeletionRequestBuilder {
    /// The IEs of each field of the message this builder builds, in wire order.
    pub open spec fn built_slots(&self) -> Seq<Seq<IeView>> {
        Seq::<Seq<IeView>>::empty().push(ies_view(self.tl_container@)).push(opt_ie_seq(self.node_id)).push(opt_ie_seq(self.cp_fseid)).push(ies_view(self.ies@))
    }

    /// The header of the message this builder builds.
    pub open spec fn built_header(&self) -> Header {
        message_header(MsgType::SessionDeletionRequest, true, self.seid, self.sequence, concat_slots(self.built_slots()))
    }

    /// Creates a builder with no IEs set.
    pub fn new(seid: u64, sequence: u32) -> (r: Self)
        ensures
            r.seid == seid,
            r.sequence == sequence,
            r.tl_container@.len() == 0,
            r.node_id is None,
            r.cp_fseid is None,
            r.ies@.len() == 0,
    {
        SessionDeletionRequestBuilder { seid, sequence, tl_container: Vec::new(), node_id: None, cp_fseid: None, ies: Vec::new() }
    }

    /// Adds a TL-Container IE.
    pub fn tl_container(self, ie: Ie) -> (r: Self)
        ensures
            r.tl_container@ == self.tl_container@.push(ie),
            r == (Self { tl_container: r.tl_container, ..self }),
    {
        let mut s = self;
        s.tl_container.push(ie);
        s
    }

    /// Adds several TL-Container IEs.
    pub fn tl_containers(self, ies: Vec<Ie>) -> (r: Self)
        ensures
            r.tl_container@ == self.tl_container@ + ies@,
            r == (Self { tl_container: r.tl_container, ..self }),
    {
        let mut s = self;
        let mut v = ies;
        s.tl_container.append(&mut v);
        s
    }

    /// Sets the Node ID.
    pub fn node_id(self, node_id: NodeId) -> (r: Self)
        ensures
            r.node_id is Some,
            r.node_id.unwrap()@ == (IeView { ie_type: IeType::NodeId, payload: crate::ie::node_id::node_id_bytes(node_id@) }),
            r == (Self { node_id: r.node_id, ..self }),
    {
        let mut s = self;
        s.node_id = Some(node_id.to_ie());
        s
    }

    /// Sets the Node ID to a fully qualified domain name.
    pub fn node_id_fqdn(self, fqdn: &str) -> (r: Self)
        ensures
            r.node_id is Some,
            r.node_id.unwrap()@ == crate::ie::node_id::fqdn_node_id_ie(fqdn@),
            r == (Self { node_id: r.node_id, ..self }),
    {
        let mut s = self;
        let node = NodeId::new_fqdn(fqdn);
        s.node_id = Some(node.to_ie());
        s
    }

    /// Sets the node id IE.
    pub fn node_id_ie(self, ie: Ie) -> (r: Self)
        ensures
            r == (Self { node_id: Some(ie), ..self }),
    {
        let mut s = self;
        s.node_id = Some(ie);
        s
    }

    /// Sets the CP F-SEID.
    pub fn cp_fseid(self, fseid: Fseid) -> (r: Self)
        ensures
            r.cp_fseid is Some,
            r.cp_fseid.unwrap()@ == (IeView { ie_type: IeType::Fseid, payload: crate::ie::fseid::fseid_bytes(fseid@) }),
            r == (Self { cp_fseid: r.cp_fseid, ..self }),
    {
        let mut s = self;
        s.cp_fseid = Some(fseid.to_ie());
        s
    }

    /// Sets the cp fseid IE.
    pub fn cp_fseid_ie(self, ie: Ie) -> (r: Self)
        ensures
            r == (Self { cp_fseid: Some(ie), ..self }),
    {
        let mut s = self;
        s.cp_fseid = Some(ie);
        s
    }

    /// Adds an additional IE.
    pub fn ie(self, ie: Ie) -> (r: Self)
        ensures
            r.ies@ == self.ies@.push(ie),
            r == (Self { ies: r.ies, ..self }),
    {
        let mut s = self;
        s.ies.push(ie);
        s
    }

    /// Adds several additional IEs.
    pub fn ies(self, ies: Vec<Ie>) -> (r: Self)
        ensures
            r.ies@ == self.ies@ + ies@,
            r == (Self { ies: r.ies, ..self }),
    {
        let mut s = self;
        let mut v = ies;
        s.ies.append(&mut v);
        s
    }

    /// Builds the message.
    pub fn build(self) -> (r: SessionDeletionRequest)
        ensures
            r.header == message_header(MsgType::SessionDeletionRequest, true, self.seid, self.sequence, concat_slots(r.slots())),
            r.tl_container == self.tl_container,
            r.node_id == self.node_id,
            r.cp_fseid == self.cp_fseid,
            r.ies == self.ies,
            r.slots() == self.built_slots(),
            r.header == self.built_header(),
    {
        SessionDeletionRequest::assemble(self.seid, self.sequence, self.tl_container, self.node_id, self.cp_fseid, self.ies)
    }

    /// Builds the message and serializes it.
    pub fn marshal(self) -> (r: Vec<u8>)
        ensures
            r@ == header_wire(self.built_header()) + ies_wire(concat_slots(self.built_slots())),
    {
        let msg = self.build();
        msg.marshal()
    }

}

/// Decoding what a SessionDeletionRequest builder writes fails exactly when a mandatory IE is
/// missing from the IEs it was given, and a message decoded from it has the builder's
/// header, and so its sequence number; when every IE stands in the field for its type,
/// the decoded message has the builder's IEs in each field. This holds when the
/// sequence number fits the header's 24 bits and every IE fits its length field.
#[verifier::spinoff_prover]
pub proof fn lemma_session_deletion_request_builder_roundtrip(b: SessionDeletionRequestBuilder)
    requires
        b.sequence < 16777216,
        ies_wf(concat_slots(b.built_slots())),
    ensures
        SessionDeletionRequest::spec_decode_error(header_wire(b.built_header()) + ies_wire(concat_slots(b.built_slots()))) == (match SessionDeletionRequest::missing_ie(concat_slots(b.built_slots())) {
            Some(t) => Some(PfcpError::MissingMandatoryIe { ie_type: t, message_type: Some(MsgType::SessionDeletionRequest) }),
            None => None::<PfcpError>,
        }),
        forall|m: SessionDeletionRequest|
            #[trigger] SessionDeletionRequest::spec_decoded(header_wire(b.built_header()) + ies_wire(concat_slots(b.built_slots())), m) ==> m.header == b.built_header()
                && m.header.sequence_number == b.sequence,
        slots_typed(b.built_slots(), SessionDeletionRequest::classifier(), SessionDeletionRequest::slot_kinds()) ==> forall|m: SessionDeletionRequest|
            #[trigger] SessionDeletionRequest::spec_decoded(header_wire(b.built_header()) + ies_wire(concat_slots(b.built_slots())), m) ==> m.slots() == b.built_slots(),
{
    let h = b.built_header();
    let ss = b.built_slots();
    let body = concat_slots(ss);
    lemma_msg_type_code_roundtrip(MsgType::SessionDeletionRequest);
    assert(header_wf(h));
    lemma_header_roundtrip(h, ies_wire(body));
    lemma_header_wire_len(h);
    assert((header_wire(h) + ies_wire(body)).skip(header_size(h) as int) =~= ies_wire(body));
    crate::ie::lemma_parse_ies_wire(body);
    if slots_typed(ss, SessionDeletionRequest::classifier(), SessionDeletionRequest::slot_kinds()) {
        lemma_decode_concat(ss, SessionDeletionRequest::classifier(), SessionDeletionRequest::slot_kinds());
        assert(decode_slots(body, SessionDeletionRequest::classifier(), SessionDeletionRequest::slot_kinds()) == ss);
        assert(decode_slots(body, SessionDeletionRequest::classifier(), SessionDeletionRequest::slot_kinds())[0] == decode_slot(body, SessionDeletionRequest::classifier(), 0, SlotKind::Many));
        assert(decode_slots(body, SessionDeletionRequest::classifier(), SessionDeletionRequest::slot_kinds())[1] == decode_slot(body, SessionDeletionRequest::classifier(), 1, SlotKind::One));
        assert(decode_slots(body, SessionDeletionRequest::classifier(), SessionDeletionRequest::slot_kinds())[2] == decode_slot(body, SessionDeletionRequest::classifier(), 2, SlotKind::One));
        assert(decode_slots(body, SessionDeletionRequest::classifier(), SessionDeletionRequest::slot_kinds())[3] == decode_slot(body, SessionDeletionRequest::classifier(), 3, SlotKind::Many));
        assert forall|m: SessionDeletionRequest| #[trigger] SessionDeletionRequest::spec_decoded(header_wire(b.built_header()) + ies_wire(concat_slots(b.built_slots())), m) implies m.slots() == ss by {
            assert(m.slots() =~= ss);
        }
    }
}

impl SessionDeletionRequest {
    /// Every IE is in the field named for its type, and the additional IEs are of
    /// no type that has a field of its own.
    #[verifier::opaque]
    pub open spec fn fields_hold_their_types(&self) -> bool {
        &&& forall|i: int| 0 <= i < self.tl_container@.len() ==> (#[trigger] self.tl_container@[i]).ie_type == IeType::TlContainer
        &&& (self.node_id matches Some(x) ==> x.ie_type == IeType::NodeId)
        &&& (self.cp_fseid matches Some(x) ==> x.ie_type == IeType::Fseid)
        &&& forall|i: int| 0 <= i < self.ies@.len() ==> {
            let t = (#[trigger] self.ies@[i]).ie_type;
            t != IeType::TlContainer && t != IeType::NodeId && t != IeType::Fseid
        }
    }
}

/// Decoding puts every IE of the body into the field named for its IE type: a
/// field for one IE holds the last IE of its type, a list holds all IEs of its
/// type in wire order, and the additional IEs are the IEs of the other types, in
/// wire order.
#[verifier::spinoff_prover]
pub proof fn lemma_session_deletion_request_decoded_by_type(data: Seq<u8>, m: SessionDeletionRequest)
    requires
        SessionDeletionRequest::spec_decoded(data, m),
    ensures
        spec_parse_ies(data.skip(header_size(m.header) as int)) is Ok,
        ({
            let body = spec_parse_ies(data.skip(header_size(m.header) as int))->Ok_0;
            &&& ies_view(m.tl_container@) == ies_of_type(body, IeType::TlContainer)
            &&& (ies_of_type(body, IeType::NodeId).len() == 0 ==> m.node_id is None)
            &&& (ies_of_type(body, IeType::NodeId).len() > 0 ==> (m.node_id matches Some(x) && x@ == ies_of_type(body, IeType::NodeId).last()))
            &&& (ies_of_type(body, IeType::Fseid).len() == 0 ==> m.cp_fseid is None)
            &&& (ies_of_type(body, IeType::Fseid).len() > 0 ==> (m.cp_fseid matches Some(x) && x@ == ies_of_type(body, IeType::Fseid).last()))
            &&& ies_view(m.ies@) == ies_where(body, |t: IeType| t != IeType::TlContainer && t != IeType::NodeId && t != IeType::Fseid)
            &&& true
        }),
{
    if let Ok(h) = spec_parse_header(data) {
        let body = spec_parse_ies(data.skip(header_size(h) as int))->Ok_0;
        let cls = SessionDeletionRequest::classifier();
        assert(ies_view(m.tl_container@) == ies_of_type(body, IeType::TlContainer)) by {
            assert forall|x: IeType| #[trigger] slot_pred(cls, 0)(x) == (x == IeType::TlContainer) by {}
            lemma_ies_where_ext(body, slot_pred(cls, 0), |x: IeType| x == IeType::TlContainer);
            lemma_ies_of_type_is_where(body, IeType::TlContainer);
        }
        assert((ies_of_type(body, IeType::NodeId).len() == 0 ==> m.node_id is None) && (ies_of_type(body, IeType::NodeId).len() > 0 ==> (m.node_id matches Some(x) && x@ == ies_of_type(body, IeType::NodeId).last()))) by {
            assert forall|x: IeType| #[trigger] slot_pred(cls, 1)(x) == (x == IeType::NodeId) by {}
            lemma_ies_where_ext(body, slot_pred(cls, 1), |x: IeType| x == IeType::NodeId);
            lemma_ies_of_type_is_where(body, IeType::NodeId);
            assert(decode_slot(body, cls, 1, SlotKind::One) == last_seq(ies_of_type(body, IeType::NodeId)));
            if ies_of_type(body, IeType::NodeId).len() > 0 { assert(opt_ie_seq(m.node_id)[0] == ies_of_type(body, IeType::NodeId).last()); }
        }
        assert((ies_of_type(body, IeType::Fseid).len() == 0 ==> m.cp_fseid is None) && (ies_of_type(body, IeType::Fseid).len() > 0 ==> (m.cp_fseid matches Some(x) && x@ == ies_of_type(body, IeType::Fseid).last()))) by {
            assert forall|x: IeType| #[trigger] slot_pred(cls, 2)(x) == (x == IeType::Fseid) by {}
            lemma_ies_where_ext(body, slot_pred(cls, 2), |x: IeType| x == IeType::Fseid);
            lemma_ies_of_type_is_where(body, IeType::Fseid);
            assert(decode_slot(body, cls, 2, SlotKind::One) == last_seq(ies_of_type(body, IeType::Fseid)));
            if ies_of_type(body, IeType::Fseid).len() > 0 { assert(opt_ie_seq(m.cp_fseid)[0] == ies_of_type(body, IeType::Fseid).last()); }
        }
        assert(ies_view(m.ies@) == ies_where(body, |t: IeType| t != IeType::TlContainer && t != IeType::NodeId && t != IeType::Fseid)) by {
            assert forall|t: IeType| #[trigger] slot_pred(cls, 3)(t) == (t != IeType::TlContainer && t != IeType::NodeId && t != IeType::Fseid) by {}
            lemma_ies_where_ext(body, slot_pred(cls, 3), |t: IeType| t != IeType::TlContainer && t != IeType::NodeId && t != IeType::Fseid);
        }
    }
}

/// When every IE is in the field named for its type, every IE sits in the slot
/// that decoding assigns its type to.
proof fn lemma_session_deletion_request_fields_classified(m: SessionDeletionRequest)
    requires
        m.fields_hold_their_types(),
    ensures
        slots_classified(m.slots(), SessionDeletionRequest::classifier()),
{
    reveal(SessionDeletionRequest::fields_hold_their_types);
    let cls = SessionDeletionRequest::classifier();
    assert(slots_classified(Seq::<Seq<IeView>>::empty(), cls));
    assert(slots_classified(Seq::<Seq<IeView>>::empty().push(ies_view(m.tl_container@)), cls)) by {
        assert forall|k: int| 0 <= k < ies_view(m.tl_container@).len() implies cls(#[trigger] ies_view(m.tl_container@)[k].ie_type) == 0 by {
            assert(ies_view(m.tl_container@)[k] == m.tl_container@[k]@);
        }
        lemma_classified_push(Seq::<Seq<IeView>>::empty(), ies_view(m.tl_container@), cls);
    }
    assert(slots_classified(Seq::<Seq<IeView>>::empty().push(ies_view(m.tl_container@)).push(opt_ie_seq(m.node_id)), cls)) by {
        assert forall|k: int| 0 <= k < opt_ie_seq(m.node_id).len() implies cls(#[trigger] opt_ie_seq(m.node_id)[k].ie_type) == 1 by {
        }
        lemma_classified_push(Seq::<Seq<IeView>>::empty().push(ies_view(m.tl_container@)), opt_ie_seq(m.node_id), cls);
    }
    assert(slots_classified(Seq::<Seq<IeView>>::empty().push(ies_view(m.tl_container@)).push(opt_ie_seq(m.node_id)).push(opt_ie_seq(m.cp_fseid)), cls)) by {
        assert forall|k: int| 0 <= k < opt_ie_seq(m.cp_fseid).len() implies cls(#[trigger] opt_ie_seq(m.cp_fseid)[k].ie_type) == 2 by {
        }
        lemma_classified_push(Seq::<Seq<IeView>>::empty().push(ies_view(m.tl_container@)).push(opt_ie_seq(m.node_id)), opt_ie_seq(m.cp_fseid), cls);
    }
    assert(slots_classified(Seq::<Seq<IeView>>::empty().push(ies_view(m.tl_container@)).push(opt_ie_seq(m.node_id)).push(opt_ie_seq(m.cp_fseid)).push(ies_view(m.ies@)), cls)) by {
        assert forall|k: int| 0 <= k < ies_view(m.ies@).len() implies cls(#[trigger] ies_view(m.ies@)[k].ie_type) == 3 by {
            assert(ies_view(m.ies@)[k] == m.ies@[k]@);
        }
        lemma_classified_push(Seq::<Seq<IeView>>::empty().push(ies_view(m.tl_container@)).push(opt_ie_seq(m.node_id)).push(opt_ie_seq(m.cp_fseid)), ies_view(m.ies@), cls);
    }
    assert(m.slots() == Seq::<Seq<IeView>>::empty().push(ies_view(m.tl_container@)).push(opt_ie_seq(m.node_id)).push(opt_ie_seq(m.cp_fseid)).push(ies_view(m.ies@)));
}

/// When every IE is in the field named for its type, the IEs of each field's type
/// in that field are the whole field.
proof fn lemma_session_deletion_request_fields_of_their_type(m: SessionDeletionRequest)
    requires
        m.fields_hold_their_types(),
    ensures
        ies_of_type(ies_view(m.tl_container@), IeType::TlContainer) == ies_view(m.tl_container@),
        ies_of_type(opt_ie_seq(m.node_id), IeType::NodeId) == opt_ie_seq(m.node_id),
        ies_of_type(opt_ie_seq(m.cp_fseid), IeType::Fseid) == opt_ie_seq(m.cp_fseid),
{
    reveal(SessionDeletionRequest::fields_hold_their_types);
    assert(ies_of_type(ies_view(m.tl_container@), IeType::TlContainer) == ies_view(m.tl_container@)) by {
        assert forall|k: int| 0 <= k < ies_view(m.tl_container@).len() implies (#[trigger] ies_view(m.tl_container@)[k]).ie_type == IeType::TlContainer by {
            assert(ies_view(m.tl_container@)[k] == m.tl_container@[k]@);
        }
        lemma_of_type_all(ies_view(m.tl_container@), IeType::TlContainer);
    }
    assert(ies_of_type(opt_ie_seq(m.node_id), IeType::NodeId) == opt_ie_seq(m.node_id)) by {
        assert forall|k: int| 0 <= k < opt_ie_seq(m.node_id).len() implies (#[trigger] opt_ie_seq(m.node_id)[k]).ie_type == IeType::NodeId by {
        }
        lemma_of_type_all(opt_ie_seq(m.node_id), IeType::NodeId);
    }
    assert(ies_of_type(opt_ie_seq(m.cp_fseid), IeType::Fseid) == opt_ie_seq(m.cp_fseid)) by {
        assert forall|k: int| 0 <= k < opt_ie_seq(m.cp_fseid).len() implies (#[trigger] opt_ie_seq(m.cp_fseid)[k]).ie_type == IeType::Fseid by {
        }
        lemma_of_type_all(opt_ie_seq(m.cp_fseid), IeType::Fseid);
    }
}

/// Looking up the IEs of a type gives exactly the message's IEs of that type, in
/// wire order, when every IE is in the field named for its type.
#[verifier::spinoff_prover]
pub proof fn lemma_session_deletion_request_lookup_by_type(m: SessionDeletionRequest, t: IeType)
    requires
        m.fields_hold_their_types(),
    ensures
        m.spec_ies_of(t) == ies_of_type(m.spec_body(), t),
        forall|k: int| 0 <= k < m.spec_ies_of(t).len() ==> (#[trigger] m.spec_ies_of(t)[k]).ie_type == t,
{
    let cls = SessionDeletionRequest::classifier();
    lemma_session_deletion_request_fields_classified(m);
    lemma_of_type_classified(m.slots(), cls, t);
    lemma_session_deletion_request_fields_of_their_type(m);
    match t {
        IeType::TlContainer => {
            assert(m.slots()[0] == ies_view(m.tl_container@));
        },
        IeType::NodeId => {
            assert(m.slots()[1] == opt_ie_seq(m.node_id));
        },
        IeType::Fseid => {
            assert(m.slots()[2] == opt_ie_seq(m.cp_fseid));
        },
        _ => {
            assert(m.slots()[3] == ies_view(m.ies@));
        },
    }
    lemma_of_type_types(m.spec_body(), t);
}

} // verus!
