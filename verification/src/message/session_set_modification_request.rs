//! Session Set Modification Request message (3GPP TS 29.244): the alternative SMF IP address that the sessions move to.
use crate::error::PfcpError;
use crate::ie::{
    ie_refs_view, ies_of_type, ies_size, ies_view, ies_where, ies_wf, ies_wire, parse_ies, spec_parse_ies, Ie,
    IeType, IeView,
};
use crate::message::header::{
    header_size, header_wf, header_wire, lemma_header_roundtrip, lemma_header_wire_len, spec_parse_header, Header,
};
use crate::message::ie_iter::IeIter;
use crate::message::slots::{
    concat_slots, decode_slot, decode_slots, empty_buckets, last_ie, lemma_decode_concat, lemma_len_step,
    lemma_slot_ies_empty, lemma_slot_ies_push_all, len_slot_many, len_slot_one, list_slot_many, list_slot_one,
    opt_ie_seq, push_bucket, slot_ies, slots_typed, take_bucket, write_slot_many, write_slot_one, SlotKind,
    last_seq, lemma_classified_push, lemma_ies_of_type_is_where, lemma_ies_where_ext, lemma_of_type_all,
    lemma_of_type_classified, lemma_of_type_types, slot_pred, slots_classified,
};
use crate::message::{lemma_msg_type_code_roundtrip, lemma_parse_header_size, message_header, Message, MsgType};
use vstd::prelude::*;

verus! {

/// A Session Set Modification Request message (3GPP TS 29.244): the alternative SMF IP address that the sessions move to
#[derive(Debug, Clone, PartialEq, Eq)]
pub struct SessionSetModificationRequest {
    pub header: Header,
    pub alternative_smf_ip_address: Ie,
    pub fq_csids: Vec<Ie>,
    pub group_ids: Vec<Ie>,
    pub ies: Vec<Ie>,
}

impl SessionSetModificationRequest {
    /// The slot that an IE of type `t` is read into.
    pub open spec fn slot_class(t: IeType) -> int {
        match t {
            IeType::AlternativeSmfIpAddress => 0,
            IeType::FqCsid => 1,
            IeType::GroupId => 2,
            _ => 3,
        }
    }

    /// The slot that an IE of type `t` is read into.
    fn classify(t: IeType) -> (r: usize)
        ensures
            r == Self::slot_class(t),
    {
        match t {
            IeType::AlternativeSmfIpAddress => 0,
            IeType::FqCsid => 1,
            IeType::GroupId => 2,
            _ => 3,
        }
    }

    /// `slot_class` as a function value.
    pub open spec fn classifier() -> spec_fn(IeType) -> int {
        |t: IeType| Self::slot_class(t)
    }

    /// How many IEs each slot keeps, in wire order.
    pub open spec fn slot_kinds() -> Seq<SlotKind> {
        seq![SlotKind::One, SlotKind::Many, SlotKind::Many, SlotKind::Many]
    }

    /// The IEs of each field, in wire order.
    pub open spec fn slots(&self) -> Seq<Seq<IeView>> {
        Seq::<Seq<IeView>>::empty().push(seq![self.alternative_smf_ip_address@]).push(ies_view(self.fq_csids@)).push(ies_view(self.group_ids@)).push(ies_view(self.ies@))
    }

    /// The IEs in the order that `all_ies` lists them.
    pub open spec fn listed_ies(&self) -> Seq<IeView> {
        concat_slots(Seq::<Seq<IeView>>::empty().push(seq![self.alternative_smf_ip_address@]).push(ies_view(self.fq_csids@)).push(ies_view(self.group_ids@)).push(ies_view(self.ies@)))
    }

    /// The first mandatory IE that `ies` lacks, checked in the order the decoder checks.
    pub open spec fn missing_ie(ies: Seq<IeView>) -> Option<IeType> {
        if decode_slot(ies, Self::classifier(), 0, SlotKind::One).len() == 0 {
            Some(IeType::AlternativeSmfIpAddress)
        } else {
            None
        }
    }

    /// The fields have a shape that decoding gives back: every IE is in the field for its type,
    /// mandatory lists are not empty and optional lists are present only when not empty.
    pub open spec fn fields_canonical(&self) -> bool {
        slots_typed(self.slots(), Self::classifier(), Self::slot_kinds())
    }

    /// A message that reads back as itself.
    pub open spec fn well_formed(&self) -> bool {
        header_wf(self.header) && ies_wf(concat_slots(self.slots())) && self.fields_canonical()
    }

    /// The wire form of the message: its header, then its IEs in wire order.
    pub open spec fn wire(&self) -> Seq<u8> {
        header_wire(self.header) + ies_wire(concat_slots(self.slots()))
    }

    /// Decoding `ies` gives these fields.
    pub open spec fn decodes_from(&self, ies: Seq<IeView>) -> bool {
        &&& seq![self.alternative_smf_ip_address@] == decode_slot(ies, Self::classifier(), 0, SlotKind::One)
        &&& ies_view(self.fq_csids@) == decode_slot(ies, Self::classifier(), 1, SlotKind::Many)
        &&& ies_view(self.group_ids@) == decode_slot(ies, Self::classifier(), 2, SlotKind::Many)
        &&& ies_view(self.ies@) == decode_slot(ies, Self::classifier(), 3, SlotKind::Many)
    }

    /// Assembles a message from its fields; the header length covers the fields' IEs.
    fn assemble(seq: u32, alternative_smf_ip_address: Ie, fq_csids: Vec<Ie>, group_ids: Vec<Ie>, ies: Vec<Ie>) -> (r: Self)
        ensures
            r.header == message_header(MsgType::SessionSetModificationRequest, false, 0, seq, concat_slots(r.slots())),
            r.alternative_smf_ip_address == alternative_smf_ip_address,
            r.fq_csids == fq_csids,
            r.group_ids == group_ids,
            r.ies == ies,
    {
        let len: u16 = 0;
        let len = len_slot_one(len, &alternative_smf_ip_address, Ghost(Seq::<Seq<IeView>>::empty()));
        let len = len_slot_many(len, &fq_csids, Ghost(Seq::<Seq<IeView>>::empty().push(seq![alternative_smf_ip_address@])));
        let len = len_slot_many(len, &group_ids, Ghost(Seq::<Seq<IeView>>::empty().push(seq![alternative_smf_ip_address@]).push(ies_view(fq_csids@))));
        let len = len_slot_many(len, &ies, Ghost(Seq::<Seq<IeView>>::empty().push(seq![alternative_smf_ip_address@]).push(ies_view(fq_csids@)).push(ies_view(group_ids@))));
        let mut header = Header::new(MsgType::SessionSetModificationRequest, false, 0, seq);
        proof { lemma_len_step(ies_size(concat_slots(Seq::<Seq<IeView>>::empty().push(seq![alternative_smf_ip_address@]).push(ies_view(fq_csids@)).push(ies_view(group_ids@)).push(ies_view(ies@)))) as int, header_size(header) as int - 4, len as int); }
        header.length = ((len as u32 + header.len() as u32 - 4) % 65536) as u16;
        SessionSetModificationRequest { header, alternative_smf_ip_address, fq_csids, group_ids, ies }
    }

    /// Creates a Session Set Modification Request message; the header length covers the given IEs.
    pub fn new(seq: u32, alternative_smf_ip_address: Ie, fq_csids: Vec<Ie>, group_ids: Vec<Ie>, ies: Vec<Ie>) -> (r: Self)
        ensures
            r.header == message_header(MsgType::SessionSetModificationRequest, false, 0, seq, concat_slots(r.slots())),
            r.alternative_smf_ip_address == alternative_smf_ip_address,
            r.fq_csids == fq_csids,
            r.group_ids == group_ids,
            r.ies == ies,
    {
        Self::assemble(seq, alternative_smf_ip_address, fq_csids, group_ids, ies)
    }

}

impl Message for SessionSetModificationRequest {
    open spec fn spec_header(&self) -> Header {
        self.header
    }

    open spec fn spec_body(&self) -> Seq<IeView> {
        concat_slots(self.slots())
    }

    open spec fn spec_listed(&self) -> Seq<IeView> {
        self.listed_ies()
    }

    open spec fn spec_ies_of(&self, t: IeType) -> Seq<IeView> {
        match t {
            IeType::AlternativeSmfIpAddress => seq![self.alternative_smf_ip_address@],
            IeType::FqCsid => ies_view(self.fq_csids@),
            IeType::GroupId => ies_view(self.group_ids@),
            _ => crate::ie::ies_of_type(ies_view(self.ies@), t),
        }
    }

    open spec fn spec_msg_type(&self) -> MsgType {
        MsgType::SessionSetModificationRequest
    }

    open spec fn spec_decode_error(data: Seq<u8>) -> Option<PfcpError> {
        match spec_parse_header(data) {
            Err(e) => Some(e),
            Ok(h) => match spec_parse_ies(data.skip(header_size(h) as int)) {
                Err(e) => Some(e),
                Ok(ies) => match Self::missing_ie(ies) {
                    Some(t) => Some(PfcpError::MissingMandatoryIe { ie_type: t, message_type: Some(MsgType::SessionSetModificationRequest) }),
                    None => None,
                },
            },
        }
    }

    open spec fn spec_decoded(data: Seq<u8>, m: Self) -> bool {
        match spec_parse_header(data) {
            Err(_) => false,
            Ok(h) => match spec_parse_ies(data.skip(header_size(h) as int)) {
                Err(_) => false,
                Ok(ies) => m.header == h && m.decodes_from(ies),
            },
        }
    }

    fn marshal_into(&self, buf: &mut Vec<u8>) {
        self.header.marshal_into(buf);
        let ghost p = buf@;
        assert(buf@ =~= p + ies_wire(concat_slots(Seq::<Seq<IeView>>::empty())));
        write_slot_one(buf, &self.alternative_smf_ip_address, Ghost(p), Ghost(Seq::<Seq<IeView>>::empty()));
        write_slot_many(buf, &self.fq_csids, Ghost(p), Ghost(Seq::<Seq<IeView>>::empty().push(seq![self.alternative_smf_ip_address@])));
        write_slot_many(buf, &self.group_ids, Ghost(p), Ghost(Seq::<Seq<IeView>>::empty().push(seq![self.alternative_smf_ip_address@]).push(ies_view(self.fq_csids@))));
        write_slot_many(buf, &self.ies, Ghost(p), Ghost(Seq::<Seq<IeView>>::empty().push(seq![self.alternative_smf_ip_address@]).push(ies_view(self.fq_csids@)).push(ies_view(self.group_ids@))));
        assert(buf@ =~= old(buf)@ + header_wire(self.header) + ies_wire(concat_slots(self.slots())));
    }

    fn marshal(&self) -> (r: Vec<u8>) {
        let mut buf: Vec<u8> = Vec::new();
        self.marshal_into(&mut buf);
        assert(buf@ =~= header_wire(self.header) + ies_wire(concat_slots(self.slots())));
        buf
    }

    fn marshaled_size(&self) -> (r: usize) {
        let v = self.marshal();
        v.len()
    }

    fn unmarshal(data: &[u8]) -> (r: Result<Self, PfcpError>) {
        let header = match Header::unmarshal(data) {
            Ok(h) => h,
            Err(e) => return Err(e),
        };
        proof { lemma_parse_header_size(data@); }
        let start = header.len() as usize;
        let mut all = match parse_ies(data, start) {
            Ok(v) => v,
            Err(e) => return Err(e),
        };
        let ghost parsed = ies_view(all@);
        let ghost cls = Self::classifier();
        let mut buckets = empty_buckets(5);
        proof {
            lemma_slot_ies_empty(cls);
            assert(parsed.take(0) =~= Seq::<IeView>::empty());
            assert forall|j: int| 0 <= j < 5 implies ies_view(#[trigger] buckets@[j]@) == slot_ies(parsed.take(0), cls, j) by {
                assert(ies_view(buckets@[j]@) =~= Seq::<IeView>::empty());
            }
        }
        let ghost mut done: int = 0;
        while all.len() > 0
            invariant
                0 <= done <= parsed.len(),
                ies_view(all@) == parsed.skip(done),
                cls == Self::classifier(),
                buckets@.len() == 5,
                forall|j: int| 0 <= j < 5 ==> ies_view(#[trigger] buckets@[j]@) == slot_ies(parsed.take(done), cls, j),
            decreases all@.len(),
        {
            let ghost old_all = all@;
            let ghost old_buckets = buckets@;
            let ie = all.remove(0);
            let ghost iev = ie@;
            proof {
                assert(ies_view(old_all).len() == old_all.len());
                assert(done < parsed.len());
                assert(ies_view(old_all)[0] == old_all[0]@);
                assert(parsed.skip(done)[0] == parsed[done]);
                assert(parsed[done] == iev);
                assert(parsed.take(done + 1) =~= parsed.take(done).push(iev));
                lemma_slot_ies_push_all(parsed.take(done), iev, cls);
                assert(all@ =~= old_all.skip(1));
                assert(ies_view(all@) =~= ies_view(old_all).skip(1));
                assert(parsed.skip(done).skip(1) =~= parsed.skip(done + 1));
            }
            let c = Self::classify(ie.ie_type);
            push_bucket(&mut buckets, c, ie);
            proof {
                assert forall|j: int| 0 <= j < 5 implies ies_view(#[trigger] buckets@[j]@) == slot_ies(parsed.take(done + 1), cls, j) by {
                    if j != c {
                        assert(buckets@[j] == old_buckets[j]);
                    }
                }
                done = done + 1;
            }
        }
        proof { assert(parsed.take(done) =~= parsed); }
        let ghost bs = buckets@;
        assert(ies_view(bs[0]@) == slot_ies(parsed, cls, 0));
        assert(ies_view(bs[1]@) == slot_ies(parsed, cls, 1));
        assert(ies_view(bs[2]@) == slot_ies(parsed, cls, 2));
        assert(ies_view(bs[3]@) == slot_ies(parsed, cls, 3));
        let slot0 = last_ie(take_bucket(&mut buckets, 0, Ghost(bs)));
        assert(opt_ie_seq(slot0) == decode_slot(parsed, cls, 0, SlotKind::One));
        let slot1 = take_bucket(&mut buckets, 1, Ghost(bs));
        assert(ies_view(slot1@) == decode_slot(parsed, cls, 1, SlotKind::Many));
        let slot2 = take_bucket(&mut buckets, 2, Ghost(bs));
        assert(ies_view(slot2@) == decode_slot(parsed, cls, 2, SlotKind::Many));
        let slot3 = take_bucket(&mut buckets, 3, Ghost(bs));
        assert(ies_view(slot3@) == decode_slot(parsed, cls, 3, SlotKind::Many));
        if slot0.is_none() {
            return Err(PfcpError::MissingMandatoryIe { ie_type: IeType::AlternativeSmfIpAddress, message_type: Some(MsgType::SessionSetModificationRequest) });
        }
        let alternative_smf_ip_address = match slot0 { Some(x) => x, None => return Err(PfcpError::MissingMandatoryIe { ie_type: IeType::AlternativeSmfIpAddress, message_type: Some(MsgType::SessionSetModificationRequest) }) };
        let fq_csids = slot1;
        let group_ids = slot2;
        let ies = slot3;
        let r = SessionSetModificationRequest { header, alternative_smf_ip_address, fq_csids, group_ids, ies };
        Ok(r)
    }

    fn msg_type(&self) -> (r: MsgType) {
        MsgType::SessionSetModificationRequest
    }

    fn msg_name(&self) -> (r: String) {
        MsgType::SessionSetModificationRequest.name().to_owned()
    }

    fn version(&self) -> (r: u8) {
        1
    }

    fn seid(&self) -> (r: Option<u64>) {
        if self.header.has_seid {
            Some(self.header.seid)
        } else {
            None
        }
    }

    fn sequence(&self) -> (r: u32) {
        self.header.sequence_number
    }

    fn set_sequence(&mut self, seq: u32) {
        self.header.sequence_number = seq;
    }

    fn ies(&self, ie_type: IeType) -> (r: IeIter<'_>) {
        match ie_type {
            IeType::AlternativeSmfIpAddress => IeIter::single(Some(&self.alternative_smf_ip_address), ie_type),
            IeType::FqCsid => IeIter::multiple(self.fq_csids.as_slice(), ie_type),
            IeType::GroupId => IeIter::multiple(self.group_ids.as_slice(), ie_type),
            _ => IeIter::generic(self.ies.as_slice(), ie_type),
        }
    }

    fn find_ie(&self, ie_type: IeType) -> (r: Option<&Ie>) {
        let mut it = self.ies(ie_type);
        it.next()
    }

    fn find_all_ies(&self, ie_type: IeType) -> (r: Vec<&Ie>) {
        self.ies(ie_type).collect()
    }

    fn all_ies(&self) -> (r: Vec<&Ie>) {
        let mut out: Vec<&Ie> = Vec::new();
        assert(ie_refs_view(out@) =~= concat_slots(Seq::<Seq<IeView>>::empty()));
        list_slot_one(&mut out, &self.alternative_smf_ip_address, Ghost(Seq::<Seq<IeView>>::empty()));
        list_slot_many(&mut out, &self.fq_csids, Ghost(Seq::<Seq<IeView>>::empty().push(seq![self.alternative_smf_ip_address@])));
        list_slot_many(&mut out, &self.group_ids, Ghost(Seq::<Seq<IeView>>::empty().push(seq![self.alternative_smf_ip_address@]).push(ies_view(self.fq_csids@))));
        list_slot_many(&mut out, &self.ies, Ghost(Seq::<Seq<IeView>>::empty().push(seq![self.alternative_smf_ip_address@]).push(ies_view(self.fq_csids@)).push(ies_view(self.group_ids@))));
        out
    }
}

/// A well-formed SessionSetModificationRequest reads back as itself: decoding its wire form gives its
/// header and fields.
pub proof fn lemma_session_set_modification_request_roundtrip(m: SessionSetModificationRequest)
    requires
        m.well_formed(),
    ensures
        SessionSetModificationRequest::spec_decode_error(m.wire()) is None,
        SessionSetModificationRequest::spec_decoded(m.wire(), m),
{
    let body = concat_slots(m.slots());
    lemma_header_roundtrip(m.header, ies_wire(body));
    lemma_header_wire_len(m.header);
    assert((header_wire(m.header) + ies_wire(body)).skip(header_size(m.header) as int) =~= ies_wire(body));
    crate::ie::lemma_parse_ies_wire(body);
    lemma_decode_concat(m.slots(), SessionSetModificationRequest::classifier(), SessionSetModificationRequest::slot_kinds());
    assert(decode_slots(body, SessionSetModificationRequest::classifier(), SessionSetModificationRequest::slot_kinds()) == m.slots());
    assert(decode_slots(body, SessionSetModificationRequest::classifier(), SessionSetModificationRequest::slot_kinds())[0] == decode_slot(body, SessionSetModificationRequest::classifier(), 0, SlotKind::One));
    assert(decode_slots(body, SessionSetModificationRequest::classifier(), SessionSetModificationRequest::slot_kinds())[1] == decode_slot(body, SessionSetModificationRequest::classifier(), 1, SlotKind::Many));
    assert(decode_slots(body, SessionSetModificationRequest::classifier(), SessionSetModificationRequest::slot_kinds())[2] == decode_slot(body, SessionSetModificationRequest::classifier(), 2, SlotKind::Many));
    assert(decode_slots(body, SessionSetModificationRequest::classifier(), SessionSetModificationRequest::slot_kinds())[3] == decode_slot(body, SessionSetModificationRequest::classifier(), 3, SlotKind::Many));
    assert(m.slots()[0].len() > 0);
}

/// Builder for SessionSetModificationRequest messages.
#[derive(Debug)]
pub struct SessionSetModificationRequestBuilder {
    pub sequence: u32,
    pub alternative_smf_ip_address: Option<Ie>,
    pub fq_csids: Vec<Ie>,
    pub group_ids: Vec<Ie>,
    pub ies: Vec<Ie>,
}

impl SessionSetModificationRequestBuilder {
    /// The IEs of each field of the message this builder builds, in wire order.
    pub open spec fn built_slots(&self) -> Seq<Seq<IeView>> {
        Seq::<Seq<IeView>>::empty().push(seq![self.alternative_smf_ip_address.unwrap()@]).push(ies_view(self.fq_csids@)).push(ies_view(self.group_ids@)).push(ies_view(self.ies@))
    }

    /// The header of the message this builder builds.
    pub open spec fn built_header(&self) -> Header {
        message_header(MsgType::SessionSetModificationRequest, false, 0, self.sequence, concat_slots(self.built_slots()))
    }

    /// Creates a builder with no IEs set.
    pub fn new(sequence: u32) -> (r: Self)
        ensures
            r.sequence == sequence,
            r.alternative_smf_ip_address is None,
            r.fq_csids@.len() == 0,
            r.group_ids@.len() == 0,
            r.ies@.len() == 0,
    {
        SessionSetModificationRequestBuilder { sequence, alternative_smf_ip_address: None, fq_csids: Vec::new(), group_ids: Vec::new(), ies: Vec::new() }
    }

    /// Sets the alternative smf ip address IE.
    pub fn alternative_smf_ip_address(self, ie: Ie) -> (r: Self)
        ensures
            r == (Self { alternative_smf_ip_address: Some(ie), ..self }),
    {
        let mut s = self;
        s.alternative_smf_ip_address = Some(ie);
        s
    }

    /// Adds an FQ-CSID IE.
    pub fn fq_csid(self, ie: Ie) -> (r: Self)
        ensures
            r.fq_csids@ == self.fq_csids@.push(ie),
            r == (Self { fq_csids: r.fq_csids, ..self }),
    {
        let mut s = self;
        s.fq_csids.push(ie);
        s
    }

    /// Adds a Group ID IE.
    pub fn group_id(self, ie: Ie) -> (r: Self)
        ensures
            r.group_ids@ == self.group_ids@.push(ie),
            r == (Self { group_ids: r.group_ids, ..self }),
    {
        let mut s = self;
        s.group_ids.push(ie);
        s
    }

    /// Adds an additional IE.
    pub fn ie(self, ie: Ie) -> (r: Self)
        ensures
            r.ies@ == self.ies@.push(ie),
            r == (Self { ies: r.ies, ..self }),
    {
        let mut s = self;
        s.ies.push(ie);
        s
    }

    /// Adds several additional IEs.
    pub fn ies(self, ies: Vec<Ie>) -> (r: Self)
        ensures
            r.ies@ == self.ies@ + ies@,
            r == (Self { ies: r.ies, ..self }),
    {
        let mut s = self;
        let mut v = ies;
        s.ies.append(&mut v);
        s
    }

    /// Builds the message, or reports the first mandatory IE that is missing.
    pub fn build(self) -> (r: Result<SessionSetModificationRequest, PfcpError>)
        ensures
            self.alternative_smf_ip_address is None ==> r == Err::<SessionSetModificationRequest, PfcpError>(PfcpError::MissingMandatoryIe { ie_type: IeType::AlternativeSmfIpAddress, message_type: Some(MsgType::SessionSetModificationRequest) }),
            self.alternative_smf_ip_address is Some ==> r is Ok,
            r matches Ok(r) ==> {
                r.header == message_header(MsgType::SessionSetModificationRequest, false, 0, self.sequence, concat_slots(r.slots())) &&
                r.alternative_smf_ip_address == self.alternative_smf_ip_address.unwrap() &&
                r.fq_csids == self.fq_csids &&
                r.group_ids == self.group_ids &&
                r.ies == self.ies &&
                r.slots() == self.built_slots() &&
                r.header == self.built_header() &&
                true
            },
    {
        if self.alternative_smf_ip_address.is_none() {
            return Err(PfcpError::MissingMandatoryIe { ie_type: IeType::AlternativeSmfIpAddress, message_type: Some(MsgType::SessionSetModificationRequest) });
        }
        let alternative_smf_ip_address = match self.alternative_smf_ip_address { Some(x) => x, None => return Err(PfcpError::MissingMandatoryIe { ie_type: IeType::AlternativeSmfIpAddress, message_type: Some(MsgType::SessionSetModificationRequest) }) };
        Ok(SessionSetModificationRequest::assemble(self.sequence, alternative_smf_ip_address, self.fq_csids, self.group_ids, self.ies))
    }

    /// Builds the message and serializes it, or reports the first mandatory IE that is missing.
    pub fn marshal(self) -> (r: Result<Vec<u8>, PfcpError>)
        ensures
            self.alternative_smf_ip_address is None ==> r == Err::<Vec<u8>, PfcpError>(PfcpError::MissingMandatoryIe { ie_type: IeType::AlternativeSmfIpAddress, message_type: Some(MsgType::SessionSetModificationRequest) }),
            self.alternative_smf_ip_address is Some ==> r is Ok,
            r matches Ok(bytes) ==> bytes@ == header_wire(self.built_header()) + ies_wire(concat_slots(self.built_slots())),
    {
        match self.build() {
            Ok(msg) => Ok(msg.marshal()),
            Err(e) => Err(e),
        }
    }

}

/// Decoding what a SessionSetModificationRequest builder writes fails exactly when a mandatory IE is
/// missing from the IEs it was given, and a message decoded from it has the builder's
/// header, and so its sequence number; when every IE stands in the field for its type,
/// the decoded message has the builder's IEs in each field. This holds when the
/// sequence number fits the header's 24 bits and every IE fits its length field.
#[verifier::spinoff_prover]
pub proof fn lemma_session_set_modification_request_builder_roundtrip(b: SessionSetModificationRequestBuilder)
    requires
        b.sequence < 16777216,
        ies_wf(concat_slots(b.built_slots())),
    ensures
        SessionSetModificationRequest::spec_decode_error(header_wire(b.built_header()) + ies_wire(concat_slots(b.built_slots()))) == (match SessionSetModificationRequest::missing_ie(concat_slots(b.built_slots())) {
            Some(t) => Some(PfcpError::MissingMandatoryIe { ie_type: t, message_type: Some(MsgType::SessionSetModificationRequest) }),
            None => None::<PfcpError>,
        }),
        forall|m: SessionSetModificationRequest|
            #[trigger] SessionSetModificationRequest::spec_decoded(header_wire(b.built_header()) + ies_wire(concat_slots(b.built_slots())), m) ==> m.header == b.built_header()
                && m.header.sequence_number == b.sequence,
        slots_typed(b.built_slots(), SessionSetModificationRequest::classifier(), SessionSetModificationRequest::slot_kinds()) ==> forall|m: SessionSetModificationRequest|
            #[trigger] SessionSetModificationRequest::spec_decoded(header_wire(b.built_header()) + ies_wire(concat_slots(b.built_slots())), m) ==> m.slots() == b.built_slots(),
{
    let h = b.built_header();
    let ss = b.built_slots();
    let body = concat_slots(ss);
    lemma_msg_type_code_roundtrip(MsgType::SessionSetModificationRequest);
    assert(header_wf(h));
    lemma_header_roundtrip(h, ies_wire(body));
    lemma_header_wire_len(h);
    assert((header_wire(h) + ies_wire(body)).skip(header_size(h) as int) =~= ies_wire(body));
    crate::ie::lemma_parse_ies_wire(body);
    if slots_typed(ss, SessionSetModificationRequest::classifier(), SessionSetModificationRequest::slot_kinds()) {
        lemma_decode_concat(ss, SessionSetModificationRequest::classifier(), SessionSetModificationRequest::slot_kinds());
        assert(decode_slots(body, SessionSetModificationRequest::classifier(), SessionSetModificationRequest::slot_kinds()) == ss);
        assert(decode_slots(body, SessionSetModificationRequest::classifier(), SessionSetModificationRequest::slot_kinds())[0] == decode_slot(body, SessionSetModificationRequest::classifier(), 0, SlotKind::One));
        assert(decode_slots(body, SessionSetModificationRequest::classifier(), SessionSetModificationRequest::slot_kinds())[1] == decode_slot(body, SessionSetModificationRequest::classifier(), 1, SlotKind::Many));
        assert(decode_slots(body, SessionSetModificationRequest::classifier(), SessionSetModificationRequest::slot_kinds())[2] == decode_slot(body, SessionSetModificationRequest::classifier(), 2, SlotKind::Many));
        assert(decode_slots(body, SessionSetModificationRequest::classifier(), SessionSetModificationRequest::slot_kinds())[3] == decode_slot(body, SessionSetModificationRequest::classifier(), 3, SlotKind::Many));
        assert forall|m: SessionSetModificationRequest| #[trigger] SessionSetModificationRequest::spec_decoded(header_wire(b.built_header()) + ies_wire(concat_slots(b.built_slots())), m) implies m.slots() == ss by {
            assert(m.slots() =~= ss);
        }
    }
}

impl SessionSetModificationRequest {
    /// Every IE is in the field named for its type, and the additional IEs are of
    /// no type that has a field of its own.
    #[verifier::opaque]
    pub open spec fn fields_hold_their_types(&self) -> bool {
        &&& self.alternative_smf_ip_address.ie_type == IeType::AlternativeSmfIpAddress
        &&& forall|i: int| 0 <= i < self.fq_csids@.len() ==> (#[trigger] self.fq_csids@[i]).ie_type == IeType::FqCsid
        &&& forall|i: int| 0 <= i < self.group_ids@.len() ==> (#[trigger] self.group_ids@[i]).ie_type == IeType::GroupId
        &&& forall|i: int| 0 <= i < self.ies@.len() ==> {
            let t = (#[trigger] self.ies@[i]).ie_type;
            t != IeType::AlternativeSmfIpAddress && t != IeType::FqCsid && t != IeType::GroupId
        }
    }
}

/// Decoding puts every IE of the body into the field named for its IE type: a
/// field for one IE holds the last IE of its type, a list holds all IEs of its
/// type in wire order, and the additional IEs are the IEs of the other types, in
/// wire order.
#[verifier::spinoff_prover]
pub proof fn lemma_session_set_modification_request_decoded_by_type(data: Seq<u8>, m: SessionSetModificationRequest)
    requires
        SessionSetModificationRequest::spec_decoded(data, m),
    ensures
        spec_parse_ies(data.skip(header_size(m.header) as int)) is Ok,
        ({
            let body = spec_parse_ies(data.skip(header_size(m.header) as int))->Ok_0;
            &&& ies_of_type(body, IeType::AlternativeSmfIpAddress).len() > 0 && m.alternative_smf_ip_address@ == ies_of_type(body, IeType::AlternativeSmfIpAddress).last()
            &&& ies_view(m.fq_csids@) == ies_of_type(body, IeType::FqCsid)
            &&& ies_view(m.group_ids@) == ies_of_type(body, IeType::GroupId)
            &&& ies_view(m.ies@) == ies_where(body, |t: IeType| t != IeType::AlternativeSmfIpAddress && t != IeType::FqCsid && t != IeType::GroupId)
            &&& true
        }),
{
    if let Ok(h) = spec_parse_header(data) {
        let body = spec_parse_ies(data.skip(header_size(h) as int))->Ok_0;
        let cls = SessionSetModificationRequest::classifier();
        assert(ies_of_type(body, IeType::AlternativeSmfIpAddress).len() > 0 && m.alternative_smf_ip_address@ == ies_of_type(body, IeType::AlternativeSmfIpAddress).last()) by {
            assert forall|x: IeType| #[trigger] slot_pred(cls, 0)(x) == (x == IeType::AlternativeSmfIpAddress) by {}
            lemma_ies_where_ext(body, slot_pred(cls, 0), |x: IeType| x == IeType::AlternativeSmfIpAddress);
            lemma_ies_of_type_is_where(body, IeType::AlternativeSmfIpAddress);
            assert(decode_slot(body, cls, 0, SlotKind::One) == last_seq(ies_of_type(body, IeType::AlternativeSmfIpAddress)));
            assert(seq![m.alternative_smf_ip_address@][0] == m.alternative_smf_ip_address@);
        }
        assert(ies_view(m.fq_csids@) == ies_of_type(body, IeType::FqCsid)) by {
            assert forall|x: IeType| #[trigger] slot_pred(cls, 1)(x) == (x == IeType::FqCsid) by {}
            lemma_ies_where_ext(body, slot_pred(cls, 1), |x: IeType| x == IeType::FqCsid);
            lemma_ies_of_type_is_where(body, IeType::FqCsid);
        }
        assert(ies_view(m.group_ids@) == ies_of_type(body, IeType::GroupId)) by {
            assert forall|x: IeType| #[trigger] slot_pred(cls, 2)(x) == (x == IeType::GroupId) by {}
            lemma_ies_where_ext(body, slot_pred(cls, 2), |x: IeType| x == IeType::GroupId);
            lemma_ies_of_type_is_where(body, IeType::GroupId);
        }
        assert(ies_view(m.ies@) == ies_where(body, |t: IeType| t != IeType::AlternativeSmfIpAddress && t != IeType::FqCsid && t != IeType::GroupId)) by {
            assert forall|t: IeType| #[trigger] slot_pred(cls, 3)(t) == (t != IeType::AlternativeSmfIpAddress && t != IeType::FqCsid && t != IeType::GroupId) by {}
            lemma_ies_where_ext(body, slot_pred(cls, 3), |t: IeType| t != IeType::AlternativeSmfIpAddress && t != IeType::FqCsid && t != IeType::GroupId);
        }
    }
}

/// When every IE is in the field named for its type, every IE sits in the slot
/// that decoding assigns its type to.
proof fn lemma_session_set_modification_request_fields_classified(m: SessionSetModificationRequest)
    requires
        m.fields_hold_their_types(),
    ensures
        slots_classified(m.slots(), SessionSetModificationRequest::classifier()),
{
    reveal(SessionSetModificationRequest::fields_hold_their_types);
    let cls = SessionSetModificationRequest::classifier();
    assert(slots_classified(Seq::<Seq<IeView>>::empty(), cls));
    assert(slots_classified(Seq::<Seq<IeView>>::empty().push(seq![m.alternative_smf_ip_address@]), cls)) by {
        assert forall|k: int| 0 <= k < seq![m.alternative_smf_ip_address@].len() implies cls(#[trigger] seq![m.alternative_smf_ip_address@][k].ie_type) == 0 by {
        }
        lemma_classified_push(Seq::<Seq<IeView>>::empty(), seq![m.alternative_smf_ip_address@], cls);
    }
    assert(slots_classified(Seq::<Seq<IeView>>::empty().push(seq![m.alternative_smf_ip_address@]).push(ies_view(m.fq_csids@)), cls)) by {
        assert forall|k: int| 0 <= k < ies_view(m.fq_csids@).len() implies cls(#[trigger] ies_view(m.fq_csids@)[k].ie_type) == 1 by {
            assert(ies_view(m.fq_csids@)[k] == m.fq_csids@[k]@);
        }
        lemma_classified_push(Seq::<Seq<IeView>>::empty().push(seq![m.alternative_smf_ip_address@]), ies_view(m.fq_csids@), cls);
    }
    assert(slots_classified(Seq::<Seq<IeView>>::empty().push(seq![m.alternative_smf_ip_address@]).push(ies_view(m.fq_csids@)).push(ies_view(m.group_ids@)), cls)) by {
        assert forall|k: int| 0 <= k < ies_view(m.group_ids@).len() implies cls(#[trigger] ies_view(m.group_ids@)[k].ie_type) == 2 by {
            assert(ies_view(m.group_ids@)[k] == m.group_ids@[k]@);
        }
        lemma_classified_push(Seq::<Seq<IeView>>::empty().push(seq![m.alternative_smf_ip_address@]).push(ies_view(m.fq_csids@)), ies_view(m.group_ids@), cls);
    }
    assert(slots_classified(Seq::<Seq<IeView>>::empty().push(seq![m.alternative_smf_ip_address@]).push(ies_view(m.fq_csids@)).push(ies_view(m.group_ids@)).push(ies_view(m.ies@)), cls)) by {
        assert forall|k: int| 0 <= k < ies_view(m.ies@).len() implies cls(#[trigger] ies_view(m.ies@)[k].ie_type) == 3 by {
            assert(ies_view(m.ies@)[k] == m.ies@[k]@);
        }
        lemma_classified_push(Seq::<Seq<IeView>>::empty().push(seq![m.alternative_smf_ip_address@]).push(ies_view(m.fq_csids@)).push(ies_view(m.group_ids@)), ies_view(m.ies@), cls);
    }
    assert(m.slots() == Seq::<Seq<IeView>>::empty().push(seq![m.alternative_smf_ip_address@]).push(ies_view(m.fq_csids@)).push(ies_view(m.group_ids@)).push(ies_view(m.ies@)));
}

/// When every IE is in the field named for its type, the IEs of each field's type
/// in that field are the whole field.
proof fn lemma_session_set_modification_request_fields_of_their_type(m: SessionSetModificationRequest)
    requires
        m.fields_hold_their_types(),
    ensures
        ies_of_type(seq![m.alternative_smf_ip_address@], IeType::AlternativeSmfIpAddress) == seq![m.alternative_smf_ip_address@],
        ies_of_type(ies_view(m.fq_csids@), IeType::FqCsid) == ies_view(m.fq_csids@),
        ies_of_type(ies_view(m.group_ids@), IeType::GroupId) == ies_view(m.group_ids@),
{
    reveal(SessionSetModificationRequest::fields_hold_their_types);
    assert(ies_of_type(seq![m.alternative_smf_ip_address@], IeType::AlternativeSmfIpAddress) == seq![m.alternative_smf_ip_address@]) by {
        assert forall|k: int| 0 <= k < seq![m.alternative_smf_ip_address@].len() implies (#[trigger] seq![m.alternative_smf_ip_address@][k]).ie_type == IeType::AlternativeSmfIpAddress by {
        }
        lemma_of_type_all(seq![m.alternative_smf_ip_address@], IeType::AlternativeSmfIpAddress);
    }
    assert(ies_of_type(ies_view(m.fq_csids@), IeType::FqCsid) == ies_view(m.fq_csids@)) by {
        assert forall|k: int| 0 <= k < ies_view(m.fq_csids@).len() implies (#[trigger] ies_view(m.fq_csids@)[k]).ie_type == IeType::FqCsid by {
            assert(ies_view(m.fq_csids@)[k] == m.fq_csids@[k]@);
        }
        lemma_of_type_all(ies_view(m.fq_csids@), IeType::FqCsid);
    }
    assert(ies_of_type(ies_view(m.group_ids@), IeType::GroupId) == ies_view(m.group_ids@)) by {
        assert forall|k: int| 0 <= k < ies_view(m.group_ids@).len() implies (#[trigger] ies_view(m.group_ids@)[k]).ie_type == IeType::GroupId by {
            assert(ies_view(m.group_ids@)[k] == m.group_ids@[k]@);
        }
        lemma_of_type_all(ies_view(m.group_ids@), IeType::GroupId);
    }
}

/// Looking up the IEs of a type gives exactly the message's IEs of that type, in
/// wire order, when every IE is in the field named for its type.
#[verifier::spinoff_prover]
pub proof fn lemma_session_set_modification_request_lookup_by_type(m: SessionSetModificationRequest, t: IeType)
    requires
        m.fields_hold_their_types(),
    ensures
        m.spec_ies_of(t) == ies_of_type(m.spec_body(), t),
        forall|k: int| 0 <= k < m.spec_ies_of(t).len() ==> (#[trigger] m.spec_ies_of(t)[k]).ie_type == t,
{
    let cls = SessionSetModificationRequest::classifier();
    lemma_session_set_modification_request_fields_classified(m);
    lemma_of_type_classified(m.slots(), cls, t);
    lemma_session_set_modification_request_fields_of_their_type(m);
    match t {
        IeType::AlternativeSmfIpAddress => {
            assert(m.slots()[0] == seq![m.alternative_smf_ip_address@]);
        },
        IeType::FqCsid => {
            assert(m.slots()[1] == ies_view(m.fq_csids@));
        },
        IeType::GroupId => {
            assert(m.slots()[2] == ies_view(m.group_ids@));
        },
        _ => {
            assert(m.slots()[3] == ies_view(m.ies@));
        },
    }
    lemma_of_type_types(m.spec_body(), t);
}

} // verus!
