//! Heartbeat Request message (3GPP TS 29.244 clause 7.4.2.1).
use crate::error::PfcpError;
use crate::ie::{
    ie_refs_view, ies_of_type, ies_size, ies_view, ies_where, ies_wf, ies_wire, parse_ies, spec_parse_ies, Ie,
    IeType, IeView,
};
use crate::message::header::{
    header_size, header_wf, header_wire, lemma_header_roundtrip, lemma_header_wire_len, spec_parse_header, Header,
};
use crate::message::ie_iter::IeIter;
use crate::message::slots::{
    concat_slots, decode_slot, decode_slots, empty_buckets, last_ie, lemma_decode_concat, lemma_len_step,
    lemma_slot_ies_empty, lemma_slot_ies_push_all, len_slot_many, len_slot_one, len_slot_opt, list_slot_many,
    list_slot_one, list_slot_opt, opt_ie_seq, push_bucket, slot_ies, slots_typed, take_bucket, write_slot_many,
    write_slot_one, write_slot_opt, SlotKind, last_seq, lemma_classified_push, lemma_ies_of_type_is_where,
    lemma_ies_where_ext, lemma_of_type_all, lemma_of_type_classified, lemma_of_type_types, slot_pred,
    slots_classified,
};
use crate::message::{lemma_msg_type_code_roundtrip, lemma_parse_header_size, message_header, Message, MsgType};
use crate::ie::recovery_time_stamp::RecoveryTimeStamp;
use crate::ie::source_ip_address::SourceIpAddress;
use vstd::prelude::*;

verus! {

/// A Heartbeat Request message (3GPP TS 29.244 clause 7.4.2.1)
#[derive(Debug, Clone, PartialEq, Eq)]
pub struct HeartbeatRequest {
    pub header: Header,
    pub recovery_time_stamp: Ie,
    pub source_ip_address: Option<Ie>,
    pub ies: Vec<Ie>,
}

impl HeartbeatRequest {
    /// The slot that an IE of type `t` is read into.
    pub open spec fn slot_class(t: IeType) -> int {
        match t {
            IeType::RecoveryTimeStamp => 0,
            IeType::SourceIpAddress => 1,
            _ => 2,
        }
    }

    /// The slot that an IE of type `t` is read into.
    fn classify(t: IeType) -> (r: usize)
        ensures
            r == Self::slot_class(t),
    {
        match t {
            IeType::RecoveryTimeStamp => 0,
            IeType::SourceIpAddress => 1,
            _ => 2,
        }
    }

    /// `slot_class` as a function value.
    pub open spec fn classifier() -> spec_fn(IeType) -> int {
        |t: IeType| Self::slot_class(t)
    }

    /// How many IEs each slot keeps, in wire order.
    pub open spec fn slot_kinds() -> Seq<SlotKind> {
        seq![SlotKind::One, SlotKind::One, SlotKind::Many]
    }

    /// The IEs of each field, in wire order.
    pub open spec fn slots(&self) -> Seq<Seq<IeView>> {
        Seq::<Seq<IeView>>::empty().push(seq![self.recovery_time_stamp@]).push(opt_ie_seq(self.source_ip_address)).push(ies_view(self.ies@))
    }

    /// The IEs in the order that `all_ies` lists them.
    pub open spec fn listed_ies(&self) -> Seq<IeView> {
        concat_slots(Seq::<Seq<IeView>>::empty().push(seq![self.recovery_time_stamp@]).push(opt_ie_seq(self.source_ip_address)).push(ies_view(self.ies@)))
    }

    /// The first mandatory IE that `ies` lacks, checked in the order the decoder checks.
    pub open spec fn missing_ie(ies: Seq<IeView>) -> Option<IeType> {
        if decode_slot(ies, Self::classifier(), 0, SlotKind::One).len() == 0 {
            Some(IeType::RecoveryTimeStamp)
        } else {
            None
        }
    }

    /// The fields have a shape that decoding gives back: every IE is in the field for its type,
    /// mandatory lists are not empty and optional lists are present only when not empty.
    pub open spec fn fields_canonical(&self) -> bool {
        slots_typed(self.slots(), Self::classifier(), Self::slot_kinds())
    }

    /// A message that reads back as itself.
    pub open spec fn well_formed(&self) -> bool {
        header_wf(self.header) && ies_wf(concat_slots(self.slots())) && self.fields_canonical()
    }

    /// The wire form of the message: its header, then its IEs in wire order.
    pub open spec fn wire(&self) -> Seq<u8> {
        header_wire(self.header) + ies_wire(concat_slots(self.slots()))
    }

    /// Decoding `ies` gives these fields.
    pub open spec fn decodes_from(&self, ies: Seq<IeView>) -> bool {
        &&& seq![self.recovery_time_stamp@] == decode_slot(ies, Self::classifier(), 0, SlotKind::One)
        &&& opt_ie_seq(self.source_ip_address) == decode_slot(ies, Self::classifier(), 1, SlotKind::One)
        &&& ies_view(self.ies@) == decode_slot(ies, Self::classifier(), 2, SlotKind::Many)
    }

    /// Assembles a message from its fields; the header length covers the fields' IEs.
    fn assemble(seq: u32, recovery_time_stamp: Ie, source_ip_address: Option<Ie>, ies: Vec<Ie>) -> (r: Self)
        ensures
            r.header == message_header(MsgType::HeartbeatRequest, false, 0, seq, concat_slots(r.slots())),
            r.recovery_time_stamp == recovery_time_stamp,
            r.source_ip_address == source_ip_address,
            r.ies == ies,
    {
        let len: u16 = 0;
        let len = len_slot_one(len, &recovery_time_stamp, Ghost(Seq::<Seq<IeView>>::empty()));
        let len = len_slot_opt(len, &source_ip_address, Ghost(Seq::<Seq<IeView>>::empty().push(seq![recovery_time_stamp@])));
        let len = len_slot_many(len, &ies, Ghost(Seq::<Seq<IeView>>::empty().push(seq![recovery_time_stamp@]).push(opt_ie_seq(source_ip_address))));
        let mut header = Header::new(MsgType::HeartbeatRequest, false, 0, seq);
        proof { lemma_len_step(ies_size(concat_slots(Seq::<Seq<IeView>>::empty().push(seq![recovery_time_stamp@]).push(opt_ie_seq(source_ip_address)).push(ies_view(ies@)))) as int, header_size(header) as int - 4, len as int); }
        header.length = ((len as u32 + header.len() as u32 - 4) % 65536) as u16;
        HeartbeatRequest { header, recovery_time_stamp, source_ip_address, ies }
    }

    /// Creates a Heartbeat Request message; the header length covers the given IEs.
    pub fn new(seq: u32, recovery_time_stamp: Ie, source_ip_address: Option<Ie>, ies: Vec<Ie>) -> (r: Self)
        ensures
            r.header == message_header(MsgType::HeartbeatRequest, false, 0, seq, concat_slots(r.slots())),
            r.recovery_time_stamp == recovery_time_stamp,
            r.source_ip_address == source_ip_address,
            r.ies == ies,
    {
        Self::assemble(seq, recovery_time_stamp, source_ip_address, ies)
    }

    /// The recovery time stamp, decoded from its IE.
    pub fn recovery_time_stamp(&self) -> (r: Result<RecoveryTimeStamp, PfcpError>)
        ensures
            r == crate::ie::recovery_time_stamp::spec_parse_recovery_time_stamp(self.recovery_time_stamp.payload@),
    {
        RecoveryTimeStamp::unmarshal(self.recovery_time_stamp.payload.as_slice())
    }

    /// The source ip address, decoded from its IE, if present.
    pub fn source_ip_address(&self) -> (r: Option<Result<SourceIpAddress, PfcpError>>)
        ensures
            self.source_ip_address is None ==> r is None,
            self.source_ip_address matches Some(x) ==> r matches Some(d) && (match crate::ie::source_ip_address::spec_parse_source_ip_address(x.payload@) { Ok(v) => d is Ok && d->Ok_0@ == v, Err(e) => d == Err::<SourceIpAddress, PfcpError>(e) }),
    {
        match &self.source_ip_address {
            Some(x) => Some(SourceIpAddress::unmarshal(x.payload.as_slice())),
            None => None,
        }
    }

    /// The ies IEs.
    pub fn additional_ies(&self) -> (r: &[Ie])
        ensures
            r@ == self.ies@,
    {
        self.ies.as_slice()
    }

    /// The raw recovery time stamp IE.
    pub fn recovery_time_stamp_ie(&self) -> (r: &Ie)
        ensures
            r == &self.recovery_time_stamp,
    {
        &self.recovery_time_stamp
    }

    /// The raw source ip address IE, if present.
    pub fn source_ip_address_ie(&self) -> (r: Option<&Ie>)
        ensures
            r == (match self.source_ip_address { Some(x) => Some(&x), None => None::<&Ie> }),
    {
        match &self.source_ip_address {
            Some(x) => Some(x),
            None => None,
        }
    }

}

impl Message for HeartbeatRequest {
    open spec fn spec_header(&self) -> Header {
        self.header
    }

    open spec fn spec_body(&self) -> Seq<IeView> {
        concat_slots(self.slots())
    }

    open spec fn spec_listed(&self) -> Seq<IeView> {
        self.listed_ies()
    }

    open spec fn spec_ies_of(&self, t: IeType) -> Seq<IeView> {
        match t {
            IeType::RecoveryTimeStamp => seq![self.recovery_time_stamp@],
            IeType::SourceIpAddress => opt_ie_seq(self.source_ip_address),
            _ => crate::ie::ies_of_type(ies_view(self.ies@), t),
        }
    }

    open spec fn spec_msg_type(&self) -> MsgType {
        MsgType::HeartbeatRequest
    }

    open spec fn spec_decode_error(data: Seq<u8>) -> Option<PfcpError> {
        match spec_parse_header(data) {
            Err(e) => Some(e),
            Ok(h) => match spec_parse_ies(data.skip(header_size(h) as int)) {
                Err(e) => Some(e),
                Ok(ies) => match Self::missing_ie(ies) {
                    Some(t) => Some(PfcpError::MissingMandatoryIe { ie_type: t, message_type: Some(MsgType::HeartbeatRequest) }),
                    None => None,
                },
            },
        }
    }

    open spec fn spec_decoded(data: Seq<u8>, m: Self) -> bool {
        match spec_parse_header(data) {
            Err(_) => false,
            Ok(h) => match spec_parse_ies(data.skip(header_size(h) as int)) {
                Err(_) => false,
                Ok(ies) => m.header == h && m.decodes_from(ies),
            },
        }
    }

    fn marshal_into(&self, buf: &mut Vec<u8>) {
        self.header.marshal_into(buf);
        let ghost p = buf@;
        assert(buf@ =~= p + ies_wire(concat_slots(Seq::<Seq<IeView>>::empty())));
        write_slot_one(buf, &self.recovery_time_stamp, Ghost(p), Ghost(Seq::<Seq<IeView>>::empty()));
        write_slot_opt(buf, &self.source_ip_address, Ghost(p), Ghost(Seq::<Seq<IeView>>::empty().push(seq![self.recovery_time_stamp@])));
        write_slot_many(buf, &self.ies, Ghost(p), Ghost(Seq::<Seq<IeView>>::empty().push(seq![self.recovery_time_stamp@]).push(opt_ie_seq(self.source_ip_address))));
        assert(buf@ =~= old(buf)@ + header_wire(self.header) + ies_wire(concat_slots(self.slots())));
    }

    fn marshal(&self) -> (r: Vec<u8>) {
        let mut buf: Vec<u8> = Vec::new();
        self.marshal_into(&mut buf);
        assert(buf@ =~= header_wire(self.header) + ies_wire(concat_slots(self.slots())));
        buf
    }

    fn marshaled_size(&self) -> (r: usize) {
        let v = self.marshal();
        v.len()
    }

    fn unmarshal(data: &[u8]) -> (r: Result<Self, PfcpError>) {
        let header = match Header::unmarshal(data) {
            Ok(h) => h,
            Err(e) => return Err(e),
        };
        proof { lemma_parse_header_size(data@); }
        let start = header.len() as usize;
        let mut all = match parse_ies(data, start) {
            Ok(v) => v,
            Err(e) => return Err(e),
        };
        let ghost parsed = ies_view(all@);
        let ghost cls = Self::classifier();
        let mut buckets = empty_buckets(4);
        proof {
            lemma_slot_ies_empty(cls);
            assert(parsed.take(0) =~= Seq::<IeView>::empty());
            assert forall|j: int| 0 <= j < 4 implies ies_view(#[trigger] buckets@[j]@) == slot_ies(parsed.take(0), cls, j) by {
                assert(ies_view(buckets@[j]@) =~= Seq::<IeView>::empty());
            }
        }
        let ghost mut done: int = 0;
        while all.len() > 0
            invariant
                0 <= done <= parsed.len(),
                ies_view(all@) == parsed.skip(done),
                cls == Self::classifier(),
                buckets@.len() == 4,
                forall|j: int| 0 <= j < 4 ==> ies_view(#[trigger] buckets@[j]@) == slot_ies(parsed.take(done), cls, j),
            decreases all@.len(),
        {
            let ghost old_all = all@;
            let ghost old_buckets = buckets@;
            let ie = all.remove(0);
            let ghost iev = ie@;
            proof {
                assert(ies_view(old_all).len() == old_all.len());
                assert(done < parsed.len());
                assert(ies_view(old_all)[0] == old_all[0]@);
                assert(parsed.skip(done)[0] == parsed[done]);
                assert(parsed[done] == iev);
                assert(parsed.take(done + 1) =~= parsed.take(done).push(iev));
                lemma_slot_ies_push_all(parsed.take(done), iev, cls);
                assert(all@ =~= old_all.skip(1));
                assert(ies_view(all@) =~= ies_view(old_all).skip(1));
                assert(parsed.skip(done).skip(1) =~= parsed.skip(done + 1));
            }
            let c = Self::classify(ie.ie_type);
            push_bucket(&mut buckets, c, ie);
            proof {
                assert forall|j: int| 0 <= j < 4 implies ies_view(#[trigger] buckets@[j]@) == slot_ies(parsed.take(done + 1), cls, j) by {
                    if j != c {
                        assert(buckets@[j] == old_buckets[j]);
                    }
                }
                done = done + 1;
            }
        }
        proof { assert(parsed.take(done) =~= parsed); }
        let ghost bs = buckets@;
        assert(ies_view(bs[0]@) == slot_ies(parsed, cls, 0));
        assert(ies_view(bs[1]@) == slot_ies(parsed, cls, 1));
        assert(ies_view(bs[2]@) == slot_ies(parsed, cls, 2));
        let slot0 = last_ie(take_bucket(&mut buckets, 0, Ghost(bs)));
        assert(opt_ie_seq(slot0) == decode_slot(parsed, cls, 0, SlotKind::One));
        let slot1 = last_ie(take_bucket(&mut buckets, 1, Ghost(bs)));
        assert(opt_ie_seq(slot1) == decode_slot(parsed, cls, 1, SlotKind::One));
        let slot2 = take_bucket(&mut buckets, 2, Ghost(bs));
        assert(ies_view(slot2@) == decode_slot(parsed, cls, 2, SlotKind::Many));
        if slot0.is_none() {
            return Err(PfcpError::MissingMandatoryIe { ie_type: IeType::RecoveryTimeStamp, message_type: Some(MsgType::HeartbeatRequest) });
        }
        let recovery_time_stamp = match slot0 { Some(x) => x, None => return Err(PfcpError::MissingMandatoryIe { ie_type: IeType::RecoveryTimeStamp, message_type: Some(MsgType::HeartbeatRequest) }) };
        let source_ip_address = slot1;
        let ies = slot2;
        let r = HeartbeatRequest { header, recovery_time_stamp, source_ip_address, ies };
        Ok(r)
    }

    fn msg_type(&self) -> (r: MsgType) {
        MsgType::HeartbeatRequest
    }

    fn msg_name(&self) -> (r: String) {
        MsgType::HeartbeatRequest.name().to_owned()
    }

    fn version(&self) -> (r: u8) {
        1
    }

    fn seid(&self) -> (r: Option<u64>) {
        if self.header.has_seid {
            Some(self.header.seid)
        } else {
            None
        }
    }

    fn sequence(&self) -> (r: u32) {
        self.header.sequence_number
    }

    fn set_sequence(&mut self, seq: u32) {
        self.header.sequence_number = seq;
    }

    fn ies(&self, ie_type: IeType) -> (r: IeIter<'_>) {
        match ie_type {
            IeType::RecoveryTimeStamp => IeIter::single(Some(&self.recovery_time_stamp), ie_type),
            IeType::SourceIpAddress => match &self.source_ip_address { Some(x) => IeIter::single(Some(x), ie_type), None => IeIter::single(None, ie_type) },
            _ => IeIter::generic(self.ies.as_slice(), ie_type),
        }
    }

    fn find_ie(&self, ie_type: IeType) -> (r: Option<&Ie>) {
        let mut it = self.ies(ie_type);
        it.next()
    }

    fn find_all_ies(&self, ie_type: IeType) -> (r: Vec<&Ie>) {
        self.ies(ie_type).collect()
    }

    fn all_ies(&self) -> (r: Vec<&Ie>) {
        let mut out: Vec<&Ie> = Vec::new();
        assert(ie_refs_view(out@) =~= concat_slots(Seq::<Seq<IeView>>::empty()));
        list_slot_one(&mut out, &self.recovery_time_stamp, Ghost(Seq::<Seq<IeView>>::empty()));
        list_slot_opt(&mut out, &self.source_ip_address, Ghost(Seq::<Seq<IeView>>::empty().push(seq![self.recovery_time_stamp@])));
        list_slot_many(&mut out, &self.ies, Ghost(Seq::<Seq<IeView>>::empty().push(seq![self.recovery_time_stamp@]).push(opt_ie_seq(self.source_ip_address))));
        out
    }
}

/// A well-formed HeartbeatRequest reads back as itself: decoding its wire form gives its
/// header and fields.
pub proof fn lemma_heartbeat_request_roundtrip(m: HeartbeatRequest)
    requires
        m.well_formed(),
    ensures
        HeartbeatRequest::spec_decode_error(m.wire()) is None,
        HeartbeatRequest::spec_decoded(m.wire(), m),
{
    let body = concat_slots(m.slots());
    lemma_header_roundtrip(m.header, ies_wire(body));
    lemma_header_wire_len(m.header);
    assert((header_wire(m.header) + ies_wire(body)).skip(header_size(m.header) as int) =~= ies_wire(body));
    crate::ie::lemma_parse_ies_wire(body);
    lemma_decode_concat(m.slots(), HeartbeatRequest::classifier(), HeartbeatRequest::slot_kinds());
    assert(decode_slots(body, HeartbeatRequest::classifier(), HeartbeatRequest::slot_kinds()) == m.slots());
    assert(decode_slots(body, HeartbeatRequest::classifier(), HeartbeatRequest::slot_kinds())[0] == decode_slot(body, HeartbeatRequest::classifier(), 0, SlotKind::One));
    assert(decode_slots(body, HeartbeatRequest::classifier(), HeartbeatRequest::slot_kinds())[1] == decode_slot(body, HeartbeatRequest::classifier(), 1, SlotKind::One));
    assert(decode_slots(body, HeartbeatRequest::classifier(), HeartbeatRequest::slot_kinds())[2] == decode_slot(body, HeartbeatRequest::classifier(), 2, SlotKind::Many));
    assert(m.slots()[0].len() > 0);
}

/// Builder for HeartbeatRequest messages.
#[derive(Debug)]
pub struct HeartbeatRequestBuilder {
    pub sequence: u32,
    pub recovery_time_stamp: Option<Ie>,
    pub source_ip_address: Option<Ie>,
    pub ies: Vec<Ie>,
}

impl HeartbeatRequestBuilder {
    /// The IEs of each field of the message this builder builds, in wire order.
    pub open spec fn built_slots(&self) -> Seq<Seq<IeView>> {
        Seq::<Seq<IeView>>::empty().push(seq![self.recovery_time_stamp.unwrap()@]).push(opt_ie_seq(self.source_ip_address)).push(ies_view(self.ies@))
    }

    /// The header of the message this builder builds.
    pub open spec fn built_header(&self) -> Header {
        message_header(MsgType::HeartbeatRequest, false, 0, self.sequence, concat_slots(self.built_slots()))
    }

    /// Creates a builder with no IEs set.
    pub fn new(sequence: u32) -> (r: Self)
        ensures
            r.sequence == sequence,
            r.recovery_time_stamp is None,
            r.source_ip_address is None,
            r.ies@.len() == 0,
    {
        HeartbeatRequestBuilder { sequence, recovery_time_stamp: None, source_ip_address: None, ies: Vec::new() }
    }

    /// Sets the recovery time stamp from a point in time.
    pub fn recovery_time_stamp(self, timestamp: std::time::SystemTime) -> (r: Self)
        ensures
            r.recovery_time_stamp is Some,
            r.recovery_time_stamp.unwrap()@ == crate::ie::recovery_time_stamp::recovery_time_stamp_ie_view(crate::ie::recovery_time_stamp::unix_seconds_of(timestamp)),
            r == (Self { recovery_time_stamp: r.recovery_time_stamp, ..self }),
    {
        let mut s = self;
        let ts = RecoveryTimeStamp::new(timestamp);
        s.recovery_time_stamp = Some(ts.to_ie());
        s
    }

    /// Sets the recovery time stamp IE.
    pub fn recovery_time_stamp_ie(self, ie: Ie) -> (r: Self)
        ensures
            r == (Self { recovery_time_stamp: Some(ie), ..self }),
    {
        let mut s = self;
        s.recovery_time_stamp = Some(ie);
        s
    }

    /// Sets the source IP address.
    pub fn source_ip_address(self, address: SourceIpAddress) -> (r: Self)
        ensures
            r.source_ip_address is Some,
            r.source_ip_address.unwrap()@ == (IeView { ie_type: IeType::SourceIpAddress, payload: crate::ie::source_ip_address::source_ip_bytes(address@) }),
            r == (Self { source_ip_address: r.source_ip_address, ..self }),
    {
        let mut s = self;
        s.source_ip_address = Some(address.to_ie());
        s
    }

    /// Sets the source ip address IE.
    pub fn source_ip_address_ie(self, ie: Ie) -> (r: Self)
        ensures
            r == (Self { source_ip_address: Some(ie), ..self }),
    {
        let mut s = self;
        s.source_ip_address = Some(ie);
        s
    }

    /// Adds an additional IE.
    pub fn ie(self, ie: Ie) -> (r: Self)
        ensures
            r.ies@ == self.ies@.push(ie),
            r == (Self { ies: r.ies, ..self }),
    {
        let mut s = self;
        s.ies.push(ie);
        s
    }

    /// Adds several additional IEs.
    pub fn ies(self, ies: Vec<Ie>) -> (r: Self)
        ensures
            r.ies@ == self.ies@ + ies@,
            r == (Self { ies: r.ies, ..self }),
    {
        let mut s = self;
        let mut v = ies;
        s.ies.append(&mut v);
        s
    }

    /// Builds the message. Every mandatory IE must have been set.
    pub fn build(self) -> (r: HeartbeatRequest)
        requires
            self.recovery_time_stamp is Some,
        ensures
            r.header == message_header(MsgType::HeartbeatRequest, false, 0, self.sequence, concat_slots(r.slots())),
            r.recovery_time_stamp == self.recovery_time_stamp.unwrap(),
            r.source_ip_address == self.source_ip_address,
            r.ies == self.ies,
            r.slots() == self.built_slots(),
            r.header == self.built_header(),
    {
        let recovery_time_stamp = self.recovery_time_stamp.unwrap();
        HeartbeatRequest::assemble(self.sequence, recovery_time_stamp, self.source_ip_address, self.ies)
    }

    /// Builds the message and serializes it. Every mandatory IE must have been set.
    pub fn marshal(self) -> (r: Vec<u8>)
        requires
            self.recovery_time_stamp is Some,
        ensures
            r@ == header_wire(self.built_header()) + ies_wire(concat_slots(self.built_slots())),
    {
        let msg = self.build();
        msg.marshal()
    }

}

/// Decoding what a HeartbeatRequest builder writes fails exactly when a mandatory IE is
/// missing from the IEs it was given, and a message decoded from it has the builder's
/// header, and so its sequence number; when every IE stands in the field for its type,
/// the decoded message has the builder's IEs in each field. This holds when the
/// sequence number fits the header's 24 bits and every IE fits its length field.
#[verifier::spinoff_prover]
pub proof fn lemma_heartbeat_request_builder_roundtrip(b: HeartbeatRequestBuilder)
    requires
        b.sequence < 16777216,
        ies_wf(concat_slots(b.built_slots())),
    ensures
        HeartbeatRequest::spec_decode_error(header_wire(b.built_header()) + ies_wire(concat_slots(b.built_slots()))) == (match HeartbeatRequest::missing_ie(concat_slots(b.built_slots())) {
            Some(t) => Some(PfcpError::MissingMandatoryIe { ie_type: t, message_type: Some(MsgType::HeartbeatRequest) }),
            None => None::<PfcpError>,
        }),
        forall|m: HeartbeatRequest|
            #[trigger] HeartbeatRequest::spec_decoded(header_wire(b.built_header()) + ies_wire(concat_slots(b.built_slots())), m) ==> m.header == b.built_header()
                && m.header.sequence_number == b.sequence,
        slots_typed(b.built_slots(), HeartbeatRequest::classifier(), HeartbeatRequest::slot_kinds()) ==> forall|m: HeartbeatRequest|
            #[trigger] HeartbeatRequest::spec_decoded(header_wire(b.built_header()) + ies_wire(concat_slots(b.built_slots())), m) ==> m.slots() == b.built_slots(),
{
    let h = b.built_header();
    let ss = b.built_slots();
    let body = concat_slots(ss);
    lemma_msg_type_code_roundtrip(MsgType::HeartbeatRequest);
    assert(header_wf(h));
    lemma_header_roundtrip(h, ies_wire(body));
    lemma_header_wire_len(h);
    assert((header_wire(h) + ies_wire(body)).skip(header_size(h) as int) =~= ies_wire(body));
    crate::ie::lemma_parse_ies_wire(body);
    if slots_typed(ss, HeartbeatRequest::classifier(), HeartbeatRequest::slot_kinds()) {
        lemma_decode_concat(ss, HeartbeatRequest::classifier(), HeartbeatRequest::slot_kinds());
        assert(decode_slots(body, HeartbeatRequest::classifier(), HeartbeatRequest::slot_kinds()) == ss);
        assert(decode_slots(body, HeartbeatRequest::classifier(), HeartbeatRequest::slot_kinds())[0] == decode_slot(body, HeartbeatRequest::classifier(), 0, SlotKind::One));
        assert(decode_slots(body, HeartbeatRequest::classifier(), HeartbeatRequest::slot_kinds())[1] == decode_slot(body, HeartbeatRequest::classifier(), 1, SlotKind::One));
        assert(decode_slots(body, HeartbeatRequest::classifier(), HeartbeatRequest::slot_kinds())[2] == decode_slot(body, HeartbeatRequest::classifier(), 2, SlotKind::Many));
        assert forall|m: HeartbeatRequest| #[trigger] HeartbeatRequest::spec_decoded(header_wire(b.built_header()) + ies_wire(concat_slots(b.built_slots())), m) implies m.slots() == ss by {
            assert(m.slots() =~= ss);
        }
    }
}

impl HeartbeatRequest {
    /// Every IE is in the field named for its type, and the additional IEs are of
    /// no type that has a field of its own.
    #[verifier::opaque]
    pub open spec fn fields_hold_their_types(&self) -> bool {
        &&& self.recovery_time_stamp.ie_type == IeType::RecoveryTimeStamp
        &&& (self.source_ip_address matches Some(x) ==> x.ie_type == IeType::SourceIpAddress)
        &&& forall|i: int| 0 <= i < self.ies@.len() ==> {
            let t = (#[trigger] self.ies@[i]).ie_type;
            t != IeType::RecoveryTimeStamp && t != IeType::SourceIpAddress
        }
    }
}

/// Decoding puts every IE of the body into the field named for its IE type: a
/// field for one IE holds the last IE of its type, a list holds all IEs of its
/// type in wire order, and the additional IEs are the IEs of the other types, in
/// wire order.
#[verifier::spinoff_prover]
pub proof fn lemma_heartbeat_request_decoded_by_type(data: Seq<u8>, m: HeartbeatRequest)
    requires
        HeartbeatRequest::spec_decoded(data, m),
    ensures
        spec_parse_ies(data.skip(header_size(m.header) as int)) is Ok,
        ({
            let body = spec_parse_ies(data.skip(header_size(m.header) as int))->Ok_0;
            &&& ies_of_type(body, IeType::RecoveryTimeStamp).len() > 0 && m.recovery_time_stamp@ == ies_of_type(body, IeType::RecoveryTimeStamp).last()
            &&& (ies_of_type(body, IeType::SourceIpAddress).len() == 0 ==> m.source_ip_address is None)
            &&& (ies_of_type(body, IeType::SourceIpAddress).len() > 0 ==> (m.source_ip_address matches Some(x) && x@ == ies_of_type(body, IeType::SourceIpAddress).last()))
            &&& ies_view(m.ies@) == ies_where(body, |t: IeType| t != IeType::RecoveryTimeStamp && t != IeType::SourceIpAddress)
            &&& true
        }),
{
    if let Ok(h) = spec_parse_header(data) {
        let body = spec_parse_ies(data.skip(header_size(h) as int))->Ok_0;
        let cls = HeartbeatRequest::classifier();
        assert(ies_of_type(body, IeType::RecoveryTimeStamp).len() > 0 && m.recovery_time_stamp@ == ies_of_type(body, IeType::RecoveryTimeStamp).last()) by {
            assert forall|x: IeType| #[trigger] slot_pred(cls, 0)(x) == (x == IeType::RecoveryTimeStamp) by {}
            lemma_ies_where_ext(body, slot_pred(cls, 0), |x: IeType| x == IeType::RecoveryTimeStamp);
            lemma_ies_of_type_is_where(body, IeType::RecoveryTimeStamp);
            assert(decode_slot(body, cls, 0, SlotKind::One) == last_seq(ies_of_type(body, IeType::RecoveryTimeStamp)));
            assert(seq![m.recovery_time_stamp@][0] == m.recovery_time_stamp@);
        }
        assert((ies_of_type(body, IeType::SourceIpAddress).len() == 0 ==> m.source_ip_address is None) && (ies_of_type(body, IeType::SourceIpAddress).len() > 0 ==> (m.source_ip_address matches Some(x) && x@ == ies_of_type(body, IeType::SourceIpAddress).last()))) by {
            assert forall|x: IeType| #[trigger] slot_pred(cls, 1)(x) == (x == IeType::SourceIpAddress) by {}
            lemma_ies_where_ext(body, slot_pred(cls, 1), |x: IeType| x == IeType::SourceIpAddress);
            lemma_ies_of_type_is_where(body, IeType::SourceIpAddress);
            assert(decode_slot(body, cls, 1, SlotKind::One) == last_seq(ies_of_type(body, IeType::SourceIpAddress)));
            if ies_of_type(body, IeType::SourceIpAddress).len() > 0 { assert(opt_ie_seq(m.source_ip_address)[0] == ies_of_type(body, IeType::SourceIpAddress).last()); }
        }
        assert(ies_view(m.ies@) == ies_where(body, |t: IeType| t != IeType::RecoveryTimeStamp && t != IeType::SourceIpAddress)) by {
            assert forall|t: IeType| #[trigger] slot_pred(cls, 2)(t) == (t != IeType::RecoveryTimeStamp && t != IeType::SourceIpAddress) by {}
            lemma_ies_where_ext(body, slot_pred(cls, 2), |t: IeType| t != IeType::RecoveryTimeStamp && t != IeType::SourceIpAddress);
        }
    }
}

/// When every IE is in the field named for its type, every IE sits in the slot
/// that decoding assigns its type to.
proof fn lemma_heartbeat_request_fields_classified(m: HeartbeatRequest)
    requires
        m.fields_hold_their_types(),
    ensures
        slots_classified(m.slots(), HeartbeatRequest::classifier()),
{
    reveal(HeartbeatRequest::fields_hold_their_types);
    let cls = HeartbeatRequest::classifier();
    assert(slots_classified(Seq::<Seq<IeView>>::empty(), cls));
    assert(slots_classified(Seq::<Seq<IeView>>::empty().push(seq![m.recovery_time_stamp@]), cls)) by {
        assert forall|k: int| 0 <= k < seq![m.recovery_time_stamp@].len() implies cls(#[trigger] seq![m.recovery_time_stamp@][k].ie_type) == 0 by {
        }
        lemma_classified_push(Seq::<Seq<IeView>>::empty(), seq![m.recovery_time_stamp@], cls);
    }
    assert(slots_classified(Seq::<Seq<IeView>>::empty().push(seq![m.recovery_time_stamp@]).push(opt_ie_seq(m.source_ip_address)), cls)) by {
        assert forall|k: int| 0 <= k < opt_ie_seq(m.source_ip_address).len() implies cls(#[trigger] opt_ie_seq(m.source_ip_address)[k].ie_type) == 1 by {
        }
        lemma_classified_push(Seq::<Seq<IeView>>::empty().push(seq![m.recovery_time_stamp@]), opt_ie_seq(m.source_ip_address), cls);
    }
    assert(slots_classified(Seq::<Seq<IeView>>::empty().push(seq![m.recovery_time_stamp@]).push(opt_ie_seq(m.source_ip_address)).push(ies_view(m.ies@)), cls)) by {
        assert forall|k: int| 0 <= k < ies_view(m.ies@).len() implies cls(#[trigger] ies_view(m.ies@)[k].ie_type) == 2 by {
            assert(ies_view(m.ies@)[k] == m.ies@[k]@);
        }
        lemma_classified_push(Seq::<Seq<IeView>>::empty().push(seq![m.recovery_time_stamp@]).push(opt_ie_seq(m.source_ip_address)), ies_view(m.ies@), cls);
    }
    assert(m.slots() == Seq::<Seq<IeView>>::empty().push(seq![m.recovery_time_stamp@]).push(opt_ie_seq(m.source_ip_address)).push(ies_view(m.ies@)));
}

/// When every IE is in the field named for its type, the IEs of each field's type
/// in that field are the whole field.
proof fn lemma_heartbeat_request_fields_of_their_type(m: HeartbeatRequest)
    requires
        m.fields_hold_their_types(),
    ensures
        ies_of_type(seq![m.recovery_time_stamp@], IeType::RecoveryTimeStamp) == seq![m.recovery_time_stamp@],
        ies_of_type(opt_ie_seq(m.source_ip_address), IeType::SourceIpAddress) == opt_ie_seq(m.source_ip_address),
{
    reveal(HeartbeatRequest::fields_hold_their_types);
    assert(ies_of_type(seq![m.recovery_time_stamp@], IeType::RecoveryTimeStamp) == seq![m.recovery_time_stamp@]) by {
        assert forall|k: int| 0 <= k < seq![m.recovery_time_stamp@].len() implies (#[trigger] seq![m.recovery_time_stamp@][k]).ie_type == IeType::RecoveryTimeStamp by {
        }
        lemma_of_type_all(seq![m.recovery_time_stamp@], IeType::RecoveryTimeStamp);
    }
    assert(ies_of_type(opt_ie_seq(m.source_ip_address), IeType::SourceIpAddress) == opt_ie_seq(m.source_ip_address)) by {
        assert forall|k: int| 0 <= k < opt_ie_seq(m.source_ip_address).len() implies (#[trigger] opt_ie_seq(m.source_ip_address)[k]).ie_type == IeType::SourceIpAddress by {
        }
        lemma_of_type_all(opt_ie_seq(m.source_ip_address), IeType::SourceIpAddress);
    }
}

/// Looking up the IEs of a type gives exactly the message's IEs of that type, in
/// wire order, when every IE is in the field named for its type.
#[verifier::spinoff_prover]
pub proof fn lemma_heartbeat_request_lookup_by_type(m: HeartbeatRequest, t: IeType)
    requires
        m.fields_hold_their_types(),
    ensures
        m.spec_ies_of(t) == ies_of_type(m.spec_body(), t),
        forall|k: int| 0 <= k < m.spec_ies_of(t).len() ==> (#[trigger] m.spec_ies_of(t)[k]).ie_type == t,
{
    let cls = HeartbeatRequest::classifier();
    lemma_heartbeat_request_fields_classified(m);
    lemma_of_type_classified(m.slots(), cls, t);
    lemma_heartbeat_request_fields_of_their_type(m);
    match t {
        IeType::RecoveryTimeStamp => {
            assert(m.slots()[0] == seq![m.recovery_time_stamp@]);
        },
        IeType::SourceIpAddress => {
            assert(m.slots()[1] == opt_ie_seq(m.source_ip_address));
        },
        _ => {
            assert(m.slots()[2] == ies_view(m.ies@));
        },
    }
    lemma_of_type_types(m.spec_body(), t);
}

} // verus!
