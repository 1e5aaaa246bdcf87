//! Session Deletion Response message (3GPP TS 29.244 clause 7.5.7).
use crate::error::PfcpError;
use crate::ie::{
    ie_refs_view, ies_of_type, ies_size, ies_view, ies_where, ies_wf, ies_wire, parse_ies, spec_parse_ies, Ie,
    IeType, IeView,
};
use crate::message::header::{
    header_size, header_wf, header_wire, lemma_header_roundtrip, lemma_header_wire_len, spec_parse_header, Header,
};
use crate::message::ie_iter::IeIter;
use crate::message::slots::{
    concat_slots, decode_slot, decode_slots, empty_buckets, last_ie, lemma_decode_concat, lemma_len_step,
    lemma_slot_ies_empty, lemma_slot_ies_push_all, len_slot_many, len_slot_one, len_slot_opt, list_slot_many,
    list_slot_one, list_slot_opt, opt_ie_seq, push_bucket, slot_ies, slots_typed, take_bucket, write_slot_many,
    write_slot_one, write_slot_opt, SlotKind, last_seq, lemma_classified_push, lemma_ies_of_type_is_where,
    lemma_ies_where_ext, lemma_of_type_all, lemma_of_type_classified, lemma_of_type_types, slot_pred,
    slots_classified,
};
use crate::message::{lemma_msg_type_code_roundtrip, lemma_parse_header_size, message_header, Message, MsgType};
use crate::ie::cause::{Cause, CauseValue};
use vstd::prelude::*;

verus! {

/// A Session Deletion Response message (3GPP TS 29.244 clause 7.5.7)
#[derive(Debug, Clone, PartialEq, Eq)]
pub struct SessionDeletionResponse {
    pub header: Header,
    pub cause: Ie,
    pub offending_ie: Option<Ie>,
    pub load_control_information: Option<Ie>,
    pub overload_control_information: Option<Ie>,
    pub usage_reports: Vec<Ie>,
    pub additional_usage_reports_information: Option<Ie>,
    pub packet_rate_status_reports: Vec<Ie>,
    pub mbs_session_n4_information: Vec<Ie>,
    pub pfcpsdrsp_flags: Option<Ie>,
    pub tl_container: Vec<Ie>,
    pub ies: Vec<Ie>,
}

impl SessionDeletionResponse {
    /// The slot that an IE of type `t` is read into.
    pub open spec fn slot_class(t: IeType) -> int {
        match t {
            IeType::Cause => 0,
            IeType::OffendingIe => 1,
            IeType::LoadControlInformation => 2,
            IeType::OverloadControlInformation => 3,
            IeType::UsageReportWithinSessionDeletionResponse => 4,
            IeType::AdditionalUsageReportsInformation => 5,
            IeType::PacketRateStatusReport => 6,
            IeType::MbsSessionN4Information => 7,
            IeType::PfcpsdrspFlags => 8,
            IeType::TlContainer => 9,
            _ => 10,
        }
    }

    /// The slot that an IE of type `t` is read into.
    fn classify(t: IeType) -> (r: usize)
        ensures
            r == Self::slot_class(t),
    {
        match t {
            IeType::Cause => 0,
            IeType::OffendingIe => 1,
            IeType::LoadControlInformation => 2,
            IeType::OverloadControlInformation => 3,
            IeType::UsageReportWithinSessionDeletionResponse => 4,
            IeType::AdditionalUsageReportsInformation => 5,
            IeType::PacketRateStatusReport => 6,
            IeType::MbsSessionN4Information => 7,
            IeType::PfcpsdrspFlags => 8,
            IeType::TlContainer => 9,
            _ => 10,
        }
    }

    /// `slot_class` as a function value.
    pub open spec fn classifier() -> spec_fn(IeType) -> int {
        |t: IeType| Self::slot_class(t)
    }

    /// How many IEs each slot keeps, in wire order.
    pub open spec fn slot_kinds() -> Seq<SlotKind> {
        seq![SlotKind::One, SlotKind::One, SlotKind::One, SlotKind::One, SlotKind::Many, SlotKind::One, SlotKind::Many, SlotKind::Many, SlotKind::One, SlotKind::Many, SlotKind::Many]
    }

    /// The IEs of each field, in wire order.
    pub open spec fn slots(&self) -> Seq<Seq<IeView>> {
        Seq::<Seq<IeView>>::empty().push(seq![self.cause@]).push(opt_ie_seq(self.offending_ie)).push(opt_ie_seq(self.load_control_information)).push(opt_ie_seq(self.overload_control_information)).push(ies_view(self.usage_reports@)).push(opt_ie_seq(self.additional_usage_reports_information)).push(ies_view(self.packet_rate_status_reports@)).push(ies_view(self.mbs_session_n4_information@)).push(opt_ie_seq(self.pfcpsdrsp_flags)).push(ies_view(self.tl_container@)).push(ies_view(self.ies@))
    }

    /// The IEs in the order that `all_ies` lists them.
    pub open spec fn listed_ies(&self) -> Seq<IeView> {
        concat_slots(Seq::<Seq<IeView>>::empty().push(seq![self.cause@]).push(opt_ie_seq(self.offending_ie)).push(opt_ie_seq(self.load_control_information)).push(opt_ie_seq(self.overload_control_information)).push(ies_view(self.usage_reports@)).push(opt_ie_seq(self.additional_usage_reports_information)).push(ies_view(self.packet_rate_status_reports@)).push(ies_view(self.mbs_session_n4_information@)).push(opt_ie_seq(self.pfcpsdrsp_flags)).push(ies_view(self.tl_container@)).push(ies_view(self.ies@)))
    }

    /// The first mandatory IE that `ies` lacks, checked in the order the decoder checks.
    pub open spec fn missing_ie(ies: Seq<IeView>) -> Option<IeType> {
        if decode_slot(ies, Self::classifier(), 0, SlotKind::One).len() == 0 {
            Some(IeType::Cause)
        } else {
            None
        }
    }

    /// The fields have a shape that decoding gives back: every IE is in the field for its type,
    /// mandatory lists are not empty and optional lists are present only when not empty.
    pub open spec fn fields_canonical(&self) -> bool {
        slots_typed(self.slots(), Self::classifier(), Self::slot_kinds())
    }

    /// A message that reads back as itself.
    pub open spec fn well_formed(&self) -> bool {
        header_wf(self.header) && ies_wf(concat_slots(self.slots())) && self.fields_canonical()
    }

    /// The wire form of the message: its header, then its IEs in wire order.
    pub open spec fn wire(&self) -> Seq<u8> {
        header_wire(self.header) + ies_wire(concat_slots(self.slots()))
    }

    /// Decoding `ies` gives these fields.
    pub open spec fn decodes_from(&self, ies: Seq<IeView>) -> bool {
        &&& seq![self.cause@] == decode_slot(ies, Self::classifier(), 0, SlotKind::One)
        &&& opt_ie_seq(self.offending_ie) == decode_slot(ies, Self::classifier(), 1, SlotKind::One)
        &&& opt_ie_seq(self.load_control_information) == decode_slot(ies, Self::classifier(), 2, SlotKind::One)
        &&& opt_ie_seq(self.overload_control_information) == decode_slot(ies, Self::classifier(), 3, SlotKind::One)
        &&& ies_view(self.usage_reports@) == decode_slot(ies, Self::classifier(), 4, SlotKind::Many)
        &&& opt_ie_seq(self.additional_usage_reports_information) == decode_slot(ies, Self::classifier(), 5, SlotKind::One)
        &&& ies_view(self.packet_rate_status_reports@) == decode_slot(ies, Self::classifier(), 6, SlotKind::Many)
        &&& ies_view(self.mbs_session_n4_information@) == decode_slot(ies, Self::classifier(), 7, SlotKind::Many)
        &&& opt_ie_seq(self.pfcpsdrsp_flags) == decode_slot(ies, Self::classifier(), 8, SlotKind::One)
        &&& ies_view(self.tl_container@) == decode_slot(ies, Self::classifier(), 9, SlotKind::Many)
        &&& ies_view(self.ies@) == decode_slot(ies, Self::classifier(), 10, SlotKind::Many)
    }

    /// Assembles a message from its fields; the header length covers the fields' IEs.
    fn assemble(seid: u64, seq: u32, cause: Ie, offending_ie: Option<Ie>, load_control_information: Option<Ie>, overload_control_information: Option<Ie>, usage_reports: Vec<Ie>, additional_usage_reports_information: Option<Ie>, packet_rate_status_reports: Vec<Ie>, mbs_session_n4_information: Vec<Ie>, pfcpsdrsp_flags: Option<Ie>, tl_container: Vec<Ie>, ies: Vec<Ie>) -> (r: Self)
        ensures
            r.header == message_header(MsgType::SessionDeletionResponse, true, seid, seq, concat_slots(r.slots())),
            r.cause == cause,
            r.offending_ie == offending_ie,
            r.load_control_information == load_control_information,
            r.overload_control_information == overload_control_information,
            r.usage_reports == usage_reports,
            r.additional_usage_reports_information == additional_usage_reports_information,
            r.packet_rate_status_reports == packet_rate_status_reports,
            r.mbs_session_n4_information == mbs_session_n4_information,
            r.pfcpsdrsp_flags == pfcpsdrsp_flags,
            r.tl_container == tl_container,
            r.ies == ies,
    {
        let len: u16 = 0;
        let len = len_slot_one(len, &cause, Ghost(Seq::<Seq<IeView>>::empty()));
        let len = len_slot_opt(len, &offending_ie, Ghost(Seq::<Seq<IeView>>::empty().push(seq![cause@])));
        let len = len_slot_opt(len, &load_control_information, Ghost(Seq::<Seq<IeView>>::empty().push(seq![cause@]).push(opt_ie_seq(offending_ie))));
        let len = len_slot_opt(len, &overload_control_information, Ghost(Seq::<Seq<IeView>>::empty().push(seq![cause@]).push(opt_ie_seq(offending_ie)).push(opt_ie_seq(load_control_information))));
        let len = len_slot_many(len, &usage_reports, Ghost(Seq::<Seq<IeView>>::empty().push(seq![cause@]).push(opt_ie_seq(offending_ie)).push(opt_ie_seq(load_control_information)).push(opt_ie_seq(overload_control_information))));
        let len = len_slot_opt(len, &additional_usage_reports_information, Ghost(Seq::<Seq<IeView>>::empty().push(seq![cause@]).push(opt_ie_seq(offending_ie)).push(opt_ie_seq(load_control_information)).push(opt_ie_seq(overload_control_information)).push(ies_view(usage_reports@))));
        let len = len_slot_many(len, &packet_rate_status_reports, Ghost(Seq::<Seq<IeView>>::empty().push(seq![cause@]).push(opt_ie_seq(offending_ie)).push(opt_ie_seq(load_control_information)).push(opt_ie_seq(overload_control_information)).push(ies_view(usage_reports@)).push(opt_ie_seq(additional_usage_reports_information))));
        let len = len_slot_many(len, &mbs_session_n4_information, Ghost(Seq::<Seq<IeView>>::empty().push(seq![cause@]).push(opt_ie_seq(offending_ie)).push(opt_ie_seq(load_control_information)).push(opt_ie_seq(overload_control_information)).push(ies_view(usage_reports@)).push(opt_ie_seq(additional_usage_reports_information)).push(ies_view(packet_rate_status_reports@))));
        let len = len_slot_opt(len, &pfcpsdrsp_flags, Ghost(Seq::<Seq<IeView>>::empty().push(seq![cause@]).push(opt_ie_seq(offending_ie)).push(opt_ie_seq(load_control_information)).push(opt_ie_seq(overload_control_information)).push(ies_view(usage_reports@)).push(opt_ie_seq(additional_usage_reports_information)).push(ies_view(packet_rate_status_reports@)).push(ies_view(mbs_session_n4_information@))));
        let len = len_slot_many(len, &tl_container, Ghost(Seq::<Seq<IeView>>::empty().push(seq![cause@]).push(opt_ie_seq(offending_ie)).push(opt_ie_seq(load_control_information)).push(opt_ie_seq(overload_control_information)).push(ies_view(usage_reports@)).push(opt_ie_seq(additional_usage_reports_information)).push(ies_view(packet_rate_status_reports@)).push(ies_view(mbs_session_n4_information@)).push(opt_ie_seq(pfcpsdrsp_flags))));
        let len = len_slot_many(len, &ies, Ghost(Seq::<Seq<IeView>>::empty().push(seq![cause@]).push(opt_ie_seq(offending_ie)).push(opt_ie_seq(load_control_information)).push(opt_ie_seq(overload_control_information)).push(ies_view(usage_reports@)).push(opt_ie_seq(additional_usage_reports_information)).push(ies_view(packet_rate_status_reports@)).push(ies_view(mbs_session_n4_information@)).push(opt_ie_seq(pfcpsdrsp_flags)).push(ies_view(tl_container@))));
        let mut header = Header::new(MsgType::SessionDeletionResponse, true, seid, seq);
        proof { lemma_len_step(ies_size(concat_slots(Seq::<Seq<IeView>>::empty().push(seq![cause@]).push(opt_ie_seq(offending_ie)).push(opt_ie_seq(load_control_information)).push(opt_ie_seq(overload_control_information)).push(ies_view(usage_reports@)).push(opt_ie_seq(additional_usage_reports_information)).push(ies_view(packet_rate_status_reports@)).push(ies_view(mbs_session_n4_information@)).push(opt_ie_seq(pfcpsdrsp_flags)).push(ies_view(tl_container@)).push(ies_view(ies@)))) as int, header_size(header) as int - 4, len as int); }
        header.length = ((len as u32 + header.len() as u32 - 4) % 65536) as u16;
        SessionDeletionResponse { header, cause, offending_ie, load_control_information, overload_control_information, usage_reports, additional_usage_reports_information, packet_rate_status_reports, mbs_session_n4_information, pfcpsdrsp_flags, tl_container, ies }
    }

    /// Creates a Session Deletion Response message; the header length covers the given IEs.
    pub fn new(seid: u64, seq: u32, cause: Ie, offending_ie: Option<Ie>, load_control_information: Option<Ie>, overload_control_information: Option<Ie>, usage_reports: Vec<Ie>, additional_usage_reports_information: Option<Ie>, packet_rate_status_reports: Vec<Ie>, mbs_session_n4_information: Vec<Ie>, pfcpsdrsp_flags: Option<Ie>, tl_container: Vec<Ie>, ies: Vec<Ie>) -> (r: Self)
        ensures
            r.header == message_header(MsgType::SessionDeletionResponse, true, seid, seq, concat_slots(r.slots())),
            r.cause == cause,
            r.offending_ie == offending_ie,
            r.load_control_information == load_control_information,
            r.overload_control_information == overload_control_information,
            r.usage_reports == usage_reports,
            r.additional_usage_reports_information == additional_usage_reports_information,
            r.packet_rate_status_reports == packet_rate_status_reports,
            r.mbs_session_n4_information == mbs_session_n4_information,
            r.pfcpsdrsp_flags == pfcpsdrsp_flags,
            r.tl_container == tl_container,
            r.ies == ies,
    {
        Self::assemble(seid, seq, cause, offending_ie, load_control_information, overload_control_information, usage_reports, additional_usage_reports_information, packet_rate_status_reports, mbs_session_n4_information, pfcpsdrsp_flags, tl_container, ies)
    }

}

impl Message for SessionDeletionResponse {
    open spec fn spec_header(&self) -> Header {
        self.header
    }

    open spec fn spec_body(&self) -> Seq<IeView> {
        concat_slots(self.slots())
    }

    open spec fn spec_listed(&self) -> Seq<IeView> {
        self.listed_ies()
    }

    open spec fn spec_ies_of(&self, t: IeType) -> Seq<IeView> {
        match t {
            IeType::Cause => seq![self.cause@],
            IeType::OffendingIe => opt_ie_seq(self.offending_ie),
            IeType::LoadControlInformation => opt_ie_seq(self.load_control_information),
            IeType::OverloadControlInformation => opt_ie_seq(self.overload_control_information),
            IeType::UsageReportWithinSessionDeletionResponse => ies_view(self.usage_reports@),
            IeType::AdditionalUsageReportsInformation => opt_ie_seq(self.additional_usage_reports_information),
            IeType::PacketRateStatusReport => ies_view(self.packet_rate_status_reports@),
            IeType::MbsSessionN4Information => ies_view(self.mbs_session_n4_information@),
            IeType::PfcpsdrspFlags => opt_ie_seq(self.pfcpsdrsp_flags),
            IeType::TlContainer => ies_view(self.tl_container@),
            _ => crate::ie::ies_of_type(ies_view(self.ies@), t),
        }
    }

    open spec fn spec_msg_type(&self) -> MsgType {
        MsgType::SessionDeletionResponse
    }

    open spec fn spec_decode_error(data: Seq<u8>) -> Option<PfcpError> {
        match spec_parse_header(data) {
            Err(e) => Some(e),
            Ok(h) => match spec_parse_ies(data.skip(header_size(h) as int)) {
                Err(e) => Some(e),
                Ok(ies) => match Self::missing_ie(ies) {
                    Some(t) => Some(PfcpError::MissingMandatoryIe { ie_type: t, message_type: Some(MsgType::SessionDeletionResponse) }),
                    None => None,
                },
            },
        }
    }

    open spec fn spec_decoded(data: Seq<u8>, m: Self) -> bool {
        match spec_parse_header(data) {
            Err(_) => false,
            Ok(h) => match spec_parse_ies(data.skip(header_size(h) as int)) {
                Err(_) => false,
                Ok(ies) => m.header == h && m.decodes_from(ies),
            },
        }
    }

    fn marshal_into(&self, buf: &mut Vec<u8>) {
        self.header.marshal_into(buf);
        let ghost p = buf@;
        assert(buf@ =~= p + ies_wire(concat_slots(Seq::<Seq<IeView>>::empty())));
        write_slot_one(buf, &self.cause, Ghost(p), Ghost(Seq::<Seq<IeView>>::empty()));
        write_slot_opt(buf, &self.offending_ie, Ghost(p), Ghost(Seq::<Seq<IeView>>::empty().push(seq![self.cause@])));
        write_slot_opt(buf, &self.load_control_information, Ghost(p), Ghost(Seq::<Seq<IeView>>::empty().push(seq![self.cause@]).push(opt_ie_seq(self.offending_ie))));
        write_slot_opt(buf, &self.overload_control_information, Ghost(p), Ghost(Seq::<Seq<IeView>>::empty().push(seq![self.cause@]).push(opt_ie_seq(self.offending_ie)).push(opt_ie_seq(self.load_control_information))));
        write_slot_many(buf, &self.usage_reports, Ghost(p), Ghost(Seq::<Seq<IeView>>::empty().push(seq![self.cause@]).push(opt_ie_seq(self.offending_ie)).push(opt_ie_seq(self.load_control_information)).push(opt_ie_seq(self.overload_control_information))));
        write_slot_opt(buf, &self.additional_usage_reports_information, Ghost(p), Ghost(Seq::<Seq<IeView>>::empty().push(seq![self.cause@]).push(opt_ie_seq(self.offending_ie)).push(opt_ie_seq(self.load_control_information)).push(opt_ie_seq(self.overload_control_information)).push(ies_view(self.usage_reports@))));
        write_slot_many(buf, &self.packet_rate_status_reports, Ghost(p), Ghost(Seq::<Seq<IeView>>::empty().push(seq![self.cause@]).push(opt_ie_seq(self.offending_ie)).push(opt_ie_seq(self.load_control_information)).push(opt_ie_seq(self.overload_control_information)).push(ies_view(self.usage_reports@)).push(opt_ie_seq(self.additional_usage_reports_information))));
        write_slot_many(buf, &self.mbs_session_n4_information, Ghost(p), Ghost(Seq::<Seq<IeView>>::empty().push(seq![self.cause@]).push(opt_ie_seq(self.offending_ie)).push(opt_ie_seq(self.load_control_information)).push(opt_ie_seq(self.overload_control_information)).push(ies_view(self.usage_reports@)).push(opt_ie_seq(self.additional_usage_reports_information)).push(ies_view(self.packet_rate_status_reports@))));
        write_slot_opt(buf, &self.pfcpsdrsp_flags, Ghost(p), Ghost(Seq::<Seq<IeView>>::empty().push(seq![self.cause@]).push(opt_ie_seq(self.offending_ie)).push(opt_ie_seq(self.load_control_information)).push(opt_ie_seq(self.overload_control_information)).push(ies_view(self.usage_reports@)).push(opt_ie_seq(self.additional_usage_reports_information)).push(ies_view(self.packet_rate_status_reports@)).push(ies_view(self.mbs_session_n4_information@))));
        write_slot_many(buf, &self.tl_container, Ghost(p), Ghost(Seq::<Seq<IeView>>::empty().push(seq![self.cause@]).push(opt_ie_seq(self.offending_ie)).push(opt_ie_seq(self.load_control_information)).push(opt_ie_seq(self.overload_control_information)).push(ies_view(self.usage_reports@)).push(opt_ie_seq(self.additional_usage_reports_information)).push(ies_view(self.packet_rate_status_reports@)).push(ies_view(self.mbs_session_n4_information@)).push(opt_ie_seq(self.pfcpsdrsp_flags))));
        write_slot_many(buf, &self.ies, Ghost(p), Ghost(Seq::<Seq<IeView>>::empty().push(seq![self.cause@]).push(opt_ie_seq(self.offending_ie)).push(opt_ie_seq(self.load_control_information)).push(opt_ie_seq(self.overload_control_information)).push(ies_view(self.usage_reports@)).push(opt_ie_seq(self.additional_usage_reports_information)).push(ies_view(self.packet_rate_status_reports@)).push(ies_view(self.mbs_session_n4_information@)).push(opt_ie_seq(self.pfcpsdrsp_flags)).push(ies_view(self.tl_container@))));
        assert(buf@ =~= old(buf)@ + header_wire(self.header) + ies_wire(concat_slots(self.slots())));
    }

    fn marshal(&self) -> (r: Vec<u8>) {
        let mut buf: Vec<u8> = Vec::new();
        self.marshal_into(&mut buf);
        assert(buf@ =~= header_wire(self.header) + ies_wire(concat_slots(self.slots())));
        buf
    }

    fn marshaled_size(&self) -> (r: usize) {
        let v = self.marshal();
        v.len()
    }

    #[verifier::rlimit(60)]
    fn unmarshal(data: &[u8]) -> (r: Result<Self, PfcpError>) {
        let header = match Header::unmarshal(data) {
            Ok(h) => h,
            Err(e) => return Err(e),
        };
        proof { lemma_parse_header_size(data@); }
        let start = header.len() as usize;
        let mut all = match parse_ies(data, start) {
            Ok(v) => v,
            Err(e) => return Err(e),
        };
        let ghost parsed = ies_view(all@);
        let ghost cls = Self::classifier();
        let mut buckets = empty_buckets(12);
        proof {
            lemma_slot_ies_empty(cls);
            assert(parsed.take(0) =~= Seq::<IeView>::empty());
            assert forall|j: int| 0 <= j < 12 implies ies_view(#[trigger] buckets@[j]@) == slot_ies(parsed.take(0), cls, j) by {
                assert(ies_view(buckets@[j]@) =~= Seq::<IeView>::empty());
            }
        }
        let ghost mut done: int = 0;
        while all.len() > 0
            invariant
                0 <= done <= parsed.len(),
                ies_view(all@) == parsed.skip(done),
                cls == Self::classifier(),
                buckets@.len() == 12,
                forall|j: int| 0 <= j < 12 ==> ies_view(#[trigger] buckets@[j]@) == slot_ies(parsed.take(done), cls, j),
            decreases all@.len(),
        {
            let ghost old_all = all@;
            let ghost old_buckets = buckets@;
            let ie = all.remove(0);
            let ghost iev = ie@;
            proof {
                assert(ies_view(old_all).len() == old_all.len());
                assert(done < parsed.len());
                assert(ies_view(old_all)[0] == old_all[0]@);
                assert(parsed.skip(done)[0] == parsed[done]);
                assert(parsed[done] == iev);
                assert(parsed.take(done + 1) =~= parsed.take(done).push(iev));
                lemma_slot_ies_push_all(parsed.take(done), iev, cls);
                assert(all@ =~= old_all.skip(1));
                assert(ies_view(all@) =~= ies_view(old_all).skip(1));
                assert(parsed.skip(done).skip(1) =~= parsed.skip(done + 1));
            }
            let c = Self::classify(ie.ie_type);
            push_bucket(&mut buckets, c, ie);
            proof {
                assert forall|j: int| 0 <= j < 12 implies ies_view(#[trigger] buckets@[j]@) == slot_ies(parsed.take(done + 1), cls, j) by {
                    if j != c {
                        assert(buckets@[j] == old_buckets[j]);
                    }
                }
                done = done + 1;
            }
        }
        proof { assert(parsed.take(done) =~= parsed); }
        let ghost bs = buckets@;
        assert(ies_view(bs[0]@) == slot_ies(parsed, cls, 0));
        assert(ies_view(bs[1]@) == slot_ies(parsed, cls, 1));
        assert(ies_view(bs[2]@) == slot_ies(parsed, cls, 2));
        assert(ies_view(bs[3]@) == slot_ies(parsed, cls, 3));
        assert(ies_view(bs[4]@) == slot_ies(parsed, cls, 4));
        assert(ies_view(bs[5]@) == slot_ies(parsed, cls, 5));
        assert(ies_view(bs[6]@) == slot_ies(parsed, cls, 6));
        assert(ies_view(bs[7]@) == slot_ies(parsed, cls, 7));
        assert(ies_view(bs[8]@) == slot_ies(parsed, cls, 8));
        assert(ies_view(bs[9]@) == slot_ies(parsed, cls, 9));
        assert(ies_view(bs[10]@) == slot_ies(parsed, cls, 10));
        let slot0 = last_ie(take_bucket(&mut buckets, 0, Ghost(bs)));
        assert(opt_ie_seq(slot0) == decode_slot(parsed, cls, 0, SlotKind::One));
        let slot1 = last_ie(take_bucket(&mut buckets, 1, Ghost(bs)));
        assert(opt_ie_seq(slot1) == decode_slot(parsed, cls, 1, SlotKind::One));
        let slot2 = last_ie(take_bucket(&mut buckets, 2, Ghost(bs)));
        assert(opt_ie_seq(slot2) == decode_slot(parsed, cls, 2, SlotKind::One));
        let slot3 = last_ie(take_bucket(&mut buckets, 3, Ghost(bs)));
        assert(opt_ie_seq(slot3) == decode_slot(parsed, cls, 3, SlotKind::One));
        let slot4 = take_bucket(&mut buckets, 4, Ghost(bs));
        assert(ies_view(slot4@) == decode_slot(parsed, cls, 4, SlotKind::Many));
        let slot5 = last_ie(take_bucket(&mut buckets, 5, Ghost(bs)));
        assert(opt_ie_seq(slot5) == decode_slot(parsed, cls, 5, SlotKind::One));
        let slot6 = take_bucket(&mut buckets, 6, Ghost(bs));
        assert(ies_view(slot6@) == decode_slot(parsed, cls, 6, SlotKind::Many));
        let slot7 = take_bucket(&mut buckets, 7, Ghost(bs));
        assert(ies_view(slot7@) == decode_slot(parsed, cls, 7, SlotKind::Many));
        let slot8 = last_ie(take_bucket(&mut buckets, 8, Ghost(bs)));
        assert(opt_ie_seq(slot8) == decode_slot(parsed, cls, 8, SlotKind::One));
        let slot9 = take_bucket(&mut buckets, 9, Ghost(bs));
        assert(ies_view(slot9@) == decode_slot(parsed, cls, 9, SlotKind::Many));
        let slot10 = take_bucket(&mut buckets, 10, Ghost(bs));
        assert(ies_view(slot10@) == decode_slot(parsed, cls, 10, SlotKind::Many));
        if slot0.is_none() {
            return Err(PfcpError::MissingMandatoryIe { ie_type: IeType::Cause, message_type: Some(MsgType::SessionDeletionResponse) });
        }
        let cause = match slot0 { Some(x) => x, None => return Err(PfcpError::MissingMandatoryIe { ie_type: IeType::Cause, message_type: Some(MsgType::SessionDeletionResponse) }) };
        let offending_ie = slot1;
        let load_control_information = slot2;
        let overload_control_information = slot3;
        let usage_reports = slot4;
        let additional_usage_reports_information = slot5;
        let packet_rate_status_reports = slot6;
        let mbs_session_n4_information = slot7;
        let pfcpsdrsp_flags = slot8;
        let tl_container = slot9;
        let ies = slot10;
        let r = SessionDeletionResponse { header, cause, offending_ie, load_control_information, overload_control_information, usage_reports, additional_usage_reports_information, packet_rate_status_reports, mbs_session_n4_information, pfcpsdrsp_flags, tl_container, ies };
        Ok(r)
    }

    fn msg_type(&self) -> (r: MsgType) {
        MsgType::SessionDeletionResponse
    }

    fn msg_name(&self) -> (r: String) {
        MsgType::SessionDeletionResponse.name().to_owned()
    }

    fn version(&self) -> (r: u8) {
        1
    }

    fn seid(&self) -> (r: Option<u64>) {
        if self.header.has_seid {
            Some(self.header.seid)
        } else {
            None
        }
    }

    fn sequence(&self) -> (r: u32) {
        self.header.sequence_number
    }

    fn set_sequence(&mut self, seq: u32) {
        self.header.sequence_number = seq;
    }

    fn ies(&self, ie_type: IeType) -> (r: IeIter<'_>) {
        match ie_type {
            IeType::Cause => IeIter::single(Some(&self.cause), ie_type),
            IeType::OffendingIe => match &self.offending_ie { Some(x) => IeIter::single(Some(x), ie_type), None => IeIter::single(None, ie_type) },
            IeType::LoadControlInformation => match &self.load_control_information { Some(x) => IeIter::single(Some(x), ie_type), None => IeIter::single(None, ie_type) },
            IeType::OverloadControlInformation => match &self.overload_control_information { Some(x) => IeIter::single(Some(x), ie_type), None => IeIter::single(None, ie_type) },
            IeType::UsageReportWithinSessionDeletionResponse => IeIter::multiple(self.usage_reports.as_slice(), ie_type),
            IeType::AdditionalUsageReportsInformation => match &self.additional_usage_reports_information { Some(x) => IeIter::single(Some(x), ie_type), None => IeIter::single(None, ie_type) },
            IeType::PacketRateStatusReport => IeIter::multiple(self.packet_rate_status_reports.as_slice(), ie_type),
            IeType::MbsSessionN4Information => IeIter::multiple(self.mbs_session_n4_information.as_slice(), ie_type),
            IeType::PfcpsdrspFlags => match &self.pfcpsdrsp_flags { Some(x) => IeIter::single(Some(x), ie_type), None => IeIter::single(None, ie_type) },
            IeType::TlContainer => IeIter::multiple(self.tl_container.as_slice(), ie_type),
            _ => IeIter::generic(self.ies.as_slice(), ie_type),
        }
    }

    fn find_ie(&self, ie_type: IeType) -> (r: Option<&Ie>) {
        let mut it = self.ies(ie_type);
        it.next()
    }

    fn find_all_ies(&self, ie_type: IeType) -> (r: Vec<&Ie>) {
        self.ies(ie_type).collect()
    }

    fn all_ies(&self) -> (r: Vec<&Ie>) {
        let mut out: Vec<&Ie> = Vec::new();
        assert(ie_refs_view(out@) =~= concat_slots(Seq::<Seq<IeView>>::empty()));
        list_slot_one(&mut out, &self.cause, Ghost(Seq::<Seq<IeView>>::empty()));
        list_slot_opt(&mut out, &self.offending_ie, Ghost(Seq::<Seq<IeView>>::empty().push(seq![self.cause@])));
        list_slot_opt(&mut out, &self.load_control_information, Ghost(Seq::<Seq<IeView>>::empty().push(seq![self.cause@]).push(opt_ie_seq(self.offending_ie))));
        list_slot_opt(&mut out, &self.overload_control_information, Ghost(Seq::<Seq<IeView>>::empty().push(seq![self.cause@]).push(opt_ie_seq(self.offending_ie)).push(opt_ie_seq(self.load_control_information))));
        list_slot_many(&mut out, &self.usage_reports, Ghost(Seq::<Seq<IeView>>::empty().push(seq![self.cause@]).push(opt_ie_seq(self.offending_ie)).push(opt_ie_seq(self.load_control_information)).push(opt_ie_seq(self.overload_control_information))));
        list_slot_opt(&mut out, &self.additional_usage_reports_information, Ghost(Seq::<Seq<IeView>>::empty().push(seq![self.cause@]).push(opt_ie_seq(self.offending_ie)).push(opt_ie_seq(self.load_control_information)).push(opt_ie_seq(self.overload_control_information)).push(ies_view(self.usage_reports@))));
        list_slot_many(&mut out, &self.packet_rate_status_reports, Ghost(Seq::<Seq<IeView>>::empty().push(seq![self.cause@]).push(opt_ie_seq(self.offending_ie)).push(opt_ie_seq(self.load_control_information)).push(opt_ie_seq(self.overload_control_information)).push(ies_view(self.usage_reports@)).push(opt_ie_seq(self.additional_usage_reports_information))));
        list_slot_many(&mut out, &self.mbs_session_n4_information, Ghost(Seq::<Seq<IeView>>::empty().push(seq![self.cause@]).push(opt_ie_seq(self.offending_ie)).push(opt_ie_seq(self.load_control_information)).push(opt_ie_seq(self.overload_control_information)).push(ies_view(self.usage_reports@)).push(opt_ie_seq(self.additional_usage_reports_information)).push(ies_view(self.packet_rate_status_reports@))));
        list_slot_opt(&mut out, &self.pfcpsdrsp_flags, Ghost(Seq::<Seq<IeView>>::empty().push(seq![self.cause@]).push(opt_ie_seq(self.offending_ie)).push(opt_ie_seq(self.load_control_information)).push(opt_ie_seq(self.overload_control_information)).push(ies_view(self.usage_reports@)).push(opt_ie_seq(self.additional_usage_reports_information)).push(ies_view(self.packet_rate_status_reports@)).push(ies_view(self.mbs_session_n4_information@))));
        list_slot_many(&mut out, &self.tl_container, Ghost(Seq::<Seq<IeView>>::empty().push(seq![self.cause@]).push(opt_ie_seq(self.offending_ie)).push(opt_ie_seq(self.load_control_information)).push(opt_ie_seq(self.overload_control_information)).push(ies_view(self.usage_reports@)).push(opt_ie_seq(self.additional_usage_reports_information)).push(ies_view(self.packet_rate_status_reports@)).push(ies_view(self.mbs_session_n4_information@)).push(opt_ie_seq(self.pfcpsdrsp_flags))));
        list_slot_many(&mut out, &self.ies, Ghost(Seq::<Seq<IeView>>::empty().push(seq![self.cause@]).push(opt_ie_seq(self.offending_ie)).push(opt_ie_seq(self.load_control_information)).push(opt_ie_seq(self.overload_control_information)).push(ies_view(self.usage_reports@)).push(opt_ie_seq(self.additional_usage_reports_information)).push(ies_view(self.packet_rate_status_reports@)).push(ies_view(self.mbs_session_n4_information@)).push(opt_ie_seq(self.pfcpsdrsp_flags)).push(ies_view(self.tl_container@))));
        out
    }
}

/// A well-formed SessionDeletionResponse reads back as itself: decoding its wire form gives its
/// header and fields.
pub proof fn lemma_session_deletion_response_roundtrip(m: SessionDeletionResponse)
    requires
        m.well_formed(),
    ensures
        SessionDeletionResponse::spec_decode_error(m.wire()) is None,
        SessionDeletionResponse::spec_decoded(m.wire(), m),
{
    let body = concat_slots(m.slots());
    lemma_header_roundtrip(m.header, ies_wire(body));
    lemma_header_wire_len(m.header);
    assert((header_wire(m.header) + ies_wire(body)).skip(header_size(m.header) as int) =~= ies_wire(body));
    crate::ie::lemma_parse_ies_wire(body);
    lemma_decode_concat(m.slots(), SessionDeletionResponse::classifier(), SessionDeletionResponse::slot_kinds());
    assert(decode_slots(body, SessionDeletionResponse::classifier(), SessionDeletionResponse::slot_kinds()) == m.slots());
    assert(decode_slots(body, SessionDeletionResponse::classifier(), SessionDeletionResponse::slot_kinds())[0] == decode_slot(body, SessionDeletionResponse::classifier(), 0, SlotKind::One));
    assert(decode_slots(body, SessionDeletionResponse::classifier(), SessionDeletionResponse::slot_kinds())[1] == decode_slot(body, SessionDeletionResponse::classifier(), 1, SlotKind::One));
    assert(decode_slots(body, SessionDeletionResponse::classifier(), SessionDeletionResponse::slot_kinds())[2] == decode_slot(body, SessionDeletionResponse::classifier(), 2, SlotKind::One));
    assert(decode_slots(body, SessionDeletionResponse::classifier(), SessionDeletionResponse::slot_kinds())[3] == decode_slot(body, SessionDeletionResponse::classifier(), 3, SlotKind::One));
    assert(decode_slots(body, SessionDeletionResponse::classifier(), SessionDeletionResponse::slot_kinds())[4] == decode_slot(body, SessionDeletionResponse::classifier(), 4, SlotKind::Many));
    assert(decode_slots(body, SessionDeletionResponse::classifier(), SessionDeletionResponse::slot_kinds())[5] == decode_slot(body, SessionDeletionResponse::classifier(), 5, SlotKind::One));
    assert(decode_slots(body, SessionDeletionResponse::classifier(), SessionDeletionResponse::slot_kinds())[6] == decode_slot(body, SessionDeletionResponse::classifier(), 6, SlotKind::Many));
    assert(decode_slots(body, SessionDeletionResponse::classifier(), SessionDeletionResponse::slot_kinds())[7] == decode_slot(body, SessionDeletionResponse::classifier(), 7, SlotKind::Many));
    assert(decode_slots(body, SessionDeletionResponse::classifier(), SessionDeletionResponse::slot_kinds())[8] == decode_slot(body, SessionDeletionResponse::classifier(), 8, SlotKind::One));
    assert(decode_slots(body, SessionDeletionResponse::classifier(), SessionDeletionResponse::slot_kinds())[9] == decode_slot(body, SessionDeletionResponse::classifier(), 9, SlotKind::Many));
    assert(decode_slots(body, SessionDeletionResponse::classifier(), SessionDeletionResponse::slot_kinds())[10] == decode_slot(body, SessionDeletionResponse::classifier(), 10, SlotKind::Many));
    assert(m.slots()[0].len() > 0);
}

/// Builder for SessionDeletionResponse messages.
#[derive(Debug)]
pub struct SessionDeletionResponseBuilder {
    pub seid: u64,
    pub sequence: u32,
    pub cause: Option<Ie>,
    pub offending_ie: Option<Ie>,
    pub load_control_information: Option<Ie>,
    pub overload_control_information: Option<Ie>,
    pub usage_reports: Vec<Ie>,
    pub additional_usage_reports_information: Option<Ie>,
    pub packet_rate_status_reports: Vec<Ie>,
    pub mbs_session_n4_information: Vec<Ie>,
    pub pfcpsdrsp_flags: Option<Ie>,
    pub tl_container: Vec<Ie>,
    pub ies: Vec<Ie>,
}

impl SessionDeletionResponseBuilder {
    /// The IEs of each field of the message this builder builds, in wire order.
    pub open spec fn built_slots(&self) -> Seq<Seq<IeView>> {
        Seq::<Seq<IeView>>::empty().push(seq![self.cause.unwrap()@]).push(opt_ie_seq(self.offending_ie)).push(opt_ie_seq(self.load_control_information)).push(opt_ie_seq(self.overload_control_information)).push(ies_view(self.usage_reports@)).push(opt_ie_seq(self.additional_usage_reports_information)).push(ies_view(self.packet_rate_status_reports@)).push(ies_view(self.mbs_session_n4_information@)).push(opt_ie_seq(self.pfcpsdrsp_flags)).push(ies_view(self.tl_container@)).push(ies_view(self.ies@))
    }

    /// The header of the message this builder builds.
    pub open spec fn built_header(&self) -> Header {
        message_header(MsgType::SessionDeletionResponse, true, self.seid, self.sequence, concat_slots(self.built_slots()))
    }

    /// Creates a builder with no IEs set.
    pub fn new(seid: u64, sequence: u32) -> (r: Self)
        ensures
            r.seid == seid,
            r.sequence == sequence,
            r.cause is None,
            r.offending_ie is None,
            r.load_control_information is None,
            r.overload_control_information is None,
            r.usage_reports@.len() == 0,
            r.additional_usage_reports_information is None,
            r.packet_rate_status_reports@.len() == 0,
            r.mbs_session_n4_information@.len() == 0,
            r.pfcpsdrsp_flags is None,
            r.tl_container@.len() == 0,
            r.ies@.len() == 0,
    {
        SessionDeletionResponseBuilder { seid, sequence, cause: None, offending_ie: None, load_control_information: None, overload_control_information: None, usage_reports: Vec::new(), additional_usage_reports_information: None, packet_rate_status_reports: Vec::new(), mbs_session_n4_information: Vec::new(), pfcpsdrsp_flags: None, tl_container: Vec::new(), ies: Vec::new() }
    }

    /// Sets the cause.
    pub fn cause(self, cause_value: CauseValue) -> (r: Self)
        ensures
            r.cause is Some,
            r.cause.unwrap()@ == crate::ie::cause::cause_ie_view(cause_value),
            r == (Self { cause: r.cause, ..self }),
    {
        let mut s = self;
        let cause = Cause::new(cause_value);
        s.cause = Some(cause.to_ie());
        s
    }

    /// Sets the cause to "Request accepted".
    pub fn cause_accepted(self) -> (r: Self)
        ensures
            r.cause is Some,
            r.cause.unwrap()@ == crate::ie::cause::cause_ie_view(CauseValue::RequestAccepted),
            r == (Self { cause: r.cause, ..self }),
    {
        self.cause(CauseValue::RequestAccepted)
    }

    /// Sets the cause to "Request rejected".
    pub fn cause_rejected(self) -> (r: Self)
        ensures
            r.cause is Some,
            r.cause.unwrap()@ == crate::ie::cause::cause_ie_view(CauseValue::RequestRejected),
            r == (Self { cause: r.cause, ..self }),
    {
        self.cause(CauseValue::RequestRejected)
    }

    /// Sets the cause IE.
    pub fn cause_ie(self, ie: Ie) -> (r: Self)
        ensures
            r == (Self { cause: Some(ie), ..self }),
    {
        let mut s = self;
        s.cause = Some(ie);
        s
    }

    /// Sets the offending ie IE.
    pub fn offending_ie(self, ie: Ie) -> (r: Self)
        ensures
            r == (Self { offending_ie: Some(ie), ..self }),
    {
        let mut s = self;
        s.offending_ie = Some(ie);
        s
    }

    /// Sets the load control information IE.
    pub fn load_control_information(self, ie: Ie) -> (r: Self)
        ensures
            r == (Self { load_control_information: Some(ie), ..self }),
    {
        let mut s = self;
        s.load_control_information = Some(ie);
        s
    }

    /// Sets the overload control information IE.
    pub fn overload_control_information(self, ie: Ie) -> (r: Self)
        ensures
            r == (Self { overload_control_information: Some(ie), ..self }),
    {
        let mut s = self;
        s.overload_control_information = Some(ie);
        s
    }

    /// Adds several usage report IEs.
    pub fn usage_reports(self, ies: Vec<Ie>) -> (r: Self)
        ensures
            r.usage_reports@ == self.usage_reports@ + ies@,
            r == (Self { usage_reports: r.usage_reports, ..self }),
    {
        let mut s = self;
        let mut v = ies;
        s.usage_reports.append(&mut v);
        s
    }

    /// Adds a usage report IE.
    pub fn usage_report(self, ie: Ie) -> (r: Self)
        ensures
            r.usage_reports@ == self.usage_reports@.push(ie),
            r == (Self { usage_reports: r.usage_reports, ..self }),
    {
        let mut s = self;
        s.usage_reports.push(ie);
        s
    }

    /// Sets the additional usage reports information IE.
    pub fn additional_usage_reports_information(self, ie: Ie) -> (r: Self)
        ensures
            r == (Self { additional_usage_reports_information: Some(ie), ..self }),
    {
        let mut s = self;
        s.additional_usage_reports_information = Some(ie);
        s
    }

    /// Adds a packet rate status report IE.
    pub fn packet_rate_status_report(self, ie: Ie) -> (r: Self)
        ensures
            r.packet_rate_status_reports@ == self.packet_rate_status_reports@.push(ie),
            r == (Self { packet_rate_status_reports: r.packet_rate_status_reports, ..self }),
    {
        let mut s = self;
        s.packet_rate_status_reports.push(ie);
        s
    }

    /// Adds several packet rate status report IEs.
    pub fn packet_rate_status_reports(self, ies: Vec<Ie>) -> (r: Self)
        ensures
            r.packet_rate_status_reports@ == self.packet_rate_status_reports@ + ies@,
            r == (Self { packet_rate_status_reports: r.packet_rate_status_reports, ..self }),
    {
        let mut s = self;
        let mut v = ies;
        s.packet_rate_status_reports.append(&mut v);
        s
    }

    /// Adds an MBS session N4 information IE.
    pub fn mbs_session_n4_information(self, ie: Ie) -> (r: Self)
        ensures
            r.mbs_session_n4_information@ == self.mbs_session_n4_information@.push(ie),
            r == (Self { mbs_session_n4_information: r.mbs_session_n4_information, ..self }),
    {
        let mut s = self;
        s.mbs_session_n4_information.push(ie);
        s
    }

    /// Adds several MBS session N4 information IEs.
    pub fn mbs_session_n4_informations(self, ies: Vec<Ie>) -> (r: Self)
        ensures
            r.mbs_session_n4_information@ == self.mbs_session_n4_information@ + ies@,
            r == (Self { mbs_session_n4_information: r.mbs_session_n4_information, ..self }),
    {
        let mut s = self;
        let mut v = ies;
        s.mbs_session_n4_information.append(&mut v);
        s
    }

    /// Sets the pfcpsdrsp flags IE.
    pub fn pfcpsdrsp_flags(self, ie: Ie) -> (r: Self)
        ensures
            r == (Self { pfcpsdrsp_flags: Some(ie), ..self }),
    {
        let mut s = self;
        s.pfcpsdrsp_flags = Some(ie);
        s
    }

    /// Adds a TL-Container IE.
    pub fn tl_container(self, ie: Ie) -> (r: Self)
        ensures
            r.tl_container@ == self.tl_container@.push(ie),
            r == (Self { tl_container: r.tl_container, ..self }),
    {
        let mut s = self;
        s.tl_container.push(ie);
        s
    }

    /// Adds several TL-Container IEs.
    pub fn tl_containers(self, ies: Vec<Ie>) -> (r: Self)
        ensures
            r.tl_container@ == self.tl_container@ + ies@,
            r == (Self { tl_container: r.tl_container, ..self }),
    {
        let mut s = self;
        let mut v = ies;
        s.tl_container.append(&mut v);
        s
    }

    /// Adds an additional IE.
    pub fn ie(self, ie: Ie) -> (r: Self)
        ensures
            r.ies@ == self.ies@.push(ie),
            r == (Self { ies: r.ies, ..self }),
    {
        let mut s = self;
        s.ies.push(ie);
        s
    }

    /// Adds several additional IEs.
    pub fn ies(self, ies: Vec<Ie>) -> (r: Self)
        ensures
            r.ies@ == self.ies@ + ies@,
            r == (Self { ies: r.ies, ..self }),
    {
        let mut s = self;
        let mut v = ies;
        s.ies.append(&mut v);
        s
    }

    /// Builds the message. Every mandatory IE must have been set.
    pub fn build(self) -> (r: SessionDeletionResponse)
        requires
            self.cause is Some,
        ensures
            r.header == message_header(MsgType::SessionDeletionResponse, true, self.seid, self.sequence, concat_slots(r.slots())),
            r.cause == self.cause.unwrap(),
            r.offending_ie == self.offending_ie,
            r.load_control_information == self.load_control_information,
            r.overload_control_information == self.overload_control_information,
            r.usage_reports == self.usage_reports,
            r.additional_usage_reports_information == self.additional_usage_reports_information,
            r.packet_rate_status_reports == self.packet_rate_status_reports,
            r.mbs_session_n4_information == self.mbs_session_n4_information,
            r.pfcpsdrsp_flags == self.pfcpsdrsp_flags,
            r.tl_container == self.tl_container,
            r.ies == self.ies,
            r.slots() == self.built_slots(),
            r.header == self.built_header(),
    {
        let cause = self.cause.unwrap();
        SessionDeletionResponse::assemble(self.seid, self.sequence, cause, self.offending_ie, self.load_control_information, self.overload_control_information, self.usage_reports, self.additional_usage_reports_information, self.packet_rate_status_reports, self.mbs_session_n4_information, self.pfcpsdrsp_flags, self.tl_container, self.ies)
    }

    /// Builds the message and serializes it. Every mandatory IE must have been set.
    pub fn marshal(self) -> (r: Vec<u8>)
        requires
            self.cause is Some,
        ensures
            r@ == header_wire(self.built_header()) + ies_wire(concat_slots(self.built_slots())),
    {
        let msg = self.build();
        msg.marshal()
    }

    /// Builds the message, or says which mandatory IE is missing.
    pub fn try_build(self) -> (r: Result<SessionDeletionResponse, &'static str>)
        ensures
            self.cause is None ==> r is Err && r->Err_0@ == "Cause IE is required for SessionDeletionResponse"@,
            self.cause is Some ==> r is Ok,
            r matches Ok(r) ==> {
                r.header == message_header(MsgType::SessionDeletionResponse, true, self.seid, self.sequence, concat_slots(r.slots())) &&
                r.cause == self.cause.unwrap() &&
                r.offending_ie == self.offending_ie &&
                r.load_control_information == self.load_control_information &&
                r.overload_control_information == self.overload_control_information &&
                r.usage_reports == self.usage_reports &&
                r.additional_usage_reports_information == self.additional_usage_reports_information &&
                r.packet_rate_status_reports == self.packet_rate_status_reports &&
                r.mbs_session_n4_information == self.mbs_session_n4_information &&
                r.pfcpsdrsp_flags == self.pfcpsdrsp_flags &&
                r.tl_container == self.tl_container &&
                r.ies == self.ies &&
                r.slots() == self.built_slots() &&
                r.header == self.built_header() &&
                true
            },
    {
        let cause = match self.cause {
            Some(x) => x,
            None => return Err("Cause IE is required for SessionDeletionResponse"),
        };
        Ok(SessionDeletionResponse::assemble(self.seid, self.sequence, cause, self.offending_ie, self.load_control_information, self.overload_control_information, self.usage_reports, self.additional_usage_reports_information, self.packet_rate_status_reports, self.mbs_session_n4_information, self.pfcpsdrsp_flags, self.tl_container, self.ies))
    }

}

/// Decoding what a SessionDeletionResponse builder writes fails exactly when a mandatory IE is
/// missing from the IEs it was given, and a message decoded from it has the builder's
/// header, and so its sequence number; when every IE stands in the field for its type,
/// the decoded message has the builder's IEs in each field. This holds when the
/// sequence number fits the header's 24 bits and every IE fits its length field.
#[verifier::spinoff_prover]
pub proof fn lemma_session_deletion_response_builder_roundtrip(b: SessionDeletionResponseBuilder)
    requires
        b.sequence < 16777216,
        ies_wf(concat_slots(b.built_slots())),
    ensures
        SessionDeletionResponse::spec_decode_error(header_wire(b.built_header()) + ies_wire(concat_slots(b.built_slots()))) == (match SessionDeletionResponse::missing_ie(concat_slots(b.built_slots())) {
            Some(t) => Some(PfcpError::MissingMandatoryIe { ie_type: t, message_type: Some(MsgType::SessionDeletionResponse) }),
            None => None::<PfcpError>,
        }),
        forall|m: SessionDeletionResponse|
            #[trigger] SessionDeletionResponse::spec_decoded(header_wire(b.built_header()) + ies_wire(concat_slots(b.built_slots())), m) ==> m.header == b.built_header()
                && m.header.sequence_number == b.sequence,
        slots_typed(b.built_slots(), SessionDeletionResponse::classifier(), SessionDeletionResponse::slot_kinds()) ==> forall|m: SessionDeletionResponse|
            #[trigger] SessionDeletionResponse::spec_decoded(header_wire(b.built_header()) + ies_wire(concat_slots(b.built_slots())), m) ==> m.slots() == b.built_slots(),
{
    let h = b.built_header();
    let ss = b.built_slots();
    let body = concat_slots(ss);
    lemma_msg_type_code_roundtrip(MsgType::SessionDeletionResponse);
    assert(header_wf(h));
    lemma_header_roundtrip(h, ies_wire(body));
    lemma_header_wire_len(h);
    assert((header_wire(h) + ies_wire(body)).skip(header_size(h) as int) =~= ies_wire(body));
    crate::ie::lemma_parse_ies_wire(body);
    if slots_typed(ss, SessionDeletionResponse::classifier(), SessionDeletionResponse::slot_kinds()) {
        lemma_decode_concat(ss, SessionDeletionResponse::classifier(), SessionDeletionResponse::slot_kinds());
        assert(decode_slots(body, SessionDeletionResponse::classifier(), SessionDeletionResponse::slot_kinds()) == ss);
        assert(decode_slots(body, SessionDeletionResponse::classifier(), SessionDeletionResponse::slot_kinds())[0] == decode_slot(body, SessionDeletionResponse::classifier(), 0, SlotKind::One));
        assert(decode_slots(body, SessionDeletionResponse::classifier(), SessionDeletionResponse::slot_kinds())[1] == decode_slot(body, SessionDeletionResponse::classifier(), 1, SlotKind::One));
        assert(decode_slots(body, SessionDeletionResponse::classifier(), SessionDeletionResponse::slot_kinds())[2] == decode_slot(body, SessionDeletionResponse::classifier(), 2, SlotKind::One));
        assert(decode_slots(body, SessionDeletionResponse::classifier(), SessionDeletionResponse::slot_kinds())[3] == decode_slot(body, SessionDeletionResponse::classifier(), 3, SlotKind::One));
        assert(decode_slots(body, SessionDeletionResponse::classifier(), SessionDeletionResponse::slot_kinds())[4] == decode_slot(body, SessionDeletionResponse::classifier(), 4, SlotKind::Many));
        assert(decode_slots(body, SessionDeletionResponse::classifier(), SessionDeletionResponse::slot_kinds())[5] == decode_slot(body, SessionDeletionResponse::classifier(), 5, SlotKind::One));
        assert(decode_slots(body, SessionDeletionResponse::classifier(), SessionDeletionResponse::slot_kinds())[6] == decode_slot(body, SessionDeletionResponse::classifier(), 6, SlotKind::Many));
        assert(decode_slots(body, SessionDeletionResponse::classifier(), SessionDeletionResponse::slot_kinds())[7] == decode_slot(body, SessionDeletionResponse::classifier(), 7, SlotKind::Many));
        assert(decode_slots(body, SessionDeletionResponse::classifier(), SessionDeletionResponse::slot_kinds())[8] == decode_slot(body, SessionDeletionResponse::classifier(), 8, SlotKind::One));
        assert(decode_slots(body, SessionDeletionResponse::classifier(), SessionDeletionResponse::slot_kinds())[9] == decode_slot(body, SessionDeletionResponse::classifier(), 9, SlotKind::Many));
        assert(decode_slots(body, SessionDeletionResponse::classifier(), SessionDeletionResponse::slot_kinds())[10] == decode_slot(body, SessionDeletionResponse::classifier(), 10, SlotKind::Many));
        assert forall|m: SessionDeletionResponse| #[trigger] SessionDeletionResponse::spec_decoded(header_wire(b.built_header()) + ies_wire(concat_slots(b.built_slots())), m) implies m.slots() == ss by {
            assert(m.slots() =~= ss);
        }
    }
}

impl SessionDeletionResponse {
    /// Every IE is in the field named for its type, and the additional IEs are of
    /// no type that has a field of its own.
    #[verifier::opaque]
    pub open spec fn fields_hold_their_types(&self) -> bool {
        &&& self.cause.ie_type == IeType::Cause
        &&& (self.offending_ie matches Some(x) ==> x.ie_type == IeType::OffendingIe)
        &&& (self.load_control_information matches Some(x) ==> x.ie_type == IeType::LoadControlInformation)
        &&& (self.overload_control_information matches Some(x) ==> x.ie_type == IeType::OverloadControlInformation)
        &&& forall|i: int| 0 <= i < self.usage_reports@.len() ==> (#[trigger] self.usage_reports@[i]).ie_type == IeType::UsageReportWithinSessionDeletionResponse
        &&& (self.additional_usage_reports_information matches Some(x) ==> x.ie_type == IeType::AdditionalUsageReportsInformation)
        &&& forall|i: int| 0 <= i < self.packet_rate_status_reports@.len() ==> (#[trigger] self.packet_rate_status_reports@[i]).ie_type == IeType::PacketRateStatusReport
        &&& forall|i: int| 0 <= i < self.mbs_session_n4_information@.len() ==> (#[trigger] self.mbs_session_n4_information@[i]).ie_type == IeType::MbsSessionN4Information
        &&& (self.pfcpsdrsp_flags matches Some(x) ==> x.ie_type == IeType::PfcpsdrspFlags)
        &&& forall|i: int| 0 <= i < self.tl_container@.len() ==> (#[trigger] self.tl_container@[i]).ie_type == IeType::TlContainer
        &&& forall|i: int| 0 <= i < self.ies@.len() ==> {
            let t = (#[trigger] self.ies@[i]).ie_type;
            t != IeType::Cause && t != IeType::OffendingIe && t != IeType::LoadControlInformation && t != IeType::OverloadControlInformation && t != IeType::UsageReportWithinSessionDeletionResponse && t != IeType::AdditionalUsageReportsInformation && t != IeType::PacketRateStatusReport && t != IeType::MbsSessionN4Information && t != IeType::PfcpsdrspFlags && t != IeType::TlContainer
        }
    }
}

/// Decoding puts every IE of the body into the field named for its IE type: a
/// field for one IE holds the last IE of its type, a list holds all IEs of its
/// type in wire order, and the additional IEs are the IEs of the other types, in
/// wire order.
#[verifier::spinoff_prover]
pub proof fn lemma_session_deletion_response_decoded_by_type(data: Seq<u8>, m: SessionDeletionResponse)
    requires
        SessionDeletionResponse::spec_decoded(data, m),
    ensures
        spec_parse_ies(data.skip(header_size(m.header) as int)) is Ok,
        ({
            let body = spec_parse_ies(data.skip(header_size(m.header) as int))->Ok_0;
            &&& ies_of_type(body, IeType::Cause).len() > 0 && m.cause@ == ies_of_type(body, IeType::Cause).last()
            &&& (ies_of_type(body, IeType::OffendingIe).len() == 0 ==> m.offending_ie is None)
            &&& (ies_of_type(body, IeType::OffendingIe).len() > 0 ==> (m.offending_ie matches Some(x) && x@ == ies_of_type(body, IeType::OffendingIe).last()))
            &&& (ies_of_type(body, IeType::LoadControlInformation).len() == 0 ==> m.load_control_information is None)
            &&& (ies_of_type(body, IeType::LoadControlInformation).len() > 0 ==> (m.load_control_information matches Some(x) && x@ == ies_of_type(body, IeType::LoadControlInformation).last()))
            &&& (ies_of_type(body, IeType::OverloadControlInformation).len() == 0 ==> m.overload_control_information is None)
            &&& (ies_of_type(body, IeType::OverloadControlInformation).len() > 0 ==> (m.overload_control_information matches Some(x) && x@ == ies_of_type(body, IeType::OverloadControlInformation).last()))
            &&& ies_view(m.usage_reports@) == ies_of_type(body, IeType::UsageReportWithinSessionDeletionResponse)
            &&& (ies_of_type(body, IeType::AdditionalUsageReportsInformation).len() == 0 ==> m.additional_usage_reports_information is None)
            &&& (ies_of_type(body, IeType::AdditionalUsageReportsInformation).len() > 0 ==> (m.additional_usage_reports_information matches Some(x) && x@ == ies_of_type(body, IeType::AdditionalUsageReportsInformation).last()))
            &&& ies_view(m.packet_rate_status_reports@) == ies_of_type(body, IeType::PacketRateStatusReport)
            &&& ies_view(m.mbs_session_n4_information@) == ies_of_type(body, IeType::MbsSessionN4Information)
            &&& (ies_of_type(body, IeType::PfcpsdrspFlags).len() == 0 ==> m.pfcpsdrsp_flags is None)
            &&& (ies_of_type(body, IeType::PfcpsdrspFlags).len() > 0 ==> (m.pfcpsdrsp_flags matches Some(x) && x@ == ies_of_type(body, IeType::PfcpsdrspFlags).last()))
            &&& ies_view(m.tl_container@) == ies_of_type(body, IeType::TlContainer)
            &&& ies_view(m.ies@) == ies_where(body, |t: IeType| t != IeType::Cause && t != IeType::OffendingIe && t != IeType::LoadControlInformation && t != IeType::OverloadControlInformation && t != IeType::UsageReportWithinSessionDeletionResponse && t != IeType::AdditionalUsageReportsInformation && t != IeType::PacketRateStatusReport && t != IeType::MbsSessionN4Information && t != IeType::PfcpsdrspFlags && t != IeType::TlContainer)
            &&& true
        }),
{
    if let Ok(h) = spec_parse_header(data) {
        let body = spec_parse_ies(data.skip(header_size(h) as int))->Ok_0;
        let cls = SessionDeletionResponse::classifier();
        assert(ies_of_type(body, IeType::Cause).len() > 0 && m.cause@ == ies_of_type(body, IeType::Cause).last()) by {
            assert forall|x: IeType| #[trigger] slot_pred(cls, 0)(x) == (x == IeType::Cause) by {}
            lemma_ies_where_ext(body, slot_pred(cls, 0), |x: IeType| x == IeType::Cause);
            lemma_ies_of_type_is_where(body, IeType::Cause);
            assert(decode_slot(body, cls, 0, SlotKind::One) == last_seq(ies_of_type(body, IeType::Cause)));
            assert(seq![m.cause@][0] == m.cause@);
        }
        assert((ies_of_type(body, IeType::OffendingIe).len() == 0 ==> m.offending_ie is None) && (ies_of_type(body, IeType::OffendingIe).len() > 0 ==> (m.offending_ie matches Some(x) && x@ == ies_of_type(body, IeType::OffendingIe).last()))) by {
            assert forall|x: IeType| #[trigger] slot_pred(cls, 1)(x) == (x == IeType::OffendingIe) by {}
            lemma_ies_where_ext(body, slot_pred(cls, 1), |x: IeType| x == IeType::OffendingIe);
            lemma_ies_of_type_is_where(body, IeType::OffendingIe);
            assert(decode_slot(body, cls, 1, SlotKind::One) == last_seq(ies_of_type(body, IeType::OffendingIe)));
            if ies_of_type(body, IeType::OffendingIe).len() > 0 { assert(opt_ie_seq(m.offending_ie)[0] == ies_of_type(body, IeType::OffendingIe).last()); }
        }
        assert((ies_of_type(body, IeType::LoadControlInformation).len() == 0 ==> m.load_control_information is None) && (ies_of_type(body, IeType::LoadControlInformation).len() > 0 ==> (m.load_control_information matches Some(x) && x@ == ies_of_type(body, IeType::LoadControlInformation).last()))) by {
            assert forall|x: IeType| #[trigger] slot_pred(cls, 2)(x) == (x == IeType::LoadControlInformation) by {}
            lemma_ies_where_ext(body, slot_pred(cls, 2), |x: IeType| x == IeType::LoadControlInformation);
            lemma_ies_of_type_is_where(body, IeType::LoadControlInformation);
            assert(decode_slot(body, cls, 2, SlotKind::One) == last_seq(ies_of_type(body, IeType::LoadControlInformation)));
            if ies_of_type(body, IeType::LoadControlInformation).len() > 0 { assert(opt_ie_seq(m.load_control_information)[0] == ies_of_type(body, IeType::LoadControlInformation).last()); }
        }
        assert((ies_of_type(body, IeType::OverloadControlInformation).len() == 0 ==> m.overload_control_information is None) && (ies_of_type(body, IeType::OverloadControlInformation).len() > 0 ==> (m.overload_control_information matches Some(x) && x@ == ies_of_type(body, IeType::OverloadControlInformation).last()))) by {
            assert forall|x: IeType| #[trigger] slot_pred(cls, 3)(x) == (x == IeType::OverloadControlInformation) by {}
            lemma_ies_where_ext(body, slot_pred(cls, 3), |x: IeType| x == IeType::OverloadControlInformation);
            lemma_ies_of_type_is_where(body, IeType::OverloadControlInformation);
            assert(decode_slot(body, cls, 3, SlotKind::One) == last_seq(ies_of_type(body, IeType::OverloadControlInformation)));
            if ies_of_type(body, IeType::OverloadControlInformation).len() > 0 { assert(opt_ie_seq(m.overload_control_information)[0] == ies_of_type(body, IeType::OverloadControlInformation).last()); }
        }
        assert(ies_view(m.usage_reports@) == ies_of_type(body, IeType::UsageReportWithinSessionDeletionResponse)) by {
            assert forall|x: IeType| #[trigger] slot_pred(cls, 4)(x) == (x == IeType::UsageReportWithinSessionDeletionResponse) by {}
            lemma_ies_where_ext(body, slot_pred(cls, 4), |x: IeType| x == IeType::UsageReportWithinSessionDeletionResponse);
            lemma_ies_of_type_is_where(body, IeType::UsageReportWithinSessionDeletionResponse);
        }
        assert((ies_of_type(body, IeType::AdditionalUsageReportsInformation).len() == 0 ==> m.additional_usage_reports_information is None) && (ies_of_type(body, IeType::AdditionalUsageReportsInformation).len() > 0 ==> (m.additional_usage_reports_information matches Some(x) && x@ == ies_of_type(body, IeType::AdditionalUsageReportsInformation).last()))) by {
            assert forall|x: IeType| #[trigger] slot_pred(cls, 5)(x) == (x == IeType::AdditionalUsageReportsInformation) by {}
            lemma_ies_where_ext(body, slot_pred(cls, 5), |x: IeType| x == IeType::AdditionalUsageReportsInformation);
            lemma_ies_of_type_is_where(body, IeType::AdditionalUsageReportsInformation);
            assert(decode_slot(body, cls, 5, SlotKind::One) == last_seq(ies_of_type(body, IeType::AdditionalUsageReportsInformation)));
            if ies_of_type(body, IeType::AdditionalUsageReportsInformation).len() > 0 { assert(opt_ie_seq(m.additional_usage_reports_information)[0] == ies_of_type(body, IeType::AdditionalUsageReportsInformation).last()); }
        }
        assert(ies_view(m.packet_rate_status_reports@) == ies_of_type(body, IeType::PacketRateStatusReport)) by {
            assert forall|x: IeType| #[trigger] slot_pred(cls, 6)(x) == (x == IeType::PacketRateStatusReport) by {}
            lemma_ies_where_ext(body, slot_pred(cls, 6), |x: IeType| x == IeType::PacketRateStatusReport);
            lemma_ies_of_type_is_where(body, IeType::PacketRateStatusReport);
        }
        assert(ies_view(m.mbs_session_n4_information@) == ies_of_type(body, IeType::MbsSessionN4Information)) by {
            assert forall|x: IeType| #[trigger] slot_pred(cls, 7)(x) == (x == IeType::MbsSessionN4Information) by {}
            lemma_ies_where_ext(body, slot_pred(cls, 7), |x: IeType| x == IeType::MbsSessionN4Information);
            lemma_ies_of_type_is_where(body, IeType::MbsSessionN4Information);
        }
        assert((ies_of_type(body, IeType::PfcpsdrspFlags).len() == 0 ==> m.pfcpsdrsp_flags is None) && (ies_of_type(body, IeType::PfcpsdrspFlags).len() > 0 ==> (m.pfcpsdrsp_flags matches Some(x) && x@ == ies_of_type(body, IeType::PfcpsdrspFlags).last()))) by {
            assert forall|x: IeType| #[trigger] slot_pred(cls, 8)(x) == (x == IeType::PfcpsdrspFlags) by {}
            lemma_ies_where_ext(body, slot_pred(cls, 8), |x: IeType| x == IeType::PfcpsdrspFlags);
            lemma_ies_of_type_is_where(body, IeType::PfcpsdrspFlags);
            assert(decode_slot(body, cls, 8, SlotKind::One) == last_seq(ies_of_type(body, IeType::PfcpsdrspFlags)));
            if ies_of_type(body, IeType::PfcpsdrspFlags).len() > 0 { assert(opt_ie_seq(m.pfcpsdrsp_flags)[0] == ies_of_type(body, IeType::PfcpsdrspFlags).last()); }
        }
        assert(ies_view(m.tl_container@) == ies_of_type(body, IeType::TlContainer)) by {
            assert forall|x: IeType| #[trigger] slot_pred(cls, 9)(x) == (x == IeType::TlContainer) by {}
            lemma_ies_where_ext(body, slot_pred(cls, 9), |x: IeType| x == IeType::TlContainer);
            lemma_ies_of_type_is_where(body, IeType::TlContainer);
        }
        assert(ies_view(m.ies@) == ies_where(body, |t: IeType| t != IeType::Cause && t != IeType::OffendingIe && t != IeType::LoadControlInformation && t != IeType::OverloadControlInformation && t != IeType::UsageReportWithinSessionDeletionResponse && t != IeType::AdditionalUsageReportsInformation && t != IeType::PacketRateStatusReport && t != IeType::MbsSessionN4Information && t != IeType::PfcpsdrspFlags && t != IeType::TlContainer)) by {
            assert forall|t: IeType| #[trigger] slot_pred(cls, 10)(t) == (t != IeType::Cause && t != IeType::OffendingIe && t != IeType::LoadControlInformation && t != IeType::OverloadControlInformation && t != IeType::UsageReportWithinSessionDeletionResponse && t != IeType::AdditionalUsageReportsInformation && t != IeType::PacketRateStatusReport && t != IeType::MbsSessionN4Information && t != IeType::PfcpsdrspFlags && t != IeType::TlContainer) by {}
            lemma_ies_where_ext(body, slot_pred(cls, 10), |t: IeType| t != IeType::Cause && t != IeType::OffendingIe && t != IeType::LoadControlInformation && t != IeType::OverloadControlInformation && t != IeType::UsageReportWithinSessionDeletionResponse && t != IeType::AdditionalUsageReportsInformation && t != IeType::PacketRateStatusReport && t != IeType::MbsSessionN4Information && t != IeType::PfcpsdrspFlags && t != IeType::TlContainer);
        }
    }
}

/// When every IE is in the field named for its type, every IE sits in the slot
/// that decoding assigns its type to.
proof fn lemma_session_deletion_response_fields_classified(m: SessionDeletionResponse)
    requires
        m.fields_hold_their_types(),
    ensures
        slots_classified(m.slots(), SessionDeletionResponse::classifier()),
{
    reveal(SessionDeletionResponse::fields_hold_their_types);
    let cls = SessionDeletionResponse::classifier();
    assert(slots_classified(Seq::<Seq<IeView>>::empty(), cls));
    assert(slots_classified(Seq::<Seq<IeView>>::empty().push(seq![m.cause@]), cls)) by {
        assert forall|k: int| 0 <= k < seq![m.cause@].len() implies cls(#[trigger] seq![m.cause@][k].ie_type) == 0 by {
        }
        lemma_classified_push(Seq::<Seq<IeView>>::empty(), seq![m.cause@], cls);
    }
    assert(slots_classified(Seq::<Seq<IeView>>::empty().push(seq![m.cause@]).push(opt_ie_seq(m.offending_ie)), cls)) by {
        assert forall|k: int| 0 <= k < opt_ie_seq(m.offending_ie).len() implies cls(#[trigger] opt_ie_seq(m.offending_ie)[k].ie_type) == 1 by {
        }
        lemma_classified_push(Seq::<Seq<IeView>>::empty().push(seq![m.cause@]), opt_ie_seq(m.offending_ie), cls);
    }
    assert(slots_classified(Seq::<Seq<IeView>>::empty().push(seq![m.cause@]).push(opt_ie_seq(m.offending_ie)).push(opt_ie_seq(m.load_control_information)), cls)) by {
        assert forall|k: int| 0 <= k < opt_ie_seq(m.load_control_information).len() implies cls(#[trigger] opt_ie_seq(m.load_control_information)[k].ie_type) == 2 by {
        }
        lemma_classified_push(Seq::<Seq<IeView>>::empty().push(seq![m.cause@]).push(opt_ie_seq(m.offending_ie)), opt_ie_seq(m.load_control_information), cls);
    }
    assert(slots_classified(Seq::<Seq<IeView>>::empty().push(seq![m.cause@]).push(opt_ie_seq(m.offending_ie)).push(opt_ie_seq(m.load_control_information)).push(opt_ie_seq(m.overload_control_information)), cls)) by {
        assert forall|k: int| 0 <= k < opt_ie_seq(m.overload_control_information).len() implies cls(#[trigger] opt_ie_seq(m.overload_control_information)[k].ie_type) == 3 by {
        }
        lemma_classified_push(Seq::<Seq<IeView>>::empty().push(seq![m.cause@]).push(opt_ie_seq(m.offending_ie)).push(opt_ie_seq(m.load_control_information)), opt_ie_seq(m.overload_control_information), cls);
    }
    assert(slots_classified(Seq::<Seq<IeView>>::empty().push(seq![m.cause@]).push(opt_ie_seq(m.offending_ie)).push(opt_ie_seq(m.load_control_information)).push(opt_ie_seq(m.overload_control_information)).push(ies_view(m.usage_reports@)), cls)) by {
        assert forall|k: int| 0 <= k < ies_view(m.usage_reports@).len() implies cls(#[trigger] ies_view(m.usage_reports@)[k].ie_type) == 4 by {
            assert(ies_view(m.usage_reports@)[k] == m.usage_reports@[k]@);
        }
        lemma_classified_push(Seq::<Seq<IeView>>::empty().push(seq![m.cause@]).push(opt_ie_seq(m.offending_ie)).push(opt_ie_seq(m.load_control_information)).push(opt_ie_seq(m.overload_control_information)), ies_view(m.usage_reports@), cls);
    }
    assert(slots_classified(Seq::<Seq<IeView>>::empty().push(seq![m.cause@]).push(opt_ie_seq(m.offending_ie)).push(opt_ie_seq(m.load_control_information)).push(opt_ie_seq(m.overload_control_information)).push(ies_view(m.usage_reports@)).push(opt_ie_seq(m.additional_usage_reports_information)), cls)) by {
        assert forall|k: int| 0 <= k < opt_ie_seq(m.additional_usage_reports_information).len() implies cls(#[trigger] opt_ie_seq(m.additional_usage_reports_information)[k].ie_type) == 5 by {
        }
        lemma_classified_push(Seq::<Seq<IeView>>::empty().push(seq![m.cause@]).push(opt_ie_seq(m.offending_ie)).push(opt_ie_seq(m.load_control_information)).push(opt_ie_seq(m.overload_control_information)).push(ies_view(m.usage_reports@)), opt_ie_seq(m.additional_usage_reports_information), cls);
    }
    assert(slots_classified(Seq::<Seq<IeView>>::empty().push(seq![m.cause@]).push(opt_ie_seq(m.offending_ie)).push(opt_ie_seq(m.load_control_information)).push(opt_ie_seq(m.overload_control_information)).push(ies_view(m.usage_reports@)).push(opt_ie_seq(m.additional_usage_reports_information)).push(ies_view(m.packet_rate_status_reports@)), cls)) by {
        assert forall|k: int| 0 <= k < ies_view(m.packet_rate_status_reports@).len() implies cls(#[trigger] ies_view(m.packet_rate_status_reports@)[k].ie_type) == 6 by {
            assert(ies_view(m.packet_rate_status_reports@)[k] == m.packet_rate_status_reports@[k]@);
        }
        lemma_classified_push(Seq::<Seq<IeView>>::empty().push(seq![m.cause@]).push(opt_ie_seq(m.offending_ie)).push(opt_ie_seq(m.load_control_information)).push(opt_ie_seq(m.overload_control_information)).push(ies_view(m.usage_reports@)).push(opt_ie_seq(m.additional_usage_reports_information)), ies_view(m.packet_rate_status_reports@), cls);
    }
    assert(slots_classified(Seq::<Seq<IeView>>::empty().push(seq![m.cause@]).push(opt_ie_seq(m.offending_ie)).push(opt_ie_seq(m.load_control_information)).push(opt_ie_seq(m.overload_control_information)).push(ies_view(m.usage_reports@)).push(opt_ie_seq(m.additional_usage_reports_information)).push(ies_view(m.packet_rate_status_reports@)).push(ies_view(m.mbs_session_n4_information@)), cls)) by {
        assert forall|k: int| 0 <= k < ies_view(m.mbs_session_n4_information@).len() implies cls(#[trigger] ies_view(m.mbs_session_n4_information@)[k].ie_type) == 7 by {
            assert(ies_view(m.mbs_session_n4_information@)[k] == m.mbs_session_n4_information@[k]@);
        }
        lemma_classified_push(Seq::<Seq<IeView>>::empty().push(seq![m.cause@]).push(opt_ie_seq(m.offending_ie)).push(opt_ie_seq(m.load_control_information)).push(opt_ie_seq(m.overload_control_information)).push(ies_view(m.usage_reports@)).push(opt_ie_seq(m.additional_usage_reports_information)).push(ies_view(m.packet_rate_status_reports@)), ies_view(m.mbs_session_n4_information@), cls);
    }
    assert(slots_classified(Seq::<Seq<IeView>>::empty().push(seq![m.cause@]).push(opt_ie_seq(m.offending_ie)).push(opt_ie_seq(m.load_control_information)).push(opt_ie_seq(m.overload_control_information)).push(ies_view(m.usage_reports@)).push(opt_ie_seq(m.additional_usage_reports_information)).push(ies_view(m.packet_rate_status_reports@)).push(ies_view(m.mbs_session_n4_information@)).push(opt_ie_seq(m.pfcpsdrsp_flags)), cls)) by {
        assert forall|k: int| 0 <= k < opt_ie_seq(m.pfcpsdrsp_flags).len() implies cls(#[trigger] opt_ie_seq(m.pfcpsdrsp_flags)[k].ie_type) == 8 by {
        }
        lemma_classified_push(Seq::<Seq<IeView>>::empty().push(seq![m.cause@]).push(opt_ie_seq(m.offending_ie)).push(opt_ie_seq(m.load_control_information)).push(opt_ie_seq(m.overload_control_information)).push(ies_view(m.usage_reports@)).push(opt_ie_seq(m.additional_usage_reports_information)).push(ies_view(m.packet_rate_status_reports@)).push(ies_view(m.mbs_session_n4_information@)), opt_ie_seq(m.pfcpsdrsp_flags), cls);
    }
    assert(slots_classified(Seq::<Seq<IeView>>::empty().push(seq![m.cause@]).push(opt_ie_seq(m.offending_ie)).push(opt_ie_seq(m.load_control_information)).push(opt_ie_seq(m.overload_control_information)).push(ies_view(m.usage_reports@)).push(opt_ie_seq(m.additional_usage_reports_information)).push(ies_view(m.packet_rate_status_reports@)).push(ies_view(m.mbs_session_n4_information@)).push(opt_ie_seq(m.pfcpsdrsp_flags)).push(ies_view(m.tl_container@)), cls)) by {
        assert forall|k: int| 0 <= k < ies_view(m.tl_container@).len() implies cls(#[trigger] ies_view(m.tl_container@)[k].ie_type) == 9 by {
            assert(ies_view(m.tl_container@)[k] == m.tl_container@[k]@);
        }
        lemma_classified_push(Seq::<Seq<IeView>>::empty().push(seq![m.cause@]).push(opt_ie_seq(m.offending_ie)).push(opt_ie_seq(m.load_control_information)).push(opt_ie_seq(m.overload_control_information)).push(ies_view(m.usage_reports@)).push(opt_ie_seq(m.additional_usage_reports_information)).push(ies_view(m.packet_rate_status_reports@)).push(ies_view(m.mbs_session_n4_information@)).push(opt_ie_seq(m.pfcpsdrsp_flags)), ies_view(m.tl_container@), cls);
    }
    assert(slots_classified(Seq::<Seq<IeView>>::empty().push(seq![m.cause@]).push(opt_ie_seq(m.offending_ie)).push(opt_ie_seq(m.load_control_information)).push(opt_ie_seq(m.overload_control_information)).push(ies_view(m.usage_reports@)).push(opt_ie_seq(m.additional_usage_reports_information)).push(ies_view(m.packet_rate_status_reports@)).push(ies_view(m.mbs_session_n4_information@)).push(opt_ie_seq(m.pfcpsdrsp_flags)).push(ies_view(m.tl_container@)).push(ies_view(m.ies@)), cls)) by {
        assert forall|k: int| 0 <= k < ies_view(m.ies@).len() implies cls(#[trigger] ies_view(m.ies@)[k].ie_type) == 10 by {
            assert(ies_view(m.ies@)[k] == m.ies@[k]@);
        }
        lemma_classified_push(Seq::<Seq<IeView>>::empty().push(seq![m.cause@]).push(opt_ie_seq(m.offending_ie)).push(opt_ie_seq(m.load_control_information)).push(opt_ie_seq(m.overload_control_information)).push(ies_view(m.usage_reports@)).push(opt_ie_seq(m.additional_usage_reports_information)).push(ies_view(m.packet_rate_status_reports@)).push(ies_view(m.mbs_session_n4_information@)).push(opt_ie_seq(m.pfcpsdrsp_flags)).push(ies_view(m.tl_container@)), ies_view(m.ies@), cls);
    }
    assert(m.slots() == Seq::<Seq<IeView>>::empty().push(seq![m.cause@]).push(opt_ie_seq(m.offending_ie)).push(opt_ie_seq(m.load_control_information)).push(opt_ie_seq(m.overload_control_information)).push(ies_view(m.usage_reports@)).push(opt_ie_seq(m.additional_usage_reports_information)).push(ies_view(m.packet_rate_status_reports@)).push(ies_view(m.mbs_session_n4_information@)).push(opt_ie_seq(m.pfcpsdrsp_flags)).push(ies_view(m.tl_container@)).push(ies_view(m.ies@)));
}

/// When every IE is in the field named for its type, the IEs of each field's type
/// in that field are the whole field.
proof fn lemma_session_deletion_response_fields_of_their_type(m: SessionDeletionResponse)
    requires
        m.fields_hold_their_types(),
    ensures
        ies_of_type(seq![m.cause@], IeType::Cause) == seq![m.cause@],
        ies_of_type(opt_ie_seq(m.offending_ie), IeType::OffendingIe) == opt_ie_seq(m.offending_ie),
        ies_of_type(opt_ie_seq(m.load_control_information), IeType::LoadControlInformation) == opt_ie_seq(m.load_control_information),
        ies_of_type(opt_ie_seq(m.overload_control_information), IeType::OverloadControlInformation) == opt_ie_seq(m.overload_control_information),
        ies_of_type(ies_view(m.usage_reports@), IeType::UsageReportWithinSessionDeletionResponse) == ies_view(m.usage_reports@),
        ies_of_type(opt_ie_seq(m.additional_usage_reports_information), IeType::AdditionalUsageReportsInformation) == opt_ie_seq(m.additional_usage_reports_information),
        ies_of_type(ies_view(m.packet_rate_status_reports@), IeType::PacketRateStatusReport) == ies_view(m.packet_rate_status_reports@),
        ies_of_type(ies_view(m.mbs_session_n4_information@), IeType::MbsSessionN4Information) == ies_view(m.mbs_session_n4_information@),
        ies_of_type(opt_ie_seq(m.pfcpsdrsp_flags), IeType::PfcpsdrspFlags) == opt_ie_seq(m.pfcpsdrsp_flags),
        ies_of_type(ies_view(m.tl_container@), IeType::TlContainer) == ies_view(m.tl_container@),
{
    reveal(SessionDeletionResponse::fields_hold_their_types);
    assert(ies_of_type(seq![m.cause@], IeType::Cause) == seq![m.cause@]) by {
        assert forall|k: int| 0 <= k < seq![m.cause@].len() implies (#[trigger] seq![m.cause@][k]).ie_type == IeType::Cause by {
        }
        lemma_of_type_all(seq![m.cause@], IeType::Cause);
    }
    assert(ies_of_type(opt_ie_seq(m.offending_ie), IeType::OffendingIe) == opt_ie_seq(m.offending_ie)) by {
        assert forall|k: int| 0 <= k < opt_ie_seq(m.offending_ie).len() implies (#[trigger] opt_ie_seq(m.offending_ie)[k]).ie_type == IeType::OffendingIe by {
        }
        lemma_of_type_all(opt_ie_seq(m.offending_ie), IeType::OffendingIe);
    }
    assert(ies_of_type(opt_ie_seq(m.load_control_information), IeType::LoadControlInformation) == opt_ie_seq(m.load_control_information)) by {
        assert forall|k: int| 0 <= k < opt_ie_seq(m.load_control_information).len() implies (#[trigger] opt_ie_seq(m.load_control_information)[k]).ie_type == IeType::LoadControlInformation by {
        }
        lemma_of_type_all(opt_ie_seq(m.load_control_information), IeType::LoadControlInformation);
    }
    assert(ies_of_type(opt_ie_seq(m.overload_control_information), IeType::OverloadControlInformation) == opt_ie_seq(m.overload_control_information)) by {
        assert forall|k: int| 0 <= k < opt_ie_seq(m.overload_control_information).len() implies (#[trigger] opt_ie_seq(m.overload_control_information)[k]).ie_type == IeType::OverloadControlInformation by {
        }
        lemma_of_type_all(opt_ie_seq(m.overload_control_information), IeType::OverloadControlInformation);
    }
    assert(ies_of_type(ies_view(m.usage_reports@), IeType::UsageReportWithinSessionDeletionResponse) == ies_view(m.usage_reports@)) by {
        assert forall|k: int| 0 <= k < ies_view(m.usage_reports@).len() implies (#[trigger] ies_view(m.usage_reports@)[k]).ie_type == IeType::UsageReportWithinSessionDeletionResponse by {
            assert(ies_view(m.usage_reports@)[k] == m.usage_reports@[k]@);
        }
        lemma_of_type_all(ies_view(m.usage_reports@), IeType::UsageReportWithinSessionDeletionResponse);
    }
    assert(ies_of_type(opt_ie_seq(m.additional_usage_reports_information), IeType::AdditionalUsageReportsInformation) == opt_ie_seq(m.additional_usage_reports_information)) by {
        assert forall|k: int| 0 <= k < opt_ie_seq(m.additional_usage_reports_information).len() implies (#[trigger] opt_ie_seq(m.additional_usage_reports_information)[k]).ie_type == IeType::AdditionalUsageReportsInformation by {
        }
        lemma_of_type_all(opt_ie_seq(m.additional_usage_reports_information), IeType::AdditionalUsageReportsInformation);
    }
    assert(ies_of_type(ies_view(m.packet_rate_status_reports@), IeType::PacketRateStatusReport) == ies_view(m.packet_rate_status_reports@)) by {
        assert forall|k: int| 0 <= k < ies_view(m.packet_rate_status_reports@).len() implies (#[trigger] ies_view(m.packet_rate_status_reports@)[k]).ie_type == IeType::PacketRateStatusReport by {
            assert(ies_view(m.packet_rate_status_reports@)[k] == m.packet_rate_status_reports@[k]@);
        }
        lemma_of_type_all(ies_view(m.packet_rate_status_reports@), IeType::PacketRateStatusReport);
    }
    assert(ies_of_type(ies_view(m.mbs_session_n4_information@), IeType::MbsSessionN4Information) == ies_view(m.mbs_session_n4_information@)) by {
        assert forall|k: int| 0 <= k < ies_view(m.mbs_session_n4_information@).len() implies (#[trigger] ies_view(m.mbs_session_n4_information@)[k]).ie_type == IeType::MbsSessionN4Information by {
            assert(ies_view(m.mbs_session_n4_information@)[k] == m.mbs_session_n4_information@[k]@);
        }
        lemma_of_type_all(ies_view(m.mbs_session_n4_information@), IeType::MbsSessionN4Information);
    }
    assert(ies_of_type(opt_ie_seq(m.pfcpsdrsp_flags), IeType::PfcpsdrspFlags) == opt_ie_seq(m.pfcpsdrsp_flags)) by {
        assert forall|k: int| 0 <= k < opt_ie_seq(m.pfcpsdrsp_flags).len() implies (#[trigger] opt_ie_seq(m.pfcpsdrsp_flags)[k]).ie_type == IeType::PfcpsdrspFlags by {
        }
        lemma_of_type_all(opt_ie_seq(m.pfcpsdrsp_flags), IeType::PfcpsdrspFlags);
    }
    assert(ies_of_type(ies_view(m.tl_container@), IeType::TlContainer) == ies_view(m.tl_container@)) by {
        assert forall|k: int| 0 <= k < ies_view(m.tl_container@).len() implies (#[trigger] ies_view(m.tl_container@)[k]).ie_type == IeType::TlContainer by {
            assert(ies_view(m.tl_container@)[k] == m.tl_container@[k]@);
        }
        lemma_of_type_all(ies_view(m.tl_container@), IeType::TlContainer);
    }
}

/// Looking up the IEs of a type gives exactly the message's IEs of that type, in
/// wire order, when every IE is in the field named for its type.
#[verifier::spinoff_prover]
pub proof fn lemma_session_deletion_response_lookup_by_type(m: SessionDeletionResponse, t: IeType)
    requires
        m.fields_hold_their_types(),
    ensures
        m.spec_ies_of(t) == ies_of_type(m.spec_body(), t),
        forall|k: int| 0 <= k < m.spec_ies_of(t).len() ==> (#[trigger] m.spec_ies_of(t)[k]).ie_type == t,
{
    let cls = SessionDeletionResponse::classifier();
    lemma_session_deletion_response_fields_classified(m);
    lemma_of_type_classified(m.slots(), cls, t);
    lemma_session_deletion_response_fields_of_their_type(m);
    match t {
        IeType::Cause => {
            assert(m.slots()[0] == seq![m.cause@]);
        },
        IeType::OffendingIe => {
            assert(m.slots()[1] == opt_ie_seq(m.offending_ie));
        },
        IeType::LoadControlInformation => {
            assert(m.slots()[2] == opt_ie_seq(m.load_control_information));
        },
        IeType::OverloadControlInformation => {
            assert(m.slots()[3] == opt_ie_seq(m.overload_control_information));
        },
        IeType::UsageReportWithinSessionDeletionResponse => {
            assert(m.slots()[4] == ies_view(m.usage_reports@));
        },
        IeType::AdditionalUsageReportsInformation => {
            assert(m.slots()[5] == opt_ie_seq(m.additional_usage_reports_information));
        },
        IeType::PacketRateStatusReport => {
            assert(m.slots()[6] == ies_view(m.packet_rate_status_reports@));
        },
        IeType::MbsSessionN4Information => {
            assert(m.slots()[7] == ies_view(m.mbs_session_n4_information@));
        },
        IeType::PfcpsdrspFlags => {
            assert(m.slots()[8] == opt_ie_seq(m.pfcpsdrsp_flags));
        },
        IeType::TlContainer => {
            assert(m.slots()[9] == ies_view(m.tl_container@));
        },
        _ => {
            assert(m.slots()[10] == ies_view(m.ies@));
        },
    }
    lemma_of_type_types(m.spec_body(), t);
}

} // verus!
