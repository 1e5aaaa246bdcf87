//! Session Report Request message (3GPP TS 29.244): what the user plane reports on a session.
use crate::error::PfcpError;
use crate::ie::{
    ie_refs_view, ies_of_type, ies_size, ies_view, ies_where, ies_wf, ies_wire, parse_ies, spec_parse_ies, Ie,
    IeType, IeView,
};
use crate::message::header::{
    header_size, header_wf, header_wire, lemma_header_roundtrip, lemma_header_wire_len, spec_parse_header, Header,
};
use crate::message::ie_iter::IeIter;
use crate::message::slots::{
    concat_slots, decode_slot, decode_slots, empty_buckets, last_ie, lemma_decode_concat, lemma_len_step,
    lemma_slot_ies_empty, lemma_slot_ies_push_all, len_slot_many, len_slot_opt, list_slot_many, list_slot_opt,
    opt_ie_seq, push_bucket, slot_ies, slots_typed, take_bucket, write_slot_many, write_slot_opt, SlotKind,
    last_seq, lemma_classified_push, lemma_ies_of_type_is_where, lemma_ies_where_ext, lemma_of_type_all,
    lemma_of_type_classified, lemma_of_type_types, slot_pred, slots_classified,
};
use crate::message::{lemma_msg_type_code_roundtrip, lemma_parse_header_size, message_header, Message, MsgType};
use vstd::prelude::*;

verus! {

/// A Session Report Request message (3GPP TS 29.244): what the user plane reports on a session
#[derive(Debug, Clone, PartialEq, Eq)]
pub struct SessionReportRequest {
    pub header: Header,
    pub report_type: Option<Ie>,
    pub downlink_data_report: Option<Ie>,
    pub usage_reports: Vec<Ie>,
    pub error_indication_report: Option<Ie>,
    pub load_control_information: Option<Ie>,
    pub overload_control_information: Option<Ie>,
    pub additional_usage_reports_information: Option<Ie>,
    pub pfcpsr_req_flags: Option<Ie>,
    pub old_cp_fseid: Option<Ie>,
    pub packet_rate_status_reports: Vec<Ie>,
    pub ies: Vec<Ie>,
}

impl SessionReportRequest {
    /// The slot that an IE of type `t` is read into.
    pub open spec fn slot_class(t: IeType) -> int {
        match t {
            IeType::ReportType => 0,
            IeType::DownlinkDataReport => 1,
            IeType::UsageReportWithinSessionReportRequest => 2,
            IeType::ErrorIndicationReport => 3,
            IeType::LoadControlInformation => 4,
            IeType::OverloadControlInformation => 5,
            IeType::AdditionalUsageReportsInformation => 6,
            IeType::PfcpsrReqFlags => 7,
            IeType::Fseid => 8,
            IeType::PacketRateStatusReport => 9,
            _ => 10,
        }
    }

    /// The slot that an IE of type `t` is read into.
    fn classify(t: IeType) -> (r: usize)
        ensures
            r == Self::slot_class(t),
    {
        match t {
            IeType::ReportType => 0,
            IeType::DownlinkDataReport => 1,
            IeType::UsageReportWithinSessionReportRequest => 2,
            IeType::ErrorIndicationReport => 3,
            IeType::LoadControlInformation => 4,
            IeType::OverloadControlInformation => 5,
            IeType::AdditionalUsageReportsInformation => 6,
            IeType::PfcpsrReqFlags => 7,
            IeType::Fseid => 8,
            IeType::PacketRateStatusReport => 9,
            _ => 10,
        }
    }

    /// `slot_class` as a function value.
    pub open spec fn classifier() -> spec_fn(IeType) -> int {
        |t: IeType| Self::slot_class(t)
    }

    /// How many IEs each slot keeps, in wire order.
    pub open spec fn slot_kinds() -> Seq<SlotKind> {
        seq![SlotKind::One, SlotKind::One, SlotKind::Many, SlotKind::One, SlotKind::One, SlotKind::One, SlotKind::One, SlotKind::One, SlotKind::One, SlotKind::Many, SlotKind::Many]
    }

    /// The IEs of each field, in wire order.
    pub open spec fn slots(&self) -> Seq<Seq<IeView>> {
        Seq::<Seq<IeView>>::empty().push(opt_ie_seq(self.report_type)).push(opt_ie_seq(self.downlink_data_report)).push(ies_view(self.usage_reports@)).push(opt_ie_seq(self.error_indication_report)).push(opt_ie_seq(self.load_control_information)).push(opt_ie_seq(self.overload_control_information)).push(opt_ie_seq(self.additional_usage_reports_information)).push(opt_ie_seq(self.pfcpsr_req_flags)).push(opt_ie_seq(self.old_cp_fseid)).push(ies_view(self.packet_rate_status_reports@)).push(ies_view(self.ies@))
    }

    /// The IEs in the order that `all_ies` lists them.
    pub open spec fn listed_ies(&self) -> Seq<IeView> {
        concat_slots(Seq::<Seq<IeView>>::empty().push(opt_ie_seq(self.report_type)).push(opt_ie_seq(self.downlink_data_report)).push(ies_view(self.usage_reports@)).push(opt_ie_seq(self.error_indication_report)).push(opt_ie_seq(self.load_control_information)).push(opt_ie_seq(self.overload_control_information)).push(opt_ie_seq(self.additional_usage_reports_information)).push(opt_ie_seq(self.pfcpsr_req_flags)).push(opt_ie_seq(self.old_cp_fseid)).push(ies_view(self.packet_rate_status_reports@)).push(ies_view(self.ies@)))
    }

    /// The first mandatory IE that `ies` lacks, checked in the order the decoder checks.
    pub open spec fn missing_ie(ies: Seq<IeView>) -> Option<IeType> {
        None
    }

    /// The fields have a shape that decoding gives back: every IE is in the field for its type,
    /// mandatory lists are not empty and optional lists are present only when not empty.
    pub open spec fn fields_canonical(&self) -> bool {
        slots_typed(self.slots(), Self::classifier(), Self::slot_kinds())
    }

    /// A message that reads back as itself.
    pub open spec fn well_formed(&self) -> bool {
        header_wf(self.header) && ies_wf(concat_slots(self.slots())) && self.fields_canonical()
    }

    /// The wire form of the message: its header, then its IEs in wire order.
    pub open spec fn wire(&self) -> Seq<u8> {
        header_wire(self.header) + ies_wire(concat_slots(self.slots()))
    }

    /// Decoding `ies` gives these fields.
    pub open spec fn decodes_from(&self, ies: Seq<IeView>) -> bool {
        &&& opt_ie_seq(self.report_type) == decode_slot(ies, Self::classifier(), 0, SlotKind::One)
        &&& opt_ie_seq(self.downlink_data_report) == decode_slot(ies, Self::classifier(), 1, SlotKind::One)
        &&& ies_view(self.usage_reports@) == decode_slot(ies, Self::classifier(), 2, SlotKind::Many)
        &&& opt_ie_seq(self.error_indication_report) == decode_slot(ies, Self::classifier(), 3, SlotKind::One)
        &&& opt_ie_seq(self.load_control_information) == decode_slot(ies, Self::classifier(), 4, SlotKind::One)
        &&& opt_ie_seq(self.overload_control_information) == decode_slot(ies, Self::classifier(), 5, SlotKind::One)
        &&& opt_ie_seq(self.additional_usage_reports_information) == decode_slot(ies, Self::classifier(), 6, SlotKind::One)
        &&& opt_ie_seq(self.pfcpsr_req_flags) == decode_slot(ies, Self::classifier(), 7, SlotKind::One)
        &&& opt_ie_seq(self.old_cp_fseid) == decode_slot(ies, Self::classifier(), 8, SlotKind::One)
        &&& ies_view(self.packet_rate_status_reports@) == decode_slot(ies, Self::classifier(), 9, SlotKind::Many)
        &&& ies_view(self.ies@) == decode_slot(ies, Self::classifier(), 10, SlotKind::Many)
    }

    /// Assembles a message from its fields; the header length covers the fields' IEs.
    fn assemble(seid: u64, seq: u32, report_type: Option<Ie>, downlink_data_report: Option<Ie>, usage_reports: Vec<Ie>, error_indication_report: Option<Ie>, load_control_information: Option<Ie>, overload_control_information: Option<Ie>, additional_usage_reports_information: Option<Ie>, pfcpsr_req_flags: Option<Ie>, old_cp_fseid: Option<Ie>, packet_rate_status_reports: Vec<Ie>, ies: Vec<Ie>) -> (r: Self)
        ensures
            r.header == message_header(MsgType::SessionReportRequest, true, seid, seq, concat_slots(r.slots())),
            r.report_type == report_type,
            r.downlink_data_report == downlink_data_report,
            r.usage_reports == usage_reports,
            r.error_indication_report == error_indication_report,
            r.load_control_information == load_control_information,
            r.overload_control_information == overload_control_information,
            r.additional_usage_reports_information == additional_usage_reports_information,
            r.pfcpsr_req_flags == pfcpsr_req_flags,
            r.old_cp_fseid == old_cp_fseid,
            r.packet_rate_status_reports == packet_rate_status_reports,
            r.ies == ies,
    {
        let len: u16 = 0;
        let len = len_slot_opt(len, &report_type, Ghost(Seq::<Seq<IeView>>::empty()));
        let len = len_slot_opt(len, &downlink_data_report, Ghost(Seq::<Seq<IeView>>::empty().push(opt_ie_seq(report_type))));
        let len = len_slot_many(len, &usage_reports, Ghost(Seq::<Seq<IeView>>::empty().push(opt_ie_seq(report_type)).push(opt_ie_seq(downlink_data_report))));
        let len = len_slot_opt(len, &error_indication_report, Ghost(Seq::<Seq<IeView>>::empty().push(opt_ie_seq(report_type)).push(opt_ie_seq(downlink_data_report)).push(ies_view(usage_reports@))));
        let len = len_slot_opt(len, &load_control_information, Ghost(Seq::<Seq<IeView>>::empty().push(opt_ie_seq(report_type)).push(opt_ie_seq(downlink_data_report)).push(ies_view(usage_reports@)).push(opt_ie_seq(error_indication_report))));
        let len = len_slot_opt(len, &overload_control_information, Ghost(Seq::<Seq<IeView>>::empty().push(opt_ie_seq(report_type)).push(opt_ie_seq(downlink_data_report)).push(ies_view(usage_reports@)).push(opt_ie_seq(error_indication_report)).push(opt_ie_seq(load_control_information))));
        let len = len_slot_opt(len, &additional_usage_reports_information, Ghost(Seq::<Seq<IeView>>::empty().push(opt_ie_seq(report_type)).push(opt_ie_seq(downlink_data_report)).push(ies_view(usage_reports@)).push(opt_ie_seq(error_indication_report)).push(opt_ie_seq(load_control_information)).push(opt_ie_seq(overload_control_information))));
        let len = len_slot_opt(len, &pfcpsr_req_flags, Ghost(Seq::<Seq<IeView>>::empty().push(opt_ie_seq(report_type)).push(opt_ie_seq(downlink_data_report)).push(ies_view(usage_reports@)).push(opt_ie_seq(error_indication_report)).push(opt_ie_seq(load_control_information)).push(opt_ie_seq(overload_control_information)).push(opt_ie_seq(additional_usage_reports_information))));
        let len = len_slot_opt(len, &old_cp_fseid, Ghost(Seq::<Seq<IeView>>::empty().push(opt_ie_seq(report_type)).push(opt_ie_seq(downlink_data_report)).push(ies_view(usage_reports@)).push(opt_ie_seq(error_indication_report)).push(opt_ie_seq(load_control_information)).push(opt_ie_seq(overload_control_information)).push(opt_ie_seq(additional_usage_reports_information)).push(opt_ie_seq(pfcpsr_req_flags))));
        let len = len_slot_many(len, &packet_rate_status_reports, Ghost(Seq::<Seq<IeView>>::empty().push(opt_ie_seq(report_type)).push(opt_ie_seq(downlink_data_report)).push(ies_view(usage_reports@)).push(opt_ie_seq(error_indication_report)).push(opt_ie_seq(load_control_information)).push(opt_ie_seq(overload_control_information)).push(opt_ie_seq(additional_usage_reports_information)).push(opt_ie_seq(pfcpsr_req_flags)).push(opt_ie_seq(old_cp_fseid))));
        let len = len_slot_many(len, &ies, Ghost(Seq::<Seq<IeView>>::empty().push(opt_ie_seq(report_type)).push(opt_ie_seq(downlink_data_report)).push(ies_view(usage_reports@)).push(opt_ie_seq(error_indication_report)).push(opt_ie_seq(load_control_information)).push(opt_ie_seq(overload_control_information)).push(opt_ie_seq(additional_usage_reports_information)).push(opt_ie_seq(pfcpsr_req_flags)).push(opt_ie_seq(old_cp_fseid)).push(ies_view(packet_rate_status_reports@))));
        let mut header = Header::new(MsgType::SessionReportRequest, true, seid, seq);
        proof { lemma_len_step(ies_size(concat_slots(Seq::<Seq<IeView>>::empty().push(opt_ie_seq(report_type)).push(opt_ie_seq(downlink_data_report)).push(ies_view(usage_reports@)).push(opt_ie_seq(error_indication_report)).push(opt_ie_seq(load_control_information)).push(opt_ie_seq(overload_control_information)).push(opt_ie_seq(additional_usage_reports_information)).push(opt_ie_seq(pfcpsr_req_flags)).push(opt_ie_seq(old_cp_fseid)).push(ies_view(packet_rate_status_reports@)).push(ies_view(ies@)))) as int, header_size(header) as int - 4, len as int); }
        header.length = ((len as u32 + header.len() as u32 - 4) % 65536) as u16;
        SessionReportRequest { header, report_type, downlink_data_report, usage_reports, error_indication_report, load_control_information, overload_control_information, additional_usage_reports_information, pfcpsr_req_flags, old_cp_fseid, packet_rate_status_reports, ies }
    }

    /// Creates a Session Report Request message; the header length covers the given IEs.
    pub fn new(seid: u64, seq: u32, report_type: Option<Ie>, downlink_data_report: Option<Ie>, usage_reports: Vec<Ie>, error_indication_report: Option<Ie>, load_control_information: Option<Ie>, overload_control_information: Option<Ie>, additional_usage_reports_information: Option<Ie>, pfcpsr_req_flags: Option<Ie>, old_cp_fseid: Option<Ie>, packet_rate_status_reports: Vec<Ie>, ies: Vec<Ie>) -> (r: Self)
        ensures
            r.header == message_header(MsgType::SessionReportRequest, true, seid, seq, concat_slots(r.slots())),
            r.report_type == report_type,
            r.downlink_data_report == downlink_data_report,
            r.usage_reports == usage_reports,
            r.error_indication_report == error_indication_report,
            r.load_control_information == load_control_information,
            r.overload_control_information == overload_control_information,
            r.additional_usage_reports_information == additional_usage_reports_information,
            r.pfcpsr_req_flags == pfcpsr_req_flags,
            r.old_cp_fseid == old_cp_fseid,
            r.packet_rate_status_reports == packet_rate_status_reports,
            r.ies == ies,
    {
        Self::assemble(seid, seq, report_type, downlink_data_report, usage_reports, error_indication_report, load_control_information, overload_control_information, additional_usage_reports_information, pfcpsr_req_flags, old_cp_fseid, packet_rate_status_reports, ies)
    }

}

impl Message for SessionReportRequest {
    open spec fn spec_header(&self) -> Header {
        self.header
    }

    open spec fn spec_body(&self) -> Seq<IeView> {
        concat_slots(self.slots())
    }

    open spec fn spec_listed(&self) -> Seq<IeView> {
        self.listed_ies()
    }

    open spec fn spec_ies_of(&self, t: IeType) -> Seq<IeView> {
        match t {
            IeType::ReportType => opt_ie_seq(self.report_type),
            IeType::DownlinkDataReport => opt_ie_seq(self.downlink_data_report),
            IeType::UsageReportWithinSessionReportRequest => ies_view(self.usage_reports@),
            IeType::ErrorIndicationReport => opt_ie_seq(self.error_indication_report),
            IeType::LoadControlInformation => opt_ie_seq(self.load_control_information),
            IeType::OverloadControlInformation => opt_ie_seq(self.overload_control_information),
            IeType::AdditionalUsageReportsInformation => opt_ie_seq(self.additional_usage_reports_information),
            IeType::PfcpsrReqFlags => opt_ie_seq(self.pfcpsr_req_flags),
            IeType::Fseid => opt_ie_seq(self.old_cp_fseid),
            IeType::PacketRateStatusReport => ies_view(self.packet_rate_status_reports@),
            _ => crate::ie::ies_of_type(ies_view(self.ies@), t),
        }
    }

    open spec fn spec_msg_type(&self) -> MsgType {
        MsgType::SessionReportRequest
    }

    open spec fn spec_decode_error(data: Seq<u8>) -> Option<PfcpError> {
        match spec_parse_header(data) {
            Err(e) => Some(e),
            Ok(h) => match spec_parse_ies(data.skip(header_size(h) as int)) {
                Err(e) => Some(e),
                Ok(ies) => match Self::missing_ie(ies) {
                    Some(t) => Some(PfcpError::MissingMandatoryIe { ie_type: t, message_type: Some(MsgType::SessionReportRequest) }),
                    None => None,
                },
            },
        }
    }

    open spec fn spec_decoded(data: Seq<u8>, m: Self) -> bool {
        match spec_parse_header(data) {
            Err(_) => false,
            Ok(h) => match spec_parse_ies(data.skip(header_size(h) as int)) {
                Err(_) => false,
                Ok(ies) => m.header == h && m.decodes_from(ies),
            },
        }
    }

    fn marshal_into(&self, buf: &mut Vec<u8>) {
        self.header.marshal_into(buf);
        let ghost p = buf@;
        assert(buf@ =~= p + ies_wire(concat_slots(Seq::<Seq<IeView>>::empty())));
        write_slot_opt(buf, &self.report_type, Ghost(p), Ghost(Seq::<Seq<IeView>>::empty()));
        write_slot_opt(buf, &self.downlink_data_report, Ghost(p), Ghost(Seq::<Seq<IeView>>::empty().push(opt_ie_seq(self.report_type))));
        write_slot_many(buf, &self.usage_reports, Ghost(p), Ghost(Seq::<Seq<IeView>>::empty().push(opt_ie_seq(self.report_type)).push(opt_ie_seq(self.downlink_data_report))));
        write_slot_opt(buf, &self.error_indication_report, Ghost(p), Ghost(Seq::<Seq<IeView>>::empty().push(opt_ie_seq(self.report_type)).push(opt_ie_seq(self.downlink_data_report)).push(ies_view(self.usage_reports@))));
        write_slot_opt(buf, &self.load_control_information, Ghost(p), Ghost(Seq::<Seq<IeView>>::empty().push(opt_ie_seq(self.report_type)).push(opt_ie_seq(self.downlink_data_report)).push(ies_view(self.usage_reports@)).push(opt_ie_seq(self.error_indication_report))));
        write_slot_opt(buf, &self.overload_control_information, Ghost(p), Ghost(Seq::<Seq<IeView>>::empty().push(opt_ie_seq(self.report_type)).push(opt_ie_seq(self.downlink_data_report)).push(ies_view(self.usage_reports@)).push(opt_ie_seq(self.error_indication_report)).push(opt_ie_seq(self.load_control_information))));
        write_slot_opt(buf, &self.additional_usage_reports_information, Ghost(p), Ghost(Seq::<Seq<IeView>>::empty().push(opt_ie_seq(self.report_type)).push(opt_ie_seq(self.downlink_data_report)).push(ies_view(self.usage_reports@)).push(opt_ie_seq(self.error_indication_report)).push(opt_ie_seq(self.load_control_information)).push(opt_ie_seq(self.overload_control_information))));
        write_slot_opt(buf, &self.pfcpsr_req_flags, Ghost(p), Ghost(Seq::<Seq<IeView>>::empty().push(opt_ie_seq(self.report_type)).push(opt_ie_seq(self.downlink_data_report)).push(ies_view(self.usage_reports@)).push(opt_ie_seq(self.error_indication_report)).push(opt_ie_seq(self.load_control_information)).push(opt_ie_seq(self.overload_control_information)).push(opt_ie_seq(self.additional_usage_reports_information))));
        write_slot_opt(buf, &self.old_cp_fseid, Ghost(p), Ghost(Seq::<Seq<IeView>>::empty().push(opt_ie_seq(self.report_type)).push(opt_ie_seq(self.downlink_data_report)).push(ies_view(self.usage_reports@)).push(opt_ie_seq(self.error_indication_report)).push(opt_ie_seq(self.load_control_information)).push(opt_ie_seq(self.overload_control_information)).push(opt_ie_seq(self.additional_usage_reports_information)).push(opt_ie_seq(self.pfcpsr_req_flags))));
        write_slot_many(buf, &self.packet_rate_status_reports, Ghost(p), Ghost(Seq::<Seq<IeView>>::empty().push(opt_ie_seq(self.report_type)).push(opt_ie_seq(self.downlink_data_report)).push(ies_view(self.usage_reports@)).push(opt_ie_seq(self.error_indication_report)).push(opt_ie_seq(self.load_control_information)).push(opt_ie_seq(self.overload_control_information)).push(opt_ie_seq(self.additional_usage_reports_information)).push(opt_ie_seq(self.pfcpsr_req_flags)).push(opt_ie_seq(self.old_cp_fseid))));
        write_slot_many(buf, &self.ies, Ghost(p), Ghost(Seq::<Seq<IeView>>::empty().push(opt_ie_seq(self.report_type)).push(opt_ie_seq(self.downlink_data_report)).push(ies_view(self.usage_reports@)).push(opt_ie_seq(self.error_indication_report)).push(opt_ie_seq(self.load_control_information)).push(opt_ie_seq(self.overload_control_information)).push(opt_ie_seq(self.additional_usage_reports_information)).push(opt_ie_seq(self.pfcpsr_req_flags)).push(opt_ie_seq(self.old_cp_fseid)).push(ies_view(self.packet_rate_status_reports@))));
        assert(buf@ =~= old(buf)@ + header_wire(self.header) + ies_wire(concat_slots(self.slots())));
    }

    fn marshal(&self) -> (r: Vec<u8>) {
        let mut buf: Vec<u8> = Vec::new();
        self.marshal_into(&mut buf);
        assert(buf@ =~= header_wire(self.header) + ies_wire(concat_slots(self.slots())));
        buf
    }

    fn marshaled_size(&self) -> (r: usize) {
        let v = self.marshal();
        v.len()
    }

    #[verifier::rlimit(60)]
    fn unmarshal(data: &[u8]) -> (r: Result<Self, PfcpError>) {
        let header = match Header::unmarshal(data) {
            Ok(h) => h,
            Err(e) => return Err(e),
        };
        proof { lemma_parse_header_size(data@); }
        let start = header.len() as usize;
        let mut all = match parse_ies(data, start) {
            Ok(v) => v,
            Err(e) => return Err(e),
        };
        let ghost parsed = ies_view(all@);
        let ghost cls = Self::classifier();
        let mut buckets = empty_buckets(12);
        proof {
            lemma_slot_ies_empty(cls);
            assert(parsed.take(0) =~= Seq::<IeView>::empty());
            assert forall|j: int| 0 <= j < 12 implies ies_view(#[trigger] buckets@[j]@) == slot_ies(parsed.take(0), cls, j) by {
                assert(ies_view(buckets@[j]@) =~= Seq::<IeView>::empty());
            }
        }
        let ghost mut done: int = 0;
        while all.len() > 0
            invariant
                0 <= done <= parsed.len(),
                ies_view(all@) == parsed.skip(done),
                cls == Self::classifier(),
                buckets@.len() == 12,
                forall|j: int| 0 <= j < 12 ==> ies_view(#[trigger] buckets@[j]@) == slot_ies(parsed.take(done), cls, j),
            decreases all@.len(),
        {
            let ghost old_all = all@;
            let ghost old_buckets = buckets@;
            let ie = all.remove(0);
            let ghost iev = ie@;
            proof {
                assert(ies_view(old_all).len() == old_all.len());
                assert(done < parsed.len());
                assert(ies_view(old_all)[0] == old_all[0]@);
                assert(parsed.skip(done)[0] == parsed[done]);
                assert(parsed[done] == iev);
                assert(parsed.take(done + 1) =~= parsed.take(done).push(iev));
                lemma_slot_ies_push_all(parsed.take(done), iev, cls);
                assert(all@ =~= old_all.skip(1));
                assert(ies_view(all@) =~= ies_view(old_all).skip(1));
                assert(parsed.skip(done).skip(1) =~= parsed.skip(done + 1));
            }
            let c = Self::classify(ie.ie_type);
            push_bucket(&mut buckets, c, ie);
            proof {
                assert forall|j: int| 0 <= j < 12 implies ies_view(#[trigger] buckets@[j]@) == slot_ies(parsed.take(done + 1), cls, j) by {
                    if j != c {
                        assert(buckets@[j] == old_buckets[j]);
                    }
                }
                done = done + 1;
            }
        }
        proof { assert(parsed.take(done) =~= parsed); }
        let ghost bs = buckets@;
        assert(ies_view(bs[0]@) == slot_ies(parsed, cls, 0));
        assert(ies_view(bs[1]@) == slot_ies(parsed, cls, 1));
        assert(ies_view(bs[2]@) == slot_ies(parsed, cls, 2));
        assert(ies_view(bs[3]@) == slot_ies(parsed, cls, 3));
        assert(ies_view(bs[4]@) == slot_ies(parsed, cls, 4));
        assert(ies_view(bs[5]@) == slot_ies(parsed, cls, 5));
        assert(ies_view(bs[6]@) == slot_ies(parsed, cls, 6));
        assert(ies_view(bs[7]@) == slot_ies(parsed, cls, 7));
        assert(ies_view(bs[8]@) == slot_ies(parsed, cls, 8));
        assert(ies_view(bs[9]@) == slot_ies(parsed, cls, 9));
        assert(ies_view(bs[10]@) == slot_ies(parsed, cls, 10));
        let slot0 = last_ie(take_bucket(&mut buckets, 0, Ghost(bs)));
        assert(opt_ie_seq(slot0) == decode_slot(parsed, cls, 0, SlotKind::One));
        let slot1 = last_ie(take_bucket(&mut buckets, 1, Ghost(bs)));
        assert(opt_ie_seq(slot1) == decode_slot(parsed, cls, 1, SlotKind::One));
        let slot2 = take_bucket(&mut buckets, 2, Ghost(bs));
        assert(ies_view(slot2@) == decode_slot(parsed, cls, 2, SlotKind::Many));
        let slot3 = last_ie(take_bucket(&mut buckets, 3, Ghost(bs)));
        assert(opt_ie_seq(slot3) == decode_slot(parsed, cls, 3, SlotKind::One));
        let slot4 = last_ie(take_bucket(&mut buckets, 4, Ghost(bs)));
        assert(opt_ie_seq(slot4) == decode_slot(parsed, cls, 4, SlotKind::One));
        let slot5 = last_ie(take_bucket(&mut buckets, 5, Ghost(bs)));
        assert(opt_ie_seq(slot5) == decode_slot(parsed, cls, 5, SlotKind::One));
        let slot6 = last_ie(take_bucket(&mut buckets, 6, Ghost(bs)));
        assert(opt_ie_seq(slot6) == decode_slot(parsed, cls, 6, SlotKind::One));
        let slot7 = last_ie(take_bucket(&mut buckets, 7, Ghost(bs)));
        assert(opt_ie_seq(slot7) == decode_slot(parsed, cls, 7, SlotKind::One));
        let slot8 = last_ie(take_bucket(&mut buckets, 8, Ghost(bs)));
        assert(opt_ie_seq(slot8) == decode_slot(parsed, cls, 8, SlotKind::One));
        let slot9 = take_bucket(&mut buckets, 9, Ghost(bs));
        assert(ies_view(slot9@) == decode_slot(parsed, cls, 9, SlotKind::Many));
        let slot10 = take_bucket(&mut buckets, 10, Ghost(bs));
        assert(ies_view(slot10@) == decode_slot(parsed, cls, 10, SlotKind::Many));
        let report_type = slot0;
        let downlink_data_report = slot1;
        let usage_reports = slot2;
        let error_indication_report = slot3;
        let load_control_information = slot4;
        let overload_control_information = slot5;
        let additional_usage_reports_information = slot6;
        let pfcpsr_req_flags = slot7;
        let old_cp_fseid = slot8;
        let packet_rate_status_reports = slot9;
        let ies = slot10;
        let r = SessionReportRequest { header, report_type, downlink_data_report, usage_reports, error_indication_report, load_control_information, overload_control_information, additional_usage_reports_information, pfcpsr_req_flags, old_cp_fseid, packet_rate_status_reports, ies };
        Ok(r)
    }

    fn msg_type(&self) -> (r: MsgType) {
        MsgType::SessionReportRequest
    }

    fn msg_name(&self) -> (r: String) {
        MsgType::SessionReportRequest.name().to_owned()
    }

    fn version(&self) -> (r: u8) {
        1
    }

    fn seid(&self) -> (r: Option<u64>) {
        if self.header.has_seid {
            Some(self.header.seid)
        } else {
            None
        }
    }

    fn sequence(&self) -> (r: u32) {
        self.header.sequence_number
    }

    fn set_sequence(&mut self, seq: u32) {
        self.header.sequence_number = seq;
    }

    fn ies(&self, ie_type: IeType) -> (r: IeIter<'_>) {
        match ie_type {
            IeType::ReportType => match &self.report_type { Some(x) => IeIter::single(Some(x), ie_type), None => IeIter::single(None, ie_type) },
            IeType::DownlinkDataReport => match &self.downlink_data_report { Some(x) => IeIter::single(Some(x), ie_type), None => IeIter::single(None, ie_type) },
            IeType::UsageReportWithinSessionReportRequest => IeIter::multiple(self.usage_reports.as_slice(), ie_type),
            IeType::ErrorIndicationReport => match &self.error_indication_report { Some(x) => IeIter::single(Some(x), ie_type), None => IeIter::single(None, ie_type) },
            IeType::LoadControlInformation => match &self.load_control_information { Some(x) => IeIter::single(Some(x), ie_type), None => IeIter::single(None, ie_type) },
            IeType::OverloadControlInformation => match &self.overload_control_information { Some(x) => IeIter::single(Some(x), ie_type), None => IeIter::single(None, ie_type) },
            IeType::AdditionalUsageReportsInformation => match &self.additional_usage_reports_information { Some(x) => IeIter::single(Some(x), ie_type), None => IeIter::single(None, ie_type) },
            IeType::PfcpsrReqFlags => match &self.pfcpsr_req_flags { Some(x) => IeIter::single(Some(x), ie_type), None => IeIter::single(None, ie_type) },
            IeType::Fseid => match &self.old_cp_fseid { Some(x) => IeIter::single(Some(x), ie_type), None => IeIter::single(None, ie_type) },
            IeType::PacketRateStatusReport => IeIter::multiple(self.packet_rate_status_reports.as_slice(), ie_type),
            _ => IeIter::generic(self.ies.as_slice(), ie_type),
        }
    }

    fn find_ie(&self, ie_type: IeType) -> (r: Option<&Ie>) {
        let mut it = self.ies(ie_type);
        it.next()
    }

    fn find_all_ies(&self, ie_type: IeType) -> (r: Vec<&Ie>) {
        self.ies(ie_type).collect()
    }

    fn all_ies(&self) -> (r: Vec<&Ie>) {
        let mut out: Vec<&Ie> = Vec::new();
        assert(ie_refs_view(out@) =~= concat_slots(Seq::<Seq<IeView>>::empty()));
        list_slot_opt(&mut out, &self.report_type, Ghost(Seq::<Seq<IeView>>::empty()));
        list_slot_opt(&mut out, &self.downlink_data_report, Ghost(Seq::<Seq<IeView>>::empty().push(opt_ie_seq(self.report_type))));
        list_slot_many(&mut out, &self.usage_reports, Ghost(Seq::<Seq<IeView>>::empty().push(opt_ie_seq(self.report_type)).push(opt_ie_seq(self.downlink_data_report))));
        list_slot_opt(&mut out, &self.error_indication_report, Ghost(Seq::<Seq<IeView>>::empty().push(opt_ie_seq(self.report_type)).push(opt_ie_seq(self.downlink_data_report)).push(ies_view(self.usage_reports@))));
        list_slot_opt(&mut out, &self.load_control_information, Ghost(Seq::<Seq<IeView>>::empty().push(opt_ie_seq(self.report_type)).push(opt_ie_seq(self.downlink_data_report)).push(ies_view(self.usage_reports@)).push(opt_ie_seq(self.error_indication_report))));
        list_slot_opt(&mut out, &self.overload_control_information, Ghost(Seq::<Seq<IeView>>::empty().push(opt_ie_seq(self.report_type)).push(opt_ie_seq(self.downlink_data_report)).push(ies_view(self.usage_reports@)).push(opt_ie_seq(self.error_indication_report)).push(opt_ie_seq(self.load_control_information))));
        list_slot_opt(&mut out, &self.additional_usage_reports_information, Ghost(Seq::<Seq<IeView>>::empty().push(opt_ie_seq(self.report_type)).push(opt_ie_seq(self.downlink_data_report)).push(ies_view(self.usage_reports@)).push(opt_ie_seq(self.error_indication_report)).push(opt_ie_seq(self.load_control_information)).push(opt_ie_seq(self.overload_control_information))));
        list_slot_opt(&mut out, &self.pfcpsr_req_flags, Ghost(Seq::<Seq<IeView>>::empty().push(opt_ie_seq(self.report_type)).push(opt_ie_seq(self.downlink_data_report)).push(ies_view(self.usage_reports@)).push(opt_ie_seq(self.error_indication_report)).push(opt_ie_seq(self.load_control_information)).push(opt_ie_seq(self.overload_control_information)).push(opt_ie_seq(self.additional_usage_reports_information))));
        list_slot_opt(&mut out, &self.old_cp_fseid, Ghost(Seq::<Seq<IeView>>::empty().push(opt_ie_seq(self.report_type)).push(opt_ie_seq(self.downlink_data_report)).push(ies_view(self.usage_reports@)).push(opt_ie_seq(self.error_indication_report)).push(opt_ie_seq(self.load_control_information)).push(opt_ie_seq(self.overload_control_information)).push(opt_ie_seq(self.additional_usage_reports_information)).push(opt_ie_seq(self.pfcpsr_req_flags))));
        list_slot_many(&mut out, &self.packet_rate_status_reports, Ghost(Seq::<Seq<IeView>>::empty().push(opt_ie_seq(self.report_type)).push(opt_ie_seq(self.downlink_data_report)).push(ies_view(self.usage_reports@)).push(opt_ie_seq(self.error_indication_report)).push(opt_ie_seq(self.load_control_information)).push(opt_ie_seq(self.overload_control_information)).push(opt_ie_seq(self.additional_usage_reports_information)).push(opt_ie_seq(self.pfcpsr_req_flags)).push(opt_ie_seq(self.old_cp_fseid))));
        list_slot_many(&mut out, &self.ies, Ghost(Seq::<Seq<IeView>>::empty().push(opt_ie_seq(self.report_type)).push(opt_ie_seq(self.downlink_data_report)).push(ies_view(self.usage_reports@)).push(opt_ie_seq(self.error_indication_report)).push(opt_ie_seq(self.load_control_information)).push(opt_ie_seq(self.overload_control_information)).push(opt_ie_seq(self.additional_usage_reports_information)).push(opt_ie_seq(self.pfcpsr_req_flags)).push(opt_ie_seq(self.old_cp_fseid)).push(ies_view(self.packet_rate_status_reports@))));
        out
    }
}

/// A well-formed SessionReportRequest reads back as itself: decoding its wire form gives its
/// header and fields.
pub proof fn lemma_session_report_request_roundtrip(m: SessionReportRequest)
    requires
        m.well_formed(),
    ensures
        SessionReportRequest::spec_decode_error(m.wire()) is None,
        SessionReportRequest::spec_decoded(m.wire(), m),
{
    let body = concat_slots(m.slots());
    lemma_header_roundtrip(m.header, ies_wire(body));
    lemma_header_wire_len(m.header);
    assert((header_wire(m.header) + ies_wire(body)).skip(header_size(m.header) as int) =~= ies_wire(body));
    crate::ie::lemma_parse_ies_wire(body);
    lemma_decode_concat(m.slots(), SessionReportRequest::classifier(), SessionReportRequest::slot_kinds());
    assert(decode_slots(body, SessionReportRequest::classifier(), SessionReportRequest::slot_kinds()) == m.slots());
    assert(decode_slots(body, SessionReportRequest::classifier(), SessionReportRequest::slot_kinds())[0] == decode_slot(body, SessionReportRequest::classifier(), 0, SlotKind::One));
    assert(decode_slots(body, SessionReportRequest::classifier(), SessionReportRequest::slot_kinds())[1] == decode_slot(body, SessionReportRequest::classifier(), 1, SlotKind::One));
    assert(decode_slots(body, SessionReportRequest::classifier(), SessionReportRequest::slot_kinds())[2] == decode_slot(body, SessionReportRequest::classifier(), 2, SlotKind::Many));
    assert(decode_slots(body, SessionReportRequest::classifier(), SessionReportRequest::slot_kinds())[3] == decode_slot(body, SessionReportRequest::classifier(), 3, SlotKind::One));
    assert(decode_slots(body, SessionReportRequest::classifier(), SessionReportRequest::slot_kinds())[4] == decode_slot(body, SessionReportRequest::classifier(), 4, SlotKind::One));
    assert(decode_slots(body, SessionReportRequest::classifier(), SessionReportRequest::slot_kinds())[5] == decode_slot(body, SessionReportRequest::classifier(), 5, SlotKind::One));
    assert(decode_slots(body, SessionReportRequest::classifier(), SessionReportRequest::slot_kinds())[6] == decode_slot(body, SessionReportRequest::classifier(), 6, SlotKind::One));
    assert(decode_slots(body, SessionReportRequest::classifier(), SessionReportRequest::slot_kinds())[7] == decode_slot(body, SessionReportRequest::classifier(), 7, SlotKind::One));
    assert(decode_slots(body, SessionReportRequest::classifier(), SessionReportRequest::slot_kinds())[8] == decode_slot(body, SessionReportRequest::classifier(), 8, SlotKind::One));
    assert(decode_slots(body, SessionReportRequest::classifier(), SessionReportRequest::slot_kinds())[9] == decode_slot(body, SessionReportRequest::classifier(), 9, SlotKind::Many));
    assert(decode_slots(body, SessionReportRequest::classifier(), SessionReportRequest::slot_kinds())[10] == decode_slot(body, SessionReportRequest::classifier(), 10, SlotKind::Many));
}

/// Builder for SessionReportRequest messages.
#[derive(Debug)]
pub struct SessionReportRequestBuilder {
    pub seid: u64,
    pub sequence: u32,
    pub report_type: Option<Ie>,
    pub downlink_data_report: Option<Ie>,
    pub usage_reports: Vec<Ie>,
    pub error_indication_report: Option<Ie>,
    pub load_control_information: Option<Ie>,
    pub overload_control_information: Option<Ie>,
    pub additional_usage_reports_information: Option<Ie>,
    pub pfcpsr_req_flags: Option<Ie>,
    pub old_cp_fseid: Option<Ie>,
    pub packet_rate_status_reports: Vec<Ie>,
    pub ies: Vec<Ie>,
}

impl SessionReportRequestBuilder {
    /// The IEs of each field of the message this builder builds, in wire order.
    pub open spec fn built_slots(&self) -> Seq<Seq<IeView>> {
        Seq::<Seq<IeView>>::empty().push(opt_ie_seq(self.report_type)).push(opt_ie_seq(self.downlink_data_report)).push(ies_view(self.usage_reports@)).push(opt_ie_seq(self.error_indication_report)).push(opt_ie_seq(self.load_control_information)).push(opt_ie_seq(self.overload_control_information)).push(opt_ie_seq(self.additional_usage_reports_information)).push(opt_ie_seq(self.pfcpsr_req_flags)).push(opt_ie_seq(self.old_cp_fseid)).push(ies_view(self.packet_rate_status_reports@)).push(ies_view(self.ies@))
    }

    /// The header of the message this builder builds.
    pub open spec fn built_header(&self) -> Header {
        message_header(MsgType::SessionReportRequest, true, self.seid, self.sequence, concat_slots(self.built_slots()))
    }

    /// Creates a builder with no IEs set.
    pub fn new(seid: u64, sequence: u32) -> (r: Self)
        ensures
            r.seid == seid,
            r.sequence == sequence,
            r.report_type is None,
            r.downlink_data_report is None,
            r.usage_reports@.len() == 0,
            r.error_indication_report is None,
            r.load_control_information is None,
            r.overload_control_information is None,
            r.additional_usage_reports_information is None,
            r.pfcpsr_req_flags is None,
            r.old_cp_fseid is None,
            r.packet_rate_status_reports@.len() == 0,
            r.ies@.len() == 0,
    {
        SessionReportRequestBuilder { seid, sequence, report_type: None, downlink_data_report: None, usage_reports: Vec::new(), error_indication_report: None, load_control_information: None, overload_control_information: None, additional_usage_reports_information: None, pfcpsr_req_flags: None, old_cp_fseid: None, packet_rate_status_reports: Vec::new(), ies: Vec::new() }
    }

    /// Sets the report type IE.
    pub fn report_type(self, ie: Ie) -> (r: Self)
        ensures
            r == (Self { report_type: Some(ie), ..self }),
    {
        let mut s = self;
        s.report_type = Some(ie);
        s
    }

    /// Sets the downlink data report IE.
    pub fn downlink_data_report(self, ie: Ie) -> (r: Self)
        ensures
            r == (Self { downlink_data_report: Some(ie), ..self }),
    {
        let mut s = self;
        s.downlink_data_report = Some(ie);
        s
    }

    /// Adds a usage report IE.
    pub fn usage_report(self, ie: Ie) -> (r: Self)
        ensures
            r.usage_reports@ == self.usage_reports@.push(ie),
            r == (Self { usage_reports: r.usage_reports, ..self }),
    {
        let mut s = self;
        s.usage_reports.push(ie);
        s
    }

    /// Adds several usage report IEs.
    pub fn usage_reports(self, ies: Vec<Ie>) -> (r: Self)
        ensures
            r.usage_reports@ == self.usage_reports@ + ies@,
            r == (Self { usage_reports: r.usage_reports, ..self }),
    {
        let mut s = self;
        let mut v = ies;
        s.usage_reports.append(&mut v);
        s
    }

    /// Sets the error indication report IE.
    pub fn error_indication_report(self, ie: Ie) -> (r: Self)
        ensures
            r == (Self { error_indication_report: Some(ie), ..self }),
    {
        let mut s = self;
        s.error_indication_report = Some(ie);
        s
    }

    /// Sets the load control information IE.
    pub fn load_control_information(self, ie: Ie) -> (r: Self)
        ensures
            r == (Self { load_control_information: Some(ie), ..self }),
    {
        let mut s = self;
        s.load_control_information = Some(ie);
        s
    }

    /// Sets the overload control information IE.
    pub fn overload_control_information(self, ie: Ie) -> (r: Self)
        ensures
            r == (Self { overload_control_information: Some(ie), ..self }),
    {
        let mut s = self;
        s.overload_control_information = Some(ie);
        s
    }

    /// Sets the additional usage reports information IE.
    pub fn additional_usage_reports_information(self, ie: Ie) -> (r: Self)
        ensures
            r == (Self { additional_usage_reports_information: Some(ie), ..self }),
    {
        let mut s = self;
        s.additional_usage_reports_information = Some(ie);
        s
    }

    /// Sets the pfcpsr req flags IE.
    pub fn pfcpsr_req_flags(self, ie: Ie) -> (r: Self)
        ensures
            r == (Self { pfcpsr_req_flags: Some(ie), ..self }),
    {
        let mut s = self;
        s.pfcpsr_req_flags = Some(ie);
        s
    }

    /// Sets the old cp fseid IE.
    pub fn old_cp_fseid(self, ie: Ie) -> (r: Self)
        ensures
            r == (Self { old_cp_fseid: Some(ie), ..self }),
    {
        let mut s = self;
        s.old_cp_fseid = Some(ie);
        s
    }

    /// Adds a packet rate status report IE.
    pub fn packet_rate_status_report(self, ie: Ie) -> (r: Self)
        ensures
            r.packet_rate_status_reports@ == self.packet_rate_status_reports@.push(ie),
            r == (Self { packet_rate_status_reports: r.packet_rate_status_reports, ..self }),
    {
        let mut s = self;
        s.packet_rate_status_reports.push(ie);
        s
    }

    /// Adds an additional IE.
    pub fn ie(self, ie: Ie) -> (r: Self)
        ensures
            r.ies@ == self.ies@.push(ie),
            r == (Self { ies: r.ies, ..self }),
    {
        let mut s = self;
        s.ies.push(ie);
        s
    }

    /// Adds several additional IEs.
    pub fn ies(self, ies: Vec<Ie>) -> (r: Self)
        ensures
            r.ies@ == self.ies@ + ies@,
            r == (Self { ies: r.ies, ..self }),
    {
        let mut s = self;
        let mut v = ies;
        s.ies.append(&mut v);
        s
    }

    /// Builds the message.
    pub fn build(self) -> (r: SessionReportRequest)
        ensures
            r.header == message_header(MsgType::SessionReportRequest, true, self.seid, self.sequence, concat_slots(r.slots())),
            r.report_type == self.report_type,
            r.downlink_data_report == self.downlink_data_report,
            r.usage_reports == self.usage_reports,
            r.error_indication_report == self.error_indication_report,
            r.load_control_information == self.load_control_information,
            r.overload_control_information == self.overload_control_information,
            r.additional_usage_reports_information == self.additional_usage_reports_information,
            r.pfcpsr_req_flags == self.pfcpsr_req_flags,
            r.old_cp_fseid == self.old_cp_fseid,
            r.packet_rate_status_reports == self.packet_rate_status_reports,
            r.ies == self.ies,
            r.slots() == self.built_slots(),
            r.header == self.built_header(),
    {
        SessionReportRequest::assemble(self.seid, self.sequence, self.report_type, self.downlink_data_report, self.usage_reports, self.error_indication_report, self.load_control_information, self.overload_control_information, self.additional_usage_reports_information, self.pfcpsr_req_flags, self.old_cp_fseid, self.packet_rate_status_reports, self.ies)
    }

    /// Builds the message and serializes it.
    pub fn marshal(self) -> (r: Vec<u8>)
        ensures
            r@ == header_wire(self.built_header()) + ies_wire(concat_slots(self.built_slots())),
    {
        let msg = self.build();
        msg.marshal()
    }

}

/// Decoding what a SessionReportRequest builder writes fails exactly when a mandatory IE is
/// missing from the IEs it was given, and a message decoded from it has the builder's
/// header, and so its sequence number; when every IE stands in the field for its type,
/// the decoded message has the builder's IEs in each field. This holds when the
/// sequence number fits the header's 24 bits and every IE fits its length field.
#[verifier::spinoff_prover]
pub proof fn lemma_session_report_request_builder_roundtrip(b: SessionReportRequestBuilder)
    requires
        b.sequence < 16777216,
        ies_wf(concat_slots(b.built_slots())),
    ensures
        SessionReportRequest::spec_decode_error(header_wire(b.built_header()) + ies_wire(concat_slots(b.built_slots()))) == (match SessionReportRequest::missing_ie(concat_slots(b.built_slots())) {
            Some(t) => Some(PfcpError::MissingMandatoryIe { ie_type: t, message_type: Some(MsgType::SessionReportRequest) }),
            None => None::<PfcpError>,
        }),
        forall|m: SessionReportRequest|
            #[trigger] SessionReportRequest::spec_decoded(header_wire(b.built_header()) + ies_wire(concat_slots(b.built_slots())), m) ==> m.header == b.built_header()
                && m.header.sequence_number == b.sequence,
        slots_typed(b.built_slots(), SessionReportRequest::classifier(), SessionReportRequest::slot_kinds()) ==> forall|m: SessionReportRequest|
            #[trigger] SessionReportRequest::spec_decoded(header_wire(b.built_header()) + ies_wire(concat_slots(b.built_slots())), m) ==> m.slots() == b.built_slots(),
{
    let h = b.built_header();
    let ss = b.built_slots();
    let body = concat_slots(ss);
    lemma_msg_type_code_roundtrip(MsgType::SessionReportRequest);
    assert(header_wf(h));
    lemma_header_roundtrip(h, ies_wire(body));
    lemma_header_wire_len(h);
    assert((header_wire(h) + ies_wire(body)).skip(header_size(h) as int) =~= ies_wire(body));
    crate::ie::lemma_parse_ies_wire(body);
    if slots_typed(ss, SessionReportRequest::classifier(), SessionReportRequest::slot_kinds()) {
        lemma_decode_concat(ss, SessionReportRequest::classifier(), SessionReportRequest::slot_kinds());
        assert(decode_slots(body, SessionReportRequest::classifier(), SessionReportRequest::slot_kinds()) == ss);
        assert(decode_slots(body, SessionReportRequest::classifier(), SessionReportRequest::slot_kinds())[0] == decode_slot(body, SessionReportRequest::classifier(), 0, SlotKind::One));
        assert(decode_slots(body, SessionReportRequest::classifier(), SessionReportRequest::slot_kinds())[1] == decode_slot(body, SessionReportRequest::classifier(), 1, SlotKind::One));
        assert(decode_slots(body, SessionReportRequest::classifier(), SessionReportRequest::slot_kinds())[2] == decode_slot(body, SessionReportRequest::classifier(), 2, SlotKind::Many));
        assert(decode_slots(body, SessionReportRequest::classifier(), SessionReportRequest::slot_kinds())[3] == decode_slot(body, SessionReportRequest::classifier(), 3, SlotKind::One));
        assert(decode_slots(body, SessionReportRequest::classifier(), SessionReportRequest::slot_kinds())[4] == decode_slot(body, SessionReportRequest::classifier(), 4, SlotKind::One));
        assert(decode_slots(body, SessionReportRequest::classifier(), SessionReportRequest::slot_kinds())[5] == decode_slot(body, SessionReportRequest::classifier(), 5, SlotKind::One));
        assert(decode_slots(body, SessionReportRequest::classifier(), SessionReportRequest::slot_kinds())[6] == decode_slot(body, SessionReportRequest::classifier(), 6, SlotKind::One));
        assert(decode_slots(body, SessionReportRequest::classifier(), SessionReportRequest::slot_kinds())[7] == decode_slot(body, SessionReportRequest::classifier(), 7, SlotKind::One));
        assert(decode_slots(body, SessionReportRequest::classifier(), SessionReportRequest::slot_kinds())[8] == decode_slot(body, SessionReportRequest::classifier(), 8, SlotKind::One));
        assert(decode_slots(body, SessionReportRequest::classifier(), SessionReportRequest::slot_kinds())[9] == decode_slot(body, SessionReportRequest::classifier(), 9, SlotKind::Many));
        assert(decode_slots(body, SessionReportRequest::classifier(), SessionReportRequest::slot_kinds())[10] == decode_slot(body, SessionReportRequest::classifier(), 10, SlotKind::Many));
        assert forall|m: SessionReportRequest| #[trigger] SessionReportRequest::spec_decoded(header_wire(b.built_header()) + ies_wire(concat_slots(b.built_slots())), m) implies m.slots() == ss by {
            assert(m.slots() =~= ss);
        }
    }
}

impl SessionReportRequest {
    /// Every IE is in the field named for its type, and the additional IEs are of
    /// no type that has a field of its own.
    #[verifier::opaque]
    pub open spec fn fields_hold_their_types(&self) -> bool {
        &&& (self.report_type matches Some(x) ==> x.ie_type == IeType::ReportType)
        &&& (self.downlink_data_report matches Some(x) ==> x.ie_type == IeType::DownlinkDataReport)
        &&& forall|i: int| 0 <= i < self.usage_reports@.len() ==> (#[trigger] self.usage_reports@[i]).ie_type == IeType::UsageReportWithinSessionReportRequest
        &&& (self.error_indication_report matches Some(x) ==> x.ie_type == IeType::ErrorIndicationReport)
        &&& (self.load_control_information matches Some(x) ==> x.ie_type == IeType::LoadControlInformation)
        &&& (self.overload_control_information matches Some(x) ==> x.ie_type == IeType::OverloadControlInformation)
        &&& (self.additional_usage_reports_information matches Some(x) ==> x.ie_type == IeType::AdditionalUsageReportsInformation)
        &&& (self.pfcpsr_req_flags matches Some(x) ==> x.ie_type == IeType::PfcpsrReqFlags)
        &&& (self.old_cp_fseid matches Some(x) ==> x.ie_type == IeType::Fseid)
        &&& forall|i: int| 0 <= i < self.packet_rate_status_reports@.len() ==> (#[trigger] self.packet_rate_status_reports@[i]).ie_type == IeType::PacketRateStatusReport
        &&& forall|i: int| 0 <= i < self.ies@.len() ==> {
            let t = (#[trigger] self.ies@[i]).ie_type;
            t != IeType::ReportType && t != IeType::DownlinkDataReport && t != IeType::UsageReportWithinSessionReportRequest && t != IeType::ErrorIndicationReport && t != IeType::LoadControlInformation && t != IeType::OverloadControlInformation && t != IeType::AdditionalUsageReportsInformation && t != IeType::PfcpsrReqFlags && t != IeType::Fseid && t != IeType::PacketRateStatusReport
        }
    }
}

/// Decoding puts every IE of the body into the field named for its IE type: a
/// field for one IE holds the last IE of its type, a list holds all IEs of its
/// type in wire order, and the additional IEs are the IEs of the other types, in
/// wire order.
#[verifier::spinoff_prover]
pub proof fn lemma_session_report_request_decoded_by_type(data: Seq<u8>, m: SessionReportRequest)
    requires
        SessionReportRequest::spec_decoded(data, m),
    ensures
        spec_parse_ies(data.skip(header_size(m.header) as int)) is Ok,
        ({
            let body = spec_parse_ies(data.skip(header_size(m.header) as int))->Ok_0;
            &&& (ies_of_type(body, IeType::ReportType).len() == 0 ==> m.report_type is None)
            &&& (ies_of_type(body, IeType::ReportType).len() > 0 ==> (m.report_type matches Some(x) && x@ == ies_of_type(body, IeType::ReportType).last()))
            &&& (ies_of_type(body, IeType::DownlinkDataReport).len() == 0 ==> m.downlink_data_report is None)
            &&& (ies_of_type(body, IeType::DownlinkDataReport).len() > 0 ==> (m.downlink_data_report matches Some(x) && x@ == ies_of_type(body, IeType::DownlinkDataReport).last()))
            &&& ies_view(m.usage_reports@) == ies_of_type(body, IeType::UsageReportWithinSessionReportRequest)
            &&& (ies_of_type(body, IeType::ErrorIndicationReport).len() == 0 ==> m.error_indication_report is None)
            &&& (ies_of_type(body, IeType::ErrorIndicationReport).len() > 0 ==> (m.error_indication_report matches Some(x) && x@ == ies_of_type(body, IeType::ErrorIndicationReport).last()))
            &&& (ies_of_type(body, IeType::LoadControlInformation).len() == 0 ==> m.load_control_information is None)
            &&& (ies_of_type(body, IeType::LoadControlInformation).len() > 0 ==> (m.load_control_information matches Some(x) && x@ == ies_of_type(body, IeType::LoadControlInformation).last()))
            &&& (ies_of_type(body, IeType::OverloadControlInformation).len() == 0 ==> m.overload_control_information is None)
            &&& (ies_of_type(body, IeType::OverloadControlInformation).len() > 0 ==> (m.overload_control_information matches Some(x) && x@ == ies_of_type(body, IeType::OverloadControlInformation).last()))
            &&& (ies_of_type(body, IeType::AdditionalUsageReportsInformation).len() == 0 ==> m.additional_usage_reports_information is None)
            &&& (ies_of_type(body, IeType::AdditionalUsageReportsInformation).len() > 0 ==> (m.additional_usage_reports_information matches Some(x) && x@ == ies_of_type(body, IeType::AdditionalUsageReportsInformation).last()))
            &&& (ies_of_type(body, IeType::PfcpsrReqFlags).len() == 0 ==> m.pfcpsr_req_flags is None)
            &&& (ies_of_type(body, IeType::PfcpsrReqFlags).len() > 0 ==> (m.pfcpsr_req_flags matches Some(x) && x@ == ies_of_type(body, IeType::PfcpsrReqFlags).last()))
            &&& (ies_of_type(body, IeType::Fseid).len() == 0 ==> m.old_cp_fseid is None)
            &&& (ies_of_type(body, IeType::Fseid).len() > 0 ==> (m.old_cp_fseid matches Some(x) && x@ == ies_of_type(body, IeType::Fseid).last()))
            &&& ies_view(m.packet_rate_status_reports@) == ies_of_type(body, IeType::PacketRateStatusReport)
            &&& ies_view(m.ies@) == ies_where(body, |t: IeType| t != IeType::ReportType && t != IeType::DownlinkDataReport && t != IeType::UsageReportWithinSessionReportRequest && t != IeType::ErrorIndicationReport && t != IeType::LoadControlInformation && t != IeType::OverloadControlInformation && t != IeType::AdditionalUsageReportsInformation && t != IeType::PfcpsrReqFlags && t != IeType::Fseid && t != IeType::PacketRateStatusReport)
            &&& true
        }),
{
    if let Ok(h) = spec_parse_header(data) {
        let body = spec_parse_ies(data.skip(header_size(h) as int))->Ok_0;
        let cls = SessionReportRequest::classifier();
        assert((ies_of_type(body, IeType::ReportType).len() == 0 ==> m.report_type is None) && (ies_of_type(body, IeType::ReportType).len() > 0 ==> (m.report_type matches Some(x) && x@ == ies_of_type(body, IeType::ReportType).last()))) by {
            assert forall|x: IeType| #[trigger] slot_pred(cls, 0)(x) == (x == IeType::ReportType) by {}
            lemma_ies_where_ext(body, slot_pred(cls, 0), |x: IeType| x == IeType::ReportType);
            lemma_ies_of_type_is_where(body, IeType::ReportType);
            assert(decode_slot(body, cls, 0, SlotKind::One) == last_seq(ies_of_type(body, IeType::ReportType)));
            if ies_of_type(body, IeType::ReportType).len() > 0 { assert(opt_ie_seq(m.report_type)[0] == ies_of_type(body, IeType::ReportType).last()); }
        }
        assert((ies_of_type(body, IeType::DownlinkDataReport).len() == 0 ==> m.downlink_data_report is None) && (ies_of_type(body, IeType::DownlinkDataReport).len() > 0 ==> (m.downlink_data_report matches Some(x) && x@ == ies_of_type(body, IeType::DownlinkDataReport).last()))) by {
            assert forall|x: IeType| #[trigger] slot_pred(cls, 1)(x) == (x == IeType::DownlinkDataReport) by {}
            lemma_ies_where_ext(body, slot_pred(cls, 1), |x: IeType| x == IeType::DownlinkDataReport);
            lemma_ies_of_type_is_where(body, IeType::DownlinkDataReport);
            assert(decode_slot(body, cls, 1, SlotKind::One) == last_seq(ies_of_type(body, IeType::DownlinkDataReport)));
            if ies_of_type(body, IeType::DownlinkDataReport).len() > 0 { assert(opt_ie_seq(m.downlink_data_report)[0] == ies_of_type(body, IeType::DownlinkDataReport).last()); }
        }
        assert(ies_view(m.usage_reports@) == ies_of_type(body, IeType::UsageReportWithinSessionReportRequest)) by {
            assert forall|x: IeType| #[trigger] slot_pred(cls, 2)(x) == (x == IeType::UsageReportWithinSessionReportRequest) by {}
            lemma_ies_where_ext(body, slot_pred(cls, 2), |x: IeType| x == IeType::UsageReportWithinSessionReportRequest);
            lemma_ies_of_type_is_where(body, IeType::UsageReportWithinSessionReportRequest);
        }
        assert((ies_of_type(body, IeType::ErrorIndicationReport).len() == 0 ==> m.error_indication_report is None) && (ies_of_type(body, IeType::ErrorIndicationReport).len() > 0 ==> (m.error_indication_report matches Some(x) && x@ == ies_of_type(body, IeType::ErrorIndicationReport).last()))) by {
            assert forall|x: IeType| #[trigger] slot_pred(cls, 3)(x) == (x == IeType::ErrorIndicationReport) by {}
            lemma_ies_where_ext(body, slot_pred(cls, 3), |x: IeType| x == IeType::ErrorIndicationReport);
            lemma_ies_of_type_is_where(body, IeType::ErrorIndicationReport);
            assert(decode_slot(body, cls, 3, SlotKind::One) == last_seq(ies_of_type(body, IeType::ErrorIndicationReport)));
            if ies_of_type(body, IeType::ErrorIndicationReport).len() > 0 { assert(opt_ie_seq(m.error_indication_report)[0] == ies_of_type(body, IeType::ErrorIndicationReport).last()); }
        }
        assert((ies_of_type(body, IeType::LoadControlInformation).len() == 0 ==> m.load_control_information is None) && (ies_of_type(body, IeType::LoadControlInformation).len() > 0 ==> (m.load_control_information matches Some(x) && x@ == ies_of_type(body, IeType::LoadControlInformation).last()))) by {
            assert forall|x: IeType| #[trigger] slot_pred(cls, 4)(x) == (x == IeType::LoadControlInformation) by {}
            lemma_ies_where_ext(body, slot_pred(cls, 4), |x: IeType| x == IeType::LoadControlInformation);
            lemma_ies_of_type_is_where(body, IeType::LoadControlInformation);
            assert(decode_slot(body, cls, 4, SlotKind::One) == last_seq(ies_of_type(body, IeType::LoadControlInformation)));
            if ies_of_type(body, IeType::LoadControlInformation).len() > 0 { assert(opt_ie_seq(m.load_control_information)[0] == ies_of_type(body, IeType::LoadControlInformation).last()); }
        }
        assert((ies_of_type(body, IeType::OverloadControlInformation).len() == 0 ==> m.overload_control_information is None) && (ies_of_type(body, IeType::OverloadControlInformation).len() > 0 ==> (m.overload_control_information matches Some(x) && x@ == ies_of_type(body, IeType::OverloadControlInformation).last()))) by {
            assert forall|x: IeType| #[trigger] slot_pred(cls, 5)(x) == (x == IeType::OverloadControlInformation) by {}
            lemma_ies_where_ext(body, slot_pred(cls, 5), |x: IeType| x == IeType::OverloadControlInformation);
            lemma_ies_of_type_is_where(body, IeType::OverloadControlInformation);
            assert(decode_slot(body, cls, 5, SlotKind::One) == last_seq(ies_of_type(body, IeType::OverloadControlInformation)));
            if ies_of_type(body, IeType::OverloadControlInformation).len() > 0 { assert(opt_ie_seq(m.overload_control_information)[0] == ies_of_type(body, IeType::OverloadControlInformation).last()); }
        }
        assert((ies_of_type(body, IeType::AdditionalUsageReportsInformation).len() == 0 ==> m.additional_usage_reports_information is None) && (ies_of_type(body, IeType::AdditionalUsageReportsInformation).len() > 0 ==> (m.additional_usage_reports_information matches Some(x) && x@ == ies_of_type(body, IeType::AdditionalUsageReportsInformation).last()))) by {
            assert forall|x: IeType| #[trigger] slot_pred(cls, 6)(x) == (x == IeType::AdditionalUsageReportsInformation) by {}
            lemma_ies_where_ext(body, slot_pred(cls, 6), |x: IeType| x == IeType::AdditionalUsageReportsInformation);
            lemma_ies_of_type_is_where(body, IeType::AdditionalUsageReportsInformation);
            assert(decode_slot(body, cls, 6, SlotKind::One) == last_seq(ies_of_type(body, IeType::AdditionalUsageReportsInformation)));
            if ies_of_type(body, IeType::AdditionalUsageReportsInformation).len() > 0 { assert(opt_ie_seq(m.additional_usage_reports_information)[0] == ies_of_type(body, IeType::AdditionalUsageReportsInformation).last()); }
        }
        assert((ies_of_type(body, IeType::PfcpsrReqFlags).len() == 0 ==> m.pfcpsr_req_flags is None) && (ies_of_type(body, IeType::PfcpsrReqFlags).len() > 0 ==> (m.pfcpsr_req_flags matches Some(x) && x@ == ies_of_type(body, IeType::PfcpsrReqFlags).last()))) by {
            assert forall|x: IeType| #[trigger] slot_pred(cls, 7)(x) == (x == IeType::PfcpsrReqFlags) by {}
            lemma_ies_where_ext(body, slot_pred(cls, 7), |x: IeType| x == IeType::PfcpsrReqFlags);
            lemma_ies_of_type_is_where(body, IeType::PfcpsrReqFlags);
            assert(decode_slot(body, cls, 7, SlotKind::One) == last_seq(ies_of_type(body, IeType::PfcpsrReqFlags)));
            if ies_of_type(body, IeType::PfcpsrReqFlags).len() > 0 { assert(opt_ie_seq(m.pfcpsr_req_flags)[0] == ies_of_type(body, IeType::PfcpsrReqFlags).last()); }
        }
        assert((ies_of_type(body, IeType::Fseid).len() == 0 ==> m.old_cp_fseid is None) && (ies_of_type(body, IeType::Fseid).len() > 0 ==> (m.old_cp_fseid matches Some(x) && x@ == ies_of_type(body, IeType::Fseid).last()))) by {
            assert forall|x: IeType| #[trigger] slot_pred(cls, 8)(x) == (x == IeType::Fseid) by {}
            lemma_ies_where_ext(body, slot_pred(cls, 8), |x: IeType| x == IeType::Fseid);
            lemma_ies_of_type_is_where(body, IeType::Fseid);
            assert(decode_slot(body, cls, 8, SlotKind::One) == last_seq(ies_of_type(body, IeType::Fseid)));
            if ies_of_type(body, IeType::Fseid).len() > 0 { assert(opt_ie_seq(m.old_cp_fseid)[0] == ies_of_type(body, IeType::Fseid).last()); }
        }
        assert(ies_view(m.packet_rate_status_reports@) == ies_of_type(body, IeType::PacketRateStatusReport)) by {
            assert forall|x: IeType| #[trigger] slot_pred(cls, 9)(x) == (x == IeType::PacketRateStatusReport) by {}
            lemma_ies_where_ext(body, slot_pred(cls, 9), |x: IeType| x == IeType::PacketRateStatusReport);
            lemma_ies_of_type_is_where(body, IeType::PacketRateStatusReport);
        }
        assert(ies_view(m.ies@) == ies_where(body, |t: IeType| t != IeType::ReportType && t != IeType::DownlinkDataReport && t != IeType::UsageReportWithinSessionReportRequest && t != IeType::ErrorIndicationReport && t != IeType::LoadControlInformation && t != IeType::OverloadControlInformation && t != IeType::AdditionalUsageReportsInformation && t != IeType::PfcpsrReqFlags && t != IeType::Fseid && t != IeType::PacketRateStatusReport)) by {
            assert forall|t: IeType| #[trigger] slot_pred(cls, 10)(t) == (t != IeType::ReportType && t != IeType::DownlinkDataReport && t != IeType::UsageReportWithinSessionReportRequest && t != IeType::ErrorIndicationReport && t != IeType::LoadControlInformation && t != IeType::OverloadControlInformation && t != IeType::AdditionalUsageReportsInformation && t != IeType::PfcpsrReqFlags && t != IeType::Fseid && t != IeType::PacketRateStatusReport) by {}
            lemma_ies_where_ext(body, slot_pred(cls, 10), |t: IeType| t != IeType::ReportType && t != IeType::DownlinkDataReport && t != IeType::UsageReportWithinSessionReportRequest && t != IeType::ErrorIndicationReport && t != IeType::LoadControlInformation && t != IeType::OverloadControlInformation && t != IeType::AdditionalUsageReportsInformation && t != IeType::PfcpsrReqFlags && t != IeType::Fseid && t != IeType::PacketRateStatusReport);
        }
    }
}

/// When every IE is in the field named for its type, every IE sits in the slot
/// that decoding assigns its type to.
proof fn lemma_session_report_request_fields_classified(m: SessionReportRequest)
    requires
        m.fields_hold_their_types(),
    ensures
        slots_classified(m.slots(), SessionReportRequest::classifier()),
{
    reveal(SessionReportRequest::fields_hold_their_types);
    let cls = SessionReportRequest::classifier();
    assert(slots_classified(Seq::<Seq<IeView>>::empty(), cls));
    assert(slots_classified(Seq::<Seq<IeView>>::empty().push(opt_ie_seq(m.report_type)), cls)) by {
        assert forall|k: int| 0 <= k < opt_ie_seq(m.report_type).len() implies cls(#[trigger] opt_ie_seq(m.report_type)[k].ie_type) == 0 by {
        }
        lemma_classified_push(Seq::<Seq<IeView>>::empty(), opt_ie_seq(m.report_type), cls);
    }
    assert(slots_classified(Seq::<Seq<IeView>>::empty().push(opt_ie_seq(m.report_type)).push(opt_ie_seq(m.downlink_data_report)), cls)) by {
        assert forall|k: int| 0 <= k < opt_ie_seq(m.downlink_data_report).len() implies cls(#[trigger] opt_ie_seq(m.downlink_data_report)[k].ie_type) == 1 by {
        }
        lemma_classified_push(Seq::<Seq<IeView>>::empty().push(opt_ie_seq(m.report_type)), opt_ie_seq(m.downlink_data_report), cls);
    }
    assert(slots_classified(Seq::<Seq<IeView>>::empty().push(opt_ie_seq(m.report_type)).push(opt_ie_seq(m.downlink_data_report)).push(ies_view(m.usage_reports@)), cls)) by {
        assert forall|k: int| 0 <= k < ies_view(m.usage_reports@).len() implies cls(#[trigger] ies_view(m.usage_reports@)[k].ie_type) == 2 by {
            assert(ies_view(m.usage_reports@)[k] == m.usage_reports@[k]@);
        }
        lemma_classified_push(Seq::<Seq<IeView>>::empty().push(opt_ie_seq(m.report_type)).push(opt_ie_seq(m.downlink_data_report)), ies_view(m.usage_reports@), cls);
    }
    assert(slots_classified(Seq::<Seq<IeView>>::empty().push(opt_ie_seq(m.report_type)).push(opt_ie_seq(m.downlink_data_report)).push(ies_view(m.usage_reports@)).push(opt_ie_seq(m.error_indication_report)), cls)) by {
        assert forall|k: int| 0 <= k < opt_ie_seq(m.error_indication_report).len() implies cls(#[trigger] opt_ie_seq(m.error_indication_report)[k].ie_type) == 3 by {
        }
        lemma_classified_push(Seq::<Seq<IeView>>::empty().push(opt_ie_seq(m.report_type)).push(opt_ie_seq(m.downlink_data_report)).push(ies_view(m.usage_reports@)), opt_ie_seq(m.error_indication_report), cls);
    }
    assert(slots_classified(Seq::<Seq<IeView>>::empty().push(opt_ie_seq(m.report_type)).push(opt_ie_seq(m.downlink_data_report)).push(ies_view(m.usage_reports@)).push(opt_ie_seq(m.error_indication_report)).push(opt_ie_seq(m.load_control_information)), cls)) by {
        assert forall|k: int| 0 <= k < opt_ie_seq(m.load_control_information).len() implies cls(#[trigger] opt_ie_seq(m.load_control_information)[k].ie_type) == 4 by {
        }
        lemma_classified_push(Seq::<Seq<IeView>>::empty().push(opt_ie_seq(m.report_type)).push(opt_ie_seq(m.downlink_data_report)).push(ies_view(m.usage_reports@)).push(opt_ie_seq(m.error_indication_report)), opt_ie_seq(m.load_control_information), cls);
    }
    assert(slots_classified(Seq::<Seq<IeView>>::empty().push(opt_ie_seq(m.report_type)).push(opt_ie_seq(m.downlink_data_report)).push(ies_view(m.usage_reports@)).push(opt_ie_seq(m.error_indication_report)).push(opt_ie_seq(m.load_control_information)).push(opt_ie_seq(m.overload_control_information)), cls)) by {
        assert forall|k: int| 0 <= k < opt_ie_seq(m.overload_control_information).len() implies cls(#[trigger] opt_ie_seq(m.overload_control_information)[k].ie_type) == 5 by {
        }
        lemma_classified_push(Seq::<Seq<IeView>>::empty().push(opt_ie_seq(m.report_type)).push(opt_ie_seq(m.downlink_data_report)).push(ies_view(m.usage_reports@)).push(opt_ie_seq(m.error_indication_report)).push(opt_ie_seq(m.load_control_information)), opt_ie_seq(m.overload_control_information), cls);
    }
    assert(slots_classified(Seq::<Seq<IeView>>::empty().push(opt_ie_seq(m.report_type)).push(opt_ie_seq(m.downlink_data_report)).push(ies_view(m.usage_reports@)).push(opt_ie_seq(m.error_indication_report)).push(opt_ie_seq(m.load_control_information)).push(opt_ie_seq(m.overload_control_information)).push(opt_ie_seq(m.additional_usage_reports_information)), cls)) by {
        assert forall|k: int| 0 <= k < opt_ie_seq(m.additional_usage_reports_information).len() implies cls(#[trigger] opt_ie_seq(m.additional_usage_reports_information)[k].ie_type) == 6 by {
        }
        lemma_classified_push(Seq::<Seq<IeView>>::empty().push(opt_ie_seq(m.report_type)).push(opt_ie_seq(m.downlink_data_report)).push(ies_view(m.usage_reports@)).push(opt_ie_seq(m.error_indication_report)).push(opt_ie_seq(m.load_control_information)).push(opt_ie_seq(m.overload_control_information)), opt_ie_seq(m.additional_usage_reports_information), cls);
    }
    assert(slots_classified(Seq::<Seq<IeView>>::empty().push(opt_ie_seq(m.report_type)).push(opt_ie_seq(m.downlink_data_report)).push(ies_view(m.usage_reports@)).push(opt_ie_seq(m.error_indication_report)).push(opt_ie_seq(m.load_control_information)).push(opt_ie_seq(m.overload_control_information)).push(opt_ie_seq(m.additional_usage_reports_information)).push(opt_ie_seq(m.pfcpsr_req_flags)), cls)) by {
        assert forall|k: int| 0 <= k < opt_ie_seq(m.pfcpsr_req_flags).len() implies cls(#[trigger] opt_ie_seq(m.pfcpsr_req_flags)[k].ie_type) == 7 by {
        }
        lemma_classified_push(Seq::<Seq<IeView>>::empty().push(opt_ie_seq(m.report_type)).push(opt_ie_seq(m.downlink_data_report)).push(ies_view(m.usage_reports@)).push(opt_ie_seq(m.error_indication_report)).push(opt_ie_seq(m.load_control_information)).push(opt_ie_seq(m.overload_control_information)).push(opt_ie_seq(m.additional_usage_reports_information)), opt_ie_seq(m.pfcpsr_req_flags), cls);
    }
    assert(slots_classified(Seq::<Seq<IeView>>::empty().push(opt_ie_seq(m.report_type)).push(opt_ie_seq(m.downlink_data_report)).push(ies_view(m.usage_reports@)).push(opt_ie_seq(m.error_indication_report)).push(opt_ie_seq(m.load_control_information)).push(opt_ie_seq(m.overload_control_information)).push(opt_ie_seq(m.additional_usage_reports_information)).push(opt_ie_seq(m.pfcpsr_req_flags)).push(opt_ie_seq(m.old_cp_fseid)), cls)) by {
        assert forall|k: int| 0 <= k < opt_ie_seq(m.old_cp_fseid).len() implies cls(#[trigger] opt_ie_seq(m.old_cp_fseid)[k].ie_type) == 8 by {
        }
        lemma_classified_push(Seq::<Seq<IeView>>::empty().push(opt_ie_seq(m.report_type)).push(opt_ie_seq(m.downlink_data_report)).push(ies_view(m.usage_reports@)).push(opt_ie_seq(m.error_indication_report)).push(opt_ie_seq(m.load_control_information)).push(opt_ie_seq(m.overload_control_information)).push(opt_ie_seq(m.additional_usage_reports_information)).push(opt_ie_seq(m.pfcpsr_req_flags)), opt_ie_seq(m.old_cp_fseid), cls);
    }
    assert(slots_classified(Seq::<Seq<IeView>>::empty().push(opt_ie_seq(m.report_type)).push(opt_ie_seq(m.downlink_data_report)).push(ies_view(m.usage_reports@)).push(opt_ie_seq(m.error_indication_report)).push(opt_ie_seq(m.load_control_information)).push(opt_ie_seq(m.overload_control_information)).push(opt_ie_seq(m.additional_usage_reports_information)).push(opt_ie_seq(m.pfcpsr_req_flags)).push(opt_ie_seq(m.old_cp_fseid)).push(ies_view(m.packet_rate_status_reports@)), cls)) by {
        assert forall|k: int| 0 <= k < ies_view(m.packet_rate_status_reports@).len() implies cls(#[trigger] ies_view(m.packet_rate_status_reports@)[k].ie_type) == 9 by {
            assert(ies_view(m.packet_rate_status_reports@)[k] == m.packet_rate_status_reports@[k]@);
        }
        lemma_classified_push(Seq::<Seq<IeView>>::empty().push(opt_ie_seq(m.report_type)).push(opt_ie_seq(m.downlink_data_report)).push(ies_view(m.usage_reports@)).push(opt_ie_seq(m.error_indication_report)).push(opt_ie_seq(m.load_control_information)).push(opt_ie_seq(m.overload_control_information)).push(opt_ie_seq(m.additional_usage_reports_information)).push(opt_ie_seq(m.pfcpsr_req_flags)).push(opt_ie_seq(m.old_cp_fseid)), ies_view(m.packet_rate_status_reports@), cls);
    }
    assert(slots_classified(Seq::<Seq<IeView>>::empty().push(opt_ie_seq(m.report_type)).push(opt_ie_seq(m.downlink_data_report)).push(ies_view(m.usage_reports@)).push(opt_ie_seq(m.error_indication_report)).push(opt_ie_seq(m.load_control_information)).push(opt_ie_seq(m.overload_control_information)).push(opt_ie_seq(m.additional_usage_reports_information)).push(opt_ie_seq(m.pfcpsr_req_flags)).push(opt_ie_seq(m.old_cp_fseid)).push(ies_view(m.packet_rate_status_reports@)).push(ies_view(m.ies@)), cls)) by {
        assert forall|k: int| 0 <= k < ies_view(m.ies@).len() implies cls(#[trigger] ies_view(m.ies@)[k].ie_type) == 10 by {
            assert(ies_view(m.ies@)[k] == m.ies@[k]@);
        }
        lemma_classified_push(Seq::<Seq<IeView>>::empty().push(opt_ie_seq(m.report_type)).push(opt_ie_seq(m.downlink_data_report)).push(ies_view(m.usage_reports@)).push(opt_ie_seq(m.error_indication_report)).push(opt_ie_seq(m.load_control_information)).push(opt_ie_seq(m.overload_control_information)).push(opt_ie_seq(m.additional_usage_reports_information)).push(opt_ie_seq(m.pfcpsr_req_flags)).push(opt_ie_seq(m.old_cp_fseid)).push(ies_view(m.packet_rate_status_reports@)), ies_view(m.ies@), cls);
    }
    assert(m.slots() == Seq::<Seq<IeView>>::empty().push(opt_ie_seq(m.report_type)).push(opt_ie_seq(m.downlink_data_report)).push(ies_view(m.usage_reports@)).push(opt_ie_seq(m.error_indication_report)).push(opt_ie_seq(m.load_control_information)).push(opt_ie_seq(m.overload_control_information)).push(opt_ie_seq(m.additional_usage_reports_information)).push(opt_ie_seq(m.pfcpsr_req_flags)).push(opt_ie_seq(m.old_cp_fseid)).push(ies_view(m.packet_rate_status_reports@)).push(ies_view(m.ies@)));
}

/// When every IE is in the field named for its type, the IEs of each field's type
/// in that field are the whole field.
proof fn lemma_session_report_request_fields_of_their_type(m: SessionReportRequest)
    requires
        m.fields_hold_their_types(),
    ensures
        ies_of_type(opt_ie_seq(m.report_type), IeType::ReportType) == opt_ie_seq(m.report_type),
        ies_of_type(opt_ie_seq(m.downlink_data_report), IeType::DownlinkDataReport) == opt_ie_seq(m.downlink_data_report),
        ies_of_type(ies_view(m.usage_reports@), IeType::UsageReportWithinSessionReportRequest) == ies_view(m.usage_reports@),
        ies_of_type(opt_ie_seq(m.error_indication_report), IeType::ErrorIndicationReport) == opt_ie_seq(m.error_indication_report),
        ies_of_type(opt_ie_seq(m.load_control_information), IeType::LoadControlInformation) == opt_ie_seq(m.load_control_information),
        ies_of_type(opt_ie_seq(m.overload_control_information), IeType::OverloadControlInformation) == opt_ie_seq(m.overload_control_information),
        ies_of_type(opt_ie_seq(m.additional_usage_reports_information), IeType::AdditionalUsageReportsInformation) == opt_ie_seq(m.additional_usage_reports_information),
        ies_of_type(opt_ie_seq(m.pfcpsr_req_flags), IeType::PfcpsrReqFlags) == opt_ie_seq(m.pfcpsr_req_flags),
        ies_of_type(opt_ie_seq(m.old_cp_fseid), IeType::Fseid) == opt_ie_seq(m.old_cp_fseid),
        ies_of_type(ies_view(m.packet_rate_status_reports@), IeType::PacketRateStatusReport) == ies_view(m.packet_rate_status_reports@),
{
    reveal(SessionReportRequest::fields_hold_their_types);
    assert(ies_of_type(opt_ie_seq(m.report_type), IeType::ReportType) == opt_ie_seq(m.report_type)) by {
        assert forall|k: int| 0 <= k < opt_ie_seq(m.report_type).len() implies (#[trigger] opt_ie_seq(m.report_type)[k]).ie_type == IeType::ReportType by {
        }
        lemma_of_type_all(opt_ie_seq(m.report_type), IeType::ReportType);
    }
    assert(ies_of_type(opt_ie_seq(m.downlink_data_report), IeType::DownlinkDataReport) == opt_ie_seq(m.downlink_data_report)) by {
        assert forall|k: int| 0 <= k < opt_ie_seq(m.downlink_data_report).len() implies (#[trigger] opt_ie_seq(m.downlink_data_report)[k]).ie_type == IeType::DownlinkDataReport by {
        }
        lemma_of_type_all(opt_ie_seq(m.downlink_data_report), IeType::DownlinkDataReport);
    }
    assert(ies_of_type(ies_view(m.usage_reports@), IeType::UsageReportWithinSessionReportRequest) == ies_view(m.usage_reports@)) by {
        assert forall|k: int| 0 <= k < ies_view(m.usage_reports@).len() implies (#[trigger] ies_view(m.usage_reports@)[k]).ie_type == IeType::UsageReportWithinSessionReportRequest by {
            assert(ies_view(m.usage_reports@)[k] == m.usage_reports@[k]@);
        }
        lemma_of_type_all(ies_view(m.usage_reports@), IeType::UsageReportWithinSessionReportRequest);
    }
    assert(ies_of_type(opt_ie_seq(m.error_indication_report), IeType::ErrorIndicationReport) == opt_ie_seq(m.error_indication_report)) by {
        assert forall|k: int| 0 <= k < opt_ie_seq(m.error_indication_report).len() implies (#[trigger] opt_ie_seq(m.error_indication_report)[k]).ie_type == IeType::ErrorIndicationReport by {
        }
        lemma_of_type_all(opt_ie_seq(m.error_indication_report), IeType::ErrorIndicationReport);
    }
    assert(ies_of_type(opt_ie_seq(m.load_control_information), IeType::LoadControlInformation) == opt_ie_seq(m.load_control_information)) by {
        assert forall|k: int| 0 <= k < opt_ie_seq(m.load_control_information).len() implies (#[trigger] opt_ie_seq(m.load_control_information)[k]).ie_type == IeType::LoadControlInformation by {
        }
        lemma_of_type_all(opt_ie_seq(m.load_control_information), IeType::LoadControlInformation);
    }
    assert(ies_of_type(opt_ie_seq(m.overload_control_information), IeType::OverloadControlInformation) == opt_ie_seq(m.overload_control_information)) by {
        assert forall|k: int| 0 <= k < opt_ie_seq(m.overload_control_information).len() implies (#[trigger] opt_ie_seq(m.overload_control_information)[k]).ie_type == IeType::OverloadControlInformation by {
        }
        lemma_of_type_all(opt_ie_seq(m.overload_control_information), IeType::OverloadControlInformation);
    }
    assert(ies_of_type(opt_ie_seq(m.additional_usage_reports_information), IeType::AdditionalUsageReportsInformation) == opt_ie_seq(m.additional_usage_reports_information)) by {
        assert forall|k: int| 0 <= k < opt_ie_seq(m.additional_usage_reports_information).len() implies (#[trigger] opt_ie_seq(m.additional_usage_reports_information)[k]).ie_type == IeType::AdditionalUsageReportsInformation by {
        }
        lemma_of_type_all(opt_ie_seq(m.additional_usage_reports_information), IeType::AdditionalUsageReportsInformation);
    }
    assert(ies_of_type(opt_ie_seq(m.pfcpsr_req_flags), IeType::PfcpsrReqFlags) == opt_ie_seq(m.pfcpsr_req_flags)) by {
        assert forall|k: int| 0 <= k < opt_ie_seq(m.pfcpsr_req_flags).len() implies (#[trigger] opt_ie_seq(m.pfcpsr_req_flags)[k]).ie_type == IeType::PfcpsrReqFlags by {
        }
        lemma_of_type_all(opt_ie_seq(m.pfcpsr_req_flags), IeType::PfcpsrReqFlags);
    }
    assert(ies_of_type(opt_ie_seq(m.old_cp_fseid), IeType::Fseid) == opt_ie_seq(m.old_cp_fseid)) by {
        assert forall|k: int| 0 <= k < opt_ie_seq(m.old_cp_fseid).len() implies (#[trigger] opt_ie_seq(m.old_cp_fseid)[k]).ie_type == IeType::Fseid by {
        }
        lemma_of_type_all(opt_ie_seq(m.old_cp_fseid), IeType::Fseid);
    }
    assert(ies_of_type(ies_view(m.packet_rate_status_reports@), IeType::PacketRateStatusReport) == ies_view(m.packet_rate_status_reports@)) by {
        assert forall|k: int| 0 <= k < ies_view(m.packet_rate_status_reports@).len() implies (#[trigger] ies_view(m.packet_rate_status_reports@)[k]).ie_type == IeType::PacketRateStatusReport by {
            assert(ies_view(m.packet_rate_status_reports@)[k] == m.packet_rate_status_reports@[k]@);
        }
        lemma_of_type_all(ies_view(m.packet_rate_status_reports@), IeType::PacketRateStatusReport);
    }
}

/// Looking up the IEs of a type gives exactly the message's IEs of that type, in
/// wire order, when every IE is in the field named for its type.
#[verifier::spinoff_prover]
pub proof fn lemma_session_report_request_lookup_by_type(m: SessionReportRequest, t: IeType)
    requires
        m.fields_hold_their_types(),
    ensures
        m.spec_ies_of(t) == ies_of_type(m.spec_body(), t),
        forall|k: int| 0 <= k < m.spec_ies_of(t).len() ==> (#[trigger] m.spec_ies_of(t)[k]).ie_type == t,
{
    let cls = SessionReportRequest::classifier();
    lemma_session_report_request_fields_classified(m);
    lemma_of_type_classified(m.slots(), cls, t);
    lemma_session_report_request_fields_of_their_type(m);
    match t {
        IeType::ReportType => {
            assert(m.slots()[0] == opt_ie_seq(m.report_type));
        },
        IeType::DownlinkDataReport => {
            assert(m.slots()[1] == opt_ie_seq(m.downlink_data_report));
        },
        IeType::UsageReportWithinSessionReportRequest => {
            assert(m.slots()[2] == ies_view(m.usage_reports@));
        },
        IeType::ErrorIndicationReport => {
            assert(m.slots()[3] == opt_ie_seq(m.error_indication_report));
        },
        IeType::LoadControlInformation => {
            assert(m.slots()[4] == opt_ie_seq(m.load_control_information));
        },
        IeType::OverloadControlInformation => {
            assert(m.slots()[5] == opt_ie_seq(m.overload_control_information));
        },
        IeType::AdditionalUsageReportsInformation => {
            assert(m.slots()[6] == opt_ie_seq(m.additional_usage_reports_information));
        },
        IeType::PfcpsrReqFlags => {
            assert(m.slots()[7] == opt_ie_seq(m.pfcpsr_req_flags));
        },
        IeType::Fseid => {
            assert(m.slots()[8] == opt_ie_seq(m.old_cp_fseid));
        },
        IeType::PacketRateStatusReport => {
            assert(m.slots()[9] == ies_view(m.packet_rate_status_reports@));
        },
        _ => {
            assert(m.slots()[10] == ies_view(m.ies@));
        },
    }
    lemma_of_type_types(m.spec_body(), t);
}

} // verus!
