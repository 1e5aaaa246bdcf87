use rs_pfcp::error::PfcpError;
use rs_pfcp::ie::cause::{Cause, CauseValue};
use rs_pfcp::ie::fseid::Fseid;
use rs_pfcp::ie::node_id::NodeId;
use rs_pfcp::ie::node_report_type::NodeReportType;
use rs_pfcp::ie::recovery_time_stamp::RecoveryTimeStamp;
use rs_pfcp::ie::{Ie, IeType};
use rs_pfcp::message::association_release_request::AssociationReleaseRequest;
use rs_pfcp::message::association_setup_response::AssociationSetupResponse;
use rs_pfcp::message::association_setup_request::AssociationSetupRequestBuilder;
use rs_pfcp::message::display::{calendar_of_unix_seconds, report_type_name};
use rs_pfcp::message::header::Header;
use rs_pfcp::message::heartbeat_request::HeartbeatRequestBuilder;
use rs_pfcp::message::node_report_request::NodeReportRequest;
use rs_pfcp::message::session_deletion_request::SessionDeletionRequestBuilder;
use rs_pfcp::message::session_establishment_response::SessionEstablishmentResponseBuilder;
use rs_pfcp::message::session_modification_request::{SessionModificationRequest, SessionModificationRequestBuilder};
use rs_pfcp::message::{parse, IeIter, Message, MsgType, ParsedMessage};
use std::time::{Duration, SystemTime};

fn node_ie() -> Ie {
    NodeId::new_ipv4([10, 0, 0, 1]).to_ie()
}

#[test]
fn header_roundtrip_with_and_without_seid() {
    let mut h = Header::new(MsgType::SessionDeletionRequest, true, 0x0102030405060708, 0x00ABCDEF);
    h.length = 12;
    h.message_priority = 3;
    let bytes = h.marshal();
    assert_eq!(bytes, vec![0x21, 54, 0, 12, 1, 2, 3, 4, 5, 6, 7, 8, 0xAB, 0xCD, 0xEF, 3]);
    assert_eq!(Header::unmarshal(&bytes).unwrap(), h);
    let plain = Header::new(MsgType::HeartbeatRequest, false, 0, 7);
    assert_eq!(plain.marshal(), vec![0x20, 1, 0, 0, 0, 0, 7, 0]);
    assert_eq!(Header::unmarshal(&plain.marshal()).unwrap(), plain);
}

#[test]
fn header_unknown_type_keeps_its_code() {
    assert!(Header::new_unknown(1, false, 0, 1).is_err());
    let h = Header::new_unknown(99, false, 0, 1).unwrap();
    assert_eq!(h.message_type, MsgType::Unknown);
    assert_eq!(h.message_type_code(), 99);
    let back = Header::unmarshal(&h.marshal()).unwrap();
    assert_eq!(back.message_type_code(), 99);
}

#[test]
fn header_short_input_errors() {
    assert_eq!(
        Header::unmarshal(&[0x21, 50, 0, 0, 0, 0, 0, 0, 0, 0]),
        Err(PfcpError::MessageParseError { message_type: Some(MsgType::SessionEstablishmentRequest), expected: 12, actual: 10 })
    );
    assert_eq!(
        Header::unmarshal(&[0x20]),
        Err(PfcpError::MessageParseError { message_type: None, expected: 8, actual: 1 })
    );
}

#[test]
fn msg_type_codes_roundtrip() {
    for code in 0u8..=255 {
        let t = MsgType::from(code);
        if t != MsgType::Unknown {
            assert_eq!(t.code(), code);
        }
    }
    assert_eq!(MsgType::SessionReportResponse.name(), "SessionReportResponse");
}

#[test]
fn message_length_covers_ies() {
    let ts = RecoveryTimeStamp::new(SystemTime::UNIX_EPOCH).to_ie();
    let msg = HeartbeatRequestBuilder::new(5).recovery_time_stamp_ie(ts).build();
    let bytes = msg.marshal();
    assert_eq!(bytes.len(), 16);
    assert_eq!(u16::from_be_bytes([bytes[2], bytes[3]]) as usize, bytes.len() - 4);
    assert_eq!(msg.marshaled_size(), 16);
}

#[test]
fn decoding_the_wire_form_gives_the_message_back() {
    let msg = SessionModificationRequestBuilder::new(0x55, 9)
        .fseid(Fseid::new(0x66, Some([10, 1, 1, 1]), None))
        .create_pdrs(vec![Ie::new(IeType::CreatePdr, vec![1]), Ie::new(IeType::CreatePdr, vec![2])])
        .update_fars(vec![Ie::new(IeType::UpdateFar, vec![3])])
        .pdn_type(Ie::new(IeType::PdnType, vec![1]))
        .ies(vec![Ie::new(IeType::Unknown, vec![4])])
        .build();
    let back = SessionModificationRequest::unmarshal(&msg.marshal()).unwrap();
    assert_eq!(back, msg);
}

#[test]
fn parse_dispatches_on_the_header_type() {
    let bytes = SessionEstablishmentResponseBuilder::accepted(0xABC, 77)
        .node_id_ie(node_ie())
        .fseid(Fseid::new(0xABC, Some([10, 0, 0, 2]), None))
        .marshal()
        .unwrap();
    match parse(&bytes).unwrap() {
        ParsedMessage::SessionEstablishmentResponse(m) => {
            assert_eq!(m.sequence(), 77);
            assert_eq!(m.cause().unwrap(), Cause::new(CauseValue::RequestAccepted));
        }
        other => panic!("unexpected {:?}", other.msg_type()),
    }
    let mut unknown = Header::new_unknown(120, false, 0, 4).unwrap();
    unknown.length = 4;
    let parsed = parse(&unknown.marshal()).unwrap();
    assert!(matches!(parsed, ParsedMessage::Generic(_)));
    assert_eq!(parsed.msg_type(), MsgType::Unknown);
}

#[test]
fn parse_reports_missing_mandatory_ie() {
    let header = Header::new(MsgType::AssociationReleaseRequest, false, 0, 1);
    let mut bytes = header.marshal();
    bytes[3] = 4;
    assert_eq!(
        parse(&bytes).unwrap_err(),
        PfcpError::MissingMandatoryIe { ie_type: IeType::NodeId, message_type: Some(MsgType::AssociationReleaseRequest) }
    );
}

#[test]
fn set_sequence_changes_only_the_sequence() {
    let mut msg = AssociationReleaseRequest::new(1, node_ie());
    let before = msg.clone();
    msg.set_sequence(42);
    assert_eq!(msg.sequence(), 42);
    assert_eq!(msg.all_ies(), before.all_ies());
    assert_eq!(msg.header.length, before.header.length);
}

#[test]
fn release_request_drops_ies_of_other_types() {
    let mut bytes = AssociationReleaseRequest::new(3, node_ie()).marshal();
    bytes.extend(Ie::new(IeType::Cause, vec![1]).marshal());
    let msg = AssociationReleaseRequest::unmarshal(&bytes).unwrap();
    assert_eq!(msg.all_ies().len(), 1);
    assert!(msg.find_ie(IeType::Cause).is_none());
}

#[test]
fn last_single_ie_wins_when_repeated() {
    let cause_a = Cause::new(CauseValue::RequestAccepted).to_ie();
    let cause_b = Cause::new(CauseValue::RequestRejected).to_ie();
    let msg = AssociationSetupResponse::new(1, cause_a, node_ie(), None, None, None, vec![cause_b.clone()]);
    let back = AssociationSetupResponse::unmarshal(&msg.marshal()).unwrap();
    assert_eq!(back.cause, cause_b);
    assert!(back.ies.is_empty());
}

#[test]
fn all_ies_lists_fseid_before_offending_ie() {
    let msg = SessionEstablishmentResponseBuilder::rejected(1, 2)
        .node_id_ie(node_ie())
        .fseid_ie(Fseid::new(1, Some([1, 1, 1, 1]), None).to_ie())
        .offending_ie(Ie::new(IeType::OffendingIe, vec![0, 57]))
        .build()
        .unwrap();
    let listed: Vec<IeType> = msg.all_ies().iter().map(|ie| ie.ie_type).collect();
    assert_eq!(listed, vec![IeType::NodeId, IeType::Cause, IeType::Fseid, IeType::OffendingIe]);
    let wire = msg.marshal();
    assert_eq!(u16::from_be_bytes([wire[16 + 4 + 5 + 5], wire[16 + 4 + 5 + 5 + 1]]), IeType::OffendingIe.code());
}

#[test]
fn deletion_request_tl_containers_are_found() {
    let tl = Ie::new(IeType::TlContainer, vec![1]);
    let msg = SessionDeletionRequestBuilder::new(1, 1).tl_container(tl.clone()).build();
    assert_eq!(msg.tl_container.len(), 1);
    assert_eq!(msg.find_ie(IeType::TlContainer), Some(&tl));
    assert_eq!(msg.ies(IeType::TlContainer).collect(), vec![&tl]);
    assert_eq!(msg.find_all_ies(IeType::TlContainer), vec![&tl]);
    assert_eq!(msg.all_ies().len(), 1);
}

#[test]
fn node_report_request_roundtrip_and_first_wins() {
    let report_type = NodeReportType::new(NodeReportType::UPFR);
    let msg = NodeReportRequest::builder(8)
        .node_id(NodeId::new_fqdn("smf.example"))
        .node_report_type(report_type)
        .user_plane_path_failure_report(Ie::new(IeType::UserPlanePathFailureReport, vec![1]))
        .clock_drift_report(Ie::new(IeType::ClockDriftReport, vec![2]))
        .ie(NodeId::new_ipv4([9, 9, 9, 9]).to_ie())
        .build()
        .unwrap();
    let back = NodeReportRequest::unmarshal(&msg.marshal()).unwrap();
    assert_eq!(back, msg);
    assert_eq!(back.node_id(), &NodeId::new_fqdn("smf.example"));
    assert_eq!(back.node_report_type(), report_type);
    assert_eq!(back.ies.len(), 1);
    assert_eq!(back.find_ie(IeType::NodeId).unwrap().payload[0], 2);
    assert!(matches!(parse(&msg.marshal()).unwrap(), ParsedMessage::NodeReportRequest(_)));
}

#[test]
fn node_report_request_errors() {
    assert_eq!(
        NodeReportRequest::builder(1).build().unwrap_err(),
        PfcpError::MissingMandatoryIe { ie_type: IeType::NodeId, message_type: Some(MsgType::NodeReportRequest) }
    );
    assert_eq!(
        NodeReportRequest::builder(1).node_id(NodeId::new_ipv4([1, 2, 3, 4])).build().unwrap_err(),
        PfcpError::MissingMandatoryIe { ie_type: IeType::NodeReportType, message_type: Some(MsgType::NodeReportRequest) }
    );
    let mut header = Header::new(MsgType::NodeReportRequest, false, 0, 1);
    let body = Ie::new(IeType::NodeId, vec![9]).marshal();
    header.length = 4 + body.len() as u16;
    let mut bytes = header.marshal();
    bytes.extend(body);
    assert!(matches!(NodeReportRequest::unmarshal(&bytes), Err(PfcpError::InvalidValue { .. })));
}

#[test]
fn calendar_fields_of_unix_seconds() {
    let c = calendar_of_unix_seconds(1_000_000_000);
    assert_eq!((c.year, c.month, c.day, c.hour, c.minute, c.second), (2001, 9, 12, 1, 46, 40));
    let c = calendar_of_unix_seconds(1_700_000_000);
    assert_eq!((c.year, c.month, c.day, c.hour, c.minute, c.second), (2023, 11, 18, 22, 13, 20));
    let c = calendar_of_unix_seconds(0);
    assert_eq!((c.year, c.month, c.day), (1970, 1, 1));
    let c = calendar_of_unix_seconds(31_536_000);
    assert_eq!((c.year, c.month, c.day), (1971, 1, 1));
    let ts = RecoveryTimeStamp::new(SystemTime::UNIX_EPOCH + Duration::from_secs(86_399));
    let c = calendar_of_unix_seconds(ts.unix_seconds());
    assert_eq!((c.hour, c.minute, c.second), (23, 59, 59));
}

#[test]
fn iterator_size_hints_follow_the_construction() {
    let ie = Ie::new(IeType::Cause, vec![0x01]);
    let mut it = IeIter::single(Some(&ie), IeType::Cause);
    assert_eq!(it.size_hint(), (1, Some(1)));
    assert_eq!(it.next(), Some(&ie));
    assert_eq!(it.next(), None);
    assert_eq!(IeIter::single(None, IeType::PdnType).size_hint(), (0, Some(0)));
    let ies = vec![
        Ie::new(IeType::CreatePdr, vec![1]),
        Ie::new(IeType::CreatePdr, vec![2]),
        Ie::new(IeType::CreatePdr, vec![3]),
    ];
    assert_eq!(IeIter::multiple(&ies, IeType::CreatePdr).size_hint(), (3, Some(3)));
    assert_eq!(IeIter::generic(&ies, IeType::CreatePdr).size_hint(), (0, Some(3)));
}

#[test]
fn report_type_names() {
    assert_eq!(report_type_name(&[0x02]), Some("USAR (Usage Report)"));
    assert_eq!(report_type_name(&[0x08, 0xff]), Some("UPIR (User Plane Inactivity Report)"));
    assert_eq!(report_type_name(&[0x03]), Some("Unknown"));
    assert_eq!(report_type_name(&[]), None);
}

#[test]
fn recovery_time_stamp_setter_uses_the_given_time() {
    let t = SystemTime::UNIX_EPOCH + Duration::from_secs(1_700_000_000);
    let msg = AssociationSetupRequestBuilder::new(1)
        .node_id(NodeId::new_ipv4([10, 0, 0, 1]))
        .recovery_time_stamp(t)
        .build();
    assert_eq!(msg.recovery_time_stamp, RecoveryTimeStamp::new(t).to_ie());
    assert_eq!(RecoveryTimeStamp::new(t).timestamp(), t);
    assert_eq!(RecoveryTimeStamp::from_unix_seconds(1_700_000_000).timestamp(), t);
}
