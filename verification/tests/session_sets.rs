use rs_pfcp::error::PfcpError;
use rs_pfcp::ie::cause::CauseValue;
use rs_pfcp::ie::node_id::NodeId;
use rs_pfcp::ie::{Ie, IeType};
use rs_pfcp::message::session_report_request::{SessionReportRequest, SessionReportRequestBuilder};
use rs_pfcp::message::session_report_response::{SessionReportResponse, SessionReportResponseBuilder};
use rs_pfcp::message::session_set_deletion_request::{SessionSetDeletionRequest, SessionSetDeletionRequestBuilder};
use rs_pfcp::message::session_set_deletion_response::SessionSetDeletionResponseBuilder;
use rs_pfcp::message::session_set_modification_request::SessionSetModificationRequestBuilder;
use rs_pfcp::message::session_set_modification_response::SessionSetModificationResponseBuilder;
use rs_pfcp::message::version_not_supported_response::{VersionNotSupportedResponse, VersionNotSupportedResponseBuilder};
use rs_pfcp::message::{parse, Message, MsgType, ParsedMessage};

#[test]
fn version_not_supported_response_roundtrip() {
    let msg = VersionNotSupportedResponseBuilder::new(5).build();
    let wire = msg.marshal();
    assert_eq!(wire.len(), 8);
    assert_eq!(wire[1], 11);
    assert_eq!(VersionNotSupportedResponse::unmarshal(&wire).unwrap(), msg);
    assert!(matches!(parse(&wire).unwrap(), ParsedMessage::VersionNotSupportedResponse(_)));
}

#[test]
fn session_set_deletion_request_needs_a_node_id() {
    assert_eq!(
        SessionSetDeletionRequestBuilder::new(1).build(),
        Err(PfcpError::MissingMandatoryIe { ie_type: IeType::NodeId, message_type: Some(MsgType::SessionSetDeletionRequest) })
    );
    let msg = SessionSetDeletionRequestBuilder::new(2)
        .node_id(NodeId::new_ipv4([10, 0, 0, 1]))
        .fq_csid(Ie::new(IeType::FqCsid, vec![0x01, 10, 0, 0, 1, 0, 7]))
        .build()
        .unwrap();
    let wire = msg.marshal();
    assert_eq!(SessionSetDeletionRequest::unmarshal(&wire).unwrap(), msg);
    match parse(&wire).unwrap() {
        ParsedMessage::SessionSetDeletionRequest(m) => assert_eq!(m.fq_csids.len(), 1),
        _ => panic!("wrong message type"),
    }
}

#[test]
fn session_set_responses_parse_as_their_types() {
    let del = SessionSetDeletionResponseBuilder::new(3)
        .node_id(NodeId::new_ipv4([10, 0, 0, 2]))
        .cause_accepted()
        .marshal()
        .unwrap();
    assert!(matches!(parse(&del).unwrap(), ParsedMessage::SessionSetDeletionResponse(_)));
    let modi = SessionSetModificationResponseBuilder::new(4)
        .node_id(NodeId::new_ipv4([10, 0, 0, 2]))
        .cause(CauseValue::RequestRejected)
        .marshal()
        .unwrap();
    assert!(matches!(parse(&modi).unwrap(), ParsedMessage::SessionSetModificationResponse(_)));
    let req = SessionSetModificationRequestBuilder::new(5)
        .alternative_smf_ip_address(Ie::new(IeType::AlternativeSmfIpAddress, vec![0x02, 10, 0, 0, 9]))
        .marshal()
        .unwrap();
    assert!(matches!(parse(&req).unwrap(), ParsedMessage::SessionSetModificationRequest(_)));
    assert_eq!(
        SessionSetModificationRequestBuilder::new(5).build().map(|m| m.sequence()),
        Err(PfcpError::MissingMandatoryIe {
            ie_type: IeType::AlternativeSmfIpAddress,
            message_type: Some(MsgType::SessionSetModificationRequest)
        })
    );
}

#[test]
fn session_report_request_keeps_its_reports() {
    let report = Ie::new(IeType::UsageReportWithinSessionReportRequest, vec![0, 81, 0, 4, 0, 0, 0, 1]);
    let msg = SessionReportRequestBuilder::new(0x77, 9)
        .report_type(Ie::new(IeType::ReportType, vec![0x02]))
        .usage_report(report.clone())
        .build();
    let wire = msg.marshal();
    let back = SessionReportRequest::unmarshal(&wire).unwrap();
    assert_eq!(back, msg);
    assert_eq!(back.seid(), Some(0x77));
    assert_eq!(back.find_all_ies(IeType::UsageReportWithinSessionReportRequest), vec![&report]);
}

#[test]
fn session_report_response_needs_a_cause() {
    let msg = SessionReportResponseBuilder::new(0x77, 9).cause_accepted().build().unwrap();
    let wire = msg.marshal();
    assert_eq!(SessionReportResponse::unmarshal(&wire).unwrap(), msg);
    let bare = SessionReportRequestBuilder::new(0x77, 9).build();
    let mut wrong = bare.marshal();
    wrong[1] = 57;
    assert_eq!(
        SessionReportResponse::unmarshal(&wrong),
        Err(PfcpError::MissingMandatoryIe { ie_type: IeType::Cause, message_type: Some(MsgType::SessionReportResponse) })
    );
}
