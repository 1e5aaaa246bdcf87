#![allow(unused_imports, deprecated, unused_variables, unused_mut)]
use rs_pfcp::error::{ErrorKind, PfcpError};
use rs_pfcp::ie::cause::{Cause, CauseValue};
use rs_pfcp::ie::fseid::Fseid;
use rs_pfcp::ie::node_id::NodeId;
use rs_pfcp::ie::offending_ie::OffendingIe;
use rs_pfcp::ie::pdn_type::PdnType;
use rs_pfcp::ie::recovery_time_stamp::RecoveryTimeStamp;
use rs_pfcp::ie::source_ip_address::SourceIpAddress;
use rs_pfcp::ie::{Ie, IeType};
use rs_pfcp::message::header::Header;
use rs_pfcp::message::{parse, Generic, IeIter, Message, MsgType, ParsedMessage};
use rs_pfcp::message::heartbeat_request::{HeartbeatRequest, HeartbeatRequestBuilder};
use rs_pfcp::message::heartbeat_response::{HeartbeatResponse, HeartbeatResponseBuilder};
use rs_pfcp::message::association_release_request::{AssociationReleaseRequest, AssociationReleaseRequestBuilder};
use rs_pfcp::message::association_release_response::{AssociationReleaseResponse, AssociationReleaseResponseBuilder};
use rs_pfcp::message::association_setup_request::{AssociationSetupRequest, AssociationSetupRequestBuilder};
use rs_pfcp::message::association_setup_response::{AssociationSetupResponse, AssociationSetupResponseBuilder};
use rs_pfcp::message::association_update_request::{AssociationUpdateRequest, AssociationUpdateRequestBuilder};
use rs_pfcp::message::association_update_response::{AssociationUpdateResponse, AssociationUpdateResponseBuilder};
use rs_pfcp::message::node_report_response::{NodeReportResponse, NodeReportResponseBuilder};
use rs_pfcp::message::pfd_management_response::{PfdManagementResponse, PfdManagementResponseBuilder};
use rs_pfcp::message::session_deletion_request::{SessionDeletionRequest, SessionDeletionRequestBuilder};
use rs_pfcp::message::session_deletion_response::{SessionDeletionResponse, SessionDeletionResponseBuilder};
use rs_pfcp::message::session_establishment_request::{SessionEstablishmentRequest, SessionEstablishmentRequestBuilder};
use rs_pfcp::message::session_establishment_response::{SessionEstablishmentResponse, SessionEstablishmentResponseBuilder};
use rs_pfcp::message::session_modification_request::{SessionModificationRequest, SessionModificationRequestBuilder};
use rs_pfcp::message::session_modification_response::{SessionModificationResponse, SessionModificationResponseBuilder};
use rs_pfcp::message::version_not_supported_response::{VersionNotSupportedResponse, VersionNotSupportedResponseBuilder};
use rs_pfcp::message::session_set_deletion_request::{SessionSetDeletionRequest, SessionSetDeletionRequestBuilder};
use rs_pfcp::message::session_set_deletion_response::{SessionSetDeletionResponse, SessionSetDeletionResponseBuilder};
use rs_pfcp::message::session_set_modification_request::{SessionSetModificationRequest, SessionSetModificationRequestBuilder};
use rs_pfcp::message::session_set_modification_response::{SessionSetModificationResponse, SessionSetModificationResponseBuilder};
use rs_pfcp::message::session_report_request::{SessionReportRequest, SessionReportRequestBuilder};
use rs_pfcp::message::session_report_response::{SessionReportResponse, SessionReportResponseBuilder};
use rs_pfcp::ie::application_id::ApplicationId;
use rs_pfcp::ie::application_ids_pfds::ApplicationIdsPfds;
use rs_pfcp::ie::pfd_context::PfdContext;
use rs_pfcp::message::pfd_management_request::{PfdManagementRequest, PfdManagementRequestBuilder};
use rs_pfcp::ie::node_report_type::NodeReportType;
use rs_pfcp::message::node_report_request::{NodeReportRequest, NodeReportRequestBuilder};
use std::time::SystemTime;

#[test]
fn test_session_modification_response_builder_minimal() {
    let cause = Cause::new(CauseValue::RequestAccepted);
    let cause_ie = Ie::new(IeType::Cause, cause.marshal().to_vec());

    let response = SessionModificationResponseBuilder::new(12345, 67890)
        .cause_ie(cause_ie.clone())
        .build();

    assert_eq!(response.sequence(), 67890);
    assert_eq!(response.seid(), Some(12345));
    assert_eq!(response.msg_type(), MsgType::SessionModificationResponse);
    assert_eq!(response.cause, cause_ie);
    assert!(response.offending_ie.is_none());
    assert!(response.created_pdr.is_none());
    assert!(response.pdn_type.is_none());
    assert!(response.ies.is_empty());
}

#[test]
fn test_session_modification_response_builder_with_offending_ie() {
    let cause = Cause::new(CauseValue::MandatoryIeMissing);
    let cause_ie = Ie::new(IeType::Cause, cause.marshal().to_vec());

    let offending_ie = Ie::new(IeType::OffendingIe, vec![0x00, 0x01]);

    let response = SessionModificationResponseBuilder::new(11111, 22222)
        .cause_ie(cause_ie.clone())
        .offending_ie(offending_ie.clone())
        .build();

    assert_eq!(response.sequence(), 22222);
    assert_eq!(response.seid(), Some(11111));
    assert_eq!(response.cause, cause_ie);
    assert_eq!(response.offending_ie, Some(offending_ie));
    assert!(response.created_pdr.is_none());
    assert!(response.pdn_type.is_none());
}

#[test]
fn test_session_modification_response_builder_with_created_pdr() {
    let cause = Cause::new(CauseValue::RequestAccepted);
    let cause_ie = Ie::new(IeType::Cause, cause.marshal().to_vec());

    let created_pdr_ie = Ie::new(IeType::CreatedPdr, vec![0x01, 0x02, 0x03, 0x04]);

    let response = SessionModificationResponseBuilder::new(33333, 44444)
        .cause_ie(cause_ie.clone())
        .created_pdr(created_pdr_ie.clone())
        .build();

    assert_eq!(response.sequence(), 44444);
    assert_eq!(response.seid(), Some(33333));
    assert_eq!(response.cause, cause_ie);
    assert_eq!(response.created_pdr, Some(created_pdr_ie));
    assert!(response.offending_ie.is_none());
    assert!(response.pdn_type.is_none());
}

#[test]
fn test_session_modification_response_builder_with_pdn_type() {
    let cause = Cause::new(CauseValue::RequestAccepted);
    let cause_ie = Ie::new(IeType::Cause, cause.marshal().to_vec());

    let pdn_type_ie = Ie::new(IeType::PdnType, vec![0x01]); // IPv4

    let response = SessionModificationResponseBuilder::new(55555, 66666)
        .cause_ie(cause_ie.clone())
        .pdn_type(pdn_type_ie.clone())
        .build();

    assert_eq!(response.sequence(), 66666);
    assert_eq!(response.seid(), Some(55555));
    assert_eq!(response.cause, cause_ie);
    assert_eq!(response.pdn_type, Some(pdn_type_ie));
    assert!(response.offending_ie.is_none());
    assert!(response.created_pdr.is_none());
}

#[test]
fn test_session_modification_response_builder_with_additional_ies() {
    let cause = Cause::new(CauseValue::RequestAccepted);
    let cause_ie = Ie::new(IeType::Cause, cause.marshal().to_vec());

    let ie1 = Ie::new(IeType::Unknown, vec![0xAA, 0xBB]);
    let ie2 = Ie::new(IeType::Unknown, vec![0xCC, 0xDD]);
    let ie3 = Ie::new(IeType::Unknown, vec![0xEE, 0xFF]);

    let response = SessionModificationResponseBuilder::new(77777, 88888)
        .cause_ie(cause_ie.clone())
        .ie(ie1.clone())
        .ies(vec![ie2.clone(), ie3.clone()])
        .build();

    assert_eq!(response.sequence(), 88888);
    assert_eq!(response.seid(), Some(77777));
    assert_eq!(response.cause, cause_ie);
    assert_eq!(response.ies.len(), 3);
    assert_eq!(response.ies[0], ie1);
    assert_eq!(response.ies[1], ie2);
    assert_eq!(response.ies[2], ie3);
}

#[test]
fn test_session_modification_response_builder_full() {
    let cause = Cause::new(CauseValue::RequestAccepted);
    let cause_ie = Ie::new(IeType::Cause, cause.marshal().to_vec());

    let created_pdr_ie = Ie::new(IeType::CreatedPdr, vec![0x01, 0x02, 0x03]);
    let pdn_type_ie = Ie::new(IeType::PdnType, vec![0x02]); // IPv6
    let additional_ie = Ie::new(IeType::Unknown, vec![0xFF, 0xEE, 0xDD]);

    let response = SessionModificationResponseBuilder::new(99999, 11110)
        .cause_ie(cause_ie.clone())
        .created_pdr(created_pdr_ie.clone())
        .pdn_type(pdn_type_ie.clone())
        .ie(additional_ie.clone())
        .build();

    assert_eq!(response.sequence(), 11110);
    assert_eq!(response.seid(), Some(99999));
    assert_eq!(response.cause, cause_ie);
    assert_eq!(response.created_pdr, Some(created_pdr_ie));
    assert_eq!(response.pdn_type, Some(pdn_type_ie));
    assert_eq!(response.ies.len(), 1);
    assert_eq!(response.ies[0], additional_ie);
}

#[test]
fn test_session_modification_response_builder_try_build_success() {
    let cause = Cause::new(CauseValue::RequestAccepted);
    let cause_ie = Ie::new(IeType::Cause, cause.marshal().to_vec());

    let result = SessionModificationResponseBuilder::new(12345, 67890)
        .cause_ie(cause_ie.clone())
        .try_build();

    assert!(result.is_ok());
    let response = result.unwrap();
    assert_eq!(response.sequence(), 67890);
    assert_eq!(response.seid(), Some(12345));
    assert_eq!(response.cause, cause_ie);
}

#[test]
fn test_session_modification_response_builder_try_build_missing_cause() {
    let result = SessionModificationResponseBuilder::new(12345, 67890).try_build();

    assert!(result.is_err());
    assert_eq!(
        result.unwrap_err(),
        "Cause IE is required for SessionModificationResponse"
    );
}

#[test]
fn test_session_modification_response_builder_roundtrip() {
    let cause = Cause::new(CauseValue::RuleCreationModificationFailure);
    let cause_ie = Ie::new(IeType::Cause, cause.marshal().to_vec());

    let offending_ie = Ie::new(IeType::OffendingIe, vec![0x12, 0x34]);
    let created_pdr_ie = Ie::new(IeType::CreatedPdr, vec![0xAB, 0xCD, 0xEF]);

    let original = SessionModificationResponseBuilder::new(12345, 67890)
        .cause_ie(cause_ie)
        .offending_ie(offending_ie)
        .created_pdr(created_pdr_ie)
        .build();

    let marshaled = original.marshal();
    let unmarshaled = SessionModificationResponse::unmarshal(&marshaled).unwrap();

    assert_eq!(original, unmarshaled);
}

/// The members of a usage report: URR ID, UR-SEQN and Usage Report Trigger,
/// then a volume measurement (total, uplink, downlink) and a duration
/// measurement when given.
fn usage_report_members(urr_id: u32, seq: u32, trigger: [u8; 3], volume: Option<(u64, u64, u64)>, duration: Option<u32>) -> Vec<u8> {
    let mut p = vec![0, 81, 0, 4];
    p.extend_from_slice(&urr_id.to_be_bytes());
    p.extend_from_slice(&[0, 104, 0, 4]);
    p.extend_from_slice(&seq.to_be_bytes());
    p.extend_from_slice(&[0, 63, 0, 3]);
    p.extend_from_slice(&trigger);
    if let Some((total, ul, dl)) = volume {
        p.extend_from_slice(&[0, 66, 0, 25, 0x07]);
        p.extend_from_slice(&total.to_be_bytes());
        p.extend_from_slice(&ul.to_be_bytes());
        p.extend_from_slice(&dl.to_be_bytes());
    }
    if let Some(d) = duration {
        p.extend_from_slice(&[0, 67, 0, 4]);
        p.extend_from_slice(&d.to_be_bytes());
    }
    p
}

#[test]
fn test_session_modification_response_with_usage_reports() {
    // A quota-exhausted usage report with volume data
    let usage_report_ie = Ie::new(
        IeType::UsageReportWithinSessionModificationResponse,
        usage_report_members(1, 100, [0x00, 0x00, 0x40], Some((5000000, 3000000, 2000000)), None),
    );

    assert_eq!(usage_report_ie.ie_type, IeType::UsageReportWithinSessionModificationResponse);

    let response = SessionModificationResponseBuilder::new(12345, 67890)
        .cause_accepted()
        .usage_report(usage_report_ie.clone())
        .build();

    assert_eq!(response.usage_reports.len(), 1);
    assert_eq!(response.usage_reports[0], usage_report_ie);
    assert_eq!(
        response
            .ies(IeType::UsageReportWithinSessionModificationResponse)
            .next(),
        Some(&usage_report_ie)
    );

    let marshaled = response.marshal();
    let unmarshaled = SessionModificationResponse::unmarshal(&marshaled).unwrap();
    assert_eq!(response, unmarshaled);
    assert_eq!(unmarshaled.usage_reports.len(), 1);
}

#[test]
fn test_session_modification_response_with_multiple_usage_reports() {
    // A periodic report and a volume-threshold report
    let usage_report1 = Ie::new(
        IeType::UsageReportWithinSessionModificationResponse,
        usage_report_members(1, 1, [0x01, 0x00, 0x00], None, None),
    );
    let usage_report2 = Ie::new(
        IeType::UsageReportWithinSessionModificationResponse,
        usage_report_members(2, 2, [0x02, 0x00, 0x00], None, None),
    );

    let response = SessionModificationResponseBuilder::new(11111, 22222)
        .cause_accepted()
        .usage_reports(vec![usage_report1, usage_report2])
        .build();

    assert_eq!(response.usage_reports.len(), 2);

    let marshaled = response.marshal();
    let unmarshaled = SessionModificationResponse::unmarshal(&marshaled).unwrap();
    assert_eq!(response, unmarshaled);
}
