#![allow(unused_imports, deprecated, unused_variables, unused_mut)]
use rs_pfcp::error::{ErrorKind, PfcpError};
use rs_pfcp::ie::cause::{Cause, CauseValue};
use rs_pfcp::ie::fseid::Fseid;
use rs_pfcp::ie::node_id::NodeId;
use rs_pfcp::ie::offending_ie::OffendingIe;
use rs_pfcp::ie::pdn_type::PdnType;
use rs_pfcp::ie::recovery_time_stamp::RecoveryTimeStamp;
use rs_pfcp::ie::source_ip_address::SourceIpAddress;
use rs_pfcp::ie::{Ie, IeType};
use rs_pfcp::message::header::Header;
use rs_pfcp::message::{parse, Generic, IeIter, Message, MsgType, ParsedMessage};
use rs_pfcp::message::heartbeat_request::{HeartbeatRequest, HeartbeatRequestBuilder};
use rs_pfcp::message::heartbeat_response::{HeartbeatResponse, HeartbeatResponseBuilder};
use rs_pfcp::message::association_release_request::{AssociationReleaseRequest, AssociationReleaseRequestBuilder};
use rs_pfcp::message::association_release_response::{AssociationReleaseResponse, AssociationReleaseResponseBuilder};
use rs_pfcp::message::association_setup_request::{AssociationSetupRequest, AssociationSetupRequestBuilder};
use rs_pfcp::message::association_setup_response::{AssociationSetupResponse, AssociationSetupResponseBuilder};
use rs_pfcp::message::association_update_request::{AssociationUpdateRequest, AssociationUpdateRequestBuilder};
use rs_pfcp::message::association_update_response::{AssociationUpdateResponse, AssociationUpdateResponseBuilder};
use rs_pfcp::message::node_report_response::{NodeReportResponse, NodeReportResponseBuilder};
use rs_pfcp::message::pfd_management_response::{PfdManagementResponse, PfdManagementResponseBuilder};
use rs_pfcp::message::session_deletion_request::{SessionDeletionRequest, SessionDeletionRequestBuilder};
use rs_pfcp::message::session_deletion_response::{SessionDeletionResponse, SessionDeletionResponseBuilder};
use rs_pfcp::message::session_establishment_request::{SessionEstablishmentRequest, SessionEstablishmentRequestBuilder};
use rs_pfcp::message::session_establishment_response::{SessionEstablishmentResponse, SessionEstablishmentResponseBuilder};
use rs_pfcp::message::session_modification_request::{SessionModificationRequest, SessionModificationRequestBuilder};
use rs_pfcp::message::session_modification_response::{SessionModificationResponse, SessionModificationResponseBuilder};
use rs_pfcp::message::version_not_supported_response::{VersionNotSupportedResponse, VersionNotSupportedResponseBuilder};
use rs_pfcp::message::session_set_deletion_request::{SessionSetDeletionRequest, SessionSetDeletionRequestBuilder};
use rs_pfcp::message::session_set_deletion_response::{SessionSetDeletionResponse, SessionSetDeletionResponseBuilder};
use rs_pfcp::message::session_set_modification_request::{SessionSetModificationRequest, SessionSetModificationRequestBuilder};
use rs_pfcp::message::session_set_modification_response::{SessionSetModificationResponse, SessionSetModificationResponseBuilder};
use rs_pfcp::message::session_report_request::{SessionReportRequest, SessionReportRequestBuilder};
use rs_pfcp::message::session_report_response::{SessionReportResponse, SessionReportResponseBuilder};
use rs_pfcp::ie::application_id::ApplicationId;
use rs_pfcp::ie::application_ids_pfds::ApplicationIdsPfds;
use rs_pfcp::ie::pfd_context::PfdContext;
use rs_pfcp::message::pfd_management_request::{PfdManagementRequest, PfdManagementRequestBuilder};
use rs_pfcp::ie::node_report_type::NodeReportType;
use rs_pfcp::message::node_report_request::{NodeReportRequest, NodeReportRequestBuilder};
use std::time::SystemTime;

#[test]
fn test_session_deletion_response_builder_minimal() {
    let cause = Cause::new(CauseValue::RequestAccepted);
    let cause_ie = Ie::new(IeType::Cause, cause.marshal().to_vec());

    let response = SessionDeletionResponseBuilder::new(12345, 67890)
        .cause_ie(cause_ie.clone())
        .build();

    assert_eq!(response.sequence(), 67890);
    assert_eq!(response.seid(), Some(12345));
    assert_eq!(response.msg_type(), MsgType::SessionDeletionResponse);
    assert_eq!(response.cause, cause_ie);
    assert!(response.offending_ie.is_none());
    assert!(response.ies.is_empty());
}

#[test]
fn test_session_deletion_response_builder_with_offending_ie() {
    let cause = Cause::new(CauseValue::MandatoryIeMissing);
    let cause_ie = Ie::new(IeType::Cause, cause.marshal().to_vec());

    let offending_ie = Ie::new(IeType::OffendingIe, vec![0x00, 0x01]);

    let response = SessionDeletionResponseBuilder::new(11111, 22222)
        .cause_ie(cause_ie.clone())
        .offending_ie(offending_ie.clone())
        .build();

    assert_eq!(response.sequence(), 22222);
    assert_eq!(response.seid(), Some(11111));
    assert_eq!(response.cause, cause_ie);
    assert_eq!(response.offending_ie, Some(offending_ie));
    assert!(response.ies.is_empty());
}

#[test]
fn test_session_deletion_response_builder_with_additional_ies() {
    let cause = Cause::new(CauseValue::RequestAccepted);
    let cause_ie = Ie::new(IeType::Cause, cause.marshal().to_vec());

    let ie1 = Ie::new(IeType::Unknown, vec![0xAA, 0xBB]);
    let ie2 = Ie::new(IeType::Unknown, vec![0xCC, 0xDD]);
    let ie3 = Ie::new(IeType::Unknown, vec![0xEE, 0xFF]);

    let response = SessionDeletionResponseBuilder::new(33333, 44444)
        .cause_ie(cause_ie.clone())
        .ie(ie1.clone())
        .ies(vec![ie2.clone(), ie3.clone()])
        .build();

    assert_eq!(response.sequence(), 44444);
    assert_eq!(response.seid(), Some(33333));
    assert_eq!(response.cause, cause_ie);
    assert_eq!(response.ies.len(), 3);
    assert_eq!(response.ies[0], ie1);
    assert_eq!(response.ies[1], ie2);
    assert_eq!(response.ies[2], ie3);
}

#[test]
fn test_session_deletion_response_builder_full() {
    let cause = Cause::new(CauseValue::SessionContextNotFound);
    let cause_ie = Ie::new(IeType::Cause, cause.marshal().to_vec());

    let offending_ie = Ie::new(IeType::OffendingIe, vec![0xFF, 0xFE]);
    let additional_ie = Ie::new(IeType::Unknown, vec![0xAB, 0xCD, 0xEF]);

    let response = SessionDeletionResponseBuilder::new(55555, 66666)
        .cause_ie(cause_ie.clone())
        .offending_ie(offending_ie.clone())
        .ie(additional_ie.clone())
        .build();

    assert_eq!(response.sequence(), 66666);
    assert_eq!(response.seid(), Some(55555));
    assert_eq!(response.cause, cause_ie);
    assert_eq!(response.offending_ie, Some(offending_ie));
    assert_eq!(response.ies.len(), 1);
    assert_eq!(response.ies[0], additional_ie);
}

#[test]
fn test_session_deletion_response_builder_try_build_success() {
    let cause = Cause::new(CauseValue::RequestAccepted);
    let cause_ie = Ie::new(IeType::Cause, cause.marshal().to_vec());

    let result = SessionDeletionResponseBuilder::new(12345, 67890)
        .cause_ie(cause_ie.clone())
        .try_build();

    assert!(result.is_ok());
    let response = result.unwrap();
    assert_eq!(response.sequence(), 67890);
    assert_eq!(response.seid(), Some(12345));
    assert_eq!(response.cause, cause_ie);
}

#[test]
fn test_session_deletion_response_builder_try_build_missing_cause() {
    let result = SessionDeletionResponseBuilder::new(12345, 67890).try_build();

    assert!(result.is_err());
    assert_eq!(
        result.unwrap_err(),
        "Cause IE is required for SessionDeletionResponse"
    );
}

#[test]
fn test_session_deletion_response_builder_roundtrip() {
    let cause = Cause::new(CauseValue::RuleCreationModificationFailure);
    let cause_ie = Ie::new(IeType::Cause, cause.marshal().to_vec());

    let offending_ie = Ie::new(IeType::OffendingIe, vec![0x12, 0x34]);

    let original = SessionDeletionResponseBuilder::new(98765, 54321)
        .cause_ie(cause_ie)
        .offending_ie(offending_ie)
        .build();

    let marshaled = original.marshal();
    let unmarshaled = SessionDeletionResponse::unmarshal(&marshaled).unwrap();

    assert_eq!(original, unmarshaled);
}

#[test]
fn test_session_deletion_response_with_additional_usage_reports_information() {
    // IE Type 189: Additional Usage Reports Information
    let auri_ie = Ie::new(
        IeType::AdditionalUsageReportsInformation,
        vec![0x01], // AURI flag set
    );

    let response = SessionDeletionResponseBuilder::new(12345, 67890)
        .cause_accepted()
        .additional_usage_reports_information(auri_ie.clone())
        .build();

    assert_eq!(
        response.additional_usage_reports_information,
        Some(auri_ie.clone())
    );
    assert_eq!(
        response.find_ie(IeType::AdditionalUsageReportsInformation),
        Some(&auri_ie)
    );

    // Test marshal/unmarshal round trip
    let marshaled = response.marshal();
    let unmarshaled = SessionDeletionResponse::unmarshal(&marshaled).unwrap();
    assert_eq!(response, unmarshaled);
    assert_eq!(
        unmarshaled.additional_usage_reports_information,
        Some(auri_ie)
    );
}

#[test]
fn test_session_deletion_response_with_packet_rate_status_reports() {
    // IE Type 210: Packet Rate Status Report (grouped IE for CIOT)
    let prsr_ie1 = Ie::new(IeType::PacketRateStatusReport, vec![0x01, 0x02, 0x03]);
    let prsr_ie2 = Ie::new(IeType::PacketRateStatusReport, vec![0x04, 0x05, 0x06]);

    let response = SessionDeletionResponseBuilder::new(12345, 67890)
        .cause_accepted()
        .packet_rate_status_report(prsr_ie1.clone())
        .packet_rate_status_reports(vec![prsr_ie2.clone()])
        .build();

    assert_eq!(response.packet_rate_status_reports.len(), 2);
    assert_eq!(response.packet_rate_status_reports[0], prsr_ie1);
    assert_eq!(response.packet_rate_status_reports[1], prsr_ie2);
    assert_eq!(
        response.find_ie(IeType::PacketRateStatusReport),
        Some(&prsr_ie1)
    );

    // Test marshal/unmarshal round trip
    let marshaled = response.marshal();
    let unmarshaled = SessionDeletionResponse::unmarshal(&marshaled).unwrap();
    assert_eq!(response, unmarshaled);
    assert_eq!(unmarshaled.packet_rate_status_reports.len(), 2);
}

#[test]
fn test_session_deletion_response_with_mbs_session_n4_information() {
    // IE Type 311: MBS Session N4 Information (grouped IE for MBS support)
    // Note: Using IeType::MbsSessionN4Information now that enum variant exists
    let mbs_ie1 = Ie::new(IeType::MbsSessionN4Information, vec![0x10, 0x20]);
    let mbs_ie2 = Ie::new(IeType::MbsSessionN4Information, vec![0x30, 0x40]);

    let response = SessionDeletionResponseBuilder::new(12345, 67890)
        .cause_accepted()
        .mbs_session_n4_information(mbs_ie1.clone())
        .mbs_session_n4_informations(vec![mbs_ie2.clone()])
        .build();

    assert_eq!(response.mbs_session_n4_information.len(), 2);
    assert_eq!(response.mbs_session_n4_information[0], mbs_ie1);
    assert_eq!(response.mbs_session_n4_information[1], mbs_ie2);

    // Test marshal/unmarshal round trip now that proper enum variant exists
    let marshaled = response.marshal();
    let unmarshaled = SessionDeletionResponse::unmarshal(&marshaled).unwrap();
    assert_eq!(response, unmarshaled);
    assert_eq!(unmarshaled.mbs_session_n4_information.len(), 2);
}

#[test]
fn test_session_deletion_response_with_pfcpsdrsp_flags() {
    // IE Type 318: PFCPSDRsp-Flags
    // Note: Using IeType::PfcpsdrspFlags now that enum variant exists
    let flags_ie = Ie::new(IeType::PfcpsdrspFlags, vec![0x01]); // PURU flag

    let response = SessionDeletionResponseBuilder::new(12345, 67890)
        .cause_accepted()
        .pfcpsdrsp_flags(flags_ie.clone())
        .build();

    assert_eq!(response.pfcpsdrsp_flags, Some(flags_ie.clone()));

    // Test marshal/unmarshal round trip now that proper enum variant exists
    let marshaled = response.marshal();
    let unmarshaled = SessionDeletionResponse::unmarshal(&marshaled).unwrap();
    assert_eq!(response, unmarshaled);
    assert_eq!(unmarshaled.pfcpsdrsp_flags, Some(flags_ie));
}

#[test]
fn test_session_deletion_response_with_tl_container() {
    // IE Type 336: TL-Container (for TSN support per 3GPP TS 29.244 Section 8.2.230)
    // Note: Using IeType::TlContainer now that enum variant exists
    let tl_ie1 = Ie::new(IeType::TlContainer, vec![0x50, 0x60, 0x70]);
    let tl_ie2 = Ie::new(IeType::TlContainer, vec![0x80, 0x90, 0xA0]);

    let response = SessionDeletionResponseBuilder::new(12345, 67890)
        .cause_accepted()
        .tl_container(tl_ie1.clone())
        .tl_containers(vec![tl_ie2.clone()])
        .build();

    assert_eq!(response.tl_container.len(), 2);
    assert_eq!(response.tl_container[0], tl_ie1);
    assert_eq!(response.tl_container[1], tl_ie2);

    // Test marshal/unmarshal round trip now that proper enum variant exists
    let marshaled = response.marshal();
    let unmarshaled = SessionDeletionResponse::unmarshal(&marshaled).unwrap();
    assert_eq!(response, unmarshaled);
    assert_eq!(unmarshaled.tl_container.len(), 2);
}

#[test]
fn test_session_deletion_response_all_new_ies_combined() {
    // Test all 5 new IEs together
    let auri_ie = Ie::new(IeType::AdditionalUsageReportsInformation, vec![0x01]);
    let prsr_ie = Ie::new(IeType::PacketRateStatusReport, vec![0x01, 0x02]);

    // MBS Session N4 Information (IE Type 311) - now using proper enum variant
    let mbs_ie = Ie::new(IeType::MbsSessionN4Information, vec![0x10, 0x20]);

    // PFCPSDRsp-Flags (IE Type 318) - now using proper enum variant
    let flags_ie = Ie::new(IeType::PfcpsdrspFlags, vec![0x01]); // PURU flag

    // TL-Container (IE Type 336) - now using proper enum variant
    let tl_ie = Ie::new(IeType::TlContainer, vec![0x50, 0x60]);

    let response = SessionDeletionResponseBuilder::new(12345, 67890)
        .cause_accepted()
        .additional_usage_reports_information(auri_ie.clone())
        .packet_rate_status_report(prsr_ie.clone())
        .mbs_session_n4_information(mbs_ie.clone())
        .pfcpsdrsp_flags(flags_ie.clone())
        .tl_container(tl_ie.clone())
        .build();

    // Verify all IEs are present
    assert_eq!(
        response.additional_usage_reports_information,
        Some(auri_ie.clone())
    );
    assert_eq!(response.packet_rate_status_reports.len(), 1);
    assert_eq!(response.mbs_session_n4_information.len(), 1);
    assert_eq!(response.pfcpsdrsp_flags, Some(flags_ie.clone()));
    assert_eq!(response.tl_container.len(), 1);

    // Test all_ies includes all new IEs
    let all_ies = response.all_ies();
    assert!(all_ies.contains(&&auri_ie));
    assert!(all_ies.contains(&&prsr_ie));
    assert!(all_ies.contains(&&mbs_ie));
    assert!(all_ies.contains(&&flags_ie));
    assert!(all_ies.contains(&&tl_ie));

    // Test marshal/unmarshal round trip now that proper enum variants exist
    let marshaled = response.marshal();
    let unmarshaled = SessionDeletionResponse::unmarshal(&marshaled).unwrap();
    assert_eq!(response, unmarshaled);
}

/// The members of a usage report: URR ID, UR-SEQN and Usage Report Trigger,
/// then a volume measurement (total, uplink, downlink) and a duration
/// measurement when given.
fn usage_report_members(urr_id: u32, seq: u32, trigger: [u8; 3], volume: Option<(u64, u64, u64)>, duration: Option<u32>) -> Vec<u8> {
    let mut p = vec![0, 81, 0, 4];
    p.extend_from_slice(&urr_id.to_be_bytes());
    p.extend_from_slice(&[0, 104, 0, 4]);
    p.extend_from_slice(&seq.to_be_bytes());
    p.extend_from_slice(&[0, 63, 0, 3]);
    p.extend_from_slice(&trigger);
    if let Some((total, ul, dl)) = volume {
        p.extend_from_slice(&[0, 66, 0, 25, 0x07]);
        p.extend_from_slice(&total.to_be_bytes());
        p.extend_from_slice(&ul.to_be_bytes());
        p.extend_from_slice(&dl.to_be_bytes());
    }
    if let Some(d) = duration {
        p.extend_from_slice(&[0, 67, 0, 4]);
        p.extend_from_slice(&d.to_be_bytes());
    }
    p
}

#[test]
fn test_session_deletion_response_with_usage_reports() {
    // A stop-of-traffic usage report for the final session usage
    let usage_report_ie = Ie::new(
        IeType::UsageReportWithinSessionDeletionResponse,
        usage_report_members(1, 100, [0x00, 0x02, 0x00], Some((10000000, 6000000, 4000000)), Some(7200)),
    );

    assert_eq!(usage_report_ie.ie_type, IeType::UsageReportWithinSessionDeletionResponse);

    let response = SessionDeletionResponseBuilder::new(12345, 67890)
        .cause_accepted()
        .usage_report(usage_report_ie.clone())
        .build();

    assert_eq!(response.usage_reports.len(), 1);
    assert_eq!(response.usage_reports[0], usage_report_ie);
    assert_eq!(
        response.find_ie(IeType::UsageReportWithinSessionDeletionResponse),
        Some(&usage_report_ie)
    );

    let marshaled = response.marshal();
    let unmarshaled = SessionDeletionResponse::unmarshal(&marshaled).unwrap();
    assert_eq!(response, unmarshaled);
    assert_eq!(unmarshaled.usage_reports.len(), 1);
}
