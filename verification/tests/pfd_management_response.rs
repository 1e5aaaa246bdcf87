#![allow(unused_imports, deprecated, unused_variables, unused_mut)]
use rs_pfcp::error::{ErrorKind, PfcpError};
use rs_pfcp::ie::cause::{Cause, CauseValue};
use rs_pfcp::ie::fseid::Fseid;
use rs_pfcp::ie::node_id::NodeId;
use rs_pfcp::ie::offending_ie::OffendingIe;
use rs_pfcp::ie::pdn_type::PdnType;
use rs_pfcp::ie::recovery_time_stamp::RecoveryTimeStamp;
use rs_pfcp::ie::source_ip_address::SourceIpAddress;
use rs_pfcp::ie::{Ie, IeType};
use rs_pfcp::message::header::Header;
use rs_pfcp::message::{parse, Generic, IeIter, Message, MsgType, ParsedMessage};
use rs_pfcp::message::heartbeat_request::{HeartbeatRequest, HeartbeatRequestBuilder};
use rs_pfcp::message::heartbeat_response::{HeartbeatResponse, HeartbeatResponseBuilder};
use rs_pfcp::message::association_release_request::{AssociationReleaseRequest, AssociationReleaseRequestBuilder};
use rs_pfcp::message::association_release_response::{AssociationReleaseResponse, AssociationReleaseResponseBuilder};
use rs_pfcp::message::association_setup_request::{AssociationSetupRequest, AssociationSetupRequestBuilder};
use rs_pfcp::message::association_setup_response::{AssociationSetupResponse, AssociationSetupResponseBuilder};
use rs_pfcp::message::association_update_request::{AssociationUpdateRequest, AssociationUpdateRequestBuilder};
use rs_pfcp::message::association_update_response::{AssociationUpdateResponse, AssociationUpdateResponseBuilder};
use rs_pfcp::message::node_report_response::{NodeReportResponse, NodeReportResponseBuilder};
use rs_pfcp::message::pfd_management_response::{PfdManagementResponse, PfdManagementResponseBuilder};
use rs_pfcp::message::session_deletion_request::{SessionDeletionRequest, SessionDeletionRequestBuilder};
use rs_pfcp::message::session_deletion_response::{SessionDeletionResponse, SessionDeletionResponseBuilder};
use rs_pfcp::message::session_establishment_request::{SessionEstablishmentRequest, SessionEstablishmentRequestBuilder};
use rs_pfcp::message::session_establishment_response::{SessionEstablishmentResponse, SessionEstablishmentResponseBuilder};
use rs_pfcp::message::session_modification_request::{SessionModificationRequest, SessionModificationRequestBuilder};
use rs_pfcp::message::session_modification_response::{SessionModificationResponse, SessionModificationResponseBuilder};
use rs_pfcp::message::version_not_supported_response::{VersionNotSupportedResponse, VersionNotSupportedResponseBuilder};
use rs_pfcp::message::session_set_deletion_request::{SessionSetDeletionRequest, SessionSetDeletionRequestBuilder};
use rs_pfcp::message::session_set_deletion_response::{SessionSetDeletionResponse, SessionSetDeletionResponseBuilder};
use rs_pfcp::message::session_set_modification_request::{SessionSetModificationRequest, SessionSetModificationRequestBuilder};
use rs_pfcp::message::session_set_modification_response::{SessionSetModificationResponse, SessionSetModificationResponseBuilder};
use rs_pfcp::message::session_report_request::{SessionReportRequest, SessionReportRequestBuilder};
use rs_pfcp::message::session_report_response::{SessionReportResponse, SessionReportResponseBuilder};
use rs_pfcp::ie::application_id::ApplicationId;
use rs_pfcp::ie::application_ids_pfds::ApplicationIdsPfds;
use rs_pfcp::ie::pfd_context::PfdContext;
use rs_pfcp::message::pfd_management_request::{PfdManagementRequest, PfdManagementRequestBuilder};
use rs_pfcp::ie::node_report_type::NodeReportType;
use rs_pfcp::message::node_report_request::{NodeReportRequest, NodeReportRequestBuilder};
use std::time::SystemTime;

#[test]
fn test_pfd_management_response_builder_minimal() {
    let cause = Cause::new(CauseValue::RequestAccepted);
    let cause_ie = Ie::new(IeType::Cause, cause.marshal().to_vec());

    let response = PfdManagementResponseBuilder::new(12345)
        .cause_ie(cause_ie.clone())
        .build();

    assert_eq!(response.sequence(), 12345);
    assert_eq!(response.msg_type(), MsgType::PfdManagementResponse);
    assert_eq!(response.cause, cause_ie);
    assert!(response.offending_ie.is_none());
    assert!(response.ies.is_empty());
}

#[test]
fn test_pfd_management_response_builder_with_offending_ie() {
    let cause = Cause::new(CauseValue::MandatoryIeMissing);
    let cause_ie = Ie::new(IeType::Cause, cause.marshal().to_vec());

    let offending_ie = Ie::new(IeType::OffendingIe, vec![0x00, 0x01]);

    let response = PfdManagementResponseBuilder::new(12345)
        .cause_ie(cause_ie.clone())
        .offending_ie(offending_ie.clone())
        .build();

    assert_eq!(response.sequence(), 12345);
    assert_eq!(response.cause, cause_ie);
    assert_eq!(response.offending_ie, Some(offending_ie));
    assert!(response.ies.is_empty());
}

#[test]
fn test_pfd_management_response_builder_with_ies() {
    let cause = Cause::new(CauseValue::RequestAccepted);
    let cause_ie = Ie::new(IeType::Cause, cause.marshal().to_vec());

    let ie1 = Ie::new(IeType::Unknown, vec![0x01, 0x02]);
    let ie2 = Ie::new(IeType::Unknown, vec![0x03, 0x04]);
    let ie3 = Ie::new(IeType::Unknown, vec![0x05, 0x06]);

    let response = PfdManagementResponseBuilder::new(98765)
        .cause_ie(cause_ie.clone())
        .ie(ie1.clone())
        .ies(vec![ie2.clone(), ie3.clone()])
        .build();

    assert_eq!(response.sequence(), 98765);
    assert_eq!(response.cause, cause_ie);
    assert_eq!(response.ies.len(), 3);
    assert_eq!(response.ies[0], ie1);
    assert_eq!(response.ies[1], ie2);
    assert_eq!(response.ies[2], ie3);
}

#[test]
fn test_pfd_management_response_builder_full() {
    let cause = Cause::new(CauseValue::RuleCreationModificationFailure);
    let cause_ie = Ie::new(IeType::Cause, cause.marshal().to_vec());

    let offending_ie = Ie::new(IeType::OffendingIe, vec![0xFF, 0xFE]);
    let additional_ie = Ie::new(IeType::Unknown, vec![0xAB, 0xCD, 0xEF]);

    let response = PfdManagementResponseBuilder::new(55555)
        .cause_ie(cause_ie.clone())
        .offending_ie(offending_ie.clone())
        .ie(additional_ie.clone())
        .build();

    assert_eq!(response.sequence(), 55555);
    assert_eq!(response.cause, cause_ie);
    assert_eq!(response.offending_ie, Some(offending_ie));
    assert_eq!(response.ies.len(), 1);
    assert_eq!(response.ies[0], additional_ie);
}

#[test]
fn test_pfd_management_response_builder_try_build_success() {
    let cause = Cause::new(CauseValue::RequestAccepted);
    let cause_ie = Ie::new(IeType::Cause, cause.marshal().to_vec());

    let result = PfdManagementResponseBuilder::new(12345)
        .cause_ie(cause_ie.clone())
        .try_build();

    assert!(result.is_ok());
    let response = result.unwrap();
    assert_eq!(response.sequence(), 12345);
    assert_eq!(response.cause, cause_ie);
}

#[test]
fn test_pfd_management_response_builder_try_build_missing_cause() {
    let result = PfdManagementResponseBuilder::new(12345).try_build();

    assert!(result.is_err());
    assert_eq!(
        result.unwrap_err(),
        "Cause IE is required for PfdManagementResponse"
    );
}

#[test]
fn test_pfd_management_response_builder_roundtrip() {
    let cause = Cause::new(CauseValue::SystemFailure);
    let cause_ie = Ie::new(IeType::Cause, cause.marshal().to_vec());

    let offending_ie = Ie::new(IeType::OffendingIe, vec![0x12, 0x34]);

    let original = PfdManagementResponseBuilder::new(77777)
        .cause_ie(cause_ie)
        .offending_ie(offending_ie)
        .build();

    let marshaled = original.marshal();
    let unmarshaled = PfdManagementResponse::unmarshal(&marshaled).unwrap();

    assert_eq!(original, unmarshaled);
}

#[test]
fn test_pfd_management_response_builder_with_node_id_fqdn() {
    let response = PfdManagementResponseBuilder::new(54321)
        .cause_accepted()
        .node_id_fqdn("upf.example.com")
        .build();

    assert_eq!(response.sequence(), 54321);
    assert!(response.node_id.is_some());

    // Verify the node_id can be retrieved via find_ie
    let found_node_id = response.find_ie(IeType::NodeId);
    assert!(found_node_id.is_some());
}

#[test]
fn test_pfd_management_response_minimal_without_node_id() {
    let response = PfdManagementResponseBuilder::new(22222)
        .cause_accepted()
        .build();

    assert_eq!(response.sequence(), 22222);
    assert!(response.node_id.is_none());
    assert!(response.offending_ie.is_none());

    // find_ie should return None for NodeId
    assert!(response.find_ie(IeType::NodeId).is_none());
}
