#![allow(unused_imports, deprecated, unused_variables, unused_mut)]
use rs_pfcp::error::{ErrorKind, PfcpError};
use rs_pfcp::ie::cause::{Cause, CauseValue};
use rs_pfcp::ie::fseid::Fseid;
use rs_pfcp::ie::node_id::NodeId;
use rs_pfcp::ie::offending_ie::OffendingIe;
use rs_pfcp::ie::pdn_type::PdnType;
use rs_pfcp::ie::recovery_time_stamp::RecoveryTimeStamp;
use rs_pfcp::ie::source_ip_address::SourceIpAddress;
use rs_pfcp::ie::{Ie, IeType};
use rs_pfcp::message::header::Header;
use rs_pfcp::message::{parse, Generic, IeIter, Message, MsgType, ParsedMessage};
use rs_pfcp::message::heartbeat_request::{HeartbeatRequest, HeartbeatRequestBuilder};
use rs_pfcp::message::heartbeat_response::{HeartbeatResponse, HeartbeatResponseBuilder};
use rs_pfcp::message::association_release_request::{AssociationReleaseRequest, AssociationReleaseRequestBuilder};
use rs_pfcp::message::association_release_response::{AssociationReleaseResponse, AssociationReleaseResponseBuilder};
use rs_pfcp::message::association_setup_request::{AssociationSetupRequest, AssociationSetupRequestBuilder};
use rs_pfcp::message::association_setup_response::{AssociationSetupResponse, AssociationSetupResponseBuilder};
use rs_pfcp::message::association_update_request::{AssociationUpdateRequest, AssociationUpdateRequestBuilder};
use rs_pfcp::message::association_update_response::{AssociationUpdateResponse, AssociationUpdateResponseBuilder};
use rs_pfcp::message::node_report_response::{NodeReportResponse, NodeReportResponseBuilder};
use rs_pfcp::message::pfd_management_response::{PfdManagementResponse, PfdManagementResponseBuilder};
use rs_pfcp::message::session_deletion_request::{SessionDeletionRequest, SessionDeletionRequestBuilder};
use rs_pfcp::message::session_deletion_response::{SessionDeletionResponse, SessionDeletionResponseBuilder};
use rs_pfcp::message::session_establishment_request::{SessionEstablishmentRequest, SessionEstablishmentRequestBuilder};
use rs_pfcp::message::session_establishment_response::{SessionEstablishmentResponse, SessionEstablishmentResponseBuilder};
use rs_pfcp::message::session_modification_request::{SessionModificationRequest, SessionModificationRequestBuilder};
use rs_pfcp::message::session_modification_response::{SessionModificationResponse, SessionModificationResponseBuilder};
use rs_pfcp::message::version_not_supported_response::{VersionNotSupportedResponse, VersionNotSupportedResponseBuilder};
use rs_pfcp::message::session_set_deletion_request::{SessionSetDeletionRequest, SessionSetDeletionRequestBuilder};
use rs_pfcp::message::session_set_deletion_response::{SessionSetDeletionResponse, SessionSetDeletionResponseBuilder};
use rs_pfcp::message::session_set_modification_request::{SessionSetModificationRequest, SessionSetModificationRequestBuilder};
use rs_pfcp::message::session_set_modification_response::{SessionSetModificationResponse, SessionSetModificationResponseBuilder};
use rs_pfcp::message::session_report_request::{SessionReportRequest, SessionReportRequestBuilder};
use rs_pfcp::message::session_report_response::{SessionReportResponse, SessionReportResponseBuilder};
use rs_pfcp::ie::application_id::ApplicationId;
use rs_pfcp::ie::application_ids_pfds::ApplicationIdsPfds;
use rs_pfcp::ie::pfd_context::PfdContext;
use rs_pfcp::message::pfd_management_request::{PfdManagementRequest, PfdManagementRequestBuilder};
use rs_pfcp::ie::node_report_type::NodeReportType;
use rs_pfcp::message::node_report_request::{NodeReportRequest, NodeReportRequestBuilder};
use std::time::SystemTime;

/// A minimal Create PDR (PDR ID 1, precedence 100, PDI with source interface
/// Access, FAR ID 1) and a minimal Create FAR (FAR ID 1, apply action FORW,
/// forwarding parameters with destination interface Access), as raw IEs.
fn create_minimal_pdr_far() -> (Vec<Ie>, Vec<Ie>) {
    let pdr_payload = vec![
        0, 56, 0, 2, 0, 1, // PDR ID 1
        0, 29, 0, 4, 0, 0, 0, 100, // Precedence 100
        0, 2, 0, 5, 0, 20, 0, 1, 0, // PDI: Source Interface Access
        0, 108, 0, 4, 0, 0, 0, 1, // FAR ID 1
    ];
    let far_payload = vec![
        0, 108, 0, 4, 0, 0, 0, 1, // FAR ID 1
        0, 44, 0, 2, 2, 0, // Apply Action FORW
        0, 4, 0, 5, 0, 42, 0, 1, 0, // Forwarding Parameters: Destination Interface Access
    ];
    (
        vec![Ie::new(IeType::CreatePdr, pdr_payload)],
        vec![Ie::new(IeType::CreateFar, far_payload)],
    )
}

#[test]
fn test_session_establishment_builder_ergonomic_node_id_fqdn() {
    let fqdn = "upf.example.com";
    let (pdrs, fars) = create_minimal_pdr_far();

    let request = SessionEstablishmentRequestBuilder::new(0x1234, 1)
        .node_id_fqdn(fqdn)
        .fseid_ie(Ie::new(IeType::Fseid, vec![0; 9]))
        .create_pdrs(pdrs)
        .create_fars(fars)
        .build()
        .unwrap();

    let node = NodeId::unmarshal(&request.node_id.payload).unwrap();
    assert_eq!(node, NodeId::FQDN(fqdn.to_string()));
}

#[test]
fn test_session_establishment_builder_ergonomic_recovery_timestamp() {
    let timestamp = SystemTime::now();
    let (pdrs, fars) = create_minimal_pdr_far();

    let request = SessionEstablishmentRequestBuilder::new(0x1234, 1)
        .node_id_ie(Ie::new(IeType::NodeId, vec![]))
        .fseid_ie(Ie::new(IeType::Fseid, vec![0; 9]))
        .recovery_time_stamp(timestamp)
        .create_pdrs(pdrs)
        .create_fars(fars)
        .build()
        .unwrap();

    assert!(request.recovery_time_stamp.is_some());
    let ie = request.recovery_time_stamp.unwrap();
    assert_eq!(ie.ie_type, IeType::RecoveryTimeStamp);

    // Verify it unmarshals correctly
    let recovered = RecoveryTimeStamp::unmarshal(&ie.payload).unwrap();
    let duration = timestamp
        .duration_since(recovered.timestamp())
        .unwrap_or_else(|e| e.duration());
    assert!(duration.as_secs() < 1);
}

#[test]
fn test_session_establishment_builder_validation_missing_node_id() {
    let (pdrs, fars) = create_minimal_pdr_far();

    let result = SessionEstablishmentRequestBuilder::new(0x1234, 1)
        .fseid_ie(Ie::new(IeType::Fseid, vec![0; 9]))
        .create_pdrs(pdrs)
        .create_fars(fars)
        .build();

    assert!(result.is_err());
    let err = result.unwrap_err();
    assert!(err.to_string().contains("Node ID"));
}

#[test]
fn test_session_establishment_builder_validation_missing_fseid() {
    let (pdrs, fars) = create_minimal_pdr_far();

    let result = SessionEstablishmentRequestBuilder::new(0x1234, 1)
        .node_id_ie(Ie::new(IeType::NodeId, vec![]))
        .create_pdrs(pdrs)
        .create_fars(fars)
        .build();

    assert!(result.is_err());
    let err = result.unwrap_err();
    assert!(err.to_string().contains("F-SEID"));
}

#[test]
fn test_session_establishment_builder_validation_missing_pdrs() {
    let (_, fars) = create_minimal_pdr_far();

    let result = SessionEstablishmentRequestBuilder::new(0x1234, 1)
        .node_id_ie(Ie::new(IeType::NodeId, vec![]))
        .fseid_ie(Ie::new(IeType::Fseid, vec![0; 9]))
        .create_fars(fars)
        .build();

    assert!(result.is_err());
    let err = result.unwrap_err();
    assert!(err.to_string().contains("Create PDR"));
}

#[test]
fn test_session_establishment_builder_validation_missing_fars() {
    let (pdrs, _) = create_minimal_pdr_far();

    let result = SessionEstablishmentRequestBuilder::new(0x1234, 1)
        .node_id_ie(Ie::new(IeType::NodeId, vec![]))
        .fseid_ie(Ie::new(IeType::Fseid, vec![0; 9]))
        .create_pdrs(pdrs)
        .build();

    assert!(result.is_err());
    let err = result.unwrap_err();
    assert!(err.to_string().contains("Create FAR"));
}
