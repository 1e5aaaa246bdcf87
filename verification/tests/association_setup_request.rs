#![allow(unused_imports, deprecated, unused_variables, unused_mut)]
use rs_pfcp::error::{ErrorKind, PfcpError};
use rs_pfcp::ie::cause::{Cause, CauseValue};
use rs_pfcp::ie::fseid::Fseid;
use rs_pfcp::ie::node_id::NodeId;
use rs_pfcp::ie::offending_ie::OffendingIe;
use rs_pfcp::ie::pdn_type::PdnType;
use rs_pfcp::ie::recovery_time_stamp::RecoveryTimeStamp;
use rs_pfcp::ie::source_ip_address::SourceIpAddress;
use rs_pfcp::ie::{Ie, IeType};
use rs_pfcp::message::header::Header;
use rs_pfcp::message::{parse, Generic, IeIter, Message, MsgType, ParsedMessage};
use rs_pfcp::message::heartbeat_request::{HeartbeatRequest, HeartbeatRequestBuilder};
use rs_pfcp::message::heartbeat_response::{HeartbeatResponse, HeartbeatResponseBuilder};
use rs_pfcp::message::association_release_request::{AssociationReleaseRequest, AssociationReleaseRequestBuilder};
use rs_pfcp::message::association_release_response::{AssociationReleaseResponse, AssociationReleaseResponseBuilder};
use rs_pfcp::message::association_setup_request::{AssociationSetupRequest, AssociationSetupRequestBuilder};
use rs_pfcp::message::association_setup_response::{AssociationSetupResponse, AssociationSetupResponseBuilder};
use rs_pfcp::message::association_update_request::{AssociationUpdateRequest, AssociationUpdateRequestBuilder};
use rs_pfcp::message::association_update_response::{AssociationUpdateResponse, AssociationUpdateResponseBuilder};
use rs_pfcp::message::node_report_response::{NodeReportResponse, NodeReportResponseBuilder};
use rs_pfcp::message::pfd_management_response::{PfdManagementResponse, PfdManagementResponseBuilder};
use rs_pfcp::message::session_deletion_request::{SessionDeletionRequest, SessionDeletionRequestBuilder};
use rs_pfcp::message::session_deletion_response::{SessionDeletionResponse, SessionDeletionResponseBuilder};
use rs_pfcp::message::session_establishment_request::{SessionEstablishmentRequest, SessionEstablishmentRequestBuilder};
use rs_pfcp::message::session_establishment_response::{SessionEstablishmentResponse, SessionEstablishmentResponseBuilder};
use rs_pfcp::message::session_modification_request::{SessionModificationRequest, SessionModificationRequestBuilder};
use rs_pfcp::message::session_modification_response::{SessionModificationResponse, SessionModificationResponseBuilder};
use rs_pfcp::message::version_not_supported_response::{VersionNotSupportedResponse, VersionNotSupportedResponseBuilder};
use rs_pfcp::message::session_set_deletion_request::{SessionSetDeletionRequest, SessionSetDeletionRequestBuilder};
use rs_pfcp::message::session_set_deletion_response::{SessionSetDeletionResponse, SessionSetDeletionResponseBuilder};
use rs_pfcp::message::session_set_modification_request::{SessionSetModificationRequest, SessionSetModificationRequestBuilder};
use rs_pfcp::message::session_set_modification_response::{SessionSetModificationResponse, SessionSetModificationResponseBuilder};
use rs_pfcp::message::session_report_request::{SessionReportRequest, SessionReportRequestBuilder};
use rs_pfcp::message::session_report_response::{SessionReportResponse, SessionReportResponseBuilder};
use rs_pfcp::ie::application_id::ApplicationId;
use rs_pfcp::ie::application_ids_pfds::ApplicationIdsPfds;
use rs_pfcp::ie::pfd_context::PfdContext;
use rs_pfcp::message::pfd_management_request::{PfdManagementRequest, PfdManagementRequestBuilder};
use rs_pfcp::ie::node_report_type::NodeReportType;
use rs_pfcp::message::node_report_request::{NodeReportRequest, NodeReportRequestBuilder};
use std::time::SystemTime;

#[test]
fn test_association_setup_request_builder_try_build_missing_node_id() {
    let recovery_time = RecoveryTimeStamp::new(SystemTime::now());
    let recovery_time_ie = Ie::new(IeType::RecoveryTimeStamp, recovery_time.marshal().to_vec());

    let result = AssociationSetupRequestBuilder::new(55555)
        .recovery_time_stamp_ie(recovery_time_ie)
        .try_build();

    assert!(result.is_err());
    assert_eq!(
        result.unwrap_err(),
        "Node ID IE is required for AssociationSetupRequest"
    );
}

#[test]
fn association_setup_request_test_builder_convenience_node_id_fqdn() {
    let request = AssociationSetupRequestBuilder::new(3000)
        .node_id_fqdn("smf.example.com")
        .recovery_time_stamp(SystemTime::now())
        .build();

    assert_eq!(request.sequence(), 3000);
    assert!(!request.node_id.payload.is_empty());
}

#[test]
fn association_setup_request_test_unmarshal_missing_node_id() {
    // Create a minimal header without Node ID
    let mut header = Header::new(MsgType::AssociationSetupRequest, false, 0, 1);
    let recovery_time = RecoveryTimeStamp::new(SystemTime::now());
    let recovery_ie = Ie::new(IeType::RecoveryTimeStamp, recovery_time.marshal().to_vec());

    header.length = recovery_ie.len() + (header.len() - 4);
    let mut buf = header.marshal();
    buf.extend_from_slice(&recovery_ie.marshal());

    let result = AssociationSetupRequest::unmarshal(&buf);
    assert!(result.is_err());
    match result.unwrap_err() {
        PfcpError::MissingMandatoryIe { ie_type, .. } => {
            assert_eq!(ie_type, IeType::NodeId);
        }
        _ => panic!("Expected MissingMandatoryIe error"),
    }
}

#[test]
fn test_recovery_time_stamp_to_ie_consistency() {
    // Verify the to_ie() path produces identical results to the manual IE construction
    let ts = SystemTime::UNIX_EPOCH + std::time::Duration::from_secs(1_000_000_000);
    let rts = RecoveryTimeStamp::new(ts);
    let via_to_ie = rts.to_ie();
    let via_manual = Ie::new(IeType::RecoveryTimeStamp, rts.marshal().to_vec());
    assert_eq!(via_to_ie, via_manual);
}
