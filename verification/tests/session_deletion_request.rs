#![allow(unused_imports, deprecated, unused_variables, unused_mut)]
use rs_pfcp::error::{ErrorKind, PfcpError};
use rs_pfcp::ie::cause::{Cause, CauseValue};
use rs_pfcp::ie::fseid::Fseid;
use rs_pfcp::ie::node_id::NodeId;
use rs_pfcp::ie::offending_ie::OffendingIe;
use rs_pfcp::ie::pdn_type::PdnType;
use rs_pfcp::ie::recovery_time_stamp::RecoveryTimeStamp;
use rs_pfcp::ie::source_ip_address::SourceIpAddress;
use rs_pfcp::ie::{Ie, IeType};
use rs_pfcp::message::header::Header;
use rs_pfcp::message::{parse, Generic, IeIter, Message, MsgType, ParsedMessage};
use rs_pfcp::message::heartbeat_request::{HeartbeatRequest, HeartbeatRequestBuilder};
use rs_pfcp::message::heartbeat_response::{HeartbeatResponse, HeartbeatResponseBuilder};
use rs_pfcp::message::association_release_request::{AssociationReleaseRequest, AssociationReleaseRequestBuilder};
use rs_pfcp::message::association_release_response::{AssociationReleaseResponse, AssociationReleaseResponseBuilder};
use rs_pfcp::message::association_setup_request::{AssociationSetupRequest, AssociationSetupRequestBuilder};
use rs_pfcp::message::association_setup_response::{AssociationSetupResponse, AssociationSetupResponseBuilder};
use rs_pfcp::message::association_update_request::{AssociationUpdateRequest, AssociationUpdateRequestBuilder};
use rs_pfcp::message::association_update_response::{AssociationUpdateResponse, AssociationUpdateResponseBuilder};
use rs_pfcp::message::node_report_response::{NodeReportResponse, NodeReportResponseBuilder};
use rs_pfcp::message::pfd_management_response::{PfdManagementResponse, PfdManagementResponseBuilder};
use rs_pfcp::message::session_deletion_request::{SessionDeletionRequest, SessionDeletionRequestBuilder};
use rs_pfcp::message::session_deletion_response::{SessionDeletionResponse, SessionDeletionResponseBuilder};
use rs_pfcp::message::session_establishment_request::{SessionEstablishmentRequest, SessionEstablishmentRequestBuilder};
use rs_pfcp::message::session_establishment_response::{SessionEstablishmentResponse, SessionEstablishmentResponseBuilder};
use rs_pfcp::message::session_modification_request::{SessionModificationRequest, SessionModificationRequestBuilder};
use rs_pfcp::message::session_modification_response::{SessionModificationResponse, SessionModificationResponseBuilder};
use rs_pfcp::message::version_not_supported_response::{VersionNotSupportedResponse, VersionNotSupportedResponseBuilder};
use rs_pfcp::message::session_set_deletion_request::{SessionSetDeletionRequest, SessionSetDeletionRequestBuilder};
use rs_pfcp::message::session_set_deletion_response::{SessionSetDeletionResponse, SessionSetDeletionResponseBuilder};
use rs_pfcp::message::session_set_modification_request::{SessionSetModificationRequest, SessionSetModificationRequestBuilder};
use rs_pfcp::message::session_set_modification_response::{SessionSetModificationResponse, SessionSetModificationResponseBuilder};
use rs_pfcp::message::session_report_request::{SessionReportRequest, SessionReportRequestBuilder};
use rs_pfcp::message::session_report_response::{SessionReportResponse, SessionReportResponseBuilder};
use rs_pfcp::ie::application_id::ApplicationId;
use rs_pfcp::ie::application_ids_pfds::ApplicationIdsPfds;
use rs_pfcp::ie::pfd_context::PfdContext;
use rs_pfcp::message::pfd_management_request::{PfdManagementRequest, PfdManagementRequestBuilder};
use rs_pfcp::ie::node_report_type::NodeReportType;
use rs_pfcp::message::node_report_request::{NodeReportRequest, NodeReportRequestBuilder};
use std::time::SystemTime;

#[test]
fn test_session_deletion_request_builder_minimal() {
    // Minimal request with only SEID in header (no body IEs)
    let request = SessionDeletionRequestBuilder::new(12345, 67890).build();

    assert_eq!(request.sequence(), 67890);
    assert_eq!(request.seid(), Some(12345));
    assert_eq!(request.msg_type(), MsgType::SessionDeletionRequest);
    assert!(request.tl_container.is_empty());
    assert!(request.node_id.is_none());
    assert!(request.cp_fseid.is_none());
    assert!(request.ies.is_empty());
}

#[test]
fn test_session_deletion_request_builder_with_tl_container() {
    // Use Unknown type for now until TL-Container IE is implemented
    // TL-Container is IE Type 195 per 3GPP TS 29.244
    let tl_container1 = Ie::new(IeType::Unknown, vec![0x01, 0x02, 0x03]);
    let tl_container2 = Ie::new(IeType::Unknown, vec![0x04, 0x05, 0x06]);

    let request = SessionDeletionRequestBuilder::new(55555, 66666)
        .tl_container(tl_container1.clone())
        .tl_containers(vec![tl_container2.clone()])
        .build();

    assert_eq!(request.sequence(), 66666);
    assert_eq!(request.seid(), Some(55555));
    assert_eq!(request.tl_container.len(), 2);
    assert_eq!(request.tl_container[0], tl_container1);
    assert_eq!(request.tl_container[1], tl_container2);
    assert!(request.node_id.is_none());
    assert!(request.cp_fseid.is_none());
}

#[test]
fn test_session_deletion_request_builder_with_additional_ies() {
    let ie1 = Ie::new(IeType::Unknown, vec![0xAA, 0xBB]);
    let ie2 = Ie::new(IeType::Unknown, vec![0xCC, 0xDD]);

    let request = SessionDeletionRequestBuilder::new(12121, 34343)
        .ie(ie1.clone())
        .ies(vec![ie2.clone()])
        .build();

    assert_eq!(request.sequence(), 34343);
    assert_eq!(request.seid(), Some(12121));
    assert_eq!(request.ies.len(), 2);
    assert_eq!(request.ies[0], ie1);
    assert_eq!(request.ies[1], ie2);
}

#[test]
fn test_session_deletion_request_marshal_minimal() {
    // Test minimal request (only SEID in header)
    let request = SessionDeletionRequestBuilder::new(0x123456, 42).build();
    let marshaled = request.marshal();

    // Parse it back
    let parsed = SessionDeletionRequest::unmarshal(&marshaled).unwrap();
    assert_eq!(parsed.seid(), Some(0x123456));
    assert_eq!(parsed.sequence(), 42);
    assert!(parsed.tl_container.is_empty());
    assert!(parsed.node_id.is_none());
    assert!(parsed.cp_fseid.is_none());
}
