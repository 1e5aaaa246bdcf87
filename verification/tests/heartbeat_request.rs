#![allow(unused_imports, deprecated, unused_variables, unused_mut)]
use rs_pfcp::error::{ErrorKind, PfcpError};
use rs_pfcp::ie::cause::{Cause, CauseValue};
use rs_pfcp::ie::fseid::Fseid;
use rs_pfcp::ie::node_id::NodeId;
use rs_pfcp::ie::offending_ie::OffendingIe;
use rs_pfcp::ie::pdn_type::PdnType;
use rs_pfcp::ie::recovery_time_stamp::RecoveryTimeStamp;
use rs_pfcp::ie::source_ip_address::SourceIpAddress;
use rs_pfcp::ie::{Ie, IeType};
use rs_pfcp::message::header::Header;
use rs_pfcp::message::{parse, Generic, IeIter, Message, MsgType, ParsedMessage};
use rs_pfcp::message::heartbeat_request::{HeartbeatRequest, HeartbeatRequestBuilder};
use rs_pfcp::message::heartbeat_response::{HeartbeatResponse, HeartbeatResponseBuilder};
use rs_pfcp::message::association_release_request::{AssociationReleaseRequest, AssociationReleaseRequestBuilder};
use rs_pfcp::message::association_release_response::{AssociationReleaseResponse, AssociationReleaseResponseBuilder};
use rs_pfcp::message::association_setup_request::{AssociationSetupRequest, AssociationSetupRequestBuilder};
use rs_pfcp::message::association_setup_response::{AssociationSetupResponse, AssociationSetupResponseBuilder};
use rs_pfcp::message::association_update_request::{AssociationUpdateRequest, AssociationUpdateRequestBuilder};
use rs_pfcp::message::association_update_response::{AssociationUpdateResponse, AssociationUpdateResponseBuilder};
use rs_pfcp::message::node_report_response::{NodeReportResponse, NodeReportResponseBuilder};
use rs_pfcp::message::pfd_management_response::{PfdManagementResponse, PfdManagementResponseBuilder};
use rs_pfcp::message::session_deletion_request::{SessionDeletionRequest, SessionDeletionRequestBuilder};
use rs_pfcp::message::session_deletion_response::{SessionDeletionResponse, SessionDeletionResponseBuilder};
use rs_pfcp::message::session_establishment_request::{SessionEstablishmentRequest, SessionEstablishmentRequestBuilder};
use rs_pfcp::message::session_establishment_response::{SessionEstablishmentResponse, SessionEstablishmentResponseBuilder};
use rs_pfcp::message::session_modification_request::{SessionModificationRequest, SessionModificationRequestBuilder};
use rs_pfcp::message::session_modification_response::{SessionModificationResponse, SessionModificationResponseBuilder};
use rs_pfcp::message::version_not_supported_response::{VersionNotSupportedResponse, VersionNotSupportedResponseBuilder};
use rs_pfcp::message::session_set_deletion_request::{SessionSetDeletionRequest, SessionSetDeletionRequestBuilder};
use rs_pfcp::message::session_set_deletion_response::{SessionSetDeletionResponse, SessionSetDeletionResponseBuilder};
use rs_pfcp::message::session_set_modification_request::{SessionSetModificationRequest, SessionSetModificationRequestBuilder};
use rs_pfcp::message::session_set_modification_response::{SessionSetModificationResponse, SessionSetModificationResponseBuilder};
use rs_pfcp::message::session_report_request::{SessionReportRequest, SessionReportRequestBuilder};
use rs_pfcp::message::session_report_response::{SessionReportResponse, SessionReportResponseBuilder};
use rs_pfcp::ie::application_id::ApplicationId;
use rs_pfcp::ie::application_ids_pfds::ApplicationIdsPfds;
use rs_pfcp::ie::pfd_context::PfdContext;
use rs_pfcp::message::pfd_management_request::{PfdManagementRequest, PfdManagementRequestBuilder};
use rs_pfcp::ie::node_report_type::NodeReportType;
use rs_pfcp::message::node_report_request::{NodeReportRequest, NodeReportRequestBuilder};
use std::time::SystemTime;
use std::time::Duration;

#[test]
fn test_heartbeat_request_builder_minimal() {
    let request = HeartbeatRequestBuilder::new(12345)
        .recovery_time_stamp(SystemTime::now())
        .build();

    assert_eq!(request.sequence(), 12345);
    assert_eq!(request.msg_type(), MsgType::HeartbeatRequest);
    assert_eq!(
        request.recovery_time_stamp_ie().ie_type,
        IeType::RecoveryTimeStamp
    );
    assert!(request.source_ip_address_ie().is_none());
    assert!(request.additional_ies().is_empty());
}

#[test]
fn test_heartbeat_request_builder_with_recovery_timestamp() {
    let timestamp = SystemTime::now();
    let recovery_ts = RecoveryTimeStamp::new(timestamp);
    let recovery_ie = Ie::new(IeType::RecoveryTimeStamp, recovery_ts.marshal().to_vec());

    let request = HeartbeatRequestBuilder::new(12345)
        .recovery_time_stamp_ie(recovery_ie.clone())
        .build();

    assert_eq!(request.sequence(), 12345);
    assert_eq!(request.recovery_time_stamp_ie(), &recovery_ie);
    assert!(request.source_ip_address_ie().is_none());
}

#[test]
fn test_heartbeat_request_builder_with_multiple_ies() {
    let ie1 = Ie::new(IeType::Unknown, vec![0x01]);
    let ie2 = Ie::new(IeType::Unknown, vec![0x02]);
    let ie3 = Ie::new(IeType::Unknown, vec![0x03]);

    let request = HeartbeatRequestBuilder::new(12345)
        .recovery_time_stamp(SystemTime::now())
        .ie(ie1.clone())
        .ies(vec![ie2.clone(), ie3.clone()])
        .build();

    assert_eq!(request.additional_ies().len(), 3);
    assert_eq!(request.additional_ies()[0], ie1);
    assert_eq!(request.additional_ies()[1], ie2);
    assert_eq!(request.additional_ies()[2], ie3);
}

#[test]
fn test_heartbeat_request_roundtrip_via_builder() {
    let timestamp = SystemTime::now();
    let recovery_ts = RecoveryTimeStamp::new(timestamp);
    let recovery_ie = Ie::new(IeType::RecoveryTimeStamp, recovery_ts.marshal().to_vec());

    let original = HeartbeatRequestBuilder::new(12345)
        .recovery_time_stamp_ie(recovery_ie)
        .build();

    let marshaled = original.marshal();
    let unmarshaled = HeartbeatRequest::unmarshal(&marshaled).unwrap();

    assert_eq!(original, unmarshaled);
}

#[test]
fn test_heartbeat_request_ergonomic_timestamp() {
    let timestamp = SystemTime::now();

    let request = HeartbeatRequestBuilder::new(12345)
        .recovery_time_stamp(timestamp)
        .build();

    assert_eq!(request.sequence(), 12345);
    assert_eq!(
        request.recovery_time_stamp_ie().ie_type,
        IeType::RecoveryTimeStamp
    );

    // Verify the IE was created correctly
    let ie = request.recovery_time_stamp_ie();
    assert_eq!(ie.ie_type, IeType::RecoveryTimeStamp);

    // Verify it can be unmarshaled
    let recovered = RecoveryTimeStamp::unmarshal(&request.recovery_time_stamp_ie().payload).unwrap();
    // SystemTime comparison with tolerance (within 1 second)
    let duration = timestamp
        .duration_since(recovered.timestamp())
        .unwrap_or_else(|e| e.duration());
    assert!(duration.as_secs() < 1);
}

#[test]
fn test_heartbeat_request_ergonomic_marshal_method() {
    // Test the .marshal() convenience method
    let bytes = HeartbeatRequestBuilder::new(12345)
        .recovery_time_stamp(SystemTime::now())
        .marshal();

    // Should produce valid bytes
    let request = HeartbeatRequest::unmarshal(&bytes).unwrap();
    assert_eq!(request.sequence(), 12345);
    assert_eq!(
        request.recovery_time_stamp_ie().ie_type,
        IeType::RecoveryTimeStamp
    );
}

#[test]
fn test_heartbeat_request_ergonomic_one_liner() {
    // The ultimate ergonomic test - everything in one line
    let bytes = HeartbeatRequestBuilder::new(1)
        .recovery_time_stamp(SystemTime::now())
        .marshal();

    assert!(!bytes.is_empty());
    assert!(HeartbeatRequest::unmarshal(&bytes).is_ok());
}

#[test]
fn heartbeat_request_test_find_ie_recovery_timestamp() {
    let request = HeartbeatRequestBuilder::new(1000)
        .recovery_time_stamp(SystemTime::now())
        .build();

    let found = request.find_ie(IeType::RecoveryTimeStamp);
    assert!(found.is_some());
    assert_eq!(found.unwrap().ie_type, IeType::RecoveryTimeStamp);
}

#[test]
fn heartbeat_request_test_find_ie_in_additional_ies() {
    let custom_ie = Ie::new(IeType::UserPlaneIpResourceInformation, vec![0xAA, 0xBB]);
    let request = HeartbeatRequestBuilder::new(3000)
        .recovery_time_stamp(SystemTime::now())
        .ie(custom_ie.clone())
        .build();

    let found = request.find_ie(IeType::UserPlaneIpResourceInformation);
    assert!(found.is_some());
    assert_eq!(found.unwrap(), &custom_ie);
}

#[test]
fn heartbeat_request_test_find_ie_not_found() {
    let request = HeartbeatRequestBuilder::new(4000)
        .recovery_time_stamp(SystemTime::now())
        .build();

    // Recovery timestamp will be found, so test for a different IE
    let found = request.find_ie(IeType::SourceIpAddress);
    assert!(found.is_none());
}

#[test]
fn heartbeat_request_test_set_sequence() {
    let mut request = HeartbeatRequestBuilder::new(5000)
        .recovery_time_stamp(SystemTime::now())
        .build();

    assert_eq!(request.sequence(), 5000);
    request.set_sequence(9999);
    assert_eq!(request.sequence(), 9999);
}

#[test]
fn heartbeat_request_test_seid_should_be_none() {
    // Heartbeat messages never have SEID
    let request = HeartbeatRequestBuilder::new(6000)
        .recovery_time_stamp(SystemTime::now())
        .build();
    assert!(request.seid().is_none());
}

#[test]
fn heartbeat_request_test_recovery_timestamp_unix_epoch() {
    let epoch = SystemTime::UNIX_EPOCH;
    let request = HeartbeatRequestBuilder::new(7000)
        .recovery_time_stamp(epoch)
        .build();

    let marshaled = request.marshal();
    let unmarshaled = HeartbeatRequest::unmarshal(&marshaled).unwrap();
    assert_eq!(unmarshaled.sequence(), 7000);
    assert_eq!(
        unmarshaled.recovery_time_stamp_ie().ie_type,
        IeType::RecoveryTimeStamp
    );
}

#[test]
fn heartbeat_request_test_recovery_timestamp_future() {
    let future = SystemTime::now() + Duration::from_secs(3600 * 24 * 365); // 1 year from now
    let request = HeartbeatRequestBuilder::new(8000)
        .recovery_time_stamp(future)
        .build();

    let marshaled = request.marshal();
    let unmarshaled = HeartbeatRequest::unmarshal(&marshaled).unwrap();
    assert_eq!(unmarshaled.sequence(), 8000);
}

#[test]
fn heartbeat_request_test_unmarshal_minimal_message() {
    // Minimal message with only mandatory recovery_time_stamp
    let request = HeartbeatRequestBuilder::new(12000)
        .recovery_time_stamp(SystemTime::now())
        .build();
    let marshaled = request.marshal();
    let unmarshaled = HeartbeatRequest::unmarshal(&marshaled).unwrap();

    assert_eq!(unmarshaled.sequence(), 12000);
    assert_eq!(
        unmarshaled.recovery_time_stamp_ie().ie_type,
        IeType::RecoveryTimeStamp
    );
    assert!(unmarshaled.source_ip_address_ie().is_none());
    assert!(unmarshaled.additional_ies().is_empty());
}

#[test]
fn heartbeat_request_test_unmarshal_missing_mandatory_recovery_timestamp() {
    // Create a message without recovery timestamp - should fail

    let header = Header::new(MsgType::HeartbeatRequest, false, 0, 17000);
    let marshaled = header.marshal();

    // Unmarshaling should fail because recovery_time_stamp is mandatory
    let result = HeartbeatRequest::unmarshal(&marshaled);
    assert!(result.is_err());
    assert_eq!(result.unwrap_err().kind(), ErrorKind::InvalidData);
}
