#![allow(unused_imports, deprecated, unused_variables, unused_mut)]
use rs_pfcp::error::{ErrorKind, PfcpError};
use rs_pfcp::ie::cause::{Cause, CauseValue};
use rs_pfcp::ie::fseid::Fseid;
use rs_pfcp::ie::node_id::NodeId;
use rs_pfcp::ie::offending_ie::OffendingIe;
use rs_pfcp::ie::pdn_type::PdnType;
use rs_pfcp::ie::recovery_time_stamp::RecoveryTimeStamp;
use rs_pfcp::ie::source_ip_address::SourceIpAddress;
use rs_pfcp::ie::{Ie, IeType};
use rs_pfcp::message::header::Header;
use rs_pfcp::message::{parse, Generic, IeIter, Message, MsgType, ParsedMessage};
use rs_pfcp::message::heartbeat_request::{HeartbeatRequest, HeartbeatRequestBuilder};
use rs_pfcp::message::heartbeat_response::{HeartbeatResponse, HeartbeatResponseBuilder};
use rs_pfcp::message::association_release_request::{AssociationReleaseRequest, AssociationReleaseRequestBuilder};
use rs_pfcp::message::association_release_response::{AssociationReleaseResponse, AssociationReleaseResponseBuilder};
use rs_pfcp::message::association_setup_request::{AssociationSetupRequest, AssociationSetupRequestBuilder};
use rs_pfcp::message::association_setup_response::{AssociationSetupResponse, AssociationSetupResponseBuilder};
use rs_pfcp::message::association_update_request::{AssociationUpdateRequest, AssociationUpdateRequestBuilder};
use rs_pfcp::message::association_update_response::{AssociationUpdateResponse, AssociationUpdateResponseBuilder};
use rs_pfcp::message::node_report_response::{NodeReportResponse, NodeReportResponseBuilder};
use rs_pfcp::message::pfd_management_response::{PfdManagementResponse, PfdManagementResponseBuilder};
use rs_pfcp::message::session_deletion_request::{SessionDeletionRequest, SessionDeletionRequestBuilder};
use rs_pfcp::message::session_deletion_response::{SessionDeletionResponse, SessionDeletionResponseBuilder};
use rs_pfcp::message::session_establishment_request::{SessionEstablishmentRequest, SessionEstablishmentRequestBuilder};
use rs_pfcp::message::session_establishment_response::{SessionEstablishmentResponse, SessionEstablishmentResponseBuilder};
use rs_pfcp::message::session_modification_request::{SessionModificationRequest, SessionModificationRequestBuilder};
use rs_pfcp::message::session_modification_response::{SessionModificationResponse, SessionModificationResponseBuilder};
use rs_pfcp::message::version_not_supported_response::{VersionNotSupportedResponse, VersionNotSupportedResponseBuilder};
use rs_pfcp::message::session_set_deletion_request::{SessionSetDeletionRequest, SessionSetDeletionRequestBuilder};
use rs_pfcp::message::session_set_deletion_response::{SessionSetDeletionResponse, SessionSetDeletionResponseBuilder};
use rs_pfcp::message::session_set_modification_request::{SessionSetModificationRequest, SessionSetModificationRequestBuilder};
use rs_pfcp::message::session_set_modification_response::{SessionSetModificationResponse, SessionSetModificationResponseBuilder};
use rs_pfcp::message::session_report_request::{SessionReportRequest, SessionReportRequestBuilder};
use rs_pfcp::message::session_report_response::{SessionReportResponse, SessionReportResponseBuilder};
use rs_pfcp::ie::application_id::ApplicationId;
use rs_pfcp::ie::application_ids_pfds::ApplicationIdsPfds;
use rs_pfcp::ie::pfd_context::PfdContext;
use rs_pfcp::message::pfd_management_request::{PfdManagementRequest, PfdManagementRequestBuilder};
use rs_pfcp::ie::node_report_type::NodeReportType;
use rs_pfcp::message::node_report_request::{NodeReportRequest, NodeReportRequestBuilder};
use std::time::SystemTime;
use std::time::Duration;

#[test]
fn test_heartbeat_response_builder_minimal() {
    let response = HeartbeatResponseBuilder::new(12345)
        .recovery_time_stamp(SystemTime::now())
        .build();

    assert_eq!(response.sequence(), 12345);
    assert_eq!(response.msg_type(), MsgType::HeartbeatResponse);
    assert_eq!(
        response.recovery_time_stamp_ie().ie_type,
        IeType::RecoveryTimeStamp
    );
    assert!(response.additional_ies().is_empty());
}

#[test]
fn test_heartbeat_response_builder_with_recovery_timestamp() {
    let timestamp = SystemTime::now();
    let recovery_ts = RecoveryTimeStamp::new(timestamp);
    let recovery_ie = Ie::new(IeType::RecoveryTimeStamp, recovery_ts.marshal().to_vec());

    let response = HeartbeatResponseBuilder::new(12345)
        .recovery_time_stamp_ie(recovery_ie.clone())
        .build();

    assert_eq!(response.sequence(), 12345);
    assert_eq!(response.recovery_time_stamp_ie(), &recovery_ie);
}

#[test]
fn test_heartbeat_response_builder_with_ies() {
    let ie1 = Ie::new(IeType::Unknown, vec![0x01]);
    let ie2 = Ie::new(IeType::Unknown, vec![0x02]);
    let ie3 = Ie::new(IeType::Unknown, vec![0x03]);

    let response = HeartbeatResponseBuilder::new(12345)
        .recovery_time_stamp(SystemTime::now())
        .ie(ie1.clone())
        .ies(vec![ie2.clone(), ie3.clone()])
        .build();

    assert_eq!(response.additional_ies().len(), 3);
    assert_eq!(response.ies[0], ie1);
    assert_eq!(response.ies[1], ie2);
    assert_eq!(response.ies[2], ie3);
}

#[test]
fn test_heartbeat_response_builder_full() {
    let timestamp = SystemTime::now();
    let recovery_ts = RecoveryTimeStamp::new(timestamp);
    let recovery_ie = Ie::new(IeType::RecoveryTimeStamp, recovery_ts.marshal().to_vec());

    let additional_ie = Ie::new(IeType::Unknown, vec![0x01, 0x02, 0x03]);

    let response = HeartbeatResponseBuilder::new(12345)
        .recovery_time_stamp_ie(recovery_ie.clone())
        .ie(additional_ie.clone())
        .build();

    assert_eq!(response.sequence(), 12345);
    assert_eq!(response.recovery_time_stamp_ie(), &recovery_ie);
    assert_eq!(response.additional_ies().len(), 1);
    assert_eq!(response.ies[0], additional_ie);
}

#[test]
fn test_heartbeat_response_roundtrip_via_builder() {
    let timestamp = SystemTime::now();
    let recovery_ts = RecoveryTimeStamp::new(timestamp);
    let recovery_ie = Ie::new(IeType::RecoveryTimeStamp, recovery_ts.marshal().to_vec());

    let original = HeartbeatResponseBuilder::new(12345)
        .recovery_time_stamp_ie(recovery_ie)
        .build();

    let marshaled = original.marshal();
    let unmarshaled = HeartbeatResponse::unmarshal(&marshaled).unwrap();

    assert_eq!(original, unmarshaled);
}

#[test]
fn heartbeat_response_test_builder_convenience_recovery_timestamp() {
    let timestamp = SystemTime::now();
    let response = HeartbeatResponseBuilder::new(1000)
        .recovery_time_stamp(timestamp)
        .build();

    assert_eq!(response.sequence(), 1000);
    assert_eq!(
        response.recovery_time_stamp_ie().ie_type,
        IeType::RecoveryTimeStamp
    );

    // Verify the IE was created correctly
    let ie = response.recovery_time_stamp_ie();
    assert_eq!(ie.ie_type, IeType::RecoveryTimeStamp);

    // Verify it can be unmarshaled
    let recovered =
        RecoveryTimeStamp::unmarshal(&response.recovery_time_stamp_ie().payload).unwrap();
    // SystemTime comparison with tolerance (within 1 second)
    let duration = timestamp
        .duration_since(recovered.timestamp())
        .unwrap_or_else(|e| e.duration());
    assert!(duration.as_secs() < 1);
}

#[test]
fn heartbeat_response_test_builder_marshal_convenience() {
    let bytes = HeartbeatResponseBuilder::new(2000)
        .recovery_time_stamp(SystemTime::now())
        .marshal();

    assert!(!bytes.is_empty());
    // Should be able to unmarshal the bytes
    let unmarshaled = HeartbeatResponse::unmarshal(&bytes).unwrap();
    assert_eq!(unmarshaled.sequence(), 2000);
}

#[test]
fn heartbeat_response_test_ies_recovery_timestamp() {
    let response = HeartbeatResponseBuilder::new(3000)
        .recovery_time_stamp(SystemTime::now())
        .build();

    let found = response.ies(IeType::RecoveryTimeStamp).next();
    assert!(found.is_some());
    assert_eq!(found.unwrap().ie_type, IeType::RecoveryTimeStamp);
}

#[test]
fn heartbeat_response_test_ies_in_additional_ies() {
    let custom_ie = Ie::new(IeType::UserPlaneIpResourceInformation, vec![0xAA, 0xBB]);
    let response = HeartbeatResponseBuilder::new(4000)
        .recovery_time_stamp(SystemTime::now())
        .ie(custom_ie.clone())
        .build();

    let found = response.ies(IeType::UserPlaneIpResourceInformation).next();
    assert!(found.is_some());
    assert_eq!(found.unwrap(), &custom_ie);
}

#[test]
fn heartbeat_response_test_ies_not_found() {
    let response = HeartbeatResponseBuilder::new(5000)
        .recovery_time_stamp(SystemTime::now())
        .build();

    // Recovery timestamp will be found, so test for a different IE
    let found = response.ies(IeType::SourceIpAddress).next();
    assert!(found.is_none());
}

#[test]
fn heartbeat_response_test_set_sequence() {
    let mut response = HeartbeatResponseBuilder::new(6000)
        .recovery_time_stamp(SystemTime::now())
        .build();

    assert_eq!(response.sequence(), 6000);
    response.set_sequence(9999);
    assert_eq!(response.sequence(), 9999);
}

#[test]
fn heartbeat_response_test_seid_should_be_none() {
    // Heartbeat messages never have SEID
    let response = HeartbeatResponseBuilder::new(7000)
        .recovery_time_stamp(SystemTime::now())
        .build();
    assert!(response.seid().is_none());
}

#[test]
fn heartbeat_response_test_recovery_timestamp_unix_epoch() {
    let epoch = SystemTime::UNIX_EPOCH;
    let response = HeartbeatResponseBuilder::new(8000)
        .recovery_time_stamp(epoch)
        .build();

    let marshaled = response.marshal();
    let unmarshaled = HeartbeatResponse::unmarshal(&marshaled).unwrap();
    assert_eq!(unmarshaled.sequence(), 8000);
    assert_eq!(
        unmarshaled.recovery_time_stamp_ie().ie_type,
        IeType::RecoveryTimeStamp
    );
}

#[test]
fn heartbeat_response_test_recovery_timestamp_future() {
    let future = SystemTime::now() + Duration::from_secs(3600 * 24 * 365); // 1 year from now
    let response = HeartbeatResponseBuilder::new(9000)
        .recovery_time_stamp(future)
        .build();

    let marshaled = response.marshal();
    let unmarshaled = HeartbeatResponse::unmarshal(&marshaled).unwrap();
    assert_eq!(unmarshaled.sequence(), 9000);
}

#[test]
fn test_with_multiple_additional_ies() {
    let ie1 = Ie::new(IeType::UserPlaneIpResourceInformation, vec![0x01]);
    let ie2 = Ie::new(IeType::UserPlaneIpResourceInformation, vec![0x02]);
    let ie3 = Ie::new(IeType::UserPlaneIpResourceInformation, vec![0x03]);

    let response = HeartbeatResponseBuilder::new(10000)
        .recovery_time_stamp(SystemTime::now())
        .ie(ie1.clone())
        .ie(ie2.clone())
        .ie(ie3.clone())
        .build();

    assert_eq!(response.sequence(), 10000);
    assert_eq!(
        response.recovery_time_stamp_ie().ie_type,
        IeType::RecoveryTimeStamp
    );
    assert_eq!(response.additional_ies().len(), 3);

    // Round trip
    let marshaled = response.marshal();
    let unmarshaled = HeartbeatResponse::unmarshal(&marshaled).unwrap();
    assert_eq!(unmarshaled.sequence(), 10000);
    assert_eq!(
        unmarshaled.recovery_time_stamp_ie().ie_type,
        IeType::RecoveryTimeStamp
    );
    assert_eq!(unmarshaled.additional_ies().len(), 3);
}

#[test]
fn heartbeat_response_test_unmarshal_minimal_message() {
    // Minimal message with only mandatory recovery_time_stamp
    let response = HeartbeatResponseBuilder::new(11000)
        .recovery_time_stamp(SystemTime::now())
        .build();
    let marshaled = response.marshal();
    let unmarshaled = HeartbeatResponse::unmarshal(&marshaled).unwrap();

    assert_eq!(unmarshaled.sequence(), 11000);
    assert_eq!(
        unmarshaled.recovery_time_stamp_ie().ie_type,
        IeType::RecoveryTimeStamp
    );
    assert!(unmarshaled.additional_ies().is_empty());
}

#[test]
fn heartbeat_response_test_header_length_calculation() {
    // Minimal message (with mandatory recovery_time_stamp)
    let minimal = HeartbeatResponseBuilder::new(12000)
        .recovery_time_stamp(SystemTime::now())
        .build();
    let minimal_bytes = minimal.marshal();
    // Header overhead + recovery timestamp IE
    assert!(minimal.header.length > 4);

    // With recovery timestamp + additional IE
    let with_ie = HeartbeatResponseBuilder::new(13000)
        .recovery_time_stamp(SystemTime::now())
        .ie(Ie::new(
            IeType::UserPlaneIpResourceInformation,
            vec![0x01, 0x02],
        ))
        .build();
    let with_ie_bytes = with_ie.marshal();
    assert!(with_ie.header.length > minimal.header.length);

    // Verify unmarshal works
    HeartbeatResponse::unmarshal(&minimal_bytes).unwrap();
    HeartbeatResponse::unmarshal(&with_ie_bytes).unwrap();
}

#[test]
fn heartbeat_response_test_builder_method_chaining() {
    let response = HeartbeatResponseBuilder::new(14000)
        .recovery_time_stamp(SystemTime::now())
        .ie(Ie::new(IeType::UserPlaneIpResourceInformation, vec![0xAA]))
        .ies(vec![
            Ie::new(IeType::UserPlaneIpResourceInformation, vec![0xBB]),
            Ie::new(IeType::UserPlaneIpResourceInformation, vec![0xCC]),
        ])
        .build();

    assert_eq!(response.sequence(), 14000);
    assert_eq!(
        response.recovery_time_stamp_ie().ie_type,
        IeType::RecoveryTimeStamp
    );
    assert_eq!(response.additional_ies().len(), 3);
}

#[test]
fn heartbeat_response_test_multiple_roundtrips() {
    // Test that we can roundtrip multiple times without loss
    let original = HeartbeatResponseBuilder::new(15000)
        .recovery_time_stamp(SystemTime::now())
        .ie(Ie::new(
            IeType::UserPlaneIpResourceInformation,
            vec![0x12, 0x34],
        ))
        .build();

    let bytes1 = original.marshal();
    let unmarshaled1 = HeartbeatResponse::unmarshal(&bytes1).unwrap();

    let bytes2 = unmarshaled1.marshal();
    let unmarshaled2 = HeartbeatResponse::unmarshal(&bytes2).unwrap();

    let bytes3 = unmarshaled2.marshal();
    let unmarshaled3 = HeartbeatResponse::unmarshal(&bytes3).unwrap();

    // All should be identical
    assert_eq!(unmarshaled1, unmarshaled2);
    assert_eq!(unmarshaled2, unmarshaled3);
}

#[test]
fn test_ergonomic_one_liner() {
    let bytes = HeartbeatResponseBuilder::new(16000)
        .recovery_time_stamp(SystemTime::now())
        .marshal();

    assert!(!bytes.is_empty());
    assert!(HeartbeatResponse::unmarshal(&bytes).is_ok());
}

#[test]
fn heartbeat_response_test_full_roundtrip_with_all_features() {
    let ie1 = Ie::new(
        IeType::UserPlaneIpResourceInformation,
        vec![0x01, 0x02, 0x03],
    );
    let ie2 = Ie::new(
        IeType::UserPlaneIpResourceInformation,
        vec![0x04, 0x05, 0x06],
    );

    let original = HeartbeatResponseBuilder::new(17000)
        .recovery_time_stamp(SystemTime::now())
        .ie(ie1)
        .ie(ie2)
        .build();

    let marshaled = original.marshal();
    let unmarshaled = HeartbeatResponse::unmarshal(&marshaled).unwrap();

    assert_eq!(original, unmarshaled);
    assert_eq!(unmarshaled.sequence(), 17000);
    assert_eq!(
        unmarshaled.recovery_time_stamp_ie().ie_type,
        IeType::RecoveryTimeStamp
    );
    assert_eq!(unmarshaled.additional_ies().len(), 2);
}

#[test]
fn heartbeat_response_test_unmarshal_missing_mandatory_recovery_timestamp() {
    // Create a message without recovery timestamp - should fail

    let header = Header::new(MsgType::HeartbeatResponse, false, 0, 18000);
    let marshaled = header.marshal();

    // Unmarshaling should fail because recovery_time_stamp is mandatory
    let result = HeartbeatResponse::unmarshal(&marshaled);
    assert!(result.is_err());
    match result.unwrap_err() {
        PfcpError::MissingMandatoryIe { ie_type, .. } => {
            assert_eq!(ie_type, IeType::RecoveryTimeStamp);
        }
        _ => panic!("Expected MissingMandatoryIe error"),
    }
}
