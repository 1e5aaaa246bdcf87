#![allow(unused_imports, deprecated, unused_variables, unused_mut)]
use rs_pfcp::error::{ErrorKind, PfcpError};
use rs_pfcp::ie::cause::{Cause, CauseValue};
use rs_pfcp::ie::fseid::Fseid;
use rs_pfcp::ie::node_id::NodeId;
use rs_pfcp::ie::offending_ie::OffendingIe;
use rs_pfcp::ie::pdn_type::PdnType;
use rs_pfcp::ie::recovery_time_stamp::RecoveryTimeStamp;
use rs_pfcp::ie::source_ip_address::SourceIpAddress;
use rs_pfcp::ie::{Ie, IeType};
use rs_pfcp::message::header::Header;
use rs_pfcp::message::{parse, Generic, IeIter, Message, MsgType, ParsedMessage};
use rs_pfcp::message::heartbeat_request::{HeartbeatRequest, HeartbeatRequestBuilder};
use rs_pfcp::message::heartbeat_response::{HeartbeatResponse, HeartbeatResponseBuilder};
use rs_pfcp::message::association_release_request::{AssociationReleaseRequest, AssociationReleaseRequestBuilder};
use rs_pfcp::message::association_release_response::{AssociationReleaseResponse, AssociationReleaseResponseBuilder};
use rs_pfcp::message::association_setup_request::{AssociationSetupRequest, AssociationSetupRequestBuilder};
use rs_pfcp::message::association_setup_response::{AssociationSetupResponse, AssociationSetupResponseBuilder};
use rs_pfcp::message::association_update_request::{AssociationUpdateRequest, AssociationUpdateRequestBuilder};
use rs_pfcp::message::association_update_response::{AssociationUpdateResponse, AssociationUpdateResponseBuilder};
use rs_pfcp::message::node_report_response::{NodeReportResponse, NodeReportResponseBuilder};
use rs_pfcp::message::pfd_management_response::{PfdManagementResponse, PfdManagementResponseBuilder};
use rs_pfcp::message::session_deletion_request::{SessionDeletionRequest, SessionDeletionRequestBuilder};
use rs_pfcp::message::session_deletion_response::{SessionDeletionResponse, SessionDeletionResponseBuilder};
use rs_pfcp::message::session_establishment_request::{SessionEstablishmentRequest, SessionEstablishmentRequestBuilder};
use rs_pfcp::message::session_establishment_response::{SessionEstablishmentResponse, SessionEstablishmentResponseBuilder};
use rs_pfcp::message::session_modification_request::{SessionModificationRequest, SessionModificationRequestBuilder};
use rs_pfcp::message::session_modification_response::{SessionModificationResponse, SessionModificationResponseBuilder};
use rs_pfcp::message::version_not_supported_response::{VersionNotSupportedResponse, VersionNotSupportedResponseBuilder};
use rs_pfcp::message::session_set_deletion_request::{SessionSetDeletionRequest, SessionSetDeletionRequestBuilder};
use rs_pfcp::message::session_set_deletion_response::{SessionSetDeletionResponse, SessionSetDeletionResponseBuilder};
use rs_pfcp::message::session_set_modification_request::{SessionSetModificationRequest, SessionSetModificationRequestBuilder};
use rs_pfcp::message::session_set_modification_response::{SessionSetModificationResponse, SessionSetModificationResponseBuilder};
use rs_pfcp::message::session_report_request::{SessionReportRequest, SessionReportRequestBuilder};
use rs_pfcp::message::session_report_response::{SessionReportResponse, SessionReportResponseBuilder};
use rs_pfcp::ie::application_id::ApplicationId;
use rs_pfcp::ie::application_ids_pfds::ApplicationIdsPfds;
use rs_pfcp::ie::pfd_context::PfdContext;
use rs_pfcp::message::pfd_management_request::{PfdManagementRequest, PfdManagementRequestBuilder};
use rs_pfcp::ie::node_report_type::NodeReportType;
use rs_pfcp::message::node_report_request::{NodeReportRequest, NodeReportRequestBuilder};
use std::time::SystemTime;

#[test]
fn test_msg_type_from_u8_heartbeat() {
    assert_eq!(MsgType::from(1), MsgType::HeartbeatRequest);
    assert_eq!(MsgType::from(2), MsgType::HeartbeatResponse);
}

#[test]
fn test_msg_type_from_u8_pfd_management() {
    assert_eq!(MsgType::from(3), MsgType::PfdManagementRequest);
    assert_eq!(MsgType::from(4), MsgType::PfdManagementResponse);
}

#[test]
fn test_msg_type_from_u8_association() {
    assert_eq!(MsgType::from(5), MsgType::AssociationSetupRequest);
    assert_eq!(MsgType::from(6), MsgType::AssociationSetupResponse);
    assert_eq!(MsgType::from(7), MsgType::AssociationUpdateRequest);
    assert_eq!(MsgType::from(8), MsgType::AssociationUpdateResponse);
    assert_eq!(MsgType::from(9), MsgType::AssociationReleaseRequest);
    assert_eq!(MsgType::from(10), MsgType::AssociationReleaseResponse);
}

#[test]
fn test_msg_type_from_u8_session() {
    assert_eq!(MsgType::from(50), MsgType::SessionEstablishmentRequest);
    assert_eq!(MsgType::from(51), MsgType::SessionEstablishmentResponse);
    assert_eq!(MsgType::from(52), MsgType::SessionModificationRequest);
    assert_eq!(MsgType::from(53), MsgType::SessionModificationResponse);
    assert_eq!(MsgType::from(54), MsgType::SessionDeletionRequest);
    assert_eq!(MsgType::from(55), MsgType::SessionDeletionResponse);
    assert_eq!(MsgType::from(56), MsgType::SessionReportRequest);
    assert_eq!(MsgType::from(57), MsgType::SessionReportResponse);
}

#[test]
fn test_msg_type_from_u8_node_report() {
    assert_eq!(MsgType::from(12), MsgType::NodeReportRequest);
    assert_eq!(MsgType::from(13), MsgType::NodeReportResponse);
}

#[test]
fn test_msg_type_from_u8_session_set() {
    assert_eq!(MsgType::from(14), MsgType::SessionSetDeletionRequest);
    assert_eq!(MsgType::from(15), MsgType::SessionSetDeletionResponse);
    assert_eq!(MsgType::from(16), MsgType::SessionSetModificationRequest);
    assert_eq!(MsgType::from(17), MsgType::SessionSetModificationResponse);
}

#[test]
fn test_msg_type_from_u8_version_not_supported() {
    assert_eq!(MsgType::from(11), MsgType::VersionNotSupportedResponse);
}

#[test]
fn test_msg_type_from_u8_unknown() {
    assert_eq!(MsgType::from(0), MsgType::Unknown);
    assert_eq!(MsgType::from(18), MsgType::Unknown);
    assert_eq!(MsgType::from(255), MsgType::Unknown);
}

#[test]
fn test_msg_type_to_u8_round_trip() {
    let test_types = vec![
        MsgType::HeartbeatRequest,
        MsgType::HeartbeatResponse,
        MsgType::AssociationSetupRequest,
        MsgType::AssociationSetupResponse,
        MsgType::SessionEstablishmentRequest,
        MsgType::SessionEstablishmentResponse,
        MsgType::SessionModificationRequest,
        MsgType::SessionModificationResponse,
        MsgType::SessionDeletionRequest,
        MsgType::SessionDeletionResponse,
        MsgType::SessionReportRequest,
        MsgType::SessionReportResponse,
    ];

    for msg_type in test_types {
        let as_u8 = msg_type.code();
        let back = MsgType::from(as_u8);
        assert_eq!(back, msg_type, "Round-trip failed for {:?}", msg_type);
    }
}

#[test]
fn test_generic_message_marshal_unmarshal() {
    // Create a minimal PFCP message with Generic
    let header = Header {
        version: 1,
        has_fo: false,
        has_mp: false,
        message_type: MsgType::Unknown,
        length: 8, // Will be recalculated
        seid: 0,
        sequence_number: 12345,
        message_priority: 0,
        has_seid: false,
        raw_message_type: 58,
    };

    let ies = vec![
        Ie::new(IeType::Cause, vec![0x01]), // Request accepted
    ];

    let msg = Generic {
        header: header.clone(),
        ies: ies.clone(),
    };

    let marshaled = msg.marshal();
    let unmarshaled = Generic::unmarshal(&marshaled).unwrap();

    assert_eq!(unmarshaled.msg_type(), msg.msg_type());
    assert_eq!(unmarshaled.sequence(), msg.sequence());
    assert_eq!(unmarshaled.seid(), msg.seid());
    assert_eq!(unmarshaled.ies.len(), ies.len());
}

#[test]
fn test_generic_message_with_seid() {
    let header = Header {
        version: 1,
        has_fo: false,
        has_mp: false,
        message_type: MsgType::Unknown,
        length: 16,
        seid: 0x1234567890ABCDEF,
        sequence_number: 54321,
        message_priority: 0,
        has_seid: true,
        raw_message_type: 58,
    };

    let msg = Generic {
        header,
        ies: vec![],
    };

    assert_eq!(msg.seid(), Some(0x1234567890ABCDEF));
}

#[test]
fn test_generic_message_without_seid() {
    let header = Header {
        version: 1,
        has_fo: false,
        has_mp: false,
        message_type: MsgType::HeartbeatRequest,
        length: 8,
        seid: 0,
        sequence_number: 111,
        message_priority: 0,
        has_seid: false,
        raw_message_type: 1,
    };

    let msg = Generic {
        header,
        ies: vec![],
    };

    assert_eq!(msg.seid(), None);
}

#[test]
fn test_generic_message_set_sequence() {
    let mut msg = Generic {
        header: Header {
            version: 1,
            has_fo: false,
            has_mp: false,
            message_type: MsgType::Unknown,
            length: 8,
            seid: 0,
            sequence_number: 100,
            message_priority: 0,
            has_seid: false,
            raw_message_type: 58,
        },
        ies: vec![],
    };

    assert_eq!(msg.sequence(), 100);
    msg.set_sequence(200);
    assert_eq!(msg.sequence(), 200);
}

#[test]
fn test_generic_message_find_ie() {
    let ies = vec![
        Ie::new(IeType::Cause, vec![0x01]),
        Ie::new(IeType::NodeId, vec![0x00, 0x01, 0x02, 0x03, 0x04]),
        Ie::new(IeType::RecoveryTimeStamp, vec![0x00, 0x00, 0x00, 0x01]),
    ];

    let msg = Generic {
        header: Header {
            version: 1,
            has_fo: false,
            has_mp: false,
            message_type: MsgType::Unknown,
            length: 8,
            seid: 0,
            sequence_number: 1,
            message_priority: 0,
            has_seid: false,
            raw_message_type: 58,
        },
        ies,
    };

    // Find existing IE
    let cause = msg.find_ie(IeType::Cause);
    assert!(cause.is_some());
    assert_eq!(cause.unwrap().ie_type, IeType::Cause);

    // Find non-existent IE
    let far_id = msg.find_ie(IeType::FarId);
    assert!(far_id.is_none());
}

#[test]
fn test_generic_message_find_all_ies() {
    let ies = vec![
        Ie::new(IeType::Cause, vec![0x01]),
        Ie::new(IeType::CreatePdr, vec![0x01, 0x02]),
        Ie::new(IeType::CreatePdr, vec![0x03, 0x04]),
        Ie::new(IeType::NodeId, vec![0x00, 0x01, 0x02, 0x03, 0x04]),
    ];

    let msg = Generic {
        header: Header {
            version: 1,
            has_fo: false,
            has_mp: false,
            message_type: MsgType::Unknown,
            length: 8,
            seid: 0,
            sequence_number: 1,
            message_priority: 0,
            has_seid: false,
            raw_message_type: 58,
        },
        ies,
    };

    // Default implementation returns single IE or empty vec
    let cause_ies = msg.find_all_ies(IeType::Cause);
    assert_eq!(cause_ies.len(), 1);

    // Non-existent IE
    let far_ies = msg.find_all_ies(IeType::FarId);
    assert_eq!(far_ies.len(), 0);
}

#[test]
fn test_generic_message_msg_name() {
    let msg = Generic {
        header: Header {
            version: 1,
            has_fo: false,
            has_mp: false,
            message_type: MsgType::HeartbeatRequest,
            length: 8,
            seid: 0,
            sequence_number: 1,
            message_priority: 0,
            has_seid: false,
            raw_message_type: 1,
        },
        ies: vec![],
    };

    assert_eq!(msg.msg_name(), "HeartbeatRequest");
}

#[test]
fn test_generic_message_version() {
    let msg = Generic {
        header: Header {
            version: 1,
            has_fo: false,
            has_mp: false,
            message_type: MsgType::Unknown,
            length: 8,
            seid: 0,
            sequence_number: 1,
            message_priority: 0,
            has_seid: false,
            raw_message_type: 58,
        },
        ies: vec![],
    };

    assert_eq!(msg.version(), 1);
}

#[test]
fn test_generic_message_unmarshal_error_invalid_header() {
    let short_data = vec![0x20]; // Too short for header
    let result = Generic::unmarshal(&short_data);
    assert!(result.is_err());
}

#[test]
fn test_generic_message_unmarshal_multiple_ies() {
    // Create Generic with multiple IEs
    let header = Header {
        version: 1,
        has_fo: false,
        has_mp: false,
        message_type: MsgType::Unknown,
        length: 8,
        seid: 0,
        sequence_number: 999,
        message_priority: 0,
        has_seid: false,
        raw_message_type: 58,
    };

    let ies = vec![
        Ie::new(IeType::Cause, vec![0x01]),
        Ie::new(IeType::NodeId, vec![0x00, 0xC0, 0xA8, 0x01, 0x01]),
        Ie::new(IeType::RecoveryTimeStamp, vec![0x12, 0x34, 0x56, 0x78]),
    ];

    let msg = Generic { header, ies };
    let marshaled = msg.marshal();

    let unmarshaled = Generic::unmarshal(&marshaled).unwrap();
    assert_eq!(unmarshaled.ies.len(), 3);
    assert_eq!(unmarshaled.ies[0].ie_type, IeType::Cause);
    assert_eq!(unmarshaled.ies[1].ie_type, IeType::NodeId);
    assert_eq!(unmarshaled.ies[2].ie_type, IeType::RecoveryTimeStamp);
}

#[test]
fn test_parse_heartbeat_request() {
    // Create a valid heartbeat request message

    let recovery_ts = RecoveryTimeStamp::new(SystemTime::UNIX_EPOCH);
    let recovery_ie = Ie::new(IeType::RecoveryTimeStamp, recovery_ts.marshal().to_vec());

    let msg = HeartbeatRequestBuilder::new(12345)
        .recovery_time_stamp_ie(recovery_ie)
        .build();

    let marshaled = msg.marshal();
    let parsed = parse(&marshaled).unwrap();

    assert_eq!(parsed.msg_type(), MsgType::HeartbeatRequest);
    assert_eq!(parsed.sequence(), 12345);
}

#[test]
fn test_parse_heartbeat_response() {

    let recovery_ts = RecoveryTimeStamp::new(SystemTime::UNIX_EPOCH);
    let recovery_ie = Ie::new(IeType::RecoveryTimeStamp, recovery_ts.marshal().to_vec());

    let msg = HeartbeatResponseBuilder::new(54321)
        .recovery_time_stamp_ie(recovery_ie)
        .build();

    let marshaled = msg.marshal();
    let parsed = parse(&marshaled).unwrap();

    assert_eq!(parsed.msg_type(), MsgType::HeartbeatResponse);
    assert_eq!(parsed.sequence(), 54321);
}

#[test]
fn test_parse_session_modification_request() {

    let msg = SessionModificationRequestBuilder::new(0x123456, 88888).build();

    let marshaled = msg.marshal();
    let parsed = parse(&marshaled).unwrap();

    assert_eq!(parsed.msg_type(), MsgType::SessionModificationRequest);
    assert_eq!(parsed.sequence(), 88888);
    assert_eq!(parsed.seid(), Some(0x123456));
}

#[test]
fn test_parse_session_deletion_request() {

    // Minimal deletion request with SEID in header (per 3GPP TS 29.244 Section 7.5.6)
    let msg = SessionDeletionRequestBuilder::new(0x999999, 66666).build();

    let marshaled = msg.marshal();
    let parsed = parse(&marshaled).unwrap();

    assert_eq!(parsed.msg_type(), MsgType::SessionDeletionRequest);
    assert_eq!(parsed.sequence(), 66666);
    assert_eq!(parsed.seid(), Some(0x999999));
}

#[test]
fn test_parse_session_report_request() {

    let msg = SessionReportRequestBuilder::new(0xFEDCBA, 55555).build();

    let marshaled = msg.marshal();
    let parsed = parse(&marshaled).unwrap();

    assert_eq!(parsed.msg_type(), MsgType::SessionReportRequest);
    assert_eq!(parsed.sequence(), 55555);
    assert_eq!(parsed.seid(), Some(0xFEDCBA));
}

#[test]
fn test_parse_unknown_message_type() {
    // Create a message with unknown type (using Generic)
    let header = Header {
        version: 1,
        has_fo: false,
        has_mp: false,
        message_type: MsgType::Unknown,
        length: 8,
        seid: 0,
        sequence_number: 33333,
        message_priority: 0,
        has_seid: false,
        raw_message_type: 58,
    };

    let msg = Generic {
        header,
        ies: vec![],
    };

    let marshaled = msg.marshal();
    let parsed = parse(&marshaled).unwrap();

    assert_eq!(parsed.msg_type(), MsgType::Unknown);
    assert_eq!(parsed.sequence(), 33333);
}

#[test]
fn test_parse_error_short_buffer() {
    let short_data = vec![0x20, 0x01]; // Too short for valid message
    let result = parse(&short_data);
    assert!(result.is_err());
}

#[test]
fn test_parse_all_message_types() {
    // Test that parse function handles all known message types
    let message_types = vec![
        (MsgType::HeartbeatRequest, 1u8),
        (MsgType::HeartbeatResponse, 2u8),
        (MsgType::PfdManagementRequest, 3u8),
        (MsgType::PfdManagementResponse, 4u8),
        (MsgType::AssociationSetupRequest, 5u8),
        (MsgType::AssociationSetupResponse, 6u8),
        (MsgType::AssociationUpdateRequest, 7u8),
        (MsgType::AssociationUpdateResponse, 8u8),
        (MsgType::AssociationReleaseRequest, 9u8),
        (MsgType::AssociationReleaseResponse, 10u8),
        (MsgType::VersionNotSupportedResponse, 11u8),
        (MsgType::NodeReportRequest, 12u8),
        (MsgType::NodeReportResponse, 13u8),
        (MsgType::SessionSetDeletionRequest, 14u8),
        (MsgType::SessionSetDeletionResponse, 15u8),
        (MsgType::SessionSetModificationRequest, 16u8),
        (MsgType::SessionSetModificationResponse, 17u8),
        (MsgType::SessionEstablishmentRequest, 50u8),
        (MsgType::SessionEstablishmentResponse, 51u8),
        (MsgType::SessionModificationRequest, 52u8),
        (MsgType::SessionModificationResponse, 53u8),
        (MsgType::SessionDeletionRequest, 54u8),
        (MsgType::SessionDeletionResponse, 55u8),
        (MsgType::SessionReportRequest, 56u8),
        (MsgType::SessionReportResponse, 57u8),
    ];

    for (expected_type, type_value) in message_types {
        assert_eq!(
            MsgType::from(type_value),
            expected_type,
            "MsgType conversion failed for {:?}",
            expected_type
        );
    }
}

#[test]
fn test_parse_round_trip_preserves_ies() {

    let recovery_ts = RecoveryTimeStamp::new(SystemTime::UNIX_EPOCH);
    let recovery_ie = Ie::new(IeType::RecoveryTimeStamp, recovery_ts.marshal().to_vec());

    let original = HeartbeatRequestBuilder::new(12345)
        .recovery_time_stamp_ie(recovery_ie.clone())
        .build();

    let marshaled = original.marshal();
    let parsed = parse(&marshaled).unwrap();

    // Verify IE is preserved
    let found_ie = parsed.find_ie(IeType::RecoveryTimeStamp);
    assert!(found_ie.is_some());
    assert_eq!(found_ie.unwrap().ie_type, IeType::RecoveryTimeStamp);
}
