#![allow(unused_imports, deprecated, unused_variables, unused_mut)]
use rs_pfcp::error::{ErrorKind, PfcpError};
use rs_pfcp::ie::cause::{Cause, CauseValue};
use rs_pfcp::ie::fseid::Fseid;
use rs_pfcp::ie::node_id::NodeId;
use rs_pfcp::ie::offending_ie::OffendingIe;
use rs_pfcp::ie::pdn_type::PdnType;
use rs_pfcp::ie::recovery_time_stamp::RecoveryTimeStamp;
use rs_pfcp::ie::source_ip_address::SourceIpAddress;
use rs_pfcp::ie::{Ie, IeType};
use rs_pfcp::message::header::Header;
use rs_pfcp::message::{parse, Generic, IeIter, Message, MsgType, ParsedMessage};
use rs_pfcp::message::heartbeat_request::{HeartbeatRequest, HeartbeatRequestBuilder};
use rs_pfcp::message::heartbeat_response::{HeartbeatResponse, HeartbeatResponseBuilder};
use rs_pfcp::message::association_release_request::{AssociationReleaseRequest, AssociationReleaseRequestBuilder};
use rs_pfcp::message::association_release_response::{AssociationReleaseResponse, AssociationReleaseResponseBuilder};
use rs_pfcp::message::association_setup_request::{AssociationSetupRequest, AssociationSetupRequestBuilder};
use rs_pfcp::message::association_setup_response::{AssociationSetupResponse, AssociationSetupResponseBuilder};
use rs_pfcp::message::association_update_request::{AssociationUpdateRequest, AssociationUpdateRequestBuilder};
use rs_pfcp::message::association_update_response::{AssociationUpdateResponse, AssociationUpdateResponseBuilder};
use rs_pfcp::message::node_report_response::{NodeReportResponse, NodeReportResponseBuilder};
use rs_pfcp::message::pfd_management_response::{PfdManagementResponse, PfdManagementResponseBuilder};
use rs_pfcp::message::session_deletion_request::{SessionDeletionRequest, SessionDeletionRequestBuilder};
use rs_pfcp::message::session_deletion_response::{SessionDeletionResponse, SessionDeletionResponseBuilder};
use rs_pfcp::message::session_establishment_request::{SessionEstablishmentRequest, SessionEstablishmentRequestBuilder};
use rs_pfcp::message::session_establishment_response::{SessionEstablishmentResponse, SessionEstablishmentResponseBuilder};
use rs_pfcp::message::session_modification_request::{SessionModificationRequest, SessionModificationRequestBuilder};
use rs_pfcp::message::session_modification_response::{SessionModificationResponse, SessionModificationResponseBuilder};
use rs_pfcp::message::version_not_supported_response::{VersionNotSupportedResponse, VersionNotSupportedResponseBuilder};
use rs_pfcp::message::session_set_deletion_request::{SessionSetDeletionRequest, SessionSetDeletionRequestBuilder};
use rs_pfcp::message::session_set_deletion_response::{SessionSetDeletionResponse, SessionSetDeletionResponseBuilder};
use rs_pfcp::message::session_set_modification_request::{SessionSetModificationRequest, SessionSetModificationRequestBuilder};
use rs_pfcp::message::session_set_modification_response::{SessionSetModificationResponse, SessionSetModificationResponseBuilder};
use rs_pfcp::message::session_report_request::{SessionReportRequest, SessionReportRequestBuilder};
use rs_pfcp::message::session_report_response::{SessionReportResponse, SessionReportResponseBuilder};
use rs_pfcp::ie::application_id::ApplicationId;
use rs_pfcp::ie::application_ids_pfds::ApplicationIdsPfds;
use rs_pfcp::ie::pfd_context::PfdContext;
use rs_pfcp::message::pfd_management_request::{PfdManagementRequest, PfdManagementRequestBuilder};
use rs_pfcp::ie::node_report_type::NodeReportType;
use rs_pfcp::message::node_report_request::{NodeReportRequest, NodeReportRequestBuilder};
use std::time::SystemTime;

#[test]
fn test_pfd_management_request_builder_minimal() {
    let request = PfdManagementRequestBuilder::new(12345).build();

    assert_eq!(request.sequence(), 12345);
    assert_eq!(request.msg_type(), MsgType::PfdManagementRequest);
    assert!(request.node_id.is_none());
    assert!(request.application_ids_pfds.is_none());
    assert!(request.ies.is_empty());
}

#[test]
fn test_pfd_management_request_builder_with_application_ids_pfds() {
    let app_id = ApplicationId::new("test.app");
    let pfd_context = PfdContext::new(vec![]); // Empty PFD for simplicity
    let app_ids_pfds = ApplicationIdsPfds::new(app_id, pfd_context);

    let request = PfdManagementRequestBuilder::new(12345)
        .application_ids_pfds(app_ids_pfds.clone())
        .build();

    assert_eq!(request.sequence(), 12345);
    assert!(request.node_id.is_none());
    assert!(request.application_ids_pfds.is_some());
    let app_pfds = request.application_ids_pfds.as_ref().unwrap();
    assert_eq!(app_pfds.len(), 1);
    assert_eq!(app_pfds[0], app_ids_pfds);
    assert!(request.ies.is_empty());
}

#[test]
fn test_pfd_management_request_builder_with_multiple_application_ids_pfds() {
    let app_id1 = ApplicationId::new("app1.test");
    let app_id2 = ApplicationId::new("app2.test");
    let app_id3 = ApplicationId::new("app3.test");
    let pfd_context = PfdContext::new(vec![]);

    let app_pfds1 = ApplicationIdsPfds::new(app_id1, pfd_context.clone());
    let app_pfds2 = ApplicationIdsPfds::new(app_id2, pfd_context.clone());
    let app_pfds3 = ApplicationIdsPfds::new(app_id3, pfd_context);

    let request = PfdManagementRequestBuilder::new(98765)
        .application_ids_pfds(app_pfds1.clone())
        .application_ids_pfds_vec(vec![app_pfds2.clone(), app_pfds3.clone()])
        .build();

    assert_eq!(request.sequence(), 98765);
    assert!(request.node_id.is_none());
    assert!(request.application_ids_pfds.is_some());
    let app_pfds = request.application_ids_pfds.as_ref().unwrap();
    assert_eq!(app_pfds.len(), 3);
    assert_eq!(app_pfds[0], app_pfds1);
    assert_eq!(app_pfds[1], app_pfds2);
    assert_eq!(app_pfds[2], app_pfds3);
    assert!(request.ies.is_empty());
}

#[test]
fn test_pfd_management_request_builder_with_other_ies() {
    let ie1 = Ie::new(IeType::Unknown, vec![0xAA, 0xBB]);
    let ie2 = Ie::new(IeType::Unknown, vec![0xCC, 0xDD]);
    let ie3 = Ie::new(IeType::Unknown, vec![0xEE, 0xFF]);

    let request = PfdManagementRequestBuilder::new(55555)
        .ie(ie1.clone())
        .ies(vec![ie2.clone(), ie3.clone()])
        .build();

    assert_eq!(request.sequence(), 55555);
    assert!(request.node_id.is_none());
    assert!(request.application_ids_pfds.is_none());
    assert_eq!(request.ies.len(), 3);
    assert_eq!(request.ies[0], ie1);
    assert_eq!(request.ies[1], ie2);
    assert_eq!(request.ies[2], ie3);
}

#[test]
fn test_pfd_management_request_builder_full() {
    let node_id = NodeId::new_ipv4([192, 168, 1, 100]);
    let app_id = ApplicationId::new("full.test.app");
    let pfd_context = PfdContext::new(vec![]);
    let app_ids_pfds = ApplicationIdsPfds::new(app_id, pfd_context);
    let other_ie1 = Ie::new(IeType::Unknown, vec![0xAA, 0xBB]);
    let other_ie2 = Ie::new(IeType::Unknown, vec![0xCC, 0xDD]);

    let request = PfdManagementRequestBuilder::new(77777)
        .node_id(node_id.clone())
        .application_ids_pfds(app_ids_pfds.clone())
        .ie(other_ie1.clone())
        .ie(other_ie2.clone())
        .build();

    assert_eq!(request.sequence(), 77777);
    assert_eq!(request.node_id, Some(node_id));
    assert!(request.application_ids_pfds.is_some());
    let app_pfds = request.application_ids_pfds.as_ref().unwrap();
    assert_eq!(app_pfds.len(), 1);
    assert_eq!(app_pfds[0], app_ids_pfds);
    assert_eq!(request.ies.len(), 2);
    assert_eq!(request.ies[0], other_ie1);
    assert_eq!(request.ies[1], other_ie2);
}

#[test]
fn test_pfd_management_request_builder_roundtrip() {
    let node_id = NodeId::new_ipv4([10, 0, 0, 1]);
    let app_id1 = ApplicationId::new("app1.roundtrip");
    let app_id2 = ApplicationId::new("app2.roundtrip");
    let pfd_context = PfdContext::new(vec![]);
    let app_pfds1 = ApplicationIdsPfds::new(app_id1, pfd_context.clone());
    let app_pfds2 = ApplicationIdsPfds::new(app_id2, pfd_context);
    let other_ie = Ie::new(IeType::Unknown, vec![0xFF, 0xEE, 0xDD]);

    let original = PfdManagementRequestBuilder::new(99999)
        .node_id(node_id)
        .application_ids_pfds(app_pfds1)
        .application_ids_pfds(app_pfds2)
        .ie(other_ie)
        .build();

    let marshaled = original.marshal();
    let unmarshaled = PfdManagementRequest::unmarshal(&marshaled).unwrap();

    assert_eq!(original, unmarshaled);
}

#[test]
fn test_pfd_management_request_with_node_id_only() {
    let node_id = NodeId::new_ipv4([172, 16, 0, 1]);

    let request = PfdManagementRequestBuilder::new(11111)
        .node_id(node_id.clone())
        .build();

    assert_eq!(request.sequence(), 11111);
    assert_eq!(request.node_id, Some(node_id));
    assert!(request.application_ids_pfds.is_none());
    assert!(request.ies.is_empty());
}

#[test]
fn test_pfd_management_request_type_safe_access() {
    let node_id = NodeId::new_ipv4([203, 0, 113, 1]);
    let app_id = ApplicationId::new("type.safe.app");
    let pfd_context = PfdContext::new(vec![]);
    let app_ids_pfds = ApplicationIdsPfds::new(app_id, pfd_context);
    let other_ie = Ie::new(IeType::Unknown, vec![0x01, 0x02, 0x03]);

    let request = PfdManagementRequestBuilder::new(55555)
        .node_id(node_id.clone())
        .application_ids_pfds(app_ids_pfds.clone())
        .ie(other_ie.clone())
        .build();

    assert_eq!(request.node_id, Some(node_id));

    assert!(request.application_ids_pfds.is_some());
    let app_pfds = request.application_ids_pfds.as_ref().unwrap();
    assert_eq!(app_pfds.len(), 1);
    assert_eq!(app_pfds[0], app_ids_pfds);

    assert_eq!(request.ies.len(), 1);
    assert_eq!(request.ies[0], other_ie);

    assert_eq!(request.find_ie(IeType::NodeId), None);
    assert_eq!(request.find_ie(IeType::ApplicationIdsPfds), None);

    assert_eq!(request.find_ie(IeType::Unknown), Some(&other_ie));
}
