#![allow(unused_imports, deprecated, unused_variables, unused_mut)]
use rs_pfcp::error::{ErrorKind, PfcpError};
use rs_pfcp::ie::cause::{Cause, CauseValue};
use rs_pfcp::ie::fseid::Fseid;
use rs_pfcp::ie::node_id::NodeId;
use rs_pfcp::ie::offending_ie::OffendingIe;
use rs_pfcp::ie::pdn_type::PdnType;
use rs_pfcp::ie::recovery_time_stamp::RecoveryTimeStamp;
use rs_pfcp::ie::source_ip_address::SourceIpAddress;
use rs_pfcp::ie::{Ie, IeType};
use rs_pfcp::message::header::Header;
use rs_pfcp::message::{parse, Generic, IeIter, Message, MsgType, ParsedMessage};
use rs_pfcp::message::heartbeat_request::{HeartbeatRequest, HeartbeatRequestBuilder};
use rs_pfcp::message::heartbeat_response::{HeartbeatResponse, HeartbeatResponseBuilder};
use rs_pfcp::message::association_release_request::{AssociationReleaseRequest, AssociationReleaseRequestBuilder};
use rs_pfcp::message::association_release_response::{AssociationReleaseResponse, AssociationReleaseResponseBuilder};
use rs_pfcp::message::association_setup_request::{AssociationSetupRequest, AssociationSetupRequestBuilder};
use rs_pfcp::message::association_setup_response::{AssociationSetupResponse, AssociationSetupResponseBuilder};
use rs_pfcp::message::association_update_request::{AssociationUpdateRequest, AssociationUpdateRequestBuilder};
use rs_pfcp::message::association_update_response::{AssociationUpdateResponse, AssociationUpdateResponseBuilder};
use rs_pfcp::message::node_report_response::{NodeReportResponse, NodeReportResponseBuilder};
use rs_pfcp::message::pfd_management_response::{PfdManagementResponse, PfdManagementResponseBuilder};
use rs_pfcp::message::session_deletion_request::{SessionDeletionRequest, SessionDeletionRequestBuilder};
use rs_pfcp::message::session_deletion_response::{SessionDeletionResponse, SessionDeletionResponseBuilder};
use rs_pfcp::message::session_establishment_request::{SessionEstablishmentRequest, SessionEstablishmentRequestBuilder};
use rs_pfcp::message::session_establishment_response::{SessionEstablishmentResponse, SessionEstablishmentResponseBuilder};
use rs_pfcp::message::session_modification_request::{SessionModificationRequest, SessionModificationRequestBuilder};
use rs_pfcp::message::session_modification_response::{SessionModificationResponse, SessionModificationResponseBuilder};
use rs_pfcp::message::version_not_supported_response::{VersionNotSupportedResponse, VersionNotSupportedResponseBuilder};
use rs_pfcp::message::session_set_deletion_request::{SessionSetDeletionRequest, SessionSetDeletionRequestBuilder};
use rs_pfcp::message::session_set_deletion_response::{SessionSetDeletionResponse, SessionSetDeletionResponseBuilder};
use rs_pfcp::message::session_set_modification_request::{SessionSetModificationRequest, SessionSetModificationRequestBuilder};
use rs_pfcp::message::session_set_modification_response::{SessionSetModificationResponse, SessionSetModificationResponseBuilder};
use rs_pfcp::message::session_report_request::{SessionReportRequest, SessionReportRequestBuilder};
use rs_pfcp::message::session_report_response::{SessionReportResponse, SessionReportResponseBuilder};
use rs_pfcp::ie::application_id::ApplicationId;
use rs_pfcp::ie::application_ids_pfds::ApplicationIdsPfds;
use rs_pfcp::ie::pfd_context::PfdContext;
use rs_pfcp::message::pfd_management_request::{PfdManagementRequest, PfdManagementRequestBuilder};
use rs_pfcp::ie::node_report_type::NodeReportType;
use rs_pfcp::message::node_report_request::{NodeReportRequest, NodeReportRequestBuilder};
use std::time::SystemTime;



fn request() -> NodeReportRequest {
    NodeReportRequest::builder(123)
        .node_id(NodeId::new_ipv4([10, 0, 0, 1]))
        .node_report_type(NodeReportType::new(NodeReportType::UPFR))
        .build()
        .unwrap()
}

#[test]
fn mandatory_ies_use_the_specified_types() {
    let request = request();
    let encoded = request.marshal();

    assert_eq!(request.ies(IeType::NodeId).count(), 1);
    assert_eq!(request.ies(IeType::NodeReportType).count(), 1);
    assert_eq!(request.ies(IeType::ReportType).count(), 0);
    assert_eq!(&encoded[8..12], &[0x00, 0x3c, 0x00, 0x05]);
    assert_eq!(&encoded[17..22], &[0x00, 0x65, 0x00, 0x01, 0x01]);
}

#[test]
fn round_trip_preserves_node_report_type() {
    let request = request();
    let encoded = request.marshal();
    let decoded = NodeReportRequest::unmarshal(&encoded).unwrap();

    assert_eq!(decoded, request);
    assert!(decoded.node_report_type().upfr());
}

#[test]
fn missing_node_report_type_is_rejected() {
    let node_id = NodeId::new_ipv4([127, 0, 0, 1]).to_ie();
    let mut header = Header::new(MsgType::NodeReportRequest, false, 0, 1);
    header.length = node_id.len() + (header.len() - 4);
    let mut encoded = header.marshal();
    node_id.marshal_into(&mut encoded);

    assert!(matches!(
        NodeReportRequest::unmarshal(&encoded),
        Err(PfcpError::MissingMandatoryIe {
            ie_type: IeType::NodeReportType,
            ..
        })
    ));
}

#[test]
fn builder_requires_both_mandatory_ies() {
    let missing_node_id = NodeReportRequest::builder(1)
        .node_report_type(NodeReportType::new(NodeReportType::UPFR))
        .build();
    let missing_report_type = NodeReportRequest::builder(1)
        .node_id(NodeId::new_ipv4([127, 0, 0, 1]))
        .build();

    assert!(missing_node_id.is_err());
    assert!(missing_report_type.is_err());
}
