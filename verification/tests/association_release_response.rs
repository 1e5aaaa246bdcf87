#![allow(unused_imports, deprecated, unused_variables, unused_mut)]
use rs_pfcp::error::{ErrorKind, PfcpError};
use rs_pfcp::ie::cause::{Cause, CauseValue};
use rs_pfcp::ie::fseid::Fseid;
use rs_pfcp::ie::node_id::NodeId;
use rs_pfcp::ie::offending_ie::OffendingIe;
use rs_pfcp::ie::pdn_type::PdnType;
use rs_pfcp::ie::recovery_time_stamp::RecoveryTimeStamp;
use rs_pfcp::ie::source_ip_address::SourceIpAddress;
use rs_pfcp::ie::{Ie, IeType};
use rs_pfcp::message::header::Header;
use rs_pfcp::message::{parse, Generic, IeIter, Message, MsgType, ParsedMessage};
use rs_pfcp::message::heartbeat_request::{HeartbeatRequest, HeartbeatRequestBuilder};
use rs_pfcp::message::heartbeat_response::{HeartbeatResponse, HeartbeatResponseBuilder};
use rs_pfcp::message::association_release_request::{AssociationReleaseRequest, AssociationReleaseRequestBuilder};
use rs_pfcp::message::association_release_response::{AssociationReleaseResponse, AssociationReleaseResponseBuilder};
use rs_pfcp::message::association_setup_request::{AssociationSetupRequest, AssociationSetupRequestBuilder};
use rs_pfcp::message::association_setup_response::{AssociationSetupResponse, AssociationSetupResponseBuilder};
use rs_pfcp::message::association_update_request::{AssociationUpdateRequest, AssociationUpdateRequestBuilder};
use rs_pfcp::message::association_update_response::{AssociationUpdateResponse, AssociationUpdateResponseBuilder};
use rs_pfcp::message::node_report_response::{NodeReportResponse, NodeReportResponseBuilder};
use rs_pfcp::message::pfd_management_response::{PfdManagementResponse, PfdManagementResponseBuilder};
use rs_pfcp::message::session_deletion_request::{SessionDeletionRequest, SessionDeletionRequestBuilder};
use rs_pfcp::message::session_deletion_response::{SessionDeletionResponse, SessionDeletionResponseBuilder};
use rs_pfcp::message::session_establishment_request::{SessionEstablishmentRequest, SessionEstablishmentRequestBuilder};
use rs_pfcp::message::session_establishment_response::{SessionEstablishmentResponse, SessionEstablishmentResponseBuilder};
use rs_pfcp::message::session_modification_request::{SessionModificationRequest, SessionModificationRequestBuilder};
use rs_pfcp::message::session_modification_response::{SessionModificationResponse, SessionModificationResponseBuilder};
use rs_pfcp::message::version_not_supported_response::{VersionNotSupportedResponse, VersionNotSupportedResponseBuilder};
use rs_pfcp::message::session_set_deletion_request::{SessionSetDeletionRequest, SessionSetDeletionRequestBuilder};
use rs_pfcp::message::session_set_deletion_response::{SessionSetDeletionResponse, SessionSetDeletionResponseBuilder};
use rs_pfcp::message::session_set_modification_request::{SessionSetModificationRequest, SessionSetModificationRequestBuilder};
use rs_pfcp::message::session_set_modification_response::{SessionSetModificationResponse, SessionSetModificationResponseBuilder};
use rs_pfcp::message::session_report_request::{SessionReportRequest, SessionReportRequestBuilder};
use rs_pfcp::message::session_report_response::{SessionReportResponse, SessionReportResponseBuilder};
use rs_pfcp::ie::application_id::ApplicationId;
use rs_pfcp::ie::application_ids_pfds::ApplicationIdsPfds;
use rs_pfcp::ie::pfd_context::PfdContext;
use rs_pfcp::message::pfd_management_request::{PfdManagementRequest, PfdManagementRequestBuilder};
use rs_pfcp::ie::node_report_type::NodeReportType;
use rs_pfcp::message::node_report_request::{NodeReportRequest, NodeReportRequestBuilder};
use std::time::SystemTime;

#[test]
fn test_association_release_response_builder_try_build_missing_node_id() {
    let cause = Cause::new(CauseValue::RequestAccepted);
    let cause_ie = Ie::new(IeType::Cause, cause.marshal().to_vec());

    let result = AssociationReleaseResponseBuilder::new(12345)
        .cause(cause_ie)
        .try_build();

    assert!(result.is_err());
    assert_eq!(
        result.unwrap_err(),
        "Node ID IE is required for AssociationReleaseResponse"
    );
}
