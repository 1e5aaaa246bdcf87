//! Decoding a message of any type.
use crate::error::PfcpError;
use crate::ie::{Ie, IeType, IeView};
use crate::message::generic::Generic;
use crate::message::header::{lemma_header_roundtrip, spec_parse_header, Header};
use crate::message::slots::concat_slots;
use crate::message::heartbeat_request::{lemma_heartbeat_request_roundtrip, HeartbeatRequest};
use crate::message::heartbeat_response::{lemma_heartbeat_response_roundtrip, HeartbeatResponse};
use crate::message::association_release_request::{
    lemma_association_release_request_roundtrip, AssociationReleaseRequest,
};
use crate::message::association_release_response::{
    lemma_association_release_response_roundtrip, AssociationReleaseResponse,
};
use crate::message::association_setup_request::{lemma_association_setup_request_roundtrip, AssociationSetupRequest};
use crate::message::association_setup_response::{lemma_association_setup_response_roundtrip, AssociationSetupResponse};
use crate::message::association_update_request::{lemma_association_update_request_roundtrip, AssociationUpdateRequest};
use crate::message::association_update_response::{
    lemma_association_update_response_roundtrip, AssociationUpdateResponse,
};
use crate::message::node_report_response::{lemma_node_report_response_roundtrip, NodeReportResponse};
use crate::message::pfd_management_response::{lemma_pfd_management_response_roundtrip, PfdManagementResponse};
use crate::message::session_deletion_request::{lemma_session_deletion_request_roundtrip, SessionDeletionRequest};
use crate::message::session_deletion_response::{lemma_session_deletion_response_roundtrip, SessionDeletionResponse};
use crate::message::session_establishment_request::{
    lemma_session_establishment_request_roundtrip, SessionEstablishmentRequest,
};
use crate::message::session_establishment_response::{
    lemma_session_establishment_response_roundtrip, SessionEstablishmentResponse,
};
use crate::message::session_modification_request::{
    lemma_session_modification_request_roundtrip, SessionModificationRequest,
};
use crate::message::session_modification_response::{
    lemma_session_modification_response_roundtrip, SessionModificationResponse,
};
use crate::message::version_not_supported_response::{
    lemma_version_not_supported_response_roundtrip, VersionNotSupportedResponse,
};
use crate::message::session_set_deletion_request::{
    lemma_session_set_deletion_request_roundtrip, SessionSetDeletionRequest,
};
use crate::message::session_set_deletion_response::{
    lemma_session_set_deletion_response_roundtrip, SessionSetDeletionResponse,
};
use crate::message::session_set_modification_request::{
    lemma_session_set_modification_request_roundtrip, SessionSetModificationRequest,
};
use crate::message::session_set_modification_response::{
    lemma_session_set_modification_response_roundtrip, SessionSetModificationResponse,
};
use crate::message::session_report_request::{lemma_session_report_request_roundtrip, SessionReportRequest};
use crate::message::session_report_response::{lemma_session_report_response_roundtrip, SessionReportResponse};
use crate::message::node_report_request::{lemma_node_report_request_roundtrip, NodeReportRequest};
use crate::message::pfd_management_request::{lemma_pfd_management_request_roundtrip, PfdManagementRequest};
use crate::message::{Message, MsgType};
use vstd::prelude::*;

verus! {

/// A decoded message of any type.
#[derive(Debug, Clone, PartialEq, Eq)]
pub enum ParsedMessage {
    HeartbeatRequest(HeartbeatRequest),
    HeartbeatResponse(HeartbeatResponse),
    AssociationReleaseRequest(AssociationReleaseRequest),
    AssociationReleaseResponse(AssociationReleaseResponse),
    AssociationSetupRequest(AssociationSetupRequest),
    AssociationSetupResponse(AssociationSetupResponse),
    AssociationUpdateRequest(AssociationUpdateRequest),
    AssociationUpdateResponse(AssociationUpdateResponse),
    NodeReportResponse(NodeReportResponse),
    PfdManagementResponse(PfdManagementResponse),
    SessionDeletionRequest(SessionDeletionRequest),
    SessionDeletionResponse(SessionDeletionResponse),
    SessionEstablishmentRequest(SessionEstablishmentRequest),
    SessionEstablishmentResponse(SessionEstablishmentResponse),
    SessionModificationRequest(SessionModificationRequest),
    SessionModificationResponse(SessionModificationResponse),
    VersionNotSupportedResponse(VersionNotSupportedResponse),
    SessionSetDeletionRequest(SessionSetDeletionRequest),
    SessionSetDeletionResponse(SessionSetDeletionResponse),
    SessionSetModificationRequest(SessionSetModificationRequest),
    SessionSetModificationResponse(SessionSetModificationResponse),
    SessionReportRequest(SessionReportRequest),
    SessionReportResponse(SessionReportResponse),
    NodeReportRequest(NodeReportRequest),
    PfdManagementRequest(PfdManagementRequest),
    Generic(Generic),
}

impl ParsedMessage {
    /// The header of the message.
    pub open spec fn parsed_header(&self) -> Header {
        match self {
            ParsedMessage::HeartbeatRequest(m) => m.spec_header(),
            ParsedMessage::HeartbeatResponse(m) => m.spec_header(),
            ParsedMessage::AssociationReleaseRequest(m) => m.spec_header(),
            ParsedMessage::AssociationReleaseResponse(m) => m.spec_header(),
            ParsedMessage::AssociationSetupRequest(m) => m.spec_header(),
            ParsedMessage::AssociationSetupResponse(m) => m.spec_header(),
            ParsedMessage::AssociationUpdateRequest(m) => m.spec_header(),
            ParsedMessage::AssociationUpdateResponse(m) => m.spec_header(),
            ParsedMessage::NodeReportResponse(m) => m.spec_header(),
            ParsedMessage::PfdManagementResponse(m) => m.spec_header(),
            ParsedMessage::SessionDeletionRequest(m) => m.spec_header(),
            ParsedMessage::SessionDeletionResponse(m) => m.spec_header(),
            ParsedMessage::SessionEstablishmentRequest(m) => m.spec_header(),
            ParsedMessage::SessionEstablishmentResponse(m) => m.spec_header(),
            ParsedMessage::SessionModificationRequest(m) => m.spec_header(),
            ParsedMessage::SessionModificationResponse(m) => m.spec_header(),
            ParsedMessage::VersionNotSupportedResponse(m) => m.spec_header(),
            ParsedMessage::SessionSetDeletionRequest(m) => m.spec_header(),
            ParsedMessage::SessionSetDeletionResponse(m) => m.spec_header(),
            ParsedMessage::SessionSetModificationRequest(m) => m.spec_header(),
            ParsedMessage::SessionSetModificationResponse(m) => m.spec_header(),
            ParsedMessage::SessionReportRequest(m) => m.spec_header(),
            ParsedMessage::SessionReportResponse(m) => m.spec_header(),
            ParsedMessage::NodeReportRequest(m) => m.spec_header(),
            ParsedMessage::PfdManagementRequest(m) => m.spec_header(),
            ParsedMessage::Generic(m) => m.spec_header(),
        }
    }

    /// The IEs in the order they are written on the wire.
    pub open spec fn parsed_body(&self) -> Seq<IeView> {
        match self {
            ParsedMessage::HeartbeatRequest(m) => m.spec_body(),
            ParsedMessage::HeartbeatResponse(m) => m.spec_body(),
            ParsedMessage::AssociationReleaseRequest(m) => m.spec_body(),
            ParsedMessage::AssociationReleaseResponse(m) => m.spec_body(),
            ParsedMessage::AssociationSetupRequest(m) => m.spec_body(),
            ParsedMessage::AssociationSetupResponse(m) => m.spec_body(),
            ParsedMessage::AssociationUpdateRequest(m) => m.spec_body(),
            ParsedMessage::AssociationUpdateResponse(m) => m.spec_body(),
            ParsedMessage::NodeReportResponse(m) => m.spec_body(),
            ParsedMessage::PfdManagementResponse(m) => m.spec_body(),
            ParsedMessage::SessionDeletionRequest(m) => m.spec_body(),
            ParsedMessage::SessionDeletionResponse(m) => m.spec_body(),
            ParsedMessage::SessionEstablishmentRequest(m) => m.spec_body(),
            ParsedMessage::SessionEstablishmentResponse(m) => m.spec_body(),
            ParsedMessage::SessionModificationRequest(m) => m.spec_body(),
            ParsedMessage::SessionModificationResponse(m) => m.spec_body(),
            ParsedMessage::VersionNotSupportedResponse(m) => m.spec_body(),
            ParsedMessage::SessionSetDeletionRequest(m) => m.spec_body(),
            ParsedMessage::SessionSetDeletionResponse(m) => m.spec_body(),
            ParsedMessage::SessionSetModificationRequest(m) => m.spec_body(),
            ParsedMessage::SessionSetModificationResponse(m) => m.spec_body(),
            ParsedMessage::SessionReportRequest(m) => m.spec_body(),
            ParsedMessage::SessionReportResponse(m) => m.spec_body(),
            ParsedMessage::NodeReportRequest(m) => m.spec_body(),
            ParsedMessage::PfdManagementRequest(m) => m.spec_body(),
            ParsedMessage::Generic(m) => m.spec_body(),
        }
    }

    /// The IEs in the order that `all_ies` lists them.
    pub open spec fn parsed_listed(&self) -> Seq<IeView> {
        match self {
            ParsedMessage::HeartbeatRequest(m) => m.spec_listed(),
            ParsedMessage::HeartbeatResponse(m) => m.spec_listed(),
            ParsedMessage::AssociationReleaseRequest(m) => m.spec_listed(),
            ParsedMessage::AssociationReleaseResponse(m) => m.spec_listed(),
            ParsedMessage::AssociationSetupRequest(m) => m.spec_listed(),
            ParsedMessage::AssociationSetupResponse(m) => m.spec_listed(),
            ParsedMessage::AssociationUpdateRequest(m) => m.spec_listed(),
            ParsedMessage::AssociationUpdateResponse(m) => m.spec_listed(),
            ParsedMessage::NodeReportResponse(m) => m.spec_listed(),
            ParsedMessage::PfdManagementResponse(m) => m.spec_listed(),
            ParsedMessage::SessionDeletionRequest(m) => m.spec_listed(),
            ParsedMessage::SessionDeletionResponse(m) => m.spec_listed(),
            ParsedMessage::SessionEstablishmentRequest(m) => m.spec_listed(),
            ParsedMessage::SessionEstablishmentResponse(m) => m.spec_listed(),
            ParsedMessage::SessionModificationRequest(m) => m.spec_listed(),
            ParsedMessage::SessionModificationResponse(m) => m.spec_listed(),
            ParsedMessage::VersionNotSupportedResponse(m) => m.spec_listed(),
            ParsedMessage::SessionSetDeletionRequest(m) => m.spec_listed(),
            ParsedMessage::SessionSetDeletionResponse(m) => m.spec_listed(),
            ParsedMessage::SessionSetModificationRequest(m) => m.spec_listed(),
            ParsedMessage::SessionSetModificationResponse(m) => m.spec_listed(),
            ParsedMessage::SessionReportRequest(m) => m.spec_listed(),
            ParsedMessage::SessionReportResponse(m) => m.spec_listed(),
            ParsedMessage::NodeReportRequest(m) => m.spec_listed(),
            ParsedMessage::PfdManagementRequest(m) => m.spec_listed(),
            ParsedMessage::Generic(m) => m.spec_listed(),
        }
    }

    /// The message type.
    pub open spec fn parsed_msg_type(&self) -> MsgType {
        match self {
            ParsedMessage::HeartbeatRequest(m) => m.spec_msg_type(),
            ParsedMessage::HeartbeatResponse(m) => m.spec_msg_type(),
            ParsedMessage::AssociationReleaseRequest(m) => m.spec_msg_type(),
            ParsedMessage::AssociationReleaseResponse(m) => m.spec_msg_type(),
            ParsedMessage::AssociationSetupRequest(m) => m.spec_msg_type(),
            ParsedMessage::AssociationSetupResponse(m) => m.spec_msg_type(),
            ParsedMessage::AssociationUpdateRequest(m) => m.spec_msg_type(),
            ParsedMessage::AssociationUpdateResponse(m) => m.spec_msg_type(),
            ParsedMessage::NodeReportResponse(m) => m.spec_msg_type(),
            ParsedMessage::PfdManagementResponse(m) => m.spec_msg_type(),
            ParsedMessage::SessionDeletionRequest(m) => m.spec_msg_type(),
            ParsedMessage::SessionDeletionResponse(m) => m.spec_msg_type(),
            ParsedMessage::SessionEstablishmentRequest(m) => m.spec_msg_type(),
            ParsedMessage::SessionEstablishmentResponse(m) => m.spec_msg_type(),
            ParsedMessage::SessionModificationRequest(m) => m.spec_msg_type(),
            ParsedMessage::SessionModificationResponse(m) => m.spec_msg_type(),
            ParsedMessage::VersionNotSupportedResponse(m) => m.spec_msg_type(),
            ParsedMessage::SessionSetDeletionRequest(m) => m.spec_msg_type(),
            ParsedMessage::SessionSetDeletionResponse(m) => m.spec_msg_type(),
            ParsedMessage::SessionSetModificationRequest(m) => m.spec_msg_type(),
            ParsedMessage::SessionSetModificationResponse(m) => m.spec_msg_type(),
            ParsedMessage::SessionReportRequest(m) => m.spec_msg_type(),
            ParsedMessage::SessionReportResponse(m) => m.spec_msg_type(),
            ParsedMessage::NodeReportRequest(m) => m.spec_msg_type(),
            ParsedMessage::PfdManagementRequest(m) => m.spec_msg_type(),
            ParsedMessage::Generic(m) => m.spec_msg_type(),
        }
    }

    /// The IEs of type `t` that `find_ie` and `find_all_ies` look at.
    pub open spec fn parsed_ies_of(&self, t: IeType) -> Seq<IeView> {
        match self {
            ParsedMessage::HeartbeatRequest(m) => m.spec_ies_of(t),
            ParsedMessage::HeartbeatResponse(m) => m.spec_ies_of(t),
            ParsedMessage::AssociationReleaseRequest(m) => m.spec_ies_of(t),
            ParsedMessage::AssociationReleaseResponse(m) => m.spec_ies_of(t),
            ParsedMessage::AssociationSetupRequest(m) => m.spec_ies_of(t),
            ParsedMessage::AssociationSetupResponse(m) => m.spec_ies_of(t),
            ParsedMessage::AssociationUpdateRequest(m) => m.spec_ies_of(t),
            ParsedMessage::AssociationUpdateResponse(m) => m.spec_ies_of(t),
            ParsedMessage::NodeReportResponse(m) => m.spec_ies_of(t),
            ParsedMessage::PfdManagementResponse(m) => m.spec_ies_of(t),
            ParsedMessage::SessionDeletionRequest(m) => m.spec_ies_of(t),
            ParsedMessage::SessionDeletionResponse(m) => m.spec_ies_of(t),
            ParsedMessage::SessionEstablishmentRequest(m) => m.spec_ies_of(t),
            ParsedMessage::SessionEstablishmentResponse(m) => m.spec_ies_of(t),
            ParsedMessage::SessionModificationRequest(m) => m.spec_ies_of(t),
            ParsedMessage::SessionModificationResponse(m) => m.spec_ies_of(t),
            ParsedMessage::VersionNotSupportedResponse(m) => m.spec_ies_of(t),
            ParsedMessage::SessionSetDeletionRequest(m) => m.spec_ies_of(t),
            ParsedMessage::SessionSetDeletionResponse(m) => m.spec_ies_of(t),
            ParsedMessage::SessionSetModificationRequest(m) => m.spec_ies_of(t),
            ParsedMessage::SessionSetModificationResponse(m) => m.spec_ies_of(t),
            ParsedMessage::SessionReportRequest(m) => m.spec_ies_of(t),
            ParsedMessage::SessionReportResponse(m) => m.spec_ies_of(t),
            ParsedMessage::NodeReportRequest(m) => m.spec_ies_of(t),
            ParsedMessage::PfdManagementRequest(m) => m.spec_ies_of(t),
            ParsedMessage::Generic(m) => m.spec_ies_of(t),
        }
    }

    /// The message type.
    pub fn msg_type(&self) -> (r: MsgType)
        ensures
            r == self.parsed_msg_type(),
    {
        match self {
            ParsedMessage::HeartbeatRequest(m) => m.msg_type(),
            ParsedMessage::HeartbeatResponse(m) => m.msg_type(),
            ParsedMessage::AssociationReleaseRequest(m) => m.msg_type(),
            ParsedMessage::AssociationReleaseResponse(m) => m.msg_type(),
            ParsedMessage::AssociationSetupRequest(m) => m.msg_type(),
            ParsedMessage::AssociationSetupResponse(m) => m.msg_type(),
            ParsedMessage::AssociationUpdateRequest(m) => m.msg_type(),
            ParsedMessage::AssociationUpdateResponse(m) => m.msg_type(),
            ParsedMessage::NodeReportResponse(m) => m.msg_type(),
            ParsedMessage::PfdManagementResponse(m) => m.msg_type(),
            ParsedMessage::SessionDeletionRequest(m) => m.msg_type(),
            ParsedMessage::SessionDeletionResponse(m) => m.msg_type(),
            ParsedMessage::SessionEstablishmentRequest(m) => m.msg_type(),
            ParsedMessage::SessionEstablishmentResponse(m) => m.msg_type(),
            ParsedMessage::SessionModificationRequest(m) => m.msg_type(),
            ParsedMessage::SessionModificationResponse(m) => m.msg_type(),
            ParsedMessage::VersionNotSupportedResponse(m) => m.msg_type(),
            ParsedMessage::SessionSetDeletionRequest(m) => m.msg_type(),
            ParsedMessage::SessionSetDeletionResponse(m) => m.msg_type(),
            ParsedMessage::SessionSetModificationRequest(m) => m.msg_type(),
            ParsedMessage::SessionSetModificationResponse(m) => m.msg_type(),
            ParsedMessage::SessionReportRequest(m) => m.msg_type(),
            ParsedMessage::SessionReportResponse(m) => m.msg_type(),
            ParsedMessage::NodeReportRequest(m) => m.msg_type(),
            ParsedMessage::PfdManagementRequest(m) => m.msg_type(),
            ParsedMessage::Generic(m) => m.msg_type(),
        }
    }

    /// The name of the message type.
    pub fn msg_name(&self) -> (r: String)
        ensures
            r@ == crate::message::msg_type_name(self.parsed_msg_type()),
    {
        match self {
            ParsedMessage::HeartbeatRequest(m) => m.msg_name(),
            ParsedMessage::HeartbeatResponse(m) => m.msg_name(),
            ParsedMessage::AssociationReleaseRequest(m) => m.msg_name(),
            ParsedMessage::AssociationReleaseResponse(m) => m.msg_name(),
            ParsedMessage::AssociationSetupRequest(m) => m.msg_name(),
            ParsedMessage::AssociationSetupResponse(m) => m.msg_name(),
            ParsedMessage::AssociationUpdateRequest(m) => m.msg_name(),
            ParsedMessage::AssociationUpdateResponse(m) => m.msg_name(),
            ParsedMessage::NodeReportResponse(m) => m.msg_name(),
            ParsedMessage::PfdManagementResponse(m) => m.msg_name(),
            ParsedMessage::SessionDeletionRequest(m) => m.msg_name(),
            ParsedMessage::SessionDeletionResponse(m) => m.msg_name(),
            ParsedMessage::SessionEstablishmentRequest(m) => m.msg_name(),
            ParsedMessage::SessionEstablishmentResponse(m) => m.msg_name(),
            ParsedMessage::SessionModificationRequest(m) => m.msg_name(),
            ParsedMessage::SessionModificationResponse(m) => m.msg_name(),
            ParsedMessage::VersionNotSupportedResponse(m) => m.msg_name(),
            ParsedMessage::SessionSetDeletionRequest(m) => m.msg_name(),
            ParsedMessage::SessionSetDeletionResponse(m) => m.msg_name(),
            ParsedMessage::SessionSetModificationRequest(m) => m.msg_name(),
            ParsedMessage::SessionSetModificationResponse(m) => m.msg_name(),
            ParsedMessage::SessionReportRequest(m) => m.msg_name(),
            ParsedMessage::SessionReportResponse(m) => m.msg_name(),
            ParsedMessage::NodeReportRequest(m) => m.msg_name(),
            ParsedMessage::PfdManagementRequest(m) => m.msg_name(),
            ParsedMessage::Generic(m) => m.msg_name(),
        }
    }

    /// The sequence number.
    pub fn sequence(&self) -> (r: u32)
        ensures
            r == self.parsed_header().sequence_number,
    {
        match self {
            ParsedMessage::HeartbeatRequest(m) => m.sequence(),
            ParsedMessage::HeartbeatResponse(m) => m.sequence(),
            ParsedMessage::AssociationReleaseRequest(m) => m.sequence(),
            ParsedMessage::AssociationReleaseResponse(m) => m.sequence(),
            ParsedMessage::AssociationSetupRequest(m) => m.sequence(),
            ParsedMessage::AssociationSetupResponse(m) => m.sequence(),
            ParsedMessage::AssociationUpdateRequest(m) => m.sequence(),
            ParsedMessage::AssociationUpdateResponse(m) => m.sequence(),
            ParsedMessage::NodeReportResponse(m) => m.sequence(),
            ParsedMessage::PfdManagementResponse(m) => m.sequence(),
            ParsedMessage::SessionDeletionRequest(m) => m.sequence(),
            ParsedMessage::SessionDeletionResponse(m) => m.sequence(),
            ParsedMessage::SessionEstablishmentRequest(m) => m.sequence(),
            ParsedMessage::SessionEstablishmentResponse(m) => m.sequence(),
            ParsedMessage::SessionModificationRequest(m) => m.sequence(),
            ParsedMessage::SessionModificationResponse(m) => m.sequence(),
            ParsedMessage::VersionNotSupportedResponse(m) => m.sequence(),
            ParsedMessage::SessionSetDeletionRequest(m) => m.sequence(),
            ParsedMessage::SessionSetDeletionResponse(m) => m.sequence(),
            ParsedMessage::SessionSetModificationRequest(m) => m.sequence(),
            ParsedMessage::SessionSetModificationResponse(m) => m.sequence(),
            ParsedMessage::SessionReportRequest(m) => m.sequence(),
            ParsedMessage::SessionReportResponse(m) => m.sequence(),
            ParsedMessage::NodeReportRequest(m) => m.sequence(),
            ParsedMessage::PfdManagementRequest(m) => m.sequence(),
            ParsedMessage::Generic(m) => m.sequence(),
        }
    }

    /// The SEID, when the header carries one.
    pub fn seid(&self) -> (r: Option<u64>)
        ensures
            r == (if self.parsed_header().has_seid { Some(self.parsed_header().seid) } else { None::<u64> }),
    {
        match self {
            ParsedMessage::HeartbeatRequest(m) => m.seid(),
            ParsedMessage::HeartbeatResponse(m) => m.seid(),
            ParsedMessage::AssociationReleaseRequest(m) => m.seid(),
            ParsedMessage::AssociationReleaseResponse(m) => m.seid(),
            ParsedMessage::AssociationSetupRequest(m) => m.seid(),
            ParsedMessage::AssociationSetupResponse(m) => m.seid(),
            ParsedMessage::AssociationUpdateRequest(m) => m.seid(),
            ParsedMessage::AssociationUpdateResponse(m) => m.seid(),
            ParsedMessage::NodeReportResponse(m) => m.seid(),
            ParsedMessage::PfdManagementResponse(m) => m.seid(),
            ParsedMessage::SessionDeletionRequest(m) => m.seid(),
            ParsedMessage::SessionDeletionResponse(m) => m.seid(),
            ParsedMessage::SessionEstablishmentRequest(m) => m.seid(),
            ParsedMessage::SessionEstablishmentResponse(m) => m.seid(),
            ParsedMessage::SessionModificationRequest(m) => m.seid(),
            ParsedMessage::SessionModificationResponse(m) => m.seid(),
            ParsedMessage::VersionNotSupportedResponse(m) => m.seid(),
            ParsedMessage::SessionSetDeletionRequest(m) => m.seid(),
            ParsedMessage::SessionSetDeletionResponse(m) => m.seid(),
            ParsedMessage::SessionSetModificationRequest(m) => m.seid(),
            ParsedMessage::SessionSetModificationResponse(m) => m.seid(),
            ParsedMessage::SessionReportRequest(m) => m.seid(),
            ParsedMessage::SessionReportResponse(m) => m.seid(),
            ParsedMessage::NodeReportRequest(m) => m.seid(),
            ParsedMessage::PfdManagementRequest(m) => m.seid(),
            ParsedMessage::Generic(m) => m.seid(),
        }
    }

    /// Serializes the message.
    pub fn marshal(&self) -> (r: Vec<u8>)
        ensures
            r@ == crate::message::header::header_wire(self.parsed_header()) + crate::ie::ies_wire(self.parsed_body()),
    {
        match self {
            ParsedMessage::HeartbeatRequest(m) => m.marshal(),
            ParsedMessage::HeartbeatResponse(m) => m.marshal(),
            ParsedMessage::AssociationReleaseRequest(m) => m.marshal(),
            ParsedMessage::AssociationReleaseResponse(m) => m.marshal(),
            ParsedMessage::AssociationSetupRequest(m) => m.marshal(),
            ParsedMessage::AssociationSetupResponse(m) => m.marshal(),
            ParsedMessage::AssociationUpdateRequest(m) => m.marshal(),
            ParsedMessage::AssociationUpdateResponse(m) => m.marshal(),
            ParsedMessage::NodeReportResponse(m) => m.marshal(),
            ParsedMessage::PfdManagementResponse(m) => m.marshal(),
            ParsedMessage::SessionDeletionRequest(m) => m.marshal(),
            ParsedMessage::SessionDeletionResponse(m) => m.marshal(),
            ParsedMessage::SessionEstablishmentRequest(m) => m.marshal(),
            ParsedMessage::SessionEstablishmentResponse(m) => m.marshal(),
            ParsedMessage::SessionModificationRequest(m) => m.marshal(),
            ParsedMessage::SessionModificationResponse(m) => m.marshal(),
            ParsedMessage::VersionNotSupportedResponse(m) => m.marshal(),
            ParsedMessage::SessionSetDeletionRequest(m) => m.marshal(),
            ParsedMessage::SessionSetDeletionResponse(m) => m.marshal(),
            ParsedMessage::SessionSetModificationRequest(m) => m.marshal(),
            ParsedMessage::SessionSetModificationResponse(m) => m.marshal(),
            ParsedMessage::SessionReportRequest(m) => m.marshal(),
            ParsedMessage::SessionReportResponse(m) => m.marshal(),
            ParsedMessage::NodeReportRequest(m) => m.marshal(),
            ParsedMessage::PfdManagementRequest(m) => m.marshal(),
            ParsedMessage::Generic(m) => m.marshal(),
        }
    }

    /// All IEs of the message.
    pub fn all_ies(&self) -> (r: Vec<&Ie>)
        ensures
            crate::ie::ie_refs_view(r@) == self.parsed_listed(),
    {
        match self {
            ParsedMessage::HeartbeatRequest(m) => m.all_ies(),
            ParsedMessage::HeartbeatResponse(m) => m.all_ies(),
            ParsedMessage::AssociationReleaseRequest(m) => m.all_ies(),
            ParsedMessage::AssociationReleaseResponse(m) => m.all_ies(),
            ParsedMessage::AssociationSetupRequest(m) => m.all_ies(),
            ParsedMessage::AssociationSetupResponse(m) => m.all_ies(),
            ParsedMessage::AssociationUpdateRequest(m) => m.all_ies(),
            ParsedMessage::AssociationUpdateResponse(m) => m.all_ies(),
            ParsedMessage::NodeReportResponse(m) => m.all_ies(),
            ParsedMessage::PfdManagementResponse(m) => m.all_ies(),
            ParsedMessage::SessionDeletionRequest(m) => m.all_ies(),
            ParsedMessage::SessionDeletionResponse(m) => m.all_ies(),
            ParsedMessage::SessionEstablishmentRequest(m) => m.all_ies(),
            ParsedMessage::SessionEstablishmentResponse(m) => m.all_ies(),
            ParsedMessage::SessionModificationRequest(m) => m.all_ies(),
            ParsedMessage::SessionModificationResponse(m) => m.all_ies(),
            ParsedMessage::VersionNotSupportedResponse(m) => m.all_ies(),
            ParsedMessage::SessionSetDeletionRequest(m) => m.all_ies(),
            ParsedMessage::SessionSetDeletionResponse(m) => m.all_ies(),
            ParsedMessage::SessionSetModificationRequest(m) => m.all_ies(),
            ParsedMessage::SessionSetModificationResponse(m) => m.all_ies(),
            ParsedMessage::SessionReportRequest(m) => m.all_ies(),
            ParsedMessage::SessionReportResponse(m) => m.all_ies(),
            ParsedMessage::NodeReportRequest(m) => m.all_ies(),
            ParsedMessage::PfdManagementRequest(m) => m.all_ies(),
            ParsedMessage::Generic(m) => m.all_ies(),
        }
    }

    /// The first IE of type `ie_type`, if any.
    pub fn find_ie(&self, ie_type: IeType) -> (r: Option<&Ie>)
        ensures
            self.parsed_ies_of(ie_type).len() == 0 ==> r is None,
            self.parsed_ies_of(ie_type).len() > 0 ==> r is Some && r->Some_0@ == self.parsed_ies_of(ie_type)[0],
    {
        match self {
            ParsedMessage::HeartbeatRequest(m) => m.find_ie(ie_type),
            ParsedMessage::HeartbeatResponse(m) => m.find_ie(ie_type),
            ParsedMessage::AssociationReleaseRequest(m) => m.find_ie(ie_type),
            ParsedMessage::AssociationReleaseResponse(m) => m.find_ie(ie_type),
            ParsedMessage::AssociationSetupRequest(m) => m.find_ie(ie_type),
            ParsedMessage::AssociationSetupResponse(m) => m.find_ie(ie_type),
            ParsedMessage::AssociationUpdateRequest(m) => m.find_ie(ie_type),
            ParsedMessage::AssociationUpdateResponse(m) => m.find_ie(ie_type),
            ParsedMessage::NodeReportResponse(m) => m.find_ie(ie_type),
            ParsedMessage::PfdManagementResponse(m) => m.find_ie(ie_type),
            ParsedMessage::SessionDeletionRequest(m) => m.find_ie(ie_type),
            ParsedMessage::SessionDeletionResponse(m) => m.find_ie(ie_type),
            ParsedMessage::SessionEstablishmentRequest(m) => m.find_ie(ie_type),
            ParsedMessage::SessionEstablishmentResponse(m) => m.find_ie(ie_type),
            ParsedMessage::SessionModificationRequest(m) => m.find_ie(ie_type),
            ParsedMessage::SessionModificationResponse(m) => m.find_ie(ie_type),
            ParsedMessage::VersionNotSupportedResponse(m) => m.find_ie(ie_type),
            ParsedMessage::SessionSetDeletionRequest(m) => m.find_ie(ie_type),
            ParsedMessage::SessionSetDeletionResponse(m) => m.find_ie(ie_type),
            ParsedMessage::SessionSetModificationRequest(m) => m.find_ie(ie_type),
            ParsedMessage::SessionSetModificationResponse(m) => m.find_ie(ie_type),
            ParsedMessage::SessionReportRequest(m) => m.find_ie(ie_type),
            ParsedMessage::SessionReportResponse(m) => m.find_ie(ie_type),
            ParsedMessage::NodeReportRequest(m) => m.find_ie(ie_type),
            ParsedMessage::PfdManagementRequest(m) => m.find_ie(ie_type),
            ParsedMessage::Generic(m) => m.find_ie(ie_type),
        }
    }

    /// All IEs of type `ie_type`.
    pub fn find_all_ies(&self, ie_type: IeType) -> (r: Vec<&Ie>)
        ensures
            crate::ie::ie_refs_view(r@) == self.parsed_ies_of(ie_type),
    {
        match self {
            ParsedMessage::HeartbeatRequest(m) => m.find_all_ies(ie_type),
            ParsedMessage::HeartbeatResponse(m) => m.find_all_ies(ie_type),
            ParsedMessage::AssociationReleaseRequest(m) => m.find_all_ies(ie_type),
            ParsedMessage::AssociationReleaseResponse(m) => m.find_all_ies(ie_type),
            ParsedMessage::AssociationSetupRequest(m) => m.find_all_ies(ie_type),
            ParsedMessage::AssociationSetupResponse(m) => m.find_all_ies(ie_type),
            ParsedMessage::AssociationUpdateRequest(m) => m.find_all_ies(ie_type),
            ParsedMessage::AssociationUpdateResponse(m) => m.find_all_ies(ie_type),
            ParsedMessage::NodeReportResponse(m) => m.find_all_ies(ie_type),
            ParsedMessage::PfdManagementResponse(m) => m.find_all_ies(ie_type),
            ParsedMessage::SessionDeletionRequest(m) => m.find_all_ies(ie_type),
            ParsedMessage::SessionDeletionResponse(m) => m.find_all_ies(ie_type),
            ParsedMessage::SessionEstablishmentRequest(m) => m.find_all_ies(ie_type),
            ParsedMessage::SessionEstablishmentResponse(m) => m.find_all_ies(ie_type),
            ParsedMessage::SessionModificationRequest(m) => m.find_all_ies(ie_type),
            ParsedMessage::SessionModificationResponse(m) => m.find_all_ies(ie_type),
            ParsedMessage::VersionNotSupportedResponse(m) => m.find_all_ies(ie_type),
            ParsedMessage::SessionSetDeletionRequest(m) => m.find_all_ies(ie_type),
            ParsedMessage::SessionSetDeletionResponse(m) => m.find_all_ies(ie_type),
            ParsedMessage::SessionSetModificationRequest(m) => m.find_all_ies(ie_type),
            ParsedMessage::SessionSetModificationResponse(m) => m.find_all_ies(ie_type),
            ParsedMessage::SessionReportRequest(m) => m.find_all_ies(ie_type),
            ParsedMessage::SessionReportResponse(m) => m.find_all_ies(ie_type),
            ParsedMessage::NodeReportRequest(m) => m.find_all_ies(ie_type),
            ParsedMessage::PfdManagementRequest(m) => m.find_all_ies(ie_type),
            ParsedMessage::Generic(m) => m.find_all_ies(ie_type),
        }
    }

}

/// What decoding `data` as a message of the type its header names gives:
/// the header's error, the error of that type's decoder, or the decoded message.
/// Types without a decoder of their own are read as generic messages.
pub open spec fn parse_outcome(data: Seq<u8>, r: Result<ParsedMessage, PfcpError>) -> bool {
    match spec_parse_header(data) {
        Err(e) => r == Err::<ParsedMessage, PfcpError>(e),
        Ok(h) => match h.message_type {
            MsgType::HeartbeatRequest => match HeartbeatRequest::spec_decode_error(data) {
                Some(e) => r == Err::<ParsedMessage, PfcpError>(e),
                None => r matches Ok(ParsedMessage::HeartbeatRequest(m)) && HeartbeatRequest::spec_decoded(data, m),
            },
            MsgType::HeartbeatResponse => match HeartbeatResponse::spec_decode_error(data) {
                Some(e) => r == Err::<ParsedMessage, PfcpError>(e),
                None => r matches Ok(ParsedMessage::HeartbeatResponse(m)) && HeartbeatResponse::spec_decoded(data, m),
            },
            MsgType::AssociationReleaseRequest => match AssociationReleaseRequest::spec_decode_error(data) {
                Some(e) => r == Err::<ParsedMessage, PfcpError>(e),
                None => r matches Ok(ParsedMessage::AssociationReleaseRequest(m)) && AssociationReleaseRequest::spec_decoded(data, m),
            },
            MsgType::AssociationReleaseResponse => match AssociationReleaseResponse::spec_decode_error(data) {
                Some(e) => r == Err::<ParsedMessage, PfcpError>(e),
                None => r matches Ok(ParsedMessage::AssociationReleaseResponse(m)) && AssociationReleaseResponse::spec_decoded(data, m),
            },
            MsgType::AssociationSetupRequest => match AssociationSetupRequest::spec_decode_error(data) {
                Some(e) => r == Err::<ParsedMessage, PfcpError>(e),
                None => r matches Ok(ParsedMessage::AssociationSetupRequest(m)) && AssociationSetupRequest::spec_decoded(data, m),
            },
            MsgType::AssociationSetupResponse => match AssociationSetupResponse::spec_decode_error(data) {
                Some(e) => r == Err::<ParsedMessage, PfcpError>(e),
                None => r matches Ok(ParsedMessage::AssociationSetupResponse(m)) && AssociationSetupResponse::spec_decoded(data, m),
            },
            MsgType::AssociationUpdateRequest => match AssociationUpdateRequest::spec_decode_error(data) {
                Some(e) => r == Err::<ParsedMessage, PfcpError>(e),
                None => r matches Ok(ParsedMessage::AssociationUpdateRequest(m)) && AssociationUpdateRequest::spec_decoded(data, m),
            },
            MsgType::AssociationUpdateResponse => match AssociationUpdateResponse::spec_decode_error(data) {
                Some(e) => r == Err::<ParsedMessage, PfcpError>(e),
                None => r matches Ok(ParsedMessage::AssociationUpdateResponse(m)) && AssociationUpdateResponse::spec_decoded(data, m),
            },
            MsgType::NodeReportResponse => match NodeReportResponse::spec_decode_error(data) {
                Some(e) => r == Err::<ParsedMessage, PfcpError>(e),
                None => r matches Ok(ParsedMessage::NodeReportResponse(m)) && NodeReportResponse::spec_decoded(data, m),
            },
            MsgType::PfdManagementResponse => match PfdManagementResponse::spec_decode_error(data) {
                Some(e) => r == Err::<ParsedMessage, PfcpError>(e),
                None => r matches Ok(ParsedMessage::PfdManagementResponse(m)) && PfdManagementResponse::spec_decoded(data, m),
            },
            MsgType::SessionDeletionRequest => match SessionDeletionRequest::spec_decode_error(data) {
                Some(e) => r == Err::<ParsedMessage, PfcpError>(e),
                None => r matches Ok(ParsedMessage::SessionDeletionRequest(m)) && SessionDeletionRequest::spec_decoded(data, m),
            },
            MsgType::SessionDeletionResponse => match SessionDeletionResponse::spec_decode_error(data) {
                Some(e) => r == Err::<ParsedMessage, PfcpError>(e),
                None => r matches Ok(ParsedMessage::SessionDeletionResponse(m)) && SessionDeletionResponse::spec_decoded(data, m),
            },
            MsgType::SessionEstablishmentRequest => match SessionEstablishmentRequest::spec_decode_error(data) {
                Some(e) => r == Err::<ParsedMessage, PfcpError>(e),
                None => r matches Ok(ParsedMessage::SessionEstablishmentRequest(m)) && SessionEstablishmentRequest::spec_decoded(data, m),
            },
            MsgType::SessionEstablishmentResponse => match SessionEstablishmentResponse::spec_decode_error(data) {
                Some(e) => r == Err::<ParsedMessage, PfcpError>(e),
                None => r matches Ok(ParsedMessage::SessionEstablishmentResponse(m)) && SessionEstablishmentResponse::spec_decoded(data, m),
            },
            MsgType::SessionModificationRequest => match SessionModificationRequest::spec_decode_error(data) {
                Some(e) => r == Err::<ParsedMessage, PfcpError>(e),
                None => r matches Ok(ParsedMessage::SessionModificationRequest(m)) && SessionModificationRequest::spec_decoded(data, m),
            },
            MsgType::SessionModificationResponse => match SessionModificationResponse::spec_decode_error(data) {
                Some(e) => r == Err::<ParsedMessage, PfcpError>(e),
                None => r matches Ok(ParsedMessage::SessionModificationResponse(m)) && SessionModificationResponse::spec_decoded(data, m),
            },
            MsgType::VersionNotSupportedResponse => match VersionNotSupportedResponse::spec_decode_error(data) {
                Some(e) => r == Err::<ParsedMessage, PfcpError>(e),
                None => r matches Ok(ParsedMessage::VersionNotSupportedResponse(m)) && VersionNotSupportedResponse::spec_decoded(data, m),
            },
            MsgType::SessionSetDeletionRequest => match SessionSetDeletionRequest::spec_decode_error(data) {
                Some(e) => r == Err::<ParsedMessage, PfcpError>(e),
                None => r matches Ok(ParsedMessage::SessionSetDeletionRequest(m)) && SessionSetDeletionRequest::spec_decoded(data, m),
            },
            MsgType::SessionSetDeletionResponse => match SessionSetDeletionResponse::spec_decode_error(data) {
                Some(e) => r == Err::<ParsedMessage, PfcpError>(e),
                None => r matches Ok(ParsedMessage::SessionSetDeletionResponse(m)) && SessionSetDeletionResponse::spec_decoded(data, m),
            },
            MsgType::SessionSetModificationRequest => match SessionSetModificationRequest::spec_decode_error(data) {
                Some(e) => r == Err::<ParsedMessage, PfcpError>(e),
                None => r matches Ok(ParsedMessage::SessionSetModificationRequest(m)) && SessionSetModificationRequest::spec_decoded(data, m),
            },
            MsgType::SessionSetModificationResponse => match SessionSetModificationResponse::spec_decode_error(data) {
                Some(e) => r == Err::<ParsedMessage, PfcpError>(e),
                None => r matches Ok(ParsedMessage::SessionSetModificationResponse(m)) && SessionSetModificationResponse::spec_decoded(data, m),
            },
            MsgType::SessionReportRequest => match SessionReportRequest::spec_decode_error(data) {
                Some(e) => r == Err::<ParsedMessage, PfcpError>(e),
                None => r matches Ok(ParsedMessage::SessionReportRequest(m)) && SessionReportRequest::spec_decoded(data, m),
            },
            MsgType::SessionReportResponse => match SessionReportResponse::spec_decode_error(data) {
                Some(e) => r == Err::<ParsedMessage, PfcpError>(e),
                None => r matches Ok(ParsedMessage::SessionReportResponse(m)) && SessionReportResponse::spec_decoded(data, m),
            },
            MsgType::NodeReportRequest => match NodeReportRequest::spec_decode_error(data) {
                Some(e) => r == Err::<ParsedMessage, PfcpError>(e),
                None => r matches Ok(ParsedMessage::NodeReportRequest(m)) && NodeReportRequest::spec_decoded(data, m),
            },
            MsgType::PfdManagementRequest => match PfdManagementRequest::spec_decode_error(data) {
                Some(e) => r == Err::<ParsedMessage, PfcpError>(e),
                None => r matches Ok(ParsedMessage::PfdManagementRequest(m)) && PfdManagementRequest::spec_decoded(data, m),
            },
            _ => match Generic::spec_decode_error(data) {
                Some(e) => r == Err::<ParsedMessage, PfcpError>(e),
                None => r matches Ok(ParsedMessage::Generic(m)) && Generic::spec_decoded(data, m),
            },
        },
    }
}

/// Decodes a message of any type: the header names the type, whose decoder
/// reads the rest.
pub fn parse(data: &[u8]) -> (r: Result<ParsedMessage, PfcpError>)
    ensures
        parse_outcome(data@, r),
{
    let header = match Header::unmarshal(data) {
        Ok(h) => h,
        Err(e) => return Err(e),
    };
    match header.message_type {
        MsgType::HeartbeatRequest => match HeartbeatRequest::unmarshal(data) {
            Ok(m) => Ok(ParsedMessage::HeartbeatRequest(m)),
            Err(e) => Err(e),
        },
        MsgType::HeartbeatResponse => match HeartbeatResponse::unmarshal(data) {
            Ok(m) => Ok(ParsedMessage::HeartbeatResponse(m)),
            Err(e) => Err(e),
        },
        MsgType::AssociationReleaseRequest => match AssociationReleaseRequest::unmarshal(data) {
            Ok(m) => Ok(ParsedMessage::AssociationReleaseRequest(m)),
            Err(e) => Err(e),
        },
        MsgType::AssociationReleaseResponse => match AssociationReleaseResponse::unmarshal(data) {
            Ok(m) => Ok(ParsedMessage::AssociationReleaseResponse(m)),
            Err(e) => Err(e),
        },
        MsgType::AssociationSetupRequest => match AssociationSetupRequest::unmarshal(data) {
            Ok(m) => Ok(ParsedMessage::AssociationSetupRequest(m)),
            Err(e) => Err(e),
        },
        MsgType::AssociationSetupResponse => match AssociationSetupResponse::unmarshal(data) {
            Ok(m) => Ok(ParsedMessage::AssociationSetupResponse(m)),
            Err(e) => Err(e),
        },
        MsgType::AssociationUpdateRequest => match AssociationUpdateRequest::unmarshal(data) {
            Ok(m) => Ok(ParsedMessage::AssociationUpdateRequest(m)),
            Err(e) => Err(e),
        },
        MsgType::AssociationUpdateResponse => match AssociationUpdateResponse::unmarshal(data) {
            Ok(m) => Ok(ParsedMessage::AssociationUpdateResponse(m)),
            Err(e) => Err(e),
        },
        MsgType::NodeReportResponse => match NodeReportResponse::unmarshal(data) {
            Ok(m) => Ok(ParsedMessage::NodeReportResponse(m)),
            Err(e) => Err(e),
        },
        MsgType::PfdManagementResponse => match PfdManagementResponse::unmarshal(data) {
            Ok(m) => Ok(ParsedMessage::PfdManagementResponse(m)),
            Err(e) => Err(e),
        },
        MsgType::SessionDeletionRequest => match SessionDeletionRequest::unmarshal(data) {
            Ok(m) => Ok(ParsedMessage::SessionDeletionRequest(m)),
            Err(e) => Err(e),
        },
        MsgType::SessionDeletionResponse => match SessionDeletionResponse::unmarshal(data) {
            Ok(m) => Ok(ParsedMessage::SessionDeletionResponse(m)),
            Err(e) => Err(e),
        },
        MsgType::SessionEstablishmentRequest => match SessionEstablishmentRequest::unmarshal(data) {
            Ok(m) => Ok(ParsedMessage::SessionEstablishmentRequest(m)),
            Err(e) => Err(e),
        },
        MsgType::SessionEstablishmentResponse => match SessionEstablishmentResponse::unmarshal(data) {
            Ok(m) => Ok(ParsedMessage::SessionEstablishmentResponse(m)),
            Err(e) => Err(e),
        },
        MsgType::SessionModificationRequest => match SessionModificationRequest::unmarshal(data) {
            Ok(m) => Ok(ParsedMessage::SessionModificationRequest(m)),
            Err(e) => Err(e),
        },
        MsgType::SessionModificationResponse => match SessionModificationResponse::unmarshal(data) {
            Ok(m) => Ok(ParsedMessage::SessionModificationResponse(m)),
            Err(e) => Err(e),
        },
        MsgType::VersionNotSupportedResponse => match VersionNotSupportedResponse::unmarshal(data) {
            Ok(m) => Ok(ParsedMessage::VersionNotSupportedResponse(m)),
            Err(e) => Err(e),
        },
        MsgType::SessionSetDeletionRequest => match SessionSetDeletionRequest::unmarshal(data) {
            Ok(m) => Ok(ParsedMessage::SessionSetDeletionRequest(m)),
            Err(e) => Err(e),
        },
        MsgType::SessionSetDeletionResponse => match SessionSetDeletionResponse::unmarshal(data) {
            Ok(m) => Ok(ParsedMessage::SessionSetDeletionResponse(m)),
            Err(e) => Err(e),
        },
        MsgType::SessionSetModificationRequest => match SessionSetModificationRequest::unmarshal(data) {
            Ok(m) => Ok(ParsedMessage::SessionSetModificationRequest(m)),
            Err(e) => Err(e),
        },
        MsgType::SessionSetModificationResponse => match SessionSetModificationResponse::unmarshal(data) {
            Ok(m) => Ok(ParsedMessage::SessionSetModificationResponse(m)),
            Err(e) => Err(e),
        },
        MsgType::SessionReportRequest => match SessionReportRequest::unmarshal(data) {
            Ok(m) => Ok(ParsedMessage::SessionReportRequest(m)),
            Err(e) => Err(e),
        },
        MsgType::SessionReportResponse => match SessionReportResponse::unmarshal(data) {
            Ok(m) => Ok(ParsedMessage::SessionReportResponse(m)),
            Err(e) => Err(e),
        },
        MsgType::NodeReportRequest => match NodeReportRequest::unmarshal(data) {
            Ok(m) => Ok(ParsedMessage::NodeReportRequest(m)),
            Err(e) => Err(e),
        },
        MsgType::PfdManagementRequest => match PfdManagementRequest::unmarshal(data) {
            Ok(m) => Ok(ParsedMessage::PfdManagementRequest(m)),
            Err(e) => Err(e),
        },
        _ => match Generic::unmarshal(data) {
            Ok(m) => Ok(ParsedMessage::Generic(m)),
            Err(e) => Err(e),
        },
    }
}

/// Parsing the wire form of a well-formed HeartbeatRequest whose header names its type
/// gives a HeartbeatRequest with the same header and the same IEs in each field.
pub proof fn lemma_parse_heartbeat_request(m: HeartbeatRequest, r: Result<ParsedMessage, PfcpError>)
    requires
        m.well_formed(),
        m.header.message_type == MsgType::HeartbeatRequest,
        parse_outcome(m.wire(), r),
    ensures
        r matches Ok(ParsedMessage::HeartbeatRequest(p)) && p.header == m.header && p.slots() == m.slots(),
{
    lemma_heartbeat_request_roundtrip(m);
    lemma_header_roundtrip(m.header, crate::ie::ies_wire(concat_slots(m.slots())));
}

/// Parsing the wire form of a well-formed HeartbeatResponse whose header names its type
/// gives a HeartbeatResponse with the same header and the same IEs in each field.
pub proof fn lemma_parse_heartbeat_response(m: HeartbeatResponse, r: Result<ParsedMessage, PfcpError>)
    requires
        m.well_formed(),
        m.header.message_type == MsgType::HeartbeatResponse,
        parse_outcome(m.wire(), r),
    ensures
        r matches Ok(ParsedMessage::HeartbeatResponse(p)) && p.header == m.header && p.slots() == m.slots(),
{
    lemma_heartbeat_response_roundtrip(m);
    lemma_header_roundtrip(m.header, crate::ie::ies_wire(concat_slots(m.slots())));
}

/// Parsing the wire form of a well-formed AssociationReleaseRequest whose header names its type
/// gives a AssociationReleaseRequest with the same header and the same IEs in each field.
pub proof fn lemma_parse_association_release_request(m: AssociationReleaseRequest, r: Result<ParsedMessage, PfcpError>)
    requires
        m.well_formed(),
        m.header.message_type == MsgType::AssociationReleaseRequest,
        parse_outcome(m.wire(), r),
    ensures
        r matches Ok(ParsedMessage::AssociationReleaseRequest(p)) && p.header == m.header && p.slots() == m.slots(),
{
    lemma_association_release_request_roundtrip(m);
    lemma_header_roundtrip(m.header, crate::ie::ies_wire(concat_slots(m.slots())));
}

/// Parsing the wire form of a well-formed AssociationReleaseResponse whose header names its type
/// gives a AssociationReleaseResponse with the same header and the same IEs in each field.
pub proof fn lemma_parse_association_release_response(m: AssociationReleaseResponse, r: Result<ParsedMessage, PfcpError>)
    requires
        m.well_formed(),
        m.header.message_type == MsgType::AssociationReleaseResponse,
        parse_outcome(m.wire(), r),
    ensures
        r matches Ok(ParsedMessage::AssociationReleaseResponse(p)) && p.header == m.header && p.slots() == m.slots(),
{
    lemma_association_release_response_roundtrip(m);
    lemma_header_roundtrip(m.header, crate::ie::ies_wire(concat_slots(m.slots())));
}

/// Parsing the wire form of a well-formed AssociationSetupRequest whose header names its type
/// gives a AssociationSetupRequest with the same header and the same IEs in each field.
pub proof fn lemma_parse_association_setup_request(m: AssociationSetupRequest, r: Result<ParsedMessage, PfcpError>)
    requires
        m.well_formed(),
        m.header.message_type == MsgType::AssociationSetupRequest,
        parse_outcome(m.wire(), r),
    ensures
        r matches Ok(ParsedMessage::AssociationSetupRequest(p)) && p.header == m.header && p.slots() == m.slots(),
{
    lemma_association_setup_request_roundtrip(m);
    lemma_header_roundtrip(m.header, crate::ie::ies_wire(concat_slots(m.slots())));
}

/// Parsing the wire form of a well-formed AssociationSetupResponse whose header names its type
/// gives a AssociationSetupResponse with the same header and the same IEs in each field.
pub proof fn lemma_parse_association_setup_response(m: AssociationSetupResponse, r: Result<ParsedMessage, PfcpError>)
    requires
        m.well_formed(),
        m.header.message_type == MsgType::AssociationSetupResponse,
        parse_outcome(m.wire(), r),
    ensures
        r matches Ok(ParsedMessage::AssociationSetupResponse(p)) && p.header == m.header && p.slots() == m.slots(),
{
    lemma_association_setup_response_roundtrip(m);
    lemma_header_roundtrip(m.header, crate::ie::ies_wire(concat_slots(m.slots())));
}

/// Parsing the wire form of a well-formed AssociationUpdateRequest whose header names its type
/// gives a AssociationUpdateRequest with the same header and the same IEs in each field.
pub proof fn lemma_parse_association_update_request(m: AssociationUpdateRequest, r: Result<ParsedMessage, PfcpError>)
    requires
        m.well_formed(),
        m.header.message_type == MsgType::AssociationUpdateRequest,
        parse_outcome(m.wire(), r),
    ensures
        r matches Ok(ParsedMessage::AssociationUpdateRequest(p)) && p.header == m.header && p.slots() == m.slots(),
{
    lemma_association_update_request_roundtrip(m);
    lemma_header_roundtrip(m.header, crate::ie::ies_wire(concat_slots(m.slots())));
}

/// Parsing the wire form of a well-formed AssociationUpdateResponse whose header names its type
/// gives a AssociationUpdateResponse with the same header and the same IEs in each field.
pub proof fn lemma_parse_association_update_response(m: AssociationUpdateResponse, r: Result<ParsedMessage, PfcpError>)
    requires
        m.well_formed(),
        m.header.message_type == MsgType::AssociationUpdateResponse,
        parse_outcome(m.wire(), r),
    ensures
        r matches Ok(ParsedMessage::AssociationUpdateResponse(p)) && p.header == m.header && p.slots() == m.slots(),
{
    lemma_association_update_response_roundtrip(m);
    lemma_header_roundtrip(m.header, crate::ie::ies_wire(concat_slots(m.slots())));
}

/// Parsing the wire form of a well-formed NodeReportResponse whose header names its type
/// gives a NodeReportResponse with the same header and the same IEs in each field.
pub proof fn lemma_parse_node_report_response(m: NodeReportResponse, r: Result<ParsedMessage, PfcpError>)
    requires
        m.well_formed(),
        m.header.message_type == MsgType::NodeReportResponse,
        parse_outcome(m.wire(), r),
    ensures
        r matches Ok(ParsedMessage::NodeReportResponse(p)) && p.header == m.header && p.slots() == m.slots(),
{
    lemma_node_report_response_roundtrip(m);
    lemma_header_roundtrip(m.header, crate::ie::ies_wire(concat_slots(m.slots())));
}

/// Parsing the wire form of a well-formed PfdManagementResponse whose header names its type
/// gives a PfdManagementResponse with the same header and the same IEs in each field.
pub proof fn lemma_parse_pfd_management_response(m: PfdManagementResponse, r: Result<ParsedMessage, PfcpError>)
    requires
        m.well_formed(),
        m.header.message_type == MsgType::PfdManagementResponse,
        parse_outcome(m.wire(), r),
    ensures
        r matches Ok(ParsedMessage::PfdManagementResponse(p)) && p.header == m.header && p.slots() == m.slots(),
{
    lemma_pfd_management_response_roundtrip(m);
    lemma_header_roundtrip(m.header, crate::ie::ies_wire(concat_slots(m.slots())));
}

/// Parsing the wire form of a well-formed SessionDeletionRequest whose header names its type
/// gives a SessionDeletionRequest with the same header and the same IEs in each field.
pub proof fn lemma_parse_session_deletion_request(m: SessionDeletionRequest, r: Result<ParsedMessage, PfcpError>)
    requires
        m.well_formed(),
        m.header.message_type == MsgType::SessionDeletionRequest,
        parse_outcome(m.wire(), r),
    ensures
        r matches Ok(ParsedMessage::SessionDeletionRequest(p)) && p.header == m.header && p.slots() == m.slots(),
{
    lemma_session_deletion_request_roundtrip(m);
    lemma_header_roundtrip(m.header, crate::ie::ies_wire(concat_slots(m.slots())));
}

/// Parsing the wire form of a well-formed SessionDeletionResponse whose header names its type
/// gives a SessionDeletionResponse with the same header and the same IEs in each field.
pub proof fn lemma_parse_session_deletion_response(m: SessionDeletionResponse, r: Result<ParsedMessage, PfcpError>)
    requires
        m.well_formed(),
        m.header.message_type == MsgType::SessionDeletionResponse,
        parse_outcome(m.wire(), r),
    ensures
        r matches Ok(ParsedMessage::SessionDeletionResponse(p)) && p.header == m.header && p.slots() == m.slots(),
{
    lemma_session_deletion_response_roundtrip(m);
    lemma_header_roundtrip(m.header, crate::ie::ies_wire(concat_slots(m.slots())));
}

/// Parsing the wire form of a well-formed SessionEstablishmentRequest whose header names its type
/// gives a SessionEstablishmentRequest with the same header and the same IEs in each field.
pub proof fn lemma_parse_session_establishment_request(m: SessionEstablishmentRequest, r: Result<ParsedMessage, PfcpError>)
    requires
        m.well_formed(),
        m.header.message_type == MsgType::SessionEstablishmentRequest,
        parse_outcome(m.wire(), r),
    ensures
        r matches Ok(ParsedMessage::SessionEstablishmentRequest(p)) && p.header == m.header && p.slots() == m.slots(),
{
    lemma_session_establishment_request_roundtrip(m);
    lemma_header_roundtrip(m.header, crate::ie::ies_wire(concat_slots(m.slots())));
}

/// Parsing the wire form of a well-formed SessionEstablishmentResponse whose header names its type
/// gives a SessionEstablishmentResponse with the same header and the same IEs in each field.
pub proof fn lemma_parse_session_establishment_response(m: SessionEstablishmentResponse, r: Result<ParsedMessage, PfcpError>)
    requires
        m.well_formed(),
        m.header.message_type == MsgType::SessionEstablishmentResponse,
        parse_outcome(m.wire(), r),
    ensures
        r matches Ok(ParsedMessage::SessionEstablishmentResponse(p)) && p.header == m.header && p.slots() == m.slots(),
{
    lemma_session_establishment_response_roundtrip(m);
    lemma_header_roundtrip(m.header, crate::ie::ies_wire(concat_slots(m.slots())));
}

/// Parsing the wire form of a well-formed SessionModificationRequest whose header names its type
/// gives a SessionModificationRequest with the same header and the same IEs in each field.
pub proof fn lemma_parse_session_modification_request(m: SessionModificationRequest, r: Result<ParsedMessage, PfcpError>)
    requires
        m.well_formed(),
        m.header.message_type == MsgType::SessionModificationRequest,
        parse_outcome(m.wire(), r),
    ensures
        r matches Ok(ParsedMessage::SessionModificationRequest(p)) && p.header == m.header && p.slots() == m.slots(),
{
    lemma_session_modification_request_roundtrip(m);
    lemma_header_roundtrip(m.header, crate::ie::ies_wire(concat_slots(m.slots())));
}

/// Parsing the wire form of a well-formed SessionModificationResponse whose header names its type
/// gives a SessionModificationResponse with the same header and the same IEs in each field.
pub proof fn lemma_parse_session_modification_response(m: SessionModificationResponse, r: Result<ParsedMessage, PfcpError>)
    requires
        m.well_formed(),
        m.header.message_type == MsgType::SessionModificationResponse,
        parse_outcome(m.wire(), r),
    ensures
        r matches Ok(ParsedMessage::SessionModificationResponse(p)) && p.header == m.header && p.slots() == m.slots(),
{
    lemma_session_modification_response_roundtrip(m);
    lemma_header_roundtrip(m.header, crate::ie::ies_wire(concat_slots(m.slots())));
}

/// Parsing the wire form of a well-formed VersionNotSupportedResponse whose header names its type
/// gives a VersionNotSupportedResponse with the same header and the same IEs in each field.
pub proof fn lemma_parse_version_not_supported_response(m: VersionNotSupportedResponse, r: Result<ParsedMessage, PfcpError>)
    requires
        m.well_formed(),
        m.header.message_type == MsgType::VersionNotSupportedResponse,
        parse_outcome(m.wire(), r),
    ensures
        r matches Ok(ParsedMessage::VersionNotSupportedResponse(p)) && p.header == m.header && p.slots() == m.slots(),
{
    lemma_version_not_supported_response_roundtrip(m);
    lemma_header_roundtrip(m.header, crate::ie::ies_wire(concat_slots(m.slots())));
}

/// Parsing the wire form of a well-formed SessionSetDeletionRequest whose header names its type
/// gives a SessionSetDeletionRequest with the same header and the same IEs in each field.
pub proof fn lemma_parse_session_set_deletion_request(m: SessionSetDeletionRequest, r: Result<ParsedMessage, PfcpError>)
    requires
        m.well_formed(),
        m.header.message_type == MsgType::SessionSetDeletionRequest,
        parse_outcome(m.wire(), r),
    ensures
        r matches Ok(ParsedMessage::SessionSetDeletionRequest(p)) && p.header == m.header && p.slots() == m.slots(),
{
    lemma_session_set_deletion_request_roundtrip(m);
    lemma_header_roundtrip(m.header, crate::ie::ies_wire(concat_slots(m.slots())));
}

/// Parsing the wire form of a well-formed SessionSetDeletionResponse whose header names its type
/// gives a SessionSetDeletionResponse with the same header and the same IEs in each field.
pub proof fn lemma_parse_session_set_deletion_response(m: SessionSetDeletionResponse, r: Result<ParsedMessage, PfcpError>)
    requires
        m.well_formed(),
        m.header.message_type == MsgType::SessionSetDeletionResponse,
        parse_outcome(m.wire(), r),
    ensures
        r matches Ok(ParsedMessage::SessionSetDeletionResponse(p)) && p.header == m.header && p.slots() == m.slots(),
{
    lemma_session_set_deletion_response_roundtrip(m);
    lemma_header_roundtrip(m.header, crate::ie::ies_wire(concat_slots(m.slots())));
}

/// Parsing the wire form of a well-formed SessionSetModificationRequest whose header names its type
/// gives a SessionSetModificationRequest with the same header and the same IEs in each field.
pub proof fn lemma_parse_session_set_modification_request(m: SessionSetModificationRequest, r: Result<ParsedMessage, PfcpError>)
    requires
        m.well_formed(),
        m.header.message_type == MsgType::SessionSetModificationRequest,
        parse_outcome(m.wire(), r),
    ensures
        r matches Ok(ParsedMessage::SessionSetModificationRequest(p)) && p.header == m.header && p.slots() == m.slots(),
{
    lemma_session_set_modification_request_roundtrip(m);
    lemma_header_roundtrip(m.header, crate::ie::ies_wire(concat_slots(m.slots())));
}

/// Parsing the wire form of a well-formed SessionSetModificationResponse whose header names its type
/// gives a SessionSetModificationResponse with the same header and the same IEs in each field.
pub proof fn lemma_parse_session_set_modification_response(m: SessionSetModificationResponse, r: Result<ParsedMessage, PfcpError>)
    requires
        m.well_formed(),
        m.header.message_type == MsgType::SessionSetModificationResponse,
        parse_outcome(m.wire(), r),
    ensures
        r matches Ok(ParsedMessage::SessionSetModificationResponse(p)) && p.header == m.header && p.slots() == m.slots(),
{
    lemma_session_set_modification_response_roundtrip(m);
    lemma_header_roundtrip(m.header, crate::ie::ies_wire(concat_slots(m.slots())));
}

/// Parsing the wire form of a well-formed SessionReportRequest whose header names its type
/// gives a SessionReportRequest with the same header and the same IEs in each field.
pub proof fn lemma_parse_session_report_request(m: SessionReportRequest, r: Result<ParsedMessage, PfcpError>)
    requires
        m.well_formed(),
        m.header.message_type == MsgType::SessionReportRequest,
        parse_outcome(m.wire(), r),
    ensures
        r matches Ok(ParsedMessage::SessionReportRequest(p)) && p.header == m.header && p.slots() == m.slots(),
{
    lemma_session_report_request_roundtrip(m);
    lemma_header_roundtrip(m.header, crate::ie::ies_wire(concat_slots(m.slots())));
}

/// Parsing the wire form of a well-formed SessionReportResponse whose header names its type
/// gives a SessionReportResponse with the same header and the same IEs in each field.
pub proof fn lemma_parse_session_report_response(m: SessionReportResponse, r: Result<ParsedMessage, PfcpError>)
    requires
        m.well_formed(),
        m.header.message_type == MsgType::SessionReportResponse,
        parse_outcome(m.wire(), r),
    ensures
        r matches Ok(ParsedMessage::SessionReportResponse(p)) && p.header == m.header && p.slots() == m.slots(),
{
    lemma_session_report_response_roundtrip(m);
    lemma_header_roundtrip(m.header, crate::ie::ies_wire(concat_slots(m.slots())));
}

/// Parsing the wire form of a well-formed NodeReportRequest whose header names its type
/// gives a NodeReportRequest with the same header and the same IEs in each field.
pub proof fn lemma_parse_node_report_request(m: NodeReportRequest, r: Result<ParsedMessage, PfcpError>)
    requires
        m.well_formed(),
        m.header.message_type == MsgType::NodeReportRequest,
        parse_outcome(m.wire(), r),
    ensures
        r matches Ok(ParsedMessage::NodeReportRequest(p)) && p.header == m.header && p.slots() == m.slots() && p.node_id@ == m.node_id@ && p.node_report_type == m.node_report_type,
{
    lemma_node_report_request_roundtrip(m);
    lemma_header_roundtrip(m.header, crate::ie::ies_wire(concat_slots(m.slots())));
}

/// Parsing the wire form of a well-formed PfdManagementRequest whose header names its type
/// gives a PfdManagementRequest with the same header and the same IEs in each field.
pub proof fn lemma_parse_pfd_management_request(m: PfdManagementRequest, r: Result<ParsedMessage, PfcpError>)
    requires
        m.well_formed(),
        m.header.message_type == MsgType::PfdManagementRequest,
        parse_outcome(m.wire(), r),
    ensures
        r matches Ok(ParsedMessage::PfdManagementRequest(p)) && p.header == m.header && crate::message::pfd_management_request::opt_node_id_view(p.node_id) == crate::message::pfd_management_request::opt_node_id_view(m.node_id)
            && crate::message::pfd_management_request::opt_apps_view(p.application_ids_pfds) == crate::message::pfd_management_request::opt_apps_view(m.application_ids_pfds) && crate::ie::ies_view(p.ies@) == crate::ie::ies_view(m.ies@),
{
    lemma_pfd_management_request_roundtrip(m);
    lemma_header_roundtrip(m.header, crate::ie::ies_wire(m.body()));
}

} // verus!
