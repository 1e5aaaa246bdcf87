//! PFCP messages and their components.
pub mod display;
pub mod generic;
pub mod header;
pub mod ie_iter;
pub mod parse;
pub mod slots;
pub mod heartbeat_request;
pub mod heartbeat_response;
pub mod association_release_request;
pub mod association_release_response;
pub mod association_setup_request;
pub mod association_setup_response;
pub mod association_update_request;
pub mod association_update_response;
pub mod node_report_response;
pub mod pfd_management_response;
pub mod session_deletion_request;
pub mod session_deletion_response;
pub mod session_establishment_request;
pub mod session_establishment_response;
pub mod session_modification_request;
pub mod session_modification_response;
pub mod version_not_supported_response;
pub mod session_set_deletion_request;
pub mod session_set_deletion_response;
pub mod session_set_modification_request;
pub mod session_set_modification_response;
pub mod session_report_request;
pub mod session_report_response;
pub mod node_report_request;
pub mod pfd_management_request;

pub use generic::Generic;
pub use ie_iter::IeIter;
pub use parse::{parse, ParsedMessage};
pub use heartbeat_request::HeartbeatRequest;
pub use heartbeat_response::HeartbeatResponse;
pub use association_release_request::AssociationReleaseRequest;
pub use association_release_response::AssociationReleaseResponse;
pub use association_setup_request::AssociationSetupRequest;
pub use association_setup_response::AssociationSetupResponse;
pub use association_update_request::AssociationUpdateRequest;
pub use association_update_response::AssociationUpdateResponse;
pub use node_report_response::NodeReportResponse;
pub use pfd_management_response::PfdManagementResponse;
pub use session_deletion_request::SessionDeletionRequest;
pub use session_deletion_response::SessionDeletionResponse;
pub use session_establishment_request::SessionEstablishmentRequest;
pub use session_establishment_response::SessionEstablishmentResponse;
pub use session_modification_request::SessionModificationRequest;
pub use session_modification_response::SessionModificationResponse;
pub use version_not_supported_response::VersionNotSupportedResponse;
pub use session_set_deletion_request::SessionSetDeletionRequest;
pub use session_set_deletion_response::SessionSetDeletionResponse;
pub use session_set_modification_request::SessionSetModificationRequest;
pub use session_set_modification_response::SessionSetModificationResponse;
pub use session_report_request::SessionReportRequest;
pub use session_report_response::SessionReportResponse;
pub use node_report_request::NodeReportRequest;
pub use pfd_management_request::PfdManagementRequest;

use crate::error::PfcpError;
use crate::ie::{ie_refs_view, ies_size, ies_wire, Ie, IeType, IeView};
use crate::message::header::{header_size, header_wire, spec_parse_header, Header};
use crate::message::ie_iter::iter_position_ok;
use vstd::prelude::*;

verus! {

/// The PFCP message types (3GPP TS 29.244 clause 7.3). `Unknown` stands for
/// every code that names no message type.
#[derive(Debug, Clone, Copy, PartialEq, Eq, PartialOrd, Ord, Hash, Structural)]
pub enum MsgType {
    HeartbeatRequest,
    HeartbeatResponse,
    PfdManagementRequest,
    PfdManagementResponse,
    AssociationSetupRequest,
    AssociationSetupResponse,
    AssociationUpdateRequest,
    AssociationUpdateResponse,
    AssociationReleaseRequest,
    AssociationReleaseResponse,
    VersionNotSupportedResponse,
    NodeReportRequest,
    NodeReportResponse,
    SessionSetDeletionRequest,
    SessionSetDeletionResponse,
    SessionSetModificationRequest,
    SessionSetModificationResponse,
    SessionEstablishmentRequest,
    SessionEstablishmentResponse,
    SessionModificationRequest,
    SessionModificationResponse,
    SessionDeletionRequest,
    SessionDeletionResponse,
    SessionReportRequest,
    SessionReportResponse,
    Unknown,
}

/// The wire code of a message type (`Unknown` has code 58, the value after the last known code).
pub open spec fn msg_type_code(t: MsgType) -> u8 {
    match t {
        MsgType::HeartbeatRequest => 1u8,
        MsgType::HeartbeatResponse => 2u8,
        MsgType::PfdManagementRequest => 3u8,
        MsgType::PfdManagementResponse => 4u8,
        MsgType::AssociationSetupRequest => 5u8,
        MsgType::AssociationSetupResponse => 6u8,
        MsgType::AssociationUpdateRequest => 7u8,
        MsgType::AssociationUpdateResponse => 8u8,
        MsgType::AssociationReleaseRequest => 9u8,
        MsgType::AssociationReleaseResponse => 10u8,
        MsgType::VersionNotSupportedResponse => 11u8,
        MsgType::NodeReportRequest => 12u8,
        MsgType::NodeReportResponse => 13u8,
        MsgType::SessionSetDeletionRequest => 14u8,
        MsgType::SessionSetDeletionResponse => 15u8,
        MsgType::SessionSetModificationRequest => 16u8,
        MsgType::SessionSetModificationResponse => 17u8,
        MsgType::SessionEstablishmentRequest => 50u8,
        MsgType::SessionEstablishmentResponse => 51u8,
        MsgType::SessionModificationRequest => 52u8,
        MsgType::SessionModificationResponse => 53u8,
        MsgType::SessionDeletionRequest => 54u8,
        MsgType::SessionDeletionResponse => 55u8,
        MsgType::SessionReportRequest => 56u8,
        MsgType::SessionReportResponse => 57u8,
        MsgType::Unknown => 58u8,
    }
}

/// The message type that a wire code denotes.
pub open spec fn msg_type_of_code(c: u8) -> MsgType {
    match c {
        1u8 => MsgType::HeartbeatRequest,
        2u8 => MsgType::HeartbeatResponse,
        3u8 => MsgType::PfdManagementRequest,
        4u8 => MsgType::PfdManagementResponse,
        5u8 => MsgType::AssociationSetupRequest,
        6u8 => MsgType::AssociationSetupResponse,
        7u8 => MsgType::AssociationUpdateRequest,
        8u8 => MsgType::AssociationUpdateResponse,
        9u8 => MsgType::AssociationReleaseRequest,
        10u8 => MsgType::AssociationReleaseResponse,
        11u8 => MsgType::VersionNotSupportedResponse,
        12u8 => MsgType::NodeReportRequest,
        13u8 => MsgType::NodeReportResponse,
        14u8 => MsgType::SessionSetDeletionRequest,
        15u8 => MsgType::SessionSetDeletionResponse,
        16u8 => MsgType::SessionSetModificationRequest,
        17u8 => MsgType::SessionSetModificationResponse,
        50u8 => MsgType::SessionEstablishmentRequest,
        51u8 => MsgType::SessionEstablishmentResponse,
        52u8 => MsgType::SessionModificationRequest,
        53u8 => MsgType::SessionModificationResponse,
        54u8 => MsgType::SessionDeletionRequest,
        55u8 => MsgType::SessionDeletionResponse,
        56u8 => MsgType::SessionReportRequest,
        57u8 => MsgType::SessionReportResponse,
        _ => MsgType::Unknown,
    }
}

impl MsgType {
    /// The wire code of this message type.
    pub fn code(&self) -> (r: u8)
        ensures
            r == msg_type_code(*self),
    {
        match self {
            MsgType::HeartbeatRequest => 1,
            MsgType::HeartbeatResponse => 2,
            MsgType::PfdManagementRequest => 3,
            MsgType::PfdManagementResponse => 4,
            MsgType::AssociationSetupRequest => 5,
            MsgType::AssociationSetupResponse => 6,
            MsgType::AssociationUpdateRequest => 7,
            MsgType::AssociationUpdateResponse => 8,
            MsgType::AssociationReleaseRequest => 9,
            MsgType::AssociationReleaseResponse => 10,
            MsgType::VersionNotSupportedResponse => 11,
            MsgType::NodeReportRequest => 12,
            MsgType::NodeReportResponse => 13,
            MsgType::SessionSetDeletionRequest => 14,
            MsgType::SessionSetDeletionResponse => 15,
            MsgType::SessionSetModificationRequest => 16,
            MsgType::SessionSetModificationResponse => 17,
            MsgType::SessionEstablishmentRequest => 50,
            MsgType::SessionEstablishmentResponse => 51,
            MsgType::SessionModificationRequest => 52,
            MsgType::SessionModificationResponse => 53,
            MsgType::SessionDeletionRequest => 54,
            MsgType::SessionDeletionResponse => 55,
            MsgType::SessionReportRequest => 56,
            MsgType::SessionReportResponse => 57,
            MsgType::Unknown => 58,
        }
    }

    /// The message type that a wire code denotes.
    pub fn from_code(v: u8) -> (r: MsgType)
        ensures
            r == msg_type_of_code(v),
    {
        match v {
            1 => MsgType::HeartbeatRequest,
            2 => MsgType::HeartbeatResponse,
            3 => MsgType::PfdManagementRequest,
            4 => MsgType::PfdManagementResponse,
            5 => MsgType::AssociationSetupRequest,
            6 => MsgType::AssociationSetupResponse,
            7 => MsgType::AssociationUpdateRequest,
            8 => MsgType::AssociationUpdateResponse,
            9 => MsgType::AssociationReleaseRequest,
            10 => MsgType::AssociationReleaseResponse,
            11 => MsgType::VersionNotSupportedResponse,
            12 => MsgType::NodeReportRequest,
            13 => MsgType::NodeReportResponse,
            14 => MsgType::SessionSetDeletionRequest,
            15 => MsgType::SessionSetDeletionResponse,
            16 => MsgType::SessionSetModificationRequest,
            17 => MsgType::SessionSetModificationResponse,
            50 => MsgType::SessionEstablishmentRequest,
            51 => MsgType::SessionEstablishmentResponse,
            52 => MsgType::SessionModificationRequest,
            53 => MsgType::SessionModificationResponse,
            54 => MsgType::SessionDeletionRequest,
            55 => MsgType::SessionDeletionResponse,
            56 => MsgType::SessionReportRequest,
            57 => MsgType::SessionReportResponse,
            _ => MsgType::Unknown,
        }
    }
}

/// The name of a message type.
pub open spec fn msg_type_name(t: MsgType) -> Seq<char> {
    match t {
        MsgType::HeartbeatRequest => "HeartbeatRequest"@,
        MsgType::HeartbeatResponse => "HeartbeatResponse"@,
        MsgType::PfdManagementRequest => "PfdManagementRequest"@,
        MsgType::PfdManagementResponse => "PfdManagementResponse"@,
        MsgType::AssociationSetupRequest => "AssociationSetupRequest"@,
        MsgType::AssociationSetupResponse => "AssociationSetupResponse"@,
        MsgType::AssociationUpdateRequest => "AssociationUpdateRequest"@,
        MsgType::AssociationUpdateResponse => "AssociationUpdateResponse"@,
        MsgType::AssociationReleaseRequest => "AssociationReleaseRequest"@,
        MsgType::AssociationReleaseResponse => "AssociationReleaseResponse"@,
        MsgType::VersionNotSupportedResponse => "VersionNotSupportedResponse"@,
        MsgType::NodeReportRequest => "NodeReportRequest"@,
        MsgType::NodeReportResponse => "NodeReportResponse"@,
        MsgType::SessionSetDeletionRequest => "SessionSetDeletionRequest"@,
        MsgType::SessionSetDeletionResponse => "SessionSetDeletionResponse"@,
        MsgType::SessionSetModificationRequest => "SessionSetModificationRequest"@,
        MsgType::SessionSetModificationResponse => "SessionSetModificationResponse"@,
        MsgType::SessionEstablishmentRequest => "SessionEstablishmentRequest"@,
        MsgType::SessionEstablishmentResponse => "SessionEstablishmentResponse"@,
        MsgType::SessionModificationRequest => "SessionModificationRequest"@,
        MsgType::SessionModificationResponse => "SessionModificationResponse"@,
        MsgType::SessionDeletionRequest => "SessionDeletionRequest"@,
        MsgType::SessionDeletionResponse => "SessionDeletionResponse"@,
        MsgType::SessionReportRequest => "SessionReportRequest"@,
        MsgType::SessionReportResponse => "SessionReportResponse"@,
        MsgType::Unknown => "Unknown"@,
    }
}

impl MsgType {
    /// The name of this message type.
    pub fn name(&self) -> (r: &'static str)
        ensures
            r@ == msg_type_name(*self),
    {
        match self {
            MsgType::HeartbeatRequest => "HeartbeatRequest",
            MsgType::HeartbeatResponse => "HeartbeatResponse",
            MsgType::PfdManagementRequest => "PfdManagementRequest",
            MsgType::PfdManagementResponse => "PfdManagementResponse",
            MsgType::AssociationSetupRequest => "AssociationSetupRequest",
            MsgType::AssociationSetupResponse => "AssociationSetupResponse",
            MsgType::AssociationUpdateRequest => "AssociationUpdateRequest",
            MsgType::AssociationUpdateResponse => "AssociationUpdateResponse",
            MsgType::AssociationReleaseRequest => "AssociationReleaseRequest",
            MsgType::AssociationReleaseResponse => "AssociationReleaseResponse",
            MsgType::VersionNotSupportedResponse => "VersionNotSupportedResponse",
            MsgType::NodeReportRequest => "NodeReportRequest",
            MsgType::NodeReportResponse => "NodeReportResponse",
            MsgType::SessionSetDeletionRequest => "SessionSetDeletionRequest",
            MsgType::SessionSetDeletionResponse => "SessionSetDeletionResponse",
            MsgType::SessionSetModificationRequest => "SessionSetModificationRequest",
            MsgType::SessionSetModificationResponse => "SessionSetModificationResponse",
            MsgType::SessionEstablishmentRequest => "SessionEstablishmentRequest",
            MsgType::SessionEstablishmentResponse => "SessionEstablishmentResponse",
            MsgType::SessionModificationRequest => "SessionModificationRequest",
            MsgType::SessionModificationResponse => "SessionModificationResponse",
            MsgType::SessionDeletionRequest => "SessionDeletionRequest",
            MsgType::SessionDeletionResponse => "SessionDeletionResponse",
            MsgType::SessionReportRequest => "SessionReportRequest",
            MsgType::SessionReportResponse => "SessionReportResponse",
            MsgType::Unknown => "Unknown",
        }
    }
}

impl From<u8> for MsgType {
    fn from(v: u8) -> (r: MsgType) {
        MsgType::from_code(v)
    }
}

impl vstd::std_specs::convert::FromSpecImpl<u8> for MsgType {
    open spec fn obeys_from_spec() -> bool {
        true
    }

    open spec fn from_spec(v: u8) -> MsgType {
        msg_type_of_code(v)
    }
}

/// Reading back the code of a message type gives the type.
pub proof fn lemma_msg_type_code_roundtrip(t: MsgType)
    ensures
        msg_type_of_code(msg_type_code(t)) == t,
{
}

/// The header that a message built with these values gets: version 1, no
/// FO or MP flag, and the length of the IEs after the first four octets.
pub open spec fn message_header(t: MsgType, has_seid: bool, seid: u64, seq: u32, body: Seq<IeView>) -> Header {
    Header {
        version: 1,
        has_fo: false,
        has_mp: false,
        has_seid,
        message_type: t,
        length: ((ies_size(body) + (if has_seid { 16int } else { 8int }) - 4) % 65536) as u16,
        seid,
        sequence_number: seq,
        message_priority: 0,
        raw_message_type: msg_type_code(t),
    }
}

/// A header that can be read takes no more bytes than there are.
pub proof fn lemma_parse_header_size(b: Seq<u8>)
    ensures
        spec_parse_header(b) matches Ok(h) ==> header_size(h) <= b.len(),
{
}

/// A PFCP message: what every message type offers.
pub trait Message: Sized {
    /// The header.
    spec fn spec_header(&self) -> Header;

    /// The IEs in the order they are written on the wire.
    spec fn spec_body(&self) -> Seq<IeView>;

    /// The IEs in the order that `all_ies` lists them.
    spec fn spec_listed(&self) -> Seq<IeView>;

    /// The IEs that `ies(t)` yields.
    spec fn spec_ies_of(&self, t: IeType) -> Seq<IeView>;

    /// The message type.
    spec fn spec_msg_type(&self) -> MsgType;

    /// Why `data` does not decode as a message of this type, if it does not.
    spec fn spec_decode_error(data: Seq<u8>) -> Option<PfcpError>;

    /// `m` is what decoding `data` gives.
    spec fn spec_decoded(data: Seq<u8>, m: Self) -> bool;

    /// Serializes the message into a new vector.
    fn marshal(&self) -> (r: Vec<u8>)
        ensures
            r@ == header_wire(self.spec_header()) + ies_wire(self.spec_body()),
    ;

    /// Appends the serialized message to `buf`.
    fn marshal_into(&self, buf: &mut Vec<u8>)
        ensures
            final(buf)@ == old(buf)@ + header_wire(self.spec_header()) + ies_wire(self.spec_body()),
    ;

    /// The number of bytes the serialized message takes.
    fn marshaled_size(&self) -> (r: usize)
        ensures
            r == header_wire(self.spec_header()).len() + ies_wire(self.spec_body()).len(),
    ;

    /// Deserializes a message of this type.
    fn unmarshal(data: &[u8]) -> (r: Result<Self, PfcpError>)
        ensures
            match Self::spec_decode_error(data@) {
                Some(e) => r == Err::<Self, PfcpError>(e),
                None => r is Ok && Self::spec_decoded(data@, r->Ok_0),
            },
    ;

    /// The message type.
    fn msg_type(&self) -> (r: MsgType)
        ensures
            r == self.spec_msg_type(),
    ;

    /// The name of the message type.
    fn msg_name(&self) -> (r: String)
        ensures
            r@ == msg_type_name(self.spec_msg_type()),
    ;

    /// The protocol version this crate speaks: 1.
    fn version(&self) -> (r: u8)
        ensures
            r == 1,
    ;

    /// The SEID, when the header carries one.
    fn seid(&self) -> (r: Option<u64>)
        ensures
            r == (if self.spec_header().has_seid { Some(self.spec_header().seid) } else { None::<u64> }),
    ;

    /// The sequence number.
    fn sequence(&self) -> (r: u32)
        ensures
            r == self.spec_header().sequence_number,
    ;

    /// Sets the sequence number; nothing else changes.
    fn set_sequence(&mut self, seq: u32)
        ensures
            final(self).spec_header() == (Header { sequence_number: seq, ..old(self).spec_header() }),
            final(self).spec_body() == old(self).spec_body(),
            final(self).spec_listed() == old(self).spec_listed(),
            forall|t: IeType| #[trigger] final(self).spec_ies_of(t) == old(self).spec_ies_of(t),
    ;

    /// The IEs of type `ie_type`.
    fn ies(&self, ie_type: IeType) -> (r: IeIter<'_>)
        ensures
            r@ == self.spec_ies_of(ie_type),
            iter_position_ok(r),
    ;

    /// The first IE of type `ie_type`, if any.
    fn find_ie(&self, ie_type: IeType) -> (r: Option<&Ie>)
        ensures
            self.spec_ies_of(ie_type).len() == 0 ==> r is None,
            self.spec_ies_of(ie_type).len() > 0 ==> r is Some && r->Some_0@ == self.spec_ies_of(ie_type)[0],
    ;

    /// All IEs of type `ie_type`.
    fn find_all_ies(&self, ie_type: IeType) -> (r: Vec<&Ie>)
        ensures
            ie_refs_view(r@) == self.spec_ies_of(ie_type),
    ;

    /// All IEs of the message.
    fn all_ies(&self) -> (r: Vec<&Ie>)
        ensures
            ie_refs_view(r@) == self.spec_listed(),
    ;
}

} // verus!
