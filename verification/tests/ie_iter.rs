#![allow(unused_imports, deprecated, unused_variables, unused_mut)]
use rs_pfcp::error::{ErrorKind, PfcpError};
use rs_pfcp::ie::cause::{Cause, CauseValue};
use rs_pfcp::ie::fseid::Fseid;
use rs_pfcp::ie::node_id::NodeId;
use rs_pfcp::ie::offending_ie::OffendingIe;
use rs_pfcp::ie::pdn_type::PdnType;
use rs_pfcp::ie::recovery_time_stamp::RecoveryTimeStamp;
use rs_pfcp::ie::source_ip_address::SourceIpAddress;
use rs_pfcp::ie::{Ie, IeType};
use rs_pfcp::message::header::Header;
use rs_pfcp::message::{parse, Generic, IeIter, Message, MsgType, ParsedMessage};
use rs_pfcp::message::heartbeat_request::{HeartbeatRequest, HeartbeatRequestBuilder};
use rs_pfcp::message::heartbeat_response::{HeartbeatResponse, HeartbeatResponseBuilder};
use rs_pfcp::message::association_release_request::{AssociationReleaseRequest, AssociationReleaseRequestBuilder};
use rs_pfcp::message::association_release_response::{AssociationReleaseResponse, AssociationReleaseResponseBuilder};
use rs_pfcp::message::association_setup_request::{AssociationSetupRequest, AssociationSetupRequestBuilder};
use rs_pfcp::message::association_setup_response::{AssociationSetupResponse, AssociationSetupResponseBuilder};
use rs_pfcp::message::association_update_request::{AssociationUpdateRequest, AssociationUpdateRequestBuilder};
use rs_pfcp::message::association_update_response::{AssociationUpdateResponse, AssociationUpdateResponseBuilder};
use rs_pfcp::message::node_report_response::{NodeReportResponse, NodeReportResponseBuilder};
use rs_pfcp::message::pfd_management_response::{PfdManagementResponse, PfdManagementResponseBuilder};
use rs_pfcp::message::session_deletion_request::{SessionDeletionRequest, SessionDeletionRequestBuilder};
use rs_pfcp::message::session_deletion_response::{SessionDeletionResponse, SessionDeletionResponseBuilder};
use rs_pfcp::message::session_establishment_request::{SessionEstablishmentRequest, SessionEstablishmentRequestBuilder};
use rs_pfcp::message::session_establishment_response::{SessionEstablishmentResponse, SessionEstablishmentResponseBuilder};
use rs_pfcp::message::session_modification_request::{SessionModificationRequest, SessionModificationRequestBuilder};
use rs_pfcp::message::session_modification_response::{SessionModificationResponse, SessionModificationResponseBuilder};
use rs_pfcp::message::version_not_supported_response::{VersionNotSupportedResponse, VersionNotSupportedResponseBuilder};
use rs_pfcp::message::session_set_deletion_request::{SessionSetDeletionRequest, SessionSetDeletionRequestBuilder};
use rs_pfcp::message::session_set_deletion_response::{SessionSetDeletionResponse, SessionSetDeletionResponseBuilder};
use rs_pfcp::message::session_set_modification_request::{SessionSetModificationRequest, SessionSetModificationRequestBuilder};
use rs_pfcp::message::session_set_modification_response::{SessionSetModificationResponse, SessionSetModificationResponseBuilder};
use rs_pfcp::message::session_report_request::{SessionReportRequest, SessionReportRequestBuilder};
use rs_pfcp::message::session_report_response::{SessionReportResponse, SessionReportResponseBuilder};
use rs_pfcp::ie::application_id::ApplicationId;
use rs_pfcp::ie::application_ids_pfds::ApplicationIdsPfds;
use rs_pfcp::ie::pfd_context::PfdContext;
use rs_pfcp::message::pfd_management_request::{PfdManagementRequest, PfdManagementRequestBuilder};
use rs_pfcp::ie::node_report_type::NodeReportType;
use rs_pfcp::message::node_report_request::{NodeReportRequest, NodeReportRequestBuilder};
use std::time::SystemTime;

#[test]
fn test_single_ie_iterator_some() {
    let ie = Ie::new(IeType::Cause, vec![0x01]);
    let mut iter = IeIter::single(Some(&ie), IeType::Cause);

    assert_eq!(iter.next().map(|i| &i.payload), Some(&vec![0x01]));
    assert_eq!(iter.next(), None);
}

#[test]
fn test_single_ie_iterator_none() {
    let mut iter = IeIter::single(None, IeType::PdnType);

    assert_eq!(iter.next(), None);
    assert_eq!(iter.next(), None);
}

#[test]
fn test_multiple_ie_iterator_empty() {
    let ies: Vec<Ie> = vec![];
    let mut iter = IeIter::multiple(&ies, IeType::CreatePdr);

    assert_eq!(iter.next(), None);
}

#[test]
fn test_multiple_ie_iterator_three() {
    let ies = vec![
        Ie::new(IeType::CreatePdr, vec![1]),
        Ie::new(IeType::CreatePdr, vec![2]),
        Ie::new(IeType::CreatePdr, vec![3]),
    ];

    let mut iter = IeIter::multiple(&ies, IeType::CreatePdr);

    assert_eq!(iter.next().map(|ie| ie.payload[0]), Some(1));
    assert_eq!(iter.next().map(|ie| ie.payload[0]), Some(2));
    assert_eq!(iter.next().map(|ie| ie.payload[0]), Some(3));
    assert_eq!(iter.next(), None);
}

#[test]
fn test_generic_ie_iterator_filters_correctly() {
    let ies = vec![
        Ie::new(IeType::Cause, vec![1]),
        Ie::new(IeType::CreatePdr, vec![2]),
        Ie::new(IeType::Cause, vec![3]),
        Ie::new(IeType::CreateFar, vec![4]),
        Ie::new(IeType::Cause, vec![5]),
    ];

    let collected: Vec<_> = IeIter::generic(&ies, IeType::Cause)
        .collect()
        .into_iter()
        .map(|ie| ie.payload[0])
        .collect();

    assert_eq!(collected, vec![1, 3, 5]);
}

#[test]
fn test_generic_ie_iterator_no_matches() {
    let ies = vec![
        Ie::new(IeType::Cause, vec![1]),
        Ie::new(IeType::CreatePdr, vec![2]),
    ];

    let collected: Vec<_> = IeIter::generic(&ies, IeType::NodeId).collect();

    assert_eq!(collected.len(), 0);
}

#[test]
fn test_iterator_count() {
    let ies = vec![
        Ie::new(IeType::CreatePdr, vec![1]),
        Ie::new(IeType::CreatePdr, vec![2]),
        Ie::new(IeType::CreatePdr, vec![3]),
    ];

    let count = IeIter::multiple(&ies, IeType::CreatePdr).count();
    assert_eq!(count, 3);
}

#[test]
fn test_iterator_collect() {
    let ies = vec![
        Ie::new(IeType::CreateFar, vec![10]),
        Ie::new(IeType::CreateFar, vec![20]),
    ];

    let collected: Vec<_> = IeIter::multiple(&ies, IeType::CreateFar).collect();
    assert_eq!(collected.len(), 2);
    assert_eq!(collected[0].payload[0], 10);
    assert_eq!(collected[1].payload[0], 20);
}

#[test]
fn test_size_hint_single_some() {
    let ie = Ie::new(IeType::Cause, vec![0x01]);
    let iter = IeIter::single(Some(&ie), IeType::Cause);

    assert_eq!(iter.size_hint(), (1, Some(1)));
}

#[test]
fn test_size_hint_single_none() {
    let iter = IeIter::single(None, IeType::PdnType);

    assert_eq!(iter.size_hint(), (0, Some(0)));
}

#[test]
fn test_size_hint_multiple() {
    let ies = vec![
        Ie::new(IeType::CreatePdr, vec![1]),
        Ie::new(IeType::CreatePdr, vec![2]),
    ];

    let iter = IeIter::multiple(&ies, IeType::CreatePdr);
    assert_eq!(iter.size_hint(), (2, Some(2)));
}

#[test]
fn test_chaining_iterator_methods() {
    let ies = vec![
        Ie::new(IeType::CreateQer, vec![5]),
        Ie::new(IeType::CreateQer, vec![10]),
        Ie::new(IeType::CreateQer, vec![15]),
    ];

    // Use iterator combinators
    let sum: u8 = IeIter::multiple(&ies, IeType::CreateQer)
        .collect()
        .into_iter()
        .map(|ie| ie.payload[0])
        .sum();

    assert_eq!(sum, 30);
}
