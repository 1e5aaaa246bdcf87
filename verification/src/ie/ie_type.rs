//! Information Element type codes (3GPP TS 29.244 clause 8.1.2).
use vstd::prelude::*;

verus! {

/// The type of an Information Element. `Unknown` stands for every code
/// that this crate does not name; it is written on the wire as code 0.
#[derive(Debug, Clone, Copy, PartialEq, Eq, Hash, Structural)]
pub enum IeType {
    Unknown,
    CreatePdr,
    Pdi,
    CreateFar,
    ForwardingParameters,
    DuplicatingParameters,
    CreateUrr,
    CreateQer,
    CreatedPdr,
    UpdatePdr,
    UpdateFar,
    UpdateForwardingParameters,
    UpdateBarWithinSessionReportResponse,
    UpdateUrr,
    UpdateQer,
    RemovePdr,
    RemoveFar,
    RemoveUrr,
    RemoveQer,
    Cause,
    SourceInterface,
    Fteid,
    NetworkInstance,
    SdfFilter,
    ApplicationId,
    GateStatus,
    Mbr,
    Gbr,
    QerCorrelationId,
    Precedence,
    TransportLevelMarking,
    VolumeThreshold,
    TimeThreshold,
    MonitoringTime,
    ReportingTriggers,
    RedirectInformation,
    ReportType,
    OffendingIe,
    ForwardingPolicy,
    DestinationInterface,
    UpFunctionFeatures,
    ApplyAction,
    DownlinkDataServiceInformation,
    DownlinkDataNotificationDelay,
    DlBufferingDuration,
    DlBufferingSuggestedPacketCount,
    PfcpsmReqFlags,
    PfcpsrRspFlags,
    LoadControlInformation,
    SequenceNumber,
    Metric,
    OverloadControlInformation,
    Timer,
    PdrId,
    Fseid,
    ApplicationIdsPfds,
    PfdContext,
    NodeId,
    PfdContents,
    MeasurementMethod,
    UsageReportTrigger,
    MeasurementPeriod,
    FqCsid,
    VolumeMeasurement,
    DurationMeasurement,
    ApplicationDetectionInformation,
    TimeOfFirstPacket,
    TimeOfLastPacket,
    QuotaHoldingTime,
    DroppedDlTrafficThreshold,
    VolumeQuota,
    TimeQuota,
    StartTime,
    EndTime,
    QueryUrr,
    UsageReportWithinSessionModificationResponse,
    UsageReportWithinSessionDeletionResponse,
    UsageReportWithinSessionReportRequest,
    UrrId,
    LinkedUrrId,
    DownlinkDataReport,
    OuterHeaderCreation,
    CreateBar,
    UpdateBar,
    RemoveBar,
    BarId,
    CpFunctionFeatures,
    UsageInformation,
    ApplicationInstanceId,
    FlowInformation,
    UeIpAddress,
    PacketRate,
    OuterHeaderRemoval,
    RecoveryTimeStamp,
    DlFlowLevelMarking,
    HeaderEnrichment,
    ErrorIndicationReport,
    MeasurementInformation,
    NodeReportType,
    UserPlanePathFailureReport,
    RemoteGtpuPeer,
    UrSeqn,
    UpdateDuplicatingParameters,
    ActivatePredefinedRules,
    DeactivatePredefinedRules,
    FarId,
    QerId,
    OciFlags,
    PfcpAssociationReleaseRequest,
    GracefulReleasePeriod,
    PdnType,
    FailedRuleId,
    TimeQuotaMechanism,
    UserPlaneIpResourceInformation,
    UserPlaneInactivityTimer,
    AggregatedUrrs,
    Multiplier,
    AggregatedUrrId,
    SubsequentVolumeQuota,
    SubsequentTimeQuota,
    Rqi,
    Qfi,
    QueryUrrReference,
    AdditionalUsageReportsInformation,
    CreateTrafficEndpoint,
    CreatedTrafficEndpoint,
    UpdateTrafficEndpoint,
    RemoveTrafficEndpoint,
    TrafficEndpointId,
    EthernetPacketFilter,
    MacAddress,
    CTag,
    STag,
    Ethertype,
    Proxying,
    EthernetFilterId,
    EthernetFilterProperties,
    SuggestedBufferingPacketsCount,
    UserId,
    EthernetPduSessionInformation,
    EthernetTrafficInformation,
    MacAddressesDetected,
    MacAddressesRemoved,
    EthernetInactivityTimer,
    TraceInformation,
    ApnDnn,
    PfcpsrReqFlags,
    PfcpauReqFlags,
    AlternativeSmfIpAddress,
    SmfSetId,
    PfcpSessionRetentionInformation,
    PfcpasRspFlags,
    UserPlanePathRecoveryReport,
    SourceIpAddress,
    CreatedBridgeInfoForTsc,
    RequestedClockDriftInformation,
    ClockDriftReport,
    AtsssControlParameters,
    UeIpAddressPoolInformation,
    GtpuPathQosControlInformation,
    GtpuPathQosReport,
    PacketRateStatusReport,
    NfInstanceId,
    EthernetContextInformation,
    Snssai,
    PfcpasReqFlags,
    RdsConfigurationInformation,
    UeIpAddressUsageInformation,
    ValidityTimer,
    PartialFailureInformation,
    CreatedL2tpSession,
    GroupId,
    MbsSessionN4mbInformation,
    MbsSessionN4Information,
    PeerUpRestartReport,
    PfcpsdrspFlags,
    VendorSpecificNodeReportType,
    TlContainer,
}

/// The wire code of an IE type.
pub open spec fn ie_type_code(t: IeType) -> u16 {
    match t {
        IeType::Unknown => 0u16,
        IeType::CreatePdr => 1u16,
        IeType::Pdi => 2u16,
        IeType::CreateFar => 3u16,
        IeType::ForwardingParameters => 4u16,
        IeType::DuplicatingParameters => 5u16,
        IeType::CreateUrr => 6u16,
        IeType::CreateQer => 7u16,
        IeType::CreatedPdr => 8u16,
        IeType::UpdatePdr => 9u16,
        IeType::UpdateFar => 10u16,
        IeType::UpdateForwardingParameters => 11u16,
        IeType::UpdateBarWithinSessionReportResponse => 12u16,
        IeType::UpdateUrr => 13u16,
        IeType::UpdateQer => 14u16,
        IeType::RemovePdr => 15u16,
        IeType::RemoveFar => 16u16,
        IeType::RemoveUrr => 17u16,
        IeType::RemoveQer => 18u16,
        IeType::Cause => 19u16,
        IeType::SourceInterface => 20u16,
        IeType::Fteid => 21u16,
        IeType::NetworkInstance => 22u16,
        IeType::SdfFilter => 23u16,
        IeType::ApplicationId => 24u16,
        IeType::GateStatus => 25u16,
        IeType::Mbr => 26u16,
        IeType::Gbr => 27u16,
        IeType::QerCorrelationId => 28u16,
        IeType::Precedence => 29u16,
        IeType::TransportLevelMarking => 30u16,
        IeType::VolumeThreshold => 31u16,
        IeType::TimeThreshold => 32u16,
        IeType::MonitoringTime => 33u16,
        IeType::ReportingTriggers => 37u16,
        IeType::RedirectInformation => 38u16,
        IeType::ReportType => 39u16,
        IeType::OffendingIe => 40u16,
        IeType::ForwardingPolicy => 41u16,
        IeType::DestinationInterface => 42u16,
        IeType::UpFunctionFeatures => 43u16,
        IeType::ApplyAction => 44u16,
        IeType::DownlinkDataServiceInformation => 45u16,
        IeType::DownlinkDataNotificationDelay => 46u16,
        IeType::DlBufferingDuration => 47u16,
        IeType::DlBufferingSuggestedPacketCount => 48u16,
        IeType::PfcpsmReqFlags => 49u16,
        IeType::PfcpsrRspFlags => 50u16,
        IeType::LoadControlInformation => 51u16,
        IeType::SequenceNumber => 52u16,
        IeType::Metric => 53u16,
        IeType::OverloadControlInformation => 54u16,
        IeType::Timer => 55u16,
        IeType::PdrId => 56u16,
        IeType::Fseid => 57u16,
        IeType::ApplicationIdsPfds => 58u16,
        IeType::PfdContext => 59u16,
        IeType::NodeId => 60u16,
        IeType::PfdContents => 61u16,
        IeType::MeasurementMethod => 62u16,
        IeType::UsageReportTrigger => 63u16,
        IeType::MeasurementPeriod => 64u16,
        IeType::FqCsid => 65u16,
        IeType::VolumeMeasurement => 66u16,
        IeType::DurationMeasurement => 67u16,
        IeType::ApplicationDetectionInformation => 68u16,
        IeType::TimeOfFirstPacket => 69u16,
        IeType::TimeOfLastPacket => 70u16,
        IeType::QuotaHoldingTime => 71u16,
        IeType::DroppedDlTrafficThreshold => 72u16,
        IeType::VolumeQuota => 73u16,
        IeType::TimeQuota => 74u16,
        IeType::StartTime => 75u16,
        IeType::EndTime => 76u16,
        IeType::QueryUrr => 77u16,
        IeType::UsageReportWithinSessionModificationResponse => 78u16,
        IeType::UsageReportWithinSessionDeletionResponse => 79u16,
        IeType::UsageReportWithinSessionReportRequest => 80u16,
        IeType::UrrId => 81u16,
        IeType::LinkedUrrId => 82u16,
        IeType::DownlinkDataReport => 83u16,
        IeType::OuterHeaderCreation => 84u16,
        IeType::CreateBar => 85u16,
        IeType::UpdateBar => 86u16,
        IeType::RemoveBar => 87u16,
        IeType::BarId => 88u16,
        IeType::CpFunctionFeatures => 89u16,
        IeType::UsageInformation => 90u16,
        IeType::ApplicationInstanceId => 91u16,
        IeType::FlowInformation => 92u16,
        IeType::UeIpAddress => 93u16,
        IeType::PacketRate => 94u16,
        IeType::OuterHeaderRemoval => 95u16,
        IeType::RecoveryTimeStamp => 96u16,
        IeType::DlFlowLevelMarking => 97u16,
        IeType::HeaderEnrichment => 98u16,
        IeType::ErrorIndicationReport => 99u16,
        IeType::MeasurementInformation => 100u16,
        IeType::NodeReportType => 101u16,
        IeType::UserPlanePathFailureReport => 102u16,
        IeType::RemoteGtpuPeer => 103u16,
        IeType::UrSeqn => 104u16,
        IeType::UpdateDuplicatingParameters => 105u16,
        IeType::ActivatePredefinedRules => 106u16,
        IeType::DeactivatePredefinedRules => 107u16,
        IeType::FarId => 108u16,
        IeType::QerId => 109u16,
        IeType::OciFlags => 110u16,
        IeType::PfcpAssociationReleaseRequest => 111u16,
        IeType::GracefulReleasePeriod => 112u16,
        IeType::PdnType => 113u16,
        IeType::FailedRuleId => 114u16,
        IeType::TimeQuotaMechanism => 115u16,
        IeType::UserPlaneIpResourceInformation => 116u16,
        IeType::UserPlaneInactivityTimer => 117u16,
        IeType::AggregatedUrrs => 118u16,
        IeType::Multiplier => 119u16,
        IeType::AggregatedUrrId => 120u16,
        IeType::SubsequentVolumeQuota => 121u16,
        IeType::SubsequentTimeQuota => 122u16,
        IeType::Rqi => 123u16,
        IeType::Qfi => 124u16,
        IeType::QueryUrrReference => 125u16,
        IeType::AdditionalUsageReportsInformation => 126u16,
        IeType::CreateTrafficEndpoint => 127u16,
        IeType::CreatedTrafficEndpoint => 128u16,
        IeType::UpdateTrafficEndpoint => 129u16,
        IeType::RemoveTrafficEndpoint => 130u16,
        IeType::TrafficEndpointId => 131u16,
        IeType::EthernetPacketFilter => 132u16,
        IeType::MacAddress => 133u16,
        IeType::CTag => 134u16,
        IeType::STag => 135u16,
        IeType::Ethertype => 136u16,
        IeType::Proxying => 137u16,
        IeType::EthernetFilterId => 138u16,
        IeType::EthernetFilterProperties => 139u16,
        IeType::SuggestedBufferingPacketsCount => 140u16,
        IeType::UserId => 141u16,
        IeType::EthernetPduSessionInformation => 142u16,
        IeType::EthernetTrafficInformation => 143u16,
        IeType::MacAddressesDetected => 144u16,
        IeType::MacAddressesRemoved => 145u16,
        IeType::EthernetInactivityTimer => 146u16,
        IeType::TraceInformation => 152u16,
        IeType::ApnDnn => 159u16,
        IeType::PfcpsrReqFlags => 161u16,
        IeType::PfcpauReqFlags => 162u16,
        IeType::AlternativeSmfIpAddress => 178u16,
        IeType::SmfSetId => 180u16,
        IeType::PfcpSessionRetentionInformation => 183u16,
        IeType::PfcpasRspFlags => 184u16,
        IeType::UserPlanePathRecoveryReport => 187u16,
        IeType::SourceIpAddress => 192u16,
        IeType::CreatedBridgeInfoForTsc => 195u16,
        IeType::RequestedClockDriftInformation => 204u16,
        IeType::ClockDriftReport => 206u16,
        IeType::AtsssControlParameters => 221u16,
        IeType::UeIpAddressPoolInformation => 233u16,
        IeType::GtpuPathQosControlInformation => 238u16,
        IeType::GtpuPathQosReport => 239u16,
        IeType::PacketRateStatusReport => 252u16,
        IeType::NfInstanceId => 253u16,
        IeType::EthernetContextInformation => 254u16,
        IeType::Snssai => 257u16,
        IeType::PfcpasReqFlags => 259u16,
        IeType::RdsConfigurationInformation => 262u16,
        IeType::UeIpAddressUsageInformation => 267u16,
        IeType::ValidityTimer => 269u16,
        IeType::PartialFailureInformation => 272u16,
        IeType::CreatedL2tpSession => 279u16,
        IeType::GroupId => 291u16,
        IeType::MbsSessionN4mbInformation => 303u16,
        IeType::MbsSessionN4Information => 311u16,
        IeType::PeerUpRestartReport => 315u16,
        IeType::PfcpsdrspFlags => 318u16,
        IeType::VendorSpecificNodeReportType => 320u16,
        IeType::TlContainer => 336u16,
    }
}

/// The IE type that a wire code denotes.
pub open spec fn ie_type_of_code(c: u16) -> IeType {
    match c {
        1u16 => IeType::CreatePdr,
        2u16 => IeType::Pdi,
        3u16 => IeType::CreateFar,
        4u16 => IeType::ForwardingParameters,
        5u16 => IeType::DuplicatingParameters,
        6u16 => IeType::CreateUrr,
        7u16 => IeType::CreateQer,
        8u16 => IeType::CreatedPdr,
        9u16 => IeType::UpdatePdr,
        10u16 => IeType::UpdateFar,
        11u16 => IeType::UpdateForwardingParameters,
        12u16 => IeType::UpdateBarWithinSessionReportResponse,
        13u16 => IeType::UpdateUrr,
        14u16 => IeType::UpdateQer,
        15u16 => IeType::RemovePdr,
        16u16 => IeType::RemoveFar,
        17u16 => IeType::RemoveUrr,
        18u16 => IeType::RemoveQer,
        19u16 => IeType::Cause,
        20u16 => IeType::SourceInterface,
        21u16 => IeType::Fteid,
        22u16 => IeType::NetworkInstance,
        23u16 => IeType::SdfFilter,
        24u16 => IeType::ApplicationId,
        25u16 => IeType::GateStatus,
        26u16 => IeType::Mbr,
        27u16 => IeType::Gbr,
        28u16 => IeType::QerCorrelationId,
        29u16 => IeType::Precedence,
        30u16 => IeType::TransportLevelMarking,
        31u16 => IeType::VolumeThreshold,
        32u16 => IeType::TimeThreshold,
        33u16 => IeType::MonitoringTime,
        37u16 => IeType::ReportingTriggers,
        38u16 => IeType::RedirectInformation,
        39u16 => IeType::ReportType,
        40u16 => IeType::OffendingIe,
        41u16 => IeType::ForwardingPolicy,
        42u16 => IeType::DestinationInterface,
        43u16 => IeType::UpFunctionFeatures,
        44u16 => IeType::ApplyAction,
        45u16 => IeType::DownlinkDataServiceInformation,
        46u16 => IeType::DownlinkDataNotificationDelay,
        47u16 => IeType::DlBufferingDuration,
        48u16 => IeType::DlBufferingSuggestedPacketCount,
        49u16 => IeType::PfcpsmReqFlags,
        50u16 => IeType::PfcpsrRspFlags,
        51u16 => IeType::LoadControlInformation,
        52u16 => IeType::SequenceNumber,
        53u16 => IeType::Metric,
        54u16 => IeType::OverloadControlInformation,
        55u16 => IeType::Timer,
        56u16 => IeType::PdrId,
        57u16 => IeType::Fseid,
        58u16 => IeType::ApplicationIdsPfds,
        59u16 => IeType::PfdContext,
        60u16 => IeType::NodeId,
        61u16 => IeType::PfdContents,
        62u16 => IeType::MeasurementMethod,
        63u16 => IeType::UsageReportTrigger,
        64u16 => IeType::MeasurementPeriod,
        65u16 => IeType::FqCsid,
        66u16 => IeType::VolumeMeasurement,
        67u16 => IeType::DurationMeasurement,
        68u16 => IeType::ApplicationDetectionInformation,
        69u16 => IeType::TimeOfFirstPacket,
        70u16 => IeType::TimeOfLastPacket,
        71u16 => IeType::QuotaHoldingTime,
        72u16 => IeType::DroppedDlTrafficThreshold,
        73u16 => IeType::VolumeQuota,
        74u16 => IeType::TimeQuota,
        75u16 => IeType::StartTime,
        76u16 => IeType::EndTime,
        77u16 => IeType::QueryUrr,
        78u16 => IeType::UsageReportWithinSessionModificationResponse,
        79u16 => IeType::UsageReportWithinSessionDeletionResponse,
        80u16 => IeType::UsageReportWithinSessionReportRequest,
        81u16 => IeType::UrrId,
        82u16 => IeType::LinkedUrrId,
        83u16 => IeType::DownlinkDataReport,
        84u16 => IeType::OuterHeaderCreation,
        85u16 => IeType::CreateBar,
        86u16 => IeType::UpdateBar,
        87u16 => IeType::RemoveBar,
        88u16 => IeType::BarId,
        89u16 => IeType::CpFunctionFeatures,
        90u16 => IeType::UsageInformation,
        91u16 => IeType::ApplicationInstanceId,
        92u16 => IeType::FlowInformation,
        93u16 => IeType::UeIpAddress,
        94u16 => IeType::PacketRate,
        95u16 => IeType::OuterHeaderRemoval,
        96u16 => IeType::RecoveryTimeStamp,
        97u16 => IeType::DlFlowLevelMarking,
        98u16 => IeType::HeaderEnrichment,
        99u16 => IeType::ErrorIndicationReport,
        100u16 => IeType::MeasurementInformation,
        101u16 => IeType::NodeReportType,
        102u16 => IeType::UserPlanePathFailureReport,
        103u16 => IeType::RemoteGtpuPeer,
        104u16 => IeType::UrSeqn,
        105u16 => IeType::UpdateDuplicatingParameters,
        106u16 => IeType::ActivatePredefinedRules,
        107u16 => IeType::DeactivatePredefinedRules,
        108u16 => IeType::FarId,
        109u16 => IeType::QerId,
        110u16 => IeType::OciFlags,
        111u16 => IeType::PfcpAssociationReleaseRequest,
        112u16 => IeType::GracefulReleasePeriod,
        113u16 => IeType::PdnType,
        114u16 => IeType::FailedRuleId,
        115u16 => IeType::TimeQuotaMechanism,
        116u16 => IeType::UserPlaneIpResourceInformation,
        117u16 => IeType::UserPlaneInactivityTimer,
        118u16 => IeType::AggregatedUrrs,
        119u16 => IeType::Multiplier,
        120u16 => IeType::AggregatedUrrId,
        121u16 => IeType::SubsequentVolumeQuota,
        122u16 => IeType::SubsequentTimeQuota,
        123u16 => IeType::Rqi,
        124u16 => IeType::Qfi,
        125u16 => IeType::QueryUrrReference,
        126u16 => IeType::AdditionalUsageReportsInformation,
        127u16 => IeType::CreateTrafficEndpoint,
        128u16 => IeType::CreatedTrafficEndpoint,
        129u16 => IeType::UpdateTrafficEndpoint,
        130u16 => IeType::RemoveTrafficEndpoint,
        131u16 => IeType::TrafficEndpointId,
        132u16 => IeType::EthernetPacketFilter,
        133u16 => IeType::MacAddress,
        134u16 => IeType::CTag,
        135u16 => IeType::STag,
        136u16 => IeType::Ethertype,
        137u16 => IeType::Proxying,
        138u16 => IeType::EthernetFilterId,
        139u16 => IeType::EthernetFilterProperties,
        140u16 => IeType::SuggestedBufferingPacketsCount,
        141u16 => IeType::UserId,
        142u16 => IeType::EthernetPduSessionInformation,
        143u16 => IeType::EthernetTrafficInformation,
        144u16 => IeType::MacAddressesDetected,
        145u16 => IeType::MacAddressesRemoved,
        146u16 => IeType::EthernetInactivityTimer,
        152u16 => IeType::TraceInformation,
        159u16 => IeType::ApnDnn,
        161u16 => IeType::PfcpsrReqFlags,
        162u16 => IeType::PfcpauReqFlags,
        178u16 => IeType::AlternativeSmfIpAddress,
        180u16 => IeType::SmfSetId,
        183u16 => IeType::PfcpSessionRetentionInformation,
        184u16 => IeType::PfcpasRspFlags,
        187u16 => IeType::UserPlanePathRecoveryReport,
        192u16 => IeType::SourceIpAddress,
        195u16 => IeType::CreatedBridgeInfoForTsc,
        204u16 => IeType::RequestedClockDriftInformation,
        206u16 => IeType::ClockDriftReport,
        221u16 => IeType::AtsssControlParameters,
        233u16 => IeType::UeIpAddressPoolInformation,
        238u16 => IeType::GtpuPathQosControlInformation,
        239u16 => IeType::GtpuPathQosReport,
        252u16 => IeType::PacketRateStatusReport,
        253u16 => IeType::NfInstanceId,
        254u16 => IeType::EthernetContextInformation,
        257u16 => IeType::Snssai,
        259u16 => IeType::PfcpasReqFlags,
        262u16 => IeType::RdsConfigurationInformation,
        267u16 => IeType::UeIpAddressUsageInformation,
        269u16 => IeType::ValidityTimer,
        272u16 => IeType::PartialFailureInformation,
        279u16 => IeType::CreatedL2tpSession,
        291u16 => IeType::GroupId,
        303u16 => IeType::MbsSessionN4mbInformation,
        311u16 => IeType::MbsSessionN4Information,
        315u16 => IeType::PeerUpRestartReport,
        318u16 => IeType::PfcpsdrspFlags,
        320u16 => IeType::VendorSpecificNodeReportType,
        336u16 => IeType::TlContainer,
        _ => IeType::Unknown,
    }
}

impl IeType {
    /// The wire code of this IE type.
    pub fn code(&self) -> (r: u16)
        ensures
            r == ie_type_code(*self),
    {
        match self {
            IeType::Unknown => 0,
            IeType::CreatePdr => 1,
            IeType::Pdi => 2,
            IeType::CreateFar => 3,
            IeType::ForwardingParameters => 4,
            IeType::DuplicatingParameters => 5,
            IeType::CreateUrr => 6,
            IeType::CreateQer => 7,
            IeType::CreatedPdr => 8,
            IeType::UpdatePdr => 9,
            IeType::UpdateFar => 10,
            IeType::UpdateForwardingParameters => 11,
            IeType::UpdateBarWithinSessionReportResponse => 12,
            IeType::UpdateUrr => 13,
            IeType::UpdateQer => 14,
            IeType::RemovePdr => 15,
            IeType::RemoveFar => 16,
            IeType::RemoveUrr => 17,
            IeType::RemoveQer => 18,
            IeType::Cause => 19,
            IeType::SourceInterface => 20,
            IeType::Fteid => 21,
            IeType::NetworkInstance => 22,
            IeType::SdfFilter => 23,
            IeType::ApplicationId => 24,
            IeType::GateStatus => 25,
            IeType::Mbr => 26,
            IeType::Gbr => 27,
            IeType::QerCorrelationId => 28,
            IeType::Precedence => 29,
            IeType::TransportLevelMarking => 30,
            IeType::VolumeThreshold => 31,
            IeType::TimeThreshold => 32,
            IeType::MonitoringTime => 33,
            IeType::ReportingTriggers => 37,
            IeType::RedirectInformation => 38,
            IeType::ReportType => 39,
            IeType::OffendingIe => 40,
            IeType::ForwardingPolicy => 41,
            IeType::DestinationInterface => 42,
            IeType::UpFunctionFeatures => 43,
            IeType::ApplyAction => 44,
            IeType::DownlinkDataServiceInformation => 45,
            IeType::DownlinkDataNotificationDelay => 46,
            IeType::DlBufferingDuration => 47,
            IeType::DlBufferingSuggestedPacketCount => 48,
            IeType::PfcpsmReqFlags => 49,
            IeType::PfcpsrRspFlags => 50,
            IeType::LoadControlInformation => 51,
            IeType::SequenceNumber => 52,
            IeType::Metric => 53,
            IeType::OverloadControlInformation => 54,
            IeType::Timer => 55,
            IeType::PdrId => 56,
            IeType::Fseid => 57,
            IeType::ApplicationIdsPfds => 58,
            IeType::PfdContext => 59,
            IeType::NodeId => 60,
            IeType::PfdContents => 61,
            IeType::MeasurementMethod => 62,
            IeType::UsageReportTrigger => 63,
            IeType::MeasurementPeriod => 64,
            IeType::FqCsid => 65,
            IeType::VolumeMeasurement => 66,
            IeType::DurationMeasurement => 67,
            IeType::ApplicationDetectionInformation => 68,
            IeType::TimeOfFirstPacket => 69,
            IeType::TimeOfLastPacket => 70,
            IeType::QuotaHoldingTime => 71,
            IeType::DroppedDlTrafficThreshold => 72,
            IeType::VolumeQuota => 73,
            IeType::TimeQuota => 74,
            IeType::StartTime => 75,
            IeType::EndTime => 76,
            IeType::QueryUrr => 77,
            IeType::UsageReportWithinSessionModificationResponse => 78,
            IeType::UsageReportWithinSessionDeletionResponse => 79,
            IeType::UsageReportWithinSessionReportRequest => 80,
            IeType::UrrId => 81,
            IeType::LinkedUrrId => 82,
            IeType::DownlinkDataReport => 83,
            IeType::OuterHeaderCreation => 84,
            IeType::CreateBar => 85,
            IeType::UpdateBar => 86,
            IeType::RemoveBar => 87,
            IeType::BarId => 88,
            IeType::CpFunctionFeatures => 89,
            IeType::UsageInformation => 90,
            IeType::ApplicationInstanceId => 91,
            IeType::FlowInformation => 92,
            IeType::UeIpAddress => 93,
            IeType::PacketRate => 94,
            IeType::OuterHeaderRemoval => 95,
            IeType::RecoveryTimeStamp => 96,
            IeType::DlFlowLevelMarking => 97,
            IeType::HeaderEnrichment => 98,
            IeType::ErrorIndicationReport => 99,
            IeType::MeasurementInformation => 100,
            IeType::NodeReportType => 101,
            IeType::UserPlanePathFailureReport => 102,
            IeType::RemoteGtpuPeer => 103,
            IeType::UrSeqn => 104,
            IeType::UpdateDuplicatingParameters => 105,
            IeType::ActivatePredefinedRules => 106,
            IeType::DeactivatePredefinedRules => 107,
            IeType::FarId => 108,
            IeType::QerId => 109,
            IeType::OciFlags => 110,
            IeType::PfcpAssociationReleaseRequest => 111,
            IeType::GracefulReleasePeriod => 112,
            IeType::PdnType => 113,
            IeType::FailedRuleId => 114,
            IeType::TimeQuotaMechanism => 115,
            IeType::UserPlaneIpResourceInformation => 116,
            IeType::UserPlaneInactivityTimer => 117,
            IeType::AggregatedUrrs => 118,
            IeType::Multiplier => 119,
            IeType::AggregatedUrrId => 120,
            IeType::SubsequentVolumeQuota => 121,
            IeType::SubsequentTimeQuota => 122,
            IeType::Rqi => 123,
            IeType::Qfi => 124,
            IeType::QueryUrrReference => 125,
            IeType::AdditionalUsageReportsInformation => 126,
            IeType::CreateTrafficEndpoint => 127,
            IeType::CreatedTrafficEndpoint => 128,
            IeType::UpdateTrafficEndpoint => 129,
            IeType::RemoveTrafficEndpoint => 130,
            IeType::TrafficEndpointId => 131,
            IeType::EthernetPacketFilter => 132,
            IeType::MacAddress => 133,
            IeType::CTag => 134,
            IeType::STag => 135,
            IeType::Ethertype => 136,
            IeType::Proxying => 137,
            IeType::EthernetFilterId => 138,
            IeType::EthernetFilterProperties => 139,
            IeType::SuggestedBufferingPacketsCount => 140,
            IeType::UserId => 141,
            IeType::EthernetPduSessionInformation => 142,
            IeType::EthernetTrafficInformation => 143,
            IeType::MacAddressesDetected => 144,
            IeType::MacAddressesRemoved => 145,
            IeType::EthernetInactivityTimer => 146,
            IeType::TraceInformation => 152,
            IeType::ApnDnn => 159,
            IeType::PfcpsrReqFlags => 161,
            IeType::PfcpauReqFlags => 162,
            IeType::AlternativeSmfIpAddress => 178,
            IeType::SmfSetId => 180,
            IeType::PfcpSessionRetentionInformation => 183,
            IeType::PfcpasRspFlags => 184,
            IeType::UserPlanePathRecoveryReport => 187,
            IeType::SourceIpAddress => 192,
            IeType::CreatedBridgeInfoForTsc => 195,
            IeType::RequestedClockDriftInformation => 204,
            IeType::ClockDriftReport => 206,
            IeType::AtsssControlParameters => 221,
            IeType::UeIpAddressPoolInformation => 233,
            IeType::GtpuPathQosControlInformation => 238,
            IeType::GtpuPathQosReport => 239,
            IeType::PacketRateStatusReport => 252,
            IeType::NfInstanceId => 253,
            IeType::EthernetContextInformation => 254,
            IeType::Snssai => 257,
            IeType::PfcpasReqFlags => 259,
            IeType::RdsConfigurationInformation => 262,
            IeType::UeIpAddressUsageInformation => 267,
            IeType::ValidityTimer => 269,
            IeType::PartialFailureInformation => 272,
            IeType::CreatedL2tpSession => 279,
            IeType::GroupId => 291,
            IeType::MbsSessionN4mbInformation => 303,
            IeType::MbsSessionN4Information => 311,
            IeType::PeerUpRestartReport => 315,
            IeType::PfcpsdrspFlags => 318,
            IeType::VendorSpecificNodeReportType => 320,
            IeType::TlContainer => 336,
        }
    }

    /// The IE type that a wire code denotes (`Unknown` for codes this crate does not name).
    pub fn from_code(c: u16) -> (r: IeType)
        ensures
            r == ie_type_of_code(c),
    {
        match c {
            1 => IeType::CreatePdr,
            2 => IeType::Pdi,
            3 => IeType::CreateFar,
            4 => IeType::ForwardingParameters,
            5 => IeType::DuplicatingParameters,
            6 => IeType::CreateUrr,
            7 => IeType::CreateQer,
            8 => IeType::CreatedPdr,
            9 => IeType::UpdatePdr,
            10 => IeType::UpdateFar,
            11 => IeType::UpdateForwardingParameters,
            12 => IeType::UpdateBarWithinSessionReportResponse,
            13 => IeType::UpdateUrr,
            14 => IeType::UpdateQer,
            15 => IeType::RemovePdr,
            16 => IeType::RemoveFar,
            17 => IeType::RemoveUrr,
            18 => IeType::RemoveQer,
            19 => IeType::Cause,
            20 => IeType::SourceInterface,
            21 => IeType::Fteid,
            22 => IeType::NetworkInstance,
            23 => IeType::SdfFilter,
            24 => IeType::ApplicationId,
            25 => IeType::GateStatus,
            26 => IeType::Mbr,
            27 => IeType::Gbr,
            28 => IeType::QerCorrelationId,
            29 => IeType::Precedence,
            30 => IeType::TransportLevelMarking,
            31 => IeType::VolumeThreshold,
            32 => IeType::TimeThreshold,
            33 => IeType::MonitoringTime,
            37 => IeType::ReportingTriggers,
            38 => IeType::RedirectInformation,
            39 => IeType::ReportType,
            40 => IeType::OffendingIe,
            41 => IeType::ForwardingPolicy,
            42 => IeType::DestinationInterface,
            43 => IeType::UpFunctionFeatures,
            44 => IeType::ApplyAction,
            45 => IeType::DownlinkDataServiceInformation,
            46 => IeType::DownlinkDataNotificationDelay,
            47 => IeType::DlBufferingDuration,
            48 => IeType::DlBufferingSuggestedPacketCount,
            49 => IeType::PfcpsmReqFlags,
            50 => IeType::PfcpsrRspFlags,
            51 => IeType::LoadControlInformation,
            52 => IeType::SequenceNumber,
            53 => IeType::Metric,
            54 => IeType::OverloadControlInformation,
            55 => IeType::Timer,
            56 => IeType::PdrId,
            57 => IeType::Fseid,
            58 => IeType::ApplicationIdsPfds,
            59 => IeType::PfdContext,
            60 => IeType::NodeId,
            61 => IeType::PfdContents,
            62 => IeType::MeasurementMethod,
            63 => IeType::UsageReportTrigger,
            64 => IeType::MeasurementPeriod,
            65 => IeType::FqCsid,
            66 => IeType::VolumeMeasurement,
            67 => IeType::DurationMeasurement,
            68 => IeType::ApplicationDetectionInformation,
            69 => IeType::TimeOfFirstPacket,
            70 => IeType::TimeOfLastPacket,
            71 => IeType::QuotaHoldingTime,
            72 => IeType::DroppedDlTrafficThreshold,
            73 => IeType::VolumeQuota,
            74 => IeType::TimeQuota,
            75 => IeType::StartTime,
            76 => IeType::EndTime,
            77 => IeType::QueryUrr,
            78 => IeType::UsageReportWithinSessionModificationResponse,
            79 => IeType::UsageReportWithinSessionDeletionResponse,
            80 => IeType::UsageReportWithinSessionReportRequest,
            81 => IeType::UrrId,
            82 => IeType::LinkedUrrId,
            83 => IeType::DownlinkDataReport,
            84 => IeType::OuterHeaderCreation,
            85 => IeType::CreateBar,
            86 => IeType::UpdateBar,
            87 => IeType::RemoveBar,
            88 => IeType::BarId,
            89 => IeType::CpFunctionFeatures,
            90 => IeType::UsageInformation,
            91 => IeType::ApplicationInstanceId,
            92 => IeType::FlowInformation,
            93 => IeType::UeIpAddress,
            94 => IeType::PacketRate,
            95 => IeType::OuterHeaderRemoval,
            96 => IeType::RecoveryTimeStamp,
            97 => IeType::DlFlowLevelMarking,
            98 => IeType::HeaderEnrichment,
            99 => IeType::ErrorIndicationReport,
            100 => IeType::MeasurementInformation,
            101 => IeType::NodeReportType,
            102 => IeType::UserPlanePathFailureReport,
            103 => IeType::RemoteGtpuPeer,
            104 => IeType::UrSeqn,
            105 => IeType::UpdateDuplicatingParameters,
            106 => IeType::ActivatePredefinedRules,
            107 => IeType::DeactivatePredefinedRules,
            108 => IeType::FarId,
            109 => IeType::QerId,
            110 => IeType::OciFlags,
            111 => IeType::PfcpAssociationReleaseRequest,
            112 => IeType::GracefulReleasePeriod,
            113 => IeType::PdnType,
            114 => IeType::FailedRuleId,
            115 => IeType::TimeQuotaMechanism,
            116 => IeType::UserPlaneIpResourceInformation,
            117 => IeType::UserPlaneInactivityTimer,
            118 => IeType::AggregatedUrrs,
            119 => IeType::Multiplier,
            120 => IeType::AggregatedUrrId,
            121 => IeType::SubsequentVolumeQuota,
            122 => IeType::SubsequentTimeQuota,
            123 => IeType::Rqi,
            124 => IeType::Qfi,
            125 => IeType::QueryUrrReference,
            126 => IeType::AdditionalUsageReportsInformation,
            127 => IeType::CreateTrafficEndpoint,
            128 => IeType::CreatedTrafficEndpoint,
            129 => IeType::UpdateTrafficEndpoint,
            130 => IeType::RemoveTrafficEndpoint,
            131 => IeType::TrafficEndpointId,
            132 => IeType::EthernetPacketFilter,
            133 => IeType::MacAddress,
            134 => IeType::CTag,
            135 => IeType::STag,
            136 => IeType::Ethertype,
            137 => IeType::Proxying,
            138 => IeType::EthernetFilterId,
            139 => IeType::EthernetFilterProperties,
            140 => IeType::SuggestedBufferingPacketsCount,
            141 => IeType::UserId,
            142 => IeType::EthernetPduSessionInformation,
            143 => IeType::EthernetTrafficInformation,
            144 => IeType::MacAddressesDetected,
            145 => IeType::MacAddressesRemoved,
            146 => IeType::EthernetInactivityTimer,
            152 => IeType::TraceInformation,
            159 => IeType::ApnDnn,
            161 => IeType::PfcpsrReqFlags,
            162 => IeType::PfcpauReqFlags,
            178 => IeType::AlternativeSmfIpAddress,
            180 => IeType::SmfSetId,
            183 => IeType::PfcpSessionRetentionInformation,
            184 => IeType::PfcpasRspFlags,
            187 => IeType::UserPlanePathRecoveryReport,
            192 => IeType::SourceIpAddress,
            195 => IeType::CreatedBridgeInfoForTsc,
            204 => IeType::RequestedClockDriftInformation,
            206 => IeType::ClockDriftReport,
            221 => IeType::AtsssControlParameters,
            233 => IeType::UeIpAddressPoolInformation,
            238 => IeType::GtpuPathQosControlInformation,
            239 => IeType::GtpuPathQosReport,
            252 => IeType::PacketRateStatusReport,
            253 => IeType::NfInstanceId,
            254 => IeType::EthernetContextInformation,
            257 => IeType::Snssai,
            259 => IeType::PfcpasReqFlags,
            262 => IeType::RdsConfigurationInformation,
            267 => IeType::UeIpAddressUsageInformation,
            269 => IeType::ValidityTimer,
            272 => IeType::PartialFailureInformation,
            279 => IeType::CreatedL2tpSession,
            291 => IeType::GroupId,
            303 => IeType::MbsSessionN4mbInformation,
            311 => IeType::MbsSessionN4Information,
            315 => IeType::PeerUpRestartReport,
            318 => IeType::PfcpsdrspFlags,
            320 => IeType::VendorSpecificNodeReportType,
            336 => IeType::TlContainer,
            _ => IeType::Unknown,
        }
    }
}

/// The name of an IE type, as 3GPP TS 29.244 writes it.
pub open spec fn ie_type_name(t: IeType) -> Seq<char> {
    match t {
        IeType::Unknown => "Unknown"@,
        IeType::CreatePdr => "Create PDR"@,
        IeType::Pdi => "PDI"@,
        IeType::CreateFar => "Create FAR"@,
        IeType::ForwardingParameters => "Forwarding Parameters"@,
        IeType::DuplicatingParameters => "Duplicating Parameters"@,
        IeType::CreateUrr => "Create URR"@,
        IeType::CreateQer => "Create QER"@,
        IeType::CreatedPdr => "Created PDR"@,
        IeType::UpdatePdr => "Update PDR"@,
        IeType::UpdateFar => "Update FAR"@,
        IeType::UpdateForwardingParameters => "Update Forwarding Parameters"@,
        IeType::UpdateBarWithinSessionReportResponse => "Update BAR Within Session Report Response"@,
        IeType::UpdateUrr => "Update URR"@,
        IeType::UpdateQer => "Update QER"@,
        IeType::RemovePdr => "Remove PDR"@,
        IeType::RemoveFar => "Remove FAR"@,
        IeType::RemoveUrr => "Remove URR"@,
        IeType::RemoveQer => "Remove QER"@,
        IeType::Cause => "Cause"@,
        IeType::SourceInterface => "Source Interface"@,
        IeType::Fteid => "F-TEID"@,
        IeType::NetworkInstance => "Network Instance"@,
        IeType::SdfFilter => "SDF Filter"@,
        IeType::ApplicationId => "Application ID"@,
        IeType::GateStatus => "Gate Status"@,
        IeType::Mbr => "MBR"@,
        IeType::Gbr => "GBR"@,
        IeType::QerCorrelationId => "QER Correlation ID"@,
        IeType::Precedence => "Precedence"@,
        IeType::TransportLevelMarking => "Transport Level Marking"@,
        IeType::VolumeThreshold => "Volume Threshold"@,
        IeType::TimeThreshold => "Time Threshold"@,
        IeType::MonitoringTime => "Monitoring Time"@,
        IeType::ReportingTriggers => "Reporting Triggers"@,
        IeType::RedirectInformation => "Redirect Information"@,
        IeType::ReportType => "Report Type"@,
        IeType::OffendingIe => "Offending IE"@,
        IeType::ForwardingPolicy => "Forwarding Policy"@,
        IeType::DestinationInterface => "Destination Interface"@,
        IeType::UpFunctionFeatures => "UP Function Features"@,
        IeType::ApplyAction => "Apply Action"@,
        IeType::DownlinkDataServiceInformation => "Downlink Data Service Information"@,
        IeType::DownlinkDataNotificationDelay => "Downlink Data Notification Delay"@,
        IeType::DlBufferingDuration => "DL Buffering Duration"@,
        IeType::DlBufferingSuggestedPacketCount => "DL Buffering Suggested Packet Count"@,
        IeType::PfcpsmReqFlags => "PFCPSMReq-Flags"@,
        IeType::PfcpsrRspFlags => "PFCPSRRsp-Flags"@,
        IeType::LoadControlInformation => "Load Control Information"@,
        IeType::SequenceNumber => "Sequence Number"@,
        IeType::Metric => "Metric"@,
        IeType::OverloadControlInformation => "Overload Control Information"@,
        IeType::Timer => "Timer"@,
        IeType::PdrId => "PDR ID"@,
        IeType::Fseid => "F-SEID"@,
        IeType::ApplicationIdsPfds => "Application Ids PFDs"@,
        IeType::PfdContext => "PFD Context"@,
        IeType::NodeId => "Node ID"@,
        IeType::PfdContents => "PFD Contents"@,
        IeType::MeasurementMethod => "Measurement Method"@,
        IeType::UsageReportTrigger => "Usage Report Trigger"@,
        IeType::MeasurementPeriod => "Measurement Period"@,
        IeType::FqCsid => "FQ-CSID"@,
        IeType::VolumeMeasurement => "Volume Measurement"@,
        IeType::DurationMeasurement => "Duration Measurement"@,
        IeType::ApplicationDetectionInformation => "Application Detection Information"@,
        IeType::TimeOfFirstPacket => "Time Of First Packet"@,
        IeType::TimeOfLastPacket => "Time Of Last Packet"@,
        IeType::QuotaHoldingTime => "Quota Holding Time"@,
        IeType::DroppedDlTrafficThreshold => "Dropped DL Traffic Threshold"@,
        IeType::VolumeQuota => "Volume Quota"@,
        IeType::TimeQuota => "Time Quota"@,
        IeType::StartTime => "Start Time"@,
        IeType::EndTime => "End Time"@,
        IeType::QueryUrr => "Query URR"@,
        IeType::UsageReportWithinSessionModificationResponse => "Usage Report Within Session Modification Response"@,
        IeType::UsageReportWithinSessionDeletionResponse => "Usage Report Within Session Deletion Response"@,
        IeType::UsageReportWithinSessionReportRequest => "Usage Report Within Session Report Request"@,
        IeType::UrrId => "URR ID"@,
        IeType::LinkedUrrId => "Linked URR ID"@,
        IeType::DownlinkDataReport => "Downlink Data Report"@,
        IeType::OuterHeaderCreation => "Outer Header Creation"@,
        IeType::CreateBar => "Create BAR"@,
        IeType::UpdateBar => "Update BAR"@,
        IeType::RemoveBar => "Remove BAR"@,
        IeType::BarId => "BAR ID"@,
        IeType::CpFunctionFeatures => "CP Function Features"@,
        IeType::UsageInformation => "Usage Information"@,
        IeType::ApplicationInstanceId => "Application Instance ID"@,
        IeType::FlowInformation => "Flow Information"@,
        IeType::UeIpAddress => "UE IP Address"@,
        IeType::PacketRate => "Packet Rate"@,
        IeType::OuterHeaderRemoval => "Outer Header Removal"@,
        IeType::RecoveryTimeStamp => "Recovery Time Stamp"@,
        IeType::DlFlowLevelMarking => "DL Flow Level Marking"@,
        IeType::HeaderEnrichment => "Header Enrichment"@,
        IeType::ErrorIndicationReport => "Error Indication Report"@,
        IeType::MeasurementInformation => "Measurement Information"@,
        IeType::NodeReportType => "Node Report Type"@,
        IeType::UserPlanePathFailureReport => "User Plane Path Failure Report"@,
        IeType::RemoteGtpuPeer => "Remote GTP-U Peer"@,
        IeType::UrSeqn => "UR SEQN"@,
        IeType::UpdateDuplicatingParameters => "Update Duplicating Parameters"@,
        IeType::ActivatePredefinedRules => "Activate Predefined Rules"@,
        IeType::DeactivatePredefinedRules => "Deactivate Predefined Rules"@,
        IeType::FarId => "FAR ID"@,
        IeType::QerId => "QER ID"@,
        IeType::OciFlags => "OCI Flags"@,
        IeType::PfcpAssociationReleaseRequest => "PFCP Association Release Request"@,
        IeType::GracefulReleasePeriod => "Graceful Release Period"@,
        IeType::PdnType => "PDN Type"@,
        IeType::FailedRuleId => "Failed Rule ID"@,
        IeType::TimeQuotaMechanism => "Time Quota Mechanism"@,
        IeType::UserPlaneIpResourceInformation => "User Plane IP Resource Information"@,
        IeType::UserPlaneInactivityTimer => "User Plane Inactivity Timer"@,
        IeType::AggregatedUrrs => "Aggregated URRs"@,
        IeType::Multiplier => "Multiplier"@,
        IeType::AggregatedUrrId => "Aggregated URR ID"@,
        IeType::SubsequentVolumeQuota => "Subsequent Volume Quota"@,
        IeType::SubsequentTimeQuota => "Subsequent Time Quota"@,
        IeType::Rqi => "RQI"@,
        IeType::Qfi => "QFI"@,
        IeType::QueryUrrReference => "Query URR Reference"@,
        IeType::AdditionalUsageReportsInformation => "Additional Usage Reports Information"@,
        IeType::CreateTrafficEndpoint => "Create Traffic Endpoint"@,
        IeType::CreatedTrafficEndpoint => "Created Traffic Endpoint"@,
        IeType::UpdateTrafficEndpoint => "Update Traffic Endpoint"@,
        IeType::RemoveTrafficEndpoint => "Remove Traffic Endpoint"@,
        IeType::TrafficEndpointId => "Traffic Endpoint ID"@,
        IeType::EthernetPacketFilter => "Ethernet Packet Filter"@,
        IeType::MacAddress => "MAC Address"@,
        IeType::CTag => "C-TAG"@,
        IeType::STag => "S-TAG"@,
        IeType::Ethertype => "Ethertype"@,
        IeType::Proxying => "Proxying"@,
        IeType::EthernetFilterId => "Ethernet Filter ID"@,
        IeType::EthernetFilterProperties => "Ethernet Filter Properties"@,
        IeType::SuggestedBufferingPacketsCount => "Suggested Buffering Packets Count"@,
        IeType::UserId => "User ID"@,
        IeType::EthernetPduSessionInformation => "Ethernet PDU Session Information"@,
        IeType::EthernetTrafficInformation => "Ethernet Traffic Information"@,
        IeType::MacAddressesDetected => "MAC Addresses Detected"@,
        IeType::MacAddressesRemoved => "MAC Addresses Removed"@,
        IeType::EthernetInactivityTimer => "Ethernet Inactivity Timer"@,
        IeType::TraceInformation => "Trace Information"@,
        IeType::ApnDnn => "APN/DNN"@,
        IeType::PfcpsrReqFlags => "PFCPSRReq-Flags"@,
        IeType::PfcpauReqFlags => "PFCPAUReq-Flags"@,
        IeType::AlternativeSmfIpAddress => "Alternative SMF IP Address"@,
        IeType::SmfSetId => "SMF Set ID"@,
        IeType::PfcpSessionRetentionInformation => "PFCP Session Retention Information"@,
        IeType::PfcpasRspFlags => "PFCPASRsp-Flags"@,
        IeType::UserPlanePathRecoveryReport => "User Plane Path Recovery Report"@,
        IeType::SourceIpAddress => "Source IP Address"@,
        IeType::CreatedBridgeInfoForTsc => "Created Bridge Info For TSC"@,
        IeType::RequestedClockDriftInformation => "Requested Clock Drift Information"@,
        IeType::ClockDriftReport => "Clock Drift Report"@,
        IeType::AtsssControlParameters => "ATSSS Control Parameters"@,
        IeType::UeIpAddressPoolInformation => "UE IP Address Pool Information"@,
        IeType::GtpuPathQosControlInformation => "GTP-U Path QoS Control Information"@,
        IeType::GtpuPathQosReport => "GTP-U Path QoS Report"@,
        IeType::PacketRateStatusReport => "Packet Rate Status Report"@,
        IeType::NfInstanceId => "NF Instance ID"@,
        IeType::EthernetContextInformation => "Ethernet Context Information"@,
        IeType::Snssai => "S-NSSAI"@,
        IeType::PfcpasReqFlags => "PFCPASReq-Flags"@,
        IeType::RdsConfigurationInformation => "RDS Configuration Information"@,
        IeType::UeIpAddressUsageInformation => "UE IP Address Usage Information"@,
        IeType::ValidityTimer => "Validity Timer"@,
        IeType::PartialFailureInformation => "Partial Failure Information"@,
        IeType::CreatedL2tpSession => "Created L2TP Session"@,
        IeType::GroupId => "Group ID"@,
        IeType::MbsSessionN4mbInformation => "MBS Session N4mb Information"@,
        IeType::MbsSessionN4Information => "MBS Session N4 Information"@,
        IeType::PeerUpRestartReport => "Peer UP Restart Report"@,
        IeType::PfcpsdrspFlags => "PFCPSDRsp-Flags"@,
        IeType::VendorSpecificNodeReportType => "Vendor Specific Node Report Type"@,
        IeType::TlContainer => "TL Container"@,
    }
}

impl IeType {
    /// The name of this IE type, as 3GPP TS 29.244 writes it.
    pub fn name(&self) -> (r: &'static str)
        ensures
            r@ == ie_type_name(*self),
    {
        match self {
            IeType::Unknown => "Unknown",
            IeType::CreatePdr => "Create PDR",
            IeType::Pdi => "PDI",
            IeType::CreateFar => "Create FAR",
            IeType::ForwardingParameters => "Forwarding Parameters",
            IeType::DuplicatingParameters => "Duplicating Parameters",
            IeType::CreateUrr => "Create URR",
            IeType::CreateQer => "Create QER",
            IeType::CreatedPdr => "Created PDR",
            IeType::UpdatePdr => "Update PDR",
            IeType::UpdateFar => "Update FAR",
            IeType::UpdateForwardingParameters => "Update Forwarding Parameters",
            IeType::UpdateBarWithinSessionReportResponse => "Update BAR Within Session Report Response",
            IeType::UpdateUrr => "Update URR",
            IeType::UpdateQer => "Update QER",
            IeType::RemovePdr => "Remove PDR",
            IeType::RemoveFar => "Remove FAR",
            IeType::RemoveUrr => "Remove URR",
            IeType::RemoveQer => "Remove QER",
            IeType::Cause => "Cause",
            IeType::SourceInterface => "Source Interface",
            IeType::Fteid => "F-TEID",
            IeType::NetworkInstance => "Network Instance",
            IeType::SdfFilter => "SDF Filter",
            IeType::ApplicationId => "Application ID",
            IeType::GateStatus => "Gate Status",
            IeType::Mbr => "MBR",
            IeType::Gbr => "GBR",
            IeType::QerCorrelationId => "QER Correlation ID",
            IeType::Precedence => "Precedence",
            IeType::TransportLevelMarking => "Transport Level Marking",
            IeType::VolumeThreshold => "Volume Threshold",
            IeType::TimeThreshold => "Time Threshold",
            IeType::MonitoringTime => "Monitoring Time",
            IeType::ReportingTriggers => "Reporting Triggers",
            IeType::RedirectInformation => "Redirect Information",
            IeType::ReportType => "Report Type",
            IeType::OffendingIe => "Offending IE",
            IeType::ForwardingPolicy => "Forwarding Policy",
            IeType::DestinationInterface => "Destination Interface",
            IeType::UpFunctionFeatures => "UP Function Features",
            IeType::ApplyAction => "Apply Action",
            IeType::DownlinkDataServiceInformation => "Downlink Data Service Information",
            IeType::DownlinkDataNotificationDelay => "Downlink Data Notification Delay",
            IeType::DlBufferingDuration => "DL Buffering Duration",
            IeType::DlBufferingSuggestedPacketCount => "DL Buffering Suggested Packet Count",
            IeType::PfcpsmReqFlags => "PFCPSMReq-Flags",
            IeType::PfcpsrRspFlags => "PFCPSRRsp-Flags",
            IeType::LoadControlInformation => "Load Control Information",
            IeType::SequenceNumber => "Sequence Number",
            IeType::Metric => "Metric",
            IeType::OverloadControlInformation => "Overload Control Information",
            IeType::Timer => "Timer",
            IeType::PdrId => "PDR ID",
            IeType::Fseid => "F-SEID",
            IeType::ApplicationIdsPfds => "Application Ids PFDs",
            IeType::PfdContext => "PFD Context",
            IeType::NodeId => "Node ID",
            IeType::PfdContents => "PFD Contents",
            IeType::MeasurementMethod => "Measurement Method",
            IeType::UsageReportTrigger => "Usage Report Trigger",
            IeType::MeasurementPeriod => "Measurement Period",
            IeType::FqCsid => "FQ-CSID",
            IeType::VolumeMeasurement => "Volume Measurement",
            IeType::DurationMeasurement => "Duration Measurement",
            IeType::ApplicationDetectionInformation => "Application Detection Information",
            IeType::TimeOfFirstPacket => "Time Of First Packet",
            IeType::TimeOfLastPacket => "Time Of Last Packet",
            IeType::QuotaHoldingTime => "Quota Holding Time",
            IeType::DroppedDlTrafficThreshold => "Dropped DL Traffic Threshold",
            IeType::VolumeQuota => "Volume Quota",
            IeType::TimeQuota => "Time Quota",
            IeType::StartTime => "Start Time",
            IeType::EndTime => "End Time",
            IeType::QueryUrr => "Query URR",
            IeType::UsageReportWithinSessionModificationResponse => "Usage Report Within Session Modification Response",
            IeType::UsageReportWithinSessionDeletionResponse => "Usage Report Within Session Deletion Response",
            IeType::UsageReportWithinSessionReportRequest => "Usage Report Within Session Report Request",
            IeType::UrrId => "URR ID",
            IeType::LinkedUrrId => "Linked URR ID",
            IeType::DownlinkDataReport => "Downlink Data Report",
            IeType::OuterHeaderCreation => "Outer Header Creation",
            IeType::CreateBar => "Create BAR",
            IeType::UpdateBar => "Update BAR",
            IeType::RemoveBar => "Remove BAR",
            IeType::BarId => "BAR ID",
            IeType::CpFunctionFeatures => "CP Function Features",
            IeType::UsageInformation => "Usage Information",
            IeType::ApplicationInstanceId => "Application Instance ID",
            IeType::FlowInformation => "Flow Information",
            IeType::UeIpAddress => "UE IP Address",
            IeType::PacketRate => "Packet Rate",
            IeType::OuterHeaderRemoval => "Outer Header Removal",
            IeType::RecoveryTimeStamp => "Recovery Time Stamp",
            IeType::DlFlowLevelMarking => "DL Flow Level Marking",
            IeType::HeaderEnrichment => "Header Enrichment",
            IeType::ErrorIndicationReport => "Error Indication Report",
            IeType::MeasurementInformation => "Measurement Information",
            IeType::NodeReportType => "Node Report Type",
            IeType::UserPlanePathFailureReport => "User Plane Path Failure Report",
            IeType::RemoteGtpuPeer => "Remote GTP-U Peer",
            IeType::UrSeqn => "UR SEQN",
            IeType::UpdateDuplicatingParameters => "Update Duplicating Parameters",
            IeType::ActivatePredefinedRules => "Activate Predefined Rules",
            IeType::DeactivatePredefinedRules => "Deactivate Predefined Rules",
            IeType::FarId => "FAR ID",
            IeType::QerId => "QER ID",
            IeType::OciFlags => "OCI Flags",
            IeType::PfcpAssociationReleaseRequest => "PFCP Association Release Request",
            IeType::GracefulReleasePeriod => "Graceful Release Period",
            IeType::PdnType => "PDN Type",
            IeType::FailedRuleId => "Failed Rule ID",
            IeType::TimeQuotaMechanism => "Time Quota Mechanism",
            IeType::UserPlaneIpResourceInformation => "User Plane IP Resource Information",
            IeType::UserPlaneInactivityTimer => "User Plane Inactivity Timer",
            IeType::AggregatedUrrs => "Aggregated URRs",
            IeType::Multiplier => "Multiplier",
            IeType::AggregatedUrrId => "Aggregated URR ID",
            IeType::SubsequentVolumeQuota => "Subsequent Volume Quota",
            IeType::SubsequentTimeQuota => "Subsequent Time Quota",
            IeType::Rqi => "RQI",
            IeType::Qfi => "QFI",
            IeType::QueryUrrReference => "Query URR Reference",
            IeType::AdditionalUsageReportsInformation => "Additional Usage Reports Information",
            IeType::CreateTrafficEndpoint => "Create Traffic Endpoint",
            IeType::CreatedTrafficEndpoint => "Created Traffic Endpoint",
            IeType::UpdateTrafficEndpoint => "Update Traffic Endpoint",
            IeType::RemoveTrafficEndpoint => "Remove Traffic Endpoint",
            IeType::TrafficEndpointId => "Traffic Endpoint ID",
            IeType::EthernetPacketFilter => "Ethernet Packet Filter",
            IeType::MacAddress => "MAC Address",
            IeType::CTag => "C-TAG",
            IeType::STag => "S-TAG",
            IeType::Ethertype => "Ethertype",
            IeType::Proxying => "Proxying",
            IeType::EthernetFilterId => "Ethernet Filter ID",
            IeType::EthernetFilterProperties => "Ethernet Filter Properties",
            IeType::SuggestedBufferingPacketsCount => "Suggested Buffering Packets Count",
            IeType::UserId => "User ID",
            IeType::EthernetPduSessionInformation => "Ethernet PDU Session Information",
            IeType::EthernetTrafficInformation => "Ethernet Traffic Information",
            IeType::MacAddressesDetected => "MAC Addresses Detected",
            IeType::MacAddressesRemoved => "MAC Addresses Removed",
            IeType::EthernetInactivityTimer => "Ethernet Inactivity Timer",
            IeType::TraceInformation => "Trace Information",
            IeType::ApnDnn => "APN/DNN",
            IeType::PfcpsrReqFlags => "PFCPSRReq-Flags",
            IeType::PfcpauReqFlags => "PFCPAUReq-Flags",
            IeType::AlternativeSmfIpAddress => "Alternative SMF IP Address",
            IeType::SmfSetId => "SMF Set ID",
            IeType::PfcpSessionRetentionInformation => "PFCP Session Retention Information",
            IeType::PfcpasRspFlags => "PFCPASRsp-Flags",
            IeType::UserPlanePathRecoveryReport => "User Plane Path Recovery Report",
            IeType::SourceIpAddress => "Source IP Address",
            IeType::CreatedBridgeInfoForTsc => "Created Bridge Info For TSC",
            IeType::RequestedClockDriftInformation => "Requested Clock Drift Information",
            IeType::ClockDriftReport => "Clock Drift Report",
            IeType::AtsssControlParameters => "ATSSS Control Parameters",
            IeType::UeIpAddressPoolInformation => "UE IP Address Pool Information",
            IeType::GtpuPathQosControlInformation => "GTP-U Path QoS Control Information",
            IeType::GtpuPathQosReport => "GTP-U Path QoS Report",
            IeType::PacketRateStatusReport => "Packet Rate Status Report",
            IeType::NfInstanceId => "NF Instance ID",
            IeType::EthernetContextInformation => "Ethernet Context Information",
            IeType::Snssai => "S-NSSAI",
            IeType::PfcpasReqFlags => "PFCPASReq-Flags",
            IeType::RdsConfigurationInformation => "RDS Configuration Information",
            IeType::UeIpAddressUsageInformation => "UE IP Address Usage Information",
            IeType::ValidityTimer => "Validity Timer",
            IeType::PartialFailureInformation => "Partial Failure Information",
            IeType::CreatedL2tpSession => "Created L2TP Session",
            IeType::GroupId => "Group ID",
            IeType::MbsSessionN4mbInformation => "MBS Session N4mb Information",
            IeType::MbsSessionN4Information => "MBS Session N4 Information",
            IeType::PeerUpRestartReport => "Peer UP Restart Report",
            IeType::PfcpsdrspFlags => "PFCPSDRsp-Flags",
            IeType::VendorSpecificNodeReportType => "Vendor Specific Node Report Type",
            IeType::TlContainer => "TL Container",
        }
    }
}

/// Reading back the code of a type gives the type.
pub proof fn lemma_ie_type_code_roundtrip(t: IeType)
    ensures
        ie_type_of_code(ie_type_code(t)) == t,
{
}

/// A code that names a type is the code of that type.
pub proof fn lemma_ie_type_of_code_known(c: u16)
    requires
        ie_type_of_code(c) != IeType::Unknown,
    ensures
        ie_type_code(ie_type_of_code(c)) == c,
{
}

} // verus!
