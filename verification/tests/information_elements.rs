use rs_pfcp::error::{ErrorKind, InvalidField, PfcpError};
use rs_pfcp::ie::cause::{Cause, CauseValue};
use rs_pfcp::ie::fseid::Fseid;
use rs_pfcp::ie::node_id::NodeId;
use rs_pfcp::ie::node_report_type::NodeReportType;
use rs_pfcp::ie::offending_ie::OffendingIe;
use rs_pfcp::ie::pdn_type::PdnType;
use rs_pfcp::ie::recovery_time_stamp::RecoveryTimeStamp;
use rs_pfcp::ie::source_ip_address::SourceIpAddress;
use rs_pfcp::ie::{parse_ies, Ie, IeType};
use std::time::{Duration, SystemTime};

#[test]
fn ie_wire_form_is_type_length_payload() {
    let ie = Ie::new(IeType::NodeId, vec![0, 10, 0, 0, 1]);
    assert_eq!(ie.marshal(), vec![0, 60, 0, 5, 0, 10, 0, 0, 1]);
    assert_eq!(ie.len(), 9);
    assert!(!ie.is_empty());
    assert_eq!(Ie::unmarshal(&ie.marshal()).unwrap(), ie);
}

#[test]
fn ie_unmarshal_reports_short_input() {
    assert_eq!(
        Ie::unmarshal(&[0, 19, 0]),
        Err(PfcpError::InvalidLength { ie_type: None, expected: 4, actual: 3 })
    );
    assert_eq!(
        Ie::unmarshal(&[0, 19, 0, 2, 1]),
        Err(PfcpError::InvalidLength { ie_type: Some(IeType::Cause), expected: 6, actual: 5 })
    );
}

#[test]
fn ie_unknown_type_code_reads_as_unknown() {
    let ie = Ie::unmarshal(&[0xFF, 0xFE, 0, 1, 7]).unwrap();
    assert_eq!(ie.ie_type, IeType::Unknown);
    assert_eq!(ie.payload, vec![7]);
}

#[test]
fn parse_ies_reads_all_or_reports_first_error() {
    let mut bytes = Ie::new(IeType::Cause, vec![1]).marshal();
    bytes.extend(Ie::new(IeType::PdnType, vec![1]).marshal());
    let ies = parse_ies(&bytes, 0).unwrap();
    assert_eq!(ies.len(), 2);
    assert_eq!(ies[1].ie_type, IeType::PdnType);
    bytes.push(0);
    assert!(parse_ies(&bytes, 0).is_err());
}

#[test]
fn ie_type_codes_and_names() {
    assert_eq!(IeType::NodeId.code(), 60);
    assert_eq!(IeType::from_code(57), IeType::Fseid);
    assert_eq!(IeType::from_code(35), IeType::Unknown);
    assert_eq!(IeType::Fseid.name(), "F-SEID");
    assert_eq!(IeType::CreatePdr.name(), "Create PDR");
    assert_eq!(IeType::FqCsid.name(), "FQ-CSID");
}

#[test]
fn cause_roundtrip_and_unknown_value() {
    let c = Cause::new(CauseValue::RuleCreationModificationFailure);
    assert_eq!(c.marshal(), vec![73]);
    assert_eq!(Cause::unmarshal(&[73]).unwrap(), c);
    assert_eq!(Cause::unmarshal(&[200]).unwrap().value, CauseValue::Unknown);
    assert!(Cause::unmarshal(&[]).is_err());
    assert_eq!(c.to_ie().ie_type, IeType::Cause);
}

#[test]
fn node_id_forms_and_errors() {
    let v4 = NodeId::new_ipv4([192, 168, 1, 1]);
    assert_eq!(v4.marshal(), vec![0, 192, 168, 1, 1]);
    assert_eq!(NodeId::unmarshal(&v4.marshal()).unwrap(), v4);
    let v6 = NodeId::new_ipv6([0x20, 0x01, 0x0d, 0xb8, 0, 0, 0, 0, 0, 0, 0, 0, 0, 0, 0, 1]);
    assert_eq!(NodeId::unmarshal(&v6.marshal()).unwrap(), v6);
    let name = NodeId::new_fqdn("upf.example.org");
    assert_eq!(name.marshal()[0], 2);
    assert_eq!(NodeId::unmarshal(&name.marshal()).unwrap(), name);
    assert_eq!(
        NodeId::unmarshal(&[0, 1, 2]),
        Err(PfcpError::InvalidLength { ie_type: Some(IeType::NodeId), expected: 5, actual: 3 })
    );
    assert_eq!(NodeId::unmarshal(&[7, 1]), Err(PfcpError::InvalidValue { field: InvalidField::NodeIdType }));
    assert_eq!(NodeId::unmarshal(&[2, 0xff, 0xfe]), Err(PfcpError::InvalidValue { field: InvalidField::Fqdn }));
}

#[test]
fn fseid_encodes_flags_seid_and_addresses() {
    let f = Fseid::new(0x0102030405060708, Some([10, 0, 0, 1]), None);
    assert_eq!(f.marshal(), vec![2, 1, 2, 3, 4, 5, 6, 7, 8, 10, 0, 0, 1]);
    assert_eq!(Fseid::unmarshal(&f.marshal()).unwrap(), f);
    let both = Fseid::new(9, Some([1, 2, 3, 4]), Some([0xfe; 16]));
    assert_eq!(both.marshal().len(), 29);
    assert_eq!(Fseid::unmarshal(&both.marshal()).unwrap(), both);
    assert_eq!(
        Fseid::unmarshal(&[2, 0, 0, 0, 0, 0, 0, 0, 1]),
        Err(PfcpError::InvalidLength { ie_type: Some(IeType::Fseid), expected: 13, actual: 9 })
    );
}

#[test]
fn source_ip_address_roundtrip_with_mask() {
    let mut s = SourceIpAddress::new(None, Some([0x20; 16]));
    assert_eq!(s.marshal()[0], 0x01);
    assert_eq!(s.marshal().len(), 17);
    s.mask_prefix_length = Some(64);
    let bytes = s.marshal();
    assert_eq!(bytes[0], 0x05);
    assert_eq!(SourceIpAddress::unmarshal(&bytes).unwrap(), s);
    assert!(SourceIpAddress::unmarshal(&[0x02, 1, 2]).is_err());
}

#[test]
fn offending_ie_and_pdn_type() {
    let o = OffendingIe::new(60);
    assert_eq!(o.marshal(), vec![0, 60]);
    assert_eq!(OffendingIe::unmarshal(&[0, 60]).unwrap(), o);
    assert_eq!(PdnType::unmarshal(&[0xF9]).unwrap(), PdnType::Ipv4);
    assert_eq!(PdnType::Ethernet.marshal(), vec![5]);
    assert_eq!(PdnType::unmarshal(&[6]), Err(PfcpError::InvalidValue { field: InvalidField::PdnType }));
}

#[test]
fn node_report_type_flags() {
    let t = NodeReportType::new(NodeReportType::UPFR | NodeReportType::CKDR | NodeReportType::VSR);
    assert_eq!(t.octet(), 0b0010_0101);
    assert_eq!(NodeReportType::unmarshal(&t.marshal()).unwrap(), t);
    assert_eq!(NodeReportType::unmarshal(&[0xC1]).unwrap(), NodeReportType::new(NodeReportType::UPFR));
}

#[test]
fn recovery_time_stamp_uses_ntp_seconds() {
    let t = RecoveryTimeStamp::new(SystemTime::UNIX_EPOCH + Duration::from_secs(1000));
    assert_eq!(t.unix_seconds(), 1000);
    assert_eq!(t.seconds, 2208989800);
    assert_eq!(t.marshal(), 2208989800u32.to_be_bytes().to_vec());
    assert_eq!(RecoveryTimeStamp::unmarshal(&t.marshal()).unwrap(), t);
    assert_eq!(t.timestamp(), SystemTime::UNIX_EPOCH + Duration::from_secs(1000));
    assert_eq!(RecoveryTimeStamp::new(SystemTime::UNIX_EPOCH).seconds, 2208988800);
    assert_eq!(RecoveryTimeStamp::from_ntp_seconds(0).unix_seconds(), 2085978496);
}

#[test]
fn error_texts_and_kinds() {
    let missing = PfcpError::MissingMandatoryIe { ie_type: IeType::NodeId, message_type: None };
    assert_eq!(missing.to_string(), "Missing mandatory IE Node ID");
    assert_eq!(missing.kind(), ErrorKind::InvalidData);
    let short = PfcpError::InvalidLength { ie_type: Some(IeType::Fseid), expected: 13, actual: 120 };
    assert_eq!(short.to_string(), "Invalid length for F-SEID: expected 13 bytes, got 120");
    let header = PfcpError::MessageParseError { message_type: None, expected: 8, actual: 0 };
    assert_eq!(header.to_string(), "Failed to parse message: expected at least 8 bytes, got 0");
    let value = PfcpError::InvalidValue { field: InvalidField::MessageType };
    assert_eq!(value.to_string(), "Invalid value for PFCP message type");
    assert_eq!(value.kind(), ErrorKind::InvalidInput);
}
