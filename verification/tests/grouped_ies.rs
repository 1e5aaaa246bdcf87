use rs_pfcp::error::{InvalidField, PfcpError};
use rs_pfcp::ie::application_id::ApplicationId;
use rs_pfcp::ie::application_ids_pfds::ApplicationIdsPfds;
use rs_pfcp::ie::created_pdr::CreatedPdr;
use rs_pfcp::ie::fseid::Fseid;
use rs_pfcp::ie::fteid::Fteid;
use rs_pfcp::ie::load_control_information::LoadControlInformation;
use rs_pfcp::ie::node_id::NodeId;
use rs_pfcp::ie::overload_control_information::OverloadControlInformation;
use rs_pfcp::ie::pfd_context::PfdContext;
use rs_pfcp::ie::rds_configuration_information::RdsConfigurationInformation;
use rs_pfcp::ie::{Ie, IeType};
use rs_pfcp::message::header::Header;
use rs_pfcp::message::pfd_management_request::{PfdManagementRequest, PfdManagementRequestBuilder};
use rs_pfcp::message::session_establishment_response::SessionEstablishmentResponseBuilder;
use rs_pfcp::message::{parse, Message, MsgType, ParsedMessage};

fn one_app() -> ApplicationIdsPfds {
    let contents = vec![Ie::new(IeType::PfdContents, vec![0x01, 0x02])];
    ApplicationIdsPfds::new(ApplicationId::new("app"), PfdContext::new(contents))
}

#[test]
fn application_id_is_utf8_text() {
    let a = ApplicationId::new("video.example");
    assert_eq!(a.marshal(), b"video.example".to_vec());
    assert_eq!(ApplicationId::unmarshal(b"video.example").unwrap(), a);
    assert_eq!(
        ApplicationId::unmarshal(&[0xff, 0xfe]),
        Err(PfcpError::InvalidValue { field: InvalidField::ApplicationId })
    );
    let ie = a.to_ie();
    assert_eq!(ie.ie_type, IeType::ApplicationId);
    assert_eq!(ie.payload, b"video.example".to_vec());
}

#[test]
fn pfd_context_groups_its_contents() {
    let ctx = PfdContext::new(vec![Ie::new(IeType::PfdContents, vec![7])]);
    assert_eq!(ctx.marshal(), vec![0, 61, 0, 1, 7]);
    assert_eq!(PfdContext::unmarshal(&ctx.marshal()).unwrap(), ctx);
    assert!(matches!(PfdContext::unmarshal(&[0, 61, 0, 5, 7]), Err(PfcpError::InvalidLength { .. })));
}

#[test]
fn application_ids_pfds_layout_and_roundtrip() {
    let app = one_app();
    let bytes = app.marshal();
    assert_eq!(
        bytes,
        vec![0, 24, 0, 3, b'a', b'p', b'p', 0, 59, 0, 6, 0, 61, 0, 2, 1, 2]
    );
    assert_eq!(ApplicationIdsPfds::unmarshal(&bytes).unwrap(), app);
    assert_eq!(app.to_ie().ie_type, IeType::ApplicationIdsPfds);
}

#[test]
fn application_ids_pfds_needs_an_application_id() {
    let ctx = PfdContext::new(vec![]).to_ie().marshal();
    assert_eq!(
        ApplicationIdsPfds::unmarshal(&ctx),
        Err(PfcpError::MissingMandatoryIe { ie_type: IeType::ApplicationId, message_type: None })
    );
}

#[test]
fn pfd_management_request_roundtrip_through_parse() {
    let msg = PfdManagementRequestBuilder::new(42)
        .node_id(NodeId::new_fqdn("smf.example"))
        .application_ids_pfds_vec(vec![one_app(), one_app()])
        .ie(Ie::new(IeType::Unknown, vec![9]))
        .build();
    let wire = msg.marshal();
    assert_eq!(msg.marshaled_size(), wire.len());
    assert_eq!(msg.header.length as usize, wire.len() - 4);
    assert_eq!(PfdManagementRequest::unmarshal(&wire).unwrap(), msg);
    match parse(&wire).unwrap() {
        ParsedMessage::PfdManagementRequest(m) => assert_eq!(m, msg),
        _ => panic!("wrong message type"),
    }
}

#[test]
fn pfd_management_request_refuses_a_second_node_id() {
    let node = NodeId::new_ipv4([10, 0, 0, 1]).to_ie();
    let mut header = Header::new(MsgType::PfdManagementRequest, false, 0, 3);
    header.length = 4 + 2 * node.len();
    let mut wire = header.marshal();
    node.marshal_into(&mut wire);
    node.marshal_into(&mut wire);
    assert_eq!(
        PfdManagementRequest::unmarshal(&wire),
        Err(PfcpError::DuplicateIe { ie_type: IeType::NodeId, message_type: Some(MsgType::PfdManagementRequest) })
    );
}

#[test]
fn pfd_management_request_gives_only_the_first_ie_of_a_type() {
    let a = Ie::new(IeType::Unknown, vec![1]);
    let b = Ie::new(IeType::Unknown, vec![2]);
    let msg = PfdManagementRequestBuilder::new(1).ies(vec![a.clone(), b]).build();
    assert_eq!(msg.find_all_ies(IeType::Unknown), vec![&a]);
    assert_eq!(msg.all_ies().len(), 2);
    assert!(msg.find_all_ies(IeType::NodeId).is_empty());
}

#[test]
fn pfd_management_request_vec_builder_starts_or_extends() {
    let empty = PfdManagementRequestBuilder::new(1).application_ids_pfds_vec(vec![]).build();
    assert_eq!(empty.application_ids_pfds, Some(vec![]));
    let two = PfdManagementRequestBuilder::new(1)
        .application_ids_pfds(one_app())
        .application_ids_pfds_vec(vec![one_app()])
        .build();
    assert_eq!(two.application_ids_pfds.unwrap().len(), 2);
}

#[test]
fn load_control_information_members() {
    let l = LoadControlInformation::new(0x01020304, 55);
    assert_eq!(l.marshal(), vec![0, 52, 0, 4, 1, 2, 3, 4, 0, 53, 0, 1, 55]);
    assert_eq!(LoadControlInformation::unmarshal(&l.marshal()).unwrap(), l);
    assert_eq!(
        LoadControlInformation::unmarshal(&[0, 53, 0, 1, 55]),
        Err(PfcpError::MissingMandatoryIe { ie_type: IeType::SequenceNumber, message_type: None })
    );
    assert_eq!(
        LoadControlInformation::unmarshal(&[0, 52, 0, 2, 1, 2, 0, 53, 0, 1, 55]),
        Err(PfcpError::InvalidLength { ie_type: Some(IeType::SequenceNumber), expected: 4, actual: 2 })
    );
}

#[test]
fn overload_control_information_members() {
    let o = OverloadControlInformation::new(7, 20, 0x21, Some(1));
    let bytes = o.marshal();
    assert_eq!(bytes.len(), 8 + 5 + 5 + 5);
    assert_eq!(OverloadControlInformation::unmarshal(&bytes).unwrap(), o);
    let without_flags = OverloadControlInformation::new(7, 20, 0x21, None);
    assert_eq!(OverloadControlInformation::unmarshal(&without_flags.marshal()).unwrap(), without_flags);
    assert_eq!(
        OverloadControlInformation::unmarshal(&LoadControlInformation::new(7, 20).marshal()),
        Err(PfcpError::MissingMandatoryIe { ie_type: IeType::Timer, message_type: None })
    );
}

#[test]
fn rds_configuration_information_flag() {
    assert_eq!(RdsConfigurationInformation::new(true).marshal(), vec![1]);
    assert_eq!(RdsConfigurationInformation::unmarshal(&[0xff]).unwrap(), RdsConfigurationInformation::new(true));
    assert_eq!(RdsConfigurationInformation::unmarshal(&[0xfe]).unwrap(), RdsConfigurationInformation::new(false));
    assert!(RdsConfigurationInformation::unmarshal(&[]).is_err());
}

#[test]
fn fteid_layouts() {
    let f = Fteid::new(0x11223344, Some([192, 0, 2, 1]), None);
    assert_eq!(f.marshal(), vec![0x01, 0x11, 0x22, 0x33, 0x44, 192, 0, 2, 1]);
    assert_eq!(Fteid::unmarshal(&f.marshal()).unwrap(), f);
    let c = Fteid::new_choose(true, true, Some(5));
    assert_eq!(c.marshal(), vec![0x0f, 5]);
    assert_eq!(Fteid::unmarshal(&c.marshal()).unwrap(), c);
    assert_eq!(
        Fteid::unmarshal(&[0x03, 0, 0, 0, 1]),
        Err(PfcpError::InvalidLength { ie_type: Some(IeType::Fteid), expected: 25, actual: 5 })
    );
}

#[test]
fn created_pdr_and_typed_accessors() {
    let pdr = CreatedPdr::new(3, Fteid::new(9, Some([10, 0, 0, 9]), None));
    assert_eq!(CreatedPdr::unmarshal(&pdr.marshal()).unwrap(), pdr);
    assert_eq!(
        CreatedPdr::unmarshal(&[0, 56, 0, 2, 0, 1]),
        Err(PfcpError::MissingMandatoryIe { ie_type: IeType::Fteid, message_type: None })
    );
    let msg = SessionEstablishmentResponseBuilder::accepted(1, 2)
        .node_id(NodeId::new_ipv4([10, 0, 0, 1]))
        .fseid(Fseid::new(0x1234, Some([10, 0, 0, 1]), None))
        .created_pdr(pdr.to_ie())
        .created_pdr(Ie::new(IeType::CreatedPdr, vec![0, 56, 0, 2, 0, 1]))
        .load_control_information(LoadControlInformation::new(1, 2).to_ie())
        .rds_configuration_information(RdsConfigurationInformation::new(true).to_ie())
        .build()
        .unwrap();
    let typed = msg.created_pdrs_typed();
    assert_eq!(typed.len(), 2);
    assert_eq!(typed[0], Ok(pdr));
    assert!(typed[1].is_err());
    assert_eq!(msg.load_control_information(), Some(Ok(LoadControlInformation::new(1, 2))));
    assert_eq!(msg.overload_control_information(), None);
    assert_eq!(msg.rds_configuration_information(), Some(Ok(RdsConfigurationInformation::new(true))));
}
