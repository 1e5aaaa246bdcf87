//! The Node ID IE (3GPP TS 29.244 clause 8.2.38): one octet of type
//! (0 IPv4, 1 IPv6, 2 FQDN) and the address or the name.
use crate::bytes::push_all;
use crate::error::{InvalidField, PfcpError};
use crate::ie::{Ie, IeType, IeView};
use vstd::prelude::*;
use vstd::utf8::{decode_utf8, encode_utf8, valid_utf8};

verus! {

/// A Node ID: an IPv4 or IPv6 address, or a fully qualified domain name.
#[derive(Debug, Clone, PartialEq, Eq)]
pub enum NodeId {
    IPv4([u8; 4]),
    IPv6([u8; 16]),
    FQDN(String),
}

/// The value of a Node ID.
pub enum NodeIdView {
    IPv4(Seq<u8>),
    IPv6(Seq<u8>),
    FQDN(Seq<char>),
}

impl View for NodeId {
    type V = NodeIdView;

    open spec fn view(&self) -> NodeIdView {
        match self {
            NodeId::IPv4(a) => NodeIdView::IPv4(a@),
            NodeId::IPv6(a) => NodeIdView::IPv6(a@),
            NodeId::FQDN(s) => NodeIdView::FQDN(s@),
        }
    }
}

/// The payload of a Node ID IE: the type octet, then the address octets or
/// the name in UTF-8.
pub open spec fn node_id_bytes(n: NodeIdView) -> Seq<u8> {
    match n {
        NodeIdView::IPv4(a) => seq![0u8] + a,
        NodeIdView::IPv6(a) => seq![1u8] + a,
        NodeIdView::FQDN(s) => seq![2u8] + encode_utf8(s),
    }
}

/// The Node ID IE that names the domain `fqdn`.
pub open spec fn fqdn_node_id_ie(fqdn: Seq<char>) -> IeView {
    IeView { ie_type: IeType::NodeId, payload: node_id_bytes(NodeIdView::FQDN(fqdn)) }
}

/// Decoding a Node ID payload.
pub open spec fn spec_parse_node_id(b: Seq<u8>) -> Result<NodeIdView, PfcpError> {
    if b.len() < 1 {
        Err(PfcpError::InvalidLength { ie_type: Some(IeType::NodeId), expected: 1, actual: b.len() as usize })
    } else if b[0] == 0 {
        if b.len() < 5 {
            Err(PfcpError::InvalidLength { ie_type: Some(IeType::NodeId), expected: 5, actual: b.len() as usize })
        } else {
            Ok(NodeIdView::IPv4(b.subrange(1, 5)))
        }
    } else if b[0] == 1 {
        if b.len() < 17 {
            Err(PfcpError::InvalidLength { ie_type: Some(IeType::NodeId), expected: 17, actual: b.len() as usize })
        } else {
            Ok(NodeIdView::IPv6(b.subrange(1, 17)))
        }
    } else if b[0] == 2 {
        if valid_utf8(b.skip(1)) {
            Ok(NodeIdView::FQDN(decode_utf8(b.skip(1))))
        } else {
            Err(PfcpError::InvalidValue { field: InvalidField::Fqdn })
        }
    } else {
        Err(PfcpError::InvalidValue { field: InvalidField::NodeIdType })
    }
}

/// Decodes `bytes` as UTF-8 (`String::from_utf8`): a string when the bytes are
/// valid UTF-8, whose characters are those the bytes encode.
#[verifier::external_body]
pub(crate) fn string_from_utf8(bytes: &[u8]) -> (r: Option<String>)
    ensures
        r is Some <==> valid_utf8(bytes@),
        r matches Some(s) ==> s@ == decode_utf8(bytes@),
{
    String::from_utf8(bytes.to_vec()).ok()
}

impl NodeId {
    /// A Node ID for an IPv4 address.
    pub fn new_ipv4(octets: [u8; 4]) -> (r: NodeId)
        ensures
            r == NodeId::IPv4(octets),
    {
        NodeId::IPv4(octets)
    }

    /// A Node ID for an IPv6 address.
    pub fn new_ipv6(octets: [u8; 16]) -> (r: NodeId)
        ensures
            r == NodeId::IPv6(octets),
    {
        NodeId::IPv6(octets)
    }

    /// A Node ID for a fully qualified domain name.
    pub fn new_fqdn(fqdn: &str) -> (r: NodeId)
        ensures
            r@ == NodeIdView::FQDN(fqdn@),
    {
        NodeId::FQDN(fqdn.to_owned())
    }

    /// The payload of the Node ID IE.
    pub fn marshal(&self) -> (r: Vec<u8>)
        ensures
            r@ == node_id_bytes(self@),
    {
        let mut v: Vec<u8> = Vec::new();
        match self {
            NodeId::IPv4(a) => {
                v.push(0);
                push_all(&mut v, a.as_slice());
            },
            NodeId::IPv6(a) => {
                v.push(1);
                push_all(&mut v, a.as_slice());
            },
            NodeId::FQDN(s) => {
                v.push(2);
                push_all(&mut v, s.as_str().as_bytes());
            },
        }
        assert(v@ =~= node_id_bytes(self@));
        v
    }

    /// Decodes a Node ID payload.
    pub fn unmarshal(payload: &[u8]) -> (r: Result<NodeId, PfcpError>)
        ensures
            match spec_parse_node_id(payload@) {
                Ok(v) => r is Ok && r->Ok_0@ == v,
                Err(e) => r == Err::<NodeId, PfcpError>(e),
            },
    {
        let n = payload.len();
        if n < 1 {
            return Err(PfcpError::InvalidLength { ie_type: Some(IeType::NodeId), expected: 1, actual: n });
        }
        if payload[0] == 0 {
            if n < 5 {
                return Err(PfcpError::InvalidLength { ie_type: Some(IeType::NodeId), expected: 5, actual: n });
            }
            let a: [u8; 4] = [payload[1], payload[2], payload[3], payload[4]];
            assert(a@ =~= payload@.subrange(1, 5));
            Ok(NodeId::IPv4(a))
        } else if payload[0] == 1 {
            if n < 17 {
                return Err(PfcpError::InvalidLength { ie_type: Some(IeType::NodeId), expected: 17, actual: n });
            }
            let a: [u8; 16] = [
                payload[1], payload[2], payload[3], payload[4], payload[5], payload[6], payload[7], payload[8],
                payload[9], payload[10], payload[11], payload[12], payload[13], payload[14], payload[15], payload[16],
            ];
            assert(a@ =~= payload@.subrange(1, 17));
            Ok(NodeId::IPv6(a))
        } else if payload[0] == 2 {
            let name = vstd::slice::slice_subrange(payload, 1, n);
            assert(name@ =~= payload@.skip(1));
            match string_from_utf8(name) {
                Some(s) => Ok(NodeId::FQDN(s)),
                None => Err(PfcpError::InvalidValue { field: InvalidField::Fqdn }),
            }
        } else {
            Err(PfcpError::InvalidValue { field: InvalidField::NodeIdType })
        }
    }

    /// The Node ID IE carrying this value.
    pub fn to_ie(&self) -> (r: Ie)
        ensures
            r@ == (IeView { ie_type: IeType::NodeId, payload: node_id_bytes(self@) }),
    {
        Ie::new(IeType::NodeId, self.marshal())
    }
}

/// Every Node ID reads back as itself.
pub proof fn lemma_node_id_roundtrip(n: NodeIdView)
    requires
        n matches NodeIdView::IPv4(a) ==> a.len() == 4,
        n matches NodeIdView::IPv6(a) ==> a.len() == 16,
    ensures
        spec_parse_node_id(node_id_bytes(n)) == Ok::<NodeIdView, PfcpError>(n),
{
    let b = node_id_bytes(n);
    match n {
        NodeIdView::IPv4(a) => {
            assert(b.subrange(1, 5) =~= a);
        },
        NodeIdView::IPv6(a) => {
            assert(b.subrange(1, 17) =~= a);
        },
        NodeIdView::FQDN(s) => {
            assert(b.skip(1) =~= encode_utf8(s));
            vstd::utf8::encode_utf8_valid_utf8(s);
            vstd::utf8::encode_utf8_decode_utf8(s);
        },
    }
}

} // verus!
