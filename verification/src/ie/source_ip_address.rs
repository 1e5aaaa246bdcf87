//! The Source IP Address IE (3GPP TS 29.244 clause 8.2.138): the address a
//! node sends from.
//!
//! The payload is a flags octet (bit 3 MPL, bit 2 V4, bit 1 V6), the IPv4
//! address when V4 is set, the IPv6 address when V6 is set, and the mask
//! prefix length octet when MPL is set.
use crate::bytes::push_all;
use crate::error::PfcpError;
use crate::ie::fseid::{flag_v4, flag_v6};
use crate::ie::{Ie, IeType, IeView};
use vstd::prelude::*;

verus! {

/// A source address: IPv4, IPv6 or both, with an optional mask prefix length.
#[derive(Debug, Clone, Copy, PartialEq, Eq)]
pub struct SourceIpAddress {
    pub ipv4: Option<[u8; 4]>,
    pub ipv6: Option<[u8; 16]>,
    pub mask_prefix_length: Option<u8>,
}

/// The value of a source address.
pub struct SourceIpAddressView {
    pub ipv4: Option<Seq<u8>>,
    pub ipv6: Option<Seq<u8>>,
    pub mask_prefix_length: Option<u8>,
}

impl View for SourceIpAddress {
    type V = SourceIpAddressView;

    open spec fn view(&self) -> SourceIpAddressView {
        SourceIpAddressView {
            ipv4: match self.ipv4 {
                Some(a) => Some(a@),
                None => None,
            },
            ipv6: match self.ipv6 {
                Some(a) => Some(a@),
                None => None,
            },
            mask_prefix_length: self.mask_prefix_length,
        }
    }
}

/// The MPL flag of a flags octet.
pub open spec fn flag_mpl(flags: u8) -> bool {
    (flags / 4) % 2 == 1
}

/// The flags octet: 4 for a mask prefix length, 2 for IPv4, 1 for IPv6.
pub open spec fn source_ip_flags(s: SourceIpAddressView) -> u8 {
    ((if s.mask_prefix_length is Some { 4int } else { 0int }) + (if s.ipv4 is Some { 2int } else { 0int })
        + (if s.ipv6 is Some { 1int } else { 0int })) as u8
}

/// The payload of a Source IP Address IE.
pub open spec fn source_ip_bytes(s: SourceIpAddressView) -> Seq<u8> {
    seq![source_ip_flags(s)] + (match s.ipv4 {
        Some(a) => a,
        None => Seq::empty(),
    }) + (match s.ipv6 {
        Some(a) => a,
        None => Seq::empty(),
    }) + (match s.mask_prefix_length {
        Some(m) => seq![m],
        None => Seq::empty(),
    })
}

/// The payload length that a flags octet calls for.
pub open spec fn source_ip_len_for(flags: u8) -> nat {
    1 + (if flag_v4(flags) { 4nat } else { 0nat }) + (if flag_v6(flags) { 16nat } else { 0nat }) + (if flag_mpl(
        flags,
    ) {
        1nat
    } else {
        0nat
    })
}

/// Decoding a Source IP Address payload.
pub open spec fn spec_parse_source_ip_address(b: Seq<u8>) -> Result<SourceIpAddressView, PfcpError> {
    if b.len() < 1 {
        Err(PfcpError::InvalidLength { ie_type: Some(IeType::SourceIpAddress), expected: 1, actual: b.len() as usize })
    } else if b.len() < source_ip_len_for(b[0]) {
        Err(
            PfcpError::InvalidLength {
                ie_type: Some(IeType::SourceIpAddress),
                expected: source_ip_len_for(b[0]) as usize,
                actual: b.len() as usize,
            },
        )
    } else {
        let v4_end: int = if flag_v4(b[0]) { 5 } else { 1 };
        let v6_end: int = if flag_v6(b[0]) { v4_end + 16 } else { v4_end };
        Ok(
            SourceIpAddressView {
                ipv4: if flag_v4(b[0]) { Some(b.subrange(1, 5)) } else { None },
                ipv6: if flag_v6(b[0]) { Some(b.subrange(v4_end, v4_end + 16)) } else { None },
                mask_prefix_length: if flag_mpl(b[0]) { Some(b[v6_end]) } else { None },
            },
        )
    }
}

impl SourceIpAddress {
    /// A source address with the given addresses and no mask prefix length.
    pub fn new(ipv4: Option<[u8; 4]>, ipv6: Option<[u8; 16]>) -> (r: SourceIpAddress)
        ensures
            r == (SourceIpAddress { ipv4, ipv6, mask_prefix_length: None }),
    {
        SourceIpAddress { ipv4, ipv6, mask_prefix_length: None }
    }

    /// The payload of the Source IP Address IE.
    pub fn marshal(&self) -> (r: Vec<u8>)
        ensures
            r@ == source_ip_bytes(self@),
    {
        let mut flags: u8 = 0;
        if self.mask_prefix_length.is_some() {
            flags = flags + 4;
        }
        if self.ipv4.is_some() {
            flags = flags + 2;
        }
        if self.ipv6.is_some() {
            flags = flags + 1;
        }
        let mut v: Vec<u8> = Vec::new();
        v.push(flags);
        let ghost s0 = v@;
        match &self.ipv4 {
            Some(a) => push_all(&mut v, a.as_slice()),
            None => {},
        }
        let ghost s1 = v@;
        match &self.ipv6 {
            Some(a) => push_all(&mut v, a.as_slice()),
            None => {},
        }
        let ghost s2 = v@;
        match self.mask_prefix_length {
            Some(m) => v.push(m),
            None => {},
        }
        proof {
            let s = self@;
            let a4: Seq<u8> = match s.ipv4 {
                Some(a) => a,
                None => Seq::empty(),
            };
            let a6: Seq<u8> = match s.ipv6 {
                Some(a) => a,
                None => Seq::empty(),
            };
            let m: Seq<u8> = match s.mask_prefix_length {
                Some(m) => seq![m],
                None => Seq::empty(),
            };
            assert(s1 =~= s0 + a4);
            assert(s2 =~= s1 + a6);
            assert(v@ =~= s2 + m);
            assert(v@ =~= source_ip_bytes(s));
        }
        v
    }

    /// Decodes a Source IP Address payload.
    pub fn unmarshal(payload: &[u8]) -> (r: Result<SourceIpAddress, PfcpError>)
        ensures
            match spec_parse_source_ip_address(payload@) {
                Ok(v) => r is Ok && r->Ok_0@ == v,
                Err(e) => r == Err::<SourceIpAddress, PfcpError>(e),
            },
    {
        let n = payload.len();
        if n < 1 {
            return Err(PfcpError::InvalidLength { ie_type: Some(IeType::SourceIpAddress), expected: 1, actual: n });
        }
        let flags = payload[0];
        let v4 = (flags / 2) % 2 == 1;
        let v6 = flags % 2 == 1;
        let mpl = (flags / 4) % 2 == 1;
        let need: usize = 1 + (if v4 { 4 } else { 0 }) + (if v6 { 16 } else { 0 }) + (if mpl { 1 } else { 0 });
        if n < need {
            return Err(PfcpError::InvalidLength { ie_type: Some(IeType::SourceIpAddress), expected: need, actual: n });
        }
        let ipv4 = if v4 {
            let a: [u8; 4] = [payload[1], payload[2], payload[3], payload[4]];
            assert(a@ =~= payload@.subrange(1, 5));
            Some(a)
        } else {
            None
        };
        let p: usize = if v4 { 5 } else { 1 };
        let ipv6 = if v6 {
            let a: [u8; 16] = [
                payload[p], payload[p + 1], payload[p + 2], payload[p + 3], payload[p + 4], payload[p + 5],
                payload[p + 6], payload[p + 7], payload[p + 8], payload[p + 9], payload[p + 10], payload[p + 11],
                payload[p + 12], payload[p + 13], payload[p + 14], payload[p + 15],
            ];
            assert(a@ =~= payload@.subrange(p as int, p + 16));
            Some(a)
        } else {
            None
        };
        let q: usize = if v6 { p + 16 } else { p };
        let mask_prefix_length = if mpl { Some(payload[q]) } else { None };
        Ok(SourceIpAddress { ipv4, ipv6, mask_prefix_length })
    }

    /// The Source IP Address IE carrying this value.
    pub fn to_ie(&self) -> (r: Ie)
        ensures
            r@ == (IeView { ie_type: IeType::SourceIpAddress, payload: source_ip_bytes(self@) }),
    {
        Ie::new(IeType::SourceIpAddress, self.marshal())
    }
}

/// Every source address whose addresses have their proper lengths reads back as itself.
pub proof fn lemma_source_ip_address_roundtrip(s: SourceIpAddressView)
    requires
        s.ipv4 matches Some(a) ==> a.len() == 4,
        s.ipv6 matches Some(a) ==> a.len() == 16,
    ensures
        spec_parse_source_ip_address(source_ip_bytes(s)) == Ok::<SourceIpAddressView, PfcpError>(s),
{
    let b = source_ip_bytes(s);
    let f = source_ip_flags(s);
    assert(b[0] == f);
    assert(flag_v4(f) == s.ipv4 is Some);
    assert(flag_v6(f) == s.ipv6 is Some);
    assert(flag_mpl(f) == s.mask_prefix_length is Some);
    let v4_end: int = if s.ipv4 is Some { 5 } else { 1 };
    let v6_end: int = if s.ipv6 is Some { v4_end + 16 } else { v4_end };
    match s.ipv4 {
        Some(a) => {
            assert(b.subrange(1, 5) =~= a);
        },
        None => {},
    }
    match s.ipv6 {
        Some(a) => {
            assert(b.subrange(v4_end, v4_end + 16) =~= a);
        },
        None => {},
    }
    match s.mask_prefix_length {
        Some(m) => {
            assert(b[v6_end] == m);
        },
        None => {},
    }
    assert(spec_parse_source_ip_address(b) == Ok::<SourceIpAddressView, PfcpError>(s));
}

} // verus!
