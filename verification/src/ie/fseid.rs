//! The F-SEID IE (3GPP TS 29.244 clause 8.2.37): a session endpoint
//! identifier and the address of the node that allocated it.
//!
//! The payload is a flags octet (bit 2 V4, bit 1 V6), the 64-bit SEID, then
//! the IPv4 address when V4 is set and the IPv6 address when V6 is set.
use crate::bytes::{be64, be64_value, lemma_be64_roundtrip, push_all, push_be64, read_be64};
use crate::error::PfcpError;
use crate::ie::{Ie, IeType, IeView};
use vstd::prelude::*;

verus! {

/// An F-SEID: a SEID with an IPv4 address, an IPv6 address, or both.
#[derive(Debug, Clone, Copy, PartialEq, Eq)]
pub struct Fseid {
    pub seid: u64,
    pub ipv4_address: Option<[u8; 4]>,
    pub ipv6_address: Option<[u8; 16]>,
}

/// The value of an F-SEID.
pub struct FseidView {
    pub seid: u64,
    pub ipv4_address: Option<Seq<u8>>,
    pub ipv6_address: Option<Seq<u8>>,
}

impl View for Fseid {
    type V = FseidView;

    open spec fn view(&self) -> FseidView {
        FseidView {
            seid: self.seid,
            ipv4_address: match self.ipv4_address {
                Some(a) => Some(a@),
                None => None,
            },
            ipv6_address: match self.ipv6_address {
                Some(a) => Some(a@),
                None => None,
            },
        }
    }
}

/// The flags octet: 2 for an IPv4 address, plus 1 for an IPv6 address.
pub open spec fn fseid_flags(f: FseidView) -> u8 {
    ((if f.ipv4_address is Some { 2int } else { 0int }) + (if f.ipv6_address is Some { 1int } else { 0int })) as u8
}

/// The payload of an F-SEID IE.
pub open spec fn fseid_bytes(f: FseidView) -> Seq<u8> {
    seq![fseid_flags(f)] + be64(f.seid) + (match f.ipv4_address {
        Some(a) => a,
        None => Seq::empty(),
    }) + (match f.ipv6_address {
        Some(a) => a,
        None => Seq::empty(),
    })
}

/// The V4 flag of a flags octet.
pub open spec fn flag_v4(flags: u8) -> bool {
    (flags / 2) % 2 == 1
}

/// The V6 flag of a flags octet.
pub open spec fn flag_v6(flags: u8) -> bool {
    flags % 2 == 1
}

/// The payload length that a flags octet calls for.
pub open spec fn fseid_len_for(flags: u8) -> nat {
    9 + (if flag_v4(flags) { 4nat } else { 0nat }) + (if flag_v6(flags) { 16nat } else { 0nat })
}

/// Decoding an F-SEID payload: the flags say which addresses follow the SEID.
pub open spec fn spec_parse_fseid(b: Seq<u8>) -> Result<FseidView, PfcpError> {
    if b.len() < 9 {
        Err(PfcpError::InvalidLength { ie_type: Some(IeType::Fseid), expected: 9, actual: b.len() as usize })
    } else if b.len() < fseid_len_for(b[0]) {
        Err(
            PfcpError::InvalidLength {
                ie_type: Some(IeType::Fseid),
                expected: fseid_len_for(b[0]) as usize,
                actual: b.len() as usize,
            },
        )
    } else {
        let v4_end: int = if flag_v4(b[0]) { 13 } else { 9 };
        Ok(
            FseidView {
                seid: be64_value(b.subrange(1, 9)),
                ipv4_address: if flag_v4(b[0]) { Some(b.subrange(9, 13)) } else { None },
                ipv6_address: if flag_v6(b[0]) { Some(b.subrange(v4_end, v4_end + 16)) } else { None },
            },
        )
    }
}

impl Fseid {
    /// An F-SEID with the given SEID and addresses.
    pub fn new(seid: u64, ipv4_address: Option<[u8; 4]>, ipv6_address: Option<[u8; 16]>) -> (r: Fseid)
        ensures
            r == (Fseid { seid, ipv4_address, ipv6_address }),
    {
        Fseid { seid, ipv4_address, ipv6_address }
    }

    /// The payload of the F-SEID IE.
    pub fn marshal(&self) -> (r: Vec<u8>)
        ensures
            r@ == fseid_bytes(self@),
    {
        let mut flags: u8 = 0;
        if self.ipv4_address.is_some() {
            flags = flags + 2;
        }
        if self.ipv6_address.is_some() {
            flags = flags + 1;
        }
        let mut v: Vec<u8> = Vec::new();
        v.push(flags);
        push_be64(&mut v, self.seid);
        let ghost after_seid = v@;
        match &self.ipv4_address {
            Some(a) => push_all(&mut v, a.as_slice()),
            None => {},
        }
        let ghost after_v4 = v@;
        match &self.ipv6_address {
            Some(a) => push_all(&mut v, a.as_slice()),
            None => {},
        }
        proof {
            let f = self@;
            let v4: Seq<u8> = match f.ipv4_address {
                Some(a) => a,
                None => Seq::empty(),
            };
            let v6: Seq<u8> = match f.ipv6_address {
                Some(a) => a,
                None => Seq::empty(),
            };
            assert(after_v4 =~= after_seid + v4);
            assert(v@ =~= after_v4 + v6);
            assert(v@ =~= fseid_bytes(f));
        }
        v
    }

    /// Decodes an F-SEID payload.
    pub fn unmarshal(payload: &[u8]) -> (r: Result<Fseid, PfcpError>)
        ensures
            match spec_parse_fseid(payload@) {
                Ok(v) => r is Ok && r->Ok_0@ == v,
                Err(e) => r == Err::<Fseid, PfcpError>(e),
            },
    {
        let n = payload.len();
        if n < 9 {
            return Err(PfcpError::InvalidLength { ie_type: Some(IeType::Fseid), expected: 9, actual: n });
        }
        let flags = payload[0];
        let v4 = (flags / 2) % 2 == 1;
        let v6 = flags % 2 == 1;
        let need: usize = 9 + (if v4 { 4 } else { 0 }) + (if v6 { 16 } else { 0 });
        if n < need {
            return Err(PfcpError::InvalidLength { ie_type: Some(IeType::Fseid), expected: need, actual: n });
        }
        let seid = read_be64(payload, 1);
        let ipv4_address = if v4 {
            let a: [u8; 4] = [payload[9], payload[10], payload[11], payload[12]];
            assert(a@ =~= payload@.subrange(9, 13));
            Some(a)
        } else {
            None
        };
        let p: usize = if v4 { 13 } else { 9 };
        let ipv6_address = if v6 {
            let a: [u8; 16] = [
                payload[p], payload[p + 1], payload[p + 2], payload[p + 3], payload[p + 4], payload[p + 5],
                payload[p + 6], payload[p + 7], payload[p + 8], payload[p + 9], payload[p + 10], payload[p + 11],
                payload[p + 12], payload[p + 13], payload[p + 14], payload[p + 15],
            ];
            assert(a@ =~= payload@.subrange(p as int, p + 16));
            Some(a)
        } else {
            None
        };
        Ok(Fseid { seid, ipv4_address, ipv6_address })
    }

    /// The F-SEID IE carrying this value.
    pub fn to_ie(&self) -> (r: Ie)
        ensures
            r@ == (IeView { ie_type: IeType::Fseid, payload: fseid_bytes(self@) }),
    {
        Ie::new(IeType::Fseid, self.marshal())
    }
}

/// Every F-SEID whose addresses have their proper lengths reads back as itself.
pub proof fn lemma_fseid_roundtrip(f: FseidView)
    requires
        f.ipv4_address matches Some(a) ==> a.len() == 4,
        f.ipv6_address matches Some(a) ==> a.len() == 16,
    ensures
        spec_parse_fseid(fseid_bytes(f)) == Ok::<FseidView, PfcpError>(f),
{
    let b = fseid_bytes(f);
    lemma_be64_roundtrip(f.seid);
    assert(b[0] == fseid_flags(f));
    assert(flag_v4(fseid_flags(f)) == f.ipv4_address is Some);
    assert(flag_v6(fseid_flags(f)) == f.ipv6_address is Some);
    assert(b.subrange(1, 9) =~= be64(f.seid));
    let r = spec_parse_fseid(b);
    match f.ipv4_address {
        Some(a) => {
            assert(b.subrange(9, 13) =~= a);
        },
        None => {},
    }
    match f.ipv6_address {
        Some(a) => {
            let s: int = if f.ipv4_address is Some { 13 } else { 9 };
            assert(b.subrange(s, s + 16) =~= a);
        },
        None => {},
    }
    assert(r == Ok::<FseidView, PfcpError>(f));
}

} // verus!
