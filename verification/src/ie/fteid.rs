//! The F-TEID IE (3GPP TS 29.244 clause 8.2.3): a GTP-U tunnel endpoint
//! identifier and the address it belongs to, or a request that the user
//! plane choose them.
//!
//! The payload is a flags octet (bit 1 V4, bit 2 V6, bit 3 CH, bit 4 CHID).
//! When CH is not set, the 32-bit TEID follows, then the IPv4 address when V4
//! is set and the IPv6 address when V6 is set; when CH is set, none of these
//! are present. The Choose ID octet ends the payload when CHID is set.
use crate::bytes::{be32, be32_value, lemma_be32_roundtrip, push_all, push_be32, read_be32};
use crate::error::PfcpError;
use crate::ie::{Ie, IeType, IeView};
use vstd::prelude::*;

verus! {

/// An F-TEID.
#[derive(Debug, Clone, Copy, PartialEq, Eq)]
pub struct Fteid {
    /// V4: an IPv4 address is given, or asked for when `ch` is set.
    pub v4: bool,
    /// V6: an IPv6 address is given, or asked for when `ch` is set.
    pub v6: bool,
    /// CH: the user plane is to choose the TEID and address.
    pub ch: bool,
    pub teid: u32,
    pub ipv4_address: Option<[u8; 4]>,
    pub ipv6_address: Option<[u8; 16]>,
    /// The Choose ID, present when CHID is set.
    pub choose_id: Option<u8>,
}

/// The value of an F-TEID.
pub struct FteidView {
    pub v4: bool,
    pub v6: bool,
    pub ch: bool,
    pub teid: u32,
    pub ipv4_address: Option<Seq<u8>>,
    pub ipv6_address: Option<Seq<u8>>,
    pub choose_id: Option<u8>,
}

impl View for Fteid {
    type V = FteidView;

    open spec fn view(&self) -> FteidView {
        FteidView {
            v4: self.v4,
            v6: self.v6,
            ch: self.ch,
            teid: self.teid,
            ipv4_address: match self.ipv4_address {
                Some(a) => Some(a@),
                None => None,
            },
            ipv6_address: match self.ipv6_address {
                Some(a) => Some(a@),
                None => None,
            },
            choose_id: self.choose_id,
        }
    }
}

/// The flags octet of an F-TEID.
pub open spec fn fteid_flags(f: FteidView) -> u8 {
    ((if f.v4 { 1int } else { 0int }) + (if f.v6 { 2int } else { 0int }) + (if f.ch { 4int } else { 0int }) + (
    if f.choose_id is Some {
        8int
    } else {
        0int
    })) as u8
}

/// The bytes of an optional value, none when absent.
pub open spec fn opt_bytes(o: Option<Seq<u8>>) -> Seq<u8> {
    match o {
        Some(a) => a,
        None => Seq::empty(),
    }
}

/// The payload of an F-TEID IE.
pub open spec fn fteid_bytes(f: FteidView) -> Seq<u8> {
    seq![fteid_flags(f)] + (if f.ch {
        Seq::empty()
    } else {
        be32(f.teid) + opt_bytes(f.ipv4_address) + opt_bytes(f.ipv6_address)
    }) + (match f.choose_id {
        Some(c) => seq![c],
        None => Seq::empty(),
    })
}

/// The payload length that a flags octet calls for.
pub open spec fn fteid_len_for(flags: u8) -> nat {
    let v4 = flags % 2 == 1;
    let v6 = (flags / 2) % 2 == 1;
    let ch = (flags / 4) % 2 == 1;
    let chid = (flags / 8) % 2 == 1;
    1 + (if ch {
        0nat
    } else {
        4 + (if v4 { 4nat } else { 0nat }) + (if v6 { 16nat } else { 0nat })
    }) + (if chid { 1nat } else { 0nat })
}

/// Decoding an F-TEID payload: the flags say which fields follow.
pub open spec fn spec_parse_fteid(b: Seq<u8>) -> Result<FteidView, PfcpError> {
    if b.len() < 1 {
        Err(PfcpError::InvalidLength { ie_type: Some(IeType::Fteid), expected: 1, actual: 0 })
    } else if b.len() < fteid_len_for(b[0]) {
        Err(
            PfcpError::InvalidLength {
                ie_type: Some(IeType::Fteid),
                expected: fteid_len_for(b[0]) as usize,
                actual: b.len() as usize,
            },
        )
    } else {
        let v4 = b[0] % 2 == 1;
        let v6 = (b[0] / 2) % 2 == 1;
        let ch = (b[0] / 4) % 2 == 1;
        let chid = (b[0] / 8) % 2 == 1;
        let v6_start: int = if v4 { 9 } else { 5 };
        Ok(
            FteidView {
                v4,
                v6,
                ch,
                teid: if ch { 0 } else { be32_value(b.subrange(1, 5)) },
                ipv4_address: if !ch && v4 { Some(b.subrange(5, 9)) } else { None },
                ipv6_address: if !ch && v6 { Some(b.subrange(v6_start, v6_start + 16)) } else { None },
                choose_id: if chid { Some(b[fteid_len_for(b[0]) - 1]) } else { None },
            },
        )
    }
}

/// An F-TEID that reads back as itself: when CH is set the TEID is zero and
/// no address is given; otherwise the addresses given are those the flags
/// announce, with their proper lengths.
pub open spec fn fteid_wf(f: FteidView) -> bool {
    &&& f.ch ==> f.teid == 0 && f.ipv4_address is None && f.ipv6_address is None
    &&& !f.ch ==> (f.ipv4_address is Some <==> f.v4) && (f.ipv6_address is Some <==> f.v6)
    &&& f.ipv4_address matches Some(a) ==> a.len() == 4
    &&& f.ipv6_address matches Some(a) ==> a.len() == 16
}

impl Fteid {
    /// An F-TEID with the given TEID and addresses.
    pub fn new(teid: u32, ipv4_address: Option<[u8; 4]>, ipv6_address: Option<[u8; 16]>) -> (r: Fteid)
        ensures
            r == (Fteid {
                v4: ipv4_address is Some,
                v6: ipv6_address is Some,
                ch: false,
                teid,
                ipv4_address,
                ipv6_address,
                choose_id: None,
            }),
    {
        Fteid {
            v4: ipv4_address.is_some(),
            v6: ipv6_address.is_some(),
            ch: false,
            teid,
            ipv4_address,
            ipv6_address,
            choose_id: None,
        }
    }

    /// An F-TEID that asks the user plane to choose a TEID and an address of
    /// the given kinds, with an optional Choose ID.
    pub fn new_choose(v4: bool, v6: bool, choose_id: Option<u8>) -> (r: Fteid)
        ensures
            r == (Fteid { v4, v6, ch: true, teid: 0, ipv4_address: None, ipv6_address: None, choose_id }),
    {
        Fteid { v4, v6, ch: true, teid: 0, ipv4_address: None, ipv6_address: None, choose_id }
    }

    /// The payload of the F-TEID IE.
    pub fn marshal(&self) -> (r: Vec<u8>)
        ensures
            r@ == fteid_bytes(self@),
    {
        let ghost f = self@;
        let flags: u8 = (if self.v4 { 1u8 } else { 0u8 }) + (if self.v6 { 2u8 } else { 0u8 }) + (if self.ch {
            4u8
        } else {
            0u8
        }) + (if self.choose_id.is_some() { 8u8 } else { 0u8 });
        let mut v: Vec<u8> = Vec::new();
        v.push(flags);
        let ghost head = v@;
        if !self.ch {
            push_be32(&mut v, self.teid);
            match &self.ipv4_address {
                Some(a) => push_all(&mut v, a.as_slice()),
                None => {},
            }
            let ghost after_v4 = v@;
            match &self.ipv6_address {
                Some(a) => push_all(&mut v, a.as_slice()),
                None => {},
            }
            proof {
                assert(after_v4 =~= head + be32(f.teid) + opt_bytes(f.ipv4_address));
                assert(v@ =~= head + (be32(f.teid) + opt_bytes(f.ipv4_address) + opt_bytes(f.ipv6_address)));
            }
        } else {
            assert(v@ =~= head + Seq::<u8>::empty());
        }
        match self.choose_id {
            Some(c) => v.push(c),
            None => {},
        }
        assert(v@ =~= fteid_bytes(f));
        v
    }

    /// Decodes an F-TEID payload.
    pub fn unmarshal(payload: &[u8]) -> (r: Result<Fteid, PfcpError>)
        ensures
            match spec_parse_fteid(payload@) {
                Ok(v) => r is Ok && r->Ok_0@ == v,
                Err(e) => r == Err::<Fteid, PfcpError>(e),
            },
    {
        let n = payload.len();
        if n < 1 {
            return Err(PfcpError::InvalidLength { ie_type: Some(IeType::Fteid), expected: 1, actual: 0 });
        }
        let flags = payload[0];
        let v4 = flags % 2 == 1;
        let v6 = (flags / 2) % 2 == 1;
        let ch = (flags / 4) % 2 == 1;
        let chid = (flags / 8) % 2 == 1;
        let need: usize = 1 + (if ch {
            0
        } else {
            4 + (if v4 { 4 } else { 0 }) + (if v6 { 16 } else { 0 })
        }) + (if chid { 1 } else { 0 });
        if n < need {
            return Err(PfcpError::InvalidLength { ie_type: Some(IeType::Fteid), expected: need, actual: n });
        }
        let teid = if ch {
            0
        } else {
            read_be32(payload, 1)
        };
        let ipv4_address = if !ch && v4 {
            let a: [u8; 4] = [payload[5], payload[6], payload[7], payload[8]];
            assert(a@ =~= payload@.subrange(5, 9));
            Some(a)
        } else {
            None
        };
        let p: usize = if v4 { 9 } else { 5 };
        let ipv6_address = if !ch && v6 {
            let a: [u8; 16] = [
                payload[p], payload[p + 1], payload[p + 2], payload[p + 3], payload[p + 4], payload[p + 5],
                payload[p + 6], payload[p + 7], payload[p + 8], payload[p + 9], payload[p + 10], payload[p + 11],
                payload[p + 12], payload[p + 13], payload[p + 14], payload[p + 15],
            ];
            assert(a@ =~= payload@.subrange(p as int, p + 16));
            Some(a)
        } else {
            None
        };
        let choose_id = if chid {
            Some(payload[need - 1])
        } else {
            None
        };
        Ok(Fteid { v4, v6, ch, teid, ipv4_address, ipv6_address, choose_id })
    }

    /// The F-TEID IE carrying this value.
    pub fn to_ie(&self) -> (r: Ie)
        ensures
            r@ == (IeView { ie_type: IeType::Fteid, payload: fteid_bytes(self@) }),
    {
        Ie::new(IeType::Fteid, self.marshal())
    }
}

/// Every well-formed F-TEID reads back as itself.
pub proof fn lemma_fteid_roundtrip(f: FteidView)
    requires
        fteid_wf(f),
    ensures
        spec_parse_fteid(fteid_bytes(f)) == Ok::<FteidView, PfcpError>(f),
{
    let b = fteid_bytes(f);
    let flags = fteid_flags(f);
    lemma_be32_roundtrip(f.teid);
    assert(b[0] == flags);
    assert(flags % 2 == 1 <==> f.v4);
    assert((flags / 2) % 2 == 1 <==> f.v6);
    assert((flags / 4) % 2 == 1 <==> f.ch);
    assert((flags / 8) % 2 == 1 <==> f.choose_id is Some);
    assert(b.len() == fteid_len_for(flags));
    if !f.ch {
        assert(b.subrange(1, 5) =~= be32(f.teid));
        match f.ipv4_address {
            Some(a) => {
                assert(b.subrange(5, 9) =~= a);
            },
            None => {},
        }
        match f.ipv6_address {
            Some(a) => {
                let s: int = if f.v4 { 9 } else { 5 };
                assert(b.subrange(s, s + 16) =~= a);
            },
            None => {},
        }
    }
    match f.choose_id {
        Some(c) => {
            assert(b[b.len() - 1] == c);
        },
        None => {},
    }
    assert(spec_parse_fteid(b) == Ok::<FteidView, PfcpError>(f));
}

} // verus!
