//! The Node Report Type IE (3GPP TS 29.244 clause 8.2.69): which reports a
//! Node Report Request carries, one flag per bit of one octet.
//!
//! Bit 1 UPFR (user plane path failure), bit 2 UPRR (user plane path
//! recovery), bit 3 CKDR (clock drift), bit 4 GPQR (GTP-U path QoS), bit 5
//! PURR (peer UP restart), bit 6 VSR (vendor-specific report).
use crate::error::PfcpError;
use crate::ie::{Ie, IeType, IeView};
use vstd::prelude::*;

verus! {

/// The report flags of a Node Report Type IE.
#[derive(Debug, Clone, Copy, PartialEq, Eq, Structural)]
pub struct NodeReportType {
    pub upfr: bool,
    pub uprr: bool,
    pub ckdr: bool,
    pub gpqr: bool,
    pub purr: bool,
    pub vsr: bool,
}

impl View for NodeReportType {
    type V = NodeReportType;

    open spec fn view(&self) -> NodeReportType {
        *self
    }
}

/// The value of a flag: 1 when set.
pub open spec fn bit(b: bool) -> int {
    if b {
        1
    } else {
        0
    }
}

/// The octet that carries the flags.
pub open spec fn node_report_type_octet(t: NodeReportType) -> u8 {
    (bit(t.upfr) + 2 * bit(t.uprr) + 4 * bit(t.ckdr) + 8 * bit(t.gpqr) + 16 * bit(t.purr) + 32 * bit(
        t.vsr,
    )) as u8
}

/// The flags that an octet carries (bits 7 and 8 are spare).
pub open spec fn node_report_type_of_octet(o: u8) -> NodeReportType {
    NodeReportType {
        upfr: o % 2 == 1,
        uprr: (o / 2) % 2 == 1,
        ckdr: (o / 4) % 2 == 1,
        gpqr: (o / 8) % 2 == 1,
        purr: (o / 16) % 2 == 1,
        vsr: (o / 32) % 2 == 1,
    }
}

/// Decoding a Node Report Type payload: its first octet.
pub open spec fn spec_parse_node_report_type(b: Seq<u8>) -> Result<NodeReportType, PfcpError> {
    if b.len() < 1 {
        Err(PfcpError::InvalidLength { ie_type: Some(IeType::NodeReportType), expected: 1, actual: b.len() as usize })
    } else {
        Ok(node_report_type_of_octet(b[0]))
    }
}

impl NodeReportType {
    /// The UPFR flag: a user plane path failure report.
    pub const UPFR: u8 = 0x01;

    /// The UPRR flag: a user plane path recovery report.
    pub const UPRR: u8 = 0x02;

    /// The CKDR flag: a clock drift report.
    pub const CKDR: u8 = 0x04;

    /// The GPQR flag: a GTP-U path QoS report.
    pub const GPQR: u8 = 0x08;

    /// The PURR flag: a peer UP restart report.
    pub const PURR: u8 = 0x10;

    /// The VSR flag: a vendor-specific report.
    pub const VSR: u8 = 0x20;

    /// The report type whose flags are the bits of `flags` (the spare bits 7
    /// and 8 are ignored).
    pub fn new(flags: u8) -> (r: NodeReportType)
        ensures
            r == node_report_type_of_octet(flags),
    {
        NodeReportType {
            upfr: flags % 2 == 1,
            uprr: (flags / 2) % 2 == 1,
            ckdr: (flags / 4) % 2 == 1,
            gpqr: (flags / 8) % 2 == 1,
            purr: (flags / 16) % 2 == 1,
            vsr: (flags / 32) % 2 == 1,
        }
    }

    /// Reports whether a user plane path failure report is announced.
    pub fn upfr(&self) -> (r: bool)
        ensures
            r == self.upfr,
    {
        self.upfr
    }

    /// Reports whether a user plane path recovery report is announced.
    pub fn uprr(&self) -> (r: bool)
        ensures
            r == self.uprr,
    {
        self.uprr
    }

    /// Reports whether a clock drift report is announced.
    pub fn ckdr(&self) -> (r: bool)
        ensures
            r == self.ckdr,
    {
        self.ckdr
    }

    /// Reports whether a GTP-U path QoS report is announced.
    pub fn gpqr(&self) -> (r: bool)
        ensures
            r == self.gpqr,
    {
        self.gpqr
    }

    /// Reports whether a peer UP restart report is announced.
    pub fn purr(&self) -> (r: bool)
        ensures
            r == self.purr,
    {
        self.purr
    }

    /// Reports whether a vendor-specific report is announced.
    pub fn vsr(&self) -> (r: bool)
        ensures
            r == self.vsr,
    {
        self.vsr
    }

    /// The octet that carries the flags.
    pub fn octet(&self) -> (r: u8)
        ensures
            r == node_report_type_octet(*self),
    {
        (if self.upfr { 1u8 } else { 0u8 }) + (if self.uprr { 2u8 } else { 0u8 }) + (if self.ckdr { 4u8 } else { 0u8 })
            + (if self.gpqr { 8u8 } else { 0u8 }) + (if self.purr { 16u8 } else { 0u8 }) + (if self.vsr {
            32u8
        } else {
            0u8
        })
    }

    /// The payload: the flags octet.
    pub fn marshal(&self) -> (r: Vec<u8>)
        ensures
            r@ == seq![node_report_type_octet(*self)],
    {
        let mut v: Vec<u8> = Vec::new();
        v.push(self.octet());
        assert(v@ =~= seq![node_report_type_octet(*self)]);
        v
    }

    /// Decodes a Node Report Type payload.
    pub fn unmarshal(payload: &[u8]) -> (r: Result<NodeReportType, PfcpError>)
        ensures
            r == spec_parse_node_report_type(payload@),
    {
        if payload.len() < 1 {
            return Err(PfcpError::InvalidLength { ie_type: Some(IeType::NodeReportType), expected: 1, actual: payload.len() });
        }
        Ok(NodeReportType::new(payload[0]))
    }

    /// The Node Report Type IE carrying these flags.
    pub fn to_ie(&self) -> (r: Ie)
        ensures
            r@ == (IeView { ie_type: IeType::NodeReportType, payload: seq![node_report_type_octet(*self)] }),
    {
        Ie::new(IeType::NodeReportType, self.marshal())
    }
}

/// Every set of flags reads back as itself.
pub proof fn lemma_node_report_type_roundtrip(t: NodeReportType)
    ensures
        spec_parse_node_report_type(seq![node_report_type_octet(t)]) == Ok::<NodeReportType, PfcpError>(t),
{
    let o = node_report_type_octet(t);
    assert(node_report_type_of_octet(o) == t);
}

} // verus!
