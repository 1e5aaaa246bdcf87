//! Node Report Request message (3GPP TS 29.244 clause 7.4.5.1).
//!
//! Unlike the other messages, the Node ID and the Node Report Type are decoded
//! while the message is read: a payload that does not decode makes the whole
//! message fail. The first Node ID, Node Report Type and User Plane Path
//! Failure Report IE each fill their field; a second one of these is kept
//! with the IEs of other types.
use crate::error::PfcpError;
use crate::ie::node_id::{lemma_node_id_roundtrip, node_id_bytes, spec_parse_node_id, NodeId, NodeIdView};
use crate::ie::node_report_type::{
    lemma_node_report_type_roundtrip, node_report_type_octet, spec_parse_node_report_type, NodeReportType,
};
use crate::ie::{
    ie_refs_view, ie_wf, ie_wire, ies_of_type, ies_size, ies_view, ies_wf, ies_wire, lemma_ies_wire_cons,
    lemma_parse_ie_wire, parse_ie_at, spec_parse_ie, Ie, IeType, IeView,
};
use crate::message::header::{
    header_size, header_wf, header_wire, lemma_header_roundtrip, lemma_header_wire_len, spec_parse_header, Header,
};
use crate::message::ie_iter::IeIter;
use crate::message::slots::{
    concat_slots, lemma_concat_slots_push, len_slot_many, len_slot_one, len_slot_opt, lemma_len_step,
    list_slot_many, list_slot_one, list_slot_opt, opt_ie_seq, write_slot_many, write_slot_one, write_slot_opt,
};
use crate::message::{lemma_parse_header_size, message_header, Message, MsgType};
use vstd::prelude::*;

verus! {

/// A Node Report Request message.
#[derive(Debug, Clone, PartialEq, Eq)]
pub struct NodeReportRequest {
    pub header: Header,
    pub node_id: NodeId,
    pub node_report_type: NodeReportType,
    pub node_id_ie: Ie,
    pub node_report_type_ie: Ie,
    pub user_plane_path_failure_report: Option<Ie>,
    pub user_plane_path_recovery_reports: Vec<Ie>,
    pub clock_drift_reports: Vec<Ie>,
    pub gtpu_path_qos_reports: Vec<Ie>,
    pub peer_up_restart_reports: Vec<Ie>,
    pub vendor_specific_node_report_types: Vec<Ie>,
    pub ies: Vec<Ie>,
}

/// What has been read of a Node Report Request body so far.
#[verifier::ext_equal]
pub struct NodeReportScan {
    /// The first Node ID, decoded, with its IE.
    pub node_id: Option<(NodeIdView, IeView)>,
    /// The first Node Report Type, decoded, with its IE.
    pub node_report_type: Option<(NodeReportType, IeView)>,
    /// The first User Plane Path Failure Report IE.
    pub failure: Option<IeView>,
    /// The lists, in the order of `report_list`: recovery, clock drift, GTP-U
    /// path QoS, peer restart and vendor-specific reports, then all other IEs.
    pub lists: Seq<Seq<IeView>>,
}

/// Which list an IE of type `t` joins when it does not fill a field.
pub open spec fn report_list(t: IeType) -> int {
    match t {
        IeType::UserPlanePathRecoveryReport => 0,
        IeType::ClockDriftReport => 1,
        IeType::GtpuPathQosReport => 2,
        IeType::PeerUpRestartReport => 3,
        IeType::VendorSpecificNodeReportType => 4,
        _ => 5,
    }
}

/// Nothing read yet.
pub open spec fn scan_start() -> NodeReportScan {
    NodeReportScan {
        node_id: None,
        node_report_type: None,
        failure: None,
        lists: seq![Seq::empty(), Seq::empty(), Seq::empty(), Seq::empty(), Seq::empty(), Seq::empty()],
    }
}

/// Reading one more IE.
pub open spec fn scan_step(st: NodeReportScan, ie: IeView) -> Result<NodeReportScan, PfcpError> {
    if ie.ie_type == IeType::NodeId && st.node_id is None {
        match spec_parse_node_id(ie.payload) {
            Ok(n) => Ok(NodeReportScan { node_id: Some((n, ie)), ..st }),
            Err(e) => Err(e),
        }
    } else if ie.ie_type == IeType::NodeReportType && st.node_report_type is None {
        match spec_parse_node_report_type(ie.payload) {
            Ok(t) => Ok(NodeReportScan { node_report_type: Some((t, ie)), ..st }),
            Err(e) => Err(e),
        }
    } else if ie.ie_type == IeType::UserPlanePathFailureReport && st.failure is None {
        Ok(NodeReportScan { failure: Some(ie), ..st })
    } else {
        let k = report_list(ie.ie_type);
        Ok(NodeReportScan { lists: st.lists.update(k, st.lists[k].push(ie)), ..st })
    }
}

/// Reading the IEs of `s` one after the other, from state `st`; the first IE
/// that cannot be read, or whose Node ID or Node Report Type does not decode,
/// ends the reading with its error.
pub open spec fn scan_bytes(s: Seq<u8>, st: NodeReportScan) -> Result<NodeReportScan, PfcpError>
    decreases s.len(),
{
    if s.len() == 0 {
        Ok(st)
    } else {
        match spec_parse_ie(s) {
            Err(e) => Err(e),
            Ok((ie, n)) => if n == 0 {
                Err(PfcpError::InvalidLength { ie_type: None, expected: 4, actual: 0 })
            } else {
                match scan_step(st, ie) {
                    Err(e) => Err(e),
                    Ok(st2) => scan_bytes(s.skip(n as int), st2),
                }
            },
        }
    }
}

/// Reading the IEs of `s` one after the other, from state `st`.
pub open spec fn scan_ies(s: Seq<IeView>, st: NodeReportScan) -> Result<NodeReportScan, PfcpError>
    decreases s.len(),
{
    if s.len() == 0 {
        Ok(st)
    } else {
        match scan_step(st, s[0]) {
            Err(e) => Err(e),
            Ok(st2) => scan_ies(s.skip(1), st2),
        }
    }
}

/// The view of an optional decoded Node ID with its IE.
pub open spec fn node_id_pair_view(p: Option<(NodeId, Ie)>) -> Option<(NodeIdView, IeView)> {
    match p {
        Some((n, ie)) => Some((n@, ie@)),
        None => None,
    }
}

/// The view of an optional decoded Node Report Type with its IE.
pub open spec fn report_type_pair_view(p: Option<(NodeReportType, Ie)>) -> Option<(NodeReportType, IeView)> {
    match p {
        Some((t, ie)) => Some((t, ie@)),
        None => None,
    }
}

/// The view of an optional IE.
pub open spec fn opt_ie_view(o: Option<Ie>) -> Option<IeView> {
    match o {
        Some(ie) => Some(ie@),
        None => None,
    }
}

impl NodeReportRequest {
    /// The IEs of each field, in wire order.
    pub open spec fn slots(&self) -> Seq<Seq<IeView>> {
        Seq::<Seq<IeView>>::empty().push(seq![self.node_id_ie@]).push(seq![self.node_report_type_ie@]).push(
            opt_ie_seq(self.user_plane_path_failure_report),
        ).push(ies_view(self.user_plane_path_recovery_reports@)).push(ies_view(self.clock_drift_reports@)).push(
            ies_view(self.gtpu_path_qos_reports@),
        ).push(ies_view(self.peer_up_restart_reports@)).push(ies_view(self.vendor_specific_node_report_types@)).push(
            ies_view(self.ies@),
        )
    }

    /// The wire form of the message.
    pub open spec fn wire(&self) -> Seq<u8> {
        header_wire(self.header) + ies_wire(concat_slots(self.slots()))
    }

    /// What reading the body of this message ends in.
    pub open spec fn final_scan(&self) -> NodeReportScan {
        NodeReportScan {
            node_id: Some((self.node_id@, self.node_id_ie@)),
            node_report_type: Some((self.node_report_type, self.node_report_type_ie@)),
            failure: opt_ie_view(self.user_plane_path_failure_report),
            lists: seq![
                ies_view(self.user_plane_path_recovery_reports@),
                ies_view(self.clock_drift_reports@),
                ies_view(self.gtpu_path_qos_reports@),
                ies_view(self.peer_up_restart_reports@),
                ies_view(self.vendor_specific_node_report_types@),
                ies_view(self.ies@),
            ],
        }
    }

    /// Reading a body ended in `st` and gave these fields.
    pub open spec fn matches_scan(&self, st: NodeReportScan) -> bool {
        &&& st.node_id == Some((self.node_id@, self.node_id_ie@))
        &&& st.node_report_type == Some((self.node_report_type, self.node_report_type_ie@))
        &&& st.failure == opt_ie_view(self.user_plane_path_failure_report)
        &&& st.lists.len() == 6
        &&& st.lists[0] == ies_view(self.user_plane_path_recovery_reports@)
        &&& st.lists[1] == ies_view(self.clock_drift_reports@)
        &&& st.lists[2] == ies_view(self.gtpu_path_qos_reports@)
        &&& st.lists[3] == ies_view(self.peer_up_restart_reports@)
        &&& st.lists[4] == ies_view(self.vendor_specific_node_report_types@)
        &&& st.lists[5] == ies_view(self.ies@)
    }

    /// The error that ends reading `data`, if any.
    pub open spec fn decode_error(data: Seq<u8>) -> Option<PfcpError> {
        match spec_parse_header(data) {
            Err(e) => Some(e),
            Ok(h) => match scan_bytes(data.skip(header_size(h) as int), scan_start()) {
                Err(e) => Some(e),
                Ok(st) => if st.node_id is None {
                    Some(PfcpError::MissingMandatoryIe { ie_type: IeType::NodeId, message_type: Some(MsgType::NodeReportRequest) })
                } else if st.node_report_type is None {
                    Some(
                        PfcpError::MissingMandatoryIe {
                            ie_type: IeType::NodeReportType,
                            message_type: Some(MsgType::NodeReportRequest),
                        },
                    )
                } else {
                    None
                },
            },
        }
    }

    /// A builder for a Node Report Request with the given sequence number.
    pub fn builder(sequence: u32) -> (r: NodeReportRequestBuilder)
        ensures
            r.sequence == sequence,
            r.node_id is None,
            r.node_report_type is None,
            r.user_plane_path_failure_report is None,
            r.user_plane_path_recovery_reports@.len() == 0,
            r.clock_drift_reports@.len() == 0,
            r.gtpu_path_qos_reports@.len() == 0,
            r.peer_up_restart_reports@.len() == 0,
            r.vendor_specific_node_report_types@.len() == 0,
            r.ies@.len() == 0,
    {
        NodeReportRequestBuilder::new(sequence)
    }

    /// The Node ID.
    pub fn node_id(&self) -> (r: &NodeId)
        ensures
            r == &self.node_id,
    {
        &self.node_id
    }

    /// The Node Report Type.
    pub fn node_report_type(&self) -> (r: NodeReportType)
        ensures
            r == self.node_report_type,
    {
        self.node_report_type
    }
}

/// The state that these exec values stand for.
pub open spec fn scan_of(
    node_id: Option<(NodeId, Ie)>,
    node_report_type: Option<(NodeReportType, Ie)>,
    failure: Option<Ie>,
    l0: Vec<Ie>,
    l1: Vec<Ie>,
    l2: Vec<Ie>,
    l3: Vec<Ie>,
    l4: Vec<Ie>,
    l5: Vec<Ie>,
) -> NodeReportScan {
    NodeReportScan {
        node_id: node_id_pair_view(node_id),
        node_report_type: report_type_pair_view(node_report_type),
        failure: opt_ie_view(failure),
        lists: seq![ies_view(l0@), ies_view(l1@), ies_view(l2@), ies_view(l3@), ies_view(l4@), ies_view(l5@)],
    }
}

/// Adds `ie` at the end of `v`.
fn push_ie(v: &mut Vec<Ie>, ie: Ie)
    ensures
        ies_view(final(v)@) == ies_view(old(v)@).push(ie@),
{
    v.push(ie);
    assert(ies_view(v@) =~= ies_view(old(v)@).push(ie@));
}

impl Message for NodeReportRequest {
    open spec fn spec_header(&self) -> Header {
        self.header
    }

    open spec fn spec_body(&self) -> Seq<IeView> {
        concat_slots(self.slots())
    }

    open spec fn spec_listed(&self) -> Seq<IeView> {
        concat_slots(self.slots())
    }

    open spec fn spec_ies_of(&self, t: IeType) -> Seq<IeView> {
        match t {
            IeType::NodeId => seq![self.node_id_ie@],
            IeType::NodeReportType => seq![self.node_report_type_ie@],
            IeType::UserPlanePathFailureReport => opt_ie_seq(self.user_plane_path_failure_report),
            IeType::UserPlanePathRecoveryReport => ies_view(self.user_plane_path_recovery_reports@),
            IeType::ClockDriftReport => ies_view(self.clock_drift_reports@),
            IeType::GtpuPathQosReport => ies_view(self.gtpu_path_qos_reports@),
            IeType::PeerUpRestartReport => ies_view(self.peer_up_restart_reports@),
            IeType::VendorSpecificNodeReportType => ies_view(self.vendor_specific_node_report_types@),
            _ => ies_of_type(ies_view(self.ies@), t),
        }
    }

    open spec fn spec_msg_type(&self) -> MsgType {
        MsgType::NodeReportRequest
    }

    open spec fn spec_decode_error(data: Seq<u8>) -> Option<PfcpError> {
        Self::decode_error(data)
    }

    open spec fn spec_decoded(data: Seq<u8>, m: Self) -> bool {
        match spec_parse_header(data) {
            Err(_) => false,
            Ok(h) => match scan_bytes(data.skip(header_size(h) as int), scan_start()) {
                Err(_) => false,
                Ok(st) => m.header == h && m.matches_scan(st),
            },
        }
    }

    fn marshal_into(&self, buf: &mut Vec<u8>) {
        self.header.marshal_into(buf);
        let ghost p = buf@;
        assert(buf@ =~= p + ies_wire(concat_slots(Seq::<Seq<IeView>>::empty())));
        let ghost a0 = Seq::<Seq<IeView>>::empty();
        write_slot_one(buf, &self.node_id_ie, Ghost(p), Ghost(a0));
        let ghost a1 = a0.push(seq![self.node_id_ie@]);
        write_slot_one(buf, &self.node_report_type_ie, Ghost(p), Ghost(a1));
        let ghost a2 = a1.push(seq![self.node_report_type_ie@]);
        write_slot_opt(buf, &self.user_plane_path_failure_report, Ghost(p), Ghost(a2));
        let ghost a3 = a2.push(opt_ie_seq(self.user_plane_path_failure_report));
        write_slot_many(buf, &self.user_plane_path_recovery_reports, Ghost(p), Ghost(a3));
        let ghost a4 = a3.push(ies_view(self.user_plane_path_recovery_reports@));
        write_slot_many(buf, &self.clock_drift_reports, Ghost(p), Ghost(a4));
        let ghost a5 = a4.push(ies_view(self.clock_drift_reports@));
        write_slot_many(buf, &self.gtpu_path_qos_reports, Ghost(p), Ghost(a5));
        let ghost a6 = a5.push(ies_view(self.gtpu_path_qos_reports@));
        write_slot_many(buf, &self.peer_up_restart_reports, Ghost(p), Ghost(a6));
        let ghost a7 = a6.push(ies_view(self.peer_up_restart_reports@));
        write_slot_many(buf, &self.vendor_specific_node_report_types, Ghost(p), Ghost(a7));
        let ghost a8 = a7.push(ies_view(self.vendor_specific_node_report_types@));
        write_slot_many(buf, &self.ies, Ghost(p), Ghost(a8));
        assert(buf@ =~= old(buf)@ + header_wire(self.header) + ies_wire(concat_slots(self.slots())));
    }

    fn marshal(&self) -> (r: Vec<u8>) {
        let mut buf: Vec<u8> = Vec::new();
        self.marshal_into(&mut buf);
        assert(buf@ =~= header_wire(self.header) + ies_wire(concat_slots(self.slots())));
        buf
    }

    fn marshaled_size(&self) -> (r: usize) {
        let v = self.marshal();
        v.len()
    }

    fn unmarshal(data: &[u8]) -> (r: Result<Self, PfcpError>) {
        let header = match Header::unmarshal(data) {
            Ok(h) => h,
            Err(e) => return Err(e),
        };
        proof {
            lemma_parse_header_size(data@);
        }
        let start = header.len() as usize;
        let mut node_id: Option<(NodeId, Ie)> = None;
        let mut node_report_type: Option<(NodeReportType, Ie)> = None;
        let mut failure: Option<Ie> = None;
        let mut l0: Vec<Ie> = Vec::new();
        let mut l1: Vec<Ie> = Vec::new();
        let mut l2: Vec<Ie> = Vec::new();
        let mut l3: Vec<Ie> = Vec::new();
        let mut l4: Vec<Ie> = Vec::new();
        let mut l5: Vec<Ie> = Vec::new();
        proof {
            assert(ies_view(l0@) =~= Seq::<IeView>::empty());
            assert(scan_of(node_id, node_report_type, failure, l0, l1, l2, l3, l4, l5).lists =~= scan_start().lists);
            assert(scan_of(node_id, node_report_type, failure, l0, l1, l2, l3, l4, l5) =~= scan_start());
        }
        let mut offset = start;
        while offset < data.len()
            invariant
                start <= offset <= data@.len(),
                spec_parse_header(data@) == Ok::<Header, PfcpError>(header),
                start == header_size(header),
                scan_bytes(data@.skip(start as int), scan_start()) == scan_bytes(
                    data@.skip(offset as int),
                    scan_of(node_id, node_report_type, failure, l0, l1, l2, l3, l4, l5),
                ),
            decreases data@.len() - offset,
        {
            let ghost s = data@.skip(offset as int);
            let ghost st = scan_of(node_id, node_report_type, failure, l0, l1, l2, l3, l4, l5);
            let (ie, n) = match parse_ie_at(data, offset) {
                Ok(x) => x,
                Err(e) => {
                    assert(scan_bytes(s, st) == Err::<NodeReportScan, PfcpError>(e));
                    return Err(e);
                },
            };
            let ghost iev = ie@;
            assert(s.skip(n as int) =~= data@.skip(offset + n));
            assert(scan_bytes(s, st) == (match scan_step(st, iev) {
                Err(e) => Err(e),
                Ok(st2) => scan_bytes(s.skip(n as int), st2),
            }));
            if ie.ie_type == IeType::NodeId && node_id.is_none() {
                match NodeId::unmarshal(ie.payload.as_slice()) {
                    Ok(v) => {
                        node_id = Some((v, ie));
                    },
                    Err(e) => {
                        assert(scan_step(st, iev) == Err::<NodeReportScan, PfcpError>(e));
                        return Err(e);
                    },
                }
            } else if ie.ie_type == IeType::NodeReportType && node_report_type.is_none() {
                match NodeReportType::unmarshal(ie.payload.as_slice()) {
                    Ok(v) => {
                        node_report_type = Some((v, ie));
                    },
                    Err(e) => {
                        return Err(e);
                    },
                }
            } else if ie.ie_type == IeType::UserPlanePathFailureReport && failure.is_none() {
                failure = Some(ie);
            } else {
                match ie.ie_type {
                    IeType::UserPlanePathRecoveryReport => push_ie(&mut l0, ie),
                    IeType::ClockDriftReport => push_ie(&mut l1, ie),
                    IeType::GtpuPathQosReport => push_ie(&mut l2, ie),
                    IeType::PeerUpRestartReport => push_ie(&mut l3, ie),
                    IeType::VendorSpecificNodeReportType => push_ie(&mut l4, ie),
                    _ => push_ie(&mut l5, ie),
                }
            }
            proof {
                let st2 = scan_of(node_id, node_report_type, failure, l0, l1, l2, l3, l4, l5);
                assert(scan_step(st, iev) == Ok::<NodeReportScan, PfcpError>(st2)) by {
                    if !(iev.ie_type == IeType::NodeId && st.node_id is None) && !(iev.ie_type
                        == IeType::NodeReportType && st.node_report_type is None) && !(iev.ie_type
                        == IeType::UserPlanePathFailureReport && st.failure is None) {
                        let k = report_list(iev.ie_type);
                        assert(st.lists.update(k, st.lists[k].push(iev)) =~= st2.lists);
                    }
                }
            }
            offset = offset + n;
        }
        assert(data@.skip(offset as int) =~= Seq::<u8>::empty());
        let (nid, nid_ie) = match node_id {
            Some(x) => x,
            None => {
                return Err(
                    PfcpError::MissingMandatoryIe { ie_type: IeType::NodeId, message_type: Some(MsgType::NodeReportRequest) },
                );
            },
        };
        let (nrt, nrt_ie) = match node_report_type {
            Some(x) => x,
            None => {
                return Err(
                    PfcpError::MissingMandatoryIe {
                        ie_type: IeType::NodeReportType,
                        message_type: Some(MsgType::NodeReportRequest),
                    },
                );
            },
        };
        Ok(
            NodeReportRequest {
                header,
                node_id: nid,
                node_report_type: nrt,
                node_id_ie: nid_ie,
                node_report_type_ie: nrt_ie,
                user_plane_path_failure_report: failure,
                user_plane_path_recovery_reports: l0,
                clock_drift_reports: l1,
                gtpu_path_qos_reports: l2,
                peer_up_restart_reports: l3,
                vendor_specific_node_report_types: l4,
                ies: l5,
            },
        )
    }

    fn msg_type(&self) -> (r: MsgType) {
        MsgType::NodeReportRequest
    }

    fn msg_name(&self) -> (r: String) {
        MsgType::NodeReportRequest.name().to_owned()
    }

    fn version(&self) -> (r: u8) {
        1
    }

    fn seid(&self) -> (r: Option<u64>) {
        if self.header.has_seid {
            Some(self.header.seid)
        } else {
            None
        }
    }

    fn sequence(&self) -> (r: u32) {
        self.header.sequence_number
    }

    fn set_sequence(&mut self, seq: u32) {
        self.header.sequence_number = seq;
    }

    fn ies(&self, ie_type: IeType) -> (r: IeIter<'_>) {
        match ie_type {
            IeType::NodeId => IeIter::single(Some(&self.node_id_ie), ie_type),
            IeType::NodeReportType => IeIter::single(Some(&self.node_report_type_ie), ie_type),
            IeType::UserPlanePathFailureReport => match &self.user_plane_path_failure_report {
                Some(x) => IeIter::single(Some(x), ie_type),
                None => IeIter::single(None, ie_type),
            },
            IeType::UserPlanePathRecoveryReport => IeIter::multiple(self.user_plane_path_recovery_reports.as_slice(), ie_type),
            IeType::ClockDriftReport => IeIter::multiple(self.clock_drift_reports.as_slice(), ie_type),
            IeType::GtpuPathQosReport => IeIter::multiple(self.gtpu_path_qos_reports.as_slice(), ie_type),
            IeType::PeerUpRestartReport => IeIter::multiple(self.peer_up_restart_reports.as_slice(), ie_type),
            IeType::VendorSpecificNodeReportType => IeIter::multiple(
                self.vendor_specific_node_report_types.as_slice(),
                ie_type,
            ),
            _ => IeIter::generic(self.ies.as_slice(), ie_type),
        }
    }

    fn find_ie(&self, ie_type: IeType) -> (r: Option<&Ie>) {
        let mut it = self.ies(ie_type);
        it.next()
    }

    fn find_all_ies(&self, ie_type: IeType) -> (r: Vec<&Ie>) {
        self.ies(ie_type).collect()
    }

    fn all_ies(&self) -> (r: Vec<&Ie>) {
        let mut out: Vec<&Ie> = Vec::new();
        assert(ie_refs_view(out@) =~= concat_slots(Seq::<Seq<IeView>>::empty()));
        let ghost a0 = Seq::<Seq<IeView>>::empty();
        list_slot_one(&mut out, &self.node_id_ie, Ghost(a0));
        let ghost a1 = a0.push(seq![self.node_id_ie@]);
        list_slot_one(&mut out, &self.node_report_type_ie, Ghost(a1));
        let ghost a2 = a1.push(seq![self.node_report_type_ie@]);
        list_slot_opt(&mut out, &self.user_plane_path_failure_report, Ghost(a2));
        let ghost a3 = a2.push(opt_ie_seq(self.user_plane_path_failure_report));
        list_slot_many(&mut out, &self.user_plane_path_recovery_reports, Ghost(a3));
        let ghost a4 = a3.push(ies_view(self.user_plane_path_recovery_reports@));
        list_slot_many(&mut out, &self.clock_drift_reports, Ghost(a4));
        let ghost a5 = a4.push(ies_view(self.clock_drift_reports@));
        list_slot_many(&mut out, &self.gtpu_path_qos_reports, Ghost(a5));
        let ghost a6 = a5.push(ies_view(self.gtpu_path_qos_reports@));
        list_slot_many(&mut out, &self.peer_up_restart_reports, Ghost(a6));
        let ghost a7 = a6.push(ies_view(self.peer_up_restart_reports@));
        list_slot_many(&mut out, &self.vendor_specific_node_report_types, Ghost(a7));
        let ghost a8 = a7.push(ies_view(self.vendor_specific_node_report_types@));
        list_slot_many(&mut out, &self.ies, Ghost(a8));
        out
    }
}

/// Builder for Node Report Request messages.
#[derive(Debug)]
pub struct NodeReportRequestBuilder {
    pub sequence: u32,
    pub node_id: Option<NodeId>,
    pub node_report_type: Option<NodeReportType>,
    pub user_plane_path_failure_report: Option<Ie>,
    pub user_plane_path_recovery_reports: Vec<Ie>,
    pub clock_drift_reports: Vec<Ie>,
    pub gtpu_path_qos_reports: Vec<Ie>,
    pub peer_up_restart_reports: Vec<Ie>,
    pub vendor_specific_node_report_types: Vec<Ie>,
    pub ies: Vec<Ie>,
}

impl NodeReportRequestBuilder {
    /// Creates a builder with nothing set.
    pub fn new(sequence: u32) -> (r: Self)
        ensures
            r.sequence == sequence,
            r.node_id is None,
            r.node_report_type is None,
            r.user_plane_path_failure_report is None,
            r.user_plane_path_recovery_reports@.len() == 0,
            r.clock_drift_reports@.len() == 0,
            r.gtpu_path_qos_reports@.len() == 0,
            r.peer_up_restart_reports@.len() == 0,
            r.vendor_specific_node_report_types@.len() == 0,
            r.ies@.len() == 0,
    {
        NodeReportRequestBuilder {
            sequence,
            node_id: None,
            node_report_type: None,
            user_plane_path_failure_report: None,
            user_plane_path_recovery_reports: Vec::new(),
            clock_drift_reports: Vec::new(),
            gtpu_path_qos_reports: Vec::new(),
            peer_up_restart_reports: Vec::new(),
            vendor_specific_node_report_types: Vec::new(),
            ies: Vec::new(),
        }
    }

    /// Sets the Node ID.
    pub fn node_id(self, node_id: NodeId) -> (r: Self)
        ensures
            r == (Self { node_id: Some(node_id), ..self }),
    {
        let mut s = self;
        s.node_id = Some(node_id);
        s
    }

    /// Sets the Node Report Type.
    pub fn node_report_type(self, node_report_type: NodeReportType) -> (r: Self)
        ensures
            r == (Self { node_report_type: Some(node_report_type), ..self }),
    {
        let mut s = self;
        s.node_report_type = Some(node_report_type);
        s
    }

    /// Sets the User Plane Path Failure Report IE.
    pub fn user_plane_path_failure_report(self, ie: Ie) -> (r: Self)
        ensures
            r == (Self { user_plane_path_failure_report: Some(ie), ..self }),
    {
        let mut s = self;
        s.user_plane_path_failure_report = Some(ie);
        s
    }

    /// Adds a User Plane Path Recovery Report IE.
    pub fn user_plane_path_recovery_report(self, ie: Ie) -> (r: Self)
        ensures
            r.user_plane_path_recovery_reports@ == self.user_plane_path_recovery_reports@.push(ie),
            r == (Self { user_plane_path_recovery_reports: r.user_plane_path_recovery_reports, ..self }),
    {
        let mut s = self;
        s.user_plane_path_recovery_reports.push(ie);
        s
    }

    /// Adds a Clock Drift Report IE.
    pub fn clock_drift_report(self, ie: Ie) -> (r: Self)
        ensures
            r.clock_drift_reports@ == self.clock_drift_reports@.push(ie),
            r == (Self { clock_drift_reports: r.clock_drift_reports, ..self }),
    {
        let mut s = self;
        s.clock_drift_reports.push(ie);
        s
    }

    /// Adds a GTP-U Path QoS Report IE.
    pub fn gtpu_path_qos_report(self, ie: Ie) -> (r: Self)
        ensures
            r.gtpu_path_qos_reports@ == self.gtpu_path_qos_reports@.push(ie),
            r == (Self { gtpu_path_qos_reports: r.gtpu_path_qos_reports, ..self }),
    {
        let mut s = self;
        s.gtpu_path_qos_reports.push(ie);
        s
    }

    /// Adds a Peer UP Restart Report IE.
    pub fn peer_up_restart_report(self, ie: Ie) -> (r: Self)
        ensures
            r.peer_up_restart_reports@ == self.peer_up_restart_reports@.push(ie),
            r == (Self { peer_up_restart_reports: r.peer_up_restart_reports, ..self }),
    {
        let mut s = self;
        s.peer_up_restart_reports.push(ie);
        s
    }

    /// Adds a Vendor-Specific Node Report Type IE.
    pub fn vendor_specific_node_report_type(self, ie: Ie) -> (r: Self)
        ensures
            r.vendor_specific_node_report_types@ == self.vendor_specific_node_report_types@.push(ie),
            r == (Self { vendor_specific_node_report_types: r.vendor_specific_node_report_types, ..self }),
    {
        let mut s = self;
        s.vendor_specific_node_report_types.push(ie);
        s
    }

    /// Adds an additional IE.
    pub fn ie(self, ie: Ie) -> (r: Self)
        ensures
            r.ies@ == self.ies@.push(ie),
            r == (Self { ies: r.ies, ..self }),
    {
        let mut s = self;
        s.ies.push(ie);
        s
    }

    /// Adds several additional IEs.
    pub fn ies(self, ies: Vec<Ie>) -> (r: Self)
        ensures
            r.ies@ == self.ies@ + ies@,
            r == (Self { ies: r.ies, ..self }),
    {
        let mut s = self;
        let mut v = ies;
        s.ies.append(&mut v);
        s
    }

    /// Builds the message, or reports the first mandatory value that is missing.
    pub fn build(self) -> (r: Result<NodeReportRequest, PfcpError>)
        ensures
            self.node_id is None ==> r == Err::<NodeReportRequest, PfcpError>(
                PfcpError::MissingMandatoryIe { ie_type: IeType::NodeId, message_type: Some(MsgType::NodeReportRequest) },
            ),
            self.node_id is Some && self.node_report_type is None ==> r == Err::<NodeReportRequest, PfcpError>(
                PfcpError::MissingMandatoryIe {
                    ie_type: IeType::NodeReportType,
                    message_type: Some(MsgType::NodeReportRequest),
                },
            ),
            self.node_id is Some && self.node_report_type is Some ==> r is Ok,
            r matches Ok(m) ==> {
                &&& m.node_id == self.node_id.unwrap()
                &&& m.node_report_type == self.node_report_type.unwrap()
                &&& m.node_id_ie@ == (IeView { ie_type: IeType::NodeId, payload: node_id_bytes(m.node_id@) })
                &&& m.node_report_type_ie@ == (IeView {
                    ie_type: IeType::NodeReportType,
                    payload: seq![node_report_type_octet(m.node_report_type)],
                })
                &&& m.user_plane_path_failure_report == self.user_plane_path_failure_report
                &&& m.user_plane_path_recovery_reports == self.user_plane_path_recovery_reports
                &&& m.clock_drift_reports == self.clock_drift_reports
                &&& m.gtpu_path_qos_reports == self.gtpu_path_qos_reports
                &&& m.peer_up_restart_reports == self.peer_up_restart_reports
                &&& m.vendor_specific_node_report_types == self.vendor_specific_node_report_types
                &&& m.ies == self.ies
                &&& m.header == message_header(MsgType::NodeReportRequest, false, 0, self.sequence, concat_slots(m.slots()))
            },
    {
        let node_id = match self.node_id {
            Some(n) => n,
            None => {
                return Err(
                    PfcpError::MissingMandatoryIe { ie_type: IeType::NodeId, message_type: Some(MsgType::NodeReportRequest) },
                );
            },
        };
        let node_report_type = match self.node_report_type {
            Some(t) => t,
            None => {
                return Err(
                    PfcpError::MissingMandatoryIe {
                        ie_type: IeType::NodeReportType,
                        message_type: Some(MsgType::NodeReportRequest),
                    },
                );
            },
        };
        let node_id_ie = node_id.to_ie();
        let node_report_type_ie = node_report_type.to_ie();
        let ghost a0 = Seq::<Seq<IeView>>::empty();
        let len = len_slot_one(0, &node_id_ie, Ghost(a0));
        let ghost a1 = a0.push(seq![node_id_ie@]);
        let len = len_slot_one(len, &node_report_type_ie, Ghost(a1));
        let ghost a2 = a1.push(seq![node_report_type_ie@]);
        let len = len_slot_opt(len, &self.user_plane_path_failure_report, Ghost(a2));
        let ghost a3 = a2.push(opt_ie_seq(self.user_plane_path_failure_report));
        let len = len_slot_many(len, &self.user_plane_path_recovery_reports, Ghost(a3));
        let ghost a4 = a3.push(ies_view(self.user_plane_path_recovery_reports@));
        let len = len_slot_many(len, &self.clock_drift_reports, Ghost(a4));
        let ghost a5 = a4.push(ies_view(self.clock_drift_reports@));
        let len = len_slot_many(len, &self.gtpu_path_qos_reports, Ghost(a5));
        let ghost a6 = a5.push(ies_view(self.gtpu_path_qos_reports@));
        let len = len_slot_many(len, &self.peer_up_restart_reports, Ghost(a6));
        let ghost a7 = a6.push(ies_view(self.peer_up_restart_reports@));
        let len = len_slot_many(len, &self.vendor_specific_node_report_types, Ghost(a7));
        let ghost a8 = a7.push(ies_view(self.vendor_specific_node_report_types@));
        let len = len_slot_many(len, &self.ies, Ghost(a8));
        let ghost a9 = a8.push(ies_view(self.ies@));
        let mut header = Header::new(MsgType::NodeReportRequest, false, 0, self.sequence);
        proof {
            lemma_len_step(ies_size(concat_slots(a9)) as int, header_size(header) as int - 4, len as int);
        }
        header.length = ((len as u32 + header.len() as u32 - 4) % 65536) as u16;
        Ok(
            NodeReportRequest {
                header,
                node_id,
                node_report_type,
                node_id_ie,
                node_report_type_ie,
                user_plane_path_failure_report: self.user_plane_path_failure_report,
                user_plane_path_recovery_reports: self.user_plane_path_recovery_reports,
                clock_drift_reports: self.clock_drift_reports,
                gtpu_path_qos_reports: self.gtpu_path_qos_reports,
                peer_up_restart_reports: self.peer_up_restart_reports,
                vendor_specific_node_report_types: self.vendor_specific_node_report_types,
                ies: self.ies,
            },
        )
    }
}

/// Every IE of `l` joins list `k`.
pub open spec fn list_in(l: Seq<IeView>, k: int) -> bool {
    forall|i: int| 0 <= i < l.len() ==> report_list(#[trigger] l[i].ie_type) == k
}

/// Reading `x` in state `st` adds it to a list rather than filling a field.
pub open spec fn joins_list(st: NodeReportScan, x: IeView) -> bool {
    &&& !(x.ie_type == IeType::NodeId && st.node_id is None)
    &&& !(x.ie_type == IeType::NodeReportType && st.node_report_type is None)
    &&& !(x.ie_type == IeType::UserPlanePathFailureReport && st.failure is None)
}

impl NodeReportRequest {
    /// A message that reads back as itself: its header and IEs are well
    /// formed, the Node ID and Node Report Type IEs carry the decoded values,
    /// every list holds IEs of its type, and the other IEs repeat a field's
    /// type only where reading them would not fill that field.
    pub open spec fn well_formed(&self) -> bool {
        &&& header_wf(self.header)
        &&& ies_wf(concat_slots(self.slots()))
        &&& self.node_id_ie@ == (IeView { ie_type: IeType::NodeId, payload: node_id_bytes(self.node_id@) })
        &&& self.node_report_type_ie@ == (IeView {
            ie_type: IeType::NodeReportType,
            payload: seq![node_report_type_octet(self.node_report_type)],
        })
        &&& (self.user_plane_path_failure_report matches Some(f) ==> f.ie_type == IeType::UserPlanePathFailureReport)
        &&& list_in(ies_view(self.user_plane_path_recovery_reports@), 0)
        &&& list_in(ies_view(self.clock_drift_reports@), 1)
        &&& list_in(ies_view(self.gtpu_path_qos_reports@), 2)
        &&& list_in(ies_view(self.peer_up_restart_reports@), 3)
        &&& list_in(ies_view(self.vendor_specific_node_report_types@), 4)
        &&& list_in(ies_view(self.ies@), 5)
        &&& forall|i: int|
            0 <= i < self.ies@.len() && (#[trigger] self.ies@[i]).ie_type == IeType::UserPlanePathFailureReport
                ==> self.user_plane_path_failure_report is Some
    }
}

/// Reading the wire form of well-formed IEs is reading the IEs.
pub proof fn lemma_scan_bytes_wire(s: Seq<IeView>, st: NodeReportScan)
    requires
        ies_wf(s),
    ensures
        scan_bytes(ies_wire(s), st) == scan_ies(s, st),
    decreases s.len(),
{
    if s.len() == 0 {
        assert(ies_wire(s) =~= Seq::<u8>::empty());
    } else {
        let head = s[0];
        let tail = s.skip(1);
        assert(s =~= seq![head] + tail);
        assert(ie_wf(s[0]));
        assert(ies_wf(tail)) by {
            assert forall|i: int| 0 <= i < tail.len() implies #[trigger] ie_wf(tail[i]) by {
                assert(tail[i] == s[i + 1]);
            }
        }
        lemma_ies_wire_cons(head, tail);
        lemma_parse_ie_wire(head, ies_wire(tail));
        let w = ies_wire(s);
        let n = (4 + head.payload.len()) as nat;
        assert(ie_wire(head).len() == n);
        assert(w.skip(n as int) =~= ies_wire(tail));
        match scan_step(st, head) {
            Err(e) => {},
            Ok(st2) => {
                lemma_scan_bytes_wire(tail, st2);
            },
        }
    }
}

/// Reading `a + b` is reading `a`, then `b`.
pub proof fn lemma_scan_ies_append(a: Seq<IeView>, b: Seq<IeView>, st: NodeReportScan)
    ensures
        scan_ies(a + b, st) == (match scan_ies(a, st) {
            Err(e) => Err(e),
            Ok(st2) => scan_ies(b, st2),
        }),
    decreases a.len(),
{
    if a.len() == 0 {
        assert(a + b =~= b);
    } else {
        assert((a + b)[0] == a[0]);
        assert((a + b).skip(1) =~= a.skip(1) + b);
        match scan_step(st, a[0]) {
            Err(e) => {},
            Ok(st2) => {
                lemma_scan_ies_append(a.skip(1), b, st2);
            },
        }
    }
}

/// Reading IEs that all join list `k` appends them to that list.
pub proof fn lemma_scan_list(l: Seq<IeView>, st: NodeReportScan, k: int)
    requires
        0 <= k < 6,
        st.lists.len() == 6,
        list_in(l, k),
        forall|i: int| 0 <= i < l.len() ==> joins_list(st, #[trigger] l[i]),
    ensures
        scan_ies(l, st) == Ok::<NodeReportScan, PfcpError>(NodeReportScan { lists: st.lists.update(k, st.lists[k] + l), ..st }),
    decreases l.len(),
{
    if l.len() == 0 {
        assert(st.lists.update(k, st.lists[k] + l) =~= st.lists);
        assert(NodeReportScan { lists: st.lists.update(k, st.lists[k] + l), ..st } =~= st);
    } else {
        let x = l[0];
        assert(report_list(l[0].ie_type) == k);
        assert(joins_list(st, l[0]));
        let st2 = NodeReportScan { lists: st.lists.update(k, st.lists[k].push(x)), ..st };
        assert(scan_step(st, x) == Ok::<NodeReportScan, PfcpError>(st2));
        let t = l.skip(1);
        assert forall|i: int| 0 <= i < t.len() implies report_list(#[trigger] t[i].ie_type) == k by {
            assert(t[i] == l[i + 1]);
        }
        assert forall|i: int| 0 <= i < t.len() implies joins_list(st2, #[trigger] t[i]) by {
            assert(t[i] == l[i + 1]);
            assert(joins_list(st, l[i + 1]));
        }
        lemma_scan_list(t, st2, k);
        assert(st2.lists[k] + t =~= st.lists[k] + l);
        assert(st2.lists.update(k, st2.lists[k] + t) =~= st.lists.update(k, st.lists[k] + l));
    }
}

/// Reading a single IE.
proof fn lemma_scan_one(x: IeView, st: NodeReportScan)
    ensures
        scan_ies(seq![x], st) == scan_step(st, x),
{
    assert(seq![x].skip(1) =~= Seq::<IeView>::empty());
    assert(seq![x][0] == x);
    match scan_step(st, x) {
        Err(e) => {},
        Ok(st2) => {
            assert(scan_ies(Seq::<IeView>::empty(), st2) == Ok::<NodeReportScan, PfcpError>(st2));
        },
    }
}

/// Reading the lists of a well-formed message, after its fields, fills the lists.
#[verifier::spinoff_prover]
proof fn lemma_scan_tail(m: NodeReportRequest, st3: NodeReportScan)
    requires
        m.well_formed(),
        st3.node_id is Some,
        st3.node_report_type is Some,
        st3.failure == opt_ie_view(m.user_plane_path_failure_report),
        st3.lists =~= scan_start().lists,
    ensures
        scan_ies(
            ies_view(m.user_plane_path_recovery_reports@) + ies_view(m.clock_drift_reports@) + ies_view(
                m.gtpu_path_qos_reports@,
            ) + ies_view(m.peer_up_restart_reports@) + ies_view(m.vendor_specific_node_report_types@) + ies_view(
                m.ies@,
            ),
            st3,
        ) == Ok::<NodeReportScan, PfcpError>(
            NodeReportScan {
                lists: seq![
                    ies_view(m.user_plane_path_recovery_reports@),
                    ies_view(m.clock_drift_reports@),
                    ies_view(m.gtpu_path_qos_reports@),
                    ies_view(m.peer_up_restart_reports@),
                    ies_view(m.vendor_specific_node_report_types@),
                    ies_view(m.ies@),
                ],
                ..st3
            },
        ),
{
    let s3 = ies_view(m.user_plane_path_recovery_reports@);
    let s4 = ies_view(m.clock_drift_reports@);
    let s5 = ies_view(m.gtpu_path_qos_reports@);
    let s6 = ies_view(m.peer_up_restart_reports@);
    let s7 = ies_view(m.vendor_specific_node_report_types@);
    let s8 = ies_view(m.ies@);
    assert forall|i: int| 0 <= i < s3.len() implies joins_list(st3, #[trigger] s3[i]) by {
        assert(report_list(s3[i].ie_type) == 0);
    }
    lemma_scan_list(s3, st3, 0);
    let st4 = NodeReportScan { lists: st3.lists.update(0, st3.lists[0] + s3), ..st3 };
    
    assert forall|i: int| 0 <= i < s4.len() implies joins_list(st4, #[trigger] s4[i]) by {
        assert(report_list(s4[i].ie_type) == 1);
    }
    lemma_scan_list(s4, st4, 1);
    let st5 = NodeReportScan { lists: st4.lists.update(1, st4.lists[1] + s4), ..st4 };
    lemma_scan_ies_append(s3, s4, st3);
    assert forall|i: int| 0 <= i < s5.len() implies joins_list(st5, #[trigger] s5[i]) by {
        assert(report_list(s5[i].ie_type) == 2);
    }
    lemma_scan_list(s5, st5, 2);
    let st6 = NodeReportScan { lists: st5.lists.update(2, st5.lists[2] + s5), ..st5 };
    lemma_scan_ies_append(s3 + s4, s5, st3);
    assert forall|i: int| 0 <= i < s6.len() implies joins_list(st6, #[trigger] s6[i]) by {
        assert(report_list(s6[i].ie_type) == 3);
    }
    lemma_scan_list(s6, st6, 3);
    let st7 = NodeReportScan { lists: st6.lists.update(3, st6.lists[3] + s6), ..st6 };
    lemma_scan_ies_append(s3 + s4 + s5, s6, st3);
    assert forall|i: int| 0 <= i < s7.len() implies joins_list(st7, #[trigger] s7[i]) by {
        assert(report_list(s7[i].ie_type) == 4);
    }
    lemma_scan_list(s7, st7, 4);
    let st8 = NodeReportScan { lists: st7.lists.update(4, st7.lists[4] + s7), ..st7 };
    lemma_scan_ies_append(s3 + s4 + s5 + s6, s7, st3);
    assert forall|i: int| 0 <= i < s8.len() implies joins_list(st8, #[trigger] s8[i]) by {
        assert(s8[i] == m.ies@[i]@);
        if s8[i].ie_type == IeType::UserPlanePathFailureReport {
            assert(m.ies@[i].ie_type == IeType::UserPlanePathFailureReport);
        }
    }
    lemma_scan_list(s8, st8, 5);
    let st9 = NodeReportScan { lists: st8.lists.update(5, st8.lists[5] + s8), ..st8 };
    lemma_scan_ies_append(s3 + s4 + s5 + s6 + s7, s8, st3);
    assert(st9.lists =~= seq![s3, s4, s5, s6, s7, s8]);
}

/// Reading the fields of a well-formed message fills them.
#[verifier::spinoff_prover]
proof fn lemma_scan_head(m: NodeReportRequest)
    requires
        m.well_formed(),
    ensures
        scan_ies(
            seq![m.node_id_ie@] + seq![m.node_report_type_ie@] + opt_ie_seq(m.user_plane_path_failure_report),
            scan_start(),
        ) == Ok::<NodeReportScan, PfcpError>(
            NodeReportScan {
                node_id: Some((m.node_id@, m.node_id_ie@)),
                node_report_type: Some((m.node_report_type, m.node_report_type_ie@)),
                failure: opt_ie_view(m.user_plane_path_failure_report),
                lists: scan_start().lists,
            },
        ),
{
    let s0 = seq![m.node_id_ie@];
    let s1 = seq![m.node_report_type_ie@];
    let s2 = opt_ie_seq(m.user_plane_path_failure_report);
    let st0 = scan_start();
    lemma_node_id_roundtrip(m.node_id@);
    lemma_scan_one(m.node_id_ie@, st0);
    let st1 = NodeReportScan { node_id: Some((m.node_id@, m.node_id_ie@)), ..st0 };
    assert(scan_ies(s0, st0) == Ok::<NodeReportScan, PfcpError>(st1));
    lemma_node_report_type_roundtrip(m.node_report_type);
    lemma_scan_one(m.node_report_type_ie@, st1);
    let st2 = NodeReportScan { node_report_type: Some((m.node_report_type, m.node_report_type_ie@)), ..st1 };
    lemma_scan_ies_append(s0, s1, st0);
    assert(scan_ies(s0 + s1, st0) == Ok::<NodeReportScan, PfcpError>(st2));
    let st3 = NodeReportScan { failure: opt_ie_view(m.user_plane_path_failure_report), ..st2 };
    match m.user_plane_path_failure_report {
        Some(f) => {
            lemma_scan_one(f@, st2);
        },
        None => {
            assert(scan_ies(s2, st2) == Ok::<NodeReportScan, PfcpError>(st2));
            assert(st3 =~= st2);
        },
    }
    lemma_scan_ies_append(s0 + s1, s2, st0);
}

/// The body of a message is its fields' IEs, then its lists.
proof fn lemma_body_parts(m: NodeReportRequest)
    ensures
        concat_slots(m.slots()) == (seq![m.node_id_ie@] + seq![m.node_report_type_ie@] + opt_ie_seq(
            m.user_plane_path_failure_report,
        )) + (ies_view(m.user_plane_path_recovery_reports@) + ies_view(m.clock_drift_reports@) + ies_view(
            m.gtpu_path_qos_reports@,
        ) + ies_view(m.peer_up_restart_reports@) + ies_view(m.vendor_specific_node_report_types@) + ies_view(
            m.ies@,
        )),
{
    let a0 = Seq::<Seq<IeView>>::empty();
    let a1 = a0.push(seq![m.node_id_ie@]);
    let a2 = a1.push(seq![m.node_report_type_ie@]);
    let a3 = a2.push(opt_ie_seq(m.user_plane_path_failure_report));
    let a4 = a3.push(ies_view(m.user_plane_path_recovery_reports@));
    let a5 = a4.push(ies_view(m.clock_drift_reports@));
    let a6 = a5.push(ies_view(m.gtpu_path_qos_reports@));
    let a7 = a6.push(ies_view(m.peer_up_restart_reports@));
    let a8 = a7.push(ies_view(m.vendor_specific_node_report_types@));
    lemma_concat_slots_push(a0, seq![m.node_id_ie@]);
    lemma_concat_slots_push(a1, seq![m.node_report_type_ie@]);
    lemma_concat_slots_push(a2, opt_ie_seq(m.user_plane_path_failure_report));
    lemma_concat_slots_push(a3, ies_view(m.user_plane_path_recovery_reports@));
    lemma_concat_slots_push(a4, ies_view(m.clock_drift_reports@));
    lemma_concat_slots_push(a5, ies_view(m.gtpu_path_qos_reports@));
    lemma_concat_slots_push(a6, ies_view(m.peer_up_restart_reports@));
    lemma_concat_slots_push(a7, ies_view(m.vendor_specific_node_report_types@));
    lemma_concat_slots_push(a8, ies_view(m.ies@));
    assert(concat_slots(a0) =~= Seq::<IeView>::empty());
    assert(concat_slots(m.slots()) =~= (seq![m.node_id_ie@] + seq![m.node_report_type_ie@] + opt_ie_seq(
        m.user_plane_path_failure_report,
    )) + (ies_view(m.user_plane_path_recovery_reports@) + ies_view(m.clock_drift_reports@) + ies_view(
        m.gtpu_path_qos_reports@,
    ) + ies_view(m.peer_up_restart_reports@) + ies_view(m.vendor_specific_node_report_types@) + ies_view(m.ies@)));
}

/// A well-formed Node Report Request reads back as itself: decoding its wire
/// form gives its header and fields.
pub proof fn lemma_node_report_request_roundtrip(m: NodeReportRequest)
    requires
        m.well_formed(),
    ensures
        NodeReportRequest::decode_error(m.wire()) is None,
        NodeReportRequest::spec_decoded(m.wire(), m),
{
    let body = concat_slots(m.slots());
    lemma_header_roundtrip(m.header, ies_wire(body));
    lemma_header_wire_len(m.header);
    assert((header_wire(m.header) + ies_wire(body)).skip(header_size(m.header) as int) =~= ies_wire(body));
    lemma_scan_bytes_wire(body, scan_start());
    let head = seq![m.node_id_ie@] + seq![m.node_report_type_ie@] + opt_ie_seq(m.user_plane_path_failure_report);
    let tail = ies_view(m.user_plane_path_recovery_reports@) + ies_view(m.clock_drift_reports@) + ies_view(
        m.gtpu_path_qos_reports@,
    ) + ies_view(m.peer_up_restart_reports@) + ies_view(m.vendor_specific_node_report_types@) + ies_view(m.ies@);
    lemma_body_parts(m);
    lemma_scan_head(m);
    let st3 = NodeReportScan {
        node_id: Some((m.node_id@, m.node_id_ie@)),
        node_report_type: Some((m.node_report_type, m.node_report_type_ie@)),
        failure: opt_ie_view(m.user_plane_path_failure_report),
        lists: scan_start().lists,
    };
    lemma_scan_tail(m, st3);
    lemma_scan_ies_append(head, tail, scan_start());
    let st9 = NodeReportScan {
        lists: seq![
            ies_view(m.user_plane_path_recovery_reports@),
            ies_view(m.clock_drift_reports@),
            ies_view(m.gtpu_path_qos_reports@),
            ies_view(m.peer_up_restart_reports@),
            ies_view(m.vendor_specific_node_report_types@),
            ies_view(m.ies@),
        ],
        ..st3
    };
    assert(scan_ies(body, scan_start()) == Ok::<NodeReportScan, PfcpError>(st9));
    assert(m.matches_scan(st9));
}

} // verus!
