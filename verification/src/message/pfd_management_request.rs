//! PFD Management Request message (3GPP TS 29.244 clause 7.4.3.1).
//!
//! The Node ID and the Application ID's PFDs are kept decoded: they are
//! decoded while the message is read, a second Node ID is refused, and both
//! are written from their values. All other IEs are kept as they came.
use crate::error::PfcpError;
use crate::ie::application_ids_pfds::{
    app_pfds_ie, app_pfds_wf, lemma_app_pfds_roundtrip, spec_parse_app_pfds, AppPfdsView, ApplicationIdsPfds,
};
use crate::ie::node_id::{lemma_node_id_roundtrip, node_id_bytes, spec_parse_node_id, NodeId, NodeIdView};
use crate::ie::{
    ie_refs_view, ie_wf, ie_wire, ies_of_type, lemma_ies_wire_cons, lemma_parse_ie_wire, ies_size, ies_view,
    ies_wf, ies_wire, lemma_ies_size_append, lemma_ies_wire_append, parse_ie_at, spec_parse_ie, Ie, IeType, IeView,
};
use crate::message::header::{
    header_size, header_wf, header_wire, lemma_header_roundtrip, lemma_header_wire_len, spec_parse_header, Header,
};
use crate::message::ie_iter::IeIter;
use crate::message::slots::{append_many, lemma_len_step, refs_many, size_many, size_one};
use crate::message::{lemma_parse_header_size, message_header, Message, MsgType};
use vstd::prelude::*;

verus! {

/// A PFD Management Request message.
#[derive(Debug, Clone, PartialEq, Eq)]
pub struct PfdManagementRequest {
    pub header: Header,
    pub node_id: Option<NodeId>,
    pub application_ids_pfds: Option<Vec<ApplicationIdsPfds>>,
    pub ies: Vec<Ie>,
}

/// The Node ID IE carrying `n`.
pub open spec fn node_id_ie(n: NodeIdView) -> IeView {
    IeView { ie_type: IeType::NodeId, payload: node_id_bytes(n) }
}

/// The value of an optional Node ID.
pub open spec fn opt_node_id_view(o: Option<NodeId>) -> Option<NodeIdView> {
    match o {
        Some(n) => Some(n@),
        None => None,
    }
}

/// The value of an optional list of Application ID's PFDs.
pub open spec fn opt_apps_view(o: Option<Vec<ApplicationIdsPfds>>) -> Option<Seq<AppPfdsView>> {
    match o {
        Some(v) => Some(v@.map_values(|a: ApplicationIdsPfds| a@)),
        None => None,
    }
}

/// The IE of an optional Node ID.
pub open spec fn node_id_ies(o: Option<NodeIdView>) -> Seq<IeView> {
    match o {
        Some(n) => seq![node_id_ie(n)],
        None => Seq::empty(),
    }
}

/// The IEs of a list of Application ID's PFDs.
pub open spec fn apps_ies(s: Seq<AppPfdsView>) -> Seq<IeView> {
    s.map_values(|a: AppPfdsView| app_pfds_ie(a))
}

/// The IEs of an optional list of Application ID's PFDs.
pub open spec fn opt_apps_ies(o: Option<Seq<AppPfdsView>>) -> Seq<IeView> {
    match o {
        Some(s) => apps_ies(s),
        None => Seq::empty(),
    }
}

/// The items of an optional list, none when there is no list.
pub open spec fn apps_or_empty(o: Option<Seq<AppPfdsView>>) -> Seq<AppPfdsView> {
    match o {
        Some(s) => s,
        None => Seq::empty(),
    }
}

/// The first IE of `s`, if any, as a sequence of at most one IE.
pub open spec fn first_only(s: Seq<IeView>) -> Seq<IeView> {
    if s.len() == 0 {
        Seq::empty()
    } else {
        seq![s[0]]
    }
}

/// What has been read of a PFD Management Request body so far.
pub struct PfdRequestScan {
    pub node_id: Option<NodeIdView>,
    pub application_ids_pfds: Option<Seq<AppPfdsView>>,
    pub ies: Seq<IeView>,
}

/// Nothing read yet.
pub open spec fn pfd_scan_start() -> PfdRequestScan {
    PfdRequestScan { node_id: None, application_ids_pfds: None, ies: Seq::empty() }
}

/// Reading one more IE: a Node ID is decoded and may come once, every
/// Application ID's PFDs is decoded and added, all other IEs are kept.
pub open spec fn pfd_scan_step(st: PfdRequestScan, ie: IeView) -> Result<PfdRequestScan, PfcpError> {
    if ie.ie_type == IeType::NodeId {
        if st.node_id is Some {
            Err(PfcpError::DuplicateIe { ie_type: IeType::NodeId, message_type: Some(MsgType::PfdManagementRequest) })
        } else {
            match spec_parse_node_id(ie.payload) {
                Ok(n) => Ok(PfdRequestScan { node_id: Some(n), ..st }),
                Err(e) => Err(e),
            }
        }
    } else if ie.ie_type == IeType::ApplicationIdsPfds {
        match spec_parse_app_pfds(ie.payload) {
            Ok(a) => Ok(PfdRequestScan { application_ids_pfds: Some(apps_or_empty(st.application_ids_pfds).push(a)), ..st }),
            Err(e) => Err(e),
        }
    } else {
        Ok(PfdRequestScan { ies: st.ies.push(ie), ..st })
    }
}

/// Reading the IEs of `s` one after the other, from state `st`; the first IE
/// that cannot be read or decoded ends the reading with its error.
pub open spec fn pfd_scan_bytes(s: Seq<u8>, st: PfdRequestScan) -> Result<PfdRequestScan, PfcpError>
    decreases s.len(),
{
    if s.len() == 0 {
        Ok(st)
    } else {
        match spec_parse_ie(s) {
            Err(e) => Err(e),
            Ok((ie, n)) => if n == 0 {
                Err(PfcpError::InvalidLength { ie_type: None, expected: 4, actual: 0 })
            } else {
                match pfd_scan_step(st, ie) {
                    Err(e) => Err(e),
                    Ok(st2) => pfd_scan_bytes(s.skip(n as int), st2),
                }
            },
        }
    }
}

/// Reading the IEs `s` one after the other, from state `st`.
pub open spec fn pfd_scan_ies(s: Seq<IeView>, st: PfdRequestScan) -> Result<PfdRequestScan, PfcpError>
    decreases s.len(),
{
    if s.len() == 0 {
        Ok(st)
    } else {
        match pfd_scan_step(st, s[0]) {
            Err(e) => Err(e),
            Ok(st2) => pfd_scan_ies(s.skip(1), st2),
        }
    }
}

/// The state that these exec values stand for.
pub open spec fn pfd_scan_of(node_id: Option<NodeId>, apps: Option<Vec<ApplicationIdsPfds>>, ies: Seq<Ie>) -> PfdRequestScan {
    PfdRequestScan { node_id: opt_node_id_view(node_id), application_ids_pfds: opt_apps_view(apps), ies: ies_view(ies) }
}

impl PfdManagementRequest {
    /// The IEs of the message in wire order: the Node ID, the Application
    /// ID's PFDs, then the other IEs.
    pub open spec fn body(&self) -> Seq<IeView> {
        node_id_ies(opt_node_id_view(self.node_id)) + opt_apps_ies(opt_apps_view(self.application_ids_pfds)) + ies_view(
            self.ies@,
        )
    }

    /// The wire form of the message.
    pub open spec fn wire(&self) -> Seq<u8> {
        header_wire(self.header) + ies_wire(self.body())
    }

    /// Reading a body ended in `st` and gave these fields.
    pub open spec fn matches_scan(&self, st: PfdRequestScan) -> bool {
        &&& st.node_id == opt_node_id_view(self.node_id)
        &&& st.application_ids_pfds == opt_apps_view(self.application_ids_pfds)
        &&& st.ies == ies_view(self.ies@)
    }

    /// The error that ends reading `data`, if any.
    pub open spec fn decode_error(data: Seq<u8>) -> Option<PfcpError> {
        match spec_parse_header(data) {
            Err(e) => Some(e),
            Ok(h) => match pfd_scan_bytes(data.skip(header_size(h) as int), pfd_scan_start()) {
                Err(e) => Some(e),
                Ok(_) => None,
            },
        }
    }

    /// A message that reads back as itself: its header and IEs can be
    /// written, every Application ID's PFDs fits its IEs, a list of them is
    /// never empty, and the other IEs hold no Node ID or Application ID's PFDs.
    pub open spec fn well_formed(&self) -> bool {
        &&& header_wf(self.header)
        &&& ies_wf(self.body())
        &&& (self.application_ids_pfds matches Some(v) ==> v@.len() > 0)
        &&& forall|i: int|
            0 <= i < apps_or_empty(opt_apps_view(self.application_ids_pfds)).len() ==> app_pfds_wf(
                #[trigger] apps_or_empty(opt_apps_view(self.application_ids_pfds))[i],
            )
        &&& forall|i: int|
            0 <= i < self.ies@.len() ==> (#[trigger] self.ies@[i]).ie_type != IeType::NodeId && self.ies@[i].ie_type
                != IeType::ApplicationIdsPfds
    }

    /// Creates a PFD Management Request message; the header length covers
    /// the IEs written from the given fields.
    pub fn new(
        seq: u32,
        node_id: Option<NodeId>,
        application_ids_pfds: Option<Vec<ApplicationIdsPfds>>,
        ies: Vec<Ie>,
    ) -> (r: Self)
        ensures
            r.header == message_header(MsgType::PfdManagementRequest, false, 0, seq, r.body()),
            r.node_id == node_id,
            r.application_ids_pfds == application_ids_pfds,
            r.ies == ies,
    {
        let ghost nid = node_id_ies(opt_node_id_view(node_id));
        let mut len: u16 = 0;
        match &node_id {
            Some(n) => {
                let ie = n.to_ie();
                len = size_one(len, &ie);
                assert(seq![ie@] =~= nid);
            },
            None => {
                assert(ies_size(nid) == 0);
            },
        }
        let ghost apps = apps_or_empty(opt_apps_view(application_ids_pfds));
        match &application_ids_pfds {
            Some(v) => {
                let mut i: usize = 0;
                while i < v.len()
                    invariant
                        i <= v@.len(),
                        apps == v@.map_values(|a: ApplicationIdsPfds| a@),
                        len == ies_size(nid + apps_ies(apps.take(i as int))) % 65536,
                    decreases v@.len() - i,
                {
                    let ie = v[i].to_ie();
                    let ghost before = nid + apps_ies(apps.take(i as int));
                    let ghost l0 = len;
                    len = size_one(len, &ie);
                    proof {
                        assert(nid + apps_ies(apps.take(i + 1)) =~= before + seq![ie@]);
                        lemma_ies_size_append(before, seq![ie@]);
                        lemma_len_step(ies_size(before) as int, ies_size(seq![ie@]) as int, l0 as int);
                    }
                    i = i + 1;
                }
                assert(apps.take(i as int) =~= apps);
            },
            None => {
                assert(apps_ies(apps.take(0)) =~= Seq::<IeView>::empty());
                assert(nid + apps_ies(apps.take(0)) =~= nid);
                assert(apps =~= Seq::<AppPfdsView>::empty());
            },
        }
        let ghost head = nid + opt_apps_ies(opt_apps_view(application_ids_pfds));
        assert(head =~= nid + apps_ies(apps));
        let before_ies = len;
        len = size_many(len, &ies);
        proof {
            lemma_ies_size_append(head, ies_view(ies@));
            lemma_len_step(ies_size(head) as int, ies_size(ies_view(ies@)) as int, before_ies as int);
        }
        let mut header = Header::new(MsgType::PfdManagementRequest, false, 0, seq);
        proof {
            lemma_len_step(ies_size(head + ies_view(ies@)) as int, header_size(header) as int - 4, len as int);
        }
        header.length = ((len as u32 + header.len() as u32 - 4) % 65536) as u16;
        PfdManagementRequest { header, node_id, application_ids_pfds, ies }
    }
}

impl Message for PfdManagementRequest {
    open spec fn spec_header(&self) -> Header {
        self.header
    }

    open spec fn spec_body(&self) -> Seq<IeView> {
        self.body()
    }

    /// Only the IEs kept as they came are listed.
    open spec fn spec_listed(&self) -> Seq<IeView> {
        ies_view(self.ies@)
    }

    /// The Node ID and the Application ID's PFDs are read from their fields,
    /// not as IEs; of the other types, only the first IE is given.
    open spec fn spec_ies_of(&self, t: IeType) -> Seq<IeView> {
        match t {
            IeType::NodeId => Seq::empty(),
            IeType::ApplicationIdsPfds => Seq::empty(),
            _ => first_only(ies_of_type(ies_view(self.ies@), t)),
        }
    }

    open spec fn spec_msg_type(&self) -> MsgType {
        MsgType::PfdManagementRequest
    }

    open spec fn spec_decode_error(data: Seq<u8>) -> Option<PfcpError> {
        Self::decode_error(data)
    }

    open spec fn spec_decoded(data: Seq<u8>, m: Self) -> bool {
        match spec_parse_header(data) {
            Err(_) => false,
            Ok(h) => match pfd_scan_bytes(data.skip(header_size(h) as int), pfd_scan_start()) {
                Err(_) => false,
                Ok(st) => m.header == h && m.matches_scan(st),
            },
        }
    }

    fn marshal_into(&self, buf: &mut Vec<u8>) {
        self.header.marshal_into(buf);
        let ghost p = buf@;
        let ghost nid = node_id_ies(opt_node_id_view(self.node_id));
        match &self.node_id {
            Some(n) => {
                let ie = n.to_ie();
                ie.marshal_into(buf);
                proof {
                    assert(seq![ie@] =~= nid);
                    assert(nid.drop_last() =~= Seq::<IeView>::empty());
                    assert(ies_wire(Seq::<IeView>::empty()) =~= Seq::<u8>::empty());
                    assert(buf@ =~= p + ies_wire(nid));
                }
            },
            None => {
                assert(ies_wire(nid) =~= Seq::<u8>::empty());
                assert(buf@ =~= p + ies_wire(nid));
            },
        }
        let ghost apps = apps_or_empty(opt_apps_view(self.application_ids_pfds));
        match &self.application_ids_pfds {
            Some(v) => {
                let mut i: usize = 0;
                assert(nid + apps_ies(apps.take(0)) =~= nid);
                while i < v.len()
                    invariant
                        i <= v@.len(),
                        apps == v@.map_values(|a: ApplicationIdsPfds| a@),
                        buf@ == p + ies_wire(nid + apps_ies(apps.take(i as int))),
                    decreases v@.len() - i,
                {
                    let ie = v[i].to_ie();
                    let ghost before = nid + apps_ies(apps.take(i as int));
                    ie.marshal_into(buf);
                    proof {
                        let next = nid + apps_ies(apps.take(i + 1));
                        assert(next =~= before.push(ie@));
                        assert(next.drop_last() =~= before);
                    }
                    i = i + 1;
                }
                assert(apps.take(i as int) =~= apps);
            },
            None => {
                assert(apps =~= Seq::<AppPfdsView>::empty());
                assert(apps_ies(apps) =~= Seq::<IeView>::empty());
                assert(nid + apps_ies(apps) =~= nid);
            },
        }
        let ghost head = nid + opt_apps_ies(opt_apps_view(self.application_ids_pfds));
        assert(head =~= nid + apps_ies(apps));
        append_many(buf, &self.ies);
        proof {
            lemma_ies_wire_append(head, ies_view(self.ies@));
        }
        assert(buf@ =~= old(buf)@ + header_wire(self.header) + ies_wire(self.body()));
    }

    fn marshal(&self) -> (r: Vec<u8>) {
        let mut buf: Vec<u8> = Vec::new();
        self.marshal_into(&mut buf);
        assert(buf@ =~= header_wire(self.header) + ies_wire(self.body()));
        buf
    }

    fn marshaled_size(&self) -> (r: usize) {
        let v = self.marshal();
        v.len()
    }

    fn unmarshal(data: &[u8]) -> (r: Result<Self, PfcpError>) {
        let header = match Header::unmarshal(data) {
            Ok(h) => h,
            Err(e) => return Err(e),
        };
        proof {
            lemma_parse_header_size(data@);
        }
        let start = header.len() as usize;
        let mut node_id: Option<NodeId> = None;
        let mut apps: Option<Vec<ApplicationIdsPfds>> = None;
        let mut ies: Vec<Ie> = Vec::new();
        proof {
            assert(ies_view(ies@) =~= Seq::<IeView>::empty());
            assert(pfd_scan_of(node_id, apps, ies@) =~= pfd_scan_start());
        }
        let mut offset = start;
        while offset < data.len()
            invariant
                start <= offset <= data@.len(),
                spec_parse_header(data@) == Ok::<Header, PfcpError>(header),
                start == header_size(header),
                pfd_scan_bytes(data@.skip(start as int), pfd_scan_start()) == pfd_scan_bytes(
                    data@.skip(offset as int),
                    pfd_scan_of(node_id, apps, ies@),
                ),
            decreases data@.len() - offset,
        {
            let ghost s = data@.skip(offset as int);
            let ghost st = pfd_scan_of(node_id, apps, ies@);
            let (ie, n) = match parse_ie_at(data, offset) {
                Ok(x) => x,
                Err(e) => {
                    assert(pfd_scan_bytes(s, st) == Err::<PfdRequestScan, PfcpError>(e));
                    return Err(e);
                },
            };
            let ghost iev = ie@;
            assert(s.skip(n as int) =~= data@.skip(offset + n));
            assert(pfd_scan_bytes(s, st) == (match pfd_scan_step(st, iev) {
                Err(e) => Err(e),
                Ok(st2) => pfd_scan_bytes(s.skip(n as int), st2),
            }));
            match ie.ie_type {
                IeType::NodeId => {
                    if node_id.is_some() {
                        return Err(
                            PfcpError::DuplicateIe {
                                ie_type: IeType::NodeId,
                                message_type: Some(MsgType::PfdManagementRequest),
                            },
                        );
                    }
                    match NodeId::unmarshal(ie.payload.as_slice()) {
                        Ok(v) => {
                            node_id = Some(v);
                        },
                        Err(e) => {
                            return Err(e);
                        },
                    }
                },
                IeType::ApplicationIdsPfds => {
                    match ApplicationIdsPfds::unmarshal(ie.payload.as_slice()) {
                        Ok(a) => {
                            let ghost prev = apps_or_empty(opt_apps_view(apps));
                            match apps {
                                Some(ref mut v) => {
                                    v.push(a);
                                },
                                None => {
                                    let mut v: Vec<ApplicationIdsPfds> = Vec::new();
                                    v.push(a);
                                    apps = Some(v);
                                },
                            }
                            proof {
                                assert(apps_or_empty(opt_apps_view(apps)) =~= prev.push(a@));
                            }
                        },
                        Err(e) => {
                            return Err(e);
                        },
                    }
                },
                _ => {
                    let ghost before = ies_view(ies@);
                    ies.push(ie);
                    proof {
                        assert(ies_view(ies@) =~= before.push(iev));
                    }
                },
            }
            proof {
                let st2 = pfd_scan_of(node_id, apps, ies@);
                assert(pfd_scan_step(st, iev) == Ok::<PfdRequestScan, PfcpError>(st2));
            }
            offset = offset + n;
        }
        assert(data@.skip(offset as int) =~= Seq::<u8>::empty());
        Ok(PfdManagementRequest { header, node_id, application_ids_pfds: apps, ies })
    }

    fn msg_type(&self) -> (r: MsgType) {
        MsgType::PfdManagementRequest
    }

    fn msg_name(&self) -> (r: String) {
        MsgType::PfdManagementRequest.name().to_owned()
    }

    fn version(&self) -> (r: u8) {
        1
    }

    fn seid(&self) -> (r: Option<u64>) {
        if self.header.has_seid {
            Some(self.header.seid)
        } else {
            None
        }
    }

    fn sequence(&self) -> (r: u32) {
        self.header.sequence_number
    }

    fn set_sequence(&mut self, seq: u32) {
        self.header.sequence_number = seq;
    }

    fn ies(&self, ie_type: IeType) -> (r: IeIter<'_>) {
        match ie_type {
            IeType::NodeId => IeIter::single(None, ie_type),
            IeType::ApplicationIdsPfds => IeIter::single(None, ie_type),
            _ => {
                let mut it = IeIter::generic(self.ies.as_slice(), ie_type);
                let first = it.next();
                IeIter::single(first, ie_type)
            },
        }
    }

    fn find_ie(&self, ie_type: IeType) -> (r: Option<&Ie>) {
        let mut it = self.ies(ie_type);
        it.next()
    }

    fn find_all_ies(&self, ie_type: IeType) -> (r: Vec<&Ie>) {
        self.ies(ie_type).collect()
    }

    fn all_ies(&self) -> (r: Vec<&Ie>) {
        let mut out: Vec<&Ie> = Vec::new();
        refs_many(&mut out, &self.ies);
        assert(ie_refs_view(out@) =~= ies_view(self.ies@));
        out
    }
}

/// Builder for PFD Management Request messages.
#[derive(Debug)]
pub struct PfdManagementRequestBuilder {
    pub sequence: u32,
    pub node_id: Option<NodeId>,
    pub application_ids_pfds: Option<Vec<ApplicationIdsPfds>>,
    pub ies: Vec<Ie>,
}

impl PfdManagementRequestBuilder {
    /// Creates a builder with nothing set.
    pub fn new(sequence: u32) -> (r: Self)
        ensures
            r.sequence == sequence,
            r.node_id is None,
            r.application_ids_pfds is None,
            r.ies@.len() == 0,
    {
        PfdManagementRequestBuilder { sequence, node_id: None, application_ids_pfds: None, ies: Vec::new() }
    }

    /// Sets the Node ID.
    pub fn node_id(self, node_id: NodeId) -> (r: Self)
        ensures
            r == (Self { node_id: Some(node_id), ..self }),
    {
        let mut s = self;
        s.node_id = Some(node_id);
        s
    }

    /// Adds an Application ID's PFDs after those already given.
    pub fn application_ids_pfds(self, application_ids_pfds: ApplicationIdsPfds) -> (r: Self)
        ensures
            r.application_ids_pfds matches Some(v) && v@ == (match self.application_ids_pfds {
                Some(old) => old@,
                None => Seq::<ApplicationIdsPfds>::empty(),
            }).push(application_ids_pfds),
            r.sequence == self.sequence,
            r.node_id == self.node_id,
            r.ies == self.ies,
    {
        let mut s = self;
        match s.application_ids_pfds {
            Some(ref mut v) => {
                v.push(application_ids_pfds);
            },
            None => {
                let mut v: Vec<ApplicationIdsPfds> = Vec::new();
                v.push(application_ids_pfds);
                s.application_ids_pfds = Some(v);
            },
        }
        s
    }

    /// Adds Application ID's PFDs after those already given; with none given
    /// yet, the list becomes `application_ids_pfds`, even when it is empty.
    pub fn application_ids_pfds_vec(self, application_ids_pfds: Vec<ApplicationIdsPfds>) -> (r: Self)
        ensures
            r.application_ids_pfds matches Some(v) && v@ == (match self.application_ids_pfds {
                Some(old) => old@ + application_ids_pfds@,
                None => application_ids_pfds@,
            }),
            r.sequence == self.sequence,
            r.node_id == self.node_id,
            r.ies == self.ies,
    {
        let mut s = self;
        let mut extra = application_ids_pfds;
        match s.application_ids_pfds {
            Some(ref mut v) => {
                v.append(&mut extra);
            },
            None => {
                s.application_ids_pfds = Some(extra);
            },
        }
        s
    }

    /// Adds an IE of another type.
    pub fn ie(self, ie: Ie) -> (r: Self)
        ensures
            r.ies@ == self.ies@.push(ie),
            r == (Self { ies: r.ies, ..self }),
    {
        let mut s = self;
        s.ies.push(ie);
        s
    }

    /// Adds IEs of other types, in order.
    pub fn ies(self, ies: Vec<Ie>) -> (r: Self)
        ensures
            r.ies@ == self.ies@ + ies@,
            r == (Self { ies: r.ies, ..self }),
    {
        let mut s = self;
        let mut extra = ies;
        s.ies.append(&mut extra);
        s
    }

    /// Builds the message: the fields given, under a header whose length
    /// covers their IEs.
    pub fn build(self) -> (r: PfdManagementRequest)
        ensures
            r.header == message_header(MsgType::PfdManagementRequest, false, 0, self.sequence, r.body()),
            r.node_id == self.node_id,
            r.application_ids_pfds == self.application_ids_pfds,
            r.ies == self.ies,
    {
        PfdManagementRequest::new(self.sequence, self.node_id, self.application_ids_pfds, self.ies)
    }
}

impl Default for PfdManagementRequestBuilder {
    /// A builder with sequence number 0 and nothing set.
    fn default() -> (r: Self)
        ensures
            r.sequence == 0,
            r.node_id is None,
            r.application_ids_pfds is None,
            r.ies@.len() == 0,
    {
        Self::new(0)
    }
}

/// Reading the wire form of well-formed IEs is reading the IEs.
pub proof fn lemma_pfd_scan_bytes_wire(s: Seq<IeView>, st: PfdRequestScan)
    requires
        ies_wf(s),
    ensures
        pfd_scan_bytes(ies_wire(s), st) == pfd_scan_ies(s, st),
    decreases s.len(),
{
    if s.len() == 0 {
        assert(ies_wire(s) =~= Seq::<u8>::empty());
    } else {
        let head = s[0];
        let tail = s.skip(1);
        assert(s =~= seq![head] + tail);
        assert(ie_wf(s[0]));
        assert(ies_wf(tail)) by {
            assert forall|i: int| 0 <= i < tail.len() implies #[trigger] ie_wf(tail[i]) by {
                assert(tail[i] == s[i + 1]);
            }
        }
        lemma_ies_wire_cons(head, tail);
        lemma_parse_ie_wire(head, ies_wire(tail));
        let w = ies_wire(s);
        let n = (4 + head.payload.len()) as nat;
        assert(ie_wire(head).len() == n);
        assert(w.skip(n as int) =~= ies_wire(tail));
        match pfd_scan_step(st, head) {
            Err(e) => {},
            Ok(st2) => {
                lemma_pfd_scan_bytes_wire(tail, st2);
            },
        }
    }
}

/// Reading `a + b` is reading `a`, then `b`.
pub proof fn lemma_pfd_scan_ies_append(a: Seq<IeView>, b: Seq<IeView>, st: PfdRequestScan)
    ensures
        pfd_scan_ies(a + b, st) == (match pfd_scan_ies(a, st) {
            Err(e) => Err(e),
            Ok(st2) => pfd_scan_ies(b, st2),
        }),
    decreases a.len(),
{
    if a.len() == 0 {
        assert(a + b =~= b);
    } else {
        assert((a + b)[0] == a[0]);
        assert((a + b).skip(1) =~= a.skip(1) + b);
        match pfd_scan_step(st, a[0]) {
            Err(e) => {},
            Ok(st2) => {
                lemma_pfd_scan_ies_append(a.skip(1), b, st2);
            },
        }
    }
}

/// Reading the IEs of well-formed Application ID's PFDs adds them to the list.
proof fn lemma_pfd_scan_apps(s: Seq<AppPfdsView>, st: PfdRequestScan)
    requires
        forall|i: int| 0 <= i < s.len() ==> app_pfds_wf(#[trigger] s[i]),
    ensures
        pfd_scan_ies(apps_ies(s), st) == Ok::<PfdRequestScan, PfcpError>(
            if s.len() == 0 {
                st
            } else {
                PfdRequestScan { application_ids_pfds: Some(apps_or_empty(st.application_ids_pfds) + s), ..st }
            },
        ),
    decreases s.len(),
{
    if s.len() == 0 {
        assert(apps_ies(s) =~= Seq::<IeView>::empty());
    } else {
        let x = apps_ies(s);
        assert(x[0] == app_pfds_ie(s[0]));
        assert(app_pfds_wf(s[0]));
        lemma_app_pfds_roundtrip(s[0]);
        let st2 = PfdRequestScan { application_ids_pfds: Some(apps_or_empty(st.application_ids_pfds).push(s[0])), ..st };
        assert(pfd_scan_step(st, x[0]) == Ok::<PfdRequestScan, PfcpError>(st2));
        let t = s.skip(1);
        assert(x.skip(1) =~= apps_ies(t));
        assert forall|i: int| 0 <= i < t.len() implies app_pfds_wf(#[trigger] t[i]) by {
            assert(t[i] == s[i + 1]);
        }
        lemma_pfd_scan_apps(t, st2);
        assert(apps_or_empty(st2.application_ids_pfds) + t =~= apps_or_empty(st.application_ids_pfds) + s);
        if t.len() == 0 {
            assert(apps_or_empty(st.application_ids_pfds).push(s[0]) =~= apps_or_empty(st.application_ids_pfds) + s);
        }
    }
}

/// Reading IEs that are neither Node IDs nor Application ID's PFDs keeps them.
proof fn lemma_pfd_scan_others(s: Seq<IeView>, st: PfdRequestScan)
    requires
        forall|i: int| 0 <= i < s.len() ==> (#[trigger] s[i]).ie_type != IeType::NodeId && s[i].ie_type != IeType::ApplicationIdsPfds,
    ensures
        pfd_scan_ies(s, st) == Ok::<PfdRequestScan, PfcpError>(PfdRequestScan { ies: st.ies + s, ..st }),
    decreases s.len(),
{
    if s.len() == 0 {
        assert(st.ies + s =~= st.ies);
    } else {
        let st2 = PfdRequestScan { ies: st.ies.push(s[0]), ..st };
        assert(s[0].ie_type != IeType::NodeId && s[0].ie_type != IeType::ApplicationIdsPfds);
        assert(pfd_scan_step(st, s[0]) == Ok::<PfdRequestScan, PfcpError>(st2));
        let t = s.skip(1);
        assert forall|i: int| 0 <= i < t.len() implies (#[trigger] t[i]).ie_type != IeType::NodeId && t[i].ie_type != IeType::ApplicationIdsPfds by {
            assert(t[i] == s[i + 1]);
        }
        lemma_pfd_scan_others(t, st2);
        assert(st2.ies + t =~= st.ies + s);
    }
}

/// Reading the IE of an optional Node ID from the start decodes it.
proof fn lemma_pfd_scan_node_id(n: Option<NodeId>)
    ensures
        pfd_scan_ies(node_id_ies(opt_node_id_view(n)), pfd_scan_start()) == Ok::<PfdRequestScan, PfcpError>(
            PfdRequestScan { node_id: opt_node_id_view(n), ..pfd_scan_start() },
        ),
{
    let st0 = pfd_scan_start();
    let st1 = PfdRequestScan { node_id: opt_node_id_view(n), ..st0 };
    let nid = node_id_ies(opt_node_id_view(n));
    match n {
        Some(x) => {
            lemma_node_id_roundtrip(x@);
            assert(nid[0] == node_id_ie(x@));
            assert(nid.skip(1) =~= Seq::<IeView>::empty());
            assert(pfd_scan_step(st0, nid[0]) == Ok::<PfdRequestScan, PfcpError>(st1));
            assert(pfd_scan_ies(Seq::<IeView>::empty(), st1) == Ok::<PfdRequestScan, PfcpError>(st1));
        },
        None => {
            assert(st1 == st0);
        },
    }
}

/// A well-formed PFD Management Request reads back as itself: decoding its
/// wire form gives its header, its Node ID, its Application ID's PFDs and
/// its other IEs.
#[verifier::spinoff_prover]
#[verifier::rlimit(40)]
pub proof fn lemma_pfd_management_request_roundtrip(m: PfdManagementRequest)
    requires
        m.well_formed(),
    ensures
        PfdManagementRequest::decode_error(m.wire()) is None,
        PfdManagementRequest::spec_decoded(m.wire(), m),
{
    let body = m.body();
    lemma_header_roundtrip(m.header, ies_wire(body));
    lemma_header_wire_len(m.header);
    assert((header_wire(m.header) + ies_wire(body)).skip(header_size(m.header) as int) =~= ies_wire(body));
    lemma_pfd_scan_bytes_wire(body, pfd_scan_start());
    let nid = node_id_ies(opt_node_id_view(m.node_id));
    let apps = apps_or_empty(opt_apps_view(m.application_ids_pfds));
    let others = ies_view(m.ies@);
    let st0 = pfd_scan_start();
    let st1 = PfdRequestScan { node_id: opt_node_id_view(m.node_id), ..st0 };
    lemma_pfd_scan_node_id(m.node_id);
    lemma_pfd_scan_apps(apps, st1);
    let st2 = PfdRequestScan { application_ids_pfds: opt_apps_view(m.application_ids_pfds), ..st1 };
    match m.application_ids_pfds {
        Some(v) => {
            assert(Seq::<AppPfdsView>::empty() + apps =~= apps);
        },
        None => {
            assert(apps =~= Seq::<AppPfdsView>::empty());
        },
    }
    assert(opt_apps_ies(opt_apps_view(m.application_ids_pfds)) =~= apps_ies(apps));
    assert(pfd_scan_ies(apps_ies(apps), st1) == Ok::<PfdRequestScan, PfcpError>(st2));
    assert forall|i: int| 0 <= i < others.len() implies (#[trigger] others[i]).ie_type != IeType::NodeId && others[i].ie_type != IeType::ApplicationIdsPfds by {
        assert(others[i] == m.ies@[i]@);
    }
    lemma_pfd_scan_others(others, st2);
    let st3 = PfdRequestScan { ies: st2.ies + others, ..st2 };
    assert(st2.ies + others =~= others);
    lemma_pfd_scan_ies_append(nid, apps_ies(apps), st0);
    lemma_pfd_scan_ies_append(nid + apps_ies(apps), others, st0);
    assert(body =~= nid + apps_ies(apps) + others);
    assert(pfd_scan_ies(body, st0) == Ok::<PfdRequestScan, PfcpError>(st3));
    assert(m.matches_scan(st3));
}

} // verus!
