//! The Application ID's PFDs IE: a grouped IE with the Application ID of an
//! application and the PFD Contexts provisioned for it.
use crate::error::PfcpError;
use crate::ie::application_id::{
    application_id_ie, lemma_application_id_roundtrip, spec_parse_application_id, ApplicationId,
};
use crate::ie::pfd_context::{pfd_context_ie, pfd_context_view, PfdContext};
use crate::ie::{ie_wf, ies_view, ies_wf, ies_wire, lemma_parse_ies_wire, parse_ies, spec_parse_ies, Ie, IeType, IeView};
use vstd::prelude::*;
use vstd::utf8::encode_utf8;

verus! {

/// An Application ID's PFDs: an application and its PFD Contexts.
#[derive(Debug, Clone, PartialEq, Eq)]
pub struct ApplicationIdsPfds {
    pub application_id: ApplicationId,
    pub pfd_contexts: Vec<PfdContext>,
}

/// The value of an Application ID's PFDs: the application's identifier and
/// the member IEs of each PFD Context.
pub struct AppPfdsView {
    pub application_id: Seq<char>,
    pub pfd_contexts: Seq<Seq<IeView>>,
}

impl View for ApplicationIdsPfds {
    type V = AppPfdsView;

    open spec fn view(&self) -> AppPfdsView {
        AppPfdsView {
            application_id: self.application_id.id@,
            pfd_contexts: self.pfd_contexts@.map_values(|c: PfdContext| pfd_context_view(c)),
        }
    }
}

/// One PFD Context IE for each member list, in order.
pub open spec fn contexts_ies(cs: Seq<Seq<IeView>>) -> Seq<IeView> {
    cs.map_values(|c: Seq<IeView>| pfd_context_ie(c))
}

/// The member IEs of an Application ID's PFDs IE: the Application ID, then
/// the PFD Contexts.
pub open spec fn app_pfds_members(v: AppPfdsView) -> Seq<IeView> {
    seq![application_id_ie(v.application_id)] + contexts_ies(v.pfd_contexts)
}

/// The Application ID's PFDs IE carrying `v`.
pub open spec fn app_pfds_ie(v: AppPfdsView) -> IeView {
    IeView { ie_type: IeType::ApplicationIdsPfds, payload: ies_wire(app_pfds_members(v)) }
}

/// A value whose IEs all fit their 16-bit length fields, so that it reads
/// back as itself.
pub open spec fn app_pfds_wf(v: AppPfdsView) -> bool {
    &&& encode_utf8(v.application_id).len() <= 65535
    &&& forall|i: int|
        0 <= i < v.pfd_contexts.len() ==> ies_wf(#[trigger] v.pfd_contexts[i]) && ies_wire(v.pfd_contexts[i]).len()
            <= 65535
}

/// What has been read of an Application ID's PFDs payload so far.
pub struct AppPfdsScan {
    pub application_id: Option<Seq<char>>,
    pub pfd_contexts: Seq<Seq<IeView>>,
}

/// Nothing read yet.
pub open spec fn app_scan_start() -> AppPfdsScan {
    AppPfdsScan { application_id: None, pfd_contexts: Seq::empty() }
}

/// Reading one member IE: the first Application ID is decoded, every PFD
/// Context is decoded and kept, all else is passed over.
pub open spec fn app_scan_step(st: AppPfdsScan, ie: IeView) -> Result<AppPfdsScan, PfcpError> {
    if ie.ie_type == IeType::ApplicationId && st.application_id is None {
        match spec_parse_application_id(ie.payload) {
            Ok(id) => Ok(AppPfdsScan { application_id: Some(id), ..st }),
            Err(e) => Err(e),
        }
    } else if ie.ie_type == IeType::PfdContext {
        match spec_parse_ies(ie.payload) {
            Ok(c) => Ok(AppPfdsScan { pfd_contexts: st.pfd_contexts.push(c), ..st }),
            Err(e) => Err(e),
        }
    } else {
        Ok(st)
    }
}

/// Reading the member IEs `s` one after the other, from state `st`.
pub open spec fn app_scan(s: Seq<IeView>, st: AppPfdsScan) -> Result<AppPfdsScan, PfcpError>
    decreases s.len(),
{
    if s.len() == 0 {
        Ok(st)
    } else {
        match app_scan_step(st, s[0]) {
            Err(e) => Err(e),
            Ok(st2) => app_scan(s.skip(1), st2),
        }
    }
}

/// Decoding an Application ID's PFDs payload: its member IEs are read in
/// order, and the Application ID must be among them.
pub open spec fn spec_parse_app_pfds(b: Seq<u8>) -> Result<AppPfdsView, PfcpError> {
    match spec_parse_ies(b) {
        Err(e) => Err(e),
        Ok(ies) => match app_scan(ies, app_scan_start()) {
            Err(e) => Err(e),
            Ok(st) => match st.application_id {
                None => Err(PfcpError::MissingMandatoryIe { ie_type: IeType::ApplicationId, message_type: None }),
                Some(id) => Ok(AppPfdsView { application_id: id, pfd_contexts: st.pfd_contexts }),
            },
        },
    }
}

/// The state that these exec values stand for.
pub open spec fn app_scan_of(id: Option<ApplicationId>, contexts: Seq<PfdContext>) -> AppPfdsScan {
    AppPfdsScan {
        application_id: match id {
            Some(a) => Some(a.id@),
            None => None,
        },
        pfd_contexts: contexts.map_values(|c: PfdContext| pfd_context_view(c)),
    }
}

impl ApplicationIdsPfds {
    /// An Application ID's PFDs with one PFD Context.
    pub fn new(application_id: ApplicationId, pfd_context: PfdContext) -> (r: ApplicationIdsPfds)
        ensures
            r.application_id == application_id,
            r.pfd_contexts@ == seq![pfd_context],
    {
        let mut pfd_contexts: Vec<PfdContext> = Vec::new();
        pfd_contexts.push(pfd_context);
        ApplicationIdsPfds { application_id, pfd_contexts }
    }

    /// The payload of the IE: the Application ID IE, then one PFD Context IE
    /// per context.
    pub fn marshal(&self) -> (r: Vec<u8>)
        ensures
            r@ == ies_wire(app_pfds_members(self@)),
    {
        let ghost v = self@;
        let mut buf: Vec<u8> = Vec::new();
        let app = self.application_id.to_ie();
        app.marshal_into(&mut buf);
        proof {
            let s0 = seq![application_id_ie(v.application_id)];
            assert(s0.drop_last() =~= Seq::<IeView>::empty());
            assert(s0.last() == application_id_ie(v.application_id));
            assert(ies_wire(Seq::<IeView>::empty()) =~= Seq::<u8>::empty());
            assert(contexts_ies(v.pfd_contexts.take(0)) =~= Seq::<IeView>::empty());
            assert(s0 + contexts_ies(v.pfd_contexts.take(0)) =~= s0);
            assert(buf@ =~= ies_wire(s0));
        }
        let mut i: usize = 0;
        while i < self.pfd_contexts.len()
            invariant
                v == self@,
                i <= self.pfd_contexts@.len(),
                buf@ == ies_wire(seq![application_id_ie(v.application_id)] + contexts_ies(v.pfd_contexts.take(i as int))),
            decreases self.pfd_contexts@.len() - i,
        {
            let ie = self.pfd_contexts[i].to_ie();
            ie.marshal_into(&mut buf);
            proof {
                let prev = seq![application_id_ie(v.application_id)] + contexts_ies(v.pfd_contexts.take(i as int));
                let next = seq![application_id_ie(v.application_id)] + contexts_ies(v.pfd_contexts.take(i + 1));
                assert(v.pfd_contexts[i as int] == pfd_context_view(self.pfd_contexts@[i as int]));
                assert(next =~= prev.push(ie@));
                assert(next.drop_last() =~= prev);
            }
            i = i + 1;
        }
        assert(v.pfd_contexts.take(i as int) =~= v.pfd_contexts);
        buf
    }

    /// Decodes an Application ID's PFDs payload.
    pub fn unmarshal(payload: &[u8]) -> (r: Result<ApplicationIdsPfds, PfcpError>)
        ensures
            match spec_parse_app_pfds(payload@) {
                Ok(v) => r is Ok && r->Ok_0@ == v,
                Err(e) => r == Err::<ApplicationIdsPfds, PfcpError>(e),
            },
    {
        assert(payload@.skip(0) =~= payload@);
        let ies = match parse_ies(payload, 0) {
            Ok(v) => v,
            Err(e) => return Err(e),
        };
        let ghost all = ies_view(ies@);
        let mut id: Option<ApplicationId> = None;
        let mut contexts: Vec<PfdContext> = Vec::new();
        proof {
            assert(all.skip(0) =~= all);
            assert(app_scan_of(id, contexts@).pfd_contexts =~= Seq::<Seq<IeView>>::empty());
        }
        let mut i: usize = 0;
        while i < ies.len()
            invariant
                all == ies_view(ies@),
                spec_parse_ies(payload@) == Ok::<Seq<IeView>, PfcpError>(all),
                i <= ies@.len(),
                app_scan(all, app_scan_start()) == app_scan(all.skip(i as int), app_scan_of(id, contexts@)),
            decreases ies@.len() - i,
        {
            let ghost st = app_scan_of(id, contexts@);
            let ghost rest = all.skip(i as int);
            let ie = &ies[i];
            assert(rest[0] == ie@);
            assert(rest.skip(1) =~= all.skip(i + 1));
            assert(app_scan(rest, st) == (match app_scan_step(st, ie@) {
                Err(e) => Err(e),
                Ok(st2) => app_scan(rest.skip(1), st2),
            }));
            if ie.ie_type == IeType::ApplicationId && id.is_none() {
                match ApplicationId::unmarshal(ie.payload.as_slice()) {
                    Ok(a) => {
                        id = Some(a);
                    },
                    Err(e) => {
                        return Err(e);
                    },
                }
            } else if ie.ie_type == IeType::PfdContext {
                match PfdContext::unmarshal(ie.payload.as_slice()) {
                    Ok(c) => {
                        contexts.push(c);
                    },
                    Err(e) => {
                        return Err(e);
                    },
                }
            }
            proof {
                let st2 = app_scan_of(id, contexts@);
                if !(ie@.ie_type == IeType::ApplicationId && st.application_id is None) && ie@.ie_type == IeType::PfdContext {
                    assert(st2.pfd_contexts =~= st.pfd_contexts.push(st2.pfd_contexts.last()));
                }
                assert(app_scan_step(st, ie@) == Ok::<AppPfdsScan, PfcpError>(st2));
            }
            i = i + 1;
        }
        assert(all.skip(i as int) =~= Seq::<IeView>::empty());
        match id {
            Some(a) => {
                let r = ApplicationIdsPfds { application_id: a, pfd_contexts: contexts };
                assert(r@ == AppPfdsView { application_id: r.application_id.id@, pfd_contexts: app_scan_of(Some(r.application_id), r.pfd_contexts@).pfd_contexts });
                Ok(r)
            },
            None => Err(PfcpError::MissingMandatoryIe { ie_type: IeType::ApplicationId, message_type: None }),
        }
    }

    /// The Application ID's PFDs IE carrying this value.
    pub fn to_ie(&self) -> (r: Ie)
        ensures
            r@ == app_pfds_ie(self@),
    {
        Ie::new(IeType::ApplicationIdsPfds, self.marshal())
    }
}

/// Reading PFD Context IEs of well-formed member lists adds the lists.
proof fn lemma_app_scan_contexts(cs: Seq<Seq<IeView>>, st: AppPfdsScan)
    requires
        forall|i: int| 0 <= i < cs.len() ==> ies_wf(#[trigger] cs[i]),
    ensures
        app_scan(contexts_ies(cs), st) == Ok::<AppPfdsScan, PfcpError>(
            AppPfdsScan { pfd_contexts: st.pfd_contexts + cs, ..st },
        ),
    decreases cs.len(),
{
    if cs.len() == 0 {
        assert(contexts_ies(cs) =~= Seq::<IeView>::empty());
        assert(st.pfd_contexts + cs =~= st.pfd_contexts);
    } else {
        let s = contexts_ies(cs);
        assert(s[0] == pfd_context_ie(cs[0]));
        assert(ies_wf(cs[0]));
        lemma_parse_ies_wire(cs[0]);
        let st2 = AppPfdsScan { pfd_contexts: st.pfd_contexts.push(cs[0]), ..st };
        assert(app_scan_step(st, s[0]) == Ok::<AppPfdsScan, PfcpError>(st2));
        let t = cs.skip(1);
        assert(s.skip(1) =~= contexts_ies(t));
        assert forall|i: int| 0 <= i < t.len() implies ies_wf(#[trigger] t[i]) by {
            assert(t[i] == cs[i + 1]);
        }
        lemma_app_scan_contexts(t, st2);
        assert(st2.pfd_contexts + t =~= st.pfd_contexts + cs);
    }
}

/// A well-formed Application ID's PFDs reads back as itself.
pub proof fn lemma_app_pfds_roundtrip(v: AppPfdsView)
    requires
        app_pfds_wf(v),
    ensures
        spec_parse_app_pfds(ies_wire(app_pfds_members(v))) == Ok::<AppPfdsView, PfcpError>(v),
{
    let m = app_pfds_members(v);
    let cs = contexts_ies(v.pfd_contexts);
    assert(ies_wf(m)) by {
        assert forall|i: int| 0 <= i < m.len() implies #[trigger] ie_wf(m[i]) by {
            if i > 0 {
                assert(m[i] == cs[i - 1]);
                assert(ies_wire(v.pfd_contexts[i - 1]).len() <= 65535);
            }
        }
    }
    lemma_parse_ies_wire(m);
    lemma_application_id_roundtrip(v.application_id);
    let st1 = AppPfdsScan { application_id: Some(v.application_id), pfd_contexts: Seq::empty() };
    assert(app_scan_step(app_scan_start(), m[0]) == Ok::<AppPfdsScan, PfcpError>(st1));
    assert(m.skip(1) =~= cs);
    assert forall|i: int| 0 <= i < v.pfd_contexts.len() implies ies_wf(#[trigger] v.pfd_contexts[i]) by {}
    lemma_app_scan_contexts(v.pfd_contexts, st1);
    assert(Seq::<Seq<IeView>>::empty() + v.pfd_contexts =~= v.pfd_contexts);
}

} // verus!
