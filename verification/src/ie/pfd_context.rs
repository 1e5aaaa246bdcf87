//! The PFD Context IE: a grouped IE whose members are PFD Contents IEs,
//! kept here as IEs.
use crate::error::PfcpError;
use crate::ie::{ies_view, ies_wire, parse_ies, spec_parse_ies, Ie, IeType, IeView};
use crate::message::slots::append_many;
use vstd::prelude::*;

verus! {

/// A PFD Context: the PFD Contents IEs it groups, in order.
#[derive(Debug, Clone, PartialEq, Eq)]
pub struct PfdContext {
    pub pfd_contents: Vec<Ie>,
}

/// The value of a PFD Context: its member IEs.
pub open spec fn pfd_context_view(c: PfdContext) -> Seq<IeView> {
    ies_view(c.pfd_contents@)
}

/// The PFD Context IE that groups `members`.
pub open spec fn pfd_context_ie(members: Seq<IeView>) -> IeView {
    IeView { ie_type: IeType::PfdContext, payload: ies_wire(members) }
}

impl PfdContext {
    /// A PFD Context grouping the given PFD Contents IEs.
    pub fn new(pfd_contents: Vec<Ie>) -> (r: PfdContext)
        ensures
            r.pfd_contents == pfd_contents,
    {
        PfdContext { pfd_contents }
    }

    /// The payload of the PFD Context IE: its members' wire forms.
    pub fn marshal(&self) -> (r: Vec<u8>)
        ensures
            r@ == ies_wire(ies_view(self.pfd_contents@)),
    {
        let mut v: Vec<u8> = Vec::new();
        append_many(&mut v, &self.pfd_contents);
        assert(v@ =~= ies_wire(ies_view(self.pfd_contents@)));
        v
    }

    /// Decodes a PFD Context payload: all of it is read as member IEs.
    pub fn unmarshal(payload: &[u8]) -> (r: Result<PfdContext, PfcpError>)
        ensures
            match spec_parse_ies(payload@) {
                Ok(s) => r is Ok && ies_view(r->Ok_0.pfd_contents@) == s,
                Err(e) => r == Err::<PfdContext, PfcpError>(e),
            },
    {
        assert(payload@.skip(0) =~= payload@);
        match parse_ies(payload, 0) {
            Ok(v) => Ok(PfdContext { pfd_contents: v }),
            Err(e) => Err(e),
        }
    }

    /// The PFD Context IE carrying this value.
    pub fn to_ie(&self) -> (r: Ie)
        ensures
            r@ == pfd_context_ie(ies_view(self.pfd_contents@)),
    {
        Ie::new(IeType::PfdContext, self.marshal())
    }
}

} // verus!
