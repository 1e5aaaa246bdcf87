//! Messages of types this crate does not model field by field, and decoding
//! a message of any type.
use crate::error::PfcpError;
use crate::ie::{ie_refs_view, ies_of_type, ies_view, ies_wire, parse_ies, spec_parse_ies, Ie, IeType, IeView};
use crate::message::header::{header_size, header_wire, spec_parse_header, Header};
use crate::message::ie_iter::IeIter;
use crate::message::slots::append_many;
use crate::message::{lemma_parse_header_size, Message, MsgType};
use vstd::prelude::*;

verus! {

/// A message kept as its header and its IEs in wire order.
#[derive(Debug, Clone, PartialEq, Eq)]
pub struct Generic {
    pub header: Header,
    pub ies: Vec<Ie>,
}

impl Generic {
    /// A generic message with the given header and IEs; the header is kept as given.
    pub fn new(header: Header, ies: Vec<Ie>) -> (r: Generic)
        ensures
            r.header == header,
            r.ies@ == ies@,
    {
        Generic { header, ies }
    }
}

impl Message for Generic {
    open spec fn spec_header(&self) -> Header {
        self.header
    }

    open spec fn spec_body(&self) -> Seq<IeView> {
        ies_view(self.ies@)
    }

    open spec fn spec_listed(&self) -> Seq<IeView> {
        ies_view(self.ies@)
    }

    open spec fn spec_ies_of(&self, t: IeType) -> Seq<IeView> {
        ies_of_type(ies_view(self.ies@), t)
    }

    open spec fn spec_msg_type(&self) -> MsgType {
        self.header.message_type
    }

    open spec fn spec_decode_error(data: Seq<u8>) -> Option<PfcpError> {
        match spec_parse_header(data) {
            Err(e) => Some(e),
            Ok(h) => match spec_parse_ies(data.skip(header_size(h) as int)) {
                Err(e) => Some(e),
                Ok(_) => None,
            },
        }
    }

    open spec fn spec_decoded(data: Seq<u8>, m: Self) -> bool {
        match spec_parse_header(data) {
            Err(_) => false,
            Ok(h) => match spec_parse_ies(data.skip(header_size(h) as int)) {
                Err(_) => false,
                Ok(ies) => m.header == h && ies_view(m.ies@) == ies,
            },
        }
    }

    fn marshal_into(&self, buf: &mut Vec<u8>) {
        self.header.marshal_into(buf);
        append_many(buf, &self.ies);
        assert(buf@ =~= old(buf)@ + header_wire(self.header) + ies_wire(ies_view(self.ies@)));
    }

    fn marshal(&self) -> (r: Vec<u8>) {
        let mut buf: Vec<u8> = Vec::new();
        self.marshal_into(&mut buf);
        assert(buf@ =~= header_wire(self.header) + ies_wire(ies_view(self.ies@)));
        buf
    }

    fn marshaled_size(&self) -> (r: usize) {
        let v = self.marshal();
        v.len()
    }

    fn unmarshal(data: &[u8]) -> (r: Result<Self, PfcpError>) {
        let header = match Header::unmarshal(data) {
            Ok(h) => h,
            Err(e) => return Err(e),
        };
        proof {
            lemma_parse_header_size(data@);
        }
        let start = header.len() as usize;
        match parse_ies(data, start) {
            Ok(ies) => Ok(Generic { header, ies }),
            Err(e) => Err(e),
        }
    }

    fn msg_type(&self) -> (r: MsgType) {
        self.header.message_type
    }

    fn msg_name(&self) -> (r: String) {
        self.header.message_type.name().to_owned()
    }

    fn version(&self) -> (r: u8) {
        1
    }

    fn seid(&self) -> (r: Option<u64>) {
        if self.header.has_seid {
            Some(self.header.seid)
        } else {
            None
        }
    }

    fn sequence(&self) -> (r: u32) {
        self.header.sequence_number
    }

    fn set_sequence(&mut self, seq: u32) {
        self.header.sequence_number = seq;
    }

    fn ies(&self, ie_type: IeType) -> (r: IeIter<'_>) {
        IeIter::generic(self.ies.as_slice(), ie_type)
    }

    fn find_ie(&self, ie_type: IeType) -> (r: Option<&Ie>) {
        let mut it = self.ies(ie_type);
        it.next()
    }

    fn find_all_ies(&self, ie_type: IeType) -> (r: Vec<&Ie>) {
        self.ies(ie_type).collect()
    }

    fn all_ies(&self) -> (r: Vec<&Ie>) {
        let mut out: Vec<&Ie> = Vec::new();
        crate::message::slots::refs_many(&mut out, &self.ies);
        assert(ie_refs_view(out@) =~= ies_view(self.ies@));
        out
    }
}

} // verus!
