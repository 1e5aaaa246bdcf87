//! The Application ID IE (3GPP TS 29.244 clause 8.2.6): the identifier of an
//! application, as an octet string that this crate reads as UTF-8 text.
use crate::bytes::push_all;
use crate::error::{InvalidField, PfcpError};
use crate::ie::node_id::string_from_utf8;
use crate::ie::{Ie, IeType, IeView};
use vstd::prelude::*;
use vstd::utf8::{decode_utf8, encode_utf8, valid_utf8};

verus! {

/// An Application ID.
#[derive(Debug, Clone, PartialEq, Eq)]
pub struct ApplicationId {
    pub id: String,
}

/// Decoding an Application ID payload: its octets as UTF-8 text.
pub open spec fn spec_parse_application_id(b: Seq<u8>) -> Result<Seq<char>, PfcpError> {
    if valid_utf8(b) {
        Ok(decode_utf8(b))
    } else {
        Err(PfcpError::InvalidValue { field: InvalidField::ApplicationId })
    }
}

/// The Application ID IE that carries `id`.
pub open spec fn application_id_ie(id: Seq<char>) -> IeView {
    IeView { ie_type: IeType::ApplicationId, payload: encode_utf8(id) }
}

impl ApplicationId {
    /// An Application ID with the given text.
    pub fn new(id: &str) -> (r: ApplicationId)
        ensures
            r.id@ == id@,
    {
        ApplicationId { id: id.to_owned() }
    }

    /// The payload of the Application ID IE: the text in UTF-8.
    pub fn marshal(&self) -> (r: Vec<u8>)
        ensures
            r@ == encode_utf8(self.id@),
    {
        let mut v: Vec<u8> = Vec::new();
        push_all(&mut v, self.id.as_str().as_bytes());
        assert(v@ =~= encode_utf8(self.id@));
        v
    }

    /// Decodes an Application ID payload.
    pub fn unmarshal(payload: &[u8]) -> (r: Result<ApplicationId, PfcpError>)
        ensures
            match spec_parse_application_id(payload@) {
                Ok(s) => r is Ok && r->Ok_0.id@ == s,
                Err(e) => r == Err::<ApplicationId, PfcpError>(e),
            },
    {
        match string_from_utf8(payload) {
            Some(id) => Ok(ApplicationId { id }),
            None => Err(PfcpError::InvalidValue { field: InvalidField::ApplicationId }),
        }
    }

    /// The Application ID IE carrying this value.
    pub fn to_ie(&self) -> (r: Ie)
        ensures
            r@ == application_id_ie(self.id@),
    {
        Ie::new(IeType::ApplicationId, self.marshal())
    }
}

/// Every Application ID reads back as itself.
pub proof fn lemma_application_id_roundtrip(id: Seq<char>)
    ensures
        spec_parse_application_id(encode_utf8(id)) == Ok::<Seq<char>, PfcpError>(id),
{
    vstd::utf8::encode_utf8_valid_utf8(id);
    vstd::utf8::encode_utf8_decode_utf8(id);
}

} // verus!
