//! Information Elements: the type-length-value units of a PFCP message body.
pub mod application_id;
pub mod application_ids_pfds;
pub mod cause;
pub mod created_pdr;
pub mod fseid;
pub mod fteid;
pub mod load_control_information;
pub mod grouped;
pub mod ie_type;
pub mod node_id;
pub mod node_report_type;
pub mod offending_ie;
pub mod overload_control_information;
pub mod pfd_context;
pub mod pdn_type;
pub mod rds_configuration_information;
pub mod recovery_time_stamp;
pub mod source_ip_address;

use crate::bytes::{be16, be16_value, copy_range, lemma_be16_roundtrip, push_all, push_be16, read_be16};
use crate::error::PfcpError;
use vstd::prelude::*;

pub use ie_type::IeType;
use ie_type::{ie_type_code, ie_type_of_code, lemma_ie_type_code_roundtrip};

verus! {

/// An Information Element: a type and its payload.
///
/// On the wire an IE is its 16-bit type code, the 16-bit payload length and
/// the payload, all big-endian (3GPP TS 29.244 clause 8.1.1).
#[derive(Debug, Clone, PartialEq, Eq)]
pub struct Ie {
    pub ie_type: IeType,
    pub payload: Vec<u8>,
}

/// The mathematical value of an IE.
pub struct IeView {
    pub ie_type: IeType,
    pub payload: Seq<u8>,
}

impl View for Ie {
    type V = IeView;

    open spec fn view(&self) -> IeView {
        IeView { ie_type: self.ie_type, payload: self.payload@ }
    }
}

/// The values of a sequence of IEs.
pub open spec fn ies_view(s: Seq<Ie>) -> Seq<IeView> {
    s.map_values(|ie: Ie| ie@)
}

/// The values of a sequence of IE references.
pub open spec fn ie_refs_view(s: Seq<&Ie>) -> Seq<IeView> {
    s.map_values(|ie: &Ie| ie@)
}

/// The 16-bit length of an IE with this payload: four octets of type and
/// length, then the payload, counted modulo 2^16.
pub open spec fn ie_len(v: IeView) -> u16 {
    ((4 + v.payload.len()) % 65536) as u16
}

/// The length field as written: the payload length modulo 2^16.
pub open spec fn ie_length_field(v: IeView) -> u16 {
    (v.payload.len() % 65536) as u16
}

/// The wire form of an IE.
pub open spec fn ie_wire(v: IeView) -> Seq<u8> {
    be16(ie_type_code(v.ie_type)) + be16(ie_length_field(v)) + v.payload
}

/// An IE whose payload length fits the 16-bit length field.
pub open spec fn ie_wf(v: IeView) -> bool {
    v.payload.len() <= 65535
}

/// Every IE of the sequence is well formed.
pub open spec fn ies_wf(s: Seq<IeView>) -> bool {
    forall|i: int| 0 <= i < s.len() ==> #[trigger] ie_wf(s[i])
}

/// The wire form of a sequence of IEs: their wire forms one after the other.
pub open spec fn ies_wire(s: Seq<IeView>) -> Seq<u8>
    decreases s.len(),
{
    if s.len() == 0 {
        Seq::empty()
    } else {
        ies_wire(s.drop_last()) + ie_wire(s.last())
    }
}

/// The sum of the true sizes (4 + payload length) of a sequence of IEs.
pub open spec fn ies_size(s: Seq<IeView>) -> nat
    decreases s.len(),
{
    if s.len() == 0 {
        0
    } else {
        ies_size(s.drop_last()) + 4 + s.last().payload.len()
    }
}

/// Decoding one IE from the front of `s`: the IE and the number of bytes it
/// takes, or why it cannot be read.
pub open spec fn spec_parse_ie(s: Seq<u8>) -> Result<(IeView, nat), PfcpError> {
    if s.len() < 4 {
        Err(PfcpError::InvalidLength { ie_type: None, expected: 4, actual: s.len() as usize })
    } else {
        let t = ie_type_of_code(be16_value(s[0], s[1]));
        let l = be16_value(s[2], s[3]) as nat;
        if s.len() < 4 + l {
            Err(
                PfcpError::InvalidLength {
                    ie_type: Some(t),
                    expected: (4 + l) as usize,
                    actual: s.len() as usize,
                },
            )
        } else {
            Ok((IeView { ie_type: t, payload: s.subrange(4, (4 + l) as int) }, (4 + l) as nat))
        }
    }
}

/// Decoding all of `s` as IEs one after the other.
pub open spec fn spec_parse_ies(s: Seq<u8>) -> Result<Seq<IeView>, PfcpError>
    decreases s.len(),
{
    if s.len() == 0 {
        Ok(Seq::empty())
    } else {
        match spec_parse_ie(s) {
            Err(e) => Err(e),
            Ok((ie, n)) => if n == 0 {
                Err(PfcpError::InvalidLength { ie_type: None, expected: 4, actual: 0 })
            } else {
                match spec_parse_ies(s.skip(n as int)) {
                    Err(e) => Err(e),
                    Ok(rest) => Ok(seq![ie] + rest),
                }
            },
        }
    }
}

impl Ie {
    /// Creates an IE of the given type and payload.
    pub fn new(ie_type: IeType, payload: Vec<u8>) -> (r: Ie)
        ensures
            r.ie_type == ie_type,
            r.payload@ == payload@,
    {
        Ie { ie_type, payload }
    }

    /// The length of the IE on the wire (type, length and payload), modulo 2^16.
    pub fn len(&self) -> (r: u16)
        ensures
            r == ie_len(self@),
    {
        let n = self.payload.len();
        ((4 + (n % 65536) as u64) % 65536) as u16
    }

    /// Reports whether the payload is empty.
    pub fn is_empty(&self) -> (r: bool)
        ensures
            r == (self.payload@.len() == 0),
    {
        self.payload.len() == 0
    }

    /// Serializes the IE into a new vector.
    pub fn marshal(&self) -> (r: Vec<u8>)
        ensures
            r@ == ie_wire(self@),
    {
        let mut buf: Vec<u8> = Vec::new();
        self.marshal_into(&mut buf);
        buf
    }

    /// Appends the serialized IE to `buf`.
    pub fn marshal_into(&self, buf: &mut Vec<u8>)
        ensures
            final(buf)@ == old(buf)@ + ie_wire(self@),
    {
        push_be16(buf, self.ie_type.code());
        push_be16(buf, (self.payload.len() % 65536) as u16);
        push_all(buf, self.payload.as_slice());
        assert(final(buf)@ =~= old(buf)@ + ie_wire(self@));
    }

    /// Deserializes an IE from the front of `b`; bytes after it are ignored.
    pub fn unmarshal(b: &[u8]) -> (r: Result<Ie, PfcpError>)
        ensures
            match spec_parse_ie(b@) {
                Ok((v, _)) => r is Ok && r.unwrap()@ == v,
                Err(e) => r == Err::<Ie, PfcpError>(e),
            },
    {
        assert(b@.skip(0) =~= b@);
        match parse_ie_at(b, 0) {
            Ok((ie, _)) => Ok(ie),
            Err(e) => Err(e),
        }
    }
}

/// Decodes one IE from `data` at `pos`; returns it and the number of bytes it takes.
pub fn parse_ie_at(data: &[u8], pos: usize) -> (r: Result<(Ie, usize), PfcpError>)
    requires
        pos <= data@.len(),
    ensures
        match spec_parse_ie(data@.skip(pos as int)) {
            Ok((v, n)) => r is Ok && r.unwrap().0@ == v && r.unwrap().1 == n,
            Err(e) => r == Err::<(Ie, usize), PfcpError>(e),
        },
{
    let ghost s = data@.skip(pos as int);
    let avail = data.len() - pos;
    if avail < 4 {
        return Err(PfcpError::InvalidLength { ie_type: None, expected: 4, actual: avail });
    }
    let code = read_be16(data, pos);
    let t = IeType::from_code(code);
    let l = read_be16(data, pos + 2) as usize;
    assert(s[0] == data@[pos as int] && s[1] == data@[pos + 1]);
    assert(s[2] == data@[pos + 2] && s[3] == data@[pos + 3]);
    if avail < 4 + l {
        return Err(PfcpError::InvalidLength { ie_type: Some(t), expected: 4 + l, actual: avail });
    }
    let payload = copy_range(data, pos + 4, pos + 4 + l);
    assert(payload@ =~= s.subrange(4, 4 + l as int));
    Ok((Ie { ie_type: t, payload }, 4 + l))
}

/// Decodes `data[start..]` as IEs one after the other.
pub fn parse_ies(data: &[u8], start: usize) -> (r: Result<Vec<Ie>, PfcpError>)
    requires
        start <= data@.len(),
    ensures
        match spec_parse_ies(data@.skip(start as int)) {
            Ok(s) => r is Ok && ies_view(r.unwrap()@) == s,
            Err(e) => r == Err::<Vec<Ie>, PfcpError>(e),
        },
{
    let mut out: Vec<Ie> = Vec::new();
    let mut offset = start;
    while offset < data.len()
        invariant
            start <= offset <= data@.len(),
            spec_parse_ies(data@.skip(start as int)) == (match spec_parse_ies(data@.skip(offset as int)) {
                Ok(rest) => Ok(ies_view(out@) + rest),
                Err(e) => Err::<Seq<IeView>, PfcpError>(e),
            }),
        decreases data@.len() - offset,
    {
        let ghost s = data@.skip(offset as int);
        let (ie, n) = match parse_ie_at(data, offset) {
            Ok(x) => x,
            Err(e) => {
                return Err(e);
            },
        };
        assert(s.skip(n as int) =~= data@.skip(offset + n));
        let ghost old_view = ies_view(out@);
        let ghost iev = ie@;
        assert(spec_parse_ies(s) == (match spec_parse_ies(s.skip(n as int)) {
            Err(e) => Err(e),
            Ok(rest) => Ok(seq![iev] + rest),
        }));
        assert(ies_view(out@.push(ie)) =~= old_view + seq![iev]);
        out.push(ie);
        offset = offset + n;
        proof {
            match spec_parse_ies(data@.skip(offset as int)) {
                Ok(rest) => {
                    assert(old_view + (seq![iev] + rest) =~= ies_view(out@) + rest);
                },
                Err(e) => {},
            }
        }
    }
    assert(data@.skip(offset as int) =~= Seq::<u8>::empty());
    assert(ies_view(out@) + Seq::<IeView>::empty() =~= ies_view(out@));
    Ok(out)
}

/// Reading back the wire form of a well-formed IE gives the IE and its size.
pub proof fn lemma_parse_ie_wire(v: IeView, rest: Seq<u8>)
    requires
        ie_wf(v),
    ensures
        spec_parse_ie(ie_wire(v) + rest) == Ok::<(IeView, nat), PfcpError>((v, (4 + v.payload.len()) as nat)),
{
    let w = ie_wire(v) + rest;
    lemma_be16_roundtrip(ie_type_code(v.ie_type));
    lemma_be16_roundtrip(ie_length_field(v));
    lemma_ie_type_code_roundtrip(v.ie_type);
    assert(w[0] == be16(ie_type_code(v.ie_type))[0]);
    assert(w[1] == be16(ie_type_code(v.ie_type))[1]);
    assert(w[2] == be16(ie_length_field(v))[0]);
    assert(w[3] == be16(ie_length_field(v))[1]);
    assert(w.subrange(4, 4 + v.payload.len() as int) =~= v.payload);
}

/// The wire form of a sequence is its first IE's, then the rest's.
pub proof fn lemma_ies_wire_cons(v: IeView, s: Seq<IeView>)
    ensures
        ies_wire(seq![v] + s) == ie_wire(v) + ies_wire(s),
    decreases s.len(),
{
    if s.len() == 0 {
        assert(seq![v] + s =~= seq![v]);
        assert(seq![v].drop_last() =~= Seq::<IeView>::empty());
        assert(ies_wire(Seq::<IeView>::empty()) =~= Seq::<u8>::empty());
        assert(ies_wire(seq![v] + s) =~= ie_wire(v) + ies_wire(s));
    } else {
        lemma_ies_wire_cons(v, s.drop_last());
        assert((seq![v] + s).drop_last() =~= seq![v] + s.drop_last());
        assert((seq![v] + s).last() == s.last());
        assert(ies_wire(seq![v] + s) =~= ie_wire(v) + ies_wire(s));
    }
}

/// Reading back the wire form of well-formed IEs gives the IEs.
pub proof fn lemma_parse_ies_wire(s: Seq<IeView>)
    requires
        ies_wf(s),
    ensures
        spec_parse_ies(ies_wire(s)) == Ok::<Seq<IeView>, PfcpError>(s),
    decreases s.len(),
{
    if s.len() == 0 {
        assert(ies_wire(s) =~= Seq::<u8>::empty());
        assert(s =~= Seq::<IeView>::empty());
    } else {
        let head = s[0];
        let tail = s.skip(1);
        assert(s =~= seq![head] + tail);
        assert(ie_wf(s[0]));
        assert(ies_wf(tail)) by {
            assert forall|i: int| 0 <= i < tail.len() implies #[trigger] ie_wf(tail[i]) by {
                assert(tail[i] == s[i + 1]);
            }
        }
        lemma_ies_wire_cons(head, tail);
        let w = ies_wire(s);
        assert(w == ie_wire(head) + ies_wire(tail));
        lemma_parse_ie_wire(head, ies_wire(tail));
        let n = (4 + head.payload.len()) as nat;
        assert(ie_wire(head).len() == n);
        assert(w.skip(n as int) =~= ies_wire(tail));
        lemma_parse_ies_wire(tail);
    }
}

/// Wire forms of sequences concatenate.
pub proof fn lemma_ies_wire_append(a: Seq<IeView>, b: Seq<IeView>)
    ensures
        ies_wire(a + b) == ies_wire(a) + ies_wire(b),
    decreases b.len(),
{
    if b.len() == 0 {
        assert(a + b =~= a);
        assert(ies_wire(b) =~= Seq::<u8>::empty());
        assert(ies_wire(a) + ies_wire(b) =~= ies_wire(a));
    } else {
        lemma_ies_wire_append(a, b.drop_last());
        assert((a + b).drop_last() =~= a + b.drop_last());
        assert((a + b).last() == b.last());
        assert(ies_wire(a + b) =~= ies_wire(a) + ies_wire(b));
    }
}

/// Sizes of sequences add up.
pub proof fn lemma_ies_size_append(a: Seq<IeView>, b: Seq<IeView>)
    ensures
        ies_size(a + b) == ies_size(a) + ies_size(b),
    decreases b.len(),
{
    if b.len() == 0 {
        assert(a + b =~= a);
    } else {
        lemma_ies_size_append(a, b.drop_last());
        assert((a + b).drop_last() =~= a + b.drop_last());
        assert((a + b).last() == b.last());
    }
}

/// The size of a sequence of IEs is the length of its wire form.
pub proof fn lemma_ies_wire_len(s: Seq<IeView>)
    requires
        ies_wf(s),
    ensures
        ies_wire(s).len() == ies_size(s),
    decreases s.len(),
{
    if s.len() > 0 {
        assert(ies_wf(s.drop_last())) by {
            assert forall|i: int| 0 <= i < s.drop_last().len() implies #[trigger] ie_wf(s.drop_last()[i]) by {
                assert(s.drop_last()[i] == s[i]);
            }
        }
        assert(ie_wf(s[s.len() - 1]));
        lemma_ies_wire_len(s.drop_last());
    }
}

/// The IEs of `s` whose type satisfies `p`, in order.
pub open spec fn ies_where(s: Seq<IeView>, p: spec_fn(IeType) -> bool) -> Seq<IeView>
    decreases s.len(),
{
    if s.len() == 0 {
        Seq::empty()
    } else if p(s.last().ie_type) {
        ies_where(s.drop_last(), p).push(s.last())
    } else {
        ies_where(s.drop_last(), p)
    }
}

/// The IEs of `s` of type `t`, in order.
pub open spec fn ies_of_type(s: Seq<IeView>, t: IeType) -> Seq<IeView>
    decreases s.len(),
{
    if s.len() == 0 {
        Seq::empty()
    } else if s.last().ie_type == t {
        ies_of_type(s.drop_last(), t).push(s.last())
    } else {
        ies_of_type(s.drop_last(), t)
    }
}

/// Filtering distributes over concatenation.
pub proof fn lemma_ies_where_append(a: Seq<IeView>, b: Seq<IeView>, p: spec_fn(IeType) -> bool)
    ensures
        ies_where(a + b, p) == ies_where(a, p) + ies_where(b, p),
    decreases b.len(),
{
    if b.len() == 0 {
        assert(a + b =~= a);
        assert(ies_where(a, p) + ies_where(b, p) =~= ies_where(a, p));
    } else {
        lemma_ies_where_append(a, b.drop_last(), p);
        assert((a + b).drop_last() =~= a + b.drop_last());
        assert((a + b).last() == b.last());
        if p(b.last().ie_type) {
            assert(ies_where(a + b, p) =~= ies_where(a, p) + ies_where(b, p));
        } else {
            assert(ies_where(a + b, p) =~= ies_where(a, p) + ies_where(b, p));
        }
    }
}

/// Type filtering distributes over concatenation.
pub proof fn lemma_ies_of_type_append(a: Seq<IeView>, b: Seq<IeView>, t: IeType)
    ensures
        ies_of_type(a + b, t) == ies_of_type(a, t) + ies_of_type(b, t),
    decreases b.len(),
{
    if b.len() == 0 {
        assert(a + b =~= a);
        assert(ies_of_type(a, t) + ies_of_type(b, t) =~= ies_of_type(a, t));
    } else {
        lemma_ies_of_type_append(a, b.drop_last(), t);
        assert((a + b).drop_last() =~= a + b.drop_last());
        assert((a + b).last() == b.last());
        assert(ies_of_type(a + b, t) =~= ies_of_type(a, t) + ies_of_type(b, t));
    }
}

} // verus!
