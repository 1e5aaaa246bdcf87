//! Reading the members of a grouped IE: the first member of each type is the
//! one that counts, and fixed-size members are read from their first octets.
use crate::bytes::{be16_value, be32_value, read_be16, read_be32};
use crate::error::PfcpError;
use crate::ie::{ie_wire, ies_of_type, ies_view, ies_wire, lemma_ies_of_type_append, Ie, IeType, IeView};
use crate::message::ie_iter::IeIter;
use vstd::prelude::*;

verus! {

/// The first IE of type `t` in `s`, if any.
pub open spec fn first_of_type(s: Seq<IeView>, t: IeType) -> Option<IeView> {
    if ies_of_type(s, t).len() > 0 {
        Some(ies_of_type(s, t)[0])
    } else {
        None
    }
}

/// Reading a mandatory member of type `t` that holds a 16-bit value.
pub open spec fn member_u16(ies: Seq<IeView>, t: IeType) -> Result<u16, PfcpError> {
    match first_of_type(ies, t) {
        None => Err(PfcpError::MissingMandatoryIe { ie_type: t, message_type: None }),
        Some(x) => if x.payload.len() < 2 {
            Err(PfcpError::InvalidLength { ie_type: Some(t), expected: 2, actual: x.payload.len() as usize })
        } else {
            Ok(be16_value(x.payload[0], x.payload[1]))
        },
    }
}

/// Reading a mandatory member of type `t` that holds a 32-bit value.
pub open spec fn member_u32(ies: Seq<IeView>, t: IeType) -> Result<u32, PfcpError> {
    match first_of_type(ies, t) {
        None => Err(PfcpError::MissingMandatoryIe { ie_type: t, message_type: None }),
        Some(x) => if x.payload.len() < 4 {
            Err(PfcpError::InvalidLength { ie_type: Some(t), expected: 4, actual: x.payload.len() as usize })
        } else {
            Ok(be32_value(x.payload))
        },
    }
}

/// Reading a mandatory member of type `t` that holds one octet.
pub open spec fn member_u8(ies: Seq<IeView>, t: IeType) -> Result<u8, PfcpError> {
    match first_of_type(ies, t) {
        None => Err(PfcpError::MissingMandatoryIe { ie_type: t, message_type: None }),
        Some(x) => if x.payload.len() < 1 {
            Err(PfcpError::InvalidLength { ie_type: Some(t), expected: 1, actual: 0 })
        } else {
            Ok(x.payload[0])
        },
    }
}

/// Reading an optional member of type `t` that holds one octet.
pub open spec fn opt_member_u8(ies: Seq<IeView>, t: IeType) -> Result<Option<u8>, PfcpError> {
    match first_of_type(ies, t) {
        None => Ok(None),
        Some(x) => if x.payload.len() < 1 {
            Err(PfcpError::InvalidLength { ie_type: Some(t), expected: 1, actual: 0 })
        } else {
            Ok(Some(x.payload[0]))
        },
    }
}

/// The first IE of type `t` among `ies`, if any.
pub fn find_first(ies: &Vec<Ie>, t: IeType) -> (r: Option<&Ie>)
    ensures
        match first_of_type(ies_view(ies@), t) {
            Some(v) => r is Some && r->Some_0@ == v,
            None => r is None,
        },
{
    let mut it = IeIter::generic(ies.as_slice(), t);
    it.next()
}

/// Reads a mandatory member holding a 16-bit value.
pub fn read_member_u16(ies: &Vec<Ie>, t: IeType) -> (r: Result<u16, PfcpError>)
    ensures
        r == member_u16(ies_view(ies@), t),
{
    match find_first(ies, t) {
        None => Err(PfcpError::MissingMandatoryIe { ie_type: t, message_type: None }),
        Some(x) => {
            if x.payload.len() < 2 {
                Err(PfcpError::InvalidLength { ie_type: Some(t), expected: 2, actual: x.payload.len() })
            } else {
                Ok(read_be16(x.payload.as_slice(), 0))
            }
        },
    }
}

/// Reads a mandatory member holding a 32-bit value.
pub fn read_member_u32(ies: &Vec<Ie>, t: IeType) -> (r: Result<u32, PfcpError>)
    ensures
        r == member_u32(ies_view(ies@), t),
{
    match find_first(ies, t) {
        None => Err(PfcpError::MissingMandatoryIe { ie_type: t, message_type: None }),
        Some(x) => {
            if x.payload.len() < 4 {
                Err(PfcpError::InvalidLength { ie_type: Some(t), expected: 4, actual: x.payload.len() })
            } else {
                Ok(read_be32(x.payload.as_slice(), 0))
            }
        },
    }
}

/// Reads a mandatory member holding one octet.
pub fn read_member_u8(ies: &Vec<Ie>, t: IeType) -> (r: Result<u8, PfcpError>)
    ensures
        r == member_u8(ies_view(ies@), t),
{
    match find_first(ies, t) {
        None => Err(PfcpError::MissingMandatoryIe { ie_type: t, message_type: None }),
        Some(x) => {
            if x.payload.len() < 1 {
                Err(PfcpError::InvalidLength { ie_type: Some(t), expected: 1, actual: 0 })
            } else {
                Ok(x.payload[0])
            }
        },
    }
}

/// Reads an optional member holding one octet.
pub fn read_opt_member_u8(ies: &Vec<Ie>, t: IeType) -> (r: Result<Option<u8>, PfcpError>)
    ensures
        r == opt_member_u8(ies_view(ies@), t),
{
    match find_first(ies, t) {
        None => Ok(None),
        Some(x) => {
            if x.payload.len() < 1 {
                Err(PfcpError::InvalidLength { ie_type: Some(t), expected: 1, actual: 0 })
            } else {
                Ok(Some(x.payload[0]))
            }
        },
    }
}

/// Filtering a sequence with no IE of type `t` leaves nothing.
pub proof fn lemma_of_type_none(s: Seq<IeView>, t: IeType)
    requires
        forall|j: int| 0 <= j < s.len() ==> (#[trigger] s[j]).ie_type != t,
    ensures
        ies_of_type(s, t) == Seq::<IeView>::empty(),
    decreases s.len(),
{
    if s.len() > 0 {
        assert forall|j: int| 0 <= j < s.drop_last().len() implies (#[trigger] s.drop_last()[j]).ie_type != t by {
            assert(s.drop_last()[j] == s[j]);
        }
        lemma_of_type_none(s.drop_last(), t);
        assert(s.last() == s[s.len() - 1]);
    }
}

/// The first IE of type `t` is the one at `k` when none before it has that type.
pub proof fn lemma_first_of_type_at(s: Seq<IeView>, t: IeType, k: int)
    requires
        0 <= k < s.len(),
        s[k].ie_type == t,
        forall|j: int| 0 <= j < k ==> (#[trigger] s[j]).ie_type != t,
    ensures
        first_of_type(s, t) == Some(s[k]),
{
    let a = s.take(k);
    let b = s.skip(k);
    assert(s =~= a + b);
    assert forall|j: int| 0 <= j < a.len() implies (#[trigger] a[j]).ie_type != t by {
        assert(a[j] == s[j]);
    }
    lemma_of_type_none(a, t);
    lemma_ies_of_type_append(a, b, t);
    let x = seq![b[0]];
    let rest = b.skip(1);
    assert(b =~= x + rest);
    lemma_ies_of_type_append(x, rest, t);
    assert(x.drop_last() =~= Seq::<IeView>::empty());
    assert(x.last() == s[k]);
    assert(ies_of_type(Seq::<IeView>::empty(), t) =~= Seq::<IeView>::empty());
    assert(ies_of_type(x, t) =~= seq![s[k]]);
    assert(ies_of_type(s, t) =~= seq![s[k]] + ies_of_type(rest, t));
}

/// The wire form of one IE as a sequence.
pub proof fn lemma_ies_wire_one(a: IeView)
    ensures
        ies_wire(seq![a]) == ie_wire(a),
{
    assert(seq![a].drop_last() =~= Seq::<IeView>::empty());
    assert(ies_wire(Seq::<IeView>::empty()) =~= Seq::<u8>::empty());
    assert(ies_wire(seq![a]) =~= ie_wire(a));
}

/// Appending one IE to a sequence appends its wire form.
pub proof fn lemma_ies_wire_push(s: Seq<IeView>, a: IeView)
    ensures
        ies_wire(s.push(a)) == ies_wire(s) + ie_wire(a),
{
    assert(s.push(a).drop_last() =~= s);
}

} // verus!
