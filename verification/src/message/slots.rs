//! How a message body is laid out in fields ("slots") of IEs, and the
//! generic facts that decoding and encoding a message rest on.
//!
//! Each message type assigns every IE type to one of its slots (or to none,
//! for message types that drop IEs they do not know). A slot holds either at
//! most one IE (the last one of its types that the body carries) or all of
//! them, in order. The message body on the wire is the slots' IEs one slot
//! after the other.
use crate::ie::{
    ie_len, ie_refs_view, ie_wire, ies_size, ies_view, ies_where, ies_wire, lemma_ies_size_append,
    lemma_ies_where_append, lemma_ies_wire_append, ies_of_type, lemma_ies_of_type_append, Ie, IeType, IeView,
};
use crate::ie::grouped::lemma_of_type_none;
use vstd::prelude::*;

verus! {

/// How many IEs a slot keeps.
pub enum SlotKind {
    /// At most one: the last IE of the slot's types.
    One,
    /// All IEs of the slot's types, in order.
    Many,
}

/// The test "assigned to slot `j`" on IE types.
pub open spec fn slot_pred(cls: spec_fn(IeType) -> int, j: int) -> spec_fn(IeType) -> bool {
    |t: IeType| cls(t) == j
}

/// The IEs of `ies` that `cls` assigns to slot `j`.
pub open spec fn slot_ies(ies: Seq<IeView>, cls: spec_fn(IeType) -> int, j: int) -> Seq<IeView> {
    ies_where(ies, slot_pred(cls, j))
}

/// The last element of `s`, as a sequence of at most one element.
pub open spec fn last_seq(s: Seq<IeView>) -> Seq<IeView> {
    if s.len() == 0 {
        s
    } else {
        seq![s.last()]
    }
}

/// What slot `j` of kind `kind` holds once `ies` have been read.
pub open spec fn decode_slot(ies: Seq<IeView>, cls: spec_fn(IeType) -> int, j: int, kind: SlotKind) -> Seq<IeView> {
    match kind {
        SlotKind::One => last_seq(slot_ies(ies, cls, j)),
        SlotKind::Many => slot_ies(ies, cls, j),
    }
}

/// What all slots hold once `ies` have been read.
pub open spec fn decode_slots(ies: Seq<IeView>, cls: spec_fn(IeType) -> int, kinds: Seq<SlotKind>) -> Seq<Seq<IeView>> {
    Seq::new(kinds.len(), |j: int| decode_slot(ies, cls, j, kinds[j]))
}

/// The IEs of the slots, one slot after the other.
pub open spec fn concat_slots(ss: Seq<Seq<IeView>>) -> Seq<IeView>
    decreases ss.len(),
{
    if ss.len() == 0 {
        Seq::empty()
    } else {
        concat_slots(ss.drop_last()) + ss.last()
    }
}

/// Every IE sits in the slot that its type is assigned to.
pub open spec fn slots_classified(ss: Seq<Seq<IeView>>, cls: spec_fn(IeType) -> int) -> bool {
    forall|i: int, k: int| 0 <= i < ss.len() && 0 <= k < ss[i].len() ==> cls(#[trigger] ss[i][k].ie_type) == i
}

/// Every IE sits in the slot its type is assigned to, and single slots hold at most one IE.
pub open spec fn slots_typed(ss: Seq<Seq<IeView>>, cls: spec_fn(IeType) -> int, kinds: Seq<SlotKind>) -> bool {
    &&& ss.len() == kinds.len()
    &&& slots_classified(ss, cls)
    &&& forall|i: int| 0 <= i < ss.len() && (#[trigger] kinds[i]) == SlotKind::One ==> ss[i].len() <= 1
}

/// An optional IE as a sequence of at most one IE.
pub open spec fn opt_ie_seq(o: Option<Ie>) -> Seq<IeView> {
    match o {
        None => Seq::empty(),
        Some(ie) => seq![ie@],
    }
}

/// An optional list of IEs as a sequence.
pub open spec fn opt_vec_seq(o: Option<Vec<Ie>>) -> Seq<IeView> {
    match o {
        None => Seq::empty(),
        Some(v) => ies_view(v@),
    }
}

/// An optional list is present exactly when it is not empty.
pub open spec fn opt_vec_canonical(o: Option<Vec<Ie>>) -> bool {
    match o {
        None => true,
        Some(v) => v@.len() > 0,
    }
}

proof fn lemma_where_all(s: Seq<IeView>, p: spec_fn(IeType) -> bool)
    requires
        forall|k: int| 0 <= k < s.len() ==> p(#[trigger] s[k].ie_type),
    ensures
        ies_where(s, p) == s,
    decreases s.len(),
{
    if s.len() > 0 {
        let d = s.drop_last();
        assert forall|k: int| 0 <= k < d.len() implies p(#[trigger] d[k].ie_type) by {
            assert(d[k] == s[k]);
        }
        lemma_where_all(d, p);
        assert(p(s[s.len() - 1].ie_type));
        assert(d.push(s.last()) =~= s);
    }
}

proof fn lemma_where_none(s: Seq<IeView>, p: spec_fn(IeType) -> bool)
    requires
        forall|k: int| 0 <= k < s.len() ==> !p(#[trigger] s[k].ie_type),
    ensures
        ies_where(s, p) == Seq::<IeView>::empty(),
    decreases s.len(),
{
    if s.len() > 0 {
        let d = s.drop_last();
        assert forall|k: int| 0 <= k < d.len() implies !p(#[trigger] d[k].ie_type) by {
            assert(d[k] == s[k]);
        }
        lemma_where_none(d, p);
        assert(!p(s[s.len() - 1].ie_type));
    }
}

/// The IEs that the classifier assigns to slot `j` of concatenated slots are those of slot `j`.
pub proof fn lemma_slot_ies_concat(ss: Seq<Seq<IeView>>, cls: spec_fn(IeType) -> int, j: int)
    requires
        slots_classified(ss, cls),
        0 <= j,
    ensures
        slot_ies(concat_slots(ss), cls, j) == (if j < ss.len() { ss[j] } else { Seq::<IeView>::empty() }),
    decreases ss.len(),
{
    let p = slot_pred(cls, j);
    if ss.len() == 0 {
        assert(ies_where(Seq::<IeView>::empty(), p) =~= Seq::<IeView>::empty());
    } else {
        let n = ss.len() as int;
        let init = ss.drop_last();
        let last = ss.last();
        assert(slots_classified(init, cls)) by {
            assert forall|i: int, k: int| 0 <= i < init.len() && 0 <= k < init[i].len() implies cls(
                #[trigger] init[i][k].ie_type,
            ) == i by {
                assert(init[i] == ss[i]);
                assert(cls(ss[i][k].ie_type) == i);
            }
        }
        lemma_slot_ies_concat(init, cls, j);
        lemma_ies_where_append(concat_slots(init), last, p);
        assert forall|k: int| 0 <= k < last.len() implies cls(#[trigger] last[k].ie_type) == n - 1 by {
            assert(cls(ss[n - 1][k].ie_type) == n - 1);
        }
        if j == n - 1 {
            lemma_where_all(last, p);
            assert(slot_ies(concat_slots(init), cls, j) =~= Seq::<IeView>::empty());
            assert(slot_ies(concat_slots(ss), cls, j) =~= last);
        } else {
            lemma_where_none(last, p);
            if j < n - 1 {
                assert(init[j] == ss[j]);
            }
            assert(slot_ies(concat_slots(ss), cls, j) =~= (if j < ss.len() { ss[j] } else { Seq::<IeView>::empty() }));
        }
    }
}

/// Decoding the concatenation of well-typed slots gives the slots back.
pub proof fn lemma_decode_concat(ss: Seq<Seq<IeView>>, cls: spec_fn(IeType) -> int, kinds: Seq<SlotKind>)
    requires
        slots_typed(ss, cls, kinds),
    ensures
        decode_slots(concat_slots(ss), cls, kinds) == ss,
{
    assert forall|j: int| 0 <= j < ss.len() implies decode_slots(concat_slots(ss), cls, kinds)[j] == ss[j] by {
        lemma_slot_ies_concat(ss, cls, j);
        if kinds[j] == SlotKind::One {
            assert(ss[j].len() <= 1);
            if ss[j].len() == 1 {
                assert(seq![ss[j].last()] =~= ss[j]);
            }
        }
    }
    assert(decode_slots(concat_slots(ss), cls, kinds) =~= ss);
}

/// Reading one more IE changes only the slot that it is assigned to.
pub proof fn lemma_decode_slot_push(s: Seq<IeView>, x: IeView, cls: spec_fn(IeType) -> int, j: int, kind: SlotKind)
    ensures
        decode_slot(s.push(x), cls, j, kind) == (if cls(x.ie_type) == j {
            match kind {
                SlotKind::One => seq![x],
                SlotKind::Many => decode_slot(s, cls, j, kind).push(x),
            }
        } else {
            decode_slot(s, cls, j, kind)
        }),
{
    let p = slot_pred(cls, j);
    assert(s.push(x).drop_last() =~= s);
    assert(s.push(x).last() == x);
    if cls(x.ie_type) == j {
        assert(ies_where(s.push(x), p) == ies_where(s, p).push(x));
        assert(ies_where(s, p).push(x).last() == x);
    } else {
        assert(ies_where(s.push(x), p) == ies_where(s, p));
    }
}

/// Nothing has been read yet: every slot is empty.
pub proof fn lemma_decode_slot_empty(cls: spec_fn(IeType) -> int, j: int, kind: SlotKind)
    ensures
        decode_slot(Seq::<IeView>::empty(), cls, j, kind) == Seq::<IeView>::empty(),
{
    let p = slot_pred(cls, j);
    assert(ies_where(Seq::<IeView>::empty(), p) =~= Seq::<IeView>::empty());
}

/// Adding a slot at the end adds its IEs at the end.
pub proof fn lemma_concat_slots_push(ss: Seq<Seq<IeView>>, s: Seq<IeView>)
    ensures
        concat_slots(ss.push(s)) == concat_slots(ss) + s,
        ies_wire(concat_slots(ss.push(s))) == ies_wire(concat_slots(ss)) + ies_wire(s),
        ies_size(concat_slots(ss.push(s))) == ies_size(concat_slots(ss)) + ies_size(s),
{
    assert(ss.push(s).drop_last() =~= ss);
    assert(ss.push(s).last() == s);
    lemma_ies_wire_append(concat_slots(ss), s);
    lemma_ies_size_append(concat_slots(ss), s);
}

/// Appends the wire form of one IE.
pub fn append_one(buf: &mut Vec<u8>, ie: &Ie)
    ensures
        final(buf)@ == old(buf)@ + ies_wire(seq![ie@]),
{
    ie.marshal_into(buf);
    proof {
        assert(seq![ie@].drop_last() =~= Seq::<IeView>::empty());
        assert(ies_wire(Seq::<IeView>::empty()) =~= Seq::<u8>::empty());
        assert(ies_wire(seq![ie@]) =~= ie_wire(ie@));
    }
}

/// Appends the wire form of an optional IE.
pub fn append_opt(buf: &mut Vec<u8>, ie: &Option<Ie>)
    ensures
        final(buf)@ == old(buf)@ + ies_wire(opt_ie_seq(*ie)),
{
    match ie {
        Some(x) => append_one(buf, x),
        None => {
            assert(old(buf)@ + ies_wire(Seq::<IeView>::empty()) =~= old(buf)@);
        },
    }
}

/// Appends the wire forms of a list of IEs.
pub fn append_many(buf: &mut Vec<u8>, ies: &Vec<Ie>)
    ensures
        final(buf)@ == old(buf)@ + ies_wire(ies_view(ies@)),
{
    let mut i: usize = 0;
    while i < ies.len()
        invariant
            i <= ies@.len(),
            buf@ == old(buf)@ + ies_wire(ies_view(ies@.take(i as int))),
        decreases ies@.len() - i,
    {
        let ghost before = buf@;
        ies[i].marshal_into(buf);
        proof {
            let t = ies_view(ies@.take(i + 1));
            assert(t.drop_last() =~= ies_view(ies@.take(i as int)));
            assert(t.last() == ies@[i as int]@);
        }
        i = i + 1;
    }
    assert(ies@.take(i as int) =~= ies@);
}

/// Appends the wire forms of an optional list of IEs.
pub fn append_opt_many(buf: &mut Vec<u8>, ies: &Option<Vec<Ie>>)
    ensures
        final(buf)@ == old(buf)@ + ies_wire(opt_vec_seq(*ies)),
{
    match ies {
        Some(v) => append_many(buf, v),
        None => {
            assert(old(buf)@ + ies_wire(Seq::<IeView>::empty()) =~= old(buf)@);
        },
    }
}

/// Adds the size of one IE to a 16-bit running length.
pub fn size_one(acc: u16, ie: &Ie) -> (r: u16)
    ensures
        r == (acc + ies_size(seq![ie@])) % 65536,
{
    proof {
        assert(seq![ie@].drop_last() =~= Seq::<IeView>::empty());
        assert(seq![ie@].last() == ie@);
        assert(ies_size(Seq::<IeView>::empty()) == 0);
        assert(ies_size(seq![ie@]) == 4 + ie.payload@.len());
    }
    let n = (ie.payload.len() % 65536) as u32;
    proof {
        vstd::arithmetic::div_mod::lemma_add_mod_noop_right(acc + 4, ie.payload@.len() as int, 65536);
    }
    (((acc as u32) + 4 + n) % 65536) as u16
}

/// Adds the size of an optional IE to a 16-bit running length.
pub fn size_opt(acc: u16, ie: &Option<Ie>) -> (r: u16)
    ensures
        r == (acc + ies_size(opt_ie_seq(*ie))) % 65536,
{
    match ie {
        Some(x) => size_one(acc, x),
        None => acc,
    }
}

/// Adds the sizes of a list of IEs to a 16-bit running length.
pub fn size_many(acc: u16, ies: &Vec<Ie>) -> (r: u16)
    ensures
        r == (acc + ies_size(ies_view(ies@))) % 65536,
{
    let mut a = acc;
    let mut i: usize = 0;
    while i < ies.len()
        invariant
            i <= ies@.len(),
            a == (acc + ies_size(ies_view(ies@.take(i as int)))) % 65536,
        decreases ies@.len() - i,
    {
        proof {
            let t = ies_view(ies@.take(i + 1));
            assert(t.drop_last() =~= ies_view(ies@.take(i as int)));
            assert(t.last() == ies@[i as int]@);
        }
        let n = (ies[i].payload.len() % 65536) as u32;
        proof {
            let sz = ies_size(ies_view(ies@.take(i as int)));
            vstd::arithmetic::div_mod::lemma_add_mod_noop_right(a + 4, ies@[i as int].payload@.len() as int, 65536);
            vstd::arithmetic::div_mod::lemma_add_mod_noop(acc + sz, 4 + ies@[i as int].payload@.len() as int, 65536);
            vstd::arithmetic::div_mod::lemma_add_mod_noop(a as int, 4 + ies@[i as int].payload@.len() as int, 65536);
        }
        a = (((a as u32) + 4 + n) % 65536) as u16;
        i = i + 1;
    }
    assert(ies@.take(i as int) =~= ies@);
    a
}

/// Adds the sizes of an optional list of IEs to a 16-bit running length.
pub fn size_opt_many(acc: u16, ies: &Option<Vec<Ie>>) -> (r: u16)
    ensures
        r == (acc + ies_size(opt_vec_seq(*ies))) % 65536,
{
    match ies {
        Some(v) => size_many(acc, v),
        None => acc,
    }
}

/// Adds the 16-bit length of one IE to a running total.
pub fn total_one(acc: u64, ie: &Ie) -> (r: u64)
    requires
        acc + 65536 <= u64::MAX,
    ensures
        r == acc + ie_len(ie@),
{
    acc + ie.len() as u64
}

/// Adds a reference to one IE.
pub fn refs_one<'a>(out: &mut Vec<&'a Ie>, ie: &'a Ie)
    ensures
        ie_refs_view(final(out)@) == ie_refs_view(old(out)@) + seq![ie@],
{
    out.push(ie);
    assert(ie_refs_view(final(out)@) =~= ie_refs_view(old(out)@) + seq![ie@]);
}

/// Adds a reference to an optional IE.
pub fn refs_opt<'a>(out: &mut Vec<&'a Ie>, ie: &'a Option<Ie>)
    ensures
        ie_refs_view(final(out)@) == ie_refs_view(old(out)@) + opt_ie_seq(*ie),
{
    match ie {
        Some(x) => refs_one(out, x),
        None => {
            assert(ie_refs_view(old(out)@) + Seq::<IeView>::empty() =~= ie_refs_view(old(out)@));
        },
    }
}

/// Adds references to a list of IEs.
pub fn refs_many<'a>(out: &mut Vec<&'a Ie>, ies: &'a Vec<Ie>)
    ensures
        ie_refs_view(final(out)@) == ie_refs_view(old(out)@) + ies_view(ies@),
{
    let mut i: usize = 0;
    while i < ies.len()
        invariant
            i <= ies@.len(),
            ie_refs_view(out@) == ie_refs_view(old(out)@) + ies_view(ies@.take(i as int)),
        decreases ies@.len() - i,
    {
        let ghost before = ie_refs_view(out@);
        out.push(&ies[i]);
        proof {
            assert(ie_refs_view(out@) =~= before.push(ies@[i as int]@));
            assert(ies_view(ies@.take(i + 1)) =~= ies_view(ies@.take(i as int)).push(ies@[i as int]@));
            assert(ie_refs_view(out@) =~= ie_refs_view(old(out)@) + ies_view(ies@.take(i + 1)));
        }
        i = i + 1;
    }
    assert(ies@.take(i as int) =~= ies@);
}

/// Adds references to an optional list of IEs.
pub fn refs_opt_many<'a>(out: &mut Vec<&'a Ie>, ies: &'a Option<Vec<Ie>>)
    ensures
        ie_refs_view(final(out)@) == ie_refs_view(old(out)@) + opt_vec_seq(*ies),
{
    match ies {
        Some(v) => refs_many(out, v),
        None => {
            assert(ie_refs_view(old(out)@) + Seq::<IeView>::empty() =~= ie_refs_view(old(out)@));
        },
    }
}

/// Moves the IEs of `rest` to the end of `dst`.
pub fn append_ies(dst: &mut Vec<Ie>, rest: Vec<Ie>)
    ensures
        ies_view(final(dst)@) == ies_view(old(dst)@) + ies_view(rest@),
{
    let mut r = rest;
    dst.append(&mut r);
    assert(ies_view(final(dst)@) =~= ies_view(old(dst)@) + ies_view(rest@));
}

/// One step of a 16-bit running length: adding to the remainder is adding to the total.
pub proof fn lemma_len_step(total: int, add: int, len: int)
    requires
        len == total % 65536,
    ensures
        (len + add) % 65536 == (total + add) % 65536,
{
    vstd::arithmetic::div_mod::lemma_add_mod_noop_right(add, total, 65536);
}

/// Before any IE has been read, no slot holds anything.
pub proof fn lemma_slot_ies_empty(cls: spec_fn(IeType) -> int)
    ensures
        forall|j: int| #[trigger] slot_ies(Seq::<IeView>::empty(), cls, j) == Seq::<IeView>::empty(),
{
    assert forall|j: int| #[trigger] slot_ies(Seq::<IeView>::empty(), cls, j) == Seq::<IeView>::empty() by {
        lemma_decode_slot_empty(cls, j, SlotKind::Many);
    }
}

/// Reading one more IE adds it to the slot that it is assigned to, and to no other.
pub proof fn lemma_slot_ies_push_all(s: Seq<IeView>, x: IeView, cls: spec_fn(IeType) -> int)
    ensures
        forall|j: int| #[trigger] slot_ies(s.push(x), cls, j) == (if cls(x.ie_type) == j {
            slot_ies(s, cls, j).push(x)
        } else {
            slot_ies(s, cls, j)
        }),
{
    assert forall|j: int| #[trigger] slot_ies(s.push(x), cls, j) == (if cls(x.ie_type) == j {
        slot_ies(s, cls, j).push(x)
    } else {
        slot_ies(s, cls, j)
    }) by {
        lemma_decode_slot_push(s, x, cls, j, SlotKind::Many);
    }
}

/// `k` empty buckets.
pub fn empty_buckets(k: usize) -> (r: Vec<Vec<Ie>>)
    ensures
        r@.len() == k,
        forall|j: int| 0 <= j < k ==> (#[trigger] r@[j])@.len() == 0,
{
    let mut r: Vec<Vec<Ie>> = Vec::new();
    let mut i: usize = 0;
    while i < k
        invariant
            i <= k,
            r@.len() == i,
            forall|j: int| 0 <= j < i ==> (#[trigger] r@[j])@.len() == 0,
        decreases k - i,
    {
        r.push(Vec::new());
        i = i + 1;
    }
    r
}

/// Adds `ie` at the end of bucket `j`; the other buckets stay as they are.
pub fn push_bucket(b: &mut Vec<Vec<Ie>>, j: usize, ie: Ie)
    requires
        j < old(b)@.len(),
    ensures
        final(b)@.len() == old(b)@.len(),
        ies_view(final(b)@[j as int]@) == ies_view(old(b)@[j as int]@).push(ie@),
        forall|k: int| 0 <= k < old(b)@.len() && k != j ==> final(b)@[k] == old(b)@[k],
{
    let ghost before = b@;
    let mut v = b.remove(j);
    let ghost v0 = v@;
    v.push(ie);
    assert(ies_view(v@) =~= ies_view(v0).push(ie@));
    b.insert(j, v);
    assert forall|k: int| 0 <= k < before.len() && k != j implies b@[k] == before[k] by {
        if k < j {
            assert(b@[k] == before.remove(j as int)[k]);
        } else {
            assert(b@[k] == before.remove(j as int)[k - 1]);
        }
    }
}

/// Takes bucket `j` out of buckets whose entries from `j` on are still those
/// of `bs`, leaving an empty bucket in its place.
pub fn take_bucket(b: &mut Vec<Vec<Ie>>, j: usize, Ghost(bs): Ghost<Seq<Vec<Ie>>>) -> (r: Vec<Ie>)
    requires
        j < bs.len(),
        old(b)@.len() == bs.len(),
        forall|k: int| j <= k < bs.len() ==> #[trigger] old(b)@[k] == bs[k],
    ensures
        r == bs[j as int],
        final(b)@.len() == bs.len(),
        forall|k: int| j < k < bs.len() ==> #[trigger] final(b)@[k] == bs[k],
{
    let ghost before = b@;
    let r = b.remove(j);
    b.insert(j, Vec::new());
    assert forall|k: int| j < k < bs.len() implies #[trigger] b@[k] == bs[k] by {
        assert(b@[k] == before.remove(j as int)[k - 1]);
        assert(before.remove(j as int)[k - 1] == before[k]);
    }
    r
}

/// The last IE of `v`, if any.
pub fn last_ie(v: Vec<Ie>) -> (r: Option<Ie>)
    ensures
        opt_ie_seq(r) == last_seq(ies_view(v@)),
{
    let mut w = v;
    let ghost w0 = w@;
    match w.pop() {
        Some(x) => {
            assert(ies_view(w0).last() == x@);
            assert(opt_ie_seq(Some(x)) =~= last_seq(ies_view(w0)));
            Some(x)
        },
        None => {
            assert(ies_view(w0) =~= Seq::<IeView>::empty());
            None
        },
    }
}

/// Writes one IE as the next slot of a body being written after `p`.
pub fn write_slot_one(buf: &mut Vec<u8>, ie: &Ie, Ghost(p): Ghost<Seq<u8>>, Ghost(acc): Ghost<Seq<Seq<IeView>>>)
    requires
        old(buf)@ == p + ies_wire(concat_slots(acc)),
    ensures
        final(buf)@ == p + ies_wire(concat_slots(acc.push(seq![ie@]))),
{
    proof {
        lemma_concat_slots_push(acc, seq![ie@]);
    }
    append_one(buf, ie);
    assert(buf@ =~= p + ies_wire(concat_slots(acc.push(seq![ie@]))));
}

/// Writes an optional IE as the next slot of a body being written after `p`.
pub fn write_slot_opt(buf: &mut Vec<u8>, ie: &Option<Ie>, Ghost(p): Ghost<Seq<u8>>, Ghost(acc): Ghost<Seq<Seq<IeView>>>)
    requires
        old(buf)@ == p + ies_wire(concat_slots(acc)),
    ensures
        final(buf)@ == p + ies_wire(concat_slots(acc.push(opt_ie_seq(*ie)))),
{
    proof {
        lemma_concat_slots_push(acc, opt_ie_seq(*ie));
    }
    append_opt(buf, ie);
    assert(buf@ =~= p + ies_wire(concat_slots(acc.push(opt_ie_seq(*ie)))));
}

/// Writes a list of IEs as the next slot of a body being written after `p`.
pub fn write_slot_many(buf: &mut Vec<u8>, ies: &Vec<Ie>, Ghost(p): Ghost<Seq<u8>>, Ghost(acc): Ghost<Seq<Seq<IeView>>>)
    requires
        old(buf)@ == p + ies_wire(concat_slots(acc)),
    ensures
        final(buf)@ == p + ies_wire(concat_slots(acc.push(ies_view(ies@)))),
{
    proof {
        lemma_concat_slots_push(acc, ies_view(ies@));
    }
    append_many(buf, ies);
    assert(buf@ =~= p + ies_wire(concat_slots(acc.push(ies_view(ies@)))));
}

/// Writes an optional list of IEs as the next slot of a body being written after `p`.
pub fn write_slot_opt_many(
    buf: &mut Vec<u8>,
    ies: &Option<Vec<Ie>>,
    Ghost(p): Ghost<Seq<u8>>,
    Ghost(acc): Ghost<Seq<Seq<IeView>>>,
)
    requires
        old(buf)@ == p + ies_wire(concat_slots(acc)),
    ensures
        final(buf)@ == p + ies_wire(concat_slots(acc.push(opt_vec_seq(*ies)))),
{
    proof {
        lemma_concat_slots_push(acc, opt_vec_seq(*ies));
    }
    append_opt_many(buf, ies);
    assert(buf@ =~= p + ies_wire(concat_slots(acc.push(opt_vec_seq(*ies)))));
}

/// Lists one IE as the next slot.
pub fn list_slot_one<'a>(out: &mut Vec<&'a Ie>, ie: &'a Ie, Ghost(acc): Ghost<Seq<Seq<IeView>>>)
    requires
        ie_refs_view(old(out)@) == concat_slots(acc),
    ensures
        ie_refs_view(final(out)@) == concat_slots(acc.push(seq![ie@])),
{
    proof {
        lemma_concat_slots_push(acc, seq![ie@]);
    }
    refs_one(out, ie);
}

/// Lists an optional IE as the next slot.
pub fn list_slot_opt<'a>(out: &mut Vec<&'a Ie>, ie: &'a Option<Ie>, Ghost(acc): Ghost<Seq<Seq<IeView>>>)
    requires
        ie_refs_view(old(out)@) == concat_slots(acc),
    ensures
        ie_refs_view(final(out)@) == concat_slots(acc.push(opt_ie_seq(*ie))),
{
    proof {
        lemma_concat_slots_push(acc, opt_ie_seq(*ie));
    }
    refs_opt(out, ie);
}

/// Lists a list of IEs as the next slot.
pub fn list_slot_many<'a>(out: &mut Vec<&'a Ie>, ies: &'a Vec<Ie>, Ghost(acc): Ghost<Seq<Seq<IeView>>>)
    requires
        ie_refs_view(old(out)@) == concat_slots(acc),
    ensures
        ie_refs_view(final(out)@) == concat_slots(acc.push(ies_view(ies@))),
{
    proof {
        lemma_concat_slots_push(acc, ies_view(ies@));
    }
    refs_many(out, ies);
}

/// Lists an optional list of IEs as the next slot.
pub fn list_slot_opt_many<'a>(out: &mut Vec<&'a Ie>, ies: &'a Option<Vec<Ie>>, Ghost(acc): Ghost<Seq<Seq<IeView>>>)
    requires
        ie_refs_view(old(out)@) == concat_slots(acc),
    ensures
        ie_refs_view(final(out)@) == concat_slots(acc.push(opt_vec_seq(*ies))),
{
    proof {
        lemma_concat_slots_push(acc, opt_vec_seq(*ies));
    }
    refs_opt_many(out, ies);
}

/// Adds the size of one IE, as the next slot, to a 16-bit running length.
pub fn len_slot_one(len: u16, ie: &Ie, Ghost(acc): Ghost<Seq<Seq<IeView>>>) -> (r: u16)
    requires
        len == ies_size(concat_slots(acc)) % 65536,
    ensures
        r == ies_size(concat_slots(acc.push(seq![ie@]))) % 65536,
{
    proof {
        lemma_concat_slots_push(acc, seq![ie@]);
        lemma_len_step(ies_size(concat_slots(acc)) as int, ies_size(seq![ie@]) as int, len as int);
    }
    size_one(len, ie)
}

/// Adds the size of an optional IE, as the next slot, to a 16-bit running length.
pub fn len_slot_opt(len: u16, ie: &Option<Ie>, Ghost(acc): Ghost<Seq<Seq<IeView>>>) -> (r: u16)
    requires
        len == ies_size(concat_slots(acc)) % 65536,
    ensures
        r == ies_size(concat_slots(acc.push(opt_ie_seq(*ie)))) % 65536,
{
    proof {
        lemma_concat_slots_push(acc, opt_ie_seq(*ie));
        lemma_len_step(ies_size(concat_slots(acc)) as int, ies_size(opt_ie_seq(*ie)) as int, len as int);
    }
    size_opt(len, ie)
}

/// Adds the sizes of a list of IEs, as the next slot, to a 16-bit running length.
pub fn len_slot_many(len: u16, ies: &Vec<Ie>, Ghost(acc): Ghost<Seq<Seq<IeView>>>) -> (r: u16)
    requires
        len == ies_size(concat_slots(acc)) % 65536,
    ensures
        r == ies_size(concat_slots(acc.push(ies_view(ies@)))) % 65536,
{
    proof {
        lemma_concat_slots_push(acc, ies_view(ies@));
        lemma_len_step(ies_size(concat_slots(acc)) as int, ies_size(ies_view(ies@)) as int, len as int);
    }
    size_many(len, ies)
}

/// Adds the sizes of an optional list of IEs, as the next slot, to a 16-bit running length.
pub fn len_slot_opt_many(len: u16, ies: &Option<Vec<Ie>>, Ghost(acc): Ghost<Seq<Seq<IeView>>>) -> (r: u16)
    requires
        len == ies_size(concat_slots(acc)) % 65536,
    ensures
        r == ies_size(concat_slots(acc.push(opt_vec_seq(*ies)))) % 65536,
{
    proof {
        lemma_concat_slots_push(acc, opt_vec_seq(*ies));
        lemma_len_step(ies_size(concat_slots(acc)) as int, ies_size(opt_vec_seq(*ies)) as int, len as int);
    }
    size_opt_many(len, ies)
}

/// Filtering by two tests that agree on every IE type keeps the same IEs.
pub proof fn lemma_ies_where_ext(s: Seq<IeView>, p: spec_fn(IeType) -> bool, q: spec_fn(IeType) -> bool)
    requires
        forall|t: IeType| #[trigger] p(t) == q(t),
    ensures
        ies_where(s, p) == ies_where(s, q),
    decreases s.len(),
{
    if s.len() > 0 {
        lemma_ies_where_ext(s.drop_last(), p, q);
        assert(p(s.last().ie_type) == q(s.last().ie_type));
    }
}

/// The IEs of one type are the IEs that pass the test "is of that type".
pub proof fn lemma_ies_of_type_is_where(s: Seq<IeView>, t: IeType)
    ensures
        ies_of_type(s, t) == ies_where(s, |x: IeType| x == t),
    decreases s.len(),
{
    if s.len() > 0 {
        lemma_ies_of_type_is_where(s.drop_last(), t);
    }
}

/// When every IE of `s` has type `t`, the IEs of type `t` are all of `s`.
pub proof fn lemma_of_type_all(s: Seq<IeView>, t: IeType)
    requires
        forall|k: int| 0 <= k < s.len() ==> (#[trigger] s[k]).ie_type == t,
    ensures
        ies_of_type(s, t) == s,
{
    lemma_ies_of_type_is_where(s, t);
    lemma_where_all(s, |x: IeType| x == t);
}

/// The IEs of type `t` in classified slots are those of the slot that `t`
/// is assigned to.
pub proof fn lemma_of_type_classified(ss: Seq<Seq<IeView>>, cls: spec_fn(IeType) -> int, t: IeType)
    requires
        slots_classified(ss, cls),
    ensures
        ies_of_type(concat_slots(ss), t) == (if 0 <= cls(t) < ss.len() {
            ies_of_type(ss[cls(t)], t)
        } else {
            Seq::<IeView>::empty()
        }),
    decreases ss.len(),
{
    if ss.len() == 0 {
        assert(ies_of_type(Seq::<IeView>::empty(), t) =~= Seq::<IeView>::empty());
    } else {
        let pre = ss.drop_last();
        let n = ss.len() - 1;
        assert(slots_classified(pre, cls)) by {
            assert forall|i: int, k: int| 0 <= i < pre.len() && 0 <= k < pre[i].len() implies cls(
                #[trigger] pre[i][k].ie_type,
            ) == i by {
                assert(pre[i] == ss[i]);
            }
        }
        lemma_of_type_classified(pre, cls, t);
        lemma_ies_of_type_append(concat_slots(pre), ss.last(), t);
        if cls(t) != n {
            let l = ss.last();
            assert forall|k: int| 0 <= k < l.len() implies (#[trigger] l[k]).ie_type != t by {
                assert(l == ss[n]);
                assert(cls(ss[n][k].ie_type) == n);
            }
            lemma_of_type_none(l, t);
            if 0 <= cls(t) < n {
                assert(pre[cls(t)] == ss[cls(t)]);
            }
            assert(ies_of_type(concat_slots(pre), t) + Seq::<IeView>::empty() =~= ies_of_type(concat_slots(pre), t));
        } else {
            assert(Seq::<IeView>::empty() + ies_of_type(ss.last(), t) =~= ies_of_type(ss.last(), t));
        }
    }
}

/// Every IE of type `t` is of type `t`.
pub proof fn lemma_of_type_types(s: Seq<IeView>, t: IeType)
    ensures
        forall|k: int| 0 <= k < ies_of_type(s, t).len() ==> (#[trigger] ies_of_type(s, t)[k]).ie_type == t,
    decreases s.len(),
{
    if s.len() > 0 {
        lemma_of_type_types(s.drop_last(), t);
    }
}

/// Adding a slot whose IEs are all assigned to it keeps the slots classified.
pub proof fn lemma_classified_push(ss: Seq<Seq<IeView>>, s: Seq<IeView>, cls: spec_fn(IeType) -> int)
    requires
        slots_classified(ss, cls),
        forall|k: int| 0 <= k < s.len() ==> cls(#[trigger] s[k].ie_type) == ss.len(),
    ensures
        slots_classified(ss.push(s), cls),
{
    let t = ss.push(s);
    assert forall|i: int, k: int| 0 <= i < t.len() && 0 <= k < t[i].len() implies cls(#[trigger] t[i][k].ie_type) == i by {
        if i < ss.len() {
            assert(t[i] == ss[i]);
        } else {
            assert(t[i] == s);
        }
    }
}

} // verus!
