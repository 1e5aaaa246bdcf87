//! Iterators over the IEs of a message.
use crate::ie::{ie_refs_view, ies_of_type, ies_view, lemma_ies_of_type_append, Ie, IeType, IeView};
use vstd::prelude::*;

verus! {

/// Where an `IeIter` takes its IEs from.
#[derive(Clone, Copy)]
pub enum IeIterState<'a> {
    /// At most one IE, whatever its type.
    Single(Option<&'a Ie>),
    /// All IEs of a slice from `position` on, whatever their types.
    Multiple { ies: &'a [Ie], position: usize },
    /// The IEs of a slice from `position` on that have the iterator's type.
    Generic { all_ies: &'a [Ie], position: usize },
}

/// An iterator over the IEs of one type in a message.
pub struct IeIter<'a> {
    pub ie_type: IeType,
    pub state: IeIterState<'a>,
}

impl<'a> View for IeIter<'a> {
    /// The IEs the iterator has still to yield.
    type V = Seq<IeView>;

    open spec fn view(&self) -> Seq<IeView> {
        match self.state {
            IeIterState::Single(None) => Seq::empty(),
            IeIterState::Single(Some(ie)) => seq![ie@],
            IeIterState::Multiple { ies, position } => ies_view(ies@.skip(position as int)),
            IeIterState::Generic { all_ies, position } => ies_of_type(
                ies_view(all_ies@.skip(position as int)),
                self.ie_type,
            ),
        }
    }
}

/// The position of an iterator over a slice.
pub open spec fn iter_position_ok(it: IeIter) -> bool {
    match it.state {
        IeIterState::Single(_) => true,
        IeIterState::Multiple { ies, position } => position <= ies@.len(),
        IeIterState::Generic { all_ies, position } => position <= all_ies@.len(),
    }
}

proof fn lemma_skip_step(s: Seq<Ie>, p: int)
    requires
        0 <= p < s.len(),
    ensures
        ies_view(s.skip(p)) == seq![s[p]@] + ies_view(s.skip(p + 1)),
{
    assert(ies_view(s.skip(p)) =~= seq![s[p]@] + ies_view(s.skip(p + 1)));
}

proof fn lemma_of_type_single(x: IeView, t: IeType)
    ensures
        ies_of_type(seq![x], t) == (if x.ie_type == t { seq![x] } else { Seq::<IeView>::empty() }),
{
    assert(seq![x].drop_last() =~= Seq::<IeView>::empty());
    assert(seq![x].last() == x);
    assert(ies_of_type(Seq::<IeView>::empty(), t) =~= Seq::<IeView>::empty());
    assert(Seq::<IeView>::empty().push(x) =~= seq![x]);
}

impl<'a> IeIter<'a> {
    /// An iterator that yields `ie` if there is one.
    pub fn single(ie: Option<&'a Ie>, ie_type: IeType) -> (r: Self)
        ensures
            r@ == (match ie {
                None => Seq::<IeView>::empty(),
                Some(x) => seq![x@],
            }),
            r.ie_type == ie_type,
            r.state == IeIterState::Single(ie),
            iter_position_ok(r),
    {
        IeIter { ie_type, state: IeIterState::Single(ie) }
    }

    /// An iterator that yields all of `ies`.
    pub fn multiple(ies: &'a [Ie], ie_type: IeType) -> (r: Self)
        ensures
            r@ == ies_view(ies@),
            r.ie_type == ie_type,
            r.state == (IeIterState::Multiple { ies, position: 0 }),
            iter_position_ok(r),
    {
        proof {
            assert(ies@.skip(0) =~= ies@);
        }
        IeIter { ie_type, state: IeIterState::Multiple { ies, position: 0 } }
    }

    /// An iterator that yields the IEs of `all_ies` of type `ie_type`.
    pub fn generic(all_ies: &'a [Ie], ie_type: IeType) -> (r: Self)
        ensures
            r@ == ies_of_type(ies_view(all_ies@), ie_type),
            r.ie_type == ie_type,
            r.state == (IeIterState::Generic { all_ies, position: 0 }),
            iter_position_ok(r),
    {
        proof {
            assert(all_ies@.skip(0) =~= all_ies@);
        }
        IeIter { ie_type, state: IeIterState::Generic { all_ies, position: 0 } }
    }

    /// The next IE, if any.
    #[verifier::loop_isolation(false)]
    pub fn next(&mut self) -> (r: Option<&'a Ie>)
        requires
            iter_position_ok(*old(self)),
        ensures
            iter_position_ok(*final(self)),
            old(self)@.len() == 0 ==> r is None && final(self)@.len() == 0,
            old(self)@.len() > 0 ==> r is Some && r.unwrap()@ == old(self)@[0] && final(self)@
                == old(self)@.skip(1),
    {
        let t = self.ie_type;
        match self.state {
            IeIterState::Single(opt) => {
                self.state = IeIterState::Single(None);
                proof {
                    if opt is Some {
                        assert(seq![opt.unwrap()@].skip(1) =~= Seq::<IeView>::empty());
                    }
                }
                opt
            },
            IeIterState::Multiple { ies, position } => {
                if position < ies.len() {
                    proof {
                        lemma_skip_step(ies@, position as int);
                    }
                    self.state = IeIterState::Multiple { ies, position: position + 1 };
                    Some(&ies[position])
                } else {
                    proof {
                        assert(ies@.skip(position as int) =~= Seq::<Ie>::empty());
                        assert(ies_view(Seq::<Ie>::empty()) =~= Seq::<IeView>::empty());
                    }
                    None
                }
            },
            IeIterState::Generic { all_ies, position } => {
                let mut p = position;
                while p < all_ies.len()
                    invariant
                        position <= p <= all_ies@.len(),
                        self.ie_type == t,
                        *self == *old(self),
                        ies_of_type(ies_view(all_ies@.skip(position as int)), t) == ies_of_type(
                            ies_view(all_ies@.skip(p as int)),
                            t,
                        ),
                    decreases all_ies@.len() - p,
                {
                    proof {
                        lemma_skip_step(all_ies@, p as int);
                        lemma_ies_of_type_append(seq![all_ies@[p as int]@], ies_view(all_ies@.skip(p + 1)), t);
                        lemma_of_type_single(all_ies@[p as int]@, t);
                    }
                    if all_ies[p].ie_type == t {
                        proof {
                            assert(ies_of_type(ies_view(all_ies@.skip(p as int)), t) =~= seq![all_ies@[p as int]@]
                                + ies_of_type(ies_view(all_ies@.skip(p + 1)), t));
                            assert((seq![all_ies@[p as int]@] + ies_of_type(ies_view(all_ies@.skip(p + 1)), t)).skip(1)
                                =~= ies_of_type(ies_view(all_ies@.skip(p + 1)), t));
                        }
                        let ghost rest = ies_of_type(ies_view(all_ies@.skip(p + 1)), t);
                        assert(old(self)@ == seq![all_ies@[p as int]@] + rest);
                        self.state = IeIterState::Generic { all_ies, position: p + 1 };
                        assert(self.ie_type == t);
                        assert(self.state == IeIterState::Generic { all_ies, position: (p + 1) as usize });
                        assert(self@ == rest);
                        return Some(&all_ies[p]);
                    }
                    proof {
                        assert(ies_of_type(ies_view(all_ies@.skip(p as int)), t) =~= ies_of_type(
                            ies_view(all_ies@.skip(p + 1)),
                            t,
                        ));
                    }
                    p = p + 1;
                }
                proof {
                    assert(all_ies@.skip(p as int) =~= Seq::<Ie>::empty());
                    assert(ies_view(Seq::<Ie>::empty()) =~= Seq::<IeView>::empty());
                    assert(ies_of_type(Seq::<IeView>::empty(), t) =~= Seq::<IeView>::empty());
                }
                self.state = IeIterState::Generic { all_ies, position: p };
                None
            },
        }
    }

    /// Bounds on the number of IEs still to come.
    pub fn size_hint(&self) -> (r: (usize, Option<usize>))
        requires
            iter_position_ok(*self),
        ensures
            r == (match self.state {
                IeIterState::Single(Some(_)) => (1usize, Some(1usize)),
                IeIterState::Single(None) => (0usize, Some(0usize)),
                IeIterState::Multiple { ies, position } => (
                    (ies@.len() - position) as usize,
                    Some((ies@.len() - position) as usize),
                ),
                IeIterState::Generic { all_ies, position } => (
                    0usize,
                    Some((all_ies@.len() - position) as usize),
                ),
            }),
    {
        match &self.state {
            IeIterState::Single(Some(_)) => (1, Some(1)),
            IeIterState::Single(None) => (0, Some(0)),
            IeIterState::Multiple { ies, position } => {
                let n = ies.len() - *position;
                (n, Some(n))
            },
            IeIterState::Generic { all_ies, position } => (0, Some(all_ies.len() - *position)),
        }
    }

    /// Collects the remaining IEs.
    pub fn collect(self) -> (r: Vec<&'a Ie>)
        requires
            iter_position_ok(self),
        ensures
            ie_refs_view(r@) == self@,
    {
        let mut it = self;
        let mut out: Vec<&'a Ie> = Vec::new();
        let ghost total = self@;
        let ghost mut k: int = 0;
        loop
            invariant
                iter_position_ok(it),
                0 <= k <= total.len(),
                ie_refs_view(out@) == total.take(k),
                it@ == total.skip(k),
                total == self@,
            decreases it@.len(),
        {
            let ghost before = it@;
            match it.next() {
                Some(ie) => {
                    proof {
                        assert(ie_refs_view(out@.push(ie)) =~= ie_refs_view(out@).push(ie@));
                        assert(total.take(k + 1) =~= total.take(k).push(total[k]));
                        assert(total.skip(k).skip(1) =~= total.skip(k + 1));
                        k = k + 1;
                    }
                    out.push(ie);
                },
                None => {
                    proof {
                        assert(before == total.skip(k));
                        assert(before.len() == 0);
                        assert(k == total.len());
                        assert(total.take(k) =~= total);
                    }
                    return out;
                },
            }
        }
    }

    /// The number of remaining IEs.
    pub fn count(self) -> (r: usize)
        requires
            iter_position_ok(self),
        ensures
            r == self@.len(),
    {
        let v = self.collect();
        v.len()
    }
}

} // verus!
