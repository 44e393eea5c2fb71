use vstd::prelude::*;

verus! {

/// A value of exactly one of two types: the disjoint union of `L` and `R`.
///
/// It lets two sagas over unrelated types work side by side under one type,
/// the variant telling which of the two a value belongs to.
#[derive(Debug, PartialEq, Eq)]
pub enum Sum<L, R> {
    /// A value of the first type.
    First(L),
    /// A value of the second type.
    Second(R),
}

impl<L: Clone, R: Clone> Clone for Sum<L, R> {
    /// The same variant, holding a clone of the value.
    fn clone(&self) -> (copy: Self)
        ensures
            match (*self, copy) {
                (Sum::First(l), Sum::First(c)) => cloned(l, c),
                (Sum::Second(r), Sum::Second(c)) => cloned(r, c),
                _ => false,
            },
    {
        match self {
            Sum::First(l) => Sum::First(l.clone()),
            Sum::Second(r) => Sum::Second(r.clone()),
        }
    }
}

/// The sequence `ls`, each element wrapped as `First`.
pub open spec fn seq_first<L, R>(ls: Seq<L>) -> Seq<Sum<L, R>> {
    ls.map_values(|l: L| Sum::First(l))
}

/// The sequence `rs`, each element wrapped as `Second`.
pub open spec fn seq_second<L, R>(rs: Seq<R>) -> Seq<Sum<L, R>> {
    rs.map_values(|r: R| Sum::Second(r))
}

/// Wraps every element of `ls` as `First`, keeping the order.
pub(crate) fn wrap_first<L, R>(ls: Vec<L>) -> (wrapped: Vec<Sum<L, R>>)
    ensures
        wrapped@ == seq_first::<L, R>(ls@),
{
    let mut wrapped: Vec<Sum<L, R>> = Vec::new();
    for l in it: ls
        invariant
            wrapped@ == seq_first::<L, R>(it.seq().take(it.index() as int)),
    {
        wrapped.push(Sum::First(l));
    }
    wrapped
}

/// Wraps every element of `rs` as `Second`, keeping the order.
pub(crate) fn wrap_second<L, R>(rs: Vec<R>) -> (wrapped: Vec<Sum<L, R>>)
    ensures
        wrapped@ == seq_second::<L, R>(rs@),
{
    let mut wrapped: Vec<Sum<L, R>> = Vec::new();
    for r in it: rs
        invariant
            wrapped@ == seq_second::<L, R>(it.seq().take(it.index() as int)),
    {
        wrapped.push(Sum::Second(r));
    }
    wrapped
}

} // verus!
