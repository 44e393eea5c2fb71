//! The mathematical model of function values, and of sagas among them.

use crate::sum::{seq_first, seq_second, Sum};
use vstd::prelude::*;

verus! {

/// What is known of a function value from `X` to `Y`: the arguments it may be
/// called on, and the results it may return on each of them.
///
/// An executable function is known by its contract. Its behavior accepts the
/// arguments that meet its precondition, and yields on each of them the
/// results that its postcondition allows: see [`behavior_of`]. A pure, total
/// function is the behavior that accepts every argument and yields on each
/// exactly one result: see [`Behavior::function`].
///
/// The behavior of a saga goes from action results to sequences of actions.
#[verifier::ext_equal]
#[verifier::reject_recursive_types(X)]
#[verifier::reject_recursive_types(Y)]
pub struct Behavior<X, Y> {
    /// The arguments on which the function may be called.
    pub accepts: spec_fn(X) -> bool,
    /// `yields(x, y)`: called on `x`, the function may return `y`.
    pub yields: spec_fn(X, Y) -> bool,
}

/// The behavior of the executable function `f`, as its contract gives it.
pub open spec fn behavior_of<X, Y, F: Fn(&X) -> Y>(f: F) -> Behavior<X, Y> {
    Behavior {
        accepts: |x: X| call_requires(f, (&x,)),
        yields: |x: X, y: Y| call_ensures(f, (&x,), y),
    }
}

/// The behavior of the executable reaction function `f`, as its contract
/// gives it: the actions that it returns are taken as a sequence.
pub open spec fn reaction_of<AR, A, F: Fn(&AR) -> Vec<A>>(f: F) -> Behavior<AR, Seq<A>> {
    Behavior {
        accepts: |ar: AR| call_requires(f, (&ar,)),
        yields: |ar: AR, actions: Seq<A>|
            exists|v: Vec<A>| #[trigger] call_ensures(f, (&ar,), v) && v@ == actions,
    }
}

impl<X> Behavior<X, X> {
    /// The function that returns its argument.
    pub open spec fn identity() -> Behavior<X, X> {
        Behavior::function(|x: X| x)
    }
}

impl<X, Y> Behavior<X, Y> {
    /// The pure, total function `g`: it may be called on every `x`, and
    /// returns `g(x)` and nothing else.
    pub open spec fn function(g: spec_fn(X) -> Y) -> Behavior<X, Y> {
        Behavior { accepts: |x: X| true, yields: |x: X, y: Y| y == g(x) }
    }

    /// The function of which nothing is known: no argument is known to be
    /// accepted, and no result is ruled out.
    pub open spec fn unknown() -> Behavior<X, Y> {
        Behavior { accepts: |x: X| false, yields: |x: X, y: Y| true }
    }

    /// `self` first, then `next` on its result.
    ///
    /// It may be called on `x` where `self` may, and `next` may be called on
    /// whatever `self` returns on `x`.
    pub open spec fn and_then<Z>(self, next: Behavior<Y, Z>) -> Behavior<X, Z> {
        Behavior {
            accepts: |x: X|
                (self.accepts)(x) && forall|y: Y| #[trigger]
                    (self.yields)(x, y) ==> (next.accepts)(y),
            yields: |x: X, z: Z|
                exists|y: Y| #[trigger] (self.yields)(x, y) && (next.yields)(y, z),
        }
    }

    /// `self` returns a result on every argument that it accepts.
    pub open spec fn productive(self) -> bool {
        forall|x: X| #[trigger] (self.accepts)(x) ==> exists|y: Y| #[trigger] (self.yields)(x, y)
    }

    /// `self` can stand in for `other`: it accepts whatever `other` accepts,
    /// and on such an argument returns only what `other` may return.
    pub open spec fn refines(self, other: Behavior<X, Y>) -> bool {
        &&& forall|x: X| #[trigger] (other.accepts)(x) ==> (self.accepts)(x)
        &&& forall|x: X, y: Y|
            (other.accepts)(x) && #[trigger] (self.yields)(x, y) ==> (other.yields)(x, y)
    }

    /// `self` accepts every element of `xs`.
    pub open spec fn accepts_each(self, xs: Seq<X>) -> bool {
        forall|i: int| 0 <= i < xs.len() ==> (self.accepts)(#[trigger] xs[i])
    }

    /// `ys` is a possible result of applying `self` to `xs` element by
    /// element: as many elements, each the result for the element of `xs` at
    /// its place.
    pub open spec fn yields_each(self, xs: Seq<X>, ys: Seq<Y>) -> bool {
        &&& xs.len() == ys.len()
        &&& forall|i: int| 0 <= i < xs.len() ==> (self.yields)(#[trigger] xs[i], ys[i])
    }
}

impl<AR, A> Behavior<AR, Seq<A>> {
    /// The saga that reacts as `self` does and passes each action through
    /// `transform`, in order.
    ///
    /// It accepts `ar` where `self` does and `transform` accepts every action
    /// that `self` may give for `ar`.
    pub open spec fn map_action<A2>(self, transform: Behavior<A, A2>) -> Behavior<AR, Seq<A2>> {
        Behavior {
            accepts: |ar: AR|
                (self.accepts)(ar) && forall|actions: Seq<A>| #[trigger]
                    (self.yields)(ar, actions) ==> transform.accepts_each(actions),
            yields: |ar: AR, mapped: Seq<A2>|
                exists|actions: Seq<A>| #[trigger]
                    (self.yields)(ar, actions) && transform.yields_each(actions, mapped),
        }
    }

    /// The saga that passes its input through `transform` and reacts to the
    /// result as `self` does.
    pub open spec fn map_action_result<AR2>(self, transform: Behavior<AR2, AR>) -> Behavior<
        AR2,
        Seq<A>,
    > {
        transform.and_then(self)
    }

    /// The saga over the unions of the types of `self` and `other`. On
    /// `First(ar)` it gives the actions of `self` on `ar`, each wrapped as
    /// `Second`; on `Second(ar2)` the actions of `other` on `ar2`, each
    /// wrapped as `First`.
    pub open spec fn combine<AR2, A2>(self, other: Behavior<AR2, Seq<A2>>) -> Behavior<
        Sum<AR, AR2>,
        Seq<Sum<A2, A>>,
    > {
        Behavior {
            accepts: |ar: Sum<AR, AR2>|
                match ar {
                    Sum::First(ar1) => (self.accepts)(ar1),
                    Sum::Second(ar2) => (other.accepts)(ar2),
                },
            yields: |ar: Sum<AR, AR2>, actions: Seq<Sum<A2, A>>|
                match ar {
                    Sum::First(ar1) => exists|a: Seq<A>| #[trigger]
                        (self.yields)(ar1, a) && actions == seq_second::<A2, A>(a),
                    Sum::Second(ar2) => exists|a2: Seq<A2>| #[trigger]
                        (other.yields)(ar2, a2) && actions == seq_first::<A2, A>(a2),
                },
        }
    }

    /// The saga that reacts to one input as both `self` and `other` do. It
    /// gives the actions of `self`, each wrapped as `Second`, followed by the
    /// actions of `other`, each wrapped as `First`.
    pub open spec fn merge<A2>(self, other: Behavior<AR, Seq<A2>>) -> Behavior<
        AR,
        Seq<Sum<A2, A>>,
    > {
        Behavior {
            accepts: |ar: AR| (self.accepts)(ar) && (other.accepts)(ar),
            yields: |ar: AR, actions: Seq<Sum<A2, A>>|
                exists|a: Seq<A>, a2: Seq<A2>|
                    #![trigger (self.yields)(ar, a), (other.yields)(ar, a2)]
                    (self.yields)(ar, a) && (other.yields)(ar, a2) && actions == seq_second::<
                        A2,
                        A,
                    >(a) + seq_first::<A2, A>(a2),
        }
    }
}

} // verus!
