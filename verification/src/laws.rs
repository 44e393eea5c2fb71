//! The laws of the saga combinators, stated of behaviors.
//!
//! Every combinator of [`crate::saga::Saga`] gives a saga whose view is the
//! combinator of the same name applied to the views of its parts, so each law
//! here holds of the sagas that the combinators build.

use crate::behavior::Behavior;
use crate::sum::{seq_first, seq_second, Sum};
use vstd::prelude::*;

verus! {

/// Identity law of `map_action`: a saga whose actions are mapped with the
/// identity is the saga itself.
pub proof fn law_map_action_identity<AR, A>(s: Behavior<AR, Seq<A>>)
    ensures
        s.map_action(Behavior::identity()) == s,
{
    let id = Behavior::<A, A>::identity();
    let mapped = s.map_action(id);
    assert forall|ar: AR, out: Seq<A>| #[trigger] (mapped.yields)(ar, out) == (s.yields)(
        ar,
        out,
    ) by {
        if (mapped.yields)(ar, out) {
            let a = choose|a: Seq<A>| #[trigger] (s.yields)(ar, a) && id.yields_each(a, out);
            assert(a =~= out);
        }
        if (s.yields)(ar, out) {
            assert(id.yields_each(out, out));
        }
    }
    assert(mapped =~= s);
}

/// Composition law of `map_action`: mapping the actions with `f` and then
/// with `g` yields what mapping them once with `f` followed by `g` yields.
///
/// The saga mapped twice accepts whatever the saga mapped once accepts. It
/// accepts no more, and so the two are the same saga, where `f` returns on
/// every action that it accepts: mapped twice, `g` is only reached when `f`
/// has returned on every action.
pub proof fn law_map_action_composition<AR, A, A2, A3>(
    s: Behavior<AR, Seq<A>>,
    f: Behavior<A, A2>,
    g: Behavior<A2, A3>,
)
    ensures
        s.map_action(f).map_action(g).yields == s.map_action(f.and_then(g)).yields,
        forall|ar: AR| #[trigger]
            (s.map_action(f.and_then(g)).accepts)(ar) ==> (s.map_action(f).map_action(g).accepts)(
                ar,
            ),
        f.productive() ==> s.map_action(f).map_action(g) == s.map_action(f.and_then(g)),
{
    let twice = s.map_action(f).map_action(g);
    let once = s.map_action(f.and_then(g));
    assert forall|ar: AR, out: Seq<A3>| #[trigger] (twice.yields)(ar, out) == (once.yields)(
        ar,
        out,
    ) by {
        if (twice.yields)(ar, out) {
            let mid = choose|mid: Seq<A2>| #[trigger]
                (s.map_action(f).yields)(ar, mid) && g.yields_each(mid, out);
            let a = choose|a: Seq<A>| #[trigger] (s.yields)(ar, a) && f.yields_each(a, mid);
            assert forall|i: int| 0 <= i < a.len() implies (f.and_then(g).yields)(
                #[trigger] a[i],
                out[i],
            ) by {
                assert((f.yields)(a[i], mid[i]) && (g.yields)(mid[i], out[i]));
            }
            assert(f.and_then(g).yields_each(a, out));
        }
        if (once.yields)(ar, out) {
            let a = choose|a: Seq<A>| #[trigger]
                (s.yields)(ar, a) && f.and_then(g).yields_each(a, out);
            // What `f` returned on each action, on its way to `out`.
            let mid = Seq::new(
                a.len(),
                |i: int| choose|y: A2| #[trigger] (f.yields)(a[i], y) && (g.yields)(y, out[i]),
            );
            assert forall|i: int| 0 <= i < a.len() implies (f.yields)(#[trigger] a[i], mid[i])
                && (g.yields)(mid[i], out[i]) by {
                assert((f.and_then(g).yields)(a[i], out[i]));
            }
            assert(f.yields_each(a, mid));
            assert(g.yields_each(mid, out));
            assert((s.map_action(f).yields)(ar, mid));
        }
    }
    assert(twice.yields =~= once.yields);
    assert forall|ar: AR| #[trigger] (once.accepts)(ar) implies (twice.accepts)(ar) by {
        assert forall|a: Seq<A>| #[trigger] (s.yields)(ar, a) implies f.accepts_each(a) by {
            assert(f.and_then(g).accepts_each(a));
        }
        assert forall|mid: Seq<A2>| #[trigger]
            (s.map_action(f).yields)(ar, mid) implies g.accepts_each(mid) by {
            let a = choose|a: Seq<A>| #[trigger] (s.yields)(ar, a) && f.yields_each(a, mid);
            assert(f.and_then(g).accepts_each(a));
            assert forall|i: int| 0 <= i < mid.len() implies (g.accepts)(#[trigger] mid[i]) by {
                assert((f.and_then(g).accepts)(a[i]));
                assert((f.yields)(a[i], mid[i]));
            }
        }
    }
    if f.productive() {
        assert forall|ar: AR| #[trigger] (twice.accepts)(ar) implies (once.accepts)(ar) by {
            assert forall|a: Seq<A>, i: int, y: A2|
                (s.yields)(ar, a) && 0 <= i < a.len() && #[trigger] (f.yields)(
                    a[i],
                    y,
                ) implies (g.accepts)(y) by {
                assert(f.accepts_each(a));
                // A result of `f` on all of `a` that holds `y` at `i`.
                let mid = Seq::new(
                    a.len(),
                    |j: int|
                        if j == i {
                            y
                        } else {
                            choose|z: A2| #[trigger] (f.yields)(a[j], z)
                        },
                );
                assert forall|j: int| 0 <= j < a.len() implies (f.yields)(
                    #[trigger] a[j],
                    mid[j],
                ) by {
                    assert((f.accepts)(a[j]));
                }
                assert(f.yields_each(a, mid));
                assert((s.map_action(f).yields)(ar, mid));
                assert(g.accepts_each(mid));
                assert((g.accepts)(mid[i]));
            }
            assert forall|a: Seq<A>| #[trigger] (s.yields)(ar, a) implies f.and_then(
                g,
            ).accepts_each(a) by {
                assert(f.accepts_each(a));
            }
        }
        assert(twice.accepts =~= once.accepts);
        assert(twice =~= once);
    }
}

/// A saga mapped over its action results reacts to `ar2` as the saga itself
/// reacts to what `f` makes of `ar2`.
pub proof fn law_map_action_result<AR, A, AR2>(
    s: Behavior<AR, Seq<A>>,
    f: Behavior<AR2, AR>,
    ar2: AR2,
)
    ensures
        (s.map_action_result(f).accepts)(ar2) <==> (f.accepts)(ar2) && forall|ar: AR| #[trigger]
            (f.yields)(ar2, ar) ==> (s.accepts)(ar),
        forall|actions: Seq<A>| #[trigger]
            (s.map_action_result(f).yields)(ar2, actions) <==> exists|ar: AR| #[trigger]
                (f.yields)(ar2, ar) && (s.yields)(ar, actions),
{
}

/// On `First(ar)` the combination of `s1` and `s2` reacts as `s1` does on
/// `ar`: the same actions in the same order, each wrapped as `Second`.
pub proof fn law_combine_first<AR, A, AR2, A2>(
    s1: Behavior<AR, Seq<A>>,
    s2: Behavior<AR2, Seq<A2>>,
    ar: AR,
)
    ensures
        (s1.combine(s2).accepts)(Sum::First(ar)) <==> (s1.accepts)(ar),
        forall|actions: Seq<Sum<A2, A>>| #[trigger]
            (s1.combine(s2).yields)(Sum::First(ar), actions) <==> exists|a: Seq<A>| #[trigger]
                (s1.yields)(ar, a) && actions == seq_second::<A2, A>(a),
{
    let combined = s1.combine(s2);
    assert forall|actions: Seq<Sum<A2, A>>| (exists|a: Seq<A>| #[trigger]
        (s1.yields)(ar, a) && actions == seq_second::<A2, A>(a)) implies #[trigger]
        (combined.yields)(Sum::First(ar), actions) by {
        let a = choose|a: Seq<A>| #[trigger]
            (s1.yields)(ar, a) && actions == seq_second::<A2, A>(a);
        assert(Sum::<AR, AR2>::First(ar) matches Sum::First(ar1) && (s1.yields)(ar1, a));
    }
}

/// On `Second(ar2)` the combination of `s1` and `s2` reacts as `s2` does on
/// `ar2`: the same actions in the same order, each wrapped as `First`.
pub proof fn law_combine_second<AR, A, AR2, A2>(
    s1: Behavior<AR, Seq<A>>,
    s2: Behavior<AR2, Seq<A2>>,
    ar2: AR2,
)
    ensures
        (s1.combine(s2).accepts)(Sum::Second(ar2)) <==> (s2.accepts)(ar2),
        forall|actions: Seq<Sum<A2, A>>| #[trigger]
            (s1.combine(s2).yields)(Sum::Second(ar2), actions) <==> exists|a2: Seq<A2>|
                #[trigger] (s2.yields)(ar2, a2) && actions == seq_first::<A2, A>(a2),
{
    let combined = s1.combine(s2);
    assert forall|actions: Seq<Sum<A2, A>>| (exists|a2: Seq<A2>| #[trigger]
        (s2.yields)(ar2, a2) && actions == seq_first::<A2, A>(a2)) implies #[trigger]
        (combined.yields)(Sum::Second(ar2), actions) by {
        let a2 = choose|a2: Seq<A2>| #[trigger]
            (s2.yields)(ar2, a2) && actions == seq_first::<A2, A>(a2);
        assert(Sum::<AR, AR2>::Second(ar2) matches Sum::Second(ar) && (s2.yields)(ar, a2));
    }
}

/// The merger of `s1` and `s2` reacts to `ar` with the actions of `s1` on
/// `ar`, each wrapped as `Second`, followed by the actions of `s2` on the same
/// `ar`, each wrapped as `First`.
pub proof fn law_merge<AR, A, A2>(s1: Behavior<AR, Seq<A>>, s2: Behavior<AR, Seq<A2>>, ar: AR)
    ensures
        (s1.merge(s2).accepts)(ar) <==> (s1.accepts)(ar) && (s2.accepts)(ar),
        forall|actions: Seq<Sum<A2, A>>| #[trigger]
            (s1.merge(s2).yields)(ar, actions) <==> exists|a: Seq<A>, a2: Seq<A2>|
                #![trigger (s1.yields)(ar, a), (s2.yields)(ar, a2)]
                (s1.yields)(ar, a) && (s2.yields)(ar, a2) && actions == seq_second::<A2, A>(a)
                    + seq_first::<A2, A>(a2),
{
}

/// `map_action` keeps refinement: where `s1` can stand in for `s2` and `f1`
/// for `f2`, `s1` mapped with `f1` can stand in for `s2` mapped with `f2`.
///
/// So the laws of `map_action` carry over to transforms of which less is
/// known than their exact results. A saga mapped with a transform that may be
/// called on every action, and only ever returns its argument, refines the
/// saga mapped with the identity: the saga itself.
pub proof fn law_map_action_refines<AR, A, A2>(
    s1: Behavior<AR, Seq<A>>,
    s2: Behavior<AR, Seq<A>>,
    f1: Behavior<A, A2>,
    f2: Behavior<A, A2>,
)
    requires
        s1.refines(s2),
        f1.refines(f2),
    ensures
        s1.map_action(f1).refines(s2.map_action(f2)),
{
    let m1 = s1.map_action(f1);
    let m2 = s2.map_action(f2);
    assert forall|ar: AR| #[trigger] (m2.accepts)(ar) implies (m1.accepts)(ar) by {
        assert forall|a: Seq<A>| #[trigger] (s1.yields)(ar, a) implies f1.accepts_each(a) by {
            assert(f2.accepts_each(a));
        }
    }
    assert forall|ar: AR, out: Seq<A2>| (m2.accepts)(ar) && #[trigger] (m1.yields)(
        ar,
        out,
    ) implies (m2.yields)(ar, out) by {
        let a = choose|a: Seq<A>| #[trigger] (s1.yields)(ar, a) && f1.yields_each(a, out);
        assert(f2.accepts_each(a));
        assert(f2.yields_each(a, out));
    }
}

/// `map_action_result` keeps refinement: where `s1` can stand in for `s2` and
/// `f1` for `f2`, `s1` after `f1` can stand in for `s2` after `f2`.
pub proof fn law_map_action_result_refines<AR, A, AR2>(
    s1: Behavior<AR, Seq<A>>,
    s2: Behavior<AR, Seq<A>>,
    f1: Behavior<AR2, AR>,
    f2: Behavior<AR2, AR>,
)
    requires
        s1.refines(s2),
        f1.refines(f2),
    ensures
        s1.map_action_result(f1).refines(s2.map_action_result(f2)),
{
}

/// `combine` keeps refinement: where `s1` can stand in for `t1` and `s2` for
/// `t2`, the combination of `s1` and `s2` can stand in for that of `t1` and
/// `t2`.
pub proof fn law_combine_refines<AR, A, AR2, A2>(
    s1: Behavior<AR, Seq<A>>,
    s2: Behavior<AR2, Seq<A2>>,
    t1: Behavior<AR, Seq<A>>,
    t2: Behavior<AR2, Seq<A2>>,
)
    requires
        s1.refines(t1),
        s2.refines(t2),
    ensures
        s1.combine(s2).refines(t1.combine(t2)),
{
}

/// `merge` keeps refinement: where `s1` can stand in for `t1` and `s2` for
/// `t2`, the merger of `s1` and `s2` can stand in for that of `t1` and `t2`.
pub proof fn law_merge_refines<AR, A, A2>(
    s1: Behavior<AR, Seq<A>>,
    s2: Behavior<AR, Seq<A2>>,
    t1: Behavior<AR, Seq<A>>,
    t2: Behavior<AR, Seq<A2>>,
)
    requires
        s1.refines(t1),
        s2.refines(t2),
    ensures
        s1.merge(s2).refines(t1.merge(t2)),
{
}

/// Mapping the actions of the pure function `g` with the pure function `h` is
/// the pure function that maps `h` over the actions that `g` gives.
pub proof fn law_map_action_of_functions<AR, A, A2>(
    g: spec_fn(AR) -> Seq<A>,
    h: spec_fn(A) -> A2,
)
    ensures
        Behavior::function(g).map_action(Behavior::function(h)) == Behavior::function(
            |ar: AR| g(ar).map_values(h),
        ),
{
    let mapped = Behavior::function(g).map_action(Behavior::function(h));
    let expected = Behavior::function(|ar: AR| g(ar).map_values(h));
    assert forall|ar: AR, out: Seq<A2>| #[trigger] (mapped.yields)(ar, out) == (expected.yields)(
        ar,
        out,
    ) by {
        if (mapped.yields)(ar, out) {
            assert(out =~= g(ar).map_values(h));
        }
        if (expected.yields)(ar, out) {
            assert((Behavior::function(g).yields)(ar, g(ar)));
            assert(Behavior::function(h).yields_each(g(ar), out));
        }
    }
    assert(mapped =~= expected);
}

/// Mapping the pure function `h1` and then the pure function `h2` over the
/// actions of a saga is mapping `h2` after `h1` over them: a pure function
/// returns on every argument, and one pure function after another is their
/// composite.
pub proof fn law_map_action_composition_of_functions<AR, A, A2, A3>(
    s: Behavior<AR, Seq<A>>,
    h1: spec_fn(A) -> A2,
    h2: spec_fn(A2) -> A3,
)
    ensures
        Behavior::function(h1).productive(),
        Behavior::function(h1).and_then(Behavior::function(h2)) == Behavior::function(
            |a: A| h2(h1(a)),
        ),
        s.map_action(Behavior::function(h1)).map_action(Behavior::function(h2)) == s.map_action(
            Behavior::function(|a: A| h2(h1(a))),
        ),
{
    let f = Behavior::function(h1);
    let g = Behavior::function(h2);
    assert forall|a: A| #[trigger] (f.accepts)(a) implies exists|y: A2| #[trigger]
        (f.yields)(a, y) by {
        assert((f.yields)(a, h1(a)));
    }
    assert forall|a: A, z: A3| #[trigger] (f.and_then(g).yields)(a, z) == (z == h2(h1(a))) by {
        assert((f.yields)(a, h1(a)));
    }
    assert(f.and_then(g) =~= Behavior::function(|a: A| h2(h1(a))));
    law_map_action_composition(s, f, g);
}

/// Mapping the action results of the pure function `g` with the pure function
/// `k` is `g` after `k`.
pub proof fn law_map_action_result_of_functions<AR, A, AR2>(
    g: spec_fn(AR) -> Seq<A>,
    k: spec_fn(AR2) -> AR,
)
    ensures
        Behavior::function(g).map_action_result(Behavior::function(k)) == Behavior::function(
            |ar2: AR2| g(k(ar2)),
        ),
{
    let mapped = Behavior::function(g).map_action_result(Behavior::function(k));
    let expected = Behavior::function(|ar2: AR2| g(k(ar2)));
    assert forall|ar2: AR2, out: Seq<A>| #[trigger] (mapped.yields)(ar2, out) == (
    expected.yields)(ar2, out) by {
        if (expected.yields)(ar2, out) {
            assert((Behavior::function(k).yields)(ar2, k(ar2)));
        }
    }
    assert(mapped =~= expected);
}

/// The combination of the pure functions `g1` and `g2` is the pure function
/// that gives the actions of `g1` wrapped as `Second` on a `First`, and the
/// actions of `g2` wrapped as `First` on a `Second`.
pub proof fn law_combine_of_functions<AR, A, AR2, A2>(
    g1: spec_fn(AR) -> Seq<A>,
    g2: spec_fn(AR2) -> Seq<A2>,
)
    ensures
        Behavior::function(g1).combine(Behavior::function(g2)) == Behavior::function(
            |ar: Sum<AR, AR2>|
                match ar {
                    Sum::First(ar1) => seq_second::<A2, A>(g1(ar1)),
                    Sum::Second(ar2) => seq_first::<A2, A>(g2(ar2)),
                },
        ),
{
    let s1 = Behavior::function(g1);
    let s2 = Behavior::function(g2);
    let combined = s1.combine(s2);
    let expected = Behavior::function(
        |ar: Sum<AR, AR2>|
            match ar {
                Sum::First(ar1) => seq_second::<A2, A>(g1(ar1)),
                Sum::Second(ar2) => seq_first::<A2, A>(g2(ar2)),
            },
    );
    assert forall|ar: Sum<AR, AR2>, out: Seq<Sum<A2, A>>| #[trigger] (combined.yields)(ar, out)
        == (expected.yields)(ar, out) by {
        match ar {
            Sum::First(ar1) => {
                law_combine_first(s1, s2, ar1);
                assert((s1.yields)(ar1, g1(ar1)));
            },
            Sum::Second(ar2) => {
                law_combine_second(s1, s2, ar2);
                assert((s2.yields)(ar2, g2(ar2)));
            },
        }
    }
    assert(combined =~= expected);
}

/// The merger of the pure functions `g1` and `g2` is the pure function that
/// gives the actions of `g1`, wrapped as `Second`, followed by the actions of
/// `g2`, wrapped as `First`.
pub proof fn law_merge_of_functions<AR, A, A2>(
    g1: spec_fn(AR) -> Seq<A>,
    g2: spec_fn(AR) -> Seq<A2>,
)
    ensures
        Behavior::function(g1).merge(Behavior::function(g2)) == Behavior::function(
            |ar: AR| seq_second::<A2, A>(g1(ar)) + seq_first::<A2, A>(g2(ar)),
        ),
{
    let s1 = Behavior::function(g1);
    let s2 = Behavior::function(g2);
    let merged = s1.merge(s2);
    let expected = Behavior::function(
        |ar: AR| seq_second::<A2, A>(g1(ar)) + seq_first::<A2, A>(g2(ar)),
    );
    assert forall|ar: AR, out: Seq<Sum<A2, A>>| #[trigger] (merged.yields)(ar, out) == (
    expected.yields)(ar, out) by {
        if (expected.yields)(ar, out) {
            assert((s1.yields)(ar, g1(ar)) && (s2.yields)(ar, g2(ar)));
        }
    }
    assert(merged =~= expected);
}

} // verus!
