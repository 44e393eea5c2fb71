use crate::behavior::{behavior_of, reaction_of, Behavior};
use crate::react::{React, ReactFunction};
use crate::sum::{wrap_first, wrap_second, Sum};
use vstd::prelude::*;

verus! {

/// The central point of control of a process: it decides which actions (`A`)
/// to take next, given an action result (`AR`).
///
/// Commonly the action results are events and the actions are commands, but an
/// action result may as well be the response of a remote service.
///
/// A saga only decides: it holds no state between two reactions and sends
/// nothing. Its view is the behavior of its reaction function.
#[verifier::reject_recursive_types(AR)]
#[verifier::reject_recursive_types(A)]
pub struct Saga<'a, AR: 'a, A: 'a> {
    /// The reaction function: it gives the next actions for an action result.
    pub react: ReactFunction<'a, AR, A>,
}

impl<'a, AR: 'a, A: 'a> View for Saga<'a, AR, A> {
    type V = Behavior<AR, Seq<A>>;

    /// The behavior of the reaction function.
    open spec fn view(&self) -> Behavior<AR, Seq<A>> {
        self.react.behavior()
    }
}

/// The reaction function of [`Saga::map_action`]: `saga`, with `f` applied to
/// each of its actions.
#[verifier::reject_recursive_types(AR)]
#[verifier::reject_recursive_types(A)]
struct MapAction<'a, AR: 'a, A: 'a, F> {
    saga: Saga<'a, AR, A>,
    f: &'a F,
}

impl<'a, AR: 'a, A: 'a, A2, F: Fn(&A) -> A2 + Send + Sync> React<AR, A2> for MapAction<
    'a,
    AR,
    A,
    F,
> {
    closed spec fn behavior(&self) -> Behavior<AR, Seq<A2>> {
        self.saga@.map_action(behavior_of(*self.f))
    }

    fn react(&self, ar: &AR) -> (mapped: Vec<A2>) {
        let actions = self.saga.react.react(ar);
        let mut mapped: Vec<A2> = Vec::new();
        for i in 0..actions.len()
            invariant
                (self.saga@.yields)(*ar, actions@),
                behavior_of(*self.f).accepts_each(actions@),
                behavior_of(*self.f).yields_each(actions@.take(i as int), mapped@),
        {
            let action = (self.f)(&actions[i]);
            mapped.push(action);
        }
        assert(actions@.take(actions.len() as int) == actions@);
        mapped
    }
}

/// The reaction function of [`Saga::map_action_result`]: `saga`, run on what
/// `f` makes of the input.
#[verifier::reject_recursive_types(AR)]
#[verifier::reject_recursive_types(A)]
struct MapActionResult<'a, AR: 'a, A: 'a, F> {
    saga: Saga<'a, AR, A>,
    f: &'a F,
}

impl<'a, AR: 'a, A: 'a, AR2, F: Fn(&AR2) -> AR + Send + Sync> React<AR2, A> for MapActionResult<
    'a,
    AR,
    A,
    F,
> {
    closed spec fn behavior(&self) -> Behavior<AR2, Seq<A>> {
        self.saga@.map_action_result(behavior_of(*self.f))
    }

    fn react(&self, ar2: &AR2) -> (actions: Vec<A>) {
        let ar = (self.f)(ar2);
        assert((behavior_of(*self.f).yields)(*ar2, ar));
        self.saga.react.react(&ar)
    }
}

/// The reaction function of [`Saga::combine`]: `first` on a `First`, `second`
/// on a `Second`.
#[verifier::reject_recursive_types(AR)]
#[verifier::reject_recursive_types(A)]
#[verifier::reject_recursive_types(AR2)]
#[verifier::reject_recursive_types(A2)]
struct Combine<'a, AR: 'a, A: 'a, AR2: 'a, A2: 'a> {
    first: Saga<'a, AR, A>,
    second: Saga<'a, AR2, A2>,
}

impl<'a, AR: 'a, A: 'a, AR2: 'a, A2: 'a> React<Sum<AR, AR2>, Sum<A2, A>> for Combine<
    'a,
    AR,
    A,
    AR2,
    A2,
> {
    closed spec fn behavior(&self) -> Behavior<Sum<AR, AR2>, Seq<Sum<A2, A>>> {
        self.first@.combine(self.second@)
    }

    fn react(&self, ar: &Sum<AR, AR2>) -> (actions: Vec<Sum<A2, A>>) {
        match ar {
            Sum::First(ar) => {
                let a = self.first.react.react(ar);
                wrap_second(a)
            },
            Sum::Second(ar2) => {
                let a2 = self.second.react.react(ar2);
                wrap_first(a2)
            },
        }
    }
}

/// The reaction function of [`Saga::merge`]: `first`, then `second`, on the
/// same input.
#[verifier::reject_recursive_types(AR)]
#[verifier::reject_recursive_types(A)]
#[verifier::reject_recursive_types(A2)]
struct Merge<'a, AR: 'a, A: 'a, A2: 'a> {
    first: Saga<'a, AR, A>,
    second: Saga<'a, AR, A2>,
}

impl<'a, AR: 'a, A: 'a, A2: 'a> React<AR, Sum<A2, A>> for Merge<'a, AR, A, A2> {
    closed spec fn behavior(&self) -> Behavior<AR, Seq<Sum<A2, A>>> {
        self.first@.merge(self.second@)
    }

    fn react(&self, ar: &AR) -> (actions: Vec<Sum<A2, A>>) {
        let mut a: Vec<Sum<A2, A>> = wrap_second(self.first.react.react(ar));
        let mut a2: Vec<Sum<A2, A>> = wrap_first(self.second.react.react(ar));
        a.append(&mut a2);
        a
    }
}

impl<'a, AR: 'a, A: 'a> Saga<'a, AR, A> {
    /// The saga that reacts as `react` does. Any function is taken as it is.
    pub fn new<F: Fn(&AR) -> Vec<A> + Send + Sync + 'a>(react: F) -> (saga: Self)
        ensures
            saga@ == reaction_of(react),
    {
        Saga { react: Box::new(react) }
    }

    /// Maps the saga over its actions. The new saga reacts as `self` does and
    /// passes each action through `f`: as many actions, in the same order.
    pub fn map_action<A2, F>(self, f: &'a F) -> (mapped: Saga<'a, AR, A2>) where
        F: Fn(&A) -> A2 + Send + Sync,

        ensures
            mapped@ == self@.map_action(behavior_of(*f)),
    {
        Saga { react: Box::new(MapAction { saga: self, f }) }
    }

    /// Maps the saga over its action results. The new saga turns its input
    /// into an `AR` with `f` and reacts to that as `self` does.
    pub fn map_action_result<AR2, F>(self, f: &'a F) -> (mapped: Saga<'a, AR2, A>) where
        F: Fn(&AR2) -> AR + Send + Sync,

        ensures
            mapped@ == self@.map_action_result(behavior_of(*f)),
    {
        Saga { react: Box::new(MapActionResult { saga: self, f }) }
    }

    /// Combines two sagas over unrelated types into one over the unions of
    /// their types. On `First(ar)` the new saga reacts as `self` does on `ar`
    /// and wraps each action as `Second`; on `Second(ar2)` it reacts as
    /// `saga2` does on `ar2` and wraps each action as `First`.
    pub fn combine<AR2, A2>(self, saga2: Saga<'a, AR2, A2>) -> (combined: Saga<
        'a,
        Sum<AR, AR2>,
        Sum<A2, A>,
    >)
        ensures
            combined@ == self@.combine(saga2@),
    {
        Saga { react: Box::new(Combine { first: self, second: saga2 }) }
    }

    /// Merges two sagas that react to the same action results. The new saga
    /// runs both on its input and returns the actions of `self`, each wrapped
    /// as `Second`, followed by the actions of `saga2`, each wrapped as
    /// `First`.
    pub fn merge<A2>(self, saga2: Saga<'a, AR, A2>) -> (merged: Saga<'a, AR, Sum<A2, A>>)
        ensures
            merged@ == self@.merge(saga2@),
    {
        Saga { react: Box::new(Merge { first: self, second: saga2 }) }
    }
}

/// The computation of new actions from an event or action result.
pub trait ActionComputation<AR, A> {
    /// The events on which the computation may run, and the sequences of
    /// actions that it may give for each. Nothing is known of an
    /// implementation that does not say.
    open spec fn computation(&self) -> Behavior<AR, Seq<A>> {
        Behavior::unknown()
    }

    /// Computes the new actions that follow from `event`.
    ///
    /// The computation must accept `event`: no reaction function is run on an
    /// input outside its precondition. The result is one that the computation
    /// may give for `event`, in full and in its order.
    fn compute_new_actions(&self, event: &AR) -> (actions: Vec<A>)
        requires
            (self.computation().accepts)(*event),
        ensures
            (self.computation().yields)(*event, actions@),
    ;
}

impl<AR, A> ActionComputation<AR, A> for Saga<'_, AR, A> {
    /// A saga computes what its reaction function does.
    open spec fn computation(&self) -> Behavior<AR, Seq<A>> {
        self@
    }

    /// Runs the reaction function of the saga on `event` and returns its
    /// actions unchanged.
    fn compute_new_actions(&self, event: &AR) -> (actions: Vec<A>) {
        self.react.react(event)
    }
}

} // verus!
