use crate::behavior::{reaction_of, Behavior};
use vstd::prelude::*;

verus! {

/// A reaction function: from an action result to the actions that follow from
/// it, in order.
///
/// Every `Fn(&AR) -> Vec<A>` that can be shared between threads is one; the
/// combinators of a saga build others from those.
pub trait React<AR, A>: Send + Sync {
    /// The inputs that the function accepts, and the sequences of actions
    /// that it may return on each. Nothing is known of an implementation that
    /// does not say.
    open spec fn behavior(&self) -> Behavior<AR, Seq<A>> {
        Behavior::unknown()
    }

    /// Runs the function on `ar`.
    fn react(&self, ar: &AR) -> (actions: Vec<A>)
        requires
            (self.behavior().accepts)(*ar),
        ensures
            (self.behavior().yields)(*ar, actions@),
    ;
}

impl<AR, A, F: Fn(&AR) -> Vec<A> + Send + Sync> React<AR, A> for F {
    open spec fn behavior(&self) -> Behavior<AR, Seq<A>> {
        reaction_of(*self)
    }

    fn react(&self, ar: &AR) -> (actions: Vec<A>) {
        self(ar)
    }
}

/// The owned reaction function that a saga holds.
pub type ReactFunction<'a, AR, A> = Box<dyn React<AR, A> + 'a>;

} // verus!
