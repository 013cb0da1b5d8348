//! The capability a deferred computation must supply.

use vstd::prelude::*;

verus! {

/// A computation that produces a value of type `V` exactly once by
/// consuming itself.
///
/// This is the only extension point of the crate: a [`crate::Thunk`]
/// is generic over an evaluator and knows nothing about its shape.
/// Because [`Evaluate::evaluate`] takes `self` by value, the type
/// system alone rules out running the same evaluator twice.
pub trait Evaluate<V>: Sized {
    /// When the computation may be run.
    spec fn pre(self) -> bool;

    /// The values the computation may produce.
    spec fn post(self, v: V) -> bool;

    /// Run the computation, consuming it.
    fn evaluate(self) -> (v: V)
        requires
            self.pre(),
        ensures
            self.post(v),
    ;
}

/// Every zero-argument closure or function is an evaluator: it may be
/// run whenever it may be called, and it may produce whatever its own
/// contract allows it to return.
impl<V, F: FnOnce() -> V> Evaluate<V> for F {
    open spec fn pre(self) -> bool {
        call_requires(self, ())
    }

    open spec fn post(self, v: V) -> bool {
        call_ensures(self, (), v)
    }

    fn evaluate(self) -> (v: V) {
        self()
    }
}

} // verus!
