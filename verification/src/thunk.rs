//! A write-once cell for a lazily evaluated value.

use crate::evaluate::Evaluate;
use vstd::prelude::*;
use vstd::rwlock::{RwLock, RwLockPredicate};

verus! {

/// The state of a thunk. Exactly one variant is active at a time.
enum Inner<E, V> {
    /// The computation has not run; the thunk owns the evaluator.
    Unevaluated(E),
    /// Some thread has claimed the right to run the evaluator and has
    /// not yet stored the result. This is never a resting state: it
    /// exists only while that thread holds the exclusive lock.
    Evaluating,
    /// The final, permanent value.
    Value(V),
}

/// What a thunk was created from, and with it the set of values the
/// thunk may ever hand out.
enum Origin<E, V> {
    /// Deferred: any value the evaluator may produce.
    Deferred(E),
    /// Pre-evaluated, or overwritten through [`Thunk::set`]: exactly
    /// the stored value.
    Fixed(V),
}

impl<E: Evaluate<V>, V> Origin<E, V> {
    /// The values the thunk may hand out.
    spec fn ok(self, v: V) -> bool {
        match self {
            Origin::Deferred(e) => e.post(v),
            Origin::Fixed(w) => v == w,
        }
    }
}

impl<E: Evaluate<V>, V> RwLockPredicate<Inner<E, V>> for Origin<E, V> {
    /// The lock invariant of a thunk:
    /// - an unevaluated thunk holds an evaluator that may be run and
    ///   whose every possible result the thunk may hand out;
    /// - `Evaluating` is never at rest behind the lock;
    /// - a value, once stored, is one the thunk may hand out.
    closed spec fn inv(self, inner: Inner<E, V>) -> bool {
        match inner {
            Inner::Unevaluated(e) => e.pre() && forall|v: V| e.post(v) ==> self.ok(v),
            Inner::Evaluating => false,
            Inner::Value(v) => self.ok(v),
        }
    }
}

/// A lazily evaluated value, safe to share across threads.
///
/// The state sits behind a multi-reader/single-writer lock and is
/// write-once: as soon as it becomes `Value` it never transitions
/// again, so every access observes the one stored value.
///
/// The evaluator is assumed infallible. Should it nevertheless panic,
/// the exclusive claim on the lock is never released, and from then on
/// every operation on the thunk blocks forever: the thunk is unusable
/// after such a fault. A blocked caller also waits unconditionally
/// while another thread evaluates; an evaluator that never returns
/// leaves all waiters hanging.
pub struct Thunk<E: Evaluate<V>, V> {
    lock: RwLock<Inner<E, V>, Origin<E, V>>,
}

impl<E: Evaluate<V>, V> Thunk<E, V> {
    /// The values this thunk may ever hand out. For a deferred thunk
    /// these are the possible results of its evaluator; for a
    /// pre-evaluated thunk, exactly the stored value.
    pub closed spec fn may_hold(self, v: V) -> bool {
        self.lock.pred().ok(v)
    }

    /// Create a lazily evaluated value from a value implementing the
    /// [`Evaluate`] trait. No evaluation occurs.
    ///
    /// The [`lazy`] constructor is preferred if you want to construct
    /// values from closures.
    pub fn new(e: E) -> (t: Thunk<E, V>)
        requires
            e.pre(),
        ensures
            forall|w: V| t.may_hold(w) <==> e.post(w),
    {
        let ghost origin = Origin::Deferred(e);
        Thunk { lock: RwLock::new(Inner::Unevaluated(e), Ghost(origin)) }
    }

    /// Create a new, already evaluated, thunk from a value. It behaves
    /// exactly like a forced deferred thunk whose evaluator returned
    /// `val`, but no evaluator ever runs.
    pub fn evaluated(val: V) -> (t: Thunk<E, V>)
        ensures
            forall|w: V| t.may_hold(w) <==> w == val,
    {
        let ghost origin = Origin::Fixed(val);
        Thunk { lock: RwLock::new(Inner::Value(val), Ghost(origin)) }
    }

    /// Force evaluation of a thunk: after `force` returns, the state is
    /// `Value` and stays so for the rest of the thunk's life.
    ///
    /// A fast read-mode pass returns at once when the value is already
    /// there, so concurrent readers never block each other once
    /// evaluation is done. Otherwise an exclusive write-mode pass
    /// re-checks the state (another thread may have finished in
    /// between), runs the evaluator at most once, and stores the
    /// result. While the evaluator runs, the value slot is withdrawn
    /// from the lock: that window is the `Evaluating` state, and no
    /// other thread can observe the thunk during it. Exactly one thread
    /// ever runs the evaluator; all others either return early or block
    /// until the writer is done.
    pub fn force(&self) {
        let read = self.lock.acquire_read();
        let done = match read.borrow() {
            Inner::Value(_) => true,
            _ => false,
        };
        read.release_read();
        if done {
            return;
        }
        let (inner, write) = self.lock.acquire_write();
        match inner {
            Inner::Unevaluated(e) => {
                let v = e.evaluate();
                write.release_write(Inner::Value(v));
            },
            Inner::Value(v) => {
                // Another thread finished between the two passes: put
                // the identical value back.
                write.release_write(Inner::Value(v));
            },
            Inner::Evaluating => {
                // The write lock serializes all writers and none leaves
                // this marker behind, so the lock invariant rules this
                // state out here.
                vstd::pervasive::unreached()
            },
        }
    }

    /// Read-through access: force evaluation, then hand out the value.
    ///
    /// The value is copied out rather than borrowed, because a borrow
    /// of the slot cannot outlive the lock acquisition that produced
    /// it. The write-once invariant makes the copy indistinguishable
    /// from a borrow: the stored value never changes afterwards.
    pub fn get(&self) -> (v: V) where V: Copy
        ensures
            self.may_hold(v),
    {
        let read = self.lock.acquire_read();
        let cached = match read.borrow() {
            Inner::Value(v) => Some(*v),
            _ => None,
        };
        read.release_read();
        match cached {
            Some(v) => v,
            None => {
                let (inner, write) = self.lock.acquire_write();
                match inner {
                    Inner::Unevaluated(e) => {
                        let v = e.evaluate();
                        write.release_write(Inner::Value(v));
                        v
                    },
                    Inner::Value(v) => {
                        write.release_write(Inner::Value(v));
                        v
                    },
                    Inner::Evaluating => vstd::pervasive::unreached(),
                }
            },
        }
    }

    /// Write-through access: force evaluation, then overwrite the value.
    ///
    /// The caller holds the thunk exclusively, so no reader exists
    /// while the value is replaced; afterwards every access observes
    /// exactly the new value. The evaluator of a still deferred thunk
    /// runs first, as it does for every access.
    pub fn set(&mut self, val: V)
        ensures
            forall|w: V| final(self).may_hold(w) <==> w == val,
    {
        self.force();
        let ghost origin = Origin::Fixed(val);
        *self = Thunk { lock: RwLock::new(Inner::Value(val), Ghost(origin)) };
    }
}

/// Construct a lazily evaluated value from a zero-argument closure,
/// without naming the evaluator type.
pub fn lazy<V, F: FnOnce() -> V>(f: F) -> (t: Thunk<F, V>)
    requires
        call_requires(f, ()),
    ensures
        forall|w: V| t.may_hold(w) <==> call_ensures(f, (), w),
{
    Thunk::new(f)
}

/// Read-through correctness: a thunk whose evaluator can produce only
/// the value `x` hands out exactly `x` on every access.
pub proof fn lemma_read_through<E: Evaluate<V>, V>(t: Thunk<E, V>, e: E, x: V, v: V)
    requires
        forall|w: V| t.may_hold(w) ==> e.post(w),
        forall|w: V| e.post(w) ==> w == x,
        t.may_hold(v),
    ensures
        v == x,
{
}

/// Idempotence: once a thunk's outcome is pinned to a single value,
/// accessing it any number of times always observes that same value.
pub proof fn lemma_idempotent_access<E: Evaluate<V>, V>(t: Thunk<E, V>, x: V, v1: V, v2: V)
    requires
        forall|w: V| t.may_hold(w) ==> w == x,
        t.may_hold(v1),
        t.may_hold(v2),
    ensures
        v1 == v2,
        v1 == x,
{
}

/// Pre-evaluated equivalence: a thunk built directly from the value `x`
/// and a deferred thunk whose evaluator can produce only `x` hand out
/// the same value under access; the former never runs an evaluator.
pub proof fn lemma_pre_evaluated_equivalence<E: Evaluate<V>, V>(
    direct: Thunk<E, V>,
    deferred: Thunk<E, V>,
    x: V,
    vdir: V,
    vdef: V,
)
    requires
        forall|w: V| direct.may_hold(w) ==> w == x,
        forall|w: V| deferred.may_hold(w) ==> w == x,
        direct.may_hold(vdir),
        deferred.may_hold(vdef),
    ensures
        vdir == vdef,
        vdir == x,
{
}

} // verus!
