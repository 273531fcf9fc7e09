//! What a run is made of: units of work, and conditions that judge what came of them.
//!
//! Each trait pairs a method with two spec functions: one that says on what the method may be
//! called, and one that relates what a call was given to what it gave back and left behind. An
//! implementation that leaves them out can be called on anything, and promises nothing.
//! For a closure these are its own precondition and postcondition. A call of an `FnMut` closure
//! may change what the closure captures: it can then be called on whatever it could be called on
//! before, and promises no less.

use std::future::Future;
use vstd::prelude::*;

verus! {

/// A type to determine if a failed `Future` should be retried.
///
/// An implementation is provided for `FnMut(&E) -> bool`, which covers closures and functions.
pub trait Condition<E> {
    /// `error` can be judged.
    open spec fn can_judge(&self, error: &E) -> bool {
        true
    }

    /// `error` may be found `retryable`, which leaves `after`.
    open spec fn judged(&self, error: &E, retryable: bool, after: &Self) -> bool {
        true
    }

    fn is_retryable(&mut self, error: &E) -> (retryable: bool)
        requires
            old(self).can_judge(error),
        ensures
            old(self).judged(error, retryable, final(self)),
    ;
}

/// The condition that retries on every error.
pub struct Always;

impl<E> Condition<E> for Always {
    open spec fn can_judge(&self, error: &E) -> bool {
        true
    }

    open spec fn judged(&self, error: &E, retryable: bool, after: &Self) -> bool {
        retryable
    }

    fn is_retryable(&mut self, _error: &E) -> (retryable: bool) {
        true
    }
}

impl<F, E> Condition<E> for F where F: FnMut(&E) -> bool {
    open spec fn can_judge(&self, error: &E) -> bool {
        call_requires(*self, (error,))
    }

    open spec fn judged(&self, error: &E, retryable: bool, after: &Self) -> bool {
        &&& call_ensures(*self, (error,), retryable)
        &&& forall|e: &E| call_requires(*self, (e,)) ==> #[trigger] call_requires(*after, (e,))
        &&& forall|e: &E, r: bool| #[trigger]
            call_ensures(*after, (e,), r) ==> call_ensures(*self, (e,), r)
    }

    fn is_retryable(&mut self, error: &E) -> (retryable: bool) {
        self(error)
    }
}

/// Closures of the type of `closure` judge an error by being called on it.
pub proof fn closure_is_condition<F, E>(closure: F) where F: FnMut(&E) -> bool
    ensures
        forall|c: F, error: &E| #[trigger] c.can_judge(error) == call_requires(c, (error,)),
        forall|c: F, error: &E, retryable: bool, after: F| #[trigger]
            c.judged(error, retryable, &after) ==> {
                &&& call_ensures(c, (error,), retryable)
                &&& forall|e: &E| call_requires(c, (e,)) ==> #[trigger] call_requires(after, (e,))
                &&& forall|e: &E, r: bool| #[trigger]
                    call_ensures(after, (e,), r) ==> call_ensures(c, (e,), r)
            },
{
}

/// A type to determine if a successful `Future` should be followed by another.
///
/// An implementation is provided for `Fn(&R) -> Option<S>`, where `S` is the next input value.
pub trait SuccessCondition<R, S> {
    /// `result` can be judged.
    open spec fn can_judge_result(&self, result: &R) -> bool {
        true
    }

    /// `result` may ask for another call with `next`, or for none, which leaves `after`.
    open spec fn judged_result(&self, result: &R, next: Option<S>, after: &Self) -> bool {
        true
    }

    fn retry_with(&mut self, result: &R) -> (next: Option<S>)
        requires
            old(self).can_judge_result(result),
        ensures
            old(self).judged_result(result, next, final(self)),
    ;
}

impl<F, R, S> SuccessCondition<R, S> for F where F: Fn(&R) -> Option<S> {
    open spec fn can_judge_result(&self, result: &R) -> bool {
        call_requires(*self, (result,))
    }

    open spec fn judged_result(&self, result: &R, next: Option<S>, after: &Self) -> bool {
        call_ensures(*self, (result,), next) && *after == *self
    }

    fn retry_with(&mut self, result: &R) -> (next: Option<S>) {
        self(result)
    }
}

/// Closures of the type of `closure` judge a result by being called on it, which leaves them as
/// they are.
pub proof fn closure_is_success_condition<F, R, S>(closure: F) where F: Fn(&R) -> Option<S>
    ensures
        forall|c: F, result: &R| #[trigger]
            SuccessCondition::<R, S>::can_judge_result(&c, result) == call_requires(c, (result,)),
        forall|c: F, result: &R, next: Option<S>, after: F| #[trigger]
            c.judged_result(result, next, &after) == (call_ensures(c, (result,), next) && after
                == c),
{
}

/// A unit of work to be retried.
///
/// An implementation is provided for `FnMut() -> Future`.
pub trait Task {
    type Item;

    type Error: std::fmt::Debug;

    type Fut: Future<Output = Result<Self::Item, Self::Error>>;

    /// The work can be started.
    open spec fn can_call(&self) -> bool {
        true
    }

    /// The work may be started as `fut`, which leaves `after`.
    open spec fn called(&self, fut: Self::Fut, after: &Self) -> bool {
        true
    }

    fn call(&mut self) -> (fut: Self::Fut)
        requires
            old(self).can_call(),
        ensures
            old(self).called(fut, final(self)),
    ;
}

impl<F, Fut, I, E> Task for F where
    F: FnMut() -> Fut,
    Fut: Future<Output = Result<I, E>>,
    E: std::fmt::Debug,
 {
    type Item = I;

    type Error = E;

    type Fut = Fut;

    open spec fn can_call(&self) -> bool {
        call_requires(*self, ())
    }

    open spec fn called(&self, fut: Fut, after: &Self) -> bool {
        &&& call_ensures(*self, (), fut)
        &&& call_requires(*self, ()) ==> call_requires(*after, ())
        &&& forall|f: Fut| #[trigger] call_ensures(*after, (), f) ==> call_ensures(*self, (), f)
    }

    fn call(&mut self) -> (fut: Fut) {
        self()
    }
}

/// Closures of the type of `closure` start their work by being called.
pub proof fn closure_is_task<F, Fut, I, E>(closure: F) where
    F: FnMut() -> Fut,
    Fut: Future<Output = Result<I, E>>,
    E: std::fmt::Debug,

    ensures
        forall|c: F| #[trigger] c.can_call() == call_requires(c, ()),
        forall|c: F, fut: Fut, after: F| #[trigger]
            c.called(fut, &after) ==> {
                &&& call_ensures(c, (), fut)
                &&& call_requires(c, ()) ==> call_requires(after, ())
                &&& forall|f: Fut| #[trigger]
                    call_ensures(after, (), f) ==> call_ensures(c, (), f)
            },
{
}

/// A unit of work to be retried, that accepts a parameter.
///
/// An implementation is provided for `FnMut(P) -> Future`.
pub trait TaskWithParameter<P> {
    type Item;

    type Error: std::fmt::Debug;

    type Fut: Future<Output = Result<Self::Item, Self::Error>>;

    /// The work can be started on `parameter`.
    open spec fn can_call_with(&self, parameter: P) -> bool {
        true
    }

    /// The work may be started on `parameter` as `fut`, which leaves `after`.
    open spec fn called_with(&self, parameter: P, fut: Self::Fut, after: &Self) -> bool {
        true
    }

    fn call(&mut self, parameter: P) -> (fut: Self::Fut)
        requires
            old(self).can_call_with(parameter),
        ensures
            old(self).called_with(parameter, fut, final(self)),
    ;
}

impl<F, P, Fut, I, E> TaskWithParameter<P> for F where
    F: FnMut(P) -> Fut,
    Fut: Future<Output = Result<I, E>>,
    E: std::fmt::Debug,
 {
    type Item = I;

    type Error = E;

    type Fut = Fut;

    open spec fn can_call_with(&self, parameter: P) -> bool {
        call_requires(*self, (parameter,))
    }

    open spec fn called_with(&self, parameter: P, fut: Fut, after: &Self) -> bool {
        &&& call_ensures(*self, (parameter,), fut)
        &&& forall|p: P| call_requires(*self, (p,)) ==> #[trigger] call_requires(*after, (p,))
        &&& forall|p: P, f: Fut| #[trigger]
            call_ensures(*after, (p,), f) ==> call_ensures(*self, (p,), f)
    }

    fn call(&mut self, parameter: P) -> (fut: Fut) {
        self(parameter)
    }
}

/// Closures of the type of `closure` start their work by being called with the parameter.
pub proof fn closure_is_task_with_parameter<F, P, Fut, I, E>(closure: F) where
    F: FnMut(P) -> Fut,
    Fut: Future<Output = Result<I, E>>,
    E: std::fmt::Debug,

    ensures
        forall|c: F, parameter: P| #[trigger]
            c.can_call_with(parameter) == call_requires(c, (parameter,)),
        forall|c: F, parameter: P, fut: Fut, after: F| #[trigger]
            c.called_with(parameter, fut, &after) ==> {
                &&& call_ensures(c, (parameter,), fut)
                &&& forall|p: P| call_requires(c, (p,)) ==> #[trigger] call_requires(after, (p,))
                &&& forall|p: P, f: Fut| #[trigger]
                    call_ensures(after, (p,), f) ==> call_ensures(c, (p,), f)
            },
{
}

/// Every error can be shown to `Always`, which finds it retryable.
pub proof fn always_answers_true<E>(always: Always, error: E, retryable: bool, after: Always)
    requires
        always.judged(&error, retryable, &after),
    ensures
        retryable,
        always.can_judge(&error),
{
}

} // verus!
