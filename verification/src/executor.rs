//! What this crate assumes of `std::task` and `std::pin`.
//!
//! An executor hands a task a `Context` when it runs it. The crate carries
//! these values through and makes one call on them: it wakes the task's own
//! waker. None of what is said here is proved.
use std::pin::Pin;
use std::task::Context;
use std::task::Poll;
use std::task::Waker;
use vstd::prelude::*;

verus! {

/// `std::task::Context`, carried through as an opaque value.
#[verifier::external_type_specification]
#[verifier::external_body]
pub struct ExContext<'a>(Context<'a>);

/// `std::task::Waker`, carried through as an opaque value.
#[verifier::external_type_specification]
#[verifier::external_body]
pub struct ExWaker(Waker);

/// `std::pin::Pin`, carried through as an opaque value.
#[verifier::external_type_specification]
#[verifier::external_body]
#[verifier::reject_recursive_types(Ptr)]
pub struct ExPin<Ptr>(Pin<Ptr>);

/// `std::task::Poll`, with its two variants.
#[verifier::external_type_specification]
pub struct ExPoll<T>(Poll<T>);

/// `Context::waker` returns the waker of the task that is being run.
pub assume_specification<'a, 'b>[ Context::<'a>::waker ](cx: &'b Context<'a>) -> &'a Waker;

/// `Waker::wake_by_ref` tells the executor that the task is ready to run
/// again. It changes nothing that this crate can see.
pub assume_specification[ Waker::wake_by_ref ](waker: &Waker);

} // verus!
