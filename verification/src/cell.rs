//! What this crate assumes of `std::sync::atomic`.
//!
//! An atomic is shared, and what it holds changes under every reader. What
//! does not change is the word that it was made with: that is all that is
//! named here. None of it is proved.
use std::sync::atomic::AtomicI64;
use vstd::prelude::*;

verus! {

/// The word that an atomic was made with.
pub uninterp spec fn initial_word(cell: AtomicI64) -> i64;

/// Makes an atomic. The body is `AtomicI64::new`, which makes an atomic that
/// holds the word it is given.
#[verifier::external_body]
pub(crate) fn cell_of(word: i64) -> (cell: AtomicI64)
    ensures
        initial_word(cell) == word,
{
    AtomicI64::new(word)
}

} // verus!
