//! The functions of the example program that the macros are applied to.

use vstd::prelude::*;

verus! {

/// The function that `make_answer` generates.
pub fn answer() -> (r: u32)
    ensures
        r == 42,
{
    42
}

/// Shown by `show_streams` with no attribute arguments.
pub fn invoke1() {
}

/// Shown by `show_streams` with the argument `bar`.
pub fn invoke2() {
}

/// Shown by `show_streams` with the arguments `multiple => tokens`.
pub fn invoke3() {
}

/// Shown by `show_streams` with the arguments `{ delimiters }`.
pub fn invoke4() {
}

/// The check that the example program registers as a flaky test: one equals
/// one, which holds on every run.
pub fn my_test() {
    let left: u32 = 1;
    let right: u32 = 1;
    assert(left == right);
}

} // verus!
