//! The one place the core meets the random number generator.

use vstd::prelude::*;

verus! {

/// Relies on rand::random: a draw from the thread-local generator.
/// Nothing is promised of the value; every caller states what holds of
/// its result whatever came back.
pub assume_specification<T>[ rand::random::<T> ]() -> (r: T)
    where
        rand::distr::StandardUniform: rand::distr::Distribution<T>,
;

} // verus!
