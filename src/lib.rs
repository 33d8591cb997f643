//! A growable contiguous array that owns a single storage block, tracks its
//! logical length against the number of allocated slots, and doubles the
//! block when it is full.

mod lemmas;
mod my_vec;

pub use lemmas::{
    after_pushes, capacity_after_pushes, is_least_power_of_two_at_least, lemma_after_pushes_appends,
    lemma_capacity_doubles, lemma_pushes_in_order,
};
pub use my_vec::{capacity_after_push, grown_capacity, MyVec};
