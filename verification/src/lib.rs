//! An append-only, fixed-capacity sequence container kept in two converging
//! buffers: one published buffer that lookups read and one writer-private
//! buffer that appends mutate, with a generation counter bumped exactly once
//! per completed append.

pub mod laws;
pub mod two_head_vec;
