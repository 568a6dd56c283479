//! A compact index type over `u32` that keeps the top 256 bit patterns free,
//! with a generic index interface and a checked stepping interface.

mod custom_index;
mod idx;
mod step;

pub use custom_index::{
    lemma_add_is_from_usize, lemma_from_u32_round_trip, lemma_order_follows_index, CustomIndex, MAX,
};
pub use idx::Idx;
pub use step::{spec_steps_between, Step};
