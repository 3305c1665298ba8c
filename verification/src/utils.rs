//! Helpers for trying the cache out.

pub mod sample_data;

pub use sample_data::create_arb_data;
