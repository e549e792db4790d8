//! Simpler shrinker compositions.

mod basic;

pub use basic::Basic;
