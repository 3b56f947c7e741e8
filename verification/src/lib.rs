//! An incremental fuzzy-search ranking engine, with the small value types
//! (colours, rectangles, errors) of the launcher built around it.

pub mod config;
pub mod error;
pub mod fuzzer;
pub mod geometry;
pub mod rank;
pub mod sort;
pub mod typing;
