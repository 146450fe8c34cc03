//! Constructors in the style of `Arc::new_cyclic` for groups of two or three
//! mutually referencing heap objects.

pub mod arc;
