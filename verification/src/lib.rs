//! Iteration over the fields of a struct without allocation, through the
//! `StrawberryFields` trait, and the code generators of the attribute macros that implement
//! it and that test the variants of an enum.
pub mod arguments;
pub mod error;
pub mod fields;
pub mod fields_macro;
pub mod samples;
pub mod syntax;
pub mod text;
pub mod tokens;
pub mod variant_samples;
pub mod variants_macro;

pub use fields::StrawberryFields;
pub use fields_macro::strawberry_fields;
pub use variants_macro::{
    for_each_variant, list_variants, test_variants_eq, test_variants_ne, Assertion,
};
