//! Code generation for type-safe struct builders.
//!
//! The crate turns the description of a struct into the token streams of a builder for it: the
//! `builder()` function and the builder type, one setter for each field, and the `build()` method.
//! What the generated code is, token by token, is the contract of the functions that generate it.
//!
//! - [`token`]: token streams and the tokens that they hold;
//! - [`ident`]: identifiers;
//! - [`emit`]: appending code to a token stream;
//! - [`generics`]: the generic parameters of a struct;
//! - [`readable`]: tokens that the parser of expressions takes without fail;
//! - [`expr`]: the expressions that attributes hold;
//! - [`error`]: what is reported to the user of the macro;
//! - [`builder_attr`]: what the attributes of a struct say;
//! - [`field_info`]: what is known of a field;
//! - [`struct_info`]: what is known of a struct;
//! - [`creation`]: the `builder()` function, the builder type and the trait behind defaults;
//! - [`setter`]: the setters;
//! - [`build_method`]: the `build()` method;
//! - [`laws`]: what holds of the generated code as a whole;
//! - [`attribute_laws`], [`field_laws`], [`readable_laws`]: what the arguments of attributes do, what
//!   is taken over of a declaration, and which tokens are readable;
//! - [`token_laws`] and [`lexemes`]: what the generated code is, in literal tokens;
//! - [`text`] and [`sequences`]: texts, and facts about sequences.

pub mod attribute_laws;
pub mod build_method;
pub mod builder_attr;
pub mod creation;
pub mod emit;
pub mod error;
pub mod expr;
pub mod field_info;
pub mod field_laws;
pub mod generics;
pub mod ident;
pub mod laws;
pub mod lexemes;
pub mod readable;
pub mod readable_laws;
pub mod sequences;
pub mod setter;
pub mod struct_info;
pub mod text;
pub mod token;
pub mod token_laws;
