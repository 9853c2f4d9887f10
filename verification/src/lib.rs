//! Generates C# bindings for the items that a native library exports.
//!
//! For every exported function, method and type the library produces the
//! raw declaration that calls into the native library, with the exact types
//! of the boundary, and the idiomatic wrapper or type that user code works
//! with. Generation is a function of the descriptions alone: the same
//! descriptions give the same declarations, and an item that cannot be
//! generated in full yields an error and nothing else.
//!
//! The descriptions:
//! - [`schema`]: the shape of a type, as a tree.
//! - [`export`]: the exported items, whose types are schemas.
//! - [`registry`]: the named types of a run, by identity.
//!
//! From a description to the types of a declaration:
//! - [`resolve`]: the raw type that stands for a value at the boundary.
//! - [`idiomatic`]: the type that user code sees.
//! - [`types`]: references to C# types.
//!
//! The generators and what they generate:
//! - [`strukt`] and [`enumeration`]: the declarations of structs and enums.
//! - [`binding`]: the raw bindings.
//! - [`func`]: the wrappers.
//! - [`generate`]: all of the above for one exported item.
//! - [`decl`]: the declarations that the generators share.
//! - [`text`]: every declaration as source text.
//! - [`error`]: what can go wrong.
//!
//! Beside them:
//! - [`naming`] and [`literal`]: names in the casing of the target, and
//!   discriminant literals.
//! - [`numbering`]: the numbers that the members of a generated enum have.
//! - [`bindgen_fn`], [`bindgen_impl`] and [`basic`]: the description of
//!   free functions over basic types, read from their signatures, and the
//!   class generated for one.
//! - [`handle`] and [`raw_string`]: the native side of a handle, and the
//!   raw form of an owned text.
//! - [`tileset`]: a small library of the kind whose items are exported.
//! - [`collect`]: lists whose items may fail, as the contracts model them.

pub mod basic;
pub mod bindgen_fn;
pub mod bindgen_impl;
pub mod binding;
pub mod collect;
pub mod decl;
pub mod enumeration;
pub mod error;
pub mod export;
pub mod func;
pub mod generate;
pub mod handle;
pub mod idiomatic;
pub mod literal;
pub mod naming;
pub mod numbering;
pub mod raw_string;
pub mod registry;
pub mod resolve;
pub mod schema;
pub mod strukt;
pub mod text;
pub mod tileset;
pub mod types;
