//! A window-configuration builder built on a verified heterogeneous
//! tag-keyed list, together with a small fixed-size vector type.
//!
//! The crate has three layers:
//! - [`component`]: a persistent, tag-keyed association chain (`Empty` /
//!   `With`) with verified lookup and in-place mutation;
//! - [`math`]: the fixed-size vector `vec<T, N>`, its elementwise
//!   operation combinators, and the variadic `Piece`-based constructor;
//! - [`window`]: the window builder, which accumulates configuration
//!   items in a chain and resolves them into a [`window::config::Config`]
//!   that an external windowing collaborator consumes;
//!
//! with [`tools`] holding the string helpers the crate's tooling uses.

pub mod component;
pub mod math;
pub mod tools;
pub mod window;
