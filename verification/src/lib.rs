//! Decides how tagged SQL values are bound as the arguments of a Cloudflare
//! D1 query.
//!
//! A query builder hands over the values of a query in the order of its
//! placeholders, each tagged with its kind. [`value::SqlxValues::into_arguments`]
//! gives every value the argument that D1 takes for its kind: one argument
//! for each value, in the order of the values. Four kinds D1 cannot hold:
//! a list with a value of such a kind has no arguments at all.
//!
//! The arguments are plain values. Handing them to the driver is left to
//! the caller: the driver encodes what it is handed into a JavaScript value
//! at once, which only a wasm32 build can do.

pub mod outside;
pub mod param;
pub mod plan;
pub mod text;
pub mod value;
