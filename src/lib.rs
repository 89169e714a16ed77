//! Conversions that let a function take one value, a tuple of values or a
//! collection of them, and always work with a sequence of its target type;
//! and the generator that describes, for a target, every implementation of
//! those conversions that its attribute asks for.
//!
//! - [`items`], [`variadic`]: the conversion traits and their implementations
//!   for tuples, vectors, slices and arrays; [`laws`] states what holds of them.
//! - [`attrs`], [`context`]: the parsed attribute and the derive target.
//! - [`generics`], [`bounds`], [`assoc`]: the parameter list, where clause,
//!   associated types and body of one generated implementation.
//! - [`engine`]: every implementation an attribute asks for, in a fixed order.
//! - [`samples`]: targets with the implementations their attributes ask for.
pub mod attrs;
pub mod context;
pub mod generics;
pub mod bounds;
pub mod assoc;
pub mod engine;
pub mod items;
pub mod variadic;
pub mod laws;
pub mod samples;
