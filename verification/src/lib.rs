//! Renders a text template by substituting variables gathered from an
//! environment-definition file, the ambient process environment, or both.
//!
//! The crate is organised around three steps: a resolver builds a
//! [`bindings::BindingSet`] according to a [`resolve::Mode`], a renderer hands
//! that set to a strict template engine, and a small pipeline ties the two
//! together. All policy decisions (which variables are visible, when a missing
//! source file is an error, how failures are classified) are verified; the
//! template grammar itself is an outside capability.

pub mod bindings;
pub mod errors;
pub mod pipeline;
pub mod render;
pub mod resolve;
