//! Core of a product catalog service: the product model, the rules that
//! decide how each request is answered, and the shapes of the answers.
//!
//! Nothing in this crate performs I/O. A caller runs the store queries and
//! the image checks and hands their outcomes back in as plain values.

pub mod filter;
pub mod fresh;
pub mod handlers;
pub mod models;
pub mod response;
pub mod store;
pub mod text;
pub mod validator;
