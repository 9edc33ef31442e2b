//! Typed client core for a trading-exchange REST API.
//!
//! The verified layer turns a logical operation into a correctly signed,
//! canonically encoded request, and decodes the typed result or a
//! normalized error. Canonical encoding, signing order and the error
//! taxonomy are stated as contracts and proved; the MAC itself, the clock
//! and JSON parsing are called through narrow trusted wrappers.

pub mod account;
pub mod client;
pub mod decode;
pub mod encode;
pub mod errors;
pub mod general;
pub mod model;
pub mod request;
pub mod sign;
