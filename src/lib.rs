//! An edge gate that puts selected request paths under CAPTCHA protection.
//!
//! The library holds the decisions: configuration validation, path matching,
//! token extraction, reading the verification reply and the header edits made
//! toward the origin. The host program performs the I/O that each decision asks for.
use vstd::prelude::*;

pub mod config;
pub mod gate;
pub mod json;
pub mod pattern;
pub mod text;
pub mod verification;

verus! {

} // verus!
