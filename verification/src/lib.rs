//! Two small, independent text utilities with proved contracts:
//! a divisibility classifier driven by an ordered rule table, and a
//! per-letter substitution cipher.

pub mod cipher;
pub mod classifier;
pub mod decimal;
pub mod text;
