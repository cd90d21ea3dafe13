//! Random points in the unit square, served on request.
//!
//! A request carries a URL query string with a count `n`; the reply holds
//! `n` freshly drawn points, or says why the query was rejected. Coordinates
//! are fixed-point fractions with 53 bits, so every point lies in `[0, 1)`
//! on both axes by construction.

pub mod decimal;
pub mod entropy;
pub mod point;
pub mod query;
pub mod service;
