//! Verified core of a `.kr` domain-availability scanner.
//!
//! The library enumerates every three-letter lowercase candidate name,
//! builds the registry lookup request for one candidate, classifies the
//! registry's JSON response, and drives the sequential scan that resumes
//! from an operator-supplied index.

pub mod candidates;
pub mod classify;
pub mod config;
pub mod lines;
pub mod numerals;
pub mod request;
pub mod response;
pub mod runner;

pub use candidates::generate_arr;
