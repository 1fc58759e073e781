//! Small command-line utilities with verified cores: Euclid's greatest
//! common divisor and a regular-expression find-and-replace pipeline.
pub mod args;
pub mod decimal;
pub mod gcd;
pub mod failure;
pub mod pattern;
pub mod web;
pub mod pipeline;
