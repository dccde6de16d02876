//! Random passwords drawn from selectable character classes.
pub mod charset;
pub mod cli;
pub mod clipboard;
pub mod random;
pub mod sampler;
pub mod utils;
