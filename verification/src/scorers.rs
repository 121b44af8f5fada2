//! The built-in scorers.

pub mod contains;
pub mod exact;
pub mod json;
pub mod levenshtein;
pub mod regex;
pub mod sql;
