//! Declarative configuration data for an evaluation run, as a caller or a
//! configuration file front end would assemble it.

use vstd::prelude::*;

verus! {

/// How the task under test is reached.
#[derive(Debug, PartialEq, Eq)]
pub enum TaskConfig {
    /// An HTTP endpoint called once per case.
    Http { url: String, method: String },
}

/// Where the cases come from.
#[derive(Debug, PartialEq, Eq)]
pub struct DataConfig {
    pub path: String,
}

/// One configured scorer. Thresholds are in micros of a score unit.
#[derive(Debug, PartialEq, Eq)]
pub enum ScorerConfig {
    Exact,
    Levenshtein { threshold_micros: u32 },
    Contains { substring: String, case_sensitive: bool },
    Regex { pattern: String },
    Json,
    JsonSchema { path: String },
    Sql { dialect: String },
}

/// A whole run's configuration.
#[derive(Debug, PartialEq, Eq)]
pub struct EvalConfig {
    pub task: TaskConfig,
    pub data: DataConfig,
    pub scorers: Vec<ScorerConfig>,
    pub concurrency: usize,
}

/// The concurrency bound used when none is configured.
pub fn default_concurrency() -> (n: usize)
    ensures
        n == 8,
{
    8
}

/// The HTTP method used when none is configured.
pub fn default_http_method() -> (m: String)
    ensures
        m@ == "POST"@,
{
    "POST".to_string()
}

} // verus!
