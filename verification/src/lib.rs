//! An evaluation harness: labeled cases are run through a pluggable task,
//! scored by pluggable scorers, and aggregated into a structured result.
//!
//! The crate centres on the execution engine: the case-dispatch pipeline,
//! per-case trace isolation, and the result/aggregation data model.

pub mod collect;
pub mod config;
pub mod datasource;
pub mod render;
pub mod runner;
pub mod scorer;
pub mod scorers;
pub mod task;
pub mod testing;
pub mod text;
pub mod trace;
pub mod types;
pub mod value;

pub use collect::ResultCollector;
pub use config::{DataConfig, EvalConfig, ScorerConfig, TaskConfig};
pub use datasource::{CaseParseError, DataSource, JsonlDataSource, VecDataSource};
pub use runner::{Eval, EvalBuilder, EvalError, Sink};
pub use scorer::Scorer;
pub use scorers::contains::ContainsScorer;
pub use scorers::exact::ExactMatchScorer;
pub use scorers::json::JsonScorer;
pub use scorers::levenshtein::LevenshteinScorer;
pub use scorers::regex::RegexScorer;
pub use scorers::sql::{SqlDialect, SqlScorer};
pub use task::Task;
pub use testing::{assert_eval_all_passed, assert_eval_avg_score, assert_eval_pass_rate};
pub use trace::{clear_traces, get_traces, report_trace, TraceBuilder, TraceScope};
pub use types::{CaseResult, EvalResult, EvalSummary, Score, TestCase, TokenUsage, Trace};
pub use value::JsonValue;
