pub mod analyzer;
pub mod benchmark;
pub mod config;
pub mod optimizer;
pub mod pattern;
pub mod report;
pub mod rules;
pub mod scanner;
pub mod text;

pub use analyzer::{AnalysisResult, Analyzer, IssueSeverity, PromptIssue};
pub use config::{ConfigError, KvLintConfig};
pub use optimizer::{OptimizationResult, Optimizer};
