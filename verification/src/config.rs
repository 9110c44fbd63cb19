use vstd::prelude::*;

use crate::text::views;

verus! {

/// Per-repository settings, as read from `.kvlint.toml`.
#[derive(Debug, Clone, PartialEq, Eq)]
pub struct KvLintConfig {
    pub ignored_rules: Vec<String>,
    pub strict_mode: bool,
    pub target_models: Vec<String>,
    pub cache_threshold_tokens: Option<usize>,
    pub ignore_paths: Vec<String>,
}

impl Default for KvLintConfig {
    /// No ignored rules or paths, no strict mode, no threshold, and the one
    /// target model `generic`.
    fn default() -> (r: Self)
        ensures
            r.ignored_rules@.len() == 0,
            !r.strict_mode,
            views(r.target_models@) == seq!["generic"@],
            r.cache_threshold_tokens is None,
            r.ignore_paths@.len() == 0,
    {
        let mut target_models: Vec<String> = Vec::new();
        target_models.push("generic".to_owned());
        let r = KvLintConfig {
            ignored_rules: Vec::new(),
            strict_mode: false,
            target_models,
            cache_threshold_tokens: None,
            ignore_paths: Vec::new(),
        };
        assert(views(r.target_models@) =~= seq!["generic"@]);
        r
    }
}

/// Why a configuration was refused.
#[derive(Debug, Clone, PartialEq, Eq)]
pub enum ConfigError {
    ParseError(String),
}

pub const PARSE_ERROR_PREFIX: &'static str = "Failed to parse config: ";

impl ConfigError {
    /// The text that describes the error.
    pub fn message(&self) -> (r: String)
        ensures
            match self {
                ConfigError::ParseError(msg) => r@ == PARSE_ERROR_PREFIX@ + msg@,
            },
    {
        match self {
            ConfigError::ParseError(msg) => {
                let mut r = PARSE_ERROR_PREFIX.to_owned();
                r.append(msg.as_str());
                r
            },
        }
    }
}

} // verus!
