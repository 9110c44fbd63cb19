use kvlint::analyzer::{AnalysisResult, Analyzer, IssueSeverity, PromptIssue};
use kvlint::benchmark::{estimate_prompt_tokens, monthly_token_volume};
use kvlint::config::{ConfigError, KvLintConfig};
use kvlint::optimizer::{Optimizer, DYNAMIC_TAIL_HEADER};
use kvlint::pattern::CompiledPattern;
use kvlint::report::has_critical;
use kvlint::rules::{
    all_rules, try_all_rules, BuiltinRule, DynamicDateInJinjaRule, DynamicTimestampRule,
    DynamicToolSchemaMutationRule, DynamicUuidRule, DynamicVariableAtTopRule, RawDiffInPrefixRule,
    Rule, RuleKind, ThinkingTraceHistoryRule, UncachedFewShotOrderRule,
    UnsortedJsonSerializationRule, UnstableSystemPromptPrefixRule,
};
use kvlint::scanner::{contains, is_relevant_extension, is_relevant_source_file, same_text};
use kvlint::text::{split_lines, trim};

fn issue(severity: IssueSeverity) -> PromptIssue {
    PromptIssue {
        rule_id: "X".to_string(),
        severity,
        file: "f".to_string(),
        line: 1,
        title: String::new(),
        explanation: String::new(),
        recommendation: String::new(),
        snippet: String::new(),
        estimated_token_waste_pct: 0,
    }
}

#[test]
fn score_deducts_per_severity() {
    let a = Analyzer::new();
    assert_eq!(a.compute_score(&[]), 100);
    assert_eq!(a.compute_score(&[issue(IssueSeverity::Critical)]), 70);
    assert_eq!(a.compute_score(&[issue(IssueSeverity::Warning)]), 90);
    assert_eq!(a.compute_score(&[issue(IssueSeverity::Optimization)]), 95);
    assert_eq!(
        a.compute_score(&[issue(IssueSeverity::Critical), issue(IssueSeverity::Critical)]),
        40
    );
}

#[test]
fn score_never_below_zero() {
    let a = Analyzer::new();
    let many: Vec<PromptIssue> = (0..10).map(|_| issue(IssueSeverity::Critical)).collect();
    assert_eq!(a.compute_score(&many), 0);
    let four: Vec<PromptIssue> = (0..4).map(|_| issue(IssueSeverity::Critical)).collect();
    assert_eq!(a.compute_score(&four), 0);
}

#[test]
fn score_ignores_order_and_never_rises() {
    let a = Analyzer::new();
    let x = vec![issue(IssueSeverity::Warning), issue(IssueSeverity::Critical)];
    let y = vec![issue(IssueSeverity::Critical), issue(IssueSeverity::Warning)];
    assert_eq!(a.compute_score(&x), a.compute_score(&y));
    assert_eq!(a.compute_score(&x), 60);
    let mut z = x.clone();
    z.push(issue(IssueSeverity::Optimization));
    assert!(a.compute_score(&z) <= a.compute_score(&x));
    assert_eq!(a.compute_score(&z), 55);
}

#[test]
fn timestamp_rule_reports_exact_issue() {
    let a = Analyzer::new();
    let issues = a.analyze_file("p.py", "intro\n   stamp = datetime.now()  \nend\n");
    assert_eq!(issues.len(), 1);
    let i = &issues[0];
    assert_eq!(i.rule_id, "KV001_DYNAMIC_TIMESTAMP_PREFIX");
    assert_eq!(i.severity, IssueSeverity::Critical);
    assert_eq!(i.file, "p.py");
    assert_eq!(i.line, 2);
    assert_eq!(i.snippet, "stamp = datetime.now()");
    assert_eq!(i.title, "Dynamic Timestamp invalidates prefix KV-cache");
    assert_eq!(i.estimated_token_waste_pct, 95);
}

#[test]
fn timestamp_rule_ignores_lines_past_its_window() {
    let mut content = String::new();
    for _ in 0..25 {
        content.push_str("static line\n");
    }
    content.push_str("now = datetime.now()\n");
    let issues = DynamicTimestampRule::new().check("a.py", &content);
    assert!(issues.is_empty());
    let mut content24 = String::new();
    for _ in 0..24 {
        content24.push_str("static line\n");
    }
    content24.push_str("now = datetime.now()\n");
    let issues = DynamicTimestampRule::new().check("a.py", &content24);
    assert_eq!(issues.len(), 1);
    assert_eq!(issues[0].line, 25);
}

#[test]
fn whole_file_rules_see_every_line() {
    let mut content = String::new();
    for _ in 0..100 {
        content.push_str("x\n");
    }
    content.push_str("random.shuffle(tools)\n");
    let issues = UnstableSystemPromptPrefixRule::new().check("a.py", &content);
    assert_eq!(issues.len(), 1);
    assert_eq!(issues[0].line, 101);
    assert_eq!(issues[0].rule_id, "KV004_SHUFFLED_PROMPT_COMPONENTS");
    assert_eq!(issues[0].severity, IssueSeverity::Warning);
}

#[test]
fn each_rule_flags_its_pattern() {
    let cases: Vec<(&str, &str, IssueSeverity, u8)> = vec![
        ("token = crypto.randomUUID()", "KV002_DYNAMIC_UUID_AT_HEADER", IssueSeverity::Critical, 100),
        ("Query: {{ user_input }}", "KV003_USER_VARIABLE_BEFORE_SYSTEM_PREFIX", IssueSeverity::Warning, 75),
        ("examples = [a, b]", "KV005_DYNAMIC_FEW_SHOT_ALIGNMENT", IssueSeverity::Optimization, 40),
        ("Today: {{ now() | date }}", "KV006_DYNAMIC_TEMPLATE_TAG_IN_SYSTEM_PREFIX", IssueSeverity::Warning, 80),
        ("diff --git a/x b/x", "KV007_RAW_DIFF_IN_PREFIX", IssueSeverity::Critical, 95),
        ("reasoning_content = msg", "KV008_THINKING_TRACE_HISTORY_POLLUTION", IssueSeverity::Critical, 90),
        ("s = json.dumps(d)", "KV009_UNSORTED_JSON_SERIALIZATION_IN_PREFIX", IssueSeverity::Warning, 70),
        ("tools.append(new_tool)", "KV010_DYNAMIC_TOOL_SCHEMA_MUTATION_IN_PREFIX", IssueSeverity::Critical, 90),
    ];
    let a = Analyzer::new();
    for (line, id, sev, pct) in cases {
        let issues = a.analyze_file("f", line);
        let found: Vec<&PromptIssue> = issues.iter().filter(|i| i.rule_id == id).collect();
        assert_eq!(found.len(), 1, "{}", line);
        assert_eq!(found[0].severity, sev);
        assert_eq!(found[0].estimated_token_waste_pct, pct);
        assert_eq!(found[0].line, 1);
    }
}

#[test]
fn sorted_json_is_not_flagged() {
    let issues = UnsortedJsonSerializationRule::new().check("f", "s = json.dumps(d, sort_keys=True)\n");
    assert!(issues.is_empty());
    let issues = UnsortedJsonSerializationRule::new().check("f", "s = json.dumps(d)\n");
    assert_eq!(issues.len(), 1);
}

#[test]
fn named_rules_report_their_ids() {
    assert_eq!(DynamicTimestampRule::new().id(), "KV001_DYNAMIC_TIMESTAMP_PREFIX");
    assert_eq!(DynamicUuidRule::new().id(), "KV002_DYNAMIC_UUID_AT_HEADER");
    assert_eq!(DynamicVariableAtTopRule::new().id(), "KV003_USER_VARIABLE_BEFORE_SYSTEM_PREFIX");
    assert_eq!(UnstableSystemPromptPrefixRule::new().id(), "KV004_SHUFFLED_PROMPT_COMPONENTS");
    assert_eq!(UncachedFewShotOrderRule::new().id(), "KV005_DYNAMIC_FEW_SHOT_ALIGNMENT");
    assert_eq!(DynamicDateInJinjaRule::new().id(), "KV006_DYNAMIC_TEMPLATE_TAG_IN_SYSTEM_PREFIX");
    assert_eq!(RawDiffInPrefixRule::new().id(), "KV007_RAW_DIFF_IN_PREFIX");
    assert_eq!(ThinkingTraceHistoryRule::new().id(), "KV008_THINKING_TRACE_HISTORY_POLLUTION");
    assert_eq!(UnsortedJsonSerializationRule::new().id(), "KV009_UNSORTED_JSON_SERIALIZATION_IN_PREFIX");
    assert_eq!(DynamicToolSchemaMutationRule::new().id(), "KV010_DYNAMIC_TOOL_SCHEMA_MUTATION_IN_PREFIX");
}

#[test]
fn all_rules_in_order() {
    let ids: Vec<&str> = all_rules().iter().map(|r: &BuiltinRule| r.id()).collect();
    assert_eq!(
        ids,
        vec![
            "KV001_DYNAMIC_TIMESTAMP_PREFIX",
            "KV002_DYNAMIC_UUID_AT_HEADER",
            "KV004_SHUFFLED_PROMPT_COMPONENTS",
            "KV003_USER_VARIABLE_BEFORE_SYSTEM_PREFIX",
            "KV005_DYNAMIC_FEW_SHOT_ALIGNMENT",
            "KV006_DYNAMIC_TEMPLATE_TAG_IN_SYSTEM_PREFIX",
            "KV007_RAW_DIFF_IN_PREFIX",
            "KV008_THINKING_TRACE_HISTORY_POLLUTION",
            "KV009_UNSORTED_JSON_SERIALIZATION_IN_PREFIX",
            "KV010_DYNAMIC_TOOL_SCHEMA_MUTATION_IN_PREFIX",
        ]
    );
    assert!(try_all_rules().is_some());
    assert!(Analyzer::try_new().is_some());
    assert!(Optimizer::try_new().is_some());
    assert_eq!(RuleKind::DynamicUuid.info().window, Some(20));
    assert_eq!(RuleKind::ThinkingTraceHistory.info().window, None);
}

#[test]
fn analyzer_orders_issues_by_rule_then_line() {
    let a = Analyzer::new();
    let content = "session_id = 1\nnow = datetime.now()\nrandom.shuffle(x)\n";
    let issues = a.analyze_file("f", content);
    let got: Vec<(String, usize)> = issues.iter().map(|i| (i.rule_id.clone(), i.line)).collect();
    assert_eq!(
        got,
        vec![
            ("KV001_DYNAMIC_TIMESTAMP_PREFIX".to_string(), 2),
            ("KV002_DYNAMIC_UUID_AT_HEADER".to_string(), 1),
            ("KV004_SHUFFLED_PROMPT_COMPONENTS".to_string(), 3),
        ]
    );
}

#[test]
fn optimizer_moves_dynamic_lines_to_tail() {
    let o = Optimizer::new();
    let content = "Time: datetime.now()\nYou are helpful.\nid = session_id\nBe concise.\n";
    let r = o.optimize_prompt_text(content);
    assert_eq!(r.original_content, content);
    let expected = format!(
        "You are helpful.\nBe concise.{}Time: datetime.now()\nid = session_id",
        DYNAMIC_TAIL_HEADER
    );
    assert_eq!(r.optimized_content, expected);
    assert_eq!(
        r.changes_made,
        vec![
            "Moved dynamic timestamp line to tail: `Time: datetime.now()`".to_string(),
            "Moved dynamic UUID/session variable to tail: `id = session_id`".to_string(),
        ]
    );
    assert_eq!(r.estimated_savings_pct, 65);
}

#[test]
fn optimizer_leaves_static_prompt_alone() {
    let o = Optimizer::new();
    let r = o.optimize_prompt_text("line one\r\nline two\n");
    assert_eq!(r.optimized_content, "line one\nline two");
    assert!(r.changes_made.is_empty());
    assert_eq!(r.estimated_savings_pct, 0);
    let r = o.optimize_prompt_text("");
    assert_eq!(r.optimized_content, "");
}

#[test]
fn lines_follow_str_lines() {
    for s in ["", "a", "a\n", "a\r\nb", "a\n\nb\n", "x\ry\n", "\n", "trail\r"] {
        let mine = split_lines(s);
        let std: Vec<String> = s.lines().map(|l| l.to_string()).collect();
        assert_eq!(mine, std, "{:?}", s);
    }
}

#[test]
fn trim_follows_str_trim() {
    for s in ["", "  a ", "\t\u{3000}x y\u{a0}\n", "   ", "abc"] {
        assert_eq!(trim(s), s.trim());
    }
}

#[test]
fn text_search() {
    assert!(contains("/home/u/.git/config", "/.git/"));
    assert!(!contains("/home/u/git/config", "/.git/"));
    assert!(contains("abc", ""));
    assert!(!contains("ab", "abc"));
    assert!(same_text("py", "py"));
    assert!(!same_text("py", "pyc"));
}

#[test]
fn source_file_filter() {
    assert!(is_relevant_extension("py"));
    assert!(is_relevant_extension("prompt"));
    assert!(!is_relevant_extension("exe"));
    assert!(is_relevant_source_file("./src/agent.py", Some("py")));
    assert!(!is_relevant_source_file("./node_modules/x/index.js", Some("js")));
    assert!(!is_relevant_source_file("/repo/node_modules/x/index.js", Some("js")));
    assert!(!is_relevant_source_file("/repo/target/debug/a.rs", Some("rs")));
    assert!(!is_relevant_source_file("/repo/.venv/lib/a.py", Some("py")));
    assert!(!is_relevant_source_file("/repo/Makefile", None));
    assert!(!is_relevant_source_file("/repo/a.png", Some("png")));
}

#[test]
fn critical_detection_and_summary() {
    assert!(!has_critical(&[]));
    assert!(!has_critical(&[issue(IssueSeverity::Warning)]));
    assert!(has_critical(&[issue(IssueSeverity::Warning), issue(IssueSeverity::Critical)]));
    let a = Analyzer::new();
    let r = a.summarize(3, vec![issue(IssueSeverity::Warning), issue(IssueSeverity::Optimization)]);
    assert_eq!(r.files_scanned, 3);
    assert_eq!(r.prompts_analyzed, 3);
    assert_eq!(r.issues.len(), 2);
    assert_eq!(r.cache_efficiency_score, 85);
    let d = AnalysisResult::default();
    assert_eq!(d.files_scanned, 0);
    assert!(d.issues.is_empty());
}

#[test]
fn severity_banners() {
    assert_eq!(IssueSeverity::Critical.banner().1, "CRITICAL [Potential 90%+ Prefix Cache Kill]");
    assert_eq!(IssueSeverity::Warning.banner().1, "WARNING  [75% Prefix Invalidation]");
    assert_eq!(IssueSeverity::Optimization.banner().0, "💡");
}

#[test]
fn config_defaults_and_errors() {
    let c = KvLintConfig::default();
    assert!(!c.strict_mode);
    assert_eq!(c.target_models, vec!["generic".to_string()]);
    assert!(c.ignored_rules.is_empty());
    assert!(c.ignore_paths.is_empty());
    assert_eq!(c.cache_threshold_tokens, None);
    let e = ConfigError::ParseError("bad".to_string());
    assert_eq!(e.message(), "Failed to parse config: bad");
}

#[test]
fn benchmark_token_model() {
    assert_eq!(estimate_prompt_tokens(0), 0);
    assert_eq!(estimate_prompt_tokens(1), 1);
    assert_eq!(estimate_prompt_tokens(4), 1);
    assert_eq!(estimate_prompt_tokens(16000), 4000);
    assert_eq!(estimate_prompt_tokens(16001), 4001);
    let v = monthly_token_volume(16000, 500000).unwrap();
    assert_eq!(v.prompt_tokens, 4000);
    assert_eq!(v.uncached_tokens, 2_000_000_000);
    assert_eq!(v.cached_tokens, 200_000_000);
    assert!(monthly_token_volume(16000, u64::MAX).is_none());
}

#[test]
fn compiled_patterns() {
    let p = CompiledPattern::new(r"\bfoo\d+").unwrap();
    assert!(p.is_match("x foo12 y"));
    assert!(!p.is_match("xfoo12"));
    assert_eq!(p.source(), r"\bfoo\d+");
    assert!(CompiledPattern::new("foo(bar").is_err());
}

#[test]
fn readme_example_scores_forty() {
    let a = Analyzer::new();
    let content = "system_prompt = f\"\"\"\nCurrent timestamp: {datetime.now()}\nSession ID: ${crypto.randomUUID()}\n\"\"\"\n";
    let issues = a.analyze_file("examples/demo_prompts.md", content);
    assert_eq!(issues.len(), 2);
    assert!(issues.iter().all(|i| i.severity == IssueSeverity::Critical));
    assert_eq!(a.compute_score(&issues), 40);
    let three: Vec<PromptIssue> = (0..3).map(|_| issue(IssueSeverity::Critical)).collect();
    assert_eq!(a.compute_score(&three), 10);
}

#[test]
fn shell_date_and_bare_uuid4_are_flagged() {
    let issues = DynamicTimestampRule::new().check("p", "Current date: $(date)");
    assert_eq!(issues.len(), 1);
    assert_eq!(issues[0].line, 1);
    assert_eq!(issues[0].rule_id, "KV001_DYNAMIC_TIMESTAMP_PREFIX");
    let issues = DynamicUuidRule::new().check("p", "sid = uuid4()");
    assert_eq!(issues.len(), 1);
    assert_eq!(issues[0].severity, IssueSeverity::Critical);
}

#[test]
fn fix_moves_what_the_timestamp_rule_flags() {
    let o = Optimizer::new();
    let r = o.optimize_prompt_text("Date: {current_date}\nYou are a helpful assistant.");
    assert_eq!(r.changes_made.len(), 1);
    assert_eq!(
        r.optimized_content,
        "You are a helpful assistant.\n\n# --- Dynamic Runtime Tail (Auto-optimized by kvlint for Prefix Caching) ---\nDate: {current_date}"
    );
    let r = o.optimize_prompt_text("n = nonce\nStatic.");
    assert_eq!(r.changes_made, vec!["Moved dynamic UUID/session variable to tail: `n = nonce`".to_string()]);
}

#[test]
fn analyze_files_concatenates_per_file() {
    let a = Analyzer::new();
    let files = vec![
        ("a.py".to_string(), "x = datetime.now()\n".to_string()),
        ("b.py".to_string(), "clean\n".to_string()),
        ("c.py".to_string(), "random.shuffle(t)\n".to_string()),
    ];
    let issues = a.analyze_files(&files);
    let got: Vec<(String, String)> = issues.iter().map(|i| (i.file.clone(), i.rule_id.clone())).collect();
    assert_eq!(
        got,
        vec![
            ("a.py".to_string(), "KV001_DYNAMIC_TIMESTAMP_PREFIX".to_string()),
            ("c.py".to_string(), "KV004_SHUFFLED_PROMPT_COMPONENTS".to_string()),
        ]
    );
}

#[test]
fn appended_text_keeps_earlier_issues() {
    let a = Analyzer::new();
    let head = "now = datetime.now()\nok\n";
    let tail = "random.shuffle(x)\nsession_id = 3";
    let whole = format!("{}{}", head, tail);
    let before = a.analyze_file("f", head);
    let after = a.analyze_file("f", &whole);
    let kept: Vec<(String, usize)> = after.iter().filter(|i| i.line <= 2).map(|i| (i.rule_id.clone(), i.line)).collect();
    let expected: Vec<(String, usize)> = before.iter().map(|i| (i.rule_id.clone(), i.line)).collect();
    assert_eq!(kept, expected);
    assert!(after.len() > before.len());
}

#[test]
fn score_ignores_any_permutation() {
    let a = Analyzer::new();
    let x = vec![issue(IssueSeverity::Warning), issue(IssueSeverity::Optimization), issue(IssueSeverity::Critical)];
    let y = vec![issue(IssueSeverity::Optimization), issue(IssueSeverity::Critical), issue(IssueSeverity::Warning)];
    assert_eq!(a.compute_score(&x), a.compute_score(&y));
    assert_eq!(a.compute_score(&x), 55);
}
