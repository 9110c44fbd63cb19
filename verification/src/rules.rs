use vstd::prelude::*;

use crate::analyzer::{issue_views, IssueModel, IssueSeverity, PromptIssue};
use crate::pattern::{regex_accepts, regex_matches, CompiledPattern};
use crate::text::{lemma_lines_of_concat, spec_lines, spec_trim, split_lines, trim, views};

verus! {

pub const KV001_ID: &'static str = "KV001_DYNAMIC_TIMESTAMP_PREFIX";
pub const KV001_PATTERN: &'static str = r#"(?i)(datetime\.now\(\)|time\.time\(\)|new Date\(\)|Date\.now\(\)|\bnow\(\)|\bcurrent_time\b|strftime|\bcurrent_date\b|\b\{\{timestamp\}\}|\b\{timestamp\}\}|\$\(date\))"#;
pub const KV001_TITLE: &'static str = "Dynamic Timestamp invalidates prefix KV-cache";
pub const KV001_EXPLANATION: &'static str = "Placing dynamic timestamps at the beginning of system prompts changes the token prefix on every request, completely invalidating GPU prefix caching across vLLM, SGLang, and Anthropic/OpenAI.";
pub const KV001_RECOMMENDATION: &'static str = "Move dynamic timestamps to the end of the prompt or into the user message, or quantize timestamps to 1-hour / 1-day granularity.";

pub const KV002_ID: &'static str = "KV002_DYNAMIC_UUID_AT_HEADER";
pub const KV002_PATTERN: &'static str = r#"(?i)(uuid\.uuid4\(\)|\buuid4\(\)|crypto\.randomUUID\(\)|\bnonce\b|\bsession_id\b|\brequest_id\b|\btrace_id\b)"#;
pub const KV002_TITLE: &'static str = "Unique session/request ID at prompt start destroys KV reuse";
pub const KV002_EXPLANATION: &'static str = "Generating random session_id, request_id, or UUIDs at the top of system instructions guarantees 0% prefix cache hits for all subsequent tokens.";
pub const KV002_RECOMMENDATION: &'static str = "Pass session/trace IDs as metadata parameters or append them to the tail of the context window.";

pub const KV003_ID: &'static str = "KV003_USER_VARIABLE_BEFORE_SYSTEM_PREFIX";
pub const KV003_PATTERN: &'static str = r#"(\{\{\s*(user_input|query|input|prompt|user_query|context|user_data)\s*\}\}|\{\s*(user_input|query|input|user_query|context)\s*\})"#;
pub const KV003_TITLE: &'static str = "Dynamic user variable injected before static system prompt";
pub const KV003_EXPLANATION: &'static str = "Placing dynamic variables (like user queries or rag context) before static tool definitions and system rules breaks the common prefix tree.";
pub const KV003_RECOMMENDATION: &'static str = "Structure prompts with fixed static blocks first (System Instructions -> Tools -> Pinned Guidelines) and dynamic user variables strictly at the end.";

pub const KV004_ID: &'static str = "KV004_SHUFFLED_PROMPT_COMPONENTS";
pub const KV004_PATTERN: &'static str = r#"(?i)(random\.shuffle|Math\.random\(\)|\.sort\(\s*=>\s*Math\.random)"#;
pub const KV004_TITLE: &'static str = "Randomized ordering of prompt components detected";
pub const KV004_EXPLANATION: &'static str = "Randomly shuffling tools, few-shot examples, or documentation fragments causes RadixAttention and PagedAttention prefix trees to diverge on every call.";
pub const KV004_RECOMMENDATION: &'static str = "Enforce deterministic alphabetical or key-based sorting for all prompt components to guarantee prefix cache alignment.";

pub const KV005_ID: &'static str = "KV005_DYNAMIC_FEW_SHOT_ALIGNMENT";
pub const KV005_PATTERN: &'static str = r#"(?i)(\bexamples\s*=\s*\[|\bfew_shots\s*=\s*\[)"#;
pub const KV005_TITLE: &'static str = "Verify static alignment of few-shot example prefixes";
pub const KV005_EXPLANATION: &'static str = "Few-shot examples should maintain an identical static header and order across calls to enable cross-request KV reuse.";
pub const KV005_RECOMMENDATION: &'static str = "Pin shared few-shot examples into the system message prefix rather than re-creating them inside dynamic user prompts.";

pub const KV006_ID: &'static str = "KV006_DYNAMIC_TEMPLATE_TAG_IN_SYSTEM_PREFIX";
pub const KV006_PATTERN: &'static str = r#"(?i)(\{\{.*(datetime|time|now|random|uuid).*\}\})"#;
pub const KV006_TITLE: &'static str = "Dynamic template tag (datetime/now/random) in system prompt";
pub const KV006_EXPLANATION: &'static str = "Evaluating dynamic timestamp or random template filters inside prompt headers mutates prefix tokens per rendering, breaking prefill caching.";
pub const KV006_RECOMMENDATION: &'static str = "Separate static system instructions from dynamic template variables or place variables at the tail of the message.";

pub const KV007_ID: &'static str = "KV007_RAW_DIFF_IN_PREFIX";
pub const KV007_PATTERN: &'static str = r#"(?i)(\bgit\s+diff\b|^diff --git\s|^commit\s+[0-9a-f]{7,40}\b|^@@\s+-\d+(,\d+)?\s+\+\d+(,\d+)?\s+@@|^index\s+[0-9a-f]{7,}\.\.[0-9a-f]{7,})"#;
pub const KV007_TITLE: &'static str = "Raw Git diff or commit SHA dumped into prompt prefix";
pub const KV007_EXPLANATION: &'static str = "Volatile Git diffs, hunk headers, or commit SHAs at the start of a prompt change the prefix tokens on every commit, invalidating the KV-cache for everything that follows.";
pub const KV007_RECOMMENDATION: &'static str = "Place code diffs and commit identifiers after the static instructions, at the tail of the prompt or in the user message.";

pub const KV008_ID: &'static str = "KV008_THINKING_TRACE_HISTORY_POLLUTION";
pub const KV008_PATTERN: &'static str = r#"(?i)(</?think(ing)?>|\breasoning_content\b)"#;
pub const KV008_TITLE: &'static str = "Reasoning trace left in multi-turn conversation history";
pub const KV008_EXPLANATION: &'static str = "Unstripped reasoning tokens (<think> blocks, reasoning_content) carried in the conversation history pollute the shared prefix with per-request dead branches, so later turns miss the cache.";
pub const KV008_RECOMMENDATION: &'static str = "Strip thinking traces and reasoning_content from assistant turns before appending them to the conversation history.";

pub const KV009_ID: &'static str = "KV009_UNSORTED_JSON_SERIALIZATION_IN_PREFIX";
pub const KV009_PATTERN: &'static str = r#"\bjson\.dumps\s*\("#;
pub const KV009_EXEMPTION: &'static str = r#"\bsort_keys\s*=\s*True\b"#;
pub const KV009_TITLE: &'static str = "JSON serialized without sort_keys=True";
pub const KV009_EXPLANATION: &'static str = "json.dumps() without sort_keys=True can order keys differently across processes and environments, producing different prefix tokens for identical tool schemas.";
pub const KV009_RECOMMENDATION: &'static str = "Serialize prompt JSON deterministically with json.dumps(..., sort_keys=True).";

pub const KV010_ID: &'static str = "KV010_DYNAMIC_TOOL_SCHEMA_MUTATION_IN_PREFIX";
pub const KV010_PATTERN: &'static str = r#"(?i)(\b(tools|mcp_tools|tool_schemas)\.(append|insert|extend)\s*\(|\b(tools|mcp_tools|tool_schemas)\s*\+=|\b(register|add)_tool\s*\()"#;
pub const KV010_TITLE: &'static str = "Tool schema mutated at runtime in prompt prefix";
pub const KV010_EXPLANATION: &'static str = "Appending, inserting or registering tool definitions or MCP schemas at runtime changes the tool block in the prefix header, breaking vLLM APC and SGLang RadixAttention cache reuse.";
pub const KV010_RECOMMENDATION: &'static str = "Declare the full tool catalog statically and in a fixed order; select tools through request parameters instead of mutating the schema.";

/// The built-in rules.
#[derive(Debug, Clone, Copy, PartialEq, Eq, Structural)]
pub enum RuleKind {
    DynamicTimestamp,
    DynamicUuid,
    UnstableSystemPromptPrefix,
    DynamicVariableAtTop,
    UncachedFewShotOrder,
    DynamicDateInJinja,
    RawDiffInPrefix,
    ThinkingTraceHistory,
    UnsortedJsonSerialization,
    DynamicToolSchemaMutation,
}

/// What a rule looks for and what it reports.
#[derive(Debug, Clone, Copy)]
pub struct RuleInfo {
    pub id: &'static str,
    pub severity: IssueSeverity,
    /// Only lines with an index below this are inspected; `None`: every line.
    pub window: Option<usize>,
    /// A line is flagged where this pattern matches it ...
    pub pattern: &'static str,
    /// ... and, where there is one, this pattern does not.
    pub exemption: Option<&'static str>,
    pub title: &'static str,
    pub explanation: &'static str,
    pub recommendation: &'static str,
    pub waste_pct: u8,
}

/// The description of each built-in rule.
pub open spec fn spec_info(k: RuleKind) -> RuleInfo {
    match k {
        RuleKind::DynamicTimestamp => RuleInfo {
            id: KV001_ID,
            severity: IssueSeverity::Critical,
            window: Some(25),
            pattern: KV001_PATTERN,
            exemption: None,
            title: KV001_TITLE,
            explanation: KV001_EXPLANATION,
            recommendation: KV001_RECOMMENDATION,
            waste_pct: 95,
        },
        RuleKind::DynamicUuid => RuleInfo {
            id: KV002_ID,
            severity: IssueSeverity::Critical,
            window: Some(20),
            pattern: KV002_PATTERN,
            exemption: None,
            title: KV002_TITLE,
            explanation: KV002_EXPLANATION,
            recommendation: KV002_RECOMMENDATION,
            waste_pct: 100,
        },
        RuleKind::DynamicVariableAtTop => RuleInfo {
            id: KV003_ID,
            severity: IssueSeverity::Warning,
            window: Some(15),
            pattern: KV003_PATTERN,
            exemption: None,
            title: KV003_TITLE,
            explanation: KV003_EXPLANATION,
            recommendation: KV003_RECOMMENDATION,
            waste_pct: 75,
        },
        RuleKind::UnstableSystemPromptPrefix => RuleInfo {
            id: KV004_ID,
            severity: IssueSeverity::Warning,
            window: None,
            pattern: KV004_PATTERN,
            exemption: None,
            title: KV004_TITLE,
            explanation: KV004_EXPLANATION,
            recommendation: KV004_RECOMMENDATION,
            waste_pct: 60,
        },
        RuleKind::UncachedFewShotOrder => RuleInfo {
            id: KV005_ID,
            severity: IssueSeverity::Optimization,
            window: None,
            pattern: KV005_PATTERN,
            exemption: None,
            title: KV005_TITLE,
            explanation: KV005_EXPLANATION,
            recommendation: KV005_RECOMMENDATION,
            waste_pct: 40,
        },
        RuleKind::DynamicDateInJinja => RuleInfo {
            id: KV006_ID,
            severity: IssueSeverity::Warning,
            window: Some(20),
            pattern: KV006_PATTERN,
            exemption: None,
            title: KV006_TITLE,
            explanation: KV006_EXPLANATION,
            recommendation: KV006_RECOMMENDATION,
            waste_pct: 80,
        },
        RuleKind::RawDiffInPrefix => RuleInfo {
            id: KV007_ID,
            severity: IssueSeverity::Critical,
            window: Some(25),
            pattern: KV007_PATTERN,
            exemption: None,
            title: KV007_TITLE,
            explanation: KV007_EXPLANATION,
            recommendation: KV007_RECOMMENDATION,
            waste_pct: 95,
        },
        RuleKind::ThinkingTraceHistory => RuleInfo {
            id: KV008_ID,
            severity: IssueSeverity::Critical,
            window: None,
            pattern: KV008_PATTERN,
            exemption: None,
            title: KV008_TITLE,
            explanation: KV008_EXPLANATION,
            recommendation: KV008_RECOMMENDATION,
            waste_pct: 90,
        },
        RuleKind::UnsortedJsonSerialization => RuleInfo {
            id: KV009_ID,
            severity: IssueSeverity::Warning,
            window: None,
            pattern: KV009_PATTERN,
            exemption: Some(KV009_EXEMPTION),
            title: KV009_TITLE,
            explanation: KV009_EXPLANATION,
            recommendation: KV009_RECOMMENDATION,
            waste_pct: 70,
        },
        RuleKind::DynamicToolSchemaMutation => RuleInfo {
            id: KV010_ID,
            severity: IssueSeverity::Critical,
            window: Some(25),
            pattern: KV010_PATTERN,
            exemption: None,
            title: KV010_TITLE,
            explanation: KV010_EXPLANATION,
            recommendation: KV010_RECOMMENDATION,
            waste_pct: 90,
        },
    }
}

impl RuleKind {
    /// The description of this rule.
    pub fn info(&self) -> (r: RuleInfo)
        ensures
            r == spec_info(*self),
    {
        match self {
            RuleKind::DynamicTimestamp => RuleInfo {
                id: KV001_ID,
                severity: IssueSeverity::Critical,
                window: Some(25),
                pattern: KV001_PATTERN,
                exemption: None,
                title: KV001_TITLE,
                explanation: KV001_EXPLANATION,
                recommendation: KV001_RECOMMENDATION,
                waste_pct: 95,
            },
            RuleKind::DynamicUuid => RuleInfo {
                id: KV002_ID,
                severity: IssueSeverity::Critical,
                window: Some(20),
                pattern: KV002_PATTERN,
                exemption: None,
                title: KV002_TITLE,
                explanation: KV002_EXPLANATION,
                recommendation: KV002_RECOMMENDATION,
                waste_pct: 100,
            },
            RuleKind::DynamicVariableAtTop => RuleInfo {
                id: KV003_ID,
                severity: IssueSeverity::Warning,
                window: Some(15),
                pattern: KV003_PATTERN,
                exemption: None,
                title: KV003_TITLE,
                explanation: KV003_EXPLANATION,
                recommendation: KV003_RECOMMENDATION,
                waste_pct: 75,
            },
            RuleKind::UnstableSystemPromptPrefix => RuleInfo {
                id: KV004_ID,
                severity: IssueSeverity::Warning,
                window: None,
                pattern: KV004_PATTERN,
                exemption: None,
                title: KV004_TITLE,
                explanation: KV004_EXPLANATION,
                recommendation: KV004_RECOMMENDATION,
                waste_pct: 60,
            },
            RuleKind::UncachedFewShotOrder => RuleInfo {
                id: KV005_ID,
                severity: IssueSeverity::Optimization,
                window: None,
                pattern: KV005_PATTERN,
                exemption: None,
                title: KV005_TITLE,
                explanation: KV005_EXPLANATION,
                recommendation: KV005_RECOMMENDATION,
                waste_pct: 40,
            },
            RuleKind::DynamicDateInJinja => RuleInfo {
                id: KV006_ID,
                severity: IssueSeverity::Warning,
                window: Some(20),
                pattern: KV006_PATTERN,
                exemption: None,
                title: KV006_TITLE,
                explanation: KV006_EXPLANATION,
                recommendation: KV006_RECOMMENDATION,
                waste_pct: 80,
            },
            RuleKind::RawDiffInPrefix => RuleInfo {
                id: KV007_ID,
                severity: IssueSeverity::Critical,
                window: Some(25),
                pattern: KV007_PATTERN,
                exemption: None,
                title: KV007_TITLE,
                explanation: KV007_EXPLANATION,
                recommendation: KV007_RECOMMENDATION,
                waste_pct: 95,
            },
            RuleKind::ThinkingTraceHistory => RuleInfo {
                id: KV008_ID,
                severity: IssueSeverity::Critical,
                window: None,
                pattern: KV008_PATTERN,
                exemption: None,
                title: KV008_TITLE,
                explanation: KV008_EXPLANATION,
                recommendation: KV008_RECOMMENDATION,
                waste_pct: 90,
            },
            RuleKind::UnsortedJsonSerialization => RuleInfo {
                id: KV009_ID,
                severity: IssueSeverity::Warning,
                window: None,
                pattern: KV009_PATTERN,
                exemption: Some(KV009_EXEMPTION),
                title: KV009_TITLE,
                explanation: KV009_EXPLANATION,
                recommendation: KV009_RECOMMENDATION,
                waste_pct: 70,
            },
            RuleKind::DynamicToolSchemaMutation => RuleInfo {
                id: KV010_ID,
                severity: IssueSeverity::Critical,
                window: Some(25),
                pattern: KV010_PATTERN,
                exemption: None,
                title: KV010_TITLE,
                explanation: KV010_EXPLANATION,
                recommendation: KV010_RECOMMENDATION,
                waste_pct: 90,
            },
        }
    }
}

/// Whether the rule described by `info` flags the line at index `idx`.
pub open spec fn line_flagged(info: RuleInfo, idx: int, line: Seq<char>) -> bool {
    &&& (info.window matches Some(w) ==> idx < w)
    &&& regex_matches(info.pattern@, line)
    &&& (info.exemption matches Some(e) ==> !regex_matches(e@, line))
}

/// The issue that the rule described by `info` reports for the line at
/// index `idx` of the file at `path`.
pub open spec fn issue_at(info: RuleInfo, path: Seq<char>, idx: int, line: Seq<char>) -> IssueModel {
    IssueModel {
        rule_id: info.id@,
        severity: info.severity,
        file: path,
        line: idx + 1,
        title: info.title@,
        explanation: info.explanation@,
        recommendation: info.recommendation@,
        snippet: spec_trim(line),
        estimated_token_waste_pct: info.waste_pct,
    }
}

/// The issues that the rule described by `info` reports on `lines`, in line order.
pub open spec fn issues_in_lines(info: RuleInfo, path: Seq<char>, lines: Seq<Seq<char>>) -> Seq<IssueModel>
    decreases lines.len(),
{
    if lines.len() == 0 {
        seq![]
    } else {
        let prev = issues_in_lines(info, path, lines.drop_last());
        let idx = lines.len() - 1;
        if line_flagged(info, idx, lines.last()) {
            prev.push(issue_at(info, path, idx, lines.last()))
        } else {
            prev
        }
    }
}

/// The issues that rule `k` reports on `content`, read from `path`.
pub open spec fn rule_issues(k: RuleKind, path: Seq<char>, content: Seq<char>) -> Seq<IssueModel> {
    issues_in_lines(spec_info(k), path, spec_lines(content))
}

/// The issues of the rules `kinds`, one rule after the other.
pub open spec fn issues_for_kinds(kinds: Seq<RuleKind>, path: Seq<char>, content: Seq<char>) -> Seq<IssueModel>
    decreases kinds.len(),
{
    if kinds.len() == 0 {
        seq![]
    } else {
        issues_for_kinds(kinds.drop_last(), path, content) + rule_issues(kinds.last(), path, content)
    }
}

/// The built-in rules, in the order in which they run.
pub open spec fn builtin_order() -> Seq<RuleKind> {
    seq![
        RuleKind::DynamicTimestamp,
        RuleKind::DynamicUuid,
        RuleKind::UnstableSystemPromptPrefix,
        RuleKind::DynamicVariableAtTop,
        RuleKind::UncachedFewShotOrder,
        RuleKind::DynamicDateInJinja,
        RuleKind::RawDiffInPrefix,
        RuleKind::ThinkingTraceHistory,
        RuleKind::UnsortedJsonSerialization,
        RuleKind::DynamicToolSchemaMutation,
    ]
}

/// The texts of the patterns of rule `k`: the pattern, and the exemption pattern
/// where it has one.
pub open spec fn rule_patterns(k: RuleKind) -> (Seq<char>, Option<Seq<char>>) {
    (
        spec_info(k).pattern@,
        match spec_info(k).exemption {
            Some(e) => Some(e@),
            None => None,
        },
    )
}

/// Whether the regular expression engine accepts every pattern of rule `k`.
pub open spec fn rule_patterns_accepted(k: RuleKind) -> bool {
    &&& regex_accepts(spec_info(k).pattern@)
    &&& (spec_info(k).exemption matches Some(e) ==> regex_accepts(e@))
}

/// Whether the regular expression engine accepts every built-in pattern.
pub open spec fn builtin_patterns_accepted() -> bool {
    forall|i: int| 0 <= i < builtin_order().len() ==> rule_patterns_accepted(#[trigger] builtin_order()[i])
}

/// Reports the lines of `content` that the rule described by `info` flags.
fn scan_lines(
    info: &RuleInfo,
    pattern: &CompiledPattern,
    exemption: Option<&CompiledPattern>,
    path: &str,
    content: &str,
) -> (r: Vec<PromptIssue>)
    requires
        pattern@ == info.pattern@,
        exemption is Some <==> info.exemption is Some,
        exemption matches Some(e) ==> e@ == info.exemption->0@,
    ensures
        issue_views(r@) == issues_in_lines(*info, path@, spec_lines(content@)),
{
    let lines = split_lines(content);
    let ghost ls = views(lines@);
    let mut issues: Vec<PromptIssue> = Vec::new();
    let n = lines.len();
    for idx in 0..n
        invariant
            n == lines@.len(),
            ls == views(lines@),
            ls == spec_lines(content@),
            pattern@ == info.pattern@,
            exemption is Some <==> info.exemption is Some,
            exemption matches Some(e) ==> e@ == info.exemption->0@,
            issue_views(issues@) == issues_in_lines(*info, path@, ls.take(idx as int)),
    {
        let line = &lines[idx];
        assert(ls.take(idx + 1).drop_last() == ls.take(idx as int));
        assert(ls[idx as int] == line@);
        let in_window = match info.window {
            Some(w) => idx < w,
            None => true,
        };
        let flagged = in_window && pattern.is_match(line.as_str()) && match exemption {
            Some(e) => !e.is_match(line.as_str()),
            None => true,
        };
        if flagged {
            let issue = PromptIssue {
                rule_id: info.id.to_owned(),
                severity: info.severity,
                file: path.to_owned(),
                line: idx + 1,
                title: info.title.to_owned(),
                explanation: info.explanation.to_owned(),
                recommendation: info.recommendation.to_owned(),
                snippet: trim(line.as_str()),
                estimated_token_waste_pct: info.waste_pct,
            };
            issues.push(issue);
        }
        assert(issue_views(issues@) == issues_in_lines(*info, path@, ls.take(idx + 1)));
    }
    assert(ls.take(n as int) == ls);
    issues
}


/// A rule that inspects a prompt file line by line.
pub trait Rule {
    /// Which built-in rule this is.
    spec fn kind(&self) -> RuleKind;

    /// The rule's identifier, such as `KV001_DYNAMIC_TIMESTAMP_PREFIX`.
    fn id(&self) -> (r: &'static str)
        ensures
            r@ == spec_info(self.kind()).id@,
    ;

    /// The issues the rule finds in `content`, read from `path`, in line order.
    fn check(&self, path: &str, content: &str) -> (r: Vec<PromptIssue>)
        ensures
            issue_views(r@) == rule_issues(self.kind(), path@, content@),
    ;
}

/// Rule KV001: a dynamic timestamp (`datetime.now()`, `new Date()`, ...) in the first 25 lines.
pub struct DynamicTimestampRule {
    pattern: CompiledPattern,
}

impl DynamicTimestampRule {
    /// The patterns are those of the rule.
    #[verifier::type_invariant]
    spec fn compiled_from_rule(self) -> bool {
        self.pattern@ == KV001_PATTERN@
    }

    /// The texts of the patterns that the rule holds compiled.
    pub closed spec fn compiled_patterns(self) -> (Seq<char>, Option<Seq<char>>) {
        (self.pattern@, None)
    }

    /// The rule, or `None` where the regular expression engine refuses one
    /// of its patterns.
    pub fn try_new() -> (r: Option<Self>)
        ensures
            r is Some <==> rule_patterns_accepted(RuleKind::DynamicTimestamp),
            r matches Some(rule) ==> rule.compiled_patterns() == rule_patterns(RuleKind::DynamicTimestamp),
    {
        match CompiledPattern::new(KV001_PATTERN) {
            Ok(pattern) => Some(DynamicTimestampRule { pattern }),
            Err(_) => None,
        }
    }

    /// The rule, with its patterns compiled.
    pub fn new() -> (r: Self)
        requires
            rule_patterns_accepted(RuleKind::DynamicTimestamp),
        ensures
            r.compiled_patterns() == rule_patterns(RuleKind::DynamicTimestamp),
    {
        Self::try_new().unwrap()
    }
}

impl Rule for DynamicTimestampRule {
    open spec fn kind(&self) -> RuleKind {
        RuleKind::DynamicTimestamp
    }

    fn id(&self) -> (r: &'static str) {
        KV001_ID
    }

    fn check(&self, path: &str, content: &str) -> (r: Vec<PromptIssue>) {
        proof {
            use_type_invariant(self);
        }
        scan_lines(&RuleKind::DynamicTimestamp.info(), &self.pattern, None, path, content)
    }
}

/// Rule KV002: a random UUID, session, request or trace id in the first 20 lines.
pub struct DynamicUuidRule {
    pattern: CompiledPattern,
}

impl DynamicUuidRule {
    /// The patterns are those of the rule.
    #[verifier::type_invariant]
    spec fn compiled_from_rule(self) -> bool {
        self.pattern@ == KV002_PATTERN@
    }

    /// The texts of the patterns that the rule holds compiled.
    pub closed spec fn compiled_patterns(self) -> (Seq<char>, Option<Seq<char>>) {
        (self.pattern@, None)
    }

    /// The rule, or `None` where the regular expression engine refuses one
    /// of its patterns.
    pub fn try_new() -> (r: Option<Self>)
        ensures
            r is Some <==> rule_patterns_accepted(RuleKind::DynamicUuid),
            r matches Some(rule) ==> rule.compiled_patterns() == rule_patterns(RuleKind::DynamicUuid),
    {
        match CompiledPattern::new(KV002_PATTERN) {
            Ok(pattern) => Some(DynamicUuidRule { pattern }),
            Err(_) => None,
        }
    }

    /// The rule, with its patterns compiled.
    pub fn new() -> (r: Self)
        requires
            rule_patterns_accepted(RuleKind::DynamicUuid),
        ensures
            r.compiled_patterns() == rule_patterns(RuleKind::DynamicUuid),
    {
        Self::try_new().unwrap()
    }
}

impl Rule for DynamicUuidRule {
    open spec fn kind(&self) -> RuleKind {
        RuleKind::DynamicUuid
    }

    fn id(&self) -> (r: &'static str) {
        KV002_ID
    }

    fn check(&self, path: &str, content: &str) -> (r: Vec<PromptIssue>) {
        proof {
            use_type_invariant(self);
        }
        scan_lines(&RuleKind::DynamicUuid.info(), &self.pattern, None, path, content)
    }
}

/// Rule KV004: prompt components shuffled at random, anywhere in the file.
pub struct UnstableSystemPromptPrefixRule {
    pattern: CompiledPattern,
}

impl UnstableSystemPromptPrefixRule {
    /// The patterns are those of the rule.
    #[verifier::type_invariant]
    spec fn compiled_from_rule(self) -> bool {
        self.pattern@ == KV004_PATTERN@
    }

    /// The texts of the patterns that the rule holds compiled.
    pub closed spec fn compiled_patterns(self) -> (Seq<char>, Option<Seq<char>>) {
        (self.pattern@, None)
    }

    /// The rule, or `None` where the regular expression engine refuses one
    /// of its patterns.
    pub fn try_new() -> (r: Option<Self>)
        ensures
            r is Some <==> rule_patterns_accepted(RuleKind::UnstableSystemPromptPrefix),
            r matches Some(rule) ==> rule.compiled_patterns() == rule_patterns(RuleKind::UnstableSystemPromptPrefix),
    {
        match CompiledPattern::new(KV004_PATTERN) {
            Ok(pattern) => Some(UnstableSystemPromptPrefixRule { pattern }),
            Err(_) => None,
        }
    }

    /// The rule, with its patterns compiled.
    pub fn new() -> (r: Self)
        requires
            rule_patterns_accepted(RuleKind::UnstableSystemPromptPrefix),
        ensures
            r.compiled_patterns() == rule_patterns(RuleKind::UnstableSystemPromptPrefix),
    {
        Self::try_new().unwrap()
    }
}

impl Rule for UnstableSystemPromptPrefixRule {
    open spec fn kind(&self) -> RuleKind {
        RuleKind::UnstableSystemPromptPrefix
    }

    fn id(&self) -> (r: &'static str) {
        KV004_ID
    }

    fn check(&self, path: &str, content: &str) -> (r: Vec<PromptIssue>) {
        proof {
            use_type_invariant(self);
        }
        scan_lines(&RuleKind::UnstableSystemPromptPrefix.info(), &self.pattern, None, path, content)
    }
}

/// Rule KV003: a user template variable in the first 15 lines.
pub struct DynamicVariableAtTopRule {
    pattern: CompiledPattern,
}

impl DynamicVariableAtTopRule {
    /// The patterns are those of the rule.
    #[verifier::type_invariant]
    spec fn compiled_from_rule(self) -> bool {
        self.pattern@ == KV003_PATTERN@
    }

    /// The texts of the patterns that the rule holds compiled.
    pub closed spec fn compiled_patterns(self) -> (Seq<char>, Option<Seq<char>>) {
        (self.pattern@, None)
    }

    /// The rule, or `None` where the regular expression engine refuses one
    /// of its patterns.
    pub fn try_new() -> (r: Option<Self>)
        ensures
            r is Some <==> rule_patterns_accepted(RuleKind::DynamicVariableAtTop),
            r matches Some(rule) ==> rule.compiled_patterns() == rule_patterns(RuleKind::DynamicVariableAtTop),
    {
        match CompiledPattern::new(KV003_PATTERN) {
            Ok(pattern) => Some(DynamicVariableAtTopRule { pattern }),
            Err(_) => None,
        }
    }

    /// The rule, with its patterns compiled.
    pub fn new() -> (r: Self)
        requires
            rule_patterns_accepted(RuleKind::DynamicVariableAtTop),
        ensures
            r.compiled_patterns() == rule_patterns(RuleKind::DynamicVariableAtTop),
    {
        Self::try_new().unwrap()
    }
}

impl Rule for DynamicVariableAtTopRule {
    open spec fn kind(&self) -> RuleKind {
        RuleKind::DynamicVariableAtTop
    }

    fn id(&self) -> (r: &'static str) {
        KV003_ID
    }

    fn check(&self, path: &str, content: &str) -> (r: Vec<PromptIssue>) {
        proof {
            use_type_invariant(self);
        }
        scan_lines(&RuleKind::DynamicVariableAtTop.info(), &self.pattern, None, path, content)
    }
}

/// Rule KV005: few-shot examples built in code, anywhere in the file.
pub struct UncachedFewShotOrderRule {
    pattern: CompiledPattern,
}

impl UncachedFewShotOrderRule {
    /// The patterns are those of the rule.
    #[verifier::type_invariant]
    spec fn compiled_from_rule(self) -> bool {
        self.pattern@ == KV005_PATTERN@
    }

    /// The texts of the patterns that the rule holds compiled.
    pub closed spec fn compiled_patterns(self) -> (Seq<char>, Option<Seq<char>>) {
        (self.pattern@, None)
    }

    /// The rule, or `None` where the regular expression engine refuses one
    /// of its patterns.
    pub fn try_new() -> (r: Option<Self>)
        ensures
            r is Some <==> rule_patterns_accepted(RuleKind::UncachedFewShotOrder),
            r matches Some(rule) ==> rule.compiled_patterns() == rule_patterns(RuleKind::UncachedFewShotOrder),
    {
        match CompiledPattern::new(KV005_PATTERN) {
            Ok(pattern) => Some(UncachedFewShotOrderRule { pattern }),
            Err(_) => None,
        }
    }

    /// The rule, with its patterns compiled.
    pub fn new() -> (r: Self)
        requires
            rule_patterns_accepted(RuleKind::UncachedFewShotOrder),
        ensures
            r.compiled_patterns() == rule_patterns(RuleKind::UncachedFewShotOrder),
    {
        Self::try_new().unwrap()
    }
}

impl Rule for UncachedFewShotOrderRule {
    open spec fn kind(&self) -> RuleKind {
        RuleKind::UncachedFewShotOrder
    }

    fn id(&self) -> (r: &'static str) {
        KV005_ID
    }

    fn check(&self, path: &str, content: &str) -> (r: Vec<PromptIssue>) {
        proof {
            use_type_invariant(self);
        }
        scan_lines(&RuleKind::UncachedFewShotOrder.info(), &self.pattern, None, path, content)
    }
}

/// Rule KV006: a Jinja2 / Mustache tag that renders a date or random value, in the first 20 lines.
pub struct DynamicDateInJinjaRule {
    pattern: CompiledPattern,
}

impl DynamicDateInJinjaRule {
    /// The patterns are those of the rule.
    #[verifier::type_invariant]
    spec fn compiled_from_rule(self) -> bool {
        self.pattern@ == KV006_PATTERN@
    }

    /// The texts of the patterns that the rule holds compiled.
    pub closed spec fn compiled_patterns(self) -> (Seq<char>, Option<Seq<char>>) {
        (self.pattern@, None)
    }

    /// The rule, or `None` where the regular expression engine refuses one
    /// of its patterns.
    pub fn try_new() -> (r: Option<Self>)
        ensures
            r is Some <==> rule_patterns_accepted(RuleKind::DynamicDateInJinja),
            r matches Some(rule) ==> rule.compiled_patterns() == rule_patterns(RuleKind::DynamicDateInJinja),
    {
        match CompiledPattern::new(KV006_PATTERN) {
            Ok(pattern) => Some(DynamicDateInJinjaRule { pattern }),
            Err(_) => None,
        }
    }

    /// The rule, with its patterns compiled.
    pub fn new() -> (r: Self)
        requires
            rule_patterns_accepted(RuleKind::DynamicDateInJinja),
        ensures
            r.compiled_patterns() == rule_patterns(RuleKind::DynamicDateInJinja),
    {
        Self::try_new().unwrap()
    }
}

impl Rule for DynamicDateInJinjaRule {
    open spec fn kind(&self) -> RuleKind {
        RuleKind::DynamicDateInJinja
    }

    fn id(&self) -> (r: &'static str) {
        KV006_ID
    }

    fn check(&self, path: &str, content: &str) -> (r: Vec<PromptIssue>) {
        proof {
            use_type_invariant(self);
        }
        scan_lines(&RuleKind::DynamicDateInJinja.info(), &self.pattern, None, path, content)
    }
}

/// Rule KV007: a raw Git diff, hunk header or commit SHA in the first 25 lines.
pub struct RawDiffInPrefixRule {
    pattern: CompiledPattern,
}

impl RawDiffInPrefixRule {
    /// The patterns are those of the rule.
    #[verifier::type_invariant]
    spec fn compiled_from_rule(self) -> bool {
        self.pattern@ == KV007_PATTERN@
    }

    /// The texts of the patterns that the rule holds compiled.
    pub closed spec fn compiled_patterns(self) -> (Seq<char>, Option<Seq<char>>) {
        (self.pattern@, None)
    }

    /// The rule, or `None` where the regular expression engine refuses one
    /// of its patterns.
    pub fn try_new() -> (r: Option<Self>)
        ensures
            r is Some <==> rule_patterns_accepted(RuleKind::RawDiffInPrefix),
            r matches Some(rule) ==> rule.compiled_patterns() == rule_patterns(RuleKind::RawDiffInPrefix),
    {
        match CompiledPattern::new(KV007_PATTERN) {
            Ok(pattern) => Some(RawDiffInPrefixRule { pattern }),
            Err(_) => None,
        }
    }

    /// The rule, with its patterns compiled.
    pub fn new() -> (r: Self)
        requires
            rule_patterns_accepted(RuleKind::RawDiffInPrefix),
        ensures
            r.compiled_patterns() == rule_patterns(RuleKind::RawDiffInPrefix),
    {
        Self::try_new().unwrap()
    }
}

impl Rule for RawDiffInPrefixRule {
    open spec fn kind(&self) -> RuleKind {
        RuleKind::RawDiffInPrefix
    }

    fn id(&self) -> (r: &'static str) {
        KV007_ID
    }

    fn check(&self, path: &str, content: &str) -> (r: Vec<PromptIssue>) {
        proof {
            use_type_invariant(self);
        }
        scan_lines(&RuleKind::RawDiffInPrefix.info(), &self.pattern, None, path, content)
    }
}

/// Rule KV008: a reasoning trace (`<think>`, `reasoning_content`) anywhere in the file.
pub struct ThinkingTraceHistoryRule {
    pattern: CompiledPattern,
}

impl ThinkingTraceHistoryRule {
    /// The patterns are those of the rule.
    #[verifier::type_invariant]
    spec fn compiled_from_rule(self) -> bool {
        self.pattern@ == KV008_PATTERN@
    }

    /// The texts of the patterns that the rule holds compiled.
    pub closed spec fn compiled_patterns(self) -> (Seq<char>, Option<Seq<char>>) {
        (self.pattern@, None)
    }

    /// The rule, or `None` where the regular expression engine refuses one
    /// of its patterns.
    pub fn try_new() -> (r: Option<Self>)
        ensures
            r is Some <==> rule_patterns_accepted(RuleKind::ThinkingTraceHistory),
            r matches Some(rule) ==> rule.compiled_patterns() == rule_patterns(RuleKind::ThinkingTraceHistory),
    {
        match CompiledPattern::new(KV008_PATTERN) {
            Ok(pattern) => Some(ThinkingTraceHistoryRule { pattern }),
            Err(_) => None,
        }
    }

    /// The rule, with its patterns compiled.
    pub fn new() -> (r: Self)
        requires
            rule_patterns_accepted(RuleKind::ThinkingTraceHistory),
        ensures
            r.compiled_patterns() == rule_patterns(RuleKind::ThinkingTraceHistory),
    {
        Self::try_new().unwrap()
    }
}

impl Rule for ThinkingTraceHistoryRule {
    open spec fn kind(&self) -> RuleKind {
        RuleKind::ThinkingTraceHistory
    }

    fn id(&self) -> (r: &'static str) {
        KV008_ID
    }

    fn check(&self, path: &str, content: &str) -> (r: Vec<PromptIssue>) {
        proof {
            use_type_invariant(self);
        }
        scan_lines(&RuleKind::ThinkingTraceHistory.info(), &self.pattern, None, path, content)
    }
}

/// Rule KV009: `json.dumps(` without `sort_keys=True` on the same line, anywhere in the file.
pub struct UnsortedJsonSerializationRule {
    pattern: CompiledPattern,
    exemption: CompiledPattern,
}

impl UnsortedJsonSerializationRule {
    /// The patterns are those of the rule.
    #[verifier::type_invariant]
    spec fn compiled_from_rule(self) -> bool {
        self.pattern@ == KV009_PATTERN@ && self.exemption@ == KV009_EXEMPTION@
    }

    /// The texts of the patterns that the rule holds compiled.
    pub closed spec fn compiled_patterns(self) -> (Seq<char>, Option<Seq<char>>) {
        (self.pattern@, Some(self.exemption@))
    }

    /// The rule, or `None` where the regular expression engine refuses one
    /// of its patterns.
    pub fn try_new() -> (r: Option<Self>)
        ensures
            r is Some <==> rule_patterns_accepted(RuleKind::UnsortedJsonSerialization),
            r matches Some(rule) ==> rule.compiled_patterns() == rule_patterns(RuleKind::UnsortedJsonSerialization),
    {
        match CompiledPattern::new(KV009_PATTERN) {
            Ok(pattern) => match CompiledPattern::new(KV009_EXEMPTION) {
                Ok(exemption) => Some(UnsortedJsonSerializationRule { pattern, exemption }),
                Err(_) => None,
            },
            Err(_) => None,
        }
    }

    /// The rule, with its patterns compiled.
    pub fn new() -> (r: Self)
        requires
            rule_patterns_accepted(RuleKind::UnsortedJsonSerialization),
        ensures
            r.compiled_patterns() == rule_patterns(RuleKind::UnsortedJsonSerialization),
    {
        Self::try_new().unwrap()
    }
}

impl Rule for UnsortedJsonSerializationRule {
    open spec fn kind(&self) -> RuleKind {
        RuleKind::UnsortedJsonSerialization
    }

    fn id(&self) -> (r: &'static str) {
        KV009_ID
    }

    fn check(&self, path: &str, content: &str) -> (r: Vec<PromptIssue>) {
        proof {
            use_type_invariant(self);
        }
        scan_lines(&RuleKind::UnsortedJsonSerialization.info(), &self.pattern, Some(&self.exemption), path, content)
    }
}

/// Rule KV010: a tool list or tool schema mutated at runtime, in the first 25 lines.
pub struct DynamicToolSchemaMutationRule {
    pattern: CompiledPattern,
}

impl DynamicToolSchemaMutationRule {
    /// The patterns are those of the rule.
    #[verifier::type_invariant]
    spec fn compiled_from_rule(self) -> bool {
        self.pattern@ == KV010_PATTERN@
    }

    /// The texts of the patterns that the rule holds compiled.
    pub closed spec fn compiled_patterns(self) -> (Seq<char>, Option<Seq<char>>) {
        (self.pattern@, None)
    }

    /// The rule, or `None` where the regular expression engine refuses one
    /// of its patterns.
    pub fn try_new() -> (r: Option<Self>)
        ensures
            r is Some <==> rule_patterns_accepted(RuleKind::DynamicToolSchemaMutation),
            r matches Some(rule) ==> rule.compiled_patterns() == rule_patterns(RuleKind::DynamicToolSchemaMutation),
    {
        match CompiledPattern::new(KV010_PATTERN) {
            Ok(pattern) => Some(DynamicToolSchemaMutationRule { pattern }),
            Err(_) => None,
        }
    }

    /// The rule, with its patterns compiled.
    pub fn new() -> (r: Self)
        requires
            rule_patterns_accepted(RuleKind::DynamicToolSchemaMutation),
        ensures
            r.compiled_patterns() == rule_patterns(RuleKind::DynamicToolSchemaMutation),
    {
        Self::try_new().unwrap()
    }
}

impl Rule for DynamicToolSchemaMutationRule {
    open spec fn kind(&self) -> RuleKind {
        RuleKind::DynamicToolSchemaMutation
    }

    fn id(&self) -> (r: &'static str) {
        KV010_ID
    }

    fn check(&self, path: &str, content: &str) -> (r: Vec<PromptIssue>) {
        proof {
            use_type_invariant(self);
        }
        scan_lines(&RuleKind::DynamicToolSchemaMutation.info(), &self.pattern, None, path, content)
    }
}

/// One of the built-in rules.
pub enum BuiltinRule {
    DynamicTimestamp(DynamicTimestampRule),
    DynamicUuid(DynamicUuidRule),
    UnstableSystemPromptPrefix(UnstableSystemPromptPrefixRule),
    DynamicVariableAtTop(DynamicVariableAtTopRule),
    UncachedFewShotOrder(UncachedFewShotOrderRule),
    DynamicDateInJinja(DynamicDateInJinjaRule),
    RawDiffInPrefix(RawDiffInPrefixRule),
    ThinkingTraceHistory(ThinkingTraceHistoryRule),
    UnsortedJsonSerialization(UnsortedJsonSerializationRule),
    DynamicToolSchemaMutation(DynamicToolSchemaMutationRule),
}

impl Rule for BuiltinRule {
    open spec fn kind(&self) -> RuleKind {
        match self {
            BuiltinRule::DynamicTimestamp(r) => r.kind(),
            BuiltinRule::DynamicUuid(r) => r.kind(),
            BuiltinRule::UnstableSystemPromptPrefix(r) => r.kind(),
            BuiltinRule::DynamicVariableAtTop(r) => r.kind(),
            BuiltinRule::UncachedFewShotOrder(r) => r.kind(),
            BuiltinRule::DynamicDateInJinja(r) => r.kind(),
            BuiltinRule::RawDiffInPrefix(r) => r.kind(),
            BuiltinRule::ThinkingTraceHistory(r) => r.kind(),
            BuiltinRule::UnsortedJsonSerialization(r) => r.kind(),
            BuiltinRule::DynamicToolSchemaMutation(r) => r.kind(),
        }
    }

    fn id(&self) -> (r: &'static str) {
        match self {
            BuiltinRule::DynamicTimestamp(r) => r.id(),
            BuiltinRule::DynamicUuid(r) => r.id(),
            BuiltinRule::UnstableSystemPromptPrefix(r) => r.id(),
            BuiltinRule::DynamicVariableAtTop(r) => r.id(),
            BuiltinRule::UncachedFewShotOrder(r) => r.id(),
            BuiltinRule::DynamicDateInJinja(r) => r.id(),
            BuiltinRule::RawDiffInPrefix(r) => r.id(),
            BuiltinRule::ThinkingTraceHistory(r) => r.id(),
            BuiltinRule::UnsortedJsonSerialization(r) => r.id(),
            BuiltinRule::DynamicToolSchemaMutation(r) => r.id(),
        }
    }

    fn check(&self, path: &str, content: &str) -> (r: Vec<PromptIssue>) {
        match self {
            BuiltinRule::DynamicTimestamp(r) => r.check(path, content),
            BuiltinRule::DynamicUuid(r) => r.check(path, content),
            BuiltinRule::UnstableSystemPromptPrefix(r) => r.check(path, content),
            BuiltinRule::DynamicVariableAtTop(r) => r.check(path, content),
            BuiltinRule::UncachedFewShotOrder(r) => r.check(path, content),
            BuiltinRule::DynamicDateInJinja(r) => r.check(path, content),
            BuiltinRule::RawDiffInPrefix(r) => r.check(path, content),
            BuiltinRule::ThinkingTraceHistory(r) => r.check(path, content),
            BuiltinRule::UnsortedJsonSerialization(r) => r.check(path, content),
            BuiltinRule::DynamicToolSchemaMutation(r) => r.check(path, content),
        }
    }
}

/// The built-in rules, in their order, or `None` where the regular expression
/// engine refuses one of their patterns.
pub fn try_all_rules() -> (r: Option<Vec<BuiltinRule>>)
    ensures
        r is Some <==> builtin_patterns_accepted(),
        r matches Some(v) ==> v@.map_values(|b: BuiltinRule| b.kind()) == builtin_order(),
{
    let r0 = match DynamicTimestampRule::try_new() {
        Some(r) => r,
        None => {
            assert(builtin_order()[0] == RuleKind::DynamicTimestamp);
            return None;
        },
    };
    let r1 = match DynamicUuidRule::try_new() {
        Some(r) => r,
        None => {
            assert(builtin_order()[1] == RuleKind::DynamicUuid);
            return None;
        },
    };
    let r2 = match UnstableSystemPromptPrefixRule::try_new() {
        Some(r) => r,
        None => {
            assert(builtin_order()[2] == RuleKind::UnstableSystemPromptPrefix);
            return None;
        },
    };
    let r3 = match DynamicVariableAtTopRule::try_new() {
        Some(r) => r,
        None => {
            assert(builtin_order()[3] == RuleKind::DynamicVariableAtTop);
            return None;
        },
    };
    let r4 = match UncachedFewShotOrderRule::try_new() {
        Some(r) => r,
        None => {
            assert(builtin_order()[4] == RuleKind::UncachedFewShotOrder);
            return None;
        },
    };
    let r5 = match DynamicDateInJinjaRule::try_new() {
        Some(r) => r,
        None => {
            assert(builtin_order()[5] == RuleKind::DynamicDateInJinja);
            return None;
        },
    };
    let r6 = match RawDiffInPrefixRule::try_new() {
        Some(r) => r,
        None => {
            assert(builtin_order()[6] == RuleKind::RawDiffInPrefix);
            return None;
        },
    };
    let r7 = match ThinkingTraceHistoryRule::try_new() {
        Some(r) => r,
        None => {
            assert(builtin_order()[7] == RuleKind::ThinkingTraceHistory);
            return None;
        },
    };
    let r8 = match UnsortedJsonSerializationRule::try_new() {
        Some(r) => r,
        None => {
            assert(builtin_order()[8] == RuleKind::UnsortedJsonSerialization);
            return None;
        },
    };
    let r9 = match DynamicToolSchemaMutationRule::try_new() {
        Some(r) => r,
        None => {
            assert(builtin_order()[9] == RuleKind::DynamicToolSchemaMutation);
            return None;
        },
    };
    let mut rules: Vec<BuiltinRule> = Vec::new();
    rules.push(BuiltinRule::DynamicTimestamp(r0));
    rules.push(BuiltinRule::DynamicUuid(r1));
    rules.push(BuiltinRule::UnstableSystemPromptPrefix(r2));
    rules.push(BuiltinRule::DynamicVariableAtTop(r3));
    rules.push(BuiltinRule::UncachedFewShotOrder(r4));
    rules.push(BuiltinRule::DynamicDateInJinja(r5));
    rules.push(BuiltinRule::RawDiffInPrefix(r6));
    rules.push(BuiltinRule::ThinkingTraceHistory(r7));
    rules.push(BuiltinRule::UnsortedJsonSerialization(r8));
    rules.push(BuiltinRule::DynamicToolSchemaMutation(r9));
    proof {
        assert(rule_patterns_accepted(builtin_order()[0]));
        assert(rule_patterns_accepted(builtin_order()[1]));
        assert(rule_patterns_accepted(builtin_order()[2]));
        assert(rule_patterns_accepted(builtin_order()[3]));
        assert(rule_patterns_accepted(builtin_order()[4]));
        assert(rule_patterns_accepted(builtin_order()[5]));
        assert(rule_patterns_accepted(builtin_order()[6]));
        assert(rule_patterns_accepted(builtin_order()[7]));
        assert(rule_patterns_accepted(builtin_order()[8]));
        assert(rule_patterns_accepted(builtin_order()[9]));
        assert(rules@.map_values(|b: BuiltinRule| b.kind()) =~= builtin_order());
    }
    Some(rules)
}

/// The built-in rules, in their order.
pub fn all_rules() -> (r: Vec<BuiltinRule>)
    requires
        builtin_patterns_accepted(),
    ensures
        r@.map_values(|b: BuiltinRule| b.kind()) == builtin_order(),
{
    try_all_rules().unwrap()
}

/// Every issue that a rule reports points at a line that the rule flags: its
/// line number lies between 1 and the number of lines (and within the rule's
/// window), and the issue is the one made for that line.
pub proof fn lemma_issue_points_at_flagged_line(info: RuleInfo, path: Seq<char>, lines: Seq<Seq<char>>, j: int)
    requires
        0 <= j < issues_in_lines(info, path, lines).len(),
    ensures
        ({
            let issue = issues_in_lines(info, path, lines)[j];
            &&& 1 <= issue.line <= lines.len()
            &&& line_flagged(info, issue.line - 1, lines[issue.line - 1])
            &&& issue == issue_at(info, path, issue.line - 1, lines[issue.line - 1])
        }),
    decreases lines.len(),
{
    let prev = issues_in_lines(info, path, lines.drop_last());
    if j < prev.len() {
        lemma_issue_points_at_flagged_line(info, path, lines.drop_last(), j);
    }
}

/// A rule reports its issues in line order, at most one per line.
pub proof fn lemma_issues_in_line_order(info: RuleInfo, path: Seq<char>, lines: Seq<Seq<char>>, j: int, k: int)
    requires
        0 <= j < k < issues_in_lines(info, path, lines).len(),
    ensures
        issues_in_lines(info, path, lines)[j].line < issues_in_lines(info, path, lines)[k].line,
    decreases lines.len(),
{
    let prev = issues_in_lines(info, path, lines.drop_last());
    if k < prev.len() {
        lemma_issues_in_line_order(info, path, lines.drop_last(), j, k);
    } else {
        lemma_issue_points_at_flagged_line(info, path, lines.drop_last(), j);
    }
}

/// Every line that a rule flags is reported.
pub proof fn lemma_flagged_line_reported(info: RuleInfo, path: Seq<char>, lines: Seq<Seq<char>>, idx: int)
    requires
        0 <= idx < lines.len(),
        line_flagged(info, idx, lines[idx]),
    ensures
        issues_in_lines(info, path, lines).contains(issue_at(info, path, idx, lines[idx])),
    decreases lines.len(),
{
    let prev = issues_in_lines(info, path, lines.drop_last());
    if idx < lines.len() - 1 {
        lemma_flagged_line_reported(info, path, lines.drop_last(), idx);
        let w = choose|w: int| 0 <= w < prev.len() && prev[w] == issue_at(info, path, idx, lines[idx]);
        assert(issues_in_lines(info, path, lines)[w] == prev[w]);
    } else {
        let all = issues_in_lines(info, path, lines);
        assert(all[all.len() - 1] == issue_at(info, path, idx, lines[idx]));
    }
}

/// A rule reports nothing on lines that it does not flag.
pub proof fn lemma_unflagged_lines_report_nothing(info: RuleInfo, path: Seq<char>, lines: Seq<Seq<char>>)
    requires
        forall|idx: int| 0 <= idx < lines.len() ==> !line_flagged(info, idx, #[trigger] lines[idx]),
    ensures
        issues_in_lines(info, path, lines) == Seq::<IssueModel>::empty(),
    decreases lines.len(),
{
    if lines.len() > 0 {
        assert forall|idx: int| 0 <= idx < lines.drop_last().len() implies !line_flagged(
            info,
            idx,
            #[trigger] lines.drop_last()[idx],
        ) by {
            assert(lines.drop_last()[idx] == lines[idx]);
        }
        lemma_unflagged_lines_report_nothing(info, path, lines.drop_last());
        assert(!line_flagged(info, lines.len() - 1, lines[lines.len() - 1]));
    }
}

/// Every issue of a list of rules is the issue that one of those rules makes
/// for a line that it flags.
pub proof fn lemma_reported_issue_is_flagged(kinds: Seq<RuleKind>, path: Seq<char>, content: Seq<char>, j: int)
    requires
        0 <= j < issues_for_kinds(kinds, path, content).len(),
    ensures
        exists|k: RuleKind, idx: int|
            #![trigger line_flagged(spec_info(k), idx, spec_lines(content)[idx])]
            kinds.contains(k) && 0 <= idx < spec_lines(content).len() && line_flagged(
                spec_info(k),
                idx,
                spec_lines(content)[idx],
            ) && issues_for_kinds(kinds, path, content)[j] == issue_at(
                spec_info(k),
                path,
                idx,
                spec_lines(content)[idx],
            ),
    decreases kinds.len(),
{
    let prev = issues_for_kinds(kinds.drop_last(), path, content);
    let lines = spec_lines(content);
    if j < prev.len() {
        lemma_reported_issue_is_flagged(kinds.drop_last(), path, content, j);
        let (k, idx) = choose|k: RuleKind, idx: int|
            #![trigger line_flagged(spec_info(k), idx, spec_lines(content)[idx])]
            kinds.drop_last().contains(k) && 0 <= idx < spec_lines(content).len() && line_flagged(
                spec_info(k),
                idx,
                spec_lines(content)[idx],
            ) && prev[j] == issue_at(spec_info(k), path, idx, spec_lines(content)[idx]);
        let w = choose|w: int| 0 <= w < kinds.drop_last().len() && kinds.drop_last()[w] == k;
        assert(kinds[w] == k);
        assert(line_flagged(spec_info(k), idx, spec_lines(content)[idx]));
    } else {
        let k = kinds.last();
        lemma_issue_points_at_flagged_line(spec_info(k), path, lines, j - prev.len());
        let issue = issues_in_lines(spec_info(k), path, lines)[j - prev.len()];
        let idx = issue.line - 1;
        assert(kinds[kinds.len() - 1] == k);
        assert(line_flagged(spec_info(k), idx, spec_lines(content)[idx]));
    }
}

/// Every line that one of a list of rules flags is reported with that rule's issue.
pub proof fn lemma_flagged_line_is_reported(
    kinds: Seq<RuleKind>,
    path: Seq<char>,
    content: Seq<char>,
    k: RuleKind,
    idx: int,
)
    requires
        kinds.contains(k),
        0 <= idx < spec_lines(content).len(),
        line_flagged(spec_info(k), idx, spec_lines(content)[idx]),
    ensures
        issues_for_kinds(kinds, path, content).contains(issue_at(spec_info(k), path, idx, spec_lines(content)[idx])),
    decreases kinds.len(),
{
    let lines = spec_lines(content);
    let target = issue_at(spec_info(k), path, idx, lines[idx]);
    let prev = issues_for_kinds(kinds.drop_last(), path, content);
    let all = issues_for_kinds(kinds, path, content);
    if kinds.last() == k {
        lemma_flagged_line_reported(spec_info(k), path, lines, idx);
        let here = issues_in_lines(spec_info(k), path, lines);
        let w = choose|w: int| 0 <= w < here.len() && here[w] == target;
        assert(all[prev.len() + w] == target);
    } else {
        let w = choose|w: int| 0 <= w < kinds.len() && kinds[w] == k;
        assert(kinds.drop_last()[w] == k);
        lemma_flagged_line_is_reported(kinds.drop_last(), path, content, k, idx);
        let v = choose|v: int| 0 <= v < prev.len() && prev[v] == target;
        assert(all[v] == target);
    }
}

/// The issues of `s` whose line number is at most `n`, in their order.
pub open spec fn issues_through_line(s: Seq<IssueModel>, n: int) -> Seq<IssueModel>
    decreases s.len(),
{
    if s.len() == 0 {
        seq![]
    } else if s.last().line <= n {
        issues_through_line(s.drop_last(), n).push(s.last())
    } else {
        issues_through_line(s.drop_last(), n)
    }
}

/// Keeping the issues up to a line commutes with concatenation.
proof fn lemma_through_line_concat(x: Seq<IssueModel>, y: Seq<IssueModel>, n: int)
    ensures
        issues_through_line(x + y, n) == issues_through_line(x, n) + issues_through_line(y, n),
    decreases y.len(),
{
    if y.len() == 0 {
        assert(x + y =~= x);
        assert(issues_through_line(x, n) + issues_through_line(y, n) =~= issues_through_line(x, n));
    } else {
        lemma_through_line_concat(x, y.drop_last(), n);
        assert((x + y).drop_last() =~= x + y.drop_last());
        assert((x + y).last() == y.last());
        assert((issues_through_line(x, n) + issues_through_line(y.drop_last(), n)).push(y.last())
            =~= issues_through_line(x, n) + issues_through_line(y.drop_last(), n).push(y.last()));
    }
}

/// A rule's issues on lines `la` followed by more lines, kept up to the last
/// line of `la`, are its issues on `la`.
proof fn lemma_rule_issues_of_prefix(info: RuleInfo, path: Seq<char>, la: Seq<Seq<char>>, lb: Seq<Seq<char>>)
    ensures
        issues_through_line(issues_in_lines(info, path, la + lb), la.len() as int) == issues_in_lines(info, path, la),
    decreases lb.len(),
{
    if lb.len() == 0 {
        assert(la + lb =~= la);
        lemma_all_within(info, path, la);
    } else {
        lemma_rule_issues_of_prefix(info, path, la, lb.drop_last());
        let all = la + lb;
        assert(all.drop_last() =~= la + lb.drop_last());
        let prev = issues_in_lines(info, path, all.drop_last());
        if line_flagged(info, all.len() - 1, all.last()) {
            let x = issue_at(info, path, all.len() - 1, all.last());
            assert(issues_in_lines(info, path, all) == prev.push(x));
            assert(prev.push(x).drop_last() =~= prev);
            assert(x.line > la.len());
        } else {
            assert(issues_in_lines(info, path, all) == prev);
        }
    }
}

/// Helper of `lemma_rule_issues_of_prefix`: a rule's issues on `ls` are all
/// within its lines.
proof fn lemma_all_within(info: RuleInfo, path: Seq<char>, ls: Seq<Seq<char>>)
    ensures
        issues_through_line(issues_in_lines(info, path, ls), ls.len() as int) == issues_in_lines(info, path, ls),
    decreases ls.len(),
{
    if ls.len() > 0 {
        lemma_all_within(info, path, ls.drop_last());
        let prev = issues_in_lines(info, path, ls.drop_last());
        lemma_through_line_widen(prev, ls.len() - 1, ls.len() as int);
        if line_flagged(info, ls.len() - 1, ls.last()) {
            let x = issue_at(info, path, ls.len() - 1, ls.last());
            assert(prev.push(x).drop_last() =~= prev);
        }
    }
}

/// Helper: where every issue of `s` is at most at line `m`, keeping them up
/// to any `n >= m` keeps them all.
proof fn lemma_through_line_widen(s: Seq<IssueModel>, m: int, n: int)
    requires
        m <= n,
        issues_through_line(s, m) == s,
    ensures
        issues_through_line(s, n) == s,
    decreases s.len(),
{
    if s.len() > 0 {
        let p = issues_through_line(s.drop_last(), m);
        if s.last().line <= m {
            assert(p.push(s.last()) == s);
            assert(p == s.drop_last());
            lemma_through_line_widen(s.drop_last(), m, n);
        } else {
            assert(p.len() <= s.drop_last().len()) by {
                lemma_through_line_len(s.drop_last(), m);
            }
            assert(false);
        }
    }
}

/// Helper: keeping issues never makes the list longer.
proof fn lemma_through_line_len(s: Seq<IssueModel>, n: int)
    ensures
        issues_through_line(s, n).len() <= s.len(),
    decreases s.len(),
{
    if s.len() > 0 {
        lemma_through_line_len(s.drop_last(), n);
    }
}

/// Text appended after complete lines changes nothing that is reported for
/// them: where `a` is empty or ends with a line feed, the issues of `a + b` up
/// to the last line of `a` are, in order, the issues of `a`.
pub proof fn lemma_appended_text_keeps_earlier_issues(path: Seq<char>, a: Seq<char>, b: Seq<char>)
    requires
        a.len() == 0 || a.last() == '\n',
    ensures
        issues_through_line(issues_for_kinds(builtin_order(), path, a + b), spec_lines(a).len() as int)
            == issues_for_kinds(builtin_order(), path, a),
{
    lemma_lines_of_concat(a, b);
    lemma_kinds_issues_of_prefix(builtin_order(), path, a, b);
}

/// Helper of `lemma_appended_text_keeps_earlier_issues`, for any list of rules.
proof fn lemma_kinds_issues_of_prefix(kinds: Seq<RuleKind>, path: Seq<char>, a: Seq<char>, b: Seq<char>)
    requires
        spec_lines(a + b) == spec_lines(a) + spec_lines(b),
    ensures
        issues_through_line(issues_for_kinds(kinds, path, a + b), spec_lines(a).len() as int)
            == issues_for_kinds(kinds, path, a),
    decreases kinds.len(),
{
    let n = spec_lines(a).len() as int;
    if kinds.len() == 0 {
        assert(issues_through_line(issues_for_kinds(kinds, path, a + b), n) =~= Seq::<IssueModel>::empty());
    } else {
        lemma_kinds_issues_of_prefix(kinds.drop_last(), path, a, b);
        let k = kinds.last();
        lemma_through_line_concat(issues_for_kinds(kinds.drop_last(), path, a + b), rule_issues(k, path, a + b), n);
        lemma_rule_issues_of_prefix(spec_info(k), path, spec_lines(a), spec_lines(b));
    }
}

/// What each built-in rule reports, written out rule by rule: every issue of
/// rule `k` names a line of the prompt that its pattern matches, within the
/// lines the rule inspects (the first 25, 20 or 15 lines, or every line), and
/// carries the rule's identifier, severity, texts and waste estimate, the path,
/// and that line trimmed.
pub proof fn lemma_builtin_issue_facts(k: RuleKind, path: Seq<char>, content: Seq<char>, j: int)
    requires
        0 <= j < rule_issues(k, path, content).len(),
    ensures
        ({
            let issue = rule_issues(k, path, content)[j];
            let line = spec_lines(content)[issue.line - 1];
            &&& 1 <= issue.line <= spec_lines(content).len()
            &&& issue.file == path
            &&& issue.snippet == spec_trim(line)
            &&& match k {
                RuleKind::DynamicTimestamp => {
                    &&& issue.rule_id == KV001_ID@
                    &&& issue.severity == IssueSeverity::Critical
                    &&& issue.estimated_token_waste_pct == 95
                    &&& issue.title == KV001_TITLE@
                    &&& issue.explanation == KV001_EXPLANATION@
                    &&& issue.recommendation == KV001_RECOMMENDATION@
                    &&& regex_matches(KV001_PATTERN@, line)
                    &&& issue.line <= 25
                },
                RuleKind::DynamicUuid => {
                    &&& issue.rule_id == KV002_ID@
                    &&& issue.severity == IssueSeverity::Critical
                    &&& issue.estimated_token_waste_pct == 100
                    &&& issue.title == KV002_TITLE@
                    &&& issue.explanation == KV002_EXPLANATION@
                    &&& issue.recommendation == KV002_RECOMMENDATION@
                    &&& regex_matches(KV002_PATTERN@, line)
                    &&& issue.line <= 20
                },
                RuleKind::UnstableSystemPromptPrefix => {
                    &&& issue.rule_id == KV004_ID@
                    &&& issue.severity == IssueSeverity::Warning
                    &&& issue.estimated_token_waste_pct == 60
                    &&& issue.title == KV004_TITLE@
                    &&& issue.explanation == KV004_EXPLANATION@
                    &&& issue.recommendation == KV004_RECOMMENDATION@
                    &&& regex_matches(KV004_PATTERN@, line)
                },
                RuleKind::DynamicVariableAtTop => {
                    &&& issue.rule_id == KV003_ID@
                    &&& issue.severity == IssueSeverity::Warning
                    &&& issue.estimated_token_waste_pct == 75
                    &&& issue.title == KV003_TITLE@
                    &&& issue.explanation == KV003_EXPLANATION@
                    &&& issue.recommendation == KV003_RECOMMENDATION@
                    &&& regex_matches(KV003_PATTERN@, line)
                    &&& issue.line <= 15
                },
                RuleKind::UncachedFewShotOrder => {
                    &&& issue.rule_id == KV005_ID@
                    &&& issue.severity == IssueSeverity::Optimization
                    &&& issue.estimated_token_waste_pct == 40
                    &&& issue.title == KV005_TITLE@
                    &&& issue.explanation == KV005_EXPLANATION@
                    &&& issue.recommendation == KV005_RECOMMENDATION@
                    &&& regex_matches(KV005_PATTERN@, line)
                },
                RuleKind::DynamicDateInJinja => {
                    &&& issue.rule_id == KV006_ID@
                    &&& issue.severity == IssueSeverity::Warning
                    &&& issue.estimated_token_waste_pct == 80
                    &&& issue.title == KV006_TITLE@
                    &&& issue.explanation == KV006_EXPLANATION@
                    &&& issue.recommendation == KV006_RECOMMENDATION@
                    &&& regex_matches(KV006_PATTERN@, line)
                    &&& issue.line <= 20
                },
                RuleKind::RawDiffInPrefix => {
                    &&& issue.rule_id == KV007_ID@
                    &&& issue.severity == IssueSeverity::Critical
                    &&& issue.estimated_token_waste_pct == 95
                    &&& issue.title == KV007_TITLE@
                    &&& issue.explanation == KV007_EXPLANATION@
                    &&& issue.recommendation == KV007_RECOMMENDATION@
                    &&& regex_matches(KV007_PATTERN@, line)
                    &&& issue.line <= 25
                },
                RuleKind::ThinkingTraceHistory => {
                    &&& issue.rule_id == KV008_ID@
                    &&& issue.severity == IssueSeverity::Critical
                    &&& issue.estimated_token_waste_pct == 90
                    &&& issue.title == KV008_TITLE@
                    &&& issue.explanation == KV008_EXPLANATION@
                    &&& issue.recommendation == KV008_RECOMMENDATION@
                    &&& regex_matches(KV008_PATTERN@, line)
                },
                RuleKind::UnsortedJsonSerialization => {
                    &&& issue.rule_id == KV009_ID@
                    &&& issue.severity == IssueSeverity::Warning
                    &&& issue.estimated_token_waste_pct == 70
                    &&& issue.title == KV009_TITLE@
                    &&& issue.explanation == KV009_EXPLANATION@
                    &&& issue.recommendation == KV009_RECOMMENDATION@
                    &&& regex_matches(KV009_PATTERN@, line)
                    &&& !regex_matches(KV009_EXEMPTION@, line)
                },
                RuleKind::DynamicToolSchemaMutation => {
                    &&& issue.rule_id == KV010_ID@
                    &&& issue.severity == IssueSeverity::Critical
                    &&& issue.estimated_token_waste_pct == 90
                    &&& issue.title == KV010_TITLE@
                    &&& issue.explanation == KV010_EXPLANATION@
                    &&& issue.recommendation == KV010_RECOMMENDATION@
                    &&& regex_matches(KV010_PATTERN@, line)
                    &&& issue.line <= 25
                },
            }
        }),
{
    lemma_issue_points_at_flagged_line(spec_info(k), path, spec_lines(content), j);
}

/// Each built-in rule reports every line that it inspects and that its pattern
/// matches (written out rule by rule): such a line has an issue of the rule.
pub proof fn lemma_builtin_rule_reports_line(k: RuleKind, path: Seq<char>, content: Seq<char>, idx: int)
    requires
        0 <= idx < spec_lines(content).len(),
        ({
            let line = spec_lines(content)[idx];
            match k {
                RuleKind::DynamicTimestamp => {
                    &&& idx < 25
                    &&& regex_matches(KV001_PATTERN@, line)
                },
                RuleKind::DynamicUuid => {
                    &&& idx < 20
                    &&& regex_matches(KV002_PATTERN@, line)
                },
                RuleKind::UnstableSystemPromptPrefix => {
                    &&& regex_matches(KV004_PATTERN@, line)
                },
                RuleKind::DynamicVariableAtTop => {
                    &&& idx < 15
                    &&& regex_matches(KV003_PATTERN@, line)
                },
                RuleKind::UncachedFewShotOrder => {
                    &&& regex_matches(KV005_PATTERN@, line)
                },
                RuleKind::DynamicDateInJinja => {
                    &&& idx < 20
                    &&& regex_matches(KV006_PATTERN@, line)
                },
                RuleKind::RawDiffInPrefix => {
                    &&& idx < 25
                    &&& regex_matches(KV007_PATTERN@, line)
                },
                RuleKind::ThinkingTraceHistory => {
                    &&& regex_matches(KV008_PATTERN@, line)
                },
                RuleKind::UnsortedJsonSerialization => {
                    &&& regex_matches(KV009_PATTERN@, line)
                    &&& !regex_matches(KV009_EXEMPTION@, line)
                },
                RuleKind::DynamicToolSchemaMutation => {
                    &&& idx < 25
                    &&& regex_matches(KV010_PATTERN@, line)
                },
            }
        }),
    ensures
        exists|j: int| 0 <= j < rule_issues(k, path, content).len() && #[trigger] rule_issues(k, path, content)[j].line == idx + 1,
{
    let ls = spec_lines(content);
    lemma_flagged_line_reported(spec_info(k), path, ls, idx);
    let all = rule_issues(k, path, content);
    let w = choose|w: int| 0 <= w < all.len() && all[w] == issue_at(spec_info(k), path, idx, ls[idx]);
    assert(all[w].line == idx + 1);
}

/// A prompt in which no built-in rule flags any line yields no issue.
pub proof fn lemma_clean_prompt_has_no_issues(path: Seq<char>, content: Seq<char>)
    requires
        forall|k: RuleKind, idx: int|
            #![trigger line_flagged(spec_info(k), idx, spec_lines(content)[idx])]
            0 <= idx < spec_lines(content).len() ==> !line_flagged(spec_info(k), idx, spec_lines(content)[idx]),
    ensures
        issues_for_kinds(builtin_order(), path, content) == Seq::<IssueModel>::empty(),
{
    lemma_no_issues_for_any_kinds(builtin_order(), path, content);
}

/// Helper of `lemma_clean_prompt_has_no_issues`: the same for any list of rules.
proof fn lemma_no_issues_for_any_kinds(kinds: Seq<RuleKind>, path: Seq<char>, content: Seq<char>)
    requires
        forall|k: RuleKind, idx: int|
            #![trigger line_flagged(spec_info(k), idx, spec_lines(content)[idx])]
            0 <= idx < spec_lines(content).len() ==> !line_flagged(spec_info(k), idx, spec_lines(content)[idx]),
    ensures
        issues_for_kinds(kinds, path, content) == Seq::<IssueModel>::empty(),
    decreases kinds.len(),
{
    if kinds.len() > 0 {
        lemma_no_issues_for_any_kinds(kinds.drop_last(), path, content);
        let k = kinds.last();
        assert forall|idx: int| 0 <= idx < spec_lines(content).len() implies !line_flagged(
            spec_info(k),
            idx,
            #[trigger] spec_lines(content)[idx],
        ) by {}
        lemma_unflagged_lines_report_nothing(spec_info(k), path, spec_lines(content));
        assert(issues_for_kinds(kinds, path, content) =~= Seq::<IssueModel>::empty());
    }
}

} // verus!
