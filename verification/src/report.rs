use vstd::prelude::*;

use crate::analyzer::{issue_views, spec_score, AnalysisResult, Analyzer, IssueSeverity, PromptIssue};

verus! {

impl IssueSeverity {
    /// The icon and the label that a terminal report shows for the severity.
    pub fn banner(&self) -> (r: (&'static str, &'static str))
        ensures
            r.0@ == severity_icon(*self)@,
            r.1@ == severity_label(*self)@,
    {
        match self {
            IssueSeverity::Critical => ("🚨", "CRITICAL [Potential 90%+ Prefix Cache Kill]"),
            IssueSeverity::Warning => ("⚠️ ", "WARNING  [75% Prefix Invalidation]"),
            IssueSeverity::Optimization => ("💡", "OPTIMIZE [40% Prefix Drift]"),
        }
    }
}

/// The icon that a terminal report shows for severity `s`.
pub open spec fn severity_icon(s: IssueSeverity) -> &'static str {
    match s {
        IssueSeverity::Critical => "🚨",
        IssueSeverity::Warning => "⚠️ ",
        IssueSeverity::Optimization => "💡",
    }
}

/// The label that a terminal report shows for severity `s`.
pub open spec fn severity_label(s: IssueSeverity) -> &'static str {
    match s {
        IssueSeverity::Critical => "CRITICAL [Potential 90%+ Prefix Cache Kill]",
        IssueSeverity::Warning => "WARNING  [75% Prefix Invalidation]",
        IssueSeverity::Optimization => "OPTIMIZE [40% Prefix Drift]",
    }
}

/// Whether one of `issues` is critical.
pub open spec fn any_critical(issues: Seq<PromptIssue>) -> bool {
    exists|i: int| 0 <= i < issues.len() && #[trigger] issues[i].severity == IssueSeverity::Critical
}

/// Whether one of `issues` is critical (what fails a strict scan).
pub fn has_critical(issues: &[PromptIssue]) -> (r: bool)
    ensures
        r == any_critical(issues@),
{
    let n = issues.len();
    for i in 0..n
        invariant
            n == issues@.len(),
            forall|j: int| 0 <= j < i ==> issues@[j].severity != IssueSeverity::Critical,
    {
        match issues[i].severity {
            IssueSeverity::Critical => {
                return true;
            },
            _ => {},
        }
    }
    false
}

impl Analyzer {
    /// The result of a scan of `files_scanned` files that found `issues`,
    /// with the cache efficiency score of those issues.
    pub fn summarize(&self, files_scanned: usize, issues: Vec<PromptIssue>) -> (r: AnalysisResult)
        ensures
            r.files_scanned == files_scanned,
            r.prompts_analyzed == files_scanned,
            r.issues@ == issues@,
            r.cache_efficiency_score == spec_score(issue_views(issues@)),
    {
        let score = self.compute_score(issues.as_slice());
        AnalysisResult {
            files_scanned,
            prompts_analyzed: files_scanned,
            issues,
            cache_efficiency_score: score,
        }
    }
}

/// The labels of the terminal report, for each severity.
pub proof fn lemma_severity_labels(s: IssueSeverity)
    ensures
        s == IssueSeverity::Critical ==> severity_label(s)@ == "CRITICAL [Potential 90%+ Prefix Cache Kill]"@
            && severity_icon(s)@ == "🚨"@,
        s == IssueSeverity::Warning ==> severity_label(s)@ == "WARNING  [75% Prefix Invalidation]"@
            && severity_icon(s)@ == "⚠️ "@,
        s == IssueSeverity::Optimization ==> severity_label(s)@ == "OPTIMIZE [40% Prefix Drift]"@
            && severity_icon(s)@ == "💡"@,
{
}

} // verus!
