use vstd::prelude::*;

use crate::rules::{RuleKind, builtin_order, builtin_patterns_accepted, issues_for_kinds, try_all_rules, BuiltinRule, Rule};

verus! {

/// How much an issue harms prefix caching.
#[derive(Debug, Clone, Copy, PartialEq, Eq, Structural)]
pub enum IssueSeverity {
    Critical,
    Warning,
    Optimization,
}

/// One finding of a rule on one line of one file.
#[derive(Debug, Clone)]
pub struct PromptIssue {
    pub rule_id: String,
    pub severity: IssueSeverity,
    pub file: String,
    pub line: usize,
    pub title: String,
    pub explanation: String,
    pub recommendation: String,
    pub snippet: String,
    pub estimated_token_waste_pct: u8,
}

/// The mathematical value of a `PromptIssue`.
pub struct IssueModel {
    pub rule_id: Seq<char>,
    pub severity: IssueSeverity,
    pub file: Seq<char>,
    pub line: int,
    pub title: Seq<char>,
    pub explanation: Seq<char>,
    pub recommendation: Seq<char>,
    pub snippet: Seq<char>,
    pub estimated_token_waste_pct: u8,
}

impl View for PromptIssue {
    type V = IssueModel;

    open spec fn view(&self) -> IssueModel {
        IssueModel {
            rule_id: self.rule_id@,
            severity: self.severity,
            file: self.file@,
            line: self.line as int,
            title: self.title@,
            explanation: self.explanation@,
            recommendation: self.recommendation@,
            snippet: self.snippet@,
            estimated_token_waste_pct: self.estimated_token_waste_pct,
        }
    }
}

/// The views of a sequence of issues.
pub open spec fn issue_views(v: Seq<PromptIssue>) -> Seq<IssueModel> {
    v.map_values(|i: PromptIssue| i@)
}

/// The outcome of scanning a set of files.
#[derive(Debug, Clone)]
pub struct AnalysisResult {
    pub files_scanned: usize,
    pub prompts_analyzed: usize,
    pub issues: Vec<PromptIssue>,
    pub cache_efficiency_score: u8,
}

impl Default for AnalysisResult {
    fn default() -> (r: Self)
        ensures
            r.files_scanned == 0,
            r.prompts_analyzed == 0,
            r.issues@.len() == 0,
            r.cache_efficiency_score == 0,
    {
        AnalysisResult { files_scanned: 0, prompts_analyzed: 0, issues: Vec::new(), cache_efficiency_score: 0 }
    }
}

/// The score points that one issue of severity `s` costs.
pub open spec fn severity_penalty(s: IssueSeverity) -> int {
    match s {
        IssueSeverity::Critical => 30,
        IssueSeverity::Warning => 10,
        IssueSeverity::Optimization => 5,
    }
}

/// The score points that all of `issues` cost together.
pub open spec fn total_penalty(issues: Seq<IssueModel>) -> int
    decreases issues.len(),
{
    if issues.len() == 0 {
        0
    } else {
        total_penalty(issues.drop_last()) + severity_penalty(issues.last().severity)
    }
}

/// The cache efficiency score: 100 less the penalties, and never below 0.
pub open spec fn spec_score(issues: Seq<IssueModel>) -> int {
    if total_penalty(issues) >= 100 {
        0
    } else {
        100 - total_penalty(issues)
    }
}

/// The paths and contents of files, as text.
pub open spec fn file_views(files: Seq<(String, String)>) -> Seq<(Seq<char>, Seq<char>)> {
    files.map_values(|f: (String, String)| (f.0@, f.1@))
}

/// The issues that the built-in rules find in several (path, content) files,
/// one file after the other.
pub open spec fn issues_for_files(files: Seq<(Seq<char>, Seq<char>)>) -> Seq<IssueModel>
    decreases files.len(),
{
    if files.len() == 0 {
        seq![]
    } else {
        issues_for_files(files.drop_last()) + issues_for_kinds(builtin_order(), files.last().0, files.last().1)
    }
}

/// Runs every built-in rule over prompt files.
pub struct Analyzer {
    rules: Vec<BuiltinRule>,
}

impl Analyzer {
    /// The rules hold the built-in rule set, in its order.
    #[verifier::type_invariant]
    spec fn rules_in_order(self) -> bool {
        self.rules@.map_values(|r: BuiltinRule| r.kind()) == builtin_order()
    }

    /// The kinds of the rules that the analyzer runs, in their order.
    pub closed spec fn rule_kinds(self) -> Seq<RuleKind> {
        self.rules@.map_values(|r: BuiltinRule| r.kind())
    }

    /// An analyzer with every built-in rule, in the built-in order.
    pub fn new() -> (r: Self)
        requires
            builtin_patterns_accepted(),
        ensures
            r.rule_kinds() == builtin_order(),
    {
        Self::try_new().unwrap()
    }

    /// An analyzer with every built-in rule, or `None` where one of their
    /// patterns is refused by the regular expression engine.
    pub fn try_new() -> (r: Option<Self>)
        ensures
            r is Some <==> builtin_patterns_accepted(),
            r matches Some(a) ==> a.rule_kinds() == builtin_order(),
    {
        match try_all_rules() {
            Some(rules) => Some(Analyzer { rules }),
            None => None,
        }
    }

    /// The issues that the built-in rules find in `content`, read from `path`:
    /// those of each rule in turn, in the rules' order.
    pub fn analyze_file(&self, path: &str, content: &str) -> (r: Vec<PromptIssue>)
        ensures
            issue_views(r@) == issues_for_kinds(builtin_order(), path@, content@),
    {
        proof {
            use_type_invariant(self);
        }
        let mut issues: Vec<PromptIssue> = Vec::new();
        let n = self.rules.len();
        for i in 0..n
            invariant
                n == self.rules@.len(),
                self.rules@.map_values(|r: BuiltinRule| r.kind()) == builtin_order(),
                issue_views(issues@) == issues_for_kinds(builtin_order().take(i as int), path@, content@),
        {
            let mut found = self.rules[i].check(path, content);
            proof {
                let order = builtin_order();
                assert(order.take(i + 1).drop_last() == order.take(i as int));
                assert(self.rules@[i as int].kind() == order[i as int]);
            }
            let ghost before = issues@;
            let ghost added = found@;
            issues.append(&mut found);
            assert(issue_views(issues@) =~= issue_views(before) + issue_views(added));
        }
        assert(builtin_order().take(n as int) == builtin_order());
        issues
    }

    /// The issues of several files, given as (path, content) pairs: those of
    /// each file in turn.
    pub fn analyze_files(&self, files: &[(String, String)]) -> (r: Vec<PromptIssue>)
        ensures
            issue_views(r@) == issues_for_files(file_views(files@)),
    {
        let mut issues: Vec<PromptIssue> = Vec::new();
        let n = files.len();
        for i in 0..n
            invariant
                n == files@.len(),
                issue_views(issues@) == issues_for_files(file_views(files@).take(i as int)),
        {
            let mut found = self.analyze_file(files[i].0.as_str(), files[i].1.as_str());
            proof {
                let fv = file_views(files@);
                assert(fv.take(i + 1).drop_last() == fv.take(i as int));
                assert(fv.take(i + 1).last() == (files@[i as int].0@, files@[i as int].1@));
            }
            let ghost before = issues@;
            let ghost added = found@;
            issues.append(&mut found);
            assert(issue_views(issues@) =~= issue_views(before) + issue_views(added));
        }
        assert(file_views(files@).take(n as int) == file_views(files@));
        issues
    }

    /// The cache efficiency score of `issues`: 100, less 30 for each critical
    /// issue, 10 for each warning and 5 for each optimization, never below 0.
    pub fn compute_score(&self, issues: &[PromptIssue]) -> (r: u8)
        ensures
            r == spec_score(issue_views(issues@)),
    {
        let ghost ms = issue_views(issues@);
        let mut penalty: u64 = 0;
        let n = issues.len();
        for i in 0..n
            invariant
                n == issues@.len(),
                ms == issue_views(issues@),
                penalty <= 130,
                total_penalty(ms.take(i as int)) < 100 ==> penalty == total_penalty(ms.take(i as int)),
                total_penalty(ms.take(i as int)) >= 100 ==> penalty >= 100,
        {
            assert(ms.take(i + 1).drop_last() == ms.take(i as int));
            assert(ms.take(i + 1).last() == issues@[i as int]@);
            if penalty < 100 {
                penalty = penalty + match issues[i].severity {
                    IssueSeverity::Critical => 30,
                    IssueSeverity::Warning => 10,
                    IssueSeverity::Optimization => 5,
                };
            }
        }
        assert(ms.take(n as int) == ms);
        if penalty >= 100 {
            0
        } else {
            (100 - penalty) as u8
        }
    }
}


/// No issue costs nothing; every issue costs at least 5 points.
pub proof fn lemma_penalty_bounds(issues: Seq<IssueModel>)
    ensures
        total_penalty(issues) >= 5 * issues.len(),
    decreases issues.len(),
{
    if issues.len() > 0 {
        lemma_penalty_bounds(issues.drop_last());
    }
}

/// The penalty of two lists of issues together is the sum of their penalties.
pub proof fn lemma_penalty_additive(a: Seq<IssueModel>, b: Seq<IssueModel>)
    ensures
        total_penalty(a + b) == total_penalty(a) + total_penalty(b),
    decreases b.len(),
{
    if b.len() == 0 {
        assert(a + b =~= a);
    } else {
        lemma_penalty_additive(a, b.drop_last());
        assert((a + b).drop_last() =~= a + b.drop_last());
    }
}

/// The score lies between 0 and 100, and it is 100 exactly when there is no issue.
pub proof fn lemma_score_range(issues: Seq<IssueModel>)
    ensures
        0 <= spec_score(issues) <= 100,
        spec_score(issues) == 100 <==> issues.len() == 0,
{
    lemma_penalty_bounds(issues);
}

/// More issues never raise the score.
pub proof fn lemma_score_never_rises(a: Seq<IssueModel>, b: Seq<IssueModel>)
    ensures
        spec_score(a + b) <= spec_score(a),
{
    lemma_penalty_additive(a, b);
    lemma_penalty_bounds(b);
}

/// The score does not depend on the order in which issues are found.
pub proof fn lemma_score_ignores_order(a: Seq<IssueModel>, b: Seq<IssueModel>)
    ensures
        spec_score(a + b) == spec_score(b + a),
{
    lemma_penalty_additive(a, b);
    lemma_penalty_additive(b, a);
}

/// Removing one issue lowers the penalty by that issue's penalty.
proof fn lemma_penalty_remove(issues: Seq<IssueModel>, i: int)
    requires
        0 <= i < issues.len(),
    ensures
        total_penalty(issues) == total_penalty(issues.remove(i)) + severity_penalty(issues[i].severity),
{
    let front = issues.take(i);
    let back = issues.skip(i + 1);
    let one = seq![issues[i]];
    assert(issues =~= front + one + back);
    assert(issues.remove(i) =~= front + back);
    assert(one.drop_last() =~= Seq::<IssueModel>::empty());
    assert(one.last() == issues[i]);
    assert(total_penalty(one.drop_last()) == 0);
    assert(total_penalty(one) == severity_penalty(issues[i].severity));
    lemma_penalty_additive(front + one, back);
    lemma_penalty_additive(front, one);
    lemma_penalty_additive(front, back);
}

/// Lists that hold the same issues, each as often, in any order, cost the same.
pub proof fn lemma_penalty_ignores_any_order(a: Seq<IssueModel>, b: Seq<IssueModel>)
    requires
        a.to_multiset() == b.to_multiset(),
    ensures
        total_penalty(a) == total_penalty(b),
    decreases a.len(),
{
    broadcast use vstd::seq_lib::group_to_multiset_ensures, vstd::multiset::group_multiset_axioms;

    if a.len() == 0 {
        assert(b.to_multiset().len() == 0);
        assert(b.len() == 0);
    } else {
        let x = a.last();
        assert(a.drop_last().push(x) == a);
        assert(a.to_multiset() == a.drop_last().to_multiset().insert(x));
        assert(a.to_multiset().count(x) > 0);
        assert(b.contains(x));
        let i = choose|i: int| 0 <= i < b.len() && b[i] == x;
        assert(b.remove(i).to_multiset() == b.to_multiset().remove(x));
        assert(a.drop_last().to_multiset() == a.to_multiset().remove(x));
        lemma_penalty_ignores_any_order(a.drop_last(), b.remove(i));
        lemma_penalty_remove(b, i);
    }
}

/// The score does not depend on the order of the issues: lists that hold the
/// same issues, each as often, score the same.
pub proof fn lemma_score_ignores_any_order(a: Seq<IssueModel>, b: Seq<IssueModel>)
    requires
        a.to_multiset() == b.to_multiset(),
    ensures
        spec_score(a) == spec_score(b),
{
    lemma_penalty_ignores_any_order(a, b);
}

/// A scan of one file reports exactly the issues that analyzing that file
/// alone reports.
pub proof fn lemma_scan_of_one_file(f: (Seq<char>, Seq<char>))
    ensures
        issues_for_files(seq![f]) == issues_for_kinds(builtin_order(), f.0, f.1),
{
    let one = seq![f];
    assert(one.drop_last() =~= Seq::<(Seq<char>, Seq<char>)>::empty());
    assert(one.last() == f);
    assert(issues_for_files(one.drop_last()) =~= Seq::<IssueModel>::empty());
    assert(issues_for_files(one) =~= Seq::<IssueModel>::empty() + issues_for_kinds(builtin_order(), f.0, f.1));
}

/// A scan of the files `a` and then `b` reports the issues of the scan of `a`,
/// then those of the scan of `b`: nothing is dropped, added or reordered.
pub proof fn lemma_scan_of_concat(a: Seq<(Seq<char>, Seq<char>)>, b: Seq<(Seq<char>, Seq<char>)>)
    ensures
        issues_for_files(a + b) == issues_for_files(a) + issues_for_files(b),
    decreases b.len(),
{
    if b.len() == 0 {
        assert(a + b =~= a);
        assert(issues_for_files(a) + issues_for_files(b) =~= issues_for_files(a));
    } else {
        lemma_scan_of_concat(a, b.drop_last());
        assert((a + b).drop_last() =~= a + b.drop_last());
        assert((a + b).last() == b.last());
        let x = issues_for_files(a);
        let y = issues_for_files(b.drop_last());
        let z = issues_for_kinds(builtin_order(), b.last().0, b.last().1);
        assert((x + y) + z =~= x + (y + z));
    }
}

/// How many of `issues` have severity `s`.
pub open spec fn count_severity(issues: Seq<IssueModel>, s: IssueSeverity) -> int
    decreases issues.len(),
{
    if issues.len() == 0 {
        0
    } else {
        count_severity(issues.drop_last(), s) + if issues.last().severity == s {
            1int
        } else {
            0int
        }
    }
}

/// The penalty is 30 points for each critical issue, 10 for each warning and 5
/// for each optimization.
pub proof fn lemma_penalty_by_severity(issues: Seq<IssueModel>)
    ensures
        total_penalty(issues) == 30 * count_severity(issues, IssueSeverity::Critical) + 10 * count_severity(
            issues,
            IssueSeverity::Warning,
        ) + 5 * count_severity(issues, IssueSeverity::Optimization),
    decreases issues.len(),
{
    if issues.len() > 0 {
        lemma_penalty_by_severity(issues.drop_last());
    }
}

/// The score is 100 less 30 points for each critical issue, 10 for each warning
/// and 5 for each optimization, and 0 where that is not positive.
pub proof fn lemma_score_formula(issues: Seq<IssueModel>)
    ensures
        ({
            let raw = 100 - 30 * count_severity(issues, IssueSeverity::Critical) - 10 * count_severity(
                issues,
                IssueSeverity::Warning,
            ) - 5 * count_severity(issues, IssueSeverity::Optimization);
            spec_score(issues) == if raw > 0 {
                raw
            } else {
                0
            }
        }),
{
    lemma_penalty_by_severity(issues);
}

} // verus!
