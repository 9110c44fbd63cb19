use vstd::prelude::*;

use crate::pattern::{regex_accepts, regex_matches, CompiledPattern};
use crate::rules::{spec_info, RuleKind, KV001_PATTERN, KV002_PATTERN};
use crate::text::{free_of_newlines, lemma_lines_free_of_newlines, lemma_split_extend, lemma_split_newline, split_at_newlines, spec_lines, spec_trim, split_lines, string_push, trim, views};

verus! {

/// A line that reads the clock: the pattern of the timestamp rule (KV001).
pub const TIMESTAMP_LINE_PATTERN: &'static str = KV001_PATTERN;
/// A line that makes a fresh UUID or carries a session, request or trace id:
/// the pattern of the session id rule (KV002).
pub const SESSION_LINE_PATTERN: &'static str = KV002_PATTERN;
/// What separates the static lines from the dynamic tail.
pub const DYNAMIC_TAIL_HEADER: &'static str = "\n\n# --- Dynamic Runtime Tail (Auto-optimized by kvlint for Prefix Caching) ---\n";
pub const TIMESTAMP_MOVE_NOTE: &'static str = "Moved dynamic timestamp line to tail: `";
pub const SESSION_MOVE_NOTE: &'static str = "Moved dynamic UUID/session variable to tail: `";
pub const MOVE_NOTE_END: &'static str = "`";
/// The savings estimated for a prompt that was restructured.
pub const RESTRUCTURED_SAVINGS_PCT: u8 = 65;

/// What the optimizer did to a prompt.
#[derive(Debug, Clone)]
pub struct OptimizationResult {
    pub original_content: String,
    pub optimized_content: String,
    pub changes_made: Vec<String>,
    pub estimated_savings_pct: u8,
}

/// The kind of a prompt line, for the optimizer.
#[derive(Debug, Clone, Copy, PartialEq, Eq, Structural)]
pub enum LineClass {
    Static,
    Timestamp,
    Session,
}

/// A line is a timestamp line where the timestamp pattern matches it, else a
/// session line where the session pattern matches it, else static.
pub open spec fn classify(line: Seq<char>) -> LineClass {
    if regex_matches(TIMESTAMP_LINE_PATTERN@, line) {
        LineClass::Timestamp
    } else if regex_matches(SESSION_LINE_PATTERN@, line) {
        LineClass::Session
    } else {
        LineClass::Static
    }
}

/// The static lines of `ls`, in their order.
pub open spec fn static_lines(ls: Seq<Seq<char>>) -> Seq<Seq<char>>
    decreases ls.len(),
{
    if ls.len() == 0 {
        seq![]
    } else if classify(ls.last()) == LineClass::Static {
        static_lines(ls.drop_last()).push(ls.last())
    } else {
        static_lines(ls.drop_last())
    }
}

/// The dynamic (timestamp and session) lines of `ls`, in their order.
pub open spec fn dynamic_lines(ls: Seq<Seq<char>>) -> Seq<Seq<char>>
    decreases ls.len(),
{
    if ls.len() == 0 {
        seq![]
    } else if classify(ls.last()) == LineClass::Static {
        dynamic_lines(ls.drop_last())
    } else {
        dynamic_lines(ls.drop_last()).push(ls.last())
    }
}

/// The note that records moving the dynamic line `line`.
pub open spec fn move_note(line: Seq<char>) -> Seq<char> {
    if classify(line) == LineClass::Timestamp {
        TIMESTAMP_MOVE_NOTE@ + spec_trim(line) + MOVE_NOTE_END@
    } else {
        SESSION_MOVE_NOTE@ + spec_trim(line) + MOVE_NOTE_END@
    }
}

/// The notes for the dynamic lines of `ls`, in their order.
pub open spec fn move_notes(ls: Seq<Seq<char>>) -> Seq<Seq<char>>
    decreases ls.len(),
{
    if ls.len() == 0 {
        seq![]
    } else if classify(ls.last()) == LineClass::Static {
        move_notes(ls.drop_last())
    } else {
        move_notes(ls.drop_last()).push(move_note(ls.last()))
    }
}

/// `ls` joined with a line feed between each two of them.
pub open spec fn join_lines(ls: Seq<Seq<char>>) -> Seq<char>
    decreases ls.len(),
{
    if ls.len() == 0 {
        seq![]
    } else if ls.len() == 1 {
        ls[0]
    } else {
        join_lines(ls.drop_last()).push('\n') + ls.last()
    }
}

/// The optimized prompt: its static lines, then, where there are dynamic
/// lines, the tail header and the dynamic lines.
pub open spec fn spec_optimized(content: Seq<char>) -> Seq<char> {
    let ls = spec_lines(content);
    if dynamic_lines(ls).len() > 0 {
        join_lines(static_lines(ls)) + DYNAMIC_TAIL_HEADER@ + join_lines(dynamic_lines(ls))
    } else {
        join_lines(static_lines(ls))
    }
}

/// Joins `v` with a line feed between each two strings.
fn join_with_newlines(v: &Vec<String>) -> (r: String)
    ensures
        r@ == join_lines(views(v@)),
{
    let mut out = String::new();
    let n = v.len();
    for i in 0..n
        invariant
            n == v@.len(),
            out@ == join_lines(views(v@).take(i as int)),
    {
        assert(views(v@).take(i + 1).drop_last() == views(v@).take(i as int));
        if i > 0 {
            string_push(&mut out, '\n');
        }
        out.append(v[i].as_str());
        assert(out@ == join_lines(views(v@).take(i + 1)));
    }
    assert(views(v@).take(n as int) == views(v@));
    out
}

/// Moves the lines that read the clock or carry a session id to the end of a prompt.
pub struct Optimizer {
    timestamp_regex: CompiledPattern,
    uuid_regex: CompiledPattern,
}

/// Whether the regular expression engine accepts both line patterns.
pub open spec fn optimizer_patterns_accepted() -> bool {
    regex_accepts(TIMESTAMP_LINE_PATTERN@) && regex_accepts(SESSION_LINE_PATTERN@)
}

impl Optimizer {
    /// The patterns are the timestamp and the session line patterns.
    #[verifier::type_invariant]
    spec fn compiled_from_line_patterns(self) -> bool {
        self.timestamp_regex@ == TIMESTAMP_LINE_PATTERN@ && self.uuid_regex@ == SESSION_LINE_PATTERN@
    }

    /// The texts of the timestamp and the session patterns that the optimizer
    /// holds compiled.
    pub closed spec fn line_patterns(self) -> (Seq<char>, Seq<char>) {
        (self.timestamp_regex@, self.uuid_regex@)
    }

    /// The optimizer, or `None` where the regular expression engine refuses
    /// one of its patterns.
    pub fn try_new() -> (r: Option<Self>)
        ensures
            r is Some <==> optimizer_patterns_accepted(),
            r matches Some(o) ==> o.line_patterns() == (TIMESTAMP_LINE_PATTERN@, SESSION_LINE_PATTERN@),
    {
        match CompiledPattern::new(TIMESTAMP_LINE_PATTERN) {
            Ok(timestamp_regex) => match CompiledPattern::new(SESSION_LINE_PATTERN) {
                Ok(uuid_regex) => Some(Optimizer { timestamp_regex, uuid_regex }),
                Err(_) => None,
            },
            Err(_) => None,
        }
    }

    /// The optimizer, with its timestamp and session patterns compiled.
    pub fn new() -> (r: Self)
        requires
            optimizer_patterns_accepted(),
        ensures
            r.line_patterns() == (TIMESTAMP_LINE_PATTERN@, SESSION_LINE_PATTERN@),
    {
        Self::try_new().unwrap()
    }

    /// Rewrites `content` with its static lines first and its dynamic lines
    /// in a tail after them, and says which lines moved.
    pub fn optimize_prompt_text(&self, content: &str) -> (r: OptimizationResult)
        ensures
            r.original_content@ == content@,
            r.optimized_content@ == spec_optimized(content@),
            views(r.changes_made@) == move_notes(spec_lines(content@)),
            r.estimated_savings_pct == (if move_notes(spec_lines(content@)).len() > 0 {
                RESTRUCTURED_SAVINGS_PCT
            } else {
                0u8
            }),
    {
        proof {
            use_type_invariant(self);
        }
        let lines = split_lines(content);
        let ghost ls = views(lines@);
        let mut static_part: Vec<String> = Vec::new();
        let mut dynamic_part: Vec<String> = Vec::new();
        let mut changes: Vec<String> = Vec::new();
        let n = lines.len();
        for i in 0..n
            invariant
                n == lines@.len(),
                ls == views(lines@),
                self.timestamp_regex@ == TIMESTAMP_LINE_PATTERN@,
                self.uuid_regex@ == SESSION_LINE_PATTERN@,
                views(static_part@) == static_lines(ls.take(i as int)),
                views(dynamic_part@) == dynamic_lines(ls.take(i as int)),
                views(changes@) == move_notes(ls.take(i as int)),
        {
            let line = &lines[i];
            assert(ls.take(i + 1).drop_last() == ls.take(i as int));
            assert(ls[i as int] == line@);
            if self.timestamp_regex.is_match(line.as_str()) {
                let mut note = TIMESTAMP_MOVE_NOTE.to_owned();
                let trimmed = trim(line.as_str());
                note.append(trimmed.as_str());
                note.append(MOVE_NOTE_END);
                dynamic_part.push(line.clone());
                changes.push(note);
            } else if self.uuid_regex.is_match(line.as_str()) {
                let mut note = SESSION_MOVE_NOTE.to_owned();
                let trimmed = trim(line.as_str());
                note.append(trimmed.as_str());
                note.append(MOVE_NOTE_END);
                dynamic_part.push(line.clone());
                changes.push(note);
            } else {
                static_part.push(line.clone());
            }
            assert(views(static_part@) == static_lines(ls.take(i + 1)));
            assert(views(dynamic_part@) == dynamic_lines(ls.take(i + 1)));
            assert(views(changes@) == move_notes(ls.take(i + 1)));
        }
        assert(ls.take(n as int) == ls);
        let mut optimized = join_with_newlines(&static_part);
        if dynamic_part.len() > 0 {
            optimized.append(DYNAMIC_TAIL_HEADER);
            let tail = join_with_newlines(&dynamic_part);
            optimized.append(tail.as_str());
        }
        let savings = if changes.len() > 0 {
            RESTRUCTURED_SAVINGS_PCT
        } else {
            0
        };
        OptimizationResult {
            original_content: content.to_owned(),
            optimized_content: optimized,
            changes_made: changes,
            estimated_savings_pct: savings,
        }
    }
}

/// The optimizer keeps every line: its static and its dynamic lines together
/// are the lines of the prompt, each as often as there.
pub proof fn lemma_every_line_kept(ls: Seq<Seq<char>>)
    ensures
        (static_lines(ls) + dynamic_lines(ls)).to_multiset() == ls.to_multiset(),
    decreases ls.len(),
{
    broadcast use vstd::seq_lib::to_multiset_build, vstd::seq_lib::lemma_multiset_commutative;

    if ls.len() > 0 {
        lemma_every_line_kept(ls.drop_last());
        assert(ls.drop_last().push(ls.last()) == ls);
        assert(ls.drop_last().to_multiset().insert(ls.last()) == ls.to_multiset());
        let st = static_lines(ls.drop_last());
        let dy = dynamic_lines(ls.drop_last());
        assert((st + dy).to_multiset() == st.to_multiset().add(dy.to_multiset()));
        if classify(ls.last()) == LineClass::Static {
            assert((st.push(ls.last()) + dy).to_multiset() == st.push(ls.last()).to_multiset().add(dy.to_multiset()));
        } else {
            assert((st + dy.push(ls.last())).to_multiset() == st.to_multiset().add(dy.push(ls.last()).to_multiset()));
        }
    } else {
        assert(static_lines(ls) + dynamic_lines(ls) == ls);
    }
}

/// The static part keeps the static lines in their order, and the tail keeps
/// the dynamic lines in theirs.
pub proof fn lemma_parts_keep_line_order(ls: Seq<Seq<char>>)
    ensures
        static_lines(ls) == ls.filter(|l: Seq<char>| classify(l) == LineClass::Static),
        dynamic_lines(ls) == ls.filter(|l: Seq<char>| classify(l) != LineClass::Static),
    decreases ls.len(),
{
    reveal(Seq::filter);
    if ls.len() > 0 {
        lemma_parts_keep_line_order(ls.drop_last());
    }
}

/// One note is made for each line moved to the tail, and a note is made only
/// for such a line.
pub proof fn lemma_one_note_per_moved_line(ls: Seq<Seq<char>>)
    ensures
        move_notes(ls).len() == dynamic_lines(ls).len(),
        move_notes(ls) == dynamic_lines(ls).map_values(|l: Seq<char>| move_note(l)),
    decreases ls.len(),
{
    if ls.len() > 0 {
        lemma_one_note_per_moved_line(ls.drop_last());
        if classify(ls.last()) != LineClass::Static {
            let d = dynamic_lines(ls.drop_last());
            assert(d.push(ls.last()).map_values(|l: Seq<char>| move_note(l)) =~= d.map_values(
                |l: Seq<char>| move_note(l),
            ).push(move_note(ls.last())));
        }
    } else {
        assert(move_notes(ls) =~= dynamic_lines(ls).map_values(|l: Seq<char>| move_note(l)));
    }
}

/// A prompt with no dynamic line comes back as its lines joined by line feeds,
/// with no note and no estimated saving.
pub proof fn lemma_nothing_to_move(content: Seq<char>)
    requires
        forall|i: int|
            0 <= i < spec_lines(content).len() ==> classify(#[trigger] spec_lines(content)[i]) == LineClass::Static,
    ensures
        spec_optimized(content) == join_lines(spec_lines(content)),
        move_notes(spec_lines(content)).len() == 0,
{
    lemma_all_static(spec_lines(content));
    lemma_one_note_per_moved_line(spec_lines(content));
}

/// Helper of `lemma_nothing_to_move`.
proof fn lemma_all_static(ls: Seq<Seq<char>>)
    requires
        forall|i: int| 0 <= i < ls.len() ==> classify(#[trigger] ls[i]) == LineClass::Static,
    ensures
        static_lines(ls) == ls,
        dynamic_lines(ls).len() == 0,
    decreases ls.len(),
{
    if ls.len() > 0 {
        assert forall|i: int| 0 <= i < ls.drop_last().len() implies classify(#[trigger] ls.drop_last()[i])
            == LineClass::Static by {
            assert(ls.drop_last()[i] == ls[i]);
        }
        lemma_all_static(ls.drop_last());
        assert(classify(ls[ls.len() - 1]) == LineClass::Static);
        assert(ls.drop_last().push(ls.last()) == ls);
    }
}

/// Fixing moves to the tail every line that the timestamp rule's pattern
/// matches, as a timestamp line, and every other line that the session id
/// rule's pattern matches, as a session line; every line that neither matches
/// stays among the static lines.
pub proof fn lemma_fix_moves_what_rules_flag(line: Seq<char>)
    ensures
        regex_matches(KV001_PATTERN@, line) ==> classify(line) == LineClass::Timestamp,
        !regex_matches(KV001_PATTERN@, line) && regex_matches(KV002_PATTERN@, line) ==> classify(line)
            == LineClass::Session,
        !regex_matches(KV001_PATTERN@, line) && !regex_matches(KV002_PATTERN@, line) ==> classify(line)
            == LineClass::Static,
        spec_info(RuleKind::DynamicTimestamp).pattern@ == KV001_PATTERN@,
        spec_info(RuleKind::DynamicUuid).pattern@ == KV002_PATTERN@,
{
}

/// The note for a moved line names its kind and quotes the line trimmed.
pub proof fn lemma_move_note_text(line: Seq<char>)
    ensures
        classify(line) == LineClass::Timestamp ==> move_note(line) == "Moved dynamic timestamp line to tail: `"@
            + spec_trim(line) + "`"@,
        classify(line) == LineClass::Session ==> move_note(line) == "Moved dynamic UUID/session variable to tail: `"@
            + spec_trim(line) + "`"@,
{
}

/// Joining lines that hold no line feed and cutting the result at its line
/// feeds gives the same lines back, empty lines included.
pub proof fn lemma_join_then_split(ls: Seq<Seq<char>>)
    requires
        ls.len() > 0,
        forall|i: int| 0 <= i < ls.len() ==> free_of_newlines(#[trigger] ls[i]),
    ensures
        split_at_newlines(join_lines(ls)) == ls,
    decreases ls.len(),
{
    let e = Seq::<char>::empty();
    if ls.len() == 1 {
        lemma_split_extend(e, ls[0]);
        assert(e + ls[0] =~= ls[0]);
        assert(split_at_newlines(e) =~= seq![e]);
        assert(split_at_newlines(e).drop_last().push(e + ls[0]) =~= ls);
    } else {
        let front = ls.drop_last();
        assert forall|i: int| 0 <= i < front.len() implies free_of_newlines(#[trigger] front[i]) by {
            assert(front[i] == ls[i]);
        }
        lemma_join_then_split(front);
        let j = join_lines(front);
        lemma_split_newline(j);
        assert(free_of_newlines(ls[ls.len() - 1]));
        lemma_split_extend(j.push('\n'), ls.last());
        let p = split_at_newlines(j.push('\n'));
        assert(p == front.push(e));
        assert(p.drop_last() =~= front);
        assert(e + ls.last() =~= ls.last());
        assert(front.push(ls.last()) =~= ls);
    }
}

/// The static lines, and the dynamic lines, of lines free of line feeds are
/// free of line feeds.
proof fn lemma_parts_free_of_newlines(ls: Seq<Seq<char>>)
    requires
        forall|i: int| 0 <= i < ls.len() ==> free_of_newlines(#[trigger] ls[i]),
    ensures
        forall|i: int| 0 <= i < static_lines(ls).len() ==> free_of_newlines(#[trigger] static_lines(ls)[i]),
        forall|i: int| 0 <= i < dynamic_lines(ls).len() ==> free_of_newlines(#[trigger] dynamic_lines(ls)[i]),
    decreases ls.len(),
{
    if ls.len() > 0 {
        let front = ls.drop_last();
        assert forall|i: int| 0 <= i < front.len() implies free_of_newlines(#[trigger] front[i]) by {
            assert(front[i] == ls[i]);
        }
        lemma_parts_free_of_newlines(front);
        assert(free_of_newlines(ls[ls.len() - 1]));
        let st = static_lines(front);
        let dy = dynamic_lines(front);
        assert forall|i: int| 0 <= i < static_lines(ls).len() implies free_of_newlines(#[trigger] static_lines(ls)[i]) by {
            if i < st.len() {
                assert(static_lines(ls)[i] == st[i]);
            }
        }
        assert forall|i: int| 0 <= i < dynamic_lines(ls).len() implies free_of_newlines(#[trigger] dynamic_lines(ls)[i]) by {
            if i < dy.len() {
                assert(dynamic_lines(ls)[i] == dy[i]);
            }
        }
    }
}

/// The fixed prompt is made of the static lines, each kept (blank ones too)
/// and joined by single line feeds, then, where some line moved, the tail
/// header, then the moved lines joined the same way: cutting each part at its
/// line feeds gives those lines back.
pub proof fn lemma_fixed_prompt_parts(content: Seq<char>)
    ensures
        ({
            let ls = spec_lines(content);
            let st = static_lines(ls);
            let dy = dynamic_lines(ls);
            let out = spec_optimized(content);
            &&& dy.len() > 0 ==> exists|s: Seq<char>, d: Seq<char>|
                #![trigger split_at_newlines(s), split_at_newlines(d)]
                {
                    &&& out == s + DYNAMIC_TAIL_HEADER@ + d
                    &&& (st.len() > 0 ==> split_at_newlines(s) == st)
                    &&& (st.len() == 0 ==> s.len() == 0)
                    &&& split_at_newlines(d) == dy
                }
            &&& dy.len() == 0 && st.len() > 0 ==> split_at_newlines(out) == st
            &&& dy.len() == 0 && st.len() == 0 ==> out.len() == 0
        }),
{
    let ls = spec_lines(content);
    let st = static_lines(ls);
    let dy = dynamic_lines(ls);
    lemma_lines_free_of_newlines(content);
    lemma_parts_free_of_newlines(ls);
    if st.len() > 0 {
        lemma_join_then_split(st);
    }
    if dy.len() > 0 {
        lemma_join_then_split(dy);
        let s = join_lines(st);
        let d = join_lines(dy);
        assert(split_at_newlines(d) == dy);
        assert(split_at_newlines(s) == split_at_newlines(s));
        assert(spec_optimized(content) == s + DYNAMIC_TAIL_HEADER@ + d);
        assert(st.len() > 0 ==> split_at_newlines(s) == st);
        assert(st.len() == 0 ==> s.len() == 0);
    }
}

} // verus!
