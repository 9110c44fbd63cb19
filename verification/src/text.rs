use vstd::prelude::*;

verus! {

/// Appends one character to a string.
///
/// Trusted: `String::push` appends `c` at the end of the string and changes
/// nothing else.
#[verifier::external_body]
pub(crate) fn string_push(s: &mut String, c: char)
    ensures
        final(s)@ == old(s)@.push(c),
{
    s.push(c);
}

/// The characters of a string slice, in order.
pub fn to_chars(s: &str) -> (r: Vec<char>)
    ensures
        r@ == s@,
{
    let mut r: Vec<char> = Vec::new();
    for c in it: s.chars()
        invariant
            it.seq() == s@,
            r@ == it.seq().take(it.index()),
    {
        r.push(c);
    }
    r
}


/// The views of a sequence of strings.
pub open spec fn views(v: Seq<String>) -> Seq<Seq<char>> {
    v.map_values(|s: String| s@)
}

/// A string made of `cs[lo..hi]`.
pub fn string_from_range(cs: &Vec<char>, lo: usize, hi: usize) -> (r: String)
    requires
        lo <= hi <= cs@.len(),
    ensures
        r@ == cs@.subrange(lo as int, hi as int),
{
    let mut r = String::new();
    let mut k = lo;
    while k < hi
        invariant
            lo <= k <= hi <= cs@.len(),
            r@ == cs@.subrange(lo as int, k as int),
        decreases hi - k,
    {
        string_push(&mut r, cs[k]);
        assert(cs@.subrange(lo as int, k + 1) == cs@.subrange(lo as int, k as int).push(cs@[k as int]));
        k = k + 1;
    }
    r
}

/// A line without the carriage return that ended it, if any.
pub open spec fn strip_cr(l: Seq<char>) -> Seq<char> {
    if l.len() > 0 && l.last() == '\r' {
        l.drop_last()
    } else {
        l
    }
}

/// Reading `s` from the left: the lines already ended by a line feed, and
/// the characters read since the last line feed.
pub open spec fn line_scan(s: Seq<char>) -> (Seq<Seq<char>>, Seq<char>)
    decreases s.len(),
{
    if s.len() == 0 {
        (seq![], seq![])
    } else {
        let prev = line_scan(s.drop_last());
        if s.last() == '\n' {
            (prev.0.push(strip_cr(prev.1)), seq![])
        } else {
            (prev.0, prev.1.push(s.last()))
        }
    }
}

/// The lines of `s` as `str::lines` gives them: split at each `\n`, a `\r`
/// just before the `\n` dropped, and no empty last line after a final `\n`.
pub open spec fn spec_lines(s: Seq<char>) -> Seq<Seq<char>> {
    let scan = line_scan(s);
    if scan.1.len() > 0 {
        scan.0.push(scan.1)
    } else {
        scan.0
    }
}

/// Reading `b` after text that ended on a line feed goes on from an empty line.
proof fn lemma_line_scan_append(a: Seq<char>, b: Seq<char>)
    requires
        line_scan(a).1 == Seq::<char>::empty(),
    ensures
        line_scan(a + b).0 == line_scan(a).0 + line_scan(b).0,
        line_scan(a + b).1 == line_scan(b).1,
    decreases b.len(),
{
    if b.len() == 0 {
        assert(a + b =~= a);
        assert(line_scan(a).0 + line_scan(b).0 =~= line_scan(a).0);
    } else {
        lemma_line_scan_append(a, b.drop_last());
        assert((a + b).drop_last() =~= a + b.drop_last());
        assert((a + b).last() == b.last());
        assert(line_scan(a).0 + line_scan(b.drop_last()).0.push(strip_cr(line_scan(b.drop_last()).1))
            =~= (line_scan(a).0 + line_scan(b.drop_last()).0).push(strip_cr(line_scan(b.drop_last()).1)));
    }
}

/// The lines of `a + b`, where `a` is empty or ends with a line feed, are the
/// lines of `a` followed by the lines of `b`.
pub proof fn lemma_lines_of_concat(a: Seq<char>, b: Seq<char>)
    requires
        a.len() == 0 || a.last() == '\n',
    ensures
        spec_lines(a + b) == spec_lines(a) + spec_lines(b),
{
    if a.len() > 0 {
        assert(line_scan(a).1 =~= Seq::<char>::empty());
    }
    lemma_line_scan_append(a, b);
    if line_scan(b).1.len() > 0 {
        assert(spec_lines(a + b) =~= spec_lines(a) + spec_lines(b));
    } else {
        assert(spec_lines(a + b) =~= spec_lines(a) + spec_lines(b));
    }
}

/// `s` cut at every line feed, as `str::split('\n')` gives it: one piece more
/// than there are line feeds, empty pieces included.
pub open spec fn split_at_newlines(s: Seq<char>) -> Seq<Seq<char>>
    decreases s.len(),
{
    if s.len() == 0 {
        seq![seq![]]
    } else {
        let p = split_at_newlines(s.drop_last());
        if s.last() == '\n' {
            p.push(seq![])
        } else {
            p.update(p.len() - 1, p.last().push(s.last()))
        }
    }
}

/// Whether `l` holds no line feed.
pub open spec fn free_of_newlines(l: Seq<char>) -> bool {
    forall|i: int| 0 <= i < l.len() ==> l[i] != '\n'
}

/// Cutting at line feeds gives at least one piece.
pub proof fn lemma_split_nonempty(s: Seq<char>)
    ensures
        split_at_newlines(s).len() >= 1,
    decreases s.len(),
{
    if s.len() > 0 {
        lemma_split_nonempty(s.drop_last());
    }
}

/// Text without a line feed, appended, extends the last piece.
pub proof fn lemma_split_extend(x: Seq<char>, l: Seq<char>)
    requires
        free_of_newlines(l),
    ensures
        split_at_newlines(x + l) == split_at_newlines(x).drop_last().push(split_at_newlines(x).last() + l),
    decreases l.len(),
{
    lemma_split_nonempty(x);
    let px = split_at_newlines(x);
    if l.len() == 0 {
        assert(x + l =~= x);
        assert(px.last() + l =~= px.last());
        assert(px.drop_last().push(px.last()) =~= px);
    } else {
        lemma_split_extend(x, l.drop_last());
        assert((x + l).drop_last() =~= x + l.drop_last());
        assert((x + l).last() == l.last());
        let p = px.drop_last().push(px.last() + l.drop_last());
        assert((px.last() + l.drop_last()).push(l.last()) =~= px.last() + l);
        assert(p.last() == px.last() + l.drop_last());
        assert(p.update(p.len() - 1, p.last().push(l.last())) =~= px.drop_last().push(px.last() + l));
    }
}

/// A line feed, appended, starts a new empty piece.
pub proof fn lemma_split_newline(x: Seq<char>)
    ensures
        split_at_newlines(x.push('\n')) == split_at_newlines(x).push(seq![]),
{
    assert(x.push('\n').drop_last() =~= x);
}

/// No line of a text holds a line feed.
pub proof fn lemma_lines_free_of_newlines(s: Seq<char>)
    ensures
        forall|i: int| 0 <= i < spec_lines(s).len() ==> free_of_newlines(#[trigger] spec_lines(s)[i]),
{
    lemma_scan_free_of_newlines(s);
}

/// Helper of `lemma_lines_free_of_newlines`.
proof fn lemma_scan_free_of_newlines(s: Seq<char>)
    ensures
        forall|i: int| 0 <= i < line_scan(s).0.len() ==> free_of_newlines(#[trigger] line_scan(s).0[i]),
        free_of_newlines(line_scan(s).1),
    decreases s.len(),
{
    if s.len() > 0 {
        lemma_scan_free_of_newlines(s.drop_last());
        let prev = line_scan(s.drop_last());
        if s.last() == '\n' {
            assert(free_of_newlines(strip_cr(prev.1)));
            assert forall|i: int| 0 <= i < line_scan(s).0.len() implies free_of_newlines(#[trigger] line_scan(s).0[i]) by {
                if i < prev.0.len() {
                    assert(line_scan(s).0[i] == prev.0[i]);
                }
            }
        } else {
            assert(free_of_newlines(prev.1.push(s.last())));
        }
    }
}

/// Whether `l` holds no carriage return.
pub open spec fn free_of_carriage_returns(l: Seq<char>) -> bool {
    forall|i: int| 0 <= i < l.len() ==> l[i] != '\r'
}

/// Helper of `lemma_lines_are_pieces`: without carriage returns, the finished
/// lines and the current one are the pieces between line feeds.
proof fn lemma_scan_is_split(s: Seq<char>)
    requires
        free_of_carriage_returns(s),
    ensures
        split_at_newlines(s) == line_scan(s).0.push(line_scan(s).1),
        free_of_carriage_returns(line_scan(s).1),
    decreases s.len(),
{
    if s.len() > 0 {
        let front = s.drop_last();
        assert forall|i: int| 0 <= i < front.len() implies front[i] != '\r' by {
            assert(front[i] == s[i]);
        }
        lemma_scan_is_split(front);
        lemma_split_nonempty(front);
        let prev = line_scan(front);
        assert(s[s.len() - 1] != '\r');
        if s.last() == '\n' {
            assert(strip_cr(prev.1) == prev.1);
            assert(line_scan(s).1 =~= Seq::<char>::empty());
        } else {
            let p = split_at_newlines(front);
            assert(p.update(p.len() - 1, p.last().push(s.last())) =~= prev.0.push(prev.1.push(s.last())));
            assert(free_of_carriage_returns(prev.1.push(s.last())));
        }
    }
}

/// Without carriage returns, and where the text does not end with a line feed,
/// the lines of a non-empty text are exactly its pieces between line feeds,
/// empty ones included.
pub proof fn lemma_lines_are_pieces(s: Seq<char>)
    requires
        s.len() > 0,
        s.last() != '\n',
        free_of_carriage_returns(s),
    ensures
        spec_lines(s) == split_at_newlines(s),
{
    lemma_scan_is_split(s);
    let prev = line_scan(s.drop_last());
    assert(line_scan(s).1 == prev.1.push(s.last()));
}

/// A final line feed is optional: adding one after a last line that does not
/// end with a carriage return leaves the lines unchanged.
pub proof fn lemma_final_line_feed_optional(s: Seq<char>)
    requires
        s.len() > 0,
        s.last() != '\n',
        s.last() != '\r',
    ensures
        spec_lines(s.push('\n')) == spec_lines(s),
{
    let t = s.push('\n');
    assert(t.drop_last() =~= s);
    let prev = line_scan(s.drop_last());
    assert(line_scan(s).1 == prev.1.push(s.last()));
    assert(strip_cr(line_scan(s).1) == line_scan(s).1);
}

/// A trimmed text is a piece of the text: before it and after it there is only
/// white space, and it neither starts nor ends with white space.
pub proof fn lemma_trim_shape(s: Seq<char>)
    ensures
        exists|i: int, j: int|
            #![trigger s.subrange(i, j)]
            {
                &&& 0 <= i <= j <= s.len()
                &&& spec_trim(s) == s.subrange(i, j)
                &&& forall|k: int| 0 <= k < i ==> is_whitespace(#[trigger] s[k])
                &&& forall|k: int| j <= k < s.len() ==> is_whitespace(#[trigger] s[k])
                &&& i < j ==> !is_whitespace(s[i]) && !is_whitespace(s[j - 1])
            },
{
    let i = lemma_trim_start_shape(s);
    let t = s.subrange(i, s.len() as int);
    let j = lemma_trim_end_shape(t);
    assert(t.subrange(0, j) =~= s.subrange(i, i + j));
    assert forall|k: int| i + j <= k < s.len() implies is_whitespace(#[trigger] s[k]) by {
        assert(s[k] == t[k - i]);
    }
    if 0 < j {
        assert(s[i] == t[0]);
        assert(s[i + j - 1] == t[j - 1]);
    }
    assert(spec_trim(s) == s.subrange(i, i + j));
}

/// Helper of `lemma_trim_shape`: where the leading white space ends.
proof fn lemma_trim_start_shape(s: Seq<char>) -> (i: int)
    ensures
        0 <= i <= s.len(),
        trim_start(s) == s.subrange(i, s.len() as int),
        forall|k: int| 0 <= k < i ==> is_whitespace(#[trigger] s[k]),
        i < s.len() ==> !is_whitespace(s[i]),
    decreases s.len(),
{
    if s.len() > 0 && is_whitespace(s[0]) {
        let i1 = lemma_trim_start_shape(s.drop_first());
        assert(s.drop_first().subrange(i1, s.drop_first().len() as int) =~= s.subrange(i1 + 1, s.len() as int));
        assert forall|k: int| 0 <= k < i1 + 1 implies is_whitespace(#[trigger] s[k]) by {
            if k > 0 {
                assert(s[k] == s.drop_first()[k - 1]);
            }
        }
        if i1 + 1 < s.len() {
            assert(s[i1 + 1] == s.drop_first()[i1]);
        }
        i1 + 1
    } else {
        assert(s.subrange(0, s.len() as int) =~= s);
        0
    }
}

/// Helper of `lemma_trim_shape`: where the trailing white space starts.
proof fn lemma_trim_end_shape(s: Seq<char>) -> (j: int)
    ensures
        0 <= j <= s.len(),
        trim_end(s) == s.subrange(0, j),
        forall|k: int| j <= k < s.len() ==> is_whitespace(#[trigger] s[k]),
        0 < j ==> !is_whitespace(s[j - 1]),
    decreases s.len(),
{
    if s.len() > 0 && is_whitespace(s.last()) {
        let j1 = lemma_trim_end_shape(s.drop_last());
        assert(s.drop_last().subrange(0, j1) =~= s.subrange(0, j1));
        assert forall|k: int| j1 <= k < s.len() implies is_whitespace(#[trigger] s[k]) by {
            if k < s.len() - 1 {
                assert(s[k] == s.drop_last()[k]);
            }
        }
        if 0 < j1 {
            assert(s[j1 - 1] == s.drop_last()[j1 - 1]);
        }
        j1
    } else {
        assert(s.subrange(0, s.len() as int) =~= s);
        s.len() as int
    }
}

/// Among ASCII characters, white space is the space and the characters from
/// tab to carriage return.
pub proof fn lemma_ascii_whitespace(c: char)
    requires
        (c as u32) < 0x80,
    ensures
        is_whitespace(c) <==> (c == ' ' || c == '\t' || c == '\n' || c == '\u{b}' || c == '\u{c}' || c == '\r'),
{
}

/// Splits `content` into its lines.
pub fn split_lines(content: &str) -> (r: Vec<String>)
    ensures
        views(r@) == spec_lines(content@),
{
    let cs = to_chars(content);
    let n = cs.len();
    let mut out: Vec<String> = Vec::new();
    let mut start: usize = 0;
    let mut i: usize = 0;
    while i < n
        invariant
            n == cs@.len(),
            cs@ == content@,
            start <= i <= n,
            line_scan(cs@.take(i as int)).0 == views(out@),
            line_scan(cs@.take(i as int)).1 == cs@.subrange(start as int, i as int),
        decreases n - i,
    {
        assert(cs@.take(i + 1).drop_last() == cs@.take(i as int));
        if cs[i] == '\n' {
            let end = if i > start && cs[i - 1] == '\r' {
                i - 1
            } else {
                i
            };
            let line = string_from_range(&cs, start, end);
            assert(line@ == strip_cr(cs@.subrange(start as int, i as int)));
            out.push(line);
            assert(views(out@) == line_scan(cs@.take(i + 1)).0);
            start = i + 1;
        } else {
            assert(cs@.subrange(start as int, i + 1) == cs@.subrange(start as int, i as int).push(cs@[i as int]));
        }
        i = i + 1;
    }
    assert(cs@.take(n as int) == cs@);
    if start < n {
        let line = string_from_range(&cs, start, n);
        out.push(line);
        assert(views(out@) == spec_lines(content@));
    }
    out
}

/// Unicode `White_Space`, the set that `char::is_whitespace` and `str::trim` use.
pub open spec fn is_whitespace(c: char) -> bool {
    ||| '\u{9}' <= c <= '\u{d}'
    ||| c == ' '
    ||| c == '\u{85}'
    ||| c == '\u{a0}'
    ||| c == '\u{1680}'
    ||| '\u{2000}' <= c <= '\u{200a}'
    ||| c == '\u{2028}'
    ||| c == '\u{2029}'
    ||| c == '\u{202f}'
    ||| c == '\u{205f}'
    ||| c == '\u{3000}'
}

/// Whether `c` is white space.
pub fn char_is_whitespace(c: char) -> (r: bool)
    ensures
        r == is_whitespace(c),
{
    ('\u{9}' <= c && c <= '\u{d}') || c == ' ' || c == '\u{85}' || c == '\u{a0}' || c == '\u{1680}'
        || ('\u{2000}' <= c && c <= '\u{200a}') || c == '\u{2028}' || c == '\u{2029}'
        || c == '\u{202f}' || c == '\u{205f}' || c == '\u{3000}'
}

/// `s` without its leading white space.
pub open spec fn trim_start(s: Seq<char>) -> Seq<char>
    decreases s.len(),
{
    if s.len() > 0 && is_whitespace(s[0]) {
        trim_start(s.drop_first())
    } else {
        s
    }
}

/// `s` without its trailing white space.
pub open spec fn trim_end(s: Seq<char>) -> Seq<char>
    decreases s.len(),
{
    if s.len() > 0 && is_whitespace(s.last()) {
        trim_end(s.drop_last())
    } else {
        s
    }
}

/// `s` without leading and trailing white space, as `str::trim` gives it.
pub open spec fn spec_trim(s: Seq<char>) -> Seq<char> {
    trim_end(trim_start(s))
}

/// Removes leading and trailing white space.
pub fn trim(s: &str) -> (r: String)
    ensures
        r@ == spec_trim(s@),
{
    let cs = to_chars(s);
    let n = cs.len();
    let mut i: usize = 0;
    assert(cs@.subrange(0, n as int) == cs@);
    while i < n && char_is_whitespace(cs[i])
        invariant
            n == cs@.len(),
            i <= n,
            trim_start(cs@) == trim_start(cs@.subrange(i as int, n as int)),
        decreases n - i,
    {
        assert(cs@.subrange(i as int, n as int).drop_first() == cs@.subrange(i + 1, n as int));
        i = i + 1;
    }
    assert(trim_start(cs@.subrange(i as int, n as int)) == cs@.subrange(i as int, n as int));
    let mut j: usize = n;
    while j > i && char_is_whitespace(cs[j - 1])
        invariant
            n == cs@.len(),
            i <= j <= n,
            trim_end(cs@.subrange(i as int, n as int)) == trim_end(cs@.subrange(i as int, j as int)),
        decreases j,
    {
        assert(cs@.subrange(i as int, j as int).drop_last() == cs@.subrange(i as int, j - 1));
        j = j - 1;
    }
    assert(trim_end(cs@.subrange(i as int, j as int)) == cs@.subrange(i as int, j as int));
    string_from_range(&cs, i, j)
}

} // verus!
