use vstd::prelude::*;

use crate::text::to_chars;

verus! {

/// The file extensions of the files that are scanned.
pub open spec fn relevant_extensions() -> Seq<Seq<char>> {
    seq![
        "py"@, "ts"@, "js"@, "rs"@, "go"@, "json"@, "yaml"@, "yml"@, "toml"@, "md"@, "txt"@,
        "prompt"@,
    ]
}

/// The directories whose files are never scanned.
pub open spec fn excluded_dirs() -> Seq<Seq<char>> {
    seq!["/.git/"@, "/node_modules/"@, "/target/"@, "/.venv/"@]
}

/// Whether `needle` occurs in `hay` at index `i`.
pub open spec fn occurs_at(hay: Seq<char>, needle: Seq<char>, i: int) -> bool {
    0 <= i && i + needle.len() <= hay.len() && hay.subrange(i, i + needle.len()) == needle
}

/// Whether `needle` occurs somewhere in `hay`.
pub open spec fn contains_text(hay: Seq<char>, needle: Seq<char>) -> bool {
    exists|i: int| occurs_at(hay, needle, i)
}

/// Whether `a` and `b` hold the same characters.
pub fn same_text(a: &str, b: &str) -> (r: bool)
    ensures
        r == (a@ == b@),
{
    let x = to_chars(a);
    let y = to_chars(b);
    if x.len() != y.len() {
        return false;
    }
    let n = x.len();
    for i in 0..n
        invariant
            n == x@.len(),
            n == y@.len(),
            x@ == a@,
            y@ == b@,
            x@.take(i as int) == y@.take(i as int),
    {
        if x[i] != y[i] {
            assert(x@[i as int] != y@[i as int]);
            return false;
        }
        assert(x@.take(i + 1) == x@.take(i as int).push(x@[i as int]));
        assert(y@.take(i + 1) == y@.take(i as int).push(y@[i as int]));
    }
    assert(x@.take(n as int) == x@);
    assert(y@.take(n as int) == y@);
    true
}

/// Whether `needle` occurs in `hay` at index `i`.
fn matches_at(hay: &Vec<char>, needle: &Vec<char>, i: usize) -> (r: bool)
    requires
        i + needle@.len() <= hay@.len(),
    ensures
        r == occurs_at(hay@, needle@, i as int),
{
    let m = needle.len();
    for k in 0..m
        invariant
            m == needle@.len(),
            i + m <= hay.len(),
            hay@.subrange(i as int, i + k) == needle@.take(k as int),
    {
        if hay[i + k] != needle[k] {
            assert(hay@.subrange(i as int, i + m)[k as int] != needle@[k as int]);
            return false;
        }
        assert(hay@.subrange(i as int, i + k + 1) == hay@.subrange(i as int, i + k).push(hay@[i + k]));
        assert(needle@.take(k + 1) == needle@.take(k as int).push(needle@[k as int]));
    }
    assert(needle@.take(m as int) == needle@);
    true
}

/// Whether `needle` occurs somewhere in `hay`.
pub fn contains(hay: &str, needle: &str) -> (r: bool)
    ensures
        r == contains_text(hay@, needle@),
{
    let h = to_chars(hay);
    let nd = to_chars(needle);
    if nd.len() > h.len() {
        assert(forall|i: int| !occurs_at(h@, nd@, i));
        return false;
    }
    let last = h.len() - nd.len();
    let mut i: usize = 0;
    while i < last
        invariant
            h@ == hay@,
            nd@ == needle@,
            last == h@.len() - nd@.len(),
            i <= last,
            forall|j: int| 0 <= j < i ==> !occurs_at(h@, nd@, j),
        decreases last - i,
    {
        if matches_at(&h, &nd, i) {
            return true;
        }
        i = i + 1;
    }
    if matches_at(&h, &nd, last) {
        return true;
    }
    assert forall|j: int| !occurs_at(h@, nd@, j) by {
        if 0 <= j < i {
        }
    }
    false
}

/// Whether a file with extension `extension` is of a kind that is scanned.
pub fn is_relevant_extension(extension: &str) -> (r: bool)
    ensures
        r == relevant_extensions().contains(extension@),
{
    let r = same_text(extension, "py") || same_text(extension, "ts") || same_text(extension, "js") || same_text(extension, "rs") || same_text(extension, "go") || same_text(extension, "json") || same_text(extension, "yaml") || same_text(extension, "yml") || same_text(extension, "toml") || same_text(extension, "md") || same_text(extension, "txt") || same_text(extension, "prompt");
    proof {
        assert(relevant_extensions()[0] == "py"@);
        assert(relevant_extensions()[1] == "ts"@);
        assert(relevant_extensions()[2] == "js"@);
        assert(relevant_extensions()[3] == "rs"@);
        assert(relevant_extensions()[4] == "go"@);
        assert(relevant_extensions()[5] == "json"@);
        assert(relevant_extensions()[6] == "yaml"@);
        assert(relevant_extensions()[7] == "yml"@);
        assert(relevant_extensions()[8] == "toml"@);
        assert(relevant_extensions()[9] == "md"@);
        assert(relevant_extensions()[10] == "txt"@);
        assert(relevant_extensions()[11] == "prompt"@);
    }
    r
}

/// Whether the file at `path`, with extension `extension` (`None` where it has
/// none), is scanned: its extension is a relevant one and its path runs through
/// none of the excluded directories.
pub fn is_relevant_source_file(path: &str, extension: Option<&str>) -> (r: bool)
    ensures
        r == (extension matches Some(e) && relevant_extensions().contains(e@) && forall|k: int|
            0 <= k < excluded_dirs().len() ==> !contains_text(path@, #[trigger] excluded_dirs()[k])),
{
    match extension {
        None => false,
        Some(e) => {
            if !is_relevant_extension(e) {
                return false;
            }
            let a = contains(path, "/.git/");
            let b = contains(path, "/node_modules/");
            let c = contains(path, "/target/");
            let d = contains(path, "/.venv/");
            proof {
                assert(excluded_dirs()[0] == "/.git/"@);
                assert(excluded_dirs()[1] == "/node_modules/"@);
                assert(excluded_dirs()[2] == "/target/"@);
                assert(excluded_dirs()[3] == "/.venv/"@);
            }
            !a && !b && !c && !d
        },
    }
}

/// The scanned extensions are py, ts, js, rs, go, json, yaml, yml, toml, md,
/// txt and prompt, and no other.
pub proof fn lemma_scanned_extensions(e: Seq<char>)
    ensures
        relevant_extensions().contains(e) <==> (e == "py"@ || e == "ts"@ || e == "js"@ || e == "rs"@ || e
            == "go"@ || e == "json"@ || e == "yaml"@ || e == "yml"@ || e == "toml"@ || e == "md"@ || e
            == "txt"@ || e == "prompt"@),
{
    let r = relevant_extensions();
    assert(r[0] == "py"@);
    assert(r[1] == "ts"@);
    assert(r[2] == "js"@);
    assert(r[3] == "rs"@);
    assert(r[4] == "go"@);
    assert(r[5] == "json"@);
    assert(r[6] == "yaml"@);
    assert(r[7] == "yml"@);
    assert(r[8] == "toml"@);
    assert(r[9] == "md"@);
    assert(r[10] == "txt"@);
    assert(r[11] == "prompt"@);
}

/// The excluded directories are .git, node_modules, target and .venv, each as
/// a whole path component.
pub proof fn lemma_excluded_directories()
    ensures
        excluded_dirs() == seq!["/.git/"@, "/node_modules/"@, "/target/"@, "/.venv/"@],
{
}

} // verus!
