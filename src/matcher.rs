//! Reading a CMake cache dump (`cmake -LA`) for the artifact output
//! directories that a project configured.
//!
//! A dump holds one `KEY:TYPE=VALUE` entry per line. An entry counts when its
//! key is `CMAKE_RUNTIME_OUTPUT_DIRECTORY` or `EXECUTABLE_OUTPUT_PATH` and its
//! type is `STRING`; its value is the rest of the line. Every other line is
//! skipped.

use vstd::prelude::*;
use vstd::std_specs::iter::IteratorSpec;
use vstd::string::StrSliceExecFns;

use crate::tasks::string_views;

verus! {

/// Start of an entry for the runtime output directory.
pub const RUNTIME_OUTPUT_ENTRY: &'static str = "CMAKE_RUNTIME_OUTPUT_DIRECTORY:STRING=";

/// Start of an entry for the executable output path.
pub const EXECUTABLE_OUTPUT_ENTRY: &'static str = "EXECUTABLE_OUTPUT_PATH:STRING=";

/// Whether `s` begins with `p`.
pub open spec fn starts_with(s: Seq<char>, p: Seq<char>) -> bool {
    p.len() <= s.len() && s.subrange(0, p.len() as int) == p
}

/// Whether `s` holds no line feed.
pub open spec fn single_line(s: Seq<char>) -> bool {
    forall|j: int| 0 <= j < s.len() ==> s[j] != '\n'
}

/// The value of a recognised cache entry, or `None` for any other line.
pub open spec fn entry_value(line: Seq<char>) -> Option<Seq<char>> {
    if !single_line(line) {
        None
    } else if starts_with(line, RUNTIME_OUTPUT_ENTRY@) {
        Some(line.skip(RUNTIME_OUTPUT_ENTRY@.len() as int))
    } else if starts_with(line, EXECUTABLE_OUTPUT_ENTRY@) {
        Some(line.skip(EXECUTABLE_OUTPUT_ENTRY@.len() as int))
    } else {
        None
    }
}

/// The values that one line contributes: none or one.
pub open spec fn line_paths(line: Seq<char>) -> Seq<Seq<char>> {
    match entry_value(line) {
        Some(v) => seq![v],
        None => seq![],
    }
}

/// The index of the first line feed in `s`, or `s.len()` when there is none.
pub open spec fn line_break(s: Seq<char>) -> int
    decreases s.len(),
{
    if s.len() == 0 {
        0
    } else if s[0] == '\n' {
        0
    } else {
        1 + line_break(s.drop_first())
    }
}

/// A line ended by a line feed, without a carriage return just before it.
pub open spec fn strip_cr(line: Seq<char>) -> Seq<char> {
    if line.len() > 0 && line.last() == '\r' {
        line.drop_last()
    } else {
        line
    }
}

/// The paths that a cache dump names, in the order of its lines. Lines end
/// at a line feed, and a carriage return before that line feed is not part of
/// the line; a last line without a line feed counts too.
pub open spec fn artifact_paths(text: Seq<char>) -> Seq<Seq<char>>
    decreases text.len(),
{
    if text.len() == 0 {
        seq![]
    } else {
        let k = line_break(text);
        if 0 <= k < text.len() {
            line_paths(strip_cr(text.take(k))) + artifact_paths(text.skip(k + 1))
        } else {
            line_paths(text)
        }
    }
}

proof fn lemma_line_break(s: Seq<char>, k: int)
    requires
        0 <= k <= s.len(),
        forall|j: int| 0 <= j < k ==> s[j] != '\n',
        k == s.len() || s[k] == '\n',
    ensures
        line_break(s) == k,
    decreases k,
{
    if k > 0 {
        lemma_line_break(s.drop_first(), k - 1);
    }
}

/// The characters of `s`.
fn chars_of(s: &str) -> (r: Vec<char>)
    ensures
        r@ == s@,
{
    let mut it = s.chars();
    let mut r: Vec<char> = Vec::new();
    loop
        invariant
            r@ + it.remaining() == s@,
            it.decrease() is Some,
        ensures
            r@ == s@,
        decreases it.decrease()->0,
    {
        match it.next() {
            Some(c) => {
                r.push(c);
            },
            None => {
                assert(r@ =~= s@);
                break;
            },
        }
    }
    r
}

/// Whether `line[start..end]` begins with `key`.
fn begins_with(line: &Vec<char>, start: usize, end: usize, key: &Vec<char>) -> (r: bool)
    requires
        start <= end <= line@.len(),
    ensures
        r == starts_with(line@.subrange(start as int, end as int), key@),
{
    if key.len() > end - start {
        return false;
    }
    let mut j: usize = 0;
    while j < key.len()
        invariant
            j <= key@.len() <= end - start,
            start <= end <= line@.len(),
            forall|t: int| 0 <= t < j ==> line@[start + t] == key@[t],
        decreases key@.len() - j,
    {
        if line[start + j] != key[j] {
            assert(line@.subrange(start as int, end as int).subrange(0, key@.len() as int)[j as int]
                != key@[j as int]);
            return false;
        }
        j = j + 1;
    }
    assert(line@.subrange(start as int, end as int).subrange(0, key@.len() as int) =~= key@);
    true
}

/// The value of `text[start..end]` as a cache entry, that range being one line.
fn range_value(
    text: &str,
    chars: &Vec<char>,
    start: usize,
    end: usize,
    runtime: &Vec<char>,
    executable: &Vec<char>,
) -> (r: Option<String>)
    requires
        chars@ == text@,
        start <= end <= chars@.len(),
        single_line(chars@.subrange(start as int, end as int)),
        runtime@ == RUNTIME_OUTPUT_ENTRY@,
        executable@ == EXECUTABLE_OUTPUT_ENTRY@,
    ensures
        match r {
            Some(v) => entry_value(text@.subrange(start as int, end as int)) == Some(v@),
            None => entry_value(text@.subrange(start as int, end as int)) is None,
        },
{
    let ghost line = text@.subrange(start as int, end as int);
    let from: usize;
    if begins_with(chars, start, end, runtime) {
        from = start + runtime.len();
    } else if begins_with(chars, start, end, executable) {
        from = start + executable.len();
    } else {
        return None;
    }
    let v = text.substring_char(from, end).to_owned();
    assert(v@ =~= line.skip(from - start));
    Some(v)
}

/// The value of one cache line: the text after `=` when the line is an entry
/// `CMAKE_RUNTIME_OUTPUT_DIRECTORY:STRING=...` or
/// `EXECUTABLE_OUTPUT_PATH:STRING=...`, and `None` for any other line.
pub fn cache_entry_value(line: &str) -> (r: Option<String>)
    ensures
        match r {
            Some(v) => entry_value(line@) == Some(v@),
            None => entry_value(line@) is None,
        },
{
    let chars = chars_of(line);
    let n = chars.len();
    let mut i: usize = 0;
    while i < n
        invariant
            i <= n == chars@.len(),
            chars@ == line@,
            forall|j: int| 0 <= j < i ==> chars@[j] != '\n',
        decreases n - i,
    {
        if chars[i] == '\n' {
            assert(line@[i as int] == '\n');
            return None;
        }
        i = i + 1;
    }
    let runtime = chars_of(RUNTIME_OUTPUT_ENTRY);
    let executable = chars_of(EXECUTABLE_OUTPUT_ENTRY);
    assert(line@.subrange(0, n as int) =~= line@);
    range_value(line, &chars, 0, n, &runtime, &executable)
}

/// The artifact directories that a cache dump names: the value of every
/// recognised entry, in the order of the lines.
pub fn extract_artifact_paths(text: &str) -> (r: Vec<String>)
    ensures
        string_views(r@) == artifact_paths(text@),
{
    let chars = chars_of(text);
    let runtime = chars_of(RUNTIME_OUTPUT_ENTRY);
    let executable = chars_of(EXECUTABLE_OUTPUT_ENTRY);
    let n = chars.len();
    let mut out: Vec<String> = Vec::new();
    let mut start: usize = 0;
    assert(text@.skip(0) =~= text@);
    assert(string_views(out@) + artifact_paths(text@) =~= artifact_paths(text@));
    while start < n
        invariant
            start <= n == chars@.len(),
            chars@ == text@,
            runtime@ == RUNTIME_OUTPUT_ENTRY@,
            executable@ == EXECUTABLE_OUTPUT_ENTRY@,
            string_views(out@) + artifact_paths(text@.skip(start as int)) == artifact_paths(
                text@,
            ),
        decreases n - start,
    {
        let ghost rest = text@.skip(start as int);
        let mut i: usize = start;
        while i < n && chars[i] != '\n'
            invariant
                start <= i <= n == chars@.len(),
                forall|j: int| start <= j < i ==> chars@[j] != '\n',
            decreases n - i,
        {
            i = i + 1;
        }
        proof {
            lemma_line_break(rest, i - start);
        }
        let end: usize = if i < n && i > start && chars[i - 1] == '\r' {
            i - 1
        } else {
            i
        };
        let ghost line = text@.subrange(start as int, end as int);
        proof {
            if i < n {
                assert(strip_cr(rest.take(i - start)) =~= line);
                assert(rest.skip(i - start + 1) =~= text@.skip(i + 1));
            } else {
                assert(rest =~= line);
            }
        }
        let ghost before = string_views(out@);
        match range_value(text, &chars, start, end, &runtime, &executable) {
            Some(v) => {
                out.push(v);
                assert(string_views(out@) =~= before + line_paths(line));
            },
            None => {
                assert(string_views(out@) =~= before + line_paths(line));
            },
        }
        if i < n {
            start = i + 1;
        } else {
            start = n;
        }
        proof {
            vstd::seq_lib::lemma_concat_associative(
                before,
                line_paths(line),
                artifact_paths(text@.skip(start as int)),
            );
        }
    }
    assert(text@.skip(n as int) =~= Seq::<char>::empty());
    assert(string_views(out@) =~= string_views(out@) + artifact_paths(text@.skip(n as int)));
    out
}

} // verus!
