//! File names that are safe on every common file system.

use vstd::prelude::*;

verus! {

/// Whether a character may not appear in a file name: one of
/// `/ \ : * ? " < > |`.
pub open spec fn is_reserved(c: char) -> bool {
    c == '/' || c == '\\' || c == ':' || c == '*' || c == '?' || c == '"' || c == '<' || c == '>'
        || c == '|'
}

/// A reserved character becomes `-`; any other character stays.
pub open spec fn clean_char(c: char) -> char {
    if is_reserved(c) {
        '-'
    } else {
        c
    }
}

/// The sanitized form of a text: each character cleaned, in order.
pub open spec fn sanitized(s: Seq<char>) -> Seq<char> {
    s.map_values(|c: char| clean_char(c))
}

/// Whether no character of the text is reserved.
pub open spec fn is_clean(s: Seq<char>) -> bool {
    forall|i: int| 0 <= i < s.len() ==> !is_reserved(#[trigger] s[i])
}

fn replace_reserved(c: char) -> (r: char)
    ensures
        r == clean_char(c),
{
    if c == '/' || c == '\\' || c == ':' || c == '*' || c == '?' || c == '"' || c == '<' || c == '>'
        || c == '|' {
        '-'
    } else {
        c
    }
}

/// Replaces every reserved character of `filename` by `-` and keeps all
/// others, whatever their script. The length is not limited.
pub fn sanitize_filename(filename: &str) -> (clean: String)
    ensures
        clean@ == sanitized(filename@),
        clean@.len() == filename@.len(),
        is_clean(clean@),
{
    let mut clean = String::new();
    for c in it: filename.chars()
        invariant
            it.seq() == filename@,
            clean@ == sanitized(filename@.take(it.index() as int)),
    {
        proof {
            let k = it.index() as int;
            assert(filename@.take(k + 1) == filename@.take(k).push(filename@[k]));
            assert(sanitized(filename@.take(k + 1)) == sanitized(filename@.take(k)).push(
                clean_char(filename@[k]),
            ));
        }
        clean.push(replace_reserved(c));
    }
    proof {
        assert(filename@.take(filename@.len() as int) == filename@);
    }
    clean
}

/// The index of the last occurrence of `c` in `s`, if it occurs.
pub open spec fn last_index(s: Seq<char>, c: char) -> Option<int>
    decreases s.len(),
{
    if s.len() == 0 {
        None
    } else if s.last() == c {
        Some(s.len() - 1)
    } else {
        last_index(s.drop_last(), c)
    }
}

/// The index at which the last segment of a path begins: after its last
/// `/`, or at the beginning when it has none.
pub open spec fn segment_start(path: Seq<char>) -> int {
    match last_index(path, '/') {
        Some(i) => i + 1,
        None => 0,
    }
}

/// Whether a segment can name a file: it is neither empty nor `.`.
pub open spec fn names_file(segment: Seq<char>) -> bool {
    segment.len() > 0 && segment != seq!['.']
}

/// Where the file name of a path lies, as its first index and the index
/// past its last: it is the last segment that is neither empty nor `.`, so
/// that separators and `.` segments at the end of a path do not count.
pub open spec fn name_span(path: Seq<char>) -> Option<(int, int)>
    decreases path.len(),
{
    let start = segment_start(path);
    if names_file(path.skip(start)) {
        Some((start, path.len() as int))
    } else if 0 < start <= path.len() {
        name_span(path.take(start - 1))
    } else {
        None
    }
}

/// The file name of a path, if it has one.
pub open spec fn file_name(path: Seq<char>) -> Option<Seq<char>> {
    match name_span(path) {
        Some((start, end)) => Some(path.subrange(start, end)),
        None => None,
    }
}

/// The extension of a file name: what follows its last `.`. There is none
/// when the name has no `.`, when its only `.` is its first character, and
/// for the name `..`.
pub open spec fn name_extension(name: Seq<char>) -> Option<Seq<char>> {
    match last_index(name, '.') {
        Some(i) => if i == 0 || name == seq!['.', '.'] {
            None
        } else {
            Some(name.skip(i + 1))
        },
        None => None,
    }
}

/// The extension of a path: that of its file name.
pub open spec fn extension_of(path: Seq<char>) -> Option<Seq<char>> {
    match file_name(path) {
        Some(name) => name_extension(name),
        None => None,
    }
}

/// `last_index` finds an occurrence after which there is no other, and
/// finds none only where there is none.
pub proof fn lemma_last_index(s: Seq<char>, c: char)
    ensures
        match last_index(s, c) {
            Some(i) => 0 <= i < s.len() && s[i] == c && forall|j: int|
                i < j < s.len() ==> s[j] != c,
            None => forall|j: int| 0 <= j < s.len() ==> s[j] != c,
        },
    decreases s.len(),
{
    if s.len() > 0 && s.last() != c {
        let front = s.drop_last();
        lemma_last_index(front, c);
        assert(forall|j: int| 0 <= j < front.len() ==> front[j] == s[j]);
        match last_index(front, c) {
            Some(i) => {
                assert forall|j: int| i < j < s.len() implies s[j] != c by {
                    if j < front.len() {
                        assert(front[j] != c);
                    }
                }
            },
            None => {
                assert forall|j: int| 0 <= j < s.len() implies s[j] != c by {
                    if j < front.len() {
                        assert(front[j] != c);
                    }
                }
            },
        }
    }
}

/// An index with `c` after which `c` does not occur is the last index.
pub proof fn lemma_last_index_is(s: Seq<char>, c: char, i: int)
    requires
        0 <= i < s.len(),
        s[i] == c,
        forall|j: int| i < j < s.len() ==> s[j] != c,
    ensures
        last_index(s, c) == Some(i),
{
    lemma_last_index(s, c);
}

/// Where `c` does not occur, there is no last index.
pub proof fn lemma_last_index_none(s: Seq<char>, c: char)
    requires
        forall|j: int| 0 <= j < s.len() ==> s[j] != c,
    ensures
        last_index(s, c).is_none(),
{
    lemma_last_index(s, c);
}

/// Whether `index` is what `last_index` found.
spec fn is_found(index: Option<usize>, found: Option<int>) -> bool {
    match index {
        Some(k) => found == Some(k as int),
        None => found.is_none(),
    }
}

/// Whether the segment from `start` to `end` of `path` names a file, given
/// the last `.` before `end`.
fn segment_names_file(
    Ghost(path): Ghost<Seq<char>>,
    start: usize,
    end: usize,
    dot: Option<usize>,
) -> (names: bool)
    requires
        start <= end <= path.len(),
        is_found(dot, last_index(path.take(end as int), '.')),
    ensures
        names == names_file(path.subrange(start as int, end as int)),
{
    let ghost segment = path.subrange(start as int, end as int);
    proof {
        lemma_last_index(path.take(end as int), '.');
    }
    if end == start {
        false
    } else if end - start == 1 {
        match dot {
            Some(d) => {
                if d == start {
                    assert(segment =~= seq!['.']);
                    false
                } else {
                    assert(segment[0] != '.');
                    true
                }
            },
            None => {
                assert(segment[0] == path.take(end as int)[start as int]);
                true
            },
        }
    } else {
        true
    }
}

/// One more character moves the last index to it or leaves it.
proof fn lemma_last_index_step(path: Seq<char>, i: int, c: char)
    requires
        0 <= i < path.len(),
    ensures
        last_index(path.take(i + 1), c) == if path[i] == c {
            Some(i)
        } else {
            last_index(path.take(i), c)
        },
{
    assert(path.take(i + 1).drop_last() == path.take(i));
}

/// The file name of the path before a `/`: the segment that the `/` ends,
/// if it names a file, else the file name of what lies before the segment.
proof fn lemma_name_span_before_slash(path: Seq<char>, i: int, start: int)
    requires
        0 <= start <= i <= path.len(),
        start == segment_start(path.take(i)),
    ensures
        name_span(path.take(i)) == if names_file(path.subrange(start, i)) {
            Some((start, i))
        } else if start > 0 {
            name_span(path.take(start - 1))
        } else {
            None
        },
{
    let before = path.take(i);
    assert(before.skip(start) == path.subrange(start, i));
    if start > 0 {
        assert(before.take(start - 1) == path.take(start - 1));
    }
}

/// The span that was found, as a mathematical value.
spec fn span_of(found: Option<(usize, usize, Option<usize>)>) -> Option<(int, int)> {
    match found {
        Some((first, end, _)) => Some((first as int, end as int)),
        None => None,
    }
}

/// Whether what was found lies in `path` before `limit` and carries the
/// last `.` before its end.
spec fn is_span(found: Option<(usize, usize, Option<usize>)>, path: Seq<char>, limit: int) -> bool {
    match found {
        Some((first, end, last_dot)) => {
            &&& first < end <= limit <= path.len()
            &&& is_found(last_dot, last_index(path.take(end as int), '.'))
        },
        None => true,
    }
}

/// The extension of the file name that lies from `first` to `end` in
/// `path`, given the last `.` before `end`.
fn span_extension(path: &str, first: usize, end: usize, last_dot: Option<usize>) -> (extension:
    Option<String>)
    requires
        first < end <= path@.len(),
        is_found(last_dot, last_index(path@.take(end as int), '.')),
    ensures
        match extension {
            Some(e) => name_extension(path@.subrange(first as int, end as int)) == Some(e@),
            None => name_extension(path@.subrange(first as int, end as int)).is_none(),
        },
{
    let ghost name = path@.subrange(first as int, end as int);
    let ghost front = path@.take(end as int);
    proof {
        lemma_last_index(front, '.');
        assert(forall|j: int| 0 <= j < name.len() ==> name[j] == front[first + j]);
    }
    match last_dot {
        Some(d) => {
            if d < first {
                proof {
                    lemma_last_index_none(name, '.');
                }
                None
            } else {
                proof {
                    assert(name[d - first] == front[d as int]);
                    lemma_last_index_is(name, '.', d - first);
                }
                if d == first {
                    None
                } else if end - first == 2 && path.get_char(first) == '.' {
                    assert(name =~= seq!['.', '.']);
                    None
                } else {
                    assert(name != seq!['.', '.']) by {
                        if name == seq!['.', '.'] {
                            assert(name.len() == 2);
                            assert(name[0] == '.');
                        }
                    }
                    let extension = path.substring_char(d + 1, end).to_owned();
                    assert(extension@ == name.skip(d - first + 1));
                    Some(extension)
                }
            }
        },
        None => {
            proof {
                lemma_last_index_none(name, '.');
            }
            None
        },
    }
}

/// The extension of `path`, without its dot, as [`extension_of`] defines it.
pub fn file_extension(path: &str) -> (extension: Option<String>)
    ensures
        match extension {
            Some(e) => extension_of(path@) == Some(e@),
            None => extension_of(path@).is_none(),
        },
{
    let n: usize = path.unicode_len();
    let mut start: usize = 0;
    let mut dot: Option<usize> = None;
    let mut found: Option<(usize, usize, Option<usize>)> = None;
    let mut i: usize = 0;
    for c in it: path.chars()
        invariant
            it.seq() == path@,
            n == path@.len(),
            i == it.index(),
            start <= i,
            start == segment_start(path@.take(i as int)),
            is_found(dot, last_index(path@.take(i as int), '.')),
            is_span(found, path@, start as int),
            span_of(found) == if start > 0 {
                name_span(path@.take(start - 1))
            } else {
                None
            },
    {
        proof {
            lemma_last_index_step(path@, i as int, '/');
            lemma_last_index_step(path@, i as int, '.');
        }
        if c == '/' {
            proof {
                lemma_name_span_before_slash(path@, i as int, start as int);
            }
            if segment_names_file(Ghost(path@), start, i, dot) {
                found = Some((start, i, dot));
            }
            start = i + 1;
        }
        if c == '.' {
            dot = Some(i);
        }
        i = i + 1;
    }
    proof {
        assert(path@.take(n as int) == path@);
        lemma_name_span_before_slash(path@, n as int, start as int);
    }
    let span = if segment_names_file(Ghost(path@), start, n, dot) {
        Some((start, n, dot))
    } else {
        found
    };
    assert(span_of(span) == name_span(path@));
    match span {
        Some((first, end, last_dot)) => span_extension(path, first, end, last_dot),
        None => None,
    }
}

/// Sanitizing is idempotent: a second pass changes nothing.
pub proof fn lemma_sanitize_idempotent(s: Seq<char>)
    ensures
        sanitized(sanitized(s)) == sanitized(s),
{
    assert(sanitized(sanitized(s)) =~= sanitized(s));
}

/// A sanitized text holds no reserved character.
pub proof fn lemma_sanitized_is_clean(s: Seq<char>)
    ensures
        is_clean(sanitized(s)),
{
}

/// A text without reserved characters is left as it is.
pub proof fn lemma_sanitize_keeps_clean(s: Seq<char>)
    requires
        is_clean(s),
    ensures
        sanitized(s) == s,
{
    assert(sanitized(s) =~= s);
}

} // verus!
