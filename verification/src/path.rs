//! Paths as text: the final segment of a path and its extension.
//!
//! A path is a sequence of characters in which `/` separates the segments.
//! Empty segments and `.` segments carry no name, so `a/b`, `a/b/`, `a//b`
//! and `a/b/.` all end in the segment `b`. A path that ends in `..`, or that
//! holds no named segment at all (the empty path, `/`, `.`), has no final
//! segment.
use crate::text::{chars_of, occurs_at, text_view};
use vstd::prelude::*;

verus! {

/// `path[start..end]` is a segment that names something: it reaches from one
/// separator, or from the start of the path, to the next separator, or to the
/// end of the path; it is not empty; and it is neither `.` nor `..`.
pub open spec fn is_name_at(path: Seq<char>, start: int, end: int) -> bool {
    &&& 0 <= start < end <= path.len()
    &&& start == 0 || path[start - 1] == '/'
    &&& end == path.len() || path[end] == '/'
    &&& forall|i: int| start <= i < end ==> path[i] != '/'
    &&& path.subrange(start, end) != seq!['.']
    &&& path.subrange(start, end) != seq!['.', '.']
}

/// From `from` on, `path` holds nothing with a name: every character is a
/// separator, or a dot that stands first in its segment. Two dots in a row
/// do not both stand first, so what is left are empty segments and `.`
/// segments.
pub open spec fn nameless_from(path: Seq<char>, from: int) -> bool {
    forall|i: int|
        from <= i < path.len() ==> #[trigger] path[i] == '/' || (path[i] == '.' && (i == 0
            || path[i - 1] == '/'))
}

/// `path[start..end]` is the final segment of `path`: it names something, and
/// nothing behind it does.
pub open spec fn is_final_segment(path: Seq<char>, start: int, end: int) -> bool {
    is_name_at(path, start, end) && nameless_from(path, end)
}

/// The final segment of `path`: the name of the file or directory that the
/// path leads to, if it ends in one.
pub open spec fn final_segment(path: Seq<char>) -> Option<Seq<char>> {
    if exists|start: int, end: int| is_final_segment(path, start, end) {
        let (start, end) = choose|start: int, end: int| is_final_segment(path, start, end);
        Some(path.subrange(start, end))
    } else {
        None
    }
}

/// The extension of a file name: what follows its last `.`, unless the name
/// has no `.` or its only `.` is the first character.
pub open spec fn name_extension(name: Seq<char>) -> Option<Seq<char>> {
    match name.index_of_last('.') {
        Some(dot) => if dot > 0 {
            Some(name.skip(dot + 1))
        } else {
            None
        },
        None => None,
    }
}

/// The extension of the final segment of `path`.
pub open spec fn path_extension(path: Seq<char>) -> Option<Seq<char>> {
    match final_segment(path) {
        Some(name) => name_extension(name),
        None => None,
    }
}

/// A name ends in a character that is neither a separator nor a dot that
/// stands first in its segment.
proof fn lemma_name_ends_in_its_own_character(path: Seq<char>, start: int, end: int)
    requires
        is_name_at(path, start, end),
    ensures
        path[end - 1] != '/',
        !(path[end - 1] == '.' && (end == 1 || path[end - 2] == '/')),
{
    let name = path.subrange(start, end);
    if path[end - 1] == '.' && (end == 1 || path[end - 2] == '/') {
        if start < end - 1 {
            assert(path[end - 2] != '/');
        } else {
            assert(name =~= seq!['.']);
        }
    }
}

/// A path has at most one final segment.
pub proof fn lemma_final_segment_is_unique(
    path: Seq<char>,
    start: int,
    end: int,
    other_start: int,
    other_end: int,
)
    requires
        is_final_segment(path, start, end),
        is_final_segment(path, other_start, other_end),
    ensures
        start == other_start,
        end == other_end,
{
    lemma_name_ends_in_its_own_character(path, start, end);
    lemma_name_ends_in_its_own_character(path, other_start, other_end);
    if end < other_end {
        assert(path[other_end - 1] == '/' || (path[other_end - 1] == '.' && (other_end - 1 == 0
            || path[other_end - 2] == '/')));
    }
    if other_end < end {
        assert(path[end - 1] == '/' || (path[end - 1] == '.' && (end - 1 == 0 || path[end - 2]
            == '/')));
    }
    if start < other_start {
        assert(path[other_start - 1] == '/');
    }
    if other_start < start {
        assert(path[start - 1] == '/');
    }
}

/// The segment that is found to be final is the final segment.
pub proof fn lemma_final_segment_found(path: Seq<char>, start: int, end: int)
    requires
        is_final_segment(path, start, end),
    ensures
        final_segment(path) == Some(path.subrange(start, end)),
{
    let (found_start, found_end) = choose|s: int, e: int| is_final_segment(path, s, e);
    lemma_final_segment_is_unique(path, start, end, found_start, found_end);
}

/// A final segment is a piece of the path that starts the path or follows a
/// separator, holds at least one character and no separator, and is neither
/// `.` nor `..`.
pub proof fn lemma_final_segment_is_a_name(path: Seq<char>)
    ensures
        final_segment(path) matches Some(name) ==> {
            &&& name.len() > 0
            &&& !name.contains('/')
            &&& name != seq!['.']
            &&& name != seq!['.', '.']
            &&& exists|start: int|
                #[trigger] occurs_at(path, name, start) && (start == 0 || path[start - 1] == '/')
        },
{
    if final_segment(path) is Some {
        let (start, end) = choose|s: int, e: int| is_final_segment(path, s, e);
        let name = path.subrange(start, end);
        assert(name.len() == end - start);
        assert(occurs_at(path, name, start));
        if name.contains('/') {
            let i = choose|i: int| 0 <= i < name.len() && name[i] == '/';
            assert(path[start + i] == '/');
        }
    }
}

/// A path that holds nothing with a name has no final segment.
proof fn lemma_nameless_path(path: Seq<char>)
    requires
        nameless_from(path, 0),
    ensures
        final_segment(path) is None,
{
    assert forall|start: int, end: int| !is_final_segment(path, start, end) by {
        if is_final_segment(path, start, end) {
            lemma_name_ends_in_its_own_character(path, start, end);
        }
    }
}

/// A path whose last segment with a name of any kind is `..` has no final
/// segment.
proof fn lemma_path_ends_in_parent(path: Seq<char>, end: int)
    requires
        2 <= end <= path.len(),
        path[end - 1] == '.',
        path[end - 2] == '.',
        end == 2 || path[end - 3] == '/',
        nameless_from(path, end),
    ensures
        final_segment(path) is None,
{
    assert forall|s: int, e: int| !is_final_segment(path, s, e) by {
        if is_final_segment(path, s, e) {
            lemma_name_ends_in_its_own_character(path, s, e);
            if e > end {
                assert(path[e - 1] == '/' || (path[e - 1] == '.' && (e - 1 == 0 || path[e - 2]
                    == '/')));
            } else if e == end {
                if s < end - 2 {
                    assert(path[end - 3] != '/');
                } else if s == end - 2 {
                    assert(path.subrange(s, e) =~= seq!['.', '.']);
                } else {
                    assert(path[s - 1] == '/');
                }
            } else if e == end - 1 {
                assert(path[e] == '/');
            } else {
                assert(path[end - 1] == '/' || (path[end - 1] == '.' && (end - 1 == 0 || path[end
                    - 2] == '/')));
            }
        }
    }
}

/// The final segment of `path`. It is the name that
/// `std::path::Path::file_name` finds in a path that `/` separates.
pub fn file_name(path: &str) -> (name: Option<&str>)
    ensures
        text_view(name) == final_segment(path@),
{
    let chars = chars_of(path);
    let mut end: usize = chars.len();
    while end > 0 && (chars[end - 1] == '/' || (chars[end - 1] == '.' && (end == 1 || chars[end
        - 2] == '/')))
        invariant
            end <= chars.len(),
            chars@ == path@,
            nameless_from(path@, end as int),
        decreases end,
    {
        end -= 1;
    }
    if end == 0 {
        proof {
            lemma_nameless_path(path@);
        }
        return None;
    }
    let mut start: usize = end;
    while start > 0 && chars[start - 1] != '/'
        invariant
            start <= end <= chars.len(),
            chars@ == path@,
            forall|i: int| start <= i < end ==> path@[i] != '/',
        decreases start,
    {
        start -= 1;
    }
    let ghost name = path@.subrange(start as int, end as int);
    if end - start == 2 && chars[start] == '.' && chars[start + 1] == '.' {
        proof {
            lemma_path_ends_in_parent(path@, end as int);
        }
        return None;
    }
    proof {
        if name == seq!['.'] {
            assert(name.len() == 1);
            assert(name[0] == '.');
        }
        if name == seq!['.', '.'] {
            assert(name.len() == 2);
            assert(name[0] == '.' && name[1] == '.');
        }
        if end < path@.len() {
            assert(path@[end as int] == '/' || (path@[end as int] == '.' && path@[end - 1]
                == '/'));
        }
        lemma_final_segment_found(path@, start as int, end as int);
    }
    Some(path.substring_char(start, end))
}

/// The extension of the final segment of `path`, without the `.` before it.
/// It is the extension that `std::path::Path::extension` finds in a path that
/// `/` separates.
pub fn extension(path: &str) -> (ext: Option<&str>)
    ensures
        text_view(ext) == path_extension(path@),
{
    match file_name(path) {
        Some(name) => {
            let chars = chars_of(name);
            let mut dot: usize = chars.len();
            while dot > 0 && chars[dot - 1] != '.'
                invariant
                    dot <= chars.len(),
                    chars@ == name@,
                    forall|j: int| dot <= j < chars.len() ==> chars[j] != '.',
                decreases dot,
            {
                dot -= 1;
            }
            proof {
                name@.index_of_last_ensures('.');
                if dot > 0 {
                    assert(name@[dot - 1] == '.');
                    assert(name@.contains('.'));
                    assert(name@.index_of_last('.') == Some(dot - 1));
                } else {
                    assert(!name@.contains('.'));
                }
            }
            if dot > 1 {
                assert(name@.skip(dot as int) =~= name@.subrange(dot as int, name@.len() as int));
                Some(name.substring_char(dot, chars.len()))
            } else {
                None
            }
        },
        None => None,
    }
}

} // verus!
