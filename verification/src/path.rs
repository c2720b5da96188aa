//! The parts of a path that the catalogue reads: its file name and the
//! suffix of that name. A path is a sequence of characters in which `/`
//! separates the segments.

use vstd::prelude::*;
use vstd::slice::{slice_subrange, slice_to_vec};

verus! {

/// The character between the segments of a path.
pub const SEPARATOR: char = '/';

/// The character before the suffix of a file name.
pub const DOT: char = '.';

/// The position of the last `c` in `s`, or -1 where `s` holds none.
pub open spec fn last_index_of(s: Seq<char>, c: char) -> int
    decreases s.len(),
{
    if s.len() == 0 {
        -1
    } else if s.last() == c {
        s.len() - 1
    } else {
        last_index_of(s.drop_last(), c)
    }
}

/// What follows the last separator of `path`: the whole path where it has
/// no separator, nothing where it ends in one.
pub open spec fn final_segment(path: Seq<char>) -> Seq<char> {
    path.skip(last_index_of(path, SEPARATOR) + 1)
}

/// A segment names a file unless it is empty, `.` or `..`.
pub open spec fn names_a_file(segment: Seq<char>) -> bool {
    segment.len() > 0 && segment != seq![DOT] && segment != seq![DOT, DOT]
}

/// The file name of `path`: its final segment, where that names a file.
pub open spec fn file_name(path: Seq<char>) -> Option<Seq<char>> {
    if names_a_file(final_segment(path)) {
        Some(final_segment(path))
    } else {
        None
    }
}

/// The suffix of a file name: what follows its last dot, unless the name
/// has no dot or its only dot is the first character.
pub open spec fn suffix_of_name(name: Seq<char>) -> Option<Seq<char>> {
    if last_index_of(name, DOT) <= 0 {
        None
    } else {
        Some(name.skip(last_index_of(name, DOT) + 1))
    }
}

/// The suffix of the file name of `path`; none where there is no file name.
pub open spec fn suffix(path: Seq<char>) -> Option<Seq<char>> {
    match file_name(path) {
        Some(name) => suffix_of_name(name),
        None => None,
    }
}

/// `last_index_of` is the one position that holds `c` with no `c` after it.
pub proof fn lemma_last_index_of(s: Seq<char>, c: char)
    ensures
        -1 <= last_index_of(s, c) < s.len(),
        last_index_of(s, c) >= 0 ==> s[last_index_of(s, c)] == c,
        forall|j: int| last_index_of(s, c) < j < s.len() ==> s[j] != c,
    decreases s.len(),
{
    if s.len() > 0 && s.last() != c {
        lemma_last_index_of(s.drop_last(), c);
        assert forall|j: int| last_index_of(s, c) < j < s.len() implies s[j] != c by {
            if j < s.len() - 1 {
                assert(s.drop_last()[j] != c);
            }
        }
    }
}

/// The final segment of a path holds no separator, and it starts the path
/// or follows a separator: it is the path's last segment and nothing else.
pub proof fn lemma_final_segment(path: Seq<char>)
    ensures
        !final_segment(path).contains(SEPARATOR),
        final_segment(path).len() <= path.len(),
        final_segment(path) == path.skip(path.len() - final_segment(path).len()),
        final_segment(path).len() < path.len() ==> path[path.len() - final_segment(path).len() - 1]
            == SEPARATOR,
{
    lemma_last_index_of(path, SEPARATOR);
}

/// A suffix holds no dot, and the name ends in a dot followed by it.
pub proof fn lemma_suffix_of_name(name: Seq<char>)
    requires
        suffix_of_name(name) is Some,
    ensures
        !suffix_of_name(name)->0.contains(DOT),
        suffix_of_name(name)->0.len() < name.len() - 1,
        name == name.take(name.len() - suffix_of_name(name)->0.len() - 1) + seq![DOT]
            + suffix_of_name(name)->0,
{
    lemma_last_index_of(name, DOT);
}

/// The position of the last `c` in `s`.
pub fn find_last(s: &[char], c: char) -> (r: Option<usize>)
    ensures
        match r {
            Some(i) => i == last_index_of(s@, c) && i < s@.len(),
            None => last_index_of(s@, c) == -1,
        },
{
    let mut found: Option<usize> = None;
    let mut i: usize = 0;
    while i < s.len()
        invariant
            i <= s.len(),
            match found {
                Some(k) => k == last_index_of(s@.take(i as int), c),
                None => last_index_of(s@.take(i as int), c) == -1,
            },
        decreases s.len() - i,
    {
        assert(s@.take(i + 1).drop_last() == s@.take(i as int));
        if s[i] == c {
            found = Some(i);
        }
        i += 1;
    }
    proof {
        assert(s@.take(i as int) == s@);
        lemma_last_index_of(s@, c);
    }
    found
}

/// The file name of `path`, where it has one: what the path ends with
/// after its last separator.
pub fn file_name_of(path: &[char]) -> (r: Option<Vec<char>>)
    ensures
        match r {
            Some(name) => file_name(path@) == Some(name@) && !name@.contains(SEPARATOR)
                && name@.len() <= path@.len() && name@ == path@.skip(path@.len() - name@.len()),
            None => file_name(path@) is None,
        },
{
    proof {
        lemma_final_segment(path@);
    }
    let end: usize = path.len();
    let start: usize = match find_last(path, SEPARATOR) {
        Some(i) => i + 1,
        None => 0,
    };
    let segment = slice_subrange(path, start, end);
    let n = segment.len();
    if n == 0 || (n == 1 && segment[0] == DOT) || (n == 2 && segment[0] == DOT && segment[1]
        == DOT) {
        assert(!names_a_file(segment@)) by {
            if n == 1 {
                assert(segment@ =~= seq![DOT]);
            }
            if n == 2 {
                assert(segment@ =~= seq![DOT, DOT]);
            }
        }
        None
    } else {
        assert(names_a_file(segment@)) by {
            // A segment of another length than one or two is neither `.` nor `..`.
            assert(seq![DOT].len() == 1);
            assert(seq![DOT, DOT].len() == 2);
            if n == 1 {
                assert(seq![DOT][0] == DOT);
            }
            if n == 2 {
                assert(seq![DOT, DOT][0] == DOT && seq![DOT, DOT][1] == DOT);
            }
        }
        Some(slice_to_vec(segment))
    }
}

/// The suffix of the file name `name`, where it has one: what the name
/// ends with after its last dot.
pub fn suffix_of(name: &[char]) -> (r: Option<Vec<char>>)
    ensures
        match r {
            Some(s) => suffix_of_name(name@) == Some(s@) && !s@.contains(DOT) && s@.len()
                < name@.len() - 1 && name@ == name@.take(name@.len() - s@.len() - 1) + seq![DOT]
                + s@,
            None => suffix_of_name(name@) is None,
        },
{
    proof {
        if suffix_of_name(name@) is Some {
            lemma_suffix_of_name(name@);
        }
    }
    let end: usize = name.len();
    match find_last(name, DOT) {
        Some(dot) => {
            if dot == 0 {
                None
            } else {
                Some(slice_to_vec(slice_subrange(name, dot + 1, end)))
            }
        },
        None => None,
    }
}

} // verus!
