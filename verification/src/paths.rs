//! Slash paths: paths written as text with `/` between their names, whatever
//! the platform's own separator is.
//!
//! A path is read by its components. A leading `/` is the root directory.
//! Between separators stand names; separators that follow one another count
//! as one, and a `.` that stands alone behind a separator leads nowhere and
//! is passed over. A `.` at the very beginning is a name like any other, and
//! so is `..` everywhere.

use vstd::prelude::*;
use vstd::string::*;

verus! {

/// Why a path has no form relative to a root.
#[derive(Clone, Copy, Debug, PartialEq, Eq, Structural)]
pub enum PathError {
    /// The components of the path do not begin with those of the root.
    NotUnderRoot,
}

/// Whether the path begins at the root directory.
pub open spec fn is_absolute(path: Seq<char>) -> bool {
    path.len() > 0 && path[0] == '/'
}

/// Whether the character at `at` is a `.` that stands alone between two
/// separators, or between a separator and the end.
pub open spec fn is_idle_dot(path: Seq<char>, at: int) -> bool {
    &&& 0 < at < path.len()
    &&& path[at] == '.'
    &&& path[at - 1] == '/'
    &&& (at + 1 == path.len() || path[at + 1] == '/')
}

/// Whether the character at `at` belongs to a name.
pub open spec fn in_name(path: Seq<char>, at: int) -> bool {
    0 <= at < path.len() && path[at] != '/' && !is_idle_dot(path, at)
}

/// Where the first name at or behind `from` begins; the path's length if
/// there is none.
pub open spec fn next_name(path: Seq<char>, from: int) -> int
    decreases path.len() - from,
{
    if 0 <= from < path.len() && !in_name(path, from) {
        next_name(path, from + 1)
    } else {
        from
    }
}

/// Where the name that begins at `from` ends: at the next separator, or at
/// the path's end.
pub open spec fn name_end(path: Seq<char>, from: int) -> int
    decreases path.len() - from,
{
    if 0 <= from < path.len() && path[from] != '/' {
        name_end(path, from + 1)
    } else {
        from
    }
}

/// Where the name that ends at `end` begins.
pub open spec fn name_start(path: Seq<char>, end: int) -> int
    decreases end,
{
    if 0 < end <= path.len() && path[end - 1] != '/' {
        name_start(path, end - 1)
    } else {
        end
    }
}

/// Where the last name among the first `upto` characters ends; 0 if there
/// is none.
pub open spec fn names_end(path: Seq<char>, upto: int) -> int
    decreases upto,
{
    if upto <= 0 {
        0
    } else if in_name(path, upto - 1) {
        upto
    } else {
        names_end(path, upto - 1)
    }
}

/// The next name begins at or behind `from`, within the path.
pub proof fn lemma_next_name_bounds(path: Seq<char>, from: int)
    requires
        0 <= from <= path.len(),
    ensures
        from <= next_name(path, from) <= path.len(),
        next_name(path, from) < path.len() ==> in_name(path, next_name(path, from)),
    decreases path.len() - from,
{
    if from < path.len() && !in_name(path, from) {
        lemma_next_name_bounds(path, from + 1);
    }
}

/// A name ends at or behind where it begins, within the path.
pub proof fn lemma_name_end_bounds(path: Seq<char>, from: int)
    requires
        0 <= from <= path.len(),
    ensures
        from <= name_end(path, from) <= path.len(),
        from < path.len() && path[from] != '/' ==> from < name_end(path, from),
    decreases path.len() - from,
{
    if from < path.len() && path[from] != '/' {
        lemma_name_end_bounds(path, from + 1);
    }
}

/// Where in `path` the names of `root` from `at` on end, if the names of
/// `path` from `from` on begin with them: each name of the root is the name
/// that the path has in the same place. `at` and `from` are where a name
/// begins, or the end.
pub open spec fn prefix_end(root: Seq<char>, at: int, path: Seq<char>, from: int) -> Option<int>
    decreases root.len() - at,
{
    if 0 <= at < root.len() && 0 <= from <= path.len() {
        let root_stop = name_end(root, at);
        let path_stop = name_end(path, from);
        if at < root_stop && root.subrange(at, root_stop) == path.subrange(from, path_stop) {
            proof {
                lemma_name_end_bounds(root, at);
                lemma_next_name_bounds(root, root_stop);
            }
            prefix_end(root, next_name(root, root_stop), path, next_name(path, path_stop))
        } else {
            None
        }
    } else {
        Some(from)
    }
}

/// Whether the components of `path` begin with those of `root`: if the root
/// begins at the root directory, so does the path; if the path does and the
/// root does not, the root has no name at all; and the names of the path
/// begin with the names of the root.
pub open spec fn starts_with_root(root: Seq<char>, path: Seq<char>) -> bool {
    &&& is_absolute(root) ==> is_absolute(path)
    &&& is_absolute(path) && !is_absolute(root) ==> next_name(root, 0) >= root.len()
    &&& prefix_end(root, next_name(root, 0), path, next_name(path, 0)) is Some
}

/// The path relative to the root, for a path whose components begin with
/// those of the root: the text of the path from its first name behind the
/// root's names to the end of its last name, and the empty text if nothing
/// is left. Against a root without any component the whole path is left,
/// with its leading separator.
pub open spec fn relative_of(root: Seq<char>, path: Seq<char>) -> Option<Seq<char>> {
    if starts_with_root(root, path) {
        let rest = prefix_end(root, next_name(root, 0), path, next_name(path, 0))->0;
        let start = if is_absolute(path) && !is_absolute(root) {
            0
        } else {
            rest
        };
        let end = if is_absolute(path) && names_end(path, path.len() as int) == 0 {
            1
        } else {
            names_end(path, path.len() as int)
        };
        if start < end {
            Some(path.subrange(start, end))
        } else {
            Some(Seq::empty())
        }
    } else {
        None
    }
}

/// The directory that holds what a path names: the path up to the end of the
/// name before its last name. A single name lies in the directory with the
/// empty path, or in the root directory if the path begins there. A path
/// without any name (the empty path, the root directory) has no parent.
pub open spec fn parent_of(path: Seq<char>) -> Option<Seq<char>> {
    let end = names_end(path, path.len() as int);
    if end == 0 {
        None
    } else {
        let before = names_end(path, name_start(path, end));
        if before > 0 {
            Some(path.subrange(0, before))
        } else if is_absolute(path) {
            Some(path.subrange(0, 1))
        } else {
            Some(Seq::empty())
        }
    }
}

/// Whether the character at `at` belongs to a name.
fn char_in_name(path: &str, len: usize, at: usize) -> (yes: bool)
    requires
        len == path@.len(),
        at < len,
    ensures
        yes == in_name(path@, at as int),
{
    let c = path.get_char(at);
    if c == '/' {
        false
    } else if c != '.' || at == 0 {
        true
    } else if path.get_char(at - 1) != '/' {
        true
    } else if at + 1 == len {
        false
    } else {
        path.get_char(at + 1) != '/'
    }
}

/// Finds where the first name at or behind `from` begins.
fn find_next_name(path: &str, len: usize, from: usize) -> (at: usize)
    requires
        len == path@.len(),
        from <= len,
    ensures
        at == next_name(path@, from as int),
        from <= at <= len,
{
    let mut at: usize = from;
    while at < len && !char_in_name(path, len, at)
        invariant
            len == path@.len(),
            from <= at <= len,
            next_name(path@, from as int) == next_name(path@, at as int),
        decreases len - at,
    {
        at = at + 1;
    }
    at
}

/// Finds where the name that begins at `from` ends.
fn find_name_end(path: &str, len: usize, from: usize) -> (at: usize)
    requires
        len == path@.len(),
        from <= len,
    ensures
        at == name_end(path@, from as int),
        from <= at <= len,
{
    let mut at: usize = from;
    while at < len && path.get_char(at) != '/'
        invariant
            len == path@.len(),
            from <= at <= len,
            name_end(path@, from as int) == name_end(path@, at as int),
        decreases len - at,
    {
        at = at + 1;
    }
    at
}

/// Finds where the name that ends at `end` begins.
fn find_name_start(path: &str, len: usize, end: usize) -> (at: usize)
    requires
        len == path@.len(),
        end <= len,
    ensures
        at == name_start(path@, end as int),
        at <= end,
{
    let mut at: usize = end;
    while at > 0 && path.get_char(at - 1) != '/'
        invariant
            len == path@.len(),
            at <= end <= len,
            name_start(path@, end as int) == name_start(path@, at as int),
        decreases at,
    {
        at = at - 1;
    }
    at
}

/// Finds where the last name among the first `upto` characters ends.
fn find_names_end(path: &str, len: usize, upto: usize) -> (at: usize)
    requires
        len == path@.len(),
        upto <= len,
    ensures
        at == names_end(path@, upto as int),
        at <= upto,
{
    let mut at: usize = upto;
    while at > 0 && !char_in_name(path, len, at - 1)
        invariant
            len == path@.len(),
            at <= upto <= len,
            names_end(path@, upto as int) == names_end(path@, at as int),
        decreases at,
    {
        at = at - 1;
    }
    at
}

/// Whether two stretches of two paths hold the same text.
fn same_text(
    first: &str,
    first_from: usize,
    first_to: usize,
    second: &str,
    second_from: usize,
    second_to: usize,
) -> (yes: bool)
    requires
        first_from <= first_to <= first@.len(),
        second_from <= second_to <= second@.len(),
        first_to <= usize::MAX,
        second_to <= usize::MAX,
    ensures
        yes == (first@.subrange(first_from as int, first_to as int) == second@.subrange(
            second_from as int,
            second_to as int,
        )),
{
    let ghost one = first@.subrange(first_from as int, first_to as int);
    let ghost two = second@.subrange(second_from as int, second_to as int);
    if first_to - first_from != second_to - second_from {
        assert(one.len() != two.len());
        return false;
    }
    let count: usize = first_to - first_from;
    let mut done: usize = 0;
    while done < count
        invariant
            done <= count,
            count == first_to - first_from,
            count == second_to - second_from,
            first_from <= first_to <= first@.len(),
            second_from <= second_to <= second@.len(),
            one == first@.subrange(first_from as int, first_to as int),
            two == second@.subrange(second_from as int, second_to as int),
            forall|i: int| 0 <= i < done ==> one[i] == two[i],
        decreases count - done,
    {
        if first.get_char(first_from + done) != second.get_char(second_from + done) {
            assert(one[done as int] != two[done as int]);
            return false;
        }
        done = done + 1;
    }
    assert(one =~= two);
    true
}

/// The directory that holds what a slash path names.
///
/// The last name of the path is left off, with the separators before it. A
/// path of one name has the empty path for its parent, or `/` if it begins
/// at the root directory. A path without any name has none.
pub fn parent_dir(path: &str) -> (parent: Option<String>)
    ensures
        parent matches Some(dir) ==> parent_of(path@) == Some(dir@),
        parent is None ==> parent_of(path@) is None,
{
    let len: usize = path.unicode_len();
    let end: usize = find_names_end(path, len, len);
    if end == 0 {
        return None;
    }
    let start: usize = find_name_start(path, len, end);
    let before: usize = find_names_end(path, len, start);
    if before > 0 {
        Some(path.substring_char(0, before).to_owned())
    } else if path.get_char(0) == '/' {
        Some(path.substring_char(0, 1).to_owned())
    } else {
        Some(String::new())
    }
}

/// Splits the path relative to `root` out of a slash path.
///
/// The path has a relative form exactly when its components begin with
/// those of the root. The relative path is what the path holds behind them,
/// without separators before or after it; it is empty where the path names
/// the root itself. Neither path needs to exist: only the two texts count.
pub fn relative_slash_path(root: &str, path: &str) -> (relative: Result<String, PathError>)
    ensures
        relative is Ok <==> starts_with_root(root@, path@),
        relative matches Ok(rest) ==> relative_of(root@, path@) == Some(rest@),
        relative matches Err(error) ==> relative_of(root@, path@) is None && error
            == PathError::NotUnderRoot,
{
    let root_len: usize = root.unicode_len();
    let path_len: usize = path.unicode_len();
    let root_absolute = root_len > 0 && root.get_char(0) == '/';
    let path_absolute = path_len > 0 && path.get_char(0) == '/';
    let first: usize = find_next_name(root, root_len, 0);
    let begin: usize = find_next_name(path, path_len, 0);
    if root_absolute && !path_absolute {
        return Err(PathError::NotUnderRoot);
    }
    if path_absolute && !root_absolute && first < root_len {
        return Err(PathError::NotUnderRoot);
    }
    let mut at: usize = first;
    let mut from: usize = begin;
    while at < root_len
        invariant
            root_len == root@.len(),
            path_len == path@.len(),
            at <= root_len,
            from <= path_len,
            first == next_name(root@, 0),
            begin == next_name(path@, 0),
            prefix_end(root@, first as int, path@, begin as int) == prefix_end(
                root@,
                at as int,
                path@,
                from as int,
            ),
        decreases root_len - at,
    {
        let root_stop: usize = find_name_end(root, root_len, at);
        let path_stop: usize = find_name_end(path, path_len, from);
        if root_stop > at && same_text(root, at, root_stop, path, from, path_stop) {
            at = find_next_name(root, root_len, root_stop);
            from = find_next_name(path, path_len, path_stop);
        } else {
            return Err(PathError::NotUnderRoot);
        }
    }
    let start: usize = if path_absolute && !root_absolute {
        0
    } else {
        from
    };
    let last: usize = find_names_end(path, path_len, path_len);
    let end: usize = if path_absolute && last == 0 {
        1
    } else {
        last
    };
    if start < end {
        Ok(path.substring_char(start, end).to_owned())
    } else {
        Ok(String::new())
    }
}

/// A path relative to itself is the empty path: every path's components
/// begin with its own, and nothing is left behind them.
pub proof fn lemma_root_is_under_itself(root: Seq<char>)
    ensures
        relative_of(root, root) == Some(Seq::<char>::empty()),
{
    lemma_next_name_bounds(root, 0);
    lemma_prefix_of_itself(root, next_name(root, 0));
    lemma_names_end_bounds(root, root.len() as int);
}

/// From the beginning of any of its names on, a path's names begin with
/// themselves and end at the path's end.
proof fn lemma_prefix_of_itself(path: Seq<char>, at: int)
    requires
        0 <= at <= path.len(),
        at < path.len() ==> in_name(path, at),
    ensures
        prefix_end(path, at, path, at) == Some(path.len() as int),
    decreases path.len() - at,
{
    if at < path.len() {
        lemma_name_end_bounds(path, at);
        lemma_next_name_bounds(path, name_end(path, at));
        lemma_prefix_of_itself(path, next_name(path, name_end(path, at)));
    }
}

/// The last name ends within the stretch that was searched, and no
/// character behind its end belongs to a name.
pub proof fn lemma_names_end_bounds(path: Seq<char>, upto: int)
    requires
        0 <= upto <= path.len(),
    ensures
        0 <= names_end(path, upto) <= upto,
        forall|i: int| names_end(path, upto) <= i < upto ==> !in_name(path, i),
    decreases upto,
{
    if upto > 0 && !in_name(path, upto - 1) {
        lemma_names_end_bounds(path, upto - 1);
    }
}

} // verus!
