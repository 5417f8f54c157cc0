//! Paths as text, with `/` between their parts.

use vstd::prelude::*;
use crate::text::to_chars;

verus! {

/// Whether `path` starts at the root.
pub open spec fn is_absolute(path: Seq<char>) -> bool {
    path.len() > 0 && path[0] == '/'
}

/// The path of `name` under `base`. An absolute `name` stands for itself;
/// otherwise one `/` separates the two, unless `base` is empty or already
/// ends in one.
pub open spec fn joined_path(base: Seq<char>, name: Seq<char>) -> Seq<char> {
    if is_absolute(name) {
        name
    } else if base.len() == 0 || base.last() == '/' {
        base + name
    } else {
        base + "/"@ + name
    }
}

/// `path` up to and with its last `/`; empty where it has none.
pub open spec fn directory_part(path: Seq<char>) -> Seq<char>
    decreases path.len(),
{
    if path.len() == 0 || path.last() == '/' {
        path
    } else {
        directory_part(path.drop_last())
    }
}

/// The path of the file called `name` in the directory that holds `path`.
pub open spec fn sibling_path(path: Seq<char>, name: Seq<char>) -> Seq<char> {
    joined_path(directory_part(path), name)
}

/// The path of `name` under `base`.
pub fn join_path(base: &str, name: &str) -> (path: String)
    ensures
        path@ == joined_path(base@, name@),
{
    let first = to_chars(name);
    if first.len() > 0 && first[0] == '/' {
        return String::from_str(name);
    }
    let before = to_chars(base);
    let mut path = String::from_str(base);
    if before.len() > 0 && before[before.len() - 1] != '/' {
        path.append("/");
    }
    path.append(name);
    path
}

/// The path of the file called `name` in the directory that holds `path`.
pub fn sibling(path: &str, name: &str) -> (beside: String)
    ensures
        beside@ == sibling_path(path@, name@),
{
    let chars = to_chars(path);
    let mut end: usize = chars.len();
    assert(path@.take(end as int) =~= path@);
    while end > 0 && chars[end - 1] != '/'
        invariant
            chars@ == path@,
            end <= chars.len(),
            directory_part(path@) == directory_part(path@.take(end as int)),
        decreases end,
    {
        assert(path@.take(end as int).drop_last() =~= path@.take(end - 1));
        end -= 1;
    }
    join_path(path.substring_char(0, end), name)
}

} // verus!
