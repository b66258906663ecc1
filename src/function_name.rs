//! Names of functions taken from their `::`-separated paths.
//!
//! A function's path comes from `std::any::type_name` of an item declared
//! inside it, such as `"my_lib::my_mod::my_func::f"`; that introspection has
//! to happen at the call site, so only the text work is done here.

use vstd::prelude::*;
use vstd::string::StrSliceExecFns;

verus! {

/// The start of the last `::` separator that lies wholly within `s[..end]`.
pub open spec fn last_separator_before(s: Seq<char>, end: int) -> Option<int>
    decreases end,
{
    if end < 2 {
        None
    } else if s[end - 2] == ':' && s[end - 1] == ':' {
        Some(end - 2)
    } else {
        last_separator_before(s, end - 1)
    }
}

/// The separator reached by walking back over `more + 1` separators from
/// `end`; where fewer exist, the walk stops at the first one of the path, and
/// where none exists there is no result.
pub open spec fn walk_back(s: Seq<char>, end: int, more: nat) -> Option<int>
    decreases more,
{
    match last_separator_before(s, end) {
        None => None,
        Some(i) => if more == 0 {
            Some(i)
        } else {
            match walk_back(s, i, (more - 1) as nat) {
                None => Some(i),
                Some(j) => Some(j),
            }
        },
    }
}

/// What follows the separator that starts at `i`; where nothing follows, the
/// separator itself and what follows.
pub open spec fn after_separator(s: Seq<char>, i: int) -> Seq<char> {
    if i + 2 < s.len() {
        s.subrange(i + 2, s.len() as int)
    } else {
        s.subrange(i, s.len() as int)
    }
}

/// The last `plus + 1` segments of path `s`: the function's name, then as many
/// enclosing names as `plus` asks for. A path with no separator is returned
/// whole.
pub open spec fn tail_segments(s: Seq<char>, plus: nat) -> Seq<char> {
    match walk_back(s, s.len() as int, plus) {
        None => s,
        Some(i) => after_separator(s, i),
    }
}

/// Path `s` without its last segment; `s` itself where it has no separator.
pub open spec fn enclosing_path(s: Seq<char>) -> Seq<char> {
    match last_separator_before(s, s.len() as int) {
        None => s,
        Some(i) => s.subrange(0, i),
    }
}

/// Index form of an optional position.
pub open spec fn position(r: Option<usize>) -> Option<int> {
    match r {
        Some(i) => Some(i as int),
        None => None,
    }
}

/// Finds the last `::` separator within `path[..end]`, counting characters.
fn last_separator(path: &str, end: usize) -> (r: Option<usize>)
    requires
        end <= path@.len(),
    ensures
        position(r) == last_separator_before(path@, end as int),
        r matches Some(i) ==> i + 2 <= end,
{
    let mut e = end;
    while e >= 2
        invariant
            e <= end <= path@.len(),
            last_separator_before(path@, end as int) == last_separator_before(path@, e as int),
        decreases e,
    {
        if path.get_char(e - 2) == ':' && path.get_char(e - 1) == ':' {
            return Some(e - 2);
        }
        e = e - 1;
    }
    None
}

/// Walks back over `more + 1` separators from `end`, as `walk_back` says.
fn walk_separators(path: &str, end: usize, more: usize) -> (r: Option<usize>)
    requires
        end <= path@.len(),
    ensures
        position(r) == walk_back(path@, end as int, more as nat),
        r matches Some(i) ==> i + 2 <= end,
    decreases more,
{
    match last_separator(path, end) {
        None => None,
        Some(i) => {
            if more == 0 {
                Some(i)
            } else {
                match walk_separators(path, i, more - 1) {
                    None => Some(i),
                    Some(j) => Some(j),
                }
            }
        },
    }
}

/// The last `plus + 1` segments of a function's path: `plus == 0` gives the
/// bare name, `plus == 1` the name with its enclosing module or type, and so
/// on.
pub fn function_name_plus(path: &str, plus: usize) -> (name: &str)
    ensures
        name@ == tail_segments(path@, plus as nat),
{
    let len = path.unicode_len();
    match walk_separators(path, len, plus) {
        None => path,
        Some(i) => {
            if i + 2 < len {
                path.substring_char(i + 2, len)
            } else {
                path.substring_char(i, len)
            }
        },
    }
}

/// The bare name of a function from its path, such as `"my_func"` from
/// `"my_lib::my_mod::my_func"`.
pub fn function_name(path: &str) -> (name: &str)
    ensures
        name@ == tail_segments(path@, 0),
{
    function_name_plus(path, 0)
}

/// The full path of the function that encloses an item, from that item's
/// path: `"my_lib::my_mod::my_func"` from `"my_lib::my_mod::my_func::f"`.
pub fn function_name_full(item_path: &str) -> (path: &str)
    ensures
        path@ == enclosing_path(item_path@),
{
    let len = item_path.unicode_len();
    match last_separator(item_path, len) {
        None => item_path,
        Some(i) => item_path.substring_char(0, i),
    }
}

} // verus!
