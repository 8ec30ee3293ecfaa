//! How a directory and an entry name are put together into a path.

use vstd::prelude::*;
use vstd::string::StringExecFns;

verus! {

/// The separator between a directory and an entry.
pub open spec fn separator() -> Seq<char> {
    seq!['/']
}

/// The path of the entry `name` below `dir`: the two joined by a separator,
/// whether or not `dir` already ends in one.
pub open spec fn entry_path(dir: Seq<char>, name: Seq<char>) -> Seq<char> {
    dir + separator() + name
}

/// Joins `dir` and `name` with a separator.
pub fn join_entry(dir: &str, name: &str) -> (path: String)
    ensures
        path@ == entry_path(dir@, name@),
{
    proof {
        reveal_strlit("/");
    }
    let mut path = String::from_str(dir);
    path.append("/");
    path.append(name);
    assert("/"@ =~= separator());
    path
}

} // verus!
