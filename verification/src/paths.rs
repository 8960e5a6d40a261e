//! File-system locations as text. A location is kept as a `String`, and a
//! component is put under a directory with a single `/` between the two.

use vstd::prelude::*;
use vstd::string::*;

verus! {

/// The location of `leaf` directly under `base`.
pub open spec fn joined(base: Seq<char>, leaf: Seq<char>) -> Seq<char> {
    base + seq!['/'] + leaf
}

/// Builds the location of `leaf` directly under `base`.
pub fn join_path(base: &str, leaf: &str) -> (path: String)
    ensures
        path@ == joined(base@, leaf@),
{
    let mut path = String::from_str(base);
    proof {
        reveal_strlit("/");
        assert("/"@ =~= seq!['/']);
    }
    path.append("/");
    path.append(leaf);
    path
}

} // verus!
