//! Which file-system changes the interface reacts to.
use vstd::prelude::*;

use crate::paths::{components, parts_view, path_below, path_parts, strip_root, PathPart, PathPartView};
use crate::text::{chars_of, eq_lit};

verus! {

/// A component named `.snip` or `.git`.
pub open spec fn internal_part(part: PathPartView) -> bool {
    part matches PathPartView::Normal(name) && (name == ".snip"@ || name == ".git"@)
}

/// A change matters unless it lies in the library's own cache (`.snip`) or
/// in its git directory (`.git`), at any depth below the root.
pub open spec fn is_relevant_spec(root: Seq<char>, path: Seq<char>) -> bool {
    no_internal_part(path_parts(path_below(root, path)))
}

/// No component lies in `.snip` or `.git`.
pub open spec fn no_internal_part(parts: Seq<PathPartView>) -> bool {
    forall|i: int| 0 <= i < parts.len() ==> !internal_part(#[trigger] parts[i])
}

/// Whether a changed path, given by its components below the library's
/// root, is one the interface should reload for: none of them is `.snip` or
/// `.git`.
pub fn relevant_parts(parts: &Vec<PathPart>) -> (r: bool)
    ensures
        r == no_internal_part(parts_view(parts@)),
{
    let ghost view = parts_view(parts@);
    let mut i: usize = 0;
    while i < parts.len()
        invariant
            i <= parts@.len(),
            view == parts_view(parts@),
            forall|j: int| 0 <= j < i ==> !internal_part(#[trigger] view[j]),
        decreases parts@.len() - i,
    {
        assert(view[i as int] == parts@[i as int]@);
        if let PathPart::Normal(name) = &parts[i] {
            let n = chars_of(name.as_str());
            if eq_lit(n.as_slice(), ".snip") || eq_lit(n.as_slice(), ".git") {
                assert(internal_part(view[i as int]));
                return false;
            }
        }
        i = i + 1;
    }
    true
}

/// Whether a change to `path`, in the library at `root`, is one the interface
/// should reload for: changes inside `.snip` or `.git` are not.
pub fn is_relevant(root: &str, path: &str) -> (r: bool)
    ensures
        r == is_relevant_spec(root@, path@),
{
    let relative = strip_root(root, path);
    let parts = components(relative.as_str());
    relevant_parts(&parts)
}

} // verus!
