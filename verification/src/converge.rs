//! The convergence check: does the active theme link already lead to the wanted theme file?

use vstd::prelude::*;

verus! {

/// The outcome of resolving a path to its canonical form: the canonical
/// path's bytes, or `None` when the path could not be resolved.
pub open spec fn resolution(path: Option<Vec<u8>>) -> Option<Seq<u8>> {
    match path {
        Some(bytes) => Some(bytes@),
        None => None,
    }
}

/// Whether two resolutions name the same file: both succeeded, and the
/// canonical paths are equal.
pub open spec fn resolve_alike(current: Option<Seq<u8>>, target: Option<Seq<u8>>) -> bool {
    current is Some && target is Some && current->0 == target->0
}

/// Whether two byte strings are equal.
pub fn same_bytes(a: &[u8], b: &[u8]) -> (same: bool)
    ensures
        same == (a@ == b@),
{
    if a.len() != b.len() {
        return false;
    }
    let mut i: usize = 0;
    while i < a.len()
        invariant
            i <= a.len(),
            a.len() == b.len(),
            forall|j: int| 0 <= j < i ==> a[j] == b[j],
        decreases a.len() - i,
    {
        if a[i] != b[i] {
            return false;
        }
        i += 1;
    }
    assert(a@ =~= b@);
    true
}

/// Whether the active theme link already leads to the wanted theme file.
///
/// `current` is the resolution of the link and `target` that of the theme
/// file. A resolution that failed, on either side, means "not converged".
pub fn is_target_theme(current: &Option<Vec<u8>>, target: &Option<Vec<u8>>) -> (converged: bool)
    ensures
        converged == resolve_alike(resolution(*current), resolution(*target)),
{
    match (current, target) {
        (Some(linked), Some(wanted)) => same_bytes(linked.as_slice(), wanted.as_slice()),
        _ => false,
    }
}

} // verus!
