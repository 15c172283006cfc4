//! Presentation changes made while the overlay is up, and the guard that undoes them.
use vstd::prelude::*;

verus! {

/// Proof that presentation state was changed and must be restored; only
/// `start_presentation` makes one.
pub struct PresentationGuard {
    _restore: (),
}

/// Applies the platform's presentation changes for a full-screen overlay. This
/// platform needs none, so there is never a guard to hand back.
pub fn start_presentation() -> (r: Option<PresentationGuard>)
    ensures
        r is None,
{
    None
}

/// Restores the presentation state recorded by the guard; with no change made
/// there is nothing to restore.
pub fn end_presentation(_guard: PresentationGuard) {
}

} // verus!
