//! Keeping the target directory ready before every capture batch.
//!
//! The directory may be deleted externally between triggers, so readiness
//! is re-established before every batch, not only at start-up: an existing
//! directory passes untouched, a missing one is created, and a failed
//! creation is reported (the batch is then skipped; the process lives on).

use vstd::prelude::*;

verus! {

/// The target directory as the guard sees it: whether the path currently
/// is a directory, and whether the filesystem would let a creation attempt
/// succeed (permissions, a file squatting on the path, a full disk).
#[derive(Clone, Copy, PartialEq, Eq, Structural, Debug)]
pub struct DirState {
    pub present: bool,
    pub creatable: bool,
}

/// What the guard does to the directory: nothing when it is already there,
/// otherwise one creation attempt (with intermediate components).
#[derive(Clone, Copy, PartialEq, Eq, Structural, Debug)]
pub enum DirAction {
    AlreadyReady,
    Create,
}

/// The error of a failed readiness check, carrying the underlying cause;
/// the caller must not attempt capture after it.
#[derive(Debug)]
pub struct DirError {
    pub cause: String,
}

/// One readiness pass over the directory: an existing directory is left
/// untouched and succeeds; a missing one is created when the filesystem
/// allows it; otherwise the directory stays missing and the pass fails.
pub open spec fn ensure_ready_spec(d: DirState) -> (DirState, bool) {
    if d.present {
        (d, true)
    } else if d.creatable {
        (DirState { present: true, creatable: d.creatable }, true)
    } else {
        (d, false)
    }
}

/// Decides the guard's action from what a probe of the path saw: create
/// exactly when the path is not currently a directory.
pub fn ensure_ready_action(present: bool) -> (a: DirAction)
    ensures
        a == DirAction::Create <==> !present,
{
    if present {
        DirAction::AlreadyReady
    } else {
        DirAction::Create
    }
}

/// One readiness pass over the modelled directory state.
pub fn ensure_ready(d: DirState) -> (r: (DirState, bool))
    ensures
        r == ensure_ready_spec(d),
{
    if d.present {
        (d, true)
    } else if d.creatable {
        (DirState { present: true, creatable: d.creatable }, true)
    } else {
        (d, false)
    }
}

/// The guard's verdict once the action ran: an already-present directory
/// succeeds with nothing done; a creation attempt succeeds unless the
/// filesystem reported a cause, which the error then carries verbatim.
pub fn ensure_ready_verdict(present: bool, create_error: Option<String>) -> (r: Result<
    (),
    DirError,
>)
    ensures
        present ==> r is Ok,
        !present && create_error is None ==> r is Ok,
        !present ==> (create_error matches Some(c) ==> r matches Err(e) && e.cause@ == c@),
{
    if present {
        Ok(())
    } else {
        match create_error {
            None => Ok(()),
            Some(c) => Err(DirError { cause: c }),
        }
    }
}

/// Ensuring readiness is idempotent: after one successful pass the
/// directory exists, and a second pass succeeds while changing nothing.
pub proof fn lemma_ensure_ready_idempotent(d: DirState)
    requires
        ensure_ready_spec(d).1,
    ensures
        ensure_ready_spec(d).0.present,
        ensure_ready_spec(ensure_ready_spec(d).0) == (ensure_ready_spec(d).0, true),
{
}

} // verus!
