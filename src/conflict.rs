use vstd::prelude::*;

verus! {

/// Whether an existing destination may be overwritten.
#[derive(Debug, Clone, Copy, PartialEq, Eq, Structural)]
pub enum Decision {
    Proceed,
    Abort,
    /// The user's yes or no decides.
    Ask,
}

/// A missing destination may always be written; an existing one is asked about
/// in an interactive run, and otherwise overwritten only when forced.
pub open spec fn overwrite_policy(exists: bool, interactive: bool, force: bool) -> Decision {
    if !exists {
        Decision::Proceed
    } else if interactive {
        Decision::Ask
    } else if force {
        Decision::Proceed
    } else {
        Decision::Abort
    }
}

/// Decides whether a destination may be overwritten.
pub fn may_overwrite(exists: bool, interactive: bool, force: bool) -> (r: Decision)
    ensures
        r == overwrite_policy(exists, interactive, force),
{
    if !exists {
        Decision::Proceed
    } else if interactive {
        Decision::Ask
    } else if force {
        Decision::Proceed
    } else {
        Decision::Abort
    }
}

/// The decision that a yes or no from the user gives.
pub fn decide(answer: bool) -> (r: Decision)
    ensures
        r == (if answer {
            Decision::Proceed
        } else {
            Decision::Abort
        }),
{
    if answer {
        Decision::Proceed
    } else {
        Decision::Abort
    }
}

/// Without a terminal to ask on, an existing destination is overwritten exactly
/// when forced; a forced run never aborts.
pub proof fn lemma_non_interactive_overwrite(exists: bool, force: bool)
    ensures
        exists && !force ==> overwrite_policy(exists, false, force) == Decision::Abort,
        force ==> overwrite_policy(exists, false, force) == Decision::Proceed,
        overwrite_policy(false, false, force) == Decision::Proceed,
{
}

} // verus!
