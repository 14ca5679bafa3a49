use vstd::prelude::*;
use crate::profiles::Profiles;

verus! {

/// What one invocation of a subcommand does: the external operations to
/// perform in order, stopping at the first that fails, and the result it
/// reports once all of them have succeeded.
pub struct Plan<S, E> {
    pub steps: Vec<S>,
    pub outcome: Result<(), E>,
}

/// The interface that every subcommand implements.
pub trait YaruSubcommand: Sized {
    /// The error type.
    type Err;
    /// The type of a configured profile.
    type Profile;
    /// One external operation.
    type Step;

    /// True when `plan` is what running with `profiles` must give.
    spec fn planned(self, profiles: Profiles<Self::Profile>, plan: Plan<Self::Step, Self::Err>) -> bool;

    /// Decides what the subcommand does with its configured profiles.
    fn run(self, profiles: Profiles<Self::Profile>) -> (r: Plan<Self::Step, Self::Err>)
        ensures
            Self::planned(self, profiles, r),
    ;
}

} // verus!
