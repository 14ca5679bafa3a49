use vstd::prelude::*;
use crate::profiles::{lookup, resolve, Profiles};
use crate::subcommand::{Plan, YaruSubcommand};

verus! {

/// The arguments of the git subcommand.
#[derive(Debug)]
pub struct Args {
    /// The action to take.
    pub command: Subcommand,
}

/// What to configure in the current repository.
#[derive(Debug)]
pub enum Subcommand {
    /// Set the repository's user identity from the named profile.
    User {
        /// Profile to use for the user.
        profile: String,
    },
}

/// A git identity; each field that is present is written to the repository.
#[derive(Clone, Debug, PartialEq, Eq)]
pub struct Profile {
    pub user_name: Option<String>,
    pub user_email: Option<String>,
    pub user_signing_key: Option<String>,
}

/// One operation on the working directory's repository.
#[derive(Clone, Debug, PartialEq, Eq)]
pub enum Step {
    /// Find the current directory.
    FindCurrentDir,
    /// Open the current directory as a git repository.
    OpenRepository,
    /// Take a handle on the repository's local configuration.
    OpenLocalConfig,
    /// Set a string key in the local configuration.
    SetString { key: String, value: String },
}

/// Failures of the git subcommand; each external one carries the underlying
/// cause.
#[derive(Debug, PartialEq, Eq)]
pub enum Error {
    CurrentDir(String),
    GitOpen(String),
    ProfileMissing(String),
    GitOpenConfig(String),
    GitSetConfig(String),
}

/// The setting `key = v` when `v` is present, else none.
pub open spec fn setting(key: Seq<char>, v: Option<String>) -> Seq<(Seq<char>, Seq<char>)> {
    match v {
        Some(s) => seq![(key, s@)],
        None => seq![],
    }
}

/// The configuration keys that profile `p` sets, in order, with their values.
pub open spec fn user_settings(p: Profile) -> Seq<(Seq<char>, Seq<char>)> {
    setting("user.name"@, p.user_name) + setting("user.email"@, p.user_email) + setting(
        "user.signingKey"@,
        p.user_signing_key,
    )
}

/// True when `steps` sets exactly `settings`, in order.
pub open spec fn sets_exactly(steps: Seq<Step>, settings: Seq<(Seq<char>, Seq<char>)>) -> bool {
    steps.len() == settings.len() && forall|i: int|
        0 <= i < steps.len() ==> (#[trigger] steps[i] is SetString && steps[i]->key@ == settings[i].0
            && steps[i]->value@ == settings[i].1)
}

/// The error reported when `step` fails with `cause`.
pub open spec fn failure_of(step: Step, cause: Seq<char>, e: Error) -> bool {
    match step {
        Step::FindCurrentDir => e is CurrentDir && e->CurrentDir_0@ == cause,
        Step::OpenRepository => e is GitOpen && e->GitOpen_0@ == cause,
        Step::OpenLocalConfig => e is GitOpenConfig && e->GitOpenConfig_0@ == cause,
        Step::SetString { .. } => e is GitSetConfig && e->GitSetConfig_0@ == cause,
    }
}

impl Error {
    /// The error for `step` having failed with `cause`.
    pub fn failed(step: &Step, cause: String) -> (r: Error)
        ensures
            failure_of(*step, cause@, r),
    {
        match step {
            Step::FindCurrentDir => Error::CurrentDir(cause),
            Step::OpenRepository => Error::GitOpen(cause),
            Step::OpenLocalConfig => Error::GitOpenConfig(cause),
            Step::SetString { .. } => Error::GitSetConfig(cause),
        }
    }
}

/// Appends a step setting `key` to `value`, when `value` is present.
fn push_setting(steps: &mut Vec<Step>, key: &str, value: &Option<String>)
    ensures
        final(steps)@.len() >= old(steps)@.len(),
        final(steps)@.subrange(0, old(steps)@.len() as int) == old(steps)@,
        sets_exactly(
            final(steps)@.subrange(old(steps)@.len() as int, final(steps)@.len() as int),
            setting(key@, *value),
        ),
{
    match value {
        Some(v) => {
            steps.push(Step::SetString { key: key.to_string(), value: v.clone() });
        },
        None => {},
    }
}

impl YaruSubcommand for Args {
    type Err = Error;
    type Profile = Profile;
    type Step = Step;

    /// The repository is opened first; the profile is resolved next, and its
    /// present fields are written to the local configuration.
    open spec fn planned(self, profiles: Profiles<Profile>, plan: Plan<Step, Error>) -> bool {
        let name = self.command->User_profile@;
        plan.steps@.len() >= 2 && plan.steps@[0] == Step::FindCurrentDir
            && plan.steps@[1] == Step::OpenRepository
            && match lookup(profiles, name) {
            Some(p) => plan.outcome is Ok && plan.steps@.len() >= 3 && plan.steps@[2]
                == Step::OpenLocalConfig && sets_exactly(
                plan.steps@.subrange(3, plan.steps@.len() as int),
                user_settings(p),
            ),
            None => plan.steps@.len() == 2 && plan.outcome is Err && plan.outcome->Err_0 is ProfileMissing
                && plan.outcome->Err_0->ProfileMissing_0@ == name,
        }
    }

    fn run(self, profiles: Profiles<Profile>) -> (r: Plan<Step, Error>) {
        let mut steps: Vec<Step> = Vec::new();
        steps.push(Step::FindCurrentDir);
        steps.push(Step::OpenRepository);
        match self.command {
            Subcommand::User { profile } => {
                let p = match resolve(&profile, &profiles) {
                    Ok(p) => p,
                    Err(missing) => {
                        return Plan { steps, outcome: Err(Error::ProfileMissing(missing.name)) };
                    },
                };
                steps.push(Step::OpenLocalConfig);
                let ghost s0 = steps@;
                push_setting(&mut steps, "user.name", &p.user_name);
                let ghost s1 = steps@;
                push_setting(&mut steps, "user.email", &p.user_email);
                let ghost s2 = steps@;
                push_setting(&mut steps, "user.signingKey", &p.user_signing_key);
                proof {
                    let s3 = steps@;
                    let a = setting("user.name"@, p.user_name);
                    let b = setting("user.email"@, p.user_email);
                    let c = setting("user.signingKey"@, p.user_signing_key);
                    assert(s3.subrange(0, s2.len() as int) == s2);
                    assert(s2.subrange(0, s1.len() as int) == s1);
                    assert(s1.subrange(0, s0.len() as int) == s0);
                    assert(s3.subrange(3, s3.len() as int) =~= s1.subrange(3, s1.len() as int)
                        + s2.subrange(s1.len() as int, s2.len() as int)
                        + s3.subrange(s2.len() as int, s3.len() as int));
                    let t = s3.subrange(3, s3.len() as int);
                    let u = a + b + c;
                    assert forall|i: int| 0 <= i < t.len() implies (#[trigger] t[i] is SetString
                        && t[i]->key@ == u[i].0 && t[i]->value@ == u[i].1) by {
                        if i < a.len() {
                            assert(t[i] == s1.subrange(3, s1.len() as int)[i]);
                        } else if i < a.len() + b.len() {
                            assert(t[i] == s2.subrange(s1.len() as int, s2.len() as int)[i - a.len()]);
                        } else {
                            assert(t[i] == s3.subrange(s2.len() as int, s3.len() as int)[i - a.len() - b.len()]);
                        }
                    }
                    assert(steps@[0] == s0[0]);
                    assert(steps@[1] == s0[1]);
                    assert(steps@[2] == s0[2]);
                }
                Plan { steps, outcome: Ok(()) }
            },
        }
    }
}

} // verus!
