use vstd::prelude::*;
use crate::bluetoothctl;
use crate::config::Config;
use crate::git;
use crate::profiles::{lookup, ProfileMap, Profiles};
use crate::subcommand::{Plan, YaruSubcommand};

verus! {

/// The subcommand selected on the command line, with its own arguments.
#[derive(Debug)]
pub enum Subcommand {
    /// Manipulate Bluetooth devices.
    BluetoothCtl(bluetoothctl::Args),
    /// Set the git identity of the current repository.
    Git(git::Args),
}

/// The plan of the selected subcommand.
pub enum Invocation {
    BluetoothCtl(Plan<bluetoothctl::Step, bluetoothctl::Error>),
    Git(Plan<git::Step, git::Error>),
}

/// The profile name that `command` asks for.
pub open spec fn profile_name(command: Subcommand) -> Seq<char> {
    match command {
        Subcommand::BluetoothCtl(a) => a.profile@,
        Subcommand::Git(a) => a.command->User_profile@,
    }
}

/// True when `r` is what running `command` against `config` gives: the
/// subcommand's plan for its own section of the configuration.
pub open spec fn dispatched(command: Subcommand, config: Config, r: Invocation) -> bool {
    match command {
        Subcommand::BluetoothCtl(a) => r is BluetoothCtl && a.planned(config.bluetoothctl, r->BluetoothCtl_0),
        Subcommand::Git(a) => r is Git && a.planned(config.git, r->Git_0),
    }
}

/// Runs `command` with the section of `config` that belongs to it.
pub fn dispatch(command: Subcommand, config: Config) -> (r: Invocation)
    ensures
        dispatched(command, config, r),
{
    match command {
        Subcommand::BluetoothCtl(a) => Invocation::BluetoothCtl(a.run(config.bluetoothctl)),
        Subcommand::Git(a) => Invocation::Git(a.run(config.git)),
    }
}

/// A subcommand whose section is absent from the configuration fails with
/// the missing-profile error naming the profile asked for, whatever that
/// name is; the Bluetooth subcommand then performs no operation at all.
pub proof fn law_absent_section_is_missing_profile(command: Subcommand, config: Config, r: Invocation)
    requires
        dispatched(command, config, r),
        match command {
            Subcommand::BluetoothCtl(_) => config.bluetoothctl is None,
            Subcommand::Git(_) => config.git is None,
        },
    ensures
        match r {
            Invocation::BluetoothCtl(plan) => plan.steps@.len() == 0 && plan.outcome
                == Err::<(), bluetoothctl::Error>(bluetoothctl::Error::ProfileMissing(
                plan.outcome->Err_0->ProfileMissing_0,
            )) && plan.outcome->Err_0->ProfileMissing_0@ == profile_name(command),
            Invocation::Git(plan) => plan.steps@ == seq![git::Step::FindCurrentDir, git::Step::OpenRepository]
                && plan.outcome == Err::<(), git::Error>(git::Error::ProfileMissing(
                plan.outcome->Err_0->ProfileMissing_0,
            )) && plan.outcome->Err_0->ProfileMissing_0@ == profile_name(command),
        },
{
    match r {
        Invocation::Git(plan) => {
            assert(plan.steps@ =~= seq![git::Step::FindCurrentDir, git::Step::OpenRepository]);
        },
        Invocation::BluetoothCtl(_) => {},
    }
}

/// A profile written under a name is exactly what a lookup of that name
/// finds afterwards, whatever the section held before.
pub proof fn law_written_profile_is_found<P>(before: Profiles<P>, after: ProfileMap<P>, name: Seq<char>, profile: P)
    requires
        after@ == (match before {
            Some(m) => m@,
            None => Map::empty(),
        }).insert(name, profile),
    ensures
        lookup(Some(after), name) == Some(profile),
{
}

/// A Bluetooth profile found in the configuration is used as it stands: the
/// device operations carry its address and address type.
pub proof fn law_bluetooth_uses_found_profile(args: bluetoothctl::Args, config: Config, r: Invocation)
    requires
        dispatched(Subcommand::BluetoothCtl(args), config, r),
        lookup(config.bluetoothctl, args.profile@) is Some,
    ensures
        r->BluetoothCtl_0.outcome is Ok,
        r->BluetoothCtl_0.steps@ == bluetoothctl::steps_for(
            args.command,
            lookup(config.bluetoothctl, args.profile@)->0,
        ),
{
}

/// A git profile found in the configuration is written as it stands: each
/// present field, and no other, is set once in the local configuration.
pub proof fn law_git_writes_found_profile(args: git::Args, config: Config, r: Invocation)
    requires
        dispatched(Subcommand::Git(args), config, r),
        lookup(config.git, args.command->User_profile@) is Some,
    ensures
        r->Git_0.outcome is Ok,
        git::sets_exactly(
            r->Git_0.steps@.subrange(3, r->Git_0.steps@.len() as int),
            git::user_settings(lookup(config.git, args.command->User_profile@)->0),
        ),
{
}

/// Failures of the whole program.
pub enum MainError {
    /// The configuration directory could not be found.
    FindXdgDirs(String),
    /// The configuration file could not be read.
    ReadConfig(String),
    /// The configuration file is malformed.
    ParseConfig(String),
    /// The Bluetooth subcommand failed.
    Bluetoothctl(bluetoothctl::Error),
    /// The git subcommand failed.
    Git(git::Error),
}

impl From<bluetoothctl::Error> for MainError {
    fn from(e: bluetoothctl::Error) -> (r: MainError) {
        MainError::Bluetoothctl(e)
    }
}

impl vstd::std_specs::convert::FromSpecImpl<bluetoothctl::Error> for MainError {
    open spec fn obeys_from_spec() -> bool {
        true
    }

    open spec fn from_spec(e: bluetoothctl::Error) -> MainError {
        MainError::Bluetoothctl(e)
    }
}

impl From<git::Error> for MainError {
    fn from(e: git::Error) -> (r: MainError) {
        MainError::Git(e)
    }
}

impl vstd::std_specs::convert::FromSpecImpl<git::Error> for MainError {
    open spec fn obeys_from_spec() -> bool {
        true
    }

    open spec fn from_spec(e: git::Error) -> MainError {
        MainError::Git(e)
    }
}

} // verus!
