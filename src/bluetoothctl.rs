use vstd::prelude::*;
use crate::profiles::{lookup, resolve, Profiles};
use crate::subcommand::{Plan, YaruSubcommand};

verus! {

/// A Bluetooth device address, most significant byte first.
#[derive(Clone, Copy, Debug, PartialEq, Eq)]
pub struct Address {
    pub bytes: [u8; 6],
}

/// How a device address is to be read.
#[derive(Clone, Copy, Debug, PartialEq, Eq)]
pub enum AddressType {
    /// Classic Bluetooth (BR/EDR).
    BrEdr,
    /// Low Energy, public address.
    LePublic,
    /// Low Energy, random address.
    LeRandom,
}

/// The arguments of the Bluetooth subcommand.
#[derive(Debug)]
pub struct Args {
    /// The device profile to operate on.
    pub profile: String,
    /// The action to take.
    pub command: Subcommand,
}

/// What to do with the device.
#[derive(Clone, Copy, Debug, PartialEq, Eq)]
pub enum Subcommand {
    /// Connect to the device.
    Connect,
    /// Disconnect the device.
    Disconnect,
}

/// A configured Bluetooth device.
#[derive(Clone, Copy, Debug, PartialEq, Eq)]
pub struct Profile {
    /// The device's address.
    pub mac: Address,
    /// The device's address type.
    pub address_type: AddressType,
}

/// One operation on the Bluetooth stack.
#[derive(Clone, Copy, Debug, PartialEq, Eq)]
pub enum Step {
    /// Open a session with the Bluetooth daemon.
    OpenSession,
    /// Take the session's default adapter.
    OpenAdapter,
    /// Connect the device through the adapter.
    ConnectDevice { address: Address, address_type: AddressType },
    /// Take a handle on the device known to the adapter.
    GetDevice { address: Address },
    /// Disconnect the device taken by `GetDevice`.
    Disconnect,
}

/// Failures of the Bluetooth subcommand; each external one carries the
/// underlying cause.
#[derive(Debug, PartialEq, Eq)]
pub enum Error {
    ProfileMissing(String),
    BTOpenSession(String),
    BTOpenAdapter(String),
    BTConnect(String),
    BTGetDevice(String),
    BTDisconnect(String),
}

/// The operations that `command` performs on the device of `p`.
pub open spec fn steps_for(command: Subcommand, p: Profile) -> Seq<Step> {
    match command {
        Subcommand::Connect => seq![
            Step::OpenSession,
            Step::OpenAdapter,
            Step::ConnectDevice { address: p.mac, address_type: p.address_type },
        ],
        Subcommand::Disconnect => seq![
            Step::OpenSession,
            Step::OpenAdapter,
            Step::GetDevice { address: p.mac },
            Step::Disconnect,
        ],
    }
}

/// The error reported when `step` fails with `cause`.
pub open spec fn failure_of(step: Step, cause: Seq<char>, e: Error) -> bool {
    match step {
        Step::OpenSession => e is BTOpenSession && e->BTOpenSession_0@ == cause,
        Step::OpenAdapter => e is BTOpenAdapter && e->BTOpenAdapter_0@ == cause,
        Step::ConnectDevice { .. } => e is BTConnect && e->BTConnect_0@ == cause,
        Step::GetDevice { .. } => e is BTGetDevice && e->BTGetDevice_0@ == cause,
        Step::Disconnect => e is BTDisconnect && e->BTDisconnect_0@ == cause,
    }
}

impl Error {
    /// The error for `step` having failed with `cause`.
    pub fn failed(step: &Step, cause: String) -> (r: Error)
        ensures
            failure_of(*step, cause@, r),
    {
        match step {
            Step::OpenSession => Error::BTOpenSession(cause),
            Step::OpenAdapter => Error::BTOpenAdapter(cause),
            Step::ConnectDevice { .. } => Error::BTConnect(cause),
            Step::GetDevice { .. } => Error::BTGetDevice(cause),
            Step::Disconnect => Error::BTDisconnect(cause),
        }
    }
}

impl YaruSubcommand for Args {
    type Err = Error;
    type Profile = Profile;
    type Step = Step;

    /// The profile is resolved before any operation: without it nothing is
    /// done and the missing name is reported.
    open spec fn planned(self, profiles: Profiles<Profile>, plan: Plan<Step, Error>) -> bool {
        match lookup(profiles, self.profile@) {
            Some(p) => plan.steps@ == steps_for(self.command, p) && plan.outcome is Ok,
            None => plan.steps@.len() == 0 && plan.outcome is Err
                && plan.outcome->Err_0 is ProfileMissing
                && plan.outcome->Err_0->ProfileMissing_0@ == self.profile@,
        }
    }

    fn run(self, profiles: Profiles<Profile>) -> (r: Plan<Step, Error>) {
        let profile = match resolve(&self.profile, &profiles) {
            Ok(p) => *p,
            Err(missing) => {
                return Plan { steps: Vec::new(), outcome: Err(Error::ProfileMissing(missing.name)) };
            },
        };
        let mut steps: Vec<Step> = Vec::new();
        steps.push(Step::OpenSession);
        steps.push(Step::OpenAdapter);
        match self.command {
            Subcommand::Connect => {
                steps.push(Step::ConnectDevice { address: profile.mac, address_type: profile.address_type });
            },
            Subcommand::Disconnect => {
                steps.push(Step::GetDevice { address: profile.mac });
                steps.push(Step::Disconnect);
            },
        }
        proof {
            assert(steps@ =~= steps_for(self.command, profile));
        }
        Plan { steps, outcome: Ok(()) }
    }
}

} // verus!
