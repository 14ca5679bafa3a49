use yaru::bluetoothctl::{self, Address, AddressType};
use yaru::config::Config;
use yaru::dispatch::{dispatch, Invocation, MainError, Subcommand};
use yaru::git;
use yaru::profiles::ProfileMap;
use yaru::subcommand::{Plan, YaruSubcommand};

fn speaker() -> bluetoothctl::Profile {
    bluetoothctl::Profile {
        mac: Address { bytes: [0xAA, 0xBB, 0xCC, 0xDD, 0xEE, 0xFF] },
        address_type: AddressType::LePublic,
    }
}

fn bt_args(profile: &str, command: bluetoothctl::Subcommand) -> bluetoothctl::Args {
    bluetoothctl::Args { profile: profile.to_string(), command }
}

fn git_args(profile: &str) -> git::Args {
    git::Args { command: git::Subcommand::User { profile: profile.to_string() } }
}

fn bt_plan(r: Invocation) -> Plan<bluetoothctl::Step, bluetoothctl::Error> {
    match r {
        Invocation::BluetoothCtl(p) => p,
        Invocation::Git(_) => panic!("git plan for a Bluetooth command"),
    }
}

fn git_plan(r: Invocation) -> Plan<git::Step, git::Error> {
    match r {
        Invocation::Git(p) => p,
        Invocation::BluetoothCtl(_) => panic!("Bluetooth plan for a git command"),
    }
}

fn set(key: &str, value: &str) -> git::Step {
    git::Step::SetString { key: key.to_string(), value: value.to_string() }
}

#[test]
fn git_user_alice_sets_only_the_name() {
    let alice = git::Profile { user_name: Some("Alice".to_string()), user_email: None, user_signing_key: None };
    let config = Config { bluetoothctl: None, git: Some(ProfileMap::new().insert("user".to_string(), alice)) };
    let plan = git_plan(dispatch(Subcommand::Git(git_args("user")), config));
    assert_eq!(
        plan.steps,
        vec![
            git::Step::FindCurrentDir,
            git::Step::OpenRepository,
            git::Step::OpenLocalConfig,
            set("user.name", "Alice"),
        ]
    );
    assert_eq!(plan.outcome, Ok(()));
}

#[test]
fn git_full_profile_sets_all_keys_in_order() {
    let p = git::Profile {
        user_name: Some("Bob".to_string()),
        user_email: Some("bob@example.org".to_string()),
        user_signing_key: Some("ABCD1234".to_string()),
    };
    let plan = git_args("work").run(Some(ProfileMap::new().insert("work".to_string(), p)));
    assert_eq!(
        plan.steps,
        vec![
            git::Step::FindCurrentDir,
            git::Step::OpenRepository,
            git::Step::OpenLocalConfig,
            set("user.name", "Bob"),
            set("user.email", "bob@example.org"),
            set("user.signingKey", "ABCD1234"),
        ]
    );
    assert_eq!(plan.outcome, Ok(()));
}

#[test]
fn git_empty_profile_sets_nothing() {
    let p = git::Profile { user_name: None, user_email: None, user_signing_key: None };
    let plan = git_args("none").run(Some(ProfileMap::new().insert("none".to_string(), p)));
    assert_eq!(
        plan.steps,
        vec![git::Step::FindCurrentDir, git::Step::OpenRepository, git::Step::OpenLocalConfig]
    );
    assert_eq!(plan.outcome, Ok(()));
}

#[test]
fn git_absent_section_opens_repository_then_reports_missing() {
    let config = Config { bluetoothctl: Some(ProfileMap::new().insert("user".to_string(), speaker())), git: None };
    let plan = git_plan(dispatch(Subcommand::Git(git_args("user")), config));
    assert_eq!(plan.steps, vec![git::Step::FindCurrentDir, git::Step::OpenRepository]);
    assert_eq!(plan.outcome, Err(git::Error::ProfileMissing("user".to_string())));
}

#[test]
fn git_unknown_profile_reports_missing() {
    let p = git::Profile { user_name: Some("A".to_string()), user_email: None, user_signing_key: None };
    let plan = git_args("other").run(Some(ProfileMap::new().insert("user".to_string(), p)));
    assert_eq!(plan.steps.len(), 2);
    assert_eq!(plan.outcome, Err(git::Error::ProfileMissing("other".to_string())));
}

#[test]
fn bluetooth_absent_section_performs_nothing() {
    let config = Config { bluetoothctl: None, git: None };
    let plan = bt_plan(dispatch(Subcommand::BluetoothCtl(bt_args("speaker", bluetoothctl::Subcommand::Connect)), config));
    assert!(plan.steps.is_empty());
    assert_eq!(plan.outcome, Err(bluetoothctl::Error::ProfileMissing("speaker".to_string())));
}

#[test]
fn bluetooth_unknown_profile_performs_nothing() {
    let profiles = Some(ProfileMap::new().insert("speaker".to_string(), speaker()));
    let plan = bt_args("headset", bluetoothctl::Subcommand::Disconnect).run(profiles);
    assert!(plan.steps.is_empty());
    assert_eq!(plan.outcome, Err(bluetoothctl::Error::ProfileMissing("headset".to_string())));
}

#[test]
fn bluetooth_connect_speaker_connects_once() {
    let config = Config { bluetoothctl: Some(ProfileMap::new().insert("speaker".to_string(), speaker())), git: None };
    let plan = bt_plan(dispatch(Subcommand::BluetoothCtl(bt_args("speaker", bluetoothctl::Subcommand::Connect)), config));
    assert_eq!(
        plan.steps,
        vec![
            bluetoothctl::Step::OpenSession,
            bluetoothctl::Step::OpenAdapter,
            bluetoothctl::Step::ConnectDevice {
                address: Address { bytes: [0xAA, 0xBB, 0xCC, 0xDD, 0xEE, 0xFF] },
                address_type: AddressType::LePublic,
            },
        ]
    );
    assert_eq!(plan.outcome, Ok(()));
}

#[test]
fn bluetooth_disconnect_takes_device_then_disconnects() {
    let p = bluetoothctl::Profile { mac: Address { bytes: [0, 1, 2, 3, 4, 5] }, address_type: AddressType::BrEdr };
    let plan = bt_args("kb", bluetoothctl::Subcommand::Disconnect).run(Some(ProfileMap::new().insert("kb".to_string(), p)));
    assert_eq!(
        plan.steps,
        vec![
            bluetoothctl::Step::OpenSession,
            bluetoothctl::Step::OpenAdapter,
            bluetoothctl::Step::GetDevice { address: Address { bytes: [0, 1, 2, 3, 4, 5] } },
            bluetoothctl::Step::Disconnect,
        ]
    );
    assert_eq!(plan.outcome, Ok(()));
}

#[test]
fn bluetooth_failures_map_to_their_variants() {
    let c = || "boom".to_string();
    let a = Address { bytes: [1, 2, 3, 4, 5, 6] };
    assert_eq!(bluetoothctl::Error::failed(&bluetoothctl::Step::OpenSession, c()), bluetoothctl::Error::BTOpenSession(c()));
    assert_eq!(bluetoothctl::Error::failed(&bluetoothctl::Step::OpenAdapter, c()), bluetoothctl::Error::BTOpenAdapter(c()));
    assert_eq!(
        bluetoothctl::Error::failed(&bluetoothctl::Step::ConnectDevice { address: a, address_type: AddressType::LeRandom }, c()),
        bluetoothctl::Error::BTConnect(c())
    );
    assert_eq!(bluetoothctl::Error::failed(&bluetoothctl::Step::GetDevice { address: a }, c()), bluetoothctl::Error::BTGetDevice(c()));
    assert_eq!(bluetoothctl::Error::failed(&bluetoothctl::Step::Disconnect, c()), bluetoothctl::Error::BTDisconnect(c()));
}

#[test]
fn git_failures_map_to_their_variants() {
    let c = || "bad".to_string();
    assert_eq!(git::Error::failed(&git::Step::FindCurrentDir, c()), git::Error::CurrentDir(c()));
    assert_eq!(git::Error::failed(&git::Step::OpenRepository, c()), git::Error::GitOpen(c()));
    assert_eq!(git::Error::failed(&git::Step::OpenLocalConfig, c()), git::Error::GitOpenConfig(c()));
    assert_eq!(git::Error::failed(&set("user.name", "x"), c()), git::Error::GitSetConfig(c()));
}

#[test]
fn subcommand_errors_wrap_into_main_error() {
    let e = MainError::from(bluetoothctl::Error::ProfileMissing("p".to_string()));
    assert!(matches!(e, MainError::Bluetoothctl(bluetoothctl::Error::ProfileMissing(ref n)) if n == "p"));
    let e = MainError::from(git::Error::GitOpen("q".to_string()));
    assert!(matches!(e, MainError::Git(git::Error::GitOpen(ref n)) if n == "q"));
}
