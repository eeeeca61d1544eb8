//! Tests for the flight state machine, its persisted tokens, and the
//! initialization checks.

use os_balloon::config::Battery;
use os_balloon::error;
use os_balloon::logic::init::{check_batteries, enough_disk_space, fona_battery_level};
use os_balloon::logic::{
    init, next_phase, AcquiringFix, EternalLoop, FixAcquired, FlightMachine, GetState, GoingDown,
    GoingUp, Init, Landed, SafeMode, ShutDown, State, StateStore, WaitingLaunch,
};

/// Tests if the `Init` state generates the correct `State` enumeration variant in
/// `get_state()`.
#[test]
fn it_get_state_init() {
    let state = Init;
    assert_eq!(state.get_state(), State::Init);
}

/// Tests if the `State::Init` is parsed correctly from a string.
#[test]
fn it_from_str_init() {
    assert_eq!(State::parse("INITIALIZING", true).unwrap(), State::Init);
}

/// Tests that the `State::Init` is translated to *INITIALIZING* as a string.
#[test]
fn it_as_str_init() {
    assert_eq!("INITIALIZING", State::Init.as_str());
}

/// Tests if the `AcquiringFix` state generates the correct `State` enumeration variant in
/// `get_state()`.
#[test]
fn it_get_state_acquiring_fix() {
    let state = AcquiringFix;
    assert_eq!(state.get_state(), State::AcquiringFix);
}

/// Tests if the `State::AcquiringFix` is parsed correctly from a string.
#[test]
fn it_from_str_acquiring_fix() {
    assert_eq!(
        State::parse("ACQUIRING_FIX", true).unwrap(),
        State::AcquiringFix
    );
}

/// Tests that the `State::AcquiringFix` is not parsed properly without a positioning receiver.
#[test]
#[should_panic]
fn logic_it_from_str_acquiring_fix() {
    let _ = State::parse("ACQUIRING_FIX", false).unwrap();
}

/// Tests that the `State::AcquiringFix` is translated to `ACQUIRING_FIX` as a string.
#[test]
fn it_as_str_acquiring_fix() {
    assert_eq!("ACQUIRING_FIX", State::AcquiringFix.as_str());
}

/// Tests if the `FixAcquired` state generates the correct `State` enumeration variant in
/// `get_state()`.
#[test]
fn it_get_state_fix_acquired() {
    let state = FixAcquired;
    assert_eq!(state.get_state(), State::FixAcquired);
}

/// Tests if the `State::FixAcquired` is parsed correctly from a string.
#[test]
fn it_from_str_fix_acquired() {
    assert_eq!(
        State::parse("FIX_ACQUIRED", true).unwrap(),
        State::FixAcquired
    );
}

/// Tests that the `State::FixAcquired` is not parsed properly without a positioning receiver.
#[test]
#[should_panic]
fn logic_it_from_str_fix_acquired() {
    let _ = State::parse("FIX_ACQUIRED", false).unwrap();
}

/// Tests that the `State::FixAcquired` is translated to `FIX_ACQUIRED` as a string.
#[test]
fn it_as_str_fix_acquired() {
    assert_eq!("FIX_ACQUIRED", State::FixAcquired.as_str());
}

/// Tests if the `WaitingLaunch` state generates the correct `State` enumeration variant in
/// `get_state()`.
#[test]
fn it_get_state_waiting_launch() {
    let state = WaitingLaunch;
    assert_eq!(state.get_state(), State::WaitingLaunch);
}

/// Tests if the `State::WaitingLaunch` is parsed correctly from a string.
#[test]
fn it_from_str_waiting_launch() {
    assert_eq!(
        State::parse("WAITING_LAUNCH", true).unwrap(),
        State::WaitingLaunch
    );
}

/// Tests that the `State::WaitingLaunch` is not parsed properly without a positioning receiver.
#[test]
#[should_panic]
fn logic_it_from_str_waiting_launch() {
    let _ = State::parse("WAITING_LAUNCH", false).unwrap();
}

/// Tests that the `State::WaitingLaunch` is translated to `WAITING_LAUNCH` as a string.
#[test]
fn it_as_str_waiting_launch() {
    assert_eq!("WAITING_LAUNCH", State::WaitingLaunch.as_str());
}

/// Tests if the `GoingUp` state generates the correct `State` enumeration variant in
/// `get_state()`.
#[test]
fn it_get_state_going_up() {
    let state = GoingUp;
    assert_eq!(state.get_state(), State::GoingUp);
}

/// Tests if the `State::GoingUp` is parsed correctly from a string.
#[test]
fn it_from_str_going_up() {
    assert_eq!(State::parse("GOING_UP", true).unwrap(), State::GoingUp);
}

/// Tests that the `State::GoingUp` is not parsed properly without a positioning receiver.
#[test]
#[should_panic]
fn logic_it_from_str_going_up() {
    let _ = State::parse("GOING_UP", false).unwrap();
}

/// Tests that the `State::GoingUp` is translated to `GOING_UP` as a string.
#[test]
fn it_as_str_going_up() {
    assert_eq!("GOING_UP", State::GoingUp.as_str());
}

/// Tests if the `GoingDown` state generates the correct `State` enumeration variant in
/// `get_state()`.
#[test]
fn it_get_state_going_down() {
    let state = GoingDown;
    assert_eq!(state.get_state(), State::GoingDown);
}

/// Tests if the `State::GoingDown` is parsed correctly from a string.
#[test]
fn it_from_str_going_down() {
    assert_eq!(State::parse("GOING_DOWN", true).unwrap(), State::GoingDown);
}

/// Tests that the `State::GoingDown` is not parsed properly without a positioning receiver.
#[test]
#[should_panic]
fn logic_it_from_str_going_down() {
    let _ = State::parse("GOING_DOWN", false).unwrap();
}

/// Tests that the `State::GoingDown` is translated to `GOING_DOWN` as a string.
#[test]
fn it_as_str_going_down() {
    assert_eq!("GOING_DOWN", State::GoingDown.as_str());
}

/// Tests if the `Landed` state generates the correct `State` enumeration variant in
/// `get_state()`.
#[test]
fn it_get_state_landed() {
    let state = Landed;
    assert_eq!(state.get_state(), State::Landed);
}

/// Tests if the `State::Landed` is parsed correctly from a string.
#[test]
fn it_from_str_landed() {
    assert_eq!(State::parse("LANDED", true).unwrap(), State::Landed);
}

/// Tests that the `State::Landed` is not parsed properly without a positioning receiver.
#[test]
#[should_panic]
fn logic_it_from_str_landed() {
    let _ = State::parse("LANDED", false).unwrap();
}

/// Tests that the `State::Landed` is translated to *LANDED* as a string.
#[test]
fn it_as_str_landed() {
    assert_eq!("LANDED", State::Landed.as_str());
}

/// Tests if the `ShutDown` state generates the correct `State` enumeration variant in
/// `get_state()`.
#[test]
fn it_get_state_shut_down() {
    let state = ShutDown;
    assert_eq!(state.get_state(), State::ShutDown);
}

/// Tests if the `State::ShutDown` is parsed correctly from a string.
#[test]
fn it_from_str_shut_down() {
    assert_eq!(State::parse("SHUT_DOWN", true).unwrap(), State::ShutDown);
}

/// Tests that the `State::ShutDown` is translated to `SHUT_DOWN` as a string.
#[test]
fn it_as_str_shut_down() {
    assert_eq!("SHUT_DOWN", State::ShutDown.as_str());
}

/// Tests if the `SafeMode` state generates the correct `State` enumeration variant in
/// `get_state()`.
#[test]
fn it_get_state_safe_mode() {
    let state = SafeMode;
    assert_eq!(state.get_state(), State::SafeMode);
}

/// Tests if the `State::SafeMode` is parsed correctly from a string.
#[test]
fn it_from_str_safe_mode() {
    assert_eq!(State::parse("SAFE_MODE", true).unwrap(), State::SafeMode);
}

/// Tests that the `State::SafeMode` is translated to `SAFE_MODE` as a string.
#[test]
fn it_as_str_safe_mode() {
    assert_eq!("SAFE_MODE", State::SafeMode.as_str());
}

/// Tests if the `EternalLoop` state generates the correct `State` enumeration variant in
/// `get_state()`.
#[test]
fn it_get_state_eternal_loop() {
    let state = EternalLoop;
    assert_eq!(state.get_state(), State::EternalLoop);
}

/// Tests if the `State::EternalLoop` is parsed correctly from a string.
#[test]
fn it_from_str_eternal_loop() {
    assert_eq!(
        State::parse("ETERNAL_LOOP", false).unwrap(),
        State::EternalLoop
    );
}

/// Tests that the `State::EternalLoop` is not parsed properly with a positioning receiver.
#[test]
#[should_panic]
fn logic_it_from_str_eternal_loop() {
    let _ = State::parse("ETERNAL_LOOP", true).unwrap();
}

/// Tests that the `State::EternalLoop` is translated to `ETERNAL_LOOP` as a string.
#[test]
fn it_as_str_eternal_loop() {
    assert_eq!("ETERNAL_LOOP", State::EternalLoop.as_str());
}

/// An unknown token is an invalid-state error, never a default variant.
#[test]
fn parse_unknown_token_errors() {
    match State::parse("BOGUS", true) {
        Err(error::LastState::Invalid { state }) => assert_eq!(state, "BOGUS"),
        other => panic!("expected an invalid-state error, got {:?}", other),
    }
    assert!(State::parse("", true).is_err());
    assert!(State::parse("initializing", true).is_err());
}

/// A new state machine starts at the initialization phase.
#[test]
fn init_starts_at_init() {
    let machine = init();
    assert_eq!(machine.get_state(), State::Init);
}

/// The transition graph with a positioning receiver walks the fix phases.
#[test]
fn transition_graph_with_receiver() {
    assert_eq!(next_phase(State::Init, true), Some(State::AcquiringFix));
    assert_eq!(
        next_phase(State::AcquiringFix, true),
        Some(State::FixAcquired)
    );
    assert_eq!(
        next_phase(State::FixAcquired, true),
        Some(State::WaitingLaunch)
    );
    assert_eq!(next_phase(State::WaitingLaunch, true), Some(State::GoingUp));
    assert_eq!(next_phase(State::GoingUp, true), Some(State::GoingDown));
    assert_eq!(next_phase(State::GoingDown, true), Some(State::Landed));
    assert_eq!(next_phase(State::Landed, true), Some(State::ShutDown));
    assert_eq!(next_phase(State::ShutDown, true), None);
    assert_eq!(next_phase(State::SafeMode, true), None);
}

/// The transition graph without a positioning receiver goes through the
/// eternal loop.
#[test]
fn transition_graph_without_receiver() {
    assert_eq!(next_phase(State::Init, false), Some(State::EternalLoop));
    assert_eq!(
        next_phase(State::EternalLoop, false),
        Some(State::ShutDown)
    );
    assert_eq!(next_phase(State::ShutDown, false), None);
}

/// Writing a token and reading it back yields the state; empty and missing
/// files mean no prior run; an unknown token is a parse error, not `None`.
#[test]
fn persisted_state_lifecycle() {
    let mut store = StateStore::missing();
    assert_eq!(store.read(true).unwrap(), None);

    store.write(State::GoingUp);
    assert_eq!(store.read(true).unwrap(), Some(State::GoingUp));

    let empty = StateStore::from_content(Some(String::new()));
    assert_eq!(empty.read(true).unwrap(), None);

    let bogus = StateStore::from_content(Some(String::from("BOGUS")));
    match bogus.read(true) {
        Err(error::LastState::Invalid { state }) => assert_eq!(state, "BOGUS"),
        other => panic!("expected an invalid-state error, got {:?}", other),
    }
}

/// Every state round-trips through the store in the build it belongs to.
#[test]
fn persisted_state_all_states() {
    let with_receiver = [
        State::Init,
        State::AcquiringFix,
        State::FixAcquired,
        State::WaitingLaunch,
        State::GoingUp,
        State::GoingDown,
        State::Landed,
        State::ShutDown,
        State::SafeMode,
    ];
    for state in with_receiver {
        let mut store = StateStore::missing();
        store.write(state);
        assert_eq!(store.read(true).unwrap(), Some(state));
    }
    let mut store = StateStore::missing();
    store.write(State::EternalLoop);
    assert_eq!(store.read(false).unwrap(), Some(State::EternalLoop));
}

/// The flight machine advances phase by phase down to shutdown, then stops.
#[test]
fn flight_machine_advances() {
    let mut machine = FlightMachine::start(State::Init);
    assert_eq!(machine.current(), State::Init);
    assert_eq!(machine.advance(true), Some(State::AcquiringFix));
    assert_eq!(machine.current(), State::AcquiringFix);

    let mut steps = 0;
    while machine.advance(true).is_some() {
        steps += 1;
    }
    assert_eq!(machine.current(), State::ShutDown);
    assert_eq!(steps, 6);
    assert_eq!(machine.advance(true), None);
}

/// Thresholds mirroring the flight configuration, in millivolts and
/// per-mille.
fn test_battery() -> Battery {
    Battery {
        main_min: 1952,
        main_max: 2216,
        fona_min: 3700,
        fona_max: 4200,
        main_min_percent: 800,
        fona_min_percent: 750,
    }
}

/// Healthy batteries pass the launch check.
#[test]
fn check_batteries_ok() {
    let battery = test_battery();
    assert!(check_batteries(&battery, 4100, 2200).is_ok());
}

/// A modem battery below its minimum level fails the launch check.
#[test]
fn check_batteries_low_fona() {
    let battery = test_battery();
    assert_eq!(
        check_batteries(&battery, 4000, 2200),
        Err(error::Init::NotEnoughBattery)
    );
}

/// A main battery below its minimum level fails the launch check.
#[test]
fn check_batteries_low_main() {
    let battery = test_battery();
    assert_eq!(
        check_batteries(&battery, 4100, 2100),
        Err(error::Init::NotEnoughBattery)
    );
}

/// A disconnected main battery reading is skipped, not failed.
#[test]
fn check_batteries_disconnected_main() {
    let battery = test_battery();
    assert!(check_batteries(&battery, 4100, 1500).is_ok());
}

/// The modem battery level scales its voltage span to per-mille.
#[test]
fn fona_battery_level_per_mille() {
    assert_eq!(fona_battery_level(4200), 1000);
    assert_eq!(fona_battery_level(3700), 0);
    assert_eq!(fona_battery_level(3950), 500);
}

/// Without a camera a fixed floor of disk space is required.
#[test]
fn disk_space_without_camera() {
    assert!(enough_disk_space(false, 3 * 1024 * 1024 * 1024, 300, 0));
    assert!(!enough_disk_space(false, 2 * 1024 * 1024 * 1024, 300, 0));
}

/// With a camera, 1.2 times the flight length of video must fit.
#[test]
fn disk_space_with_camera() {
    // 300 minutes at 20 Mbps: 300 * 360 * 20_000_000 / 40 = 54_000_000_000.
    assert!(enough_disk_space(true, 60_000_000_000, 300, 20_000_000));
    assert!(!enough_disk_space(true, 54_000_000_000, 300, 20_000_000));
}
