use test_steps::actions::{check_actions, test_action_name, ActionFailure, ActionReport};
use test_steps::ext_state::{check_ext_state, ExtStateFailure, ExtStateReport};
use test_steps::misc::{check_misc, AutomationMode, MiscFailure, MiscReport};
use test_steps::misc_types::{check_colors, ColorFailure, ColorReport, Rgb, YELLOW_NATIVE};
use test_steps::text::{some_text_is, text_is};

fn good_action() -> ActionReport {
    ActionReport {
        signal_after_first_run: true,
        extra_signal_after_first_run: false,
        signal_after_second_run: true,
        registered_id: 57001,
        name_of_registered_id: Some("TestCommand".to_string()),
        id_of_registered_name: Some(57001),
    }
}

#[test]
fn action_name_is_fixed() {
    assert_eq!(test_action_name(), "TestCommand");
}

#[test]
fn actions_pass() {
    assert_eq!(check_actions(&good_action()), Ok(()));
}

#[test]
fn actions_fail_in_order() {
    let mut r = good_action();
    r.signal_after_first_run = false;
    r.extra_signal_after_first_run = true;
    assert_eq!(check_actions(&r), Err(ActionFailure::NoSignalAfterFirstRun));

    let mut r = good_action();
    r.extra_signal_after_first_run = true;
    r.signal_after_second_run = false;
    assert_eq!(check_actions(&r), Err(ActionFailure::ExtraSignal));

    let mut r = good_action();
    r.signal_after_second_run = false;
    assert_eq!(check_actions(&r), Err(ActionFailure::NoSignalAfterSecondRun));

    let mut r = good_action();
    r.name_of_registered_id = None;
    assert_eq!(check_actions(&r), Err(ActionFailure::WrongName));

    let mut r = good_action();
    r.name_of_registered_id = Some("TestCommand2".to_string());
    assert_eq!(check_actions(&r), Err(ActionFailure::WrongName));

    let mut r = good_action();
    r.id_of_registered_name = None;
    assert_eq!(check_actions(&r), Err(ActionFailure::WrongId));

    let mut r = good_action();
    r.id_of_registered_name = Some(57002);
    assert_eq!(check_actions(&r), Err(ActionFailure::WrongId));
}

#[test]
fn text_comparison() {
    assert!(text_is(&"abc".to_string(), "abc"));
    assert!(!text_is(&"abc".to_string(), "abd"));
    assert!(!text_is(&"".to_string(), "a"));
    assert!(some_text_is(&Some("x".to_string()), "x"));
    assert!(!some_text_is(&None, "x"));
}

fn good_misc() -> MiscReport {
    MiscReport {
        automation_mode_at_start: None,
        automation_mode_after_set: Some(AutomationMode::Touch),
        next_undo: Some("Add new track".to_string()),
    }
}

#[test]
fn misc_pass_and_fail() {
    assert_eq!(check_misc(&good_misc()), Ok(()));

    let mut r = good_misc();
    r.automation_mode_at_start = Some(AutomationMode::Read);
    r.next_undo = None;
    assert_eq!(check_misc(&r), Err(MiscFailure::AutomationModeAtStart));

    let mut r = good_misc();
    r.automation_mode_after_set = Some(AutomationMode::Latch);
    assert_eq!(check_misc(&r), Err(MiscFailure::AutomationModeAfterSet));

    let mut r = good_misc();
    r.automation_mode_after_set = None;
    assert_eq!(check_misc(&r), Err(MiscFailure::AutomationModeAfterSet));

    let mut r = good_misc();
    r.next_undo = None;
    assert_eq!(check_misc(&r), Err(MiscFailure::WrongUndo));

    let mut r = good_misc();
    r.next_undo = Some("Remove track".to_string());
    assert_eq!(check_misc(&r), Err(MiscFailure::WrongUndo));
}

const YELLOW: Rgb = Rgb { r: 255, g: 255, b: 0 };
const RED: Rgb = Rgb { r: 255, g: 0, b: 0 };

fn good_colors() -> ColorReport {
    ColorReport {
        yellow: YELLOW,
        yellow_again: YELLOW,
        red: RED,
        on_linux: true,
        yellow_native: 16776960,
        color_of_yellow_native: YELLOW,
    }
}

#[test]
fn colors_pass_and_fail() {
    assert_eq!(YELLOW_NATIVE, 16776960);
    assert_eq!(check_colors(&good_colors()), Ok(()));

    let mut r = good_colors();
    r.yellow_again = RED;
    assert_eq!(check_colors(&r), Err(ColorFailure::YellowUnstable));

    let mut r = good_colors();
    r.red = YELLOW;
    assert_eq!(check_colors(&r), Err(ColorFailure::YellowIsRed));

    let mut r = good_colors();
    r.yellow_native = 65535;
    assert_eq!(check_colors(&r), Err(ColorFailure::WrongNative));

    let mut r = good_colors();
    r.color_of_yellow_native = RED;
    assert_eq!(check_colors(&r), Err(ColorFailure::WrongColorFromNative));
}

#[test]
fn native_colors_are_only_checked_on_linux() {
    let mut r = good_colors();
    r.on_linux = false;
    r.yellow_native = 65535;
    r.color_of_yellow_native = RED;
    assert_eq!(check_colors(&r), Ok(()));
}

fn good_ext_state() -> ExtStateReport {
    ExtStateReport {
        first_at_start: Some(10),
        first_after_write: Some(56),
        first_after_delete: None,
        samples_at_start: None,
        samples_after_write: Some(35896),
        samples_after_delete: None,
        project_after_delete: None,
    }
}

#[test]
fn ext_state_pass_and_fail() {
    assert_eq!(check_ext_state(&good_ext_state()), Ok(()));

    let mut r = good_ext_state();
    r.first_at_start = None;
    assert_eq!(check_ext_state(&r), Err(ExtStateFailure::FirstAtStart));

    let mut r = good_ext_state();
    r.first_after_write = Some(10);
    assert_eq!(check_ext_state(&r), Err(ExtStateFailure::FirstAfterWrite));

    let mut r = good_ext_state();
    r.first_after_delete = Some(56);
    assert_eq!(check_ext_state(&r), Err(ExtStateFailure::FirstAfterDelete));

    let mut r = good_ext_state();
    r.samples_at_start = Some(35896);
    assert_eq!(check_ext_state(&r), Err(ExtStateFailure::SamplesAtStart));

    let mut r = good_ext_state();
    r.samples_after_write = None;
    assert_eq!(check_ext_state(&r), Err(ExtStateFailure::SamplesAfterWrite));

    let mut r = good_ext_state();
    r.samples_after_delete = Some(35896);
    assert_eq!(check_ext_state(&r), Err(ExtStateFailure::SamplesAfterDelete));

    let mut r = good_ext_state();
    r.project_after_delete = Some(3344);
    assert_eq!(check_ext_state(&r), Err(ExtStateFailure::ProjectAfterDelete));

    let mut r = good_ext_state();
    r.first_after_write = Some(1);
    r.project_after_delete = Some(3344);
    assert_eq!(check_ext_state(&r), Err(ExtStateFailure::FirstAfterWrite));
}
