use test_steps::dialogs::{
    check_answers, check_browse, check_message_boxes, form_captions, texts_equal, BrowseFailure,
    BrowseReport, MessageBoxFailure, MessageBoxValue,
};
use test_steps::projects::{
    check_render, check_tabs, render_directory_name, render_settings_to_write, BoundsMode,
    ProjectsFailure, RenderMode, RenderReport, RenderSettings, TabsReport, Transport,
};

fn transport(stopped: bool, playing: bool, paused: bool) -> Transport {
    Transport { stopped, playing, paused }
}

fn good_tabs() -> TabsReport {
    TabsReport {
        current_was_current: true,
        new_was_current: false,
        new_became_current: true,
        current_still_current: false,
        current_equals_new: false,
        listed_equal_current: vec![true, false],
        current_equals_opened_tab: false,
        render_directory: Some("my_directory".to_string()),
        at_start: transport(true, false, false),
        after_play: transport(false, true, false),
        after_pause: transport(false, false, true),
        after_stop: transport(true, false, false),
        bounds_mode_at_start: BoundsMode::EntireProject,
        bounds_mode_after_set: BoundsMode::SelectedItems,
    }
}

#[test]
fn render_constants() {
    assert_eq!(render_directory_name(), "my_directory");
    assert_eq!(
        render_settings_to_write(),
        RenderSettings { mode: RenderMode::RenderMatrix, use_mono: true, add_to_project: true }
    );
}

#[test]
fn tabs_pass() {
    assert_eq!(check_tabs(&good_tabs()), Ok(()));
    let mut r = good_tabs();
    r.listed_equal_current = vec![false, true];
    assert_eq!(check_tabs(&r), Ok(()));
}

#[test]
fn tabs_fail_in_order() {
    let cases: Vec<(fn(&mut TabsReport), ProjectsFailure)> = vec![
        (|r| r.current_was_current = false, ProjectsFailure::CurrentNotCurrent),
        (|r| r.new_was_current = true, ProjectsFailure::NewAlreadyCurrent),
        (|r| r.new_became_current = false, ProjectsFailure::NewNotCurrent),
        (|r| r.current_still_current = true, ProjectsFailure::CurrentStillCurrent),
        (|r| r.current_equals_new = true, ProjectsFailure::SameTab),
        (|r| r.listed_equal_current = vec![true, false, false], ProjectsFailure::WrongProjectCount),
        (|r| r.listed_equal_current = vec![false, false], ProjectsFailure::CurrentNotListed),
        (|r| r.current_equals_opened_tab = true, ProjectsFailure::SameOpenedTab),
        (|r| r.render_directory = None, ProjectsFailure::WrongRenderDirectory),
        (|r| r.at_start.stopped = false, ProjectsFailure::NotStoppedAtStart),
        (|r| r.at_start.playing = true, ProjectsFailure::PlayingAtStart),
        (|r| r.after_play.stopped = true, ProjectsFailure::StoppedWhilePlaying),
        (|r| r.after_play.playing = false, ProjectsFailure::NotPlaying),
        (|r| r.after_pause.stopped = true, ProjectsFailure::StoppedWhilePaused),
        (|r| r.after_pause.playing = true, ProjectsFailure::PlayingWhilePaused),
        (|r| r.after_pause.paused = false, ProjectsFailure::NotPaused),
        (|r| r.after_stop.stopped = false, ProjectsFailure::NotStopped),
        (|r| r.after_stop.playing = true, ProjectsFailure::PlayingAfterStop),
        (|r| r.bounds_mode_at_start = BoundsMode::Custom, ProjectsFailure::BoundsModeAtStart),
        (|r| r.bounds_mode_after_set = BoundsMode::AllRegions, ProjectsFailure::BoundsModeAfterSet),
    ];
    for (spoil, failure) in cases {
        let mut r = good_tabs();
        spoil(&mut r);
        assert_eq!(check_tabs(&r), Err(failure));
    }
    let mut r = good_tabs();
    r.render_directory = Some("other".to_string());
    r.after_stop.playing = true;
    assert_eq!(check_tabs(&r), Err(ProjectsFailure::WrongRenderDirectory));
}

fn good_render() -> RenderReport {
    RenderReport {
        settings_at_start: RenderSettings {
            mode: RenderMode::MasterMix,
            use_mono: false,
            add_to_project: false,
        },
        settings_after_set: RenderSettings {
            mode: RenderMode::RenderMatrix,
            use_mono: true,
            add_to_project: true,
        },
        channels_at_start: 2,
        channels_after_set: 3,
        sample_rate: Some(96000),
        render_sample_rate: Some(22050),
        tail_nanos: 2_000_000_000,
        tail_flags: 4 | 8,
    }
}

#[test]
fn render_pass_and_fail() {
    assert_eq!(check_render(&good_render()), Ok(()));
    let cases: Vec<(fn(&mut RenderReport), ProjectsFailure)> = vec![
        (|r| r.settings_at_start.use_mono = true, ProjectsFailure::RenderSettingsAtStart),
        (|r| r.settings_after_set.mode = RenderMode::Stems, ProjectsFailure::RenderSettingsAfterSet),
        (|r| r.settings_after_set.add_to_project = false, ProjectsFailure::RenderSettingsAfterSet),
        (|r| r.channels_at_start = 1, ProjectsFailure::ChannelsAtStart),
        (|r| r.channels_after_set = 2, ProjectsFailure::ChannelsAfterSet),
        (|r| r.sample_rate = None, ProjectsFailure::WrongSampleRate),
        (|r| r.render_sample_rate = Some(44100), ProjectsFailure::WrongRenderSampleRate),
        (|r| r.tail_nanos = 2_000_000, ProjectsFailure::WrongRenderTail),
        (|r| r.tail_flags = 4, ProjectsFailure::WrongRenderTail),
    ];
    for (spoil, failure) in cases {
        let mut r = good_render();
        spoil(&mut r);
        assert_eq!(check_render(&r), Err(failure));
    }
}

fn strings(items: &[&str]) -> Vec<String> {
    items.iter().map(|s| s.to_string()).collect()
}

fn good_browse() -> BrowseReport {
    BrowseReport {
        first_error: Some("User aborted".to_string()),
        user_aborted_message: "User aborted".to_string(),
        chosen_path: strings(&["/", "home", "u", "Cargo.toml"]),
        manifest_path: strings(&["/", "home", "u", "Cargo.toml"]),
    }
}

#[test]
fn browse_pass_and_fail() {
    assert_eq!(check_browse(&good_browse()), Ok(()));

    let mut r = good_browse();
    r.first_error = None;
    assert_eq!(check_browse(&r), Err(BrowseFailure::NotAborted));

    let mut r = good_browse();
    r.first_error = Some("Other".to_string());
    assert_eq!(check_browse(&r), Err(BrowseFailure::NotAborted));

    let mut r = good_browse();
    r.chosen_path = strings(&["/", "home", "u", "other.toml"]);
    assert_eq!(check_browse(&r), Err(BrowseFailure::WrongFile));

    let mut r = good_browse();
    r.chosen_path = strings(&["/", "home", "u"]);
    assert_eq!(check_browse(&r), Err(BrowseFailure::WrongFile));
}

#[test]
fn texts_compare_item_by_item() {
    assert!(texts_equal(&strings(&[]), &strings(&[])));
    assert!(texts_equal(&strings(&["a", "b"]), &strings(&["a", "b"])));
    assert!(!texts_equal(&strings(&["a", "b"]), &strings(&["b", "a"])));
    assert!(!texts_equal(&strings(&["a"]), &strings(&["a", "b"])));
}

#[test]
fn form_has_four_captions() {
    assert_eq!(
        form_captions(),
        strings(&["age(18)", "name(user)", "leave blank", "fate(atheist)"])
    );
}

fn pair(k: &str, v: &str) -> (String, String) {
    (k.to_string(), v.to_string())
}

#[test]
fn answers_are_matched_in_any_order() {
    let answers = vec![
        pair("fate(atheist)", "atheist"),
        pair("age(18)", "18"),
        pair("leave blank", ""),
        pair("name(user)", "user"),
    ];
    assert_eq!(check_answers(&answers), Ok(()));
}

#[test]
fn wrong_answers_are_refused() {
    let wrong_value = vec![
        pair("age(18)", "19"),
        pair("name(user)", "user"),
        pair("leave blank", ""),
        pair("fate(atheist)", "atheist"),
    ];
    assert_eq!(check_answers(&wrong_value), Err(()));
    let missing = vec![pair("age(18)", "18"), pair("name(user)", "user"), pair("leave blank", "")];
    assert_eq!(check_answers(&missing), Err(()));
    let extra = vec![
        pair("age(18)", "18"),
        pair("name(user)", "user"),
        pair("leave blank", ""),
        pair("fate(atheist)", "atheist"),
        pair("more", "x"),
    ];
    assert_eq!(check_answers(&extra), Err(()));
}

#[test]
fn message_boxes() {
    assert_eq!(check_message_boxes(MessageBoxValue::OkButton, MessageBoxValue::Retry), Ok(()));
    assert_eq!(
        check_message_boxes(MessageBoxValue::Cancel, MessageBoxValue::Retry),
        Err(MessageBoxFailure::FirstNotOk)
    );
    assert_eq!(
        check_message_boxes(MessageBoxValue::OkButton, MessageBoxValue::Cancel),
        Err(MessageBoxFailure::SecondNotRetry)
    );
}
