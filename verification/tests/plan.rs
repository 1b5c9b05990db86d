use test_steps::plan::{
    action, browse_for_file, create_test_steps, ext_state, get_user_inputs, global_instances,
    markers, misc, misc_types, projects, show_message_box, step, tracks, StepKind,
    VersionRestriction,
};

#[test]
fn plan_runs_steps_in_order() {
    let steps = create_test_steps();
    let names: Vec<&str> = steps.iter().map(|s| s.name.as_str()).collect();
    assert_eq!(
        names,
        vec![
            "Global instances",
            "Actions",
            "Projects",
            "Misc little functions",
            "Misc little types",
            "ExtState",
            "Markers",
            "Tracks",
        ]
    );
    let kinds: Vec<StepKind> = steps.iter().map(|s| s.kind).collect();
    assert_eq!(
        kinds,
        vec![
            StepKind::GlobalInstances,
            StepKind::Actions,
            StepKind::Projects,
            StepKind::Misc,
            StepKind::MiscTypes,
            StepKind::ExtState,
            StepKind::Markers,
            StepKind::Tracks,
        ]
    );
    assert!(steps.iter().all(|s| s.version_restriction == VersionRestriction::AllVersions));
}

#[test]
fn plan_leaves_out_user_interaction() {
    let steps = create_test_steps();
    for kind in [StepKind::BrowseForFile, StepKind::UserInputs, StepKind::MessageBox] {
        assert!(steps.iter().all(|s| s.kind != kind));
    }
}

#[test]
fn each_step_is_named_after_its_body() {
    let expected = [
        (global_instances(), "Global instances", StepKind::GlobalInstances),
        (action(), "Actions", StepKind::Actions),
        (projects(), "Projects", StepKind::Projects),
        (browse_for_file(), "Browse for file", StepKind::BrowseForFile),
        (get_user_inputs(), "Get user inputs.", StepKind::UserInputs),
        (show_message_box(), "Get user inputs.", StepKind::MessageBox),
        (misc(), "Misc little functions", StepKind::Misc),
        (misc_types(), "Misc little types", StepKind::MiscTypes),
        (ext_state(), "ExtState", StepKind::ExtState),
        (markers(), "Markers", StepKind::Markers),
        (tracks(), "Tracks", StepKind::Tracks),
    ];
    for (s, name, kind) in expected {
        assert_eq!(s.name, name);
        assert_eq!(s.kind, kind);
        assert_eq!(s.version_restriction, VersionRestriction::AllVersions);
    }
}

#[test]
fn step_keeps_its_arguments() {
    let s = step(VersionRestriction::AllVersions, "Anything", StepKind::Markers);
    assert_eq!(s.name, "Anything");
    assert_eq!(s.kind, StepKind::Markers);
}
