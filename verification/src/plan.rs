//! The ordered plan of integration-test steps.

use vstd::prelude::*;

verus! {

broadcast use vstd::string::group_string_axioms;

/// The REAPER versions on which a step runs.
#[derive(Clone, Copy, Debug, PartialEq, Eq, Structural)]
pub enum VersionRestriction {
    AllVersions,
}

/// Which body a step runs against REAPER.
#[derive(Clone, Copy, Debug, PartialEq, Eq, Structural)]
pub enum StepKind {
    GlobalInstances,
    Actions,
    Projects,
    BrowseForFile,
    UserInputs,
    MessageBox,
    Misc,
    MiscTypes,
    ExtState,
    Markers,
    Tracks,
}

impl StepKind {
    /// The step waits for a person to answer a dialog.
    pub open spec fn needs_user(self) -> bool {
        ||| self is BrowseForFile
        ||| self is UserInputs
        ||| self is MessageBox
    }
}

/// The name under which each kind of step is reported.
pub open spec fn step_name(kind: StepKind) -> Seq<char> {
    match kind {
        StepKind::GlobalInstances => "Global instances"@,
        StepKind::Actions => "Actions"@,
        StepKind::Projects => "Projects"@,
        StepKind::BrowseForFile => "Browse for file"@,
        StepKind::UserInputs => "Get user inputs."@,
        StepKind::MessageBox => "Get user inputs."@,
        StepKind::Misc => "Misc little functions"@,
        StepKind::MiscTypes => "Misc little types"@,
        StepKind::ExtState => "ExtState"@,
        StepKind::Markers => "Markers"@,
        StepKind::Tracks => "Tracks"@,
    }
}

/// One integration-test step: its name, the versions it runs on, and its body.
pub struct TestStep {
    pub version_restriction: VersionRestriction,
    pub name: String,
    pub kind: StepKind,
}

impl TestStep {
    /// The step as the plan declares it: runs on all versions, named after its kind.
    pub open spec fn is_declared(self, kind: StepKind) -> bool {
        &&& self.version_restriction == VersionRestriction::AllVersions
        &&& self.kind == kind
        &&& self.name@ == step_name(kind)
    }
}

/// Builds a step from its version restriction, name and body.
pub fn step(version_restriction: VersionRestriction, name: &str, kind: StepKind) -> (s: TestStep)
    ensures
        s.version_restriction == version_restriction,
        s.name@ == name@,
        s.kind == kind,
{
    TestStep { version_restriction, name: name.to_string(), kind }
}


/// Announces the global REAPER instances at each API level.
pub fn global_instances() -> (s: TestStep)
    ensures
        s.is_declared(StepKind::GlobalInstances),
{
    step(VersionRestriction::AllVersions, "Global instances", StepKind::GlobalInstances)
}

/// Registers an action, runs it twice and looks it up by id and by name.
pub fn action() -> (s: TestStep)
    ensures
        s.is_declared(StepKind::Actions),
{
    step(VersionRestriction::AllVersions, "Actions", StepKind::Actions)
}

/// Switches project tabs and reads back transport and render settings.
pub fn projects() -> (s: TestStep)
    ensures
        s.is_declared(StepKind::Projects),
{
    step(VersionRestriction::AllVersions, "Projects", StepKind::Projects)
}

/// Asks the user to pick a file, once aborting and once choosing.
pub fn browse_for_file() -> (s: TestStep)
    ensures
        s.is_declared(StepKind::BrowseForFile),
{
    step(VersionRestriction::AllVersions, "Browse for file", StepKind::BrowseForFile)
}

/// Asks the user to fill in a form of four fields.
pub fn get_user_inputs() -> (s: TestStep)
    ensures
        s.is_declared(StepKind::UserInputs),
{
    step(VersionRestriction::AllVersions, "Get user inputs.", StepKind::UserInputs)
}

/// Shows two message boxes and reads the pressed buttons.
pub fn show_message_box() -> (s: TestStep)
    ensures
        s.is_declared(StepKind::MessageBox),
{
    step(VersionRestriction::AllVersions, "Get user inputs.", StepKind::MessageBox)
}

/// Exercises the automation mode, reascripts, undo blocks and hardware lists.
pub fn misc() -> (s: TestStep)
    ensures
        s.is_declared(StepKind::Misc),
{
    step(VersionRestriction::AllVersions, "Misc little functions", StepKind::Misc)
}

/// Exercises colors and play rates.
pub fn misc_types() -> (s: TestStep)
    ensures
        s.is_declared(StepKind::MiscTypes),
{
    step(VersionRestriction::AllVersions, "Misc little types", StepKind::MiscTypes)
}

/// Writes, reads back and deletes persistent extension values.
pub fn ext_state() -> (s: TestStep)
    ensures
        s.is_declared(StepKind::ExtState),
{
    step(VersionRestriction::AllVersions, "ExtState", StepKind::ExtState)
}

/// Adds markers and a region, lists them and moves a marker.
pub fn markers() -> (s: TestStep)
    ensures
        s.is_declared(StepKind::Markers),
{
    step(VersionRestriction::AllVersions, "Markers", StepKind::Markers)
}

/// Adds tracks, looks them up and renames them.
pub fn tracks() -> (s: TestStep)
    ensures
        s.is_declared(StepKind::Tracks),
{
    step(VersionRestriction::AllVersions, "Tracks", StepKind::Tracks)
}

/// The kinds of the steps that run, in the order in which they run.
pub open spec fn planned_kinds() -> Seq<StepKind> {
    seq![
        StepKind::GlobalInstances,
        StepKind::Actions,
        StepKind::Projects,
        StepKind::Misc,
        StepKind::MiscTypes,
        StepKind::ExtState,
        StepKind::Markers,
        StepKind::Tracks,
    ]
}

/// Creates all integration test steps to be executed, in the order in which
/// they must run. The steps that wait for a person are left out.
pub fn create_test_steps() -> (steps: Vec<TestStep>)
    ensures
        steps@.len() == planned_kinds().len(),
        forall|i: int| 0 <= i < steps@.len() ==> (#[trigger] steps@[i]).is_declared(planned_kinds()[i]),
        forall|i: int| 0 <= i < steps@.len() ==> !(#[trigger] steps@[i].kind).needs_user(),
        forall|i: int, j: int|
            0 <= i < j < steps@.len() ==> #[trigger] steps@[i].kind != #[trigger] steps@[j].kind,
{
    let steps = vec![
        global_instances(),
        action(),
        projects(),
        misc(),
        misc_types(),
        ext_state(),
        markers(),
        tracks(),
    ];
    steps
}

} // verus!
