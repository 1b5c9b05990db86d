//! What the "Projects" step expects of project tabs, the transport and the
//! render settings.

use vstd::prelude::*;
use crate::text::some_text_is;

verus! {

/// The render directory that the step writes.
pub open spec fn render_directory() -> Seq<char> {
    "my_directory"@
}

/// The render directory that the step writes.
pub fn render_directory_name() -> (s: String)
    ensures
        s@ == render_directory(),
{
    "my_directory".to_string()
}

/// Which part of the project is rendered.
#[derive(Clone, Copy, Debug, PartialEq, Eq, Structural)]
pub enum BoundsMode {
    Custom,
    EntireProject,
    TimeSelection,
    AllRegions,
    SelectedItems,
    SelectedRegions,
}

/// What is rendered.
#[derive(Clone, Copy, Debug, PartialEq, Eq, Structural)]
pub enum RenderMode {
    MasterMix,
    MasterAndStems,
    Stems,
    RenderMatrix,
    SelectedItems,
    SelectedItemsViaMaster,
}

/// The render settings of a project.
#[derive(Clone, Copy, Debug, PartialEq, Eq, Structural)]
pub struct RenderSettings {
    pub mode: RenderMode,
    pub use_mono: bool,
    pub add_to_project: bool,
}

/// The render settings of a fresh project.
pub open spec fn default_render_settings() -> RenderSettings {
    RenderSettings { mode: RenderMode::MasterMix, use_mono: false, add_to_project: false }
}

/// The render settings that the step writes.
pub open spec fn written_render_settings() -> RenderSettings {
    RenderSettings { mode: RenderMode::RenderMatrix, use_mono: true, add_to_project: true }
}

/// The render settings that the step writes.
pub fn render_settings_to_write() -> (s: RenderSettings)
    ensures
        s == written_render_settings(),
{
    RenderSettings { mode: RenderMode::RenderMatrix, use_mono: true, add_to_project: true }
}

/// The transport of a project at one moment.
#[derive(Clone, Copy, Debug, PartialEq, Eq, Structural)]
pub struct Transport {
    pub stopped: bool,
    pub playing: bool,
    pub paused: bool,
}

/// The render channel count of a fresh project.
pub const DEFAULT_CHANNELS: u32 = 2;

/// The render channel count that the step writes.
pub const WRITTEN_CHANNELS: u32 = 3;

/// The project sample rate that the step writes.
pub const WRITTEN_SAMPLE_RATE: u32 = 96000;

/// The render sample rate that the step writes.
pub const WRITTEN_RENDER_SAMPLE_RATE: u32 = 22050;

/// The length of the render tail that the step writes, in nanoseconds.
pub const WRITTEN_TAIL_NANOS: u128 = 2000000000;

/// The flags of the render tail that the step writes: in the time selection
/// and in all regions.
pub const WRITTEN_TAIL_FLAGS: u32 = 12;

/// What REAPER reported while the step switched tabs, ran the transport and
/// set the render bounds mode.
pub struct TabsReport {
    /// The tab that was current at the start was current.
    pub current_was_current: bool,
    /// The tab added in the background was current.
    pub new_was_current: bool,
    /// The added tab was current after the step switched to it.
    pub new_became_current: bool,
    /// The first tab was still current after the switch.
    pub current_still_current: bool,
    /// The first tab and the added tab compared equal.
    pub current_equals_new: bool,
    /// For each listed project in REAPER's order, whether it equals the first tab.
    pub listed_equal_current: Vec<bool>,
    /// The current project and a tab opened as current after it compared equal.
    pub current_equals_opened_tab: bool,
    /// The render directory read back, if it is valid text.
    pub render_directory: Option<String>,
    /// The transport before the step touched it.
    pub at_start: Transport,
    /// The transport after play.
    pub after_play: Transport,
    /// The transport after pause.
    pub after_pause: Transport,
    /// The transport after stop.
    pub after_stop: Transport,
    /// The render bounds mode of the project before the step set it.
    pub bounds_mode_at_start: BoundsMode,
    /// The render bounds mode after the step set selected items.
    pub bounds_mode_after_set: BoundsMode,
}

/// What REAPER reported while the step set and read back render settings.
pub struct RenderReport {
    pub settings_at_start: RenderSettings,
    pub settings_after_set: RenderSettings,
    pub channels_at_start: u32,
    pub channels_after_set: u32,
    pub sample_rate: Option<u32>,
    pub render_sample_rate: Option<u32>,
    pub tail_nanos: u128,
    pub tail_flags: u32,
}

/// The expectations of the step, in the order in which it checks them.
#[derive(Clone, Copy, Debug, PartialEq, Eq, Structural)]
pub enum ProjectsFailure {
    CurrentNotCurrent,
    NewAlreadyCurrent,
    NewNotCurrent,
    CurrentStillCurrent,
    SameTab,
    WrongProjectCount,
    CurrentNotListed,
    SameOpenedTab,
    WrongRenderDirectory,
    NotStoppedAtStart,
    PlayingAtStart,
    StoppedWhilePlaying,
    NotPlaying,
    StoppedWhilePaused,
    PlayingWhilePaused,
    NotPaused,
    NotStopped,
    PlayingAfterStop,
    BoundsModeAtStart,
    BoundsModeAfterSet,
    RenderSettingsAtStart,
    RenderSettingsAfterSet,
    ChannelsAtStart,
    ChannelsAfterSet,
    WrongSampleRate,
    WrongRenderSampleRate,
    WrongRenderTail,
}

/// The position of an expectation in the step's order.
pub open spec fn projects_rank(f: ProjectsFailure) -> int {
    match f {
        ProjectsFailure::CurrentNotCurrent => 0,
        ProjectsFailure::NewAlreadyCurrent => 1,
        ProjectsFailure::NewNotCurrent => 2,
        ProjectsFailure::CurrentStillCurrent => 3,
        ProjectsFailure::SameTab => 4,
        ProjectsFailure::WrongProjectCount => 5,
        ProjectsFailure::CurrentNotListed => 6,
        ProjectsFailure::SameOpenedTab => 7,
        ProjectsFailure::WrongRenderDirectory => 8,
        ProjectsFailure::NotStoppedAtStart => 9,
        ProjectsFailure::PlayingAtStart => 10,
        ProjectsFailure::StoppedWhilePlaying => 11,
        ProjectsFailure::NotPlaying => 12,
        ProjectsFailure::StoppedWhilePaused => 13,
        ProjectsFailure::PlayingWhilePaused => 14,
        ProjectsFailure::NotPaused => 15,
        ProjectsFailure::NotStopped => 16,
        ProjectsFailure::PlayingAfterStop => 17,
        ProjectsFailure::BoundsModeAtStart => 18,
        ProjectsFailure::BoundsModeAfterSet => 19,
        ProjectsFailure::RenderSettingsAtStart => 20,
        ProjectsFailure::RenderSettingsAfterSet => 21,
        ProjectsFailure::ChannelsAtStart => 22,
        ProjectsFailure::ChannelsAfterSet => 23,
        ProjectsFailure::WrongSampleRate => 24,
        ProjectsFailure::WrongRenderSampleRate => 25,
        ProjectsFailure::WrongRenderTail => 26,
    }
}

/// Whether the expectation named by `f` holds of the tabs and transport
/// report; the expectations of the render part hold trivially here.
pub open spec fn tabs_holds(r: TabsReport, f: ProjectsFailure) -> bool {
    match f {
        ProjectsFailure::CurrentNotCurrent => r.current_was_current,
        ProjectsFailure::NewAlreadyCurrent => !r.new_was_current,
        ProjectsFailure::NewNotCurrent => r.new_became_current,
        ProjectsFailure::CurrentStillCurrent => !r.current_still_current,
        ProjectsFailure::SameTab => !r.current_equals_new,
        ProjectsFailure::WrongProjectCount => r.listed_equal_current@.len() == 2,
        ProjectsFailure::CurrentNotListed => r.listed_equal_current@.contains(true),
        ProjectsFailure::SameOpenedTab => !r.current_equals_opened_tab,
        ProjectsFailure::WrongRenderDirectory => r.render_directory matches Some(d) && d@
            == render_directory(),
        ProjectsFailure::NotStoppedAtStart => r.at_start.stopped,
        ProjectsFailure::PlayingAtStart => !r.at_start.playing,
        ProjectsFailure::StoppedWhilePlaying => !r.after_play.stopped,
        ProjectsFailure::NotPlaying => r.after_play.playing,
        ProjectsFailure::StoppedWhilePaused => !r.after_pause.stopped,
        ProjectsFailure::PlayingWhilePaused => !r.after_pause.playing,
        ProjectsFailure::NotPaused => r.after_pause.paused,
        ProjectsFailure::NotStopped => r.after_stop.stopped,
        ProjectsFailure::PlayingAfterStop => !r.after_stop.playing,
        ProjectsFailure::BoundsModeAtStart => r.bounds_mode_at_start == BoundsMode::EntireProject,
        ProjectsFailure::BoundsModeAfterSet => r.bounds_mode_after_set == BoundsMode::SelectedItems,
        _ => true,
    }
}

/// Whether the expectation named by `f` holds of the render report; the
/// expectations of the tabs and transport part hold trivially here.
pub open spec fn render_holds(r: RenderReport, f: ProjectsFailure) -> bool {
    match f {
        ProjectsFailure::RenderSettingsAtStart => r.settings_at_start == default_render_settings(),
        ProjectsFailure::RenderSettingsAfterSet => r.settings_after_set == written_render_settings(),
        ProjectsFailure::ChannelsAtStart => r.channels_at_start == DEFAULT_CHANNELS,
        ProjectsFailure::ChannelsAfterSet => r.channels_after_set == WRITTEN_CHANNELS,
        ProjectsFailure::WrongSampleRate => r.sample_rate == Some(WRITTEN_SAMPLE_RATE),
        ProjectsFailure::WrongRenderSampleRate => r.render_sample_rate == Some(
            WRITTEN_RENDER_SAMPLE_RATE,
        ),
        ProjectsFailure::WrongRenderTail => r.tail_nanos == WRITTEN_TAIL_NANOS && r.tail_flags
            == WRITTEN_TAIL_FLAGS,
        _ => true,
    }
}

/// The tabs and transport as the step expects them, field by field.
pub open spec fn tabs_as_expected(r: TabsReport) -> bool {
    &&& r.current_was_current && !r.new_was_current
    &&& r.new_became_current && !r.current_still_current
    &&& !r.current_equals_new
    &&& r.listed_equal_current@.len() == 2
    &&& (r.listed_equal_current@[0] || r.listed_equal_current@[1])
    &&& !r.current_equals_opened_tab
    &&& r.render_directory matches Some(d) && d@ == "my_directory"@
    &&& r.at_start == Transport { stopped: true, playing: false, paused: r.at_start.paused }
    &&& r.after_play == Transport { stopped: false, playing: true, paused: r.after_play.paused }
    &&& r.after_pause == Transport { stopped: false, playing: false, paused: true }
    &&& r.after_stop == Transport { stopped: true, playing: false, paused: r.after_stop.paused }
    &&& r.bounds_mode_at_start == BoundsMode::EntireProject
    &&& r.bounds_mode_after_set == BoundsMode::SelectedItems
}

/// The tabs and transport part passes exactly when every field reads as the
/// step expects it: one of the two listed projects is the first tab, the
/// transport runs stopped, playing, paused, stopped, and so on.
pub proof fn law_tabs_pass_exactly_as_expected(r: TabsReport)
    ensures
        (forall|f: ProjectsFailure| tabs_holds(r, f)) <==> tabs_as_expected(r),
{
    if r.listed_equal_current@.len() == 2 {
        assert(r.listed_equal_current@.contains(true) <==> (r.listed_equal_current@[0]
            || r.listed_equal_current@[1]));
    }
    if forall|f: ProjectsFailure| tabs_holds(r, f) {
        assert(tabs_holds(r, ProjectsFailure::CurrentNotCurrent));
        assert(tabs_holds(r, ProjectsFailure::NewAlreadyCurrent));
        assert(tabs_holds(r, ProjectsFailure::NewNotCurrent));
        assert(tabs_holds(r, ProjectsFailure::CurrentStillCurrent));
        assert(tabs_holds(r, ProjectsFailure::SameTab));
        assert(tabs_holds(r, ProjectsFailure::WrongProjectCount));
        assert(tabs_holds(r, ProjectsFailure::CurrentNotListed));
        assert(tabs_holds(r, ProjectsFailure::SameOpenedTab));
        assert(tabs_holds(r, ProjectsFailure::WrongRenderDirectory));
        assert(tabs_holds(r, ProjectsFailure::NotStoppedAtStart));
        assert(tabs_holds(r, ProjectsFailure::PlayingAtStart));
        assert(tabs_holds(r, ProjectsFailure::StoppedWhilePlaying));
        assert(tabs_holds(r, ProjectsFailure::NotPlaying));
        assert(tabs_holds(r, ProjectsFailure::StoppedWhilePaused));
        assert(tabs_holds(r, ProjectsFailure::PlayingWhilePaused));
        assert(tabs_holds(r, ProjectsFailure::NotPaused));
        assert(tabs_holds(r, ProjectsFailure::NotStopped));
        assert(tabs_holds(r, ProjectsFailure::PlayingAfterStop));
        assert(tabs_holds(r, ProjectsFailure::BoundsModeAtStart));
        assert(tabs_holds(r, ProjectsFailure::BoundsModeAfterSet));
    }
}

/// The render part passes exactly when the settings read back as written,
/// in all three fields, and the channels, sample rates and tail read back
/// as written.
pub proof fn law_render_passes_exactly_on_written_settings(r: RenderReport)
    ensures
        (forall|f: ProjectsFailure| render_holds(r, f)) <==> (r.settings_at_start
            == (RenderSettings { mode: RenderMode::MasterMix, use_mono: false, add_to_project: false })
            && r.settings_after_set == (RenderSettings {
            mode: RenderMode::RenderMatrix,
            use_mono: true,
            add_to_project: true,
        }) && r.channels_at_start == 2 && r.channels_after_set == 3 && r.sample_rate == Some(
            96000u32,
        ) && r.render_sample_rate == Some(22050u32) && r.tail_nanos == 2000000000
            && r.tail_flags == 12),
{
    if forall|f: ProjectsFailure| render_holds(r, f) {
        assert(render_holds(r, ProjectsFailure::RenderSettingsAtStart));
        assert(render_holds(r, ProjectsFailure::RenderSettingsAfterSet));
        assert(render_holds(r, ProjectsFailure::ChannelsAtStart));
        assert(render_holds(r, ProjectsFailure::ChannelsAfterSet));
        assert(render_holds(r, ProjectsFailure::WrongSampleRate));
        assert(render_holds(r, ProjectsFailure::WrongRenderSampleRate));
        assert(render_holds(r, ProjectsFailure::WrongRenderTail));
    }
}

/// Read-back settings that differ from the written ones in any one field
/// fail the settings expectation.
pub proof fn law_settings_must_match_in_every_field(r: RenderReport)
    requires
        r.settings_after_set.mode != RenderMode::RenderMatrix || !r.settings_after_set.use_mono
            || !r.settings_after_set.add_to_project,
    ensures
        !render_holds(r, ProjectsFailure::RenderSettingsAfterSet),
{
}

fn contains_true(v: &Vec<bool>) -> (b: bool)
    ensures
        b == v@.contains(true),
{
    let mut i: usize = 0;
    while i < v.len()
        invariant
            i <= v@.len(),
            forall|j: int| 0 <= j < i ==> !v@[j],
        decreases v@.len() - i,
    {
        if v[i] {
            assert(v@[i as int] == true);
            return true;
        }
        i = i + 1;
    }
    false
}

/// Judges the tabs and transport part of the step: `Ok` when every
/// expectation of this part holds, else the first that fails.
pub fn check_tabs(r: &TabsReport) -> (v: Result<(), ProjectsFailure>)
    ensures
        v matches Err(f) ==> !tabs_holds(*r, f) && forall|g: ProjectsFailure|
            projects_rank(g) < projects_rank(f) ==> tabs_holds(*r, g),
        v is Ok <==> forall|f: ProjectsFailure| tabs_holds(*r, f),
        v is Ok <==> tabs_as_expected(*r),
{
    if !r.current_was_current {
        assert(!tabs_holds(*r, ProjectsFailure::CurrentNotCurrent));
        return Err(ProjectsFailure::CurrentNotCurrent);
    }
    if r.new_was_current {
        assert(!tabs_holds(*r, ProjectsFailure::NewAlreadyCurrent));
        return Err(ProjectsFailure::NewAlreadyCurrent);
    }
    if !r.new_became_current {
        assert(!tabs_holds(*r, ProjectsFailure::NewNotCurrent));
        return Err(ProjectsFailure::NewNotCurrent);
    }
    if r.current_still_current {
        assert(!tabs_holds(*r, ProjectsFailure::CurrentStillCurrent));
        return Err(ProjectsFailure::CurrentStillCurrent);
    }
    if r.current_equals_new {
        assert(!tabs_holds(*r, ProjectsFailure::SameTab));
        return Err(ProjectsFailure::SameTab);
    }
    if r.listed_equal_current.len() != 2 {
        assert(!tabs_holds(*r, ProjectsFailure::WrongProjectCount));
        return Err(ProjectsFailure::WrongProjectCount);
    }
    if !contains_true(&r.listed_equal_current) {
        assert(!tabs_holds(*r, ProjectsFailure::CurrentNotListed));
        return Err(ProjectsFailure::CurrentNotListed);
    }
    if r.current_equals_opened_tab {
        assert(!tabs_holds(*r, ProjectsFailure::SameOpenedTab));
        return Err(ProjectsFailure::SameOpenedTab);
    }
    if !some_text_is(&r.render_directory, "my_directory") {
        assert(!tabs_holds(*r, ProjectsFailure::WrongRenderDirectory));
        return Err(ProjectsFailure::WrongRenderDirectory);
    }
    if !r.at_start.stopped {
        assert(!tabs_holds(*r, ProjectsFailure::NotStoppedAtStart));
        return Err(ProjectsFailure::NotStoppedAtStart);
    }
    if r.at_start.playing {
        assert(!tabs_holds(*r, ProjectsFailure::PlayingAtStart));
        return Err(ProjectsFailure::PlayingAtStart);
    }
    if r.after_play.stopped {
        assert(!tabs_holds(*r, ProjectsFailure::StoppedWhilePlaying));
        return Err(ProjectsFailure::StoppedWhilePlaying);
    }
    if !r.after_play.playing {
        assert(!tabs_holds(*r, ProjectsFailure::NotPlaying));
        return Err(ProjectsFailure::NotPlaying);
    }
    if r.after_pause.stopped {
        assert(!tabs_holds(*r, ProjectsFailure::StoppedWhilePaused));
        return Err(ProjectsFailure::StoppedWhilePaused);
    }
    if r.after_pause.playing {
        assert(!tabs_holds(*r, ProjectsFailure::PlayingWhilePaused));
        return Err(ProjectsFailure::PlayingWhilePaused);
    }
    if !r.after_pause.paused {
        assert(!tabs_holds(*r, ProjectsFailure::NotPaused));
        return Err(ProjectsFailure::NotPaused);
    }
    if !r.after_stop.stopped {
        assert(!tabs_holds(*r, ProjectsFailure::NotStopped));
        return Err(ProjectsFailure::NotStopped);
    }
    if r.after_stop.playing {
        assert(!tabs_holds(*r, ProjectsFailure::PlayingAfterStop));
        return Err(ProjectsFailure::PlayingAfterStop);
    }
    if r.bounds_mode_at_start != BoundsMode::EntireProject {
        assert(!tabs_holds(*r, ProjectsFailure::BoundsModeAtStart));
        return Err(ProjectsFailure::BoundsModeAtStart);
    }
    if r.bounds_mode_after_set != BoundsMode::SelectedItems {
        assert(!tabs_holds(*r, ProjectsFailure::BoundsModeAfterSet));
        return Err(ProjectsFailure::BoundsModeAfterSet);
    }
    Ok(())
}

fn is_some_rate(v: Option<u32>, expected: u32) -> (b: bool)
    ensures
        b == (v == Some(expected)),
{
    match v {
        Some(x) => x == expected,
        None => false,
    }
}

/// Judges the render part of the step: `Ok` when every expectation of this
/// part holds, else the first that fails.
pub fn check_render(r: &RenderReport) -> (v: Result<(), ProjectsFailure>)
    ensures
        v matches Err(f) ==> !render_holds(*r, f) && forall|g: ProjectsFailure|
            projects_rank(g) < projects_rank(f) ==> render_holds(*r, g),
        v is Ok <==> forall|f: ProjectsFailure| render_holds(*r, f),
        v is Ok <==> r.settings_at_start == (RenderSettings {
            mode: RenderMode::MasterMix,
            use_mono: false,
            add_to_project: false,
        }) && r.settings_after_set == (RenderSettings {
            mode: RenderMode::RenderMatrix,
            use_mono: true,
            add_to_project: true,
        }) && r.channels_at_start == 2 && r.channels_after_set == 3 && r.sample_rate == Some(
            96000u32,
        ) && r.render_sample_rate == Some(22050u32) && r.tail_nanos == 2000000000
            && r.tail_flags == 12,
{
    let default_settings = RenderSettings {
        mode: RenderMode::MasterMix,
        use_mono: false,
        add_to_project: false,
    };
    if r.settings_at_start != default_settings {
        assert(!render_holds(*r, ProjectsFailure::RenderSettingsAtStart));
        return Err(ProjectsFailure::RenderSettingsAtStart);
    }
    if r.settings_after_set != render_settings_to_write() {
        assert(!render_holds(*r, ProjectsFailure::RenderSettingsAfterSet));
        return Err(ProjectsFailure::RenderSettingsAfterSet);
    }
    if r.channels_at_start != DEFAULT_CHANNELS {
        assert(!render_holds(*r, ProjectsFailure::ChannelsAtStart));
        return Err(ProjectsFailure::ChannelsAtStart);
    }
    if r.channels_after_set != WRITTEN_CHANNELS {
        assert(!render_holds(*r, ProjectsFailure::ChannelsAfterSet));
        return Err(ProjectsFailure::ChannelsAfterSet);
    }
    if !is_some_rate(r.sample_rate, WRITTEN_SAMPLE_RATE) {
        assert(!render_holds(*r, ProjectsFailure::WrongSampleRate));
        return Err(ProjectsFailure::WrongSampleRate);
    }
    if !is_some_rate(r.render_sample_rate, WRITTEN_RENDER_SAMPLE_RATE) {
        assert(!render_holds(*r, ProjectsFailure::WrongRenderSampleRate));
        return Err(ProjectsFailure::WrongRenderSampleRate);
    }
    if r.tail_nanos != WRITTEN_TAIL_NANOS || r.tail_flags != WRITTEN_TAIL_FLAGS {
        assert(!render_holds(*r, ProjectsFailure::WrongRenderTail));
        return Err(ProjectsFailure::WrongRenderTail);
    }
    Ok(())
}

} // verus!
