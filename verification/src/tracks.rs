//! What the "Tracks" step expects of the tracks it adds, and how it renames them.

use vstd::prelude::*;
use crate::text::{text_is, some_text_is};

verus! {

broadcast use vstd::string::group_string_axioms;

/// The index the step asks for its second track.
pub const SECOND_TRACK_INDEX: usize = 1;

/// What REAPER reported while the step added, looked up and renamed tracks.
pub struct TracksReport {
    /// A track named like the first track was found by name.
    pub first_found_by_name: bool,
    /// The name of the track at the first position, if there is one.
    pub first_name: Option<String>,
    /// The name of the track at the second track's index, if there is one.
    pub second_name: Option<String>,
    /// The index that the second track reports.
    pub second_index: usize,
    /// The index that the second track reports when opened for changes.
    pub second_index_for_changes: usize,
    /// The name of the third track right after it was added.
    pub third_name: String,
    /// The name of the track at the second track's index after the renaming
    /// pass, if there is a track there.
    pub second_name_after_renaming: Option<String>,
}

/// The expectations of the step, in the order in which it checks them.
#[derive(Clone, Copy, Debug, PartialEq, Eq, Structural)]
pub enum TracksFailure {
    FirstNotFoundByName,
    FirstName,
    SecondName,
    SecondIndex,
    SecondIndexForChanges,
    ThirdName,
    RenamedName,
}

/// Whether the expectation named by `f` holds of the report.
pub open spec fn tracks_holds(r: TracksReport, f: TracksFailure) -> bool {
    match f {
        TracksFailure::FirstNotFoundByName => r.first_found_by_name,
        TracksFailure::FirstName => r.first_name matches Some(n) && n@ == "first"@,
        TracksFailure::SecondName => r.second_name matches Some(n) && n@ == "second"@,
        TracksFailure::SecondIndex => r.second_index == SECOND_TRACK_INDEX,
        TracksFailure::SecondIndexForChanges => r.second_index_for_changes == SECOND_TRACK_INDEX,
        TracksFailure::ThirdName => r.third_name@ == "third"@,
        TracksFailure::RenamedName => r.second_name_after_renaming matches Some(n) && n@
            == "new second"@,
    }
}

/// The position of an expectation in the step's order.
pub open spec fn tracks_rank(f: TracksFailure) -> int {
    match f {
        TracksFailure::FirstNotFoundByName => 0,
        TracksFailure::FirstName => 1,
        TracksFailure::SecondName => 2,
        TracksFailure::SecondIndex => 3,
        TracksFailure::SecondIndexForChanges => 4,
        TracksFailure::ThirdName => 5,
        TracksFailure::RenamedName => 6,
    }
}

/// Judges the step: `Ok` when every expectation holds, else the first that fails.
pub fn check_tracks(r: &TracksReport) -> (v: Result<(), TracksFailure>)
    ensures
        v matches Err(f) ==> !tracks_holds(*r, f) && forall|g: TracksFailure|
            tracks_rank(g) < tracks_rank(f) ==> tracks_holds(*r, g),
        v is Ok <==> forall|f: TracksFailure| tracks_holds(*r, f),
{
    if !r.first_found_by_name {
        assert(!tracks_holds(*r, TracksFailure::FirstNotFoundByName));
        return Err(TracksFailure::FirstNotFoundByName);
    }
    if !some_text_is(&r.first_name, "first") {
        assert(!tracks_holds(*r, TracksFailure::FirstName));
        return Err(TracksFailure::FirstName);
    }
    if !some_text_is(&r.second_name, "second") {
        assert(!tracks_holds(*r, TracksFailure::SecondName));
        return Err(TracksFailure::SecondName);
    }
    if r.second_index != SECOND_TRACK_INDEX {
        assert(!tracks_holds(*r, TracksFailure::SecondIndex));
        return Err(TracksFailure::SecondIndex);
    }
    if r.second_index_for_changes != SECOND_TRACK_INDEX {
        assert(!tracks_holds(*r, TracksFailure::SecondIndexForChanges));
        return Err(TracksFailure::SecondIndexForChanges);
    }
    if !text_is(&r.third_name, "third") {
        assert(!tracks_holds(*r, TracksFailure::ThirdName));
        return Err(TracksFailure::ThirdName);
    }
    if !some_text_is(&r.second_name_after_renaming, "new second") {
        assert(!tracks_holds(*r, TracksFailure::RenamedName));
        return Err(TracksFailure::RenamedName);
    }
    Ok(())
}

/// The new name that the renaming pass gives a track, if it renames it.
pub open spec fn renamed(name: Seq<char>) -> Option<Seq<char>> {
    if name == "second"@ {
        Some("new second"@)
    } else {
        None
    }
}

/// The renaming pass over the project's tracks, for one track: a track named
/// "second" is renamed "new second", every other track is left as it is.
pub fn rename_track(name: &String) -> (r: Option<String>)
    ensures
        r matches Some(n) ==> renamed(name@) == Some(n@),
        r is None ==> renamed(name@) is None,
        r is Some <==> name@ == "second"@,
        r matches Some(n) ==> n@ == "new second"@,
{
    if text_is(name, "second") {
        Some("new second".to_string())
    } else {
        None
    }
}

/// The pass renames a track exactly when it is named "second", and then
/// names it "new second".
pub proof fn law_only_the_second_track_is_renamed(name: Seq<char>)
    ensures
        renamed(name) is Some <==> name == "second"@,
        renamed(name) matches Some(n) ==> n == "new second"@,
{
}

/// A track without a name, as REAPER creates one, is left as it is.
pub proof fn law_unnamed_track_is_kept()
    ensures
        renamed(Seq::<char>::empty()) is None,
{
    reveal_strlit("second");
    assert("second"@.len() == 6);
}

/// A track with any name other than "second" is left as it is.
pub proof fn law_other_names_are_kept(name: Seq<char>)
    requires
        name != "second"@,
    ensures
        renamed(name) is None,
{
}

/// The step passes only when each track reads what REAPER was asked to
/// give it, and the second track was renamed by the pass.
pub proof fn law_tracks_pass_only_on_expected_names(r: TracksReport)
    requires
        forall|f: TracksFailure| tracks_holds(r, f),
    ensures
        r.first_found_by_name,
        r.first_name matches Some(n) && n@ == "first"@,
        r.second_name matches Some(n) && n@ == "second"@,
        r.second_index == 1,
        r.second_index_for_changes == 1,
        r.third_name@ == "third"@,
        r.second_name_after_renaming matches Some(n) && n@ == "new second"@,
{
    assert(tracks_holds(r, TracksFailure::FirstNotFoundByName));
    assert(tracks_holds(r, TracksFailure::FirstName));
    assert(tracks_holds(r, TracksFailure::SecondName));
    assert(tracks_holds(r, TracksFailure::SecondIndex));
    assert(tracks_holds(r, TracksFailure::SecondIndexForChanges));
    assert(tracks_holds(r, TracksFailure::ThirdName));
    assert(tracks_holds(r, TracksFailure::RenamedName));
}

/// A track that the pass renamed is not renamed again: the pass settles
/// after one round.
pub proof fn lemma_renaming_settles(name: Seq<char>)
    ensures
        renamed(name) matches Some(n) ==> renamed(n) is None,
{
    reveal_strlit("second");
    reveal_strlit("new second");
    if renamed(name) is Some {
        assert("new second"@.len() != "second"@.len());
    }
}

} // verus!
