//! What the "Misc little functions" step expects of the automation mode and
//! the undo history.

use vstd::prelude::*;
use crate::text::some_text_is;

verus! {

/// A global automation override that REAPER reports as set.
#[derive(Clone, Copy, Debug, PartialEq, Eq, Structural)]
pub enum AutomationMode {
    TrimRead,
    Read,
    Touch,
    Write,
    Latch,
    Bypass,
}

/// What REAPER reported while the step ran.
pub struct MiscReport {
    /// The global automation override before the step set one.
    pub automation_mode_at_start: Option<AutomationMode>,
    /// The global automation override after the step set `Touch`.
    pub automation_mode_after_set: Option<AutomationMode>,
    /// The description of the next undo point after a track was inserted.
    pub next_undo: Option<String>,
}

/// The expectations of the step, in the order in which it checks them.
#[derive(Clone, Copy, Debug, PartialEq, Eq, Structural)]
pub enum MiscFailure {
    AutomationModeAtStart,
    AutomationModeAfterSet,
    WrongUndo,
}

/// Whether the expectation named by `f` holds of the report.
pub open spec fn misc_holds(r: MiscReport, f: MiscFailure) -> bool {
    match f {
        MiscFailure::AutomationModeAtStart => r.automation_mode_at_start is None,
        MiscFailure::AutomationModeAfterSet => r.automation_mode_after_set == Some(AutomationMode::Touch),
        MiscFailure::WrongUndo => r.next_undo matches Some(u) && u@ == "Add new track"@,
    }
}

/// The position of an expectation in the step's order.
pub open spec fn misc_rank(f: MiscFailure) -> int {
    match f {
        MiscFailure::AutomationModeAtStart => 0,
        MiscFailure::AutomationModeAfterSet => 1,
        MiscFailure::WrongUndo => 2,
    }
}

/// The step passes exactly when no automation override was set at start,
/// `Touch` was read back after it was set, and the next undo point is the
/// inserted track.
pub proof fn law_misc_passes_exactly_on_expected_state(r: MiscReport)
    ensures
        (forall|f: MiscFailure| misc_holds(r, f)) <==> (r.automation_mode_at_start is None
            && r.automation_mode_after_set == Some(AutomationMode::Touch) && (r.next_undo matches Some(
            u,
        ) && u@ == "Add new track"@)),
{
    if forall|f: MiscFailure| misc_holds(r, f) {
        assert(misc_holds(r, MiscFailure::AutomationModeAtStart));
        assert(misc_holds(r, MiscFailure::AutomationModeAfterSet));
        assert(misc_holds(r, MiscFailure::WrongUndo));
    }
}

/// Judges the step: `Ok` when every expectation holds, else the first that fails.
pub fn check_misc(r: &MiscReport) -> (v: Result<(), MiscFailure>)
    ensures
        v matches Err(f) ==> !misc_holds(*r, f) && forall|g: MiscFailure|
            misc_rank(g) < misc_rank(f) ==> misc_holds(*r, g),
        v is Ok <==> forall|f: MiscFailure| misc_holds(*r, f),
        v is Ok <==> r.automation_mode_at_start is None && r.automation_mode_after_set == Some(
            AutomationMode::Touch,
        ) && (r.next_undo matches Some(u) && u@ == "Add new track"@),
{
    if r.automation_mode_at_start.is_some() {
        assert(!misc_holds(*r, MiscFailure::AutomationModeAtStart));
        return Err(MiscFailure::AutomationModeAtStart);
    }
    let touch = match r.automation_mode_after_set {
        Some(AutomationMode::Touch) => true,
        _ => false,
    };
    if !touch {
        assert(!misc_holds(*r, MiscFailure::AutomationModeAfterSet));
        return Err(MiscFailure::AutomationModeAfterSet);
    }
    if !some_text_is(&r.next_undo, "Add new track") {
        assert(!misc_holds(*r, MiscFailure::WrongUndo));
        return Err(MiscFailure::WrongUndo);
    }
    Ok(())
}

} // verus!
