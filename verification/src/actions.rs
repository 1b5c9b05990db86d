//! What the "Actions" step expects of a registered action.

use vstd::prelude::*;
use crate::text::some_text_is;

verus! {

/// The name under which the step registers its action.
pub open spec fn action_name() -> Seq<char> {
    "TestCommand"@
}

/// The name under which the step registers its action.
pub fn test_action_name() -> (s: String)
    ensures
        s@ == action_name(),
{
    "TestCommand".to_string()
}

/// What REAPER reported while the step ran its action.
pub struct ActionReport {
    /// The action's signal arrived after the first run.
    pub signal_after_first_run: bool,
    /// A second signal was waiting after the first run.
    pub extra_signal_after_first_run: bool,
    /// The action's signal arrived after the second run.
    pub signal_after_second_run: bool,
    /// The command id under which the action was registered.
    pub registered_id: u32,
    /// The name that REAPER gives for the registered id.
    pub name_of_registered_id: Option<String>,
    /// The id that REAPER gives for the registered name.
    pub id_of_registered_name: Option<u32>,
}

/// The expectations of the step, in the order in which it checks them.
#[derive(Clone, Copy, Debug, PartialEq, Eq, Structural)]
pub enum ActionFailure {
    NoSignalAfterFirstRun,
    ExtraSignal,
    NoSignalAfterSecondRun,
    WrongName,
    WrongId,
}

/// Whether the expectation named by `f` holds of the report.
pub open spec fn action_holds(r: ActionReport, f: ActionFailure) -> bool {
    match f {
        ActionFailure::NoSignalAfterFirstRun => r.signal_after_first_run,
        ActionFailure::ExtraSignal => !r.extra_signal_after_first_run,
        ActionFailure::NoSignalAfterSecondRun => r.signal_after_second_run,
        ActionFailure::WrongName => r.name_of_registered_id matches Some(n) && n@ == action_name(),
        ActionFailure::WrongId => r.id_of_registered_name == Some(r.registered_id),
    }
}

/// The position of an expectation in the step's order.
pub open spec fn action_rank(f: ActionFailure) -> int {
    match f {
        ActionFailure::NoSignalAfterFirstRun => 0,
        ActionFailure::ExtraSignal => 1,
        ActionFailure::NoSignalAfterSecondRun => 2,
        ActionFailure::WrongName => 3,
        ActionFailure::WrongId => 4,
    }
}

/// The step passes exactly when each run of the action signalled once, and
/// REAPER maps the registered id to the name "TestCommand" and that name back
/// to the registered id.
pub proof fn law_actions_pass_exactly_on_one_signal_per_run(r: ActionReport)
    ensures
        (forall|f: ActionFailure| action_holds(r, f)) <==> (r.signal_after_first_run
            && !r.extra_signal_after_first_run && r.signal_after_second_run
            && (r.name_of_registered_id matches Some(n) && n@ == "TestCommand"@)
            && r.id_of_registered_name == Some(r.registered_id)),
{
    if forall|f: ActionFailure| action_holds(r, f) {
        assert(action_holds(r, ActionFailure::NoSignalAfterFirstRun));
        assert(action_holds(r, ActionFailure::ExtraSignal));
        assert(action_holds(r, ActionFailure::NoSignalAfterSecondRun));
        assert(action_holds(r, ActionFailure::WrongName));
        assert(action_holds(r, ActionFailure::WrongId));
    }
}

/// The id that REAPER gives back for the name must be the registered one: a
/// missing or different id fails the step.
pub proof fn law_action_id_must_round_trip(r: ActionReport)
    requires
        r.id_of_registered_name != Some(r.registered_id),
    ensures
        !action_holds(r, ActionFailure::WrongId),
{
}

/// Judges the step: `Ok` when every expectation holds, else the first that fails.
pub fn check_actions(r: &ActionReport) -> (v: Result<(), ActionFailure>)
    ensures
        v matches Err(f) ==> !action_holds(*r, f) && forall|g: ActionFailure|
            action_rank(g) < action_rank(f) ==> action_holds(*r, g),
        v is Ok <==> forall|f: ActionFailure| action_holds(*r, f),
        v is Ok <==> r.signal_after_first_run && !r.extra_signal_after_first_run
            && r.signal_after_second_run && (r.name_of_registered_id matches Some(n) && n@
            == "TestCommand"@) && r.id_of_registered_name == Some(r.registered_id),
{
    if !r.signal_after_first_run {
        assert(!action_holds(*r, ActionFailure::NoSignalAfterFirstRun));
        return Err(ActionFailure::NoSignalAfterFirstRun);
    }
    if r.extra_signal_after_first_run {
        assert(!action_holds(*r, ActionFailure::ExtraSignal));
        return Err(ActionFailure::ExtraSignal);
    }
    if !r.signal_after_second_run {
        assert(!action_holds(*r, ActionFailure::NoSignalAfterSecondRun));
        return Err(ActionFailure::NoSignalAfterSecondRun);
    }
    if !some_text_is(&r.name_of_registered_id, "TestCommand") {
        assert(!action_holds(*r, ActionFailure::WrongName));
        return Err(ActionFailure::WrongName);
    }
    let id_matches = match r.id_of_registered_name {
        Some(id) => id == r.registered_id,
        None => false,
    };
    if !id_matches {
        assert(!action_holds(*r, ActionFailure::WrongId));
        return Err(ActionFailure::WrongId);
    }
    Ok(())
}

} // verus!
