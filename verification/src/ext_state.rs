//! What the "ExtState" step expects of persistent extension values.

use vstd::prelude::*;

verus! {

/// The integer with which the first value starts.
pub const FIRST_INITIAL: i32 = 10;

/// The integer written over the first value.
pub const FIRST_WRITTEN: i32 = 56;

/// The sample amount written to the second value.
pub const SAMPLES_WRITTEN: u32 = 35896;

/// The sample amount written to the value kept in the project.
pub const PROJECT_SAMPLES_WRITTEN: u32 = 3344;

/// What REAPER gave back for the values the step wrote and deleted.
pub struct ExtStateReport {
    /// The first value right after it was created with its initial integer.
    pub first_at_start: Option<i32>,
    /// The first value after the step wrote over it.
    pub first_after_write: Option<i32>,
    /// The first value after the step deleted it.
    pub first_after_delete: Option<i32>,
    /// The second value right after it was created empty.
    pub samples_at_start: Option<u32>,
    /// The second value after the step wrote a sample amount.
    pub samples_after_write: Option<u32>,
    /// The second value after the step deleted it.
    pub samples_after_delete: Option<u32>,
    /// The value kept in the project after the step deleted it.
    pub project_after_delete: Option<u32>,
}

/// The expectations of the step, in the order in which it checks them.
#[derive(Clone, Copy, Debug, PartialEq, Eq, Structural)]
pub enum ExtStateFailure {
    FirstAtStart,
    FirstAfterWrite,
    FirstAfterDelete,
    SamplesAtStart,
    SamplesAfterWrite,
    SamplesAfterDelete,
    ProjectAfterDelete,
}

/// Whether the expectation named by `f` holds of the report.
pub open spec fn ext_state_holds(r: ExtStateReport, f: ExtStateFailure) -> bool {
    match f {
        ExtStateFailure::FirstAtStart => r.first_at_start == Some(FIRST_INITIAL),
        ExtStateFailure::FirstAfterWrite => r.first_after_write == Some(FIRST_WRITTEN),
        ExtStateFailure::FirstAfterDelete => r.first_after_delete is None,
        ExtStateFailure::SamplesAtStart => r.samples_at_start is None,
        ExtStateFailure::SamplesAfterWrite => r.samples_after_write == Some(SAMPLES_WRITTEN),
        ExtStateFailure::SamplesAfterDelete => r.samples_after_delete is None,
        ExtStateFailure::ProjectAfterDelete => r.project_after_delete is None,
    }
}

/// The position of an expectation in the step's order.
pub open spec fn ext_state_rank(f: ExtStateFailure) -> int {
    match f {
        ExtStateFailure::FirstAtStart => 0,
        ExtStateFailure::FirstAfterWrite => 1,
        ExtStateFailure::FirstAfterDelete => 2,
        ExtStateFailure::SamplesAtStart => 3,
        ExtStateFailure::SamplesAfterWrite => 4,
        ExtStateFailure::SamplesAfterDelete => 5,
        ExtStateFailure::ProjectAfterDelete => 6,
    }
}

/// The step passes exactly when each value reads back what was last written
/// to it: the first value 10 at start, 56 after the write, nothing after the
/// delete; the sample amount nothing, 35896, nothing; the project value
/// nothing after the delete.
pub proof fn law_ext_state_passes_exactly_on_written_values(r: ExtStateReport)
    ensures
        (forall|f: ExtStateFailure| ext_state_holds(r, f)) <==> (r.first_at_start == Some(10i32)
            && r.first_after_write == Some(56i32) && r.first_after_delete is None
            && r.samples_at_start is None && r.samples_after_write == Some(35896u32)
            && r.samples_after_delete is None && r.project_after_delete is None),
{
    if forall|f: ExtStateFailure| ext_state_holds(r, f) {
        assert(ext_state_holds(r, ExtStateFailure::FirstAtStart));
        assert(ext_state_holds(r, ExtStateFailure::FirstAfterWrite));
        assert(ext_state_holds(r, ExtStateFailure::FirstAfterDelete));
        assert(ext_state_holds(r, ExtStateFailure::SamplesAtStart));
        assert(ext_state_holds(r, ExtStateFailure::SamplesAfterWrite));
        assert(ext_state_holds(r, ExtStateFailure::SamplesAfterDelete));
        assert(ext_state_holds(r, ExtStateFailure::ProjectAfterDelete));
    }
}

/// A first value that does not read 10 right after creation, present or
/// not, fails the first expectation.
pub proof fn law_first_value_must_start_at_ten(r: ExtStateReport)
    requires
        r.first_at_start != Some(10i32),
    ensures
        !ext_state_holds(r, ExtStateFailure::FirstAtStart),
{
}

fn is_some_i32(v: Option<i32>, expected: i32) -> (b: bool)
    ensures
        b == (v == Some(expected)),
{
    match v {
        Some(x) => x == expected,
        None => false,
    }
}

fn is_some_u32(v: Option<u32>, expected: u32) -> (b: bool)
    ensures
        b == (v == Some(expected)),
{
    match v {
        Some(x) => x == expected,
        None => false,
    }
}

/// Judges the step: `Ok` when every expectation holds, else the first that fails.
pub fn check_ext_state(r: &ExtStateReport) -> (v: Result<(), ExtStateFailure>)
    ensures
        v matches Err(f) ==> !ext_state_holds(*r, f) && forall|g: ExtStateFailure|
            ext_state_rank(g) < ext_state_rank(f) ==> ext_state_holds(*r, g),
        v is Ok <==> forall|f: ExtStateFailure| ext_state_holds(*r, f),
        v is Ok <==> r.first_at_start == Some(10i32) && r.first_after_write == Some(56i32)
            && r.first_after_delete is None && r.samples_at_start is None
            && r.samples_after_write == Some(35896u32) && r.samples_after_delete is None
            && r.project_after_delete is None,
{
    if !is_some_i32(r.first_at_start, FIRST_INITIAL) {
        assert(!ext_state_holds(*r, ExtStateFailure::FirstAtStart));
        return Err(ExtStateFailure::FirstAtStart);
    }
    if !is_some_i32(r.first_after_write, FIRST_WRITTEN) {
        assert(!ext_state_holds(*r, ExtStateFailure::FirstAfterWrite));
        return Err(ExtStateFailure::FirstAfterWrite);
    }
    if r.first_after_delete.is_some() {
        assert(!ext_state_holds(*r, ExtStateFailure::FirstAfterDelete));
        return Err(ExtStateFailure::FirstAfterDelete);
    }
    if r.samples_at_start.is_some() {
        assert(!ext_state_holds(*r, ExtStateFailure::SamplesAtStart));
        return Err(ExtStateFailure::SamplesAtStart);
    }
    if !is_some_u32(r.samples_after_write, SAMPLES_WRITTEN) {
        assert(!ext_state_holds(*r, ExtStateFailure::SamplesAfterWrite));
        return Err(ExtStateFailure::SamplesAfterWrite);
    }
    if r.samples_after_delete.is_some() {
        assert(!ext_state_holds(*r, ExtStateFailure::SamplesAfterDelete));
        return Err(ExtStateFailure::SamplesAfterDelete);
    }
    if r.project_after_delete.is_some() {
        assert(!ext_state_holds(*r, ExtStateFailure::ProjectAfterDelete));
        return Err(ExtStateFailure::ProjectAfterDelete);
    }
    Ok(())
}

} // verus!
