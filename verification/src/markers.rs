//! What the "Markers" step expects of the markers and regions it adds, and
//! which marker it moves.

use vstd::prelude::*;

verus! {

/// The index the step asks for its first marker.
pub const FIRST_MARKER_INDEX: usize = 3;

/// The index the step asks for its second marker, and for its region.
pub const SECOND_MARKER_INDEX: usize = 2;

/// One entry of the project's list of markers and regions.
#[derive(Clone, Copy, Debug, PartialEq, Eq, Structural)]
pub struct MarkerEntry {
    pub is_region: bool,
    pub user_index: usize,
}

/// What REAPER reported after the step added two markers and a region.
pub struct MarkersAddedReport {
    /// The index REAPER gave the first marker.
    pub first_marker_index: usize,
    /// The index REAPER gave the second marker.
    pub second_marker_index: usize,
    /// The index REAPER gave the region.
    pub region_index: usize,
    /// The project's markers and regions, in REAPER's order.
    pub listing: Vec<MarkerEntry>,
}

/// The expectations of the step, in the order in which it checks them.
#[derive(Clone, Copy, Debug, PartialEq, Eq, Structural)]
pub enum MarkersFailure {
    FirstMarkerIndex,
    SecondMarkerIndex,
    RegionIndex,
    WrongEntryCount,
    SecondEntryNotRegion,
    WrongMarkerCount,
    MovedMarkerMissing,
}

/// The position of an expectation in the step's order.
pub open spec fn markers_rank(f: MarkersFailure) -> int {
    match f {
        MarkersFailure::FirstMarkerIndex => 0,
        MarkersFailure::SecondMarkerIndex => 1,
        MarkersFailure::RegionIndex => 2,
        MarkersFailure::WrongEntryCount => 3,
        MarkersFailure::SecondEntryNotRegion => 4,
        MarkersFailure::WrongMarkerCount => 5,
        MarkersFailure::MovedMarkerMissing => 6,
    }
}

/// Whether the expectation named by `f` holds right after the markers were
/// added; the expectations of the later parts of the step hold trivially here.
pub open spec fn added_holds(r: MarkersAddedReport, f: MarkersFailure) -> bool {
    match f {
        MarkersFailure::FirstMarkerIndex => r.first_marker_index == FIRST_MARKER_INDEX,
        MarkersFailure::SecondMarkerIndex => r.second_marker_index == SECOND_MARKER_INDEX,
        MarkersFailure::RegionIndex => r.region_index == SECOND_MARKER_INDEX,
        MarkersFailure::WrongEntryCount => r.listing@.len() == 3,
        MarkersFailure::SecondEntryNotRegion => r.listing@.len() > 1 && r.listing@[1].is_region,
        _ => true,
    }
}

/// Judges the step right after the markers were added: `Ok` when every
/// expectation of this part holds, else the first that fails.
pub fn check_markers_added(r: &MarkersAddedReport) -> (v: Result<(), MarkersFailure>)
    ensures
        v matches Err(f) ==> !added_holds(*r, f) && forall|g: MarkersFailure|
            markers_rank(g) < markers_rank(f) ==> added_holds(*r, g),
        v is Ok <==> forall|f: MarkersFailure| added_holds(*r, f),
        v is Ok <==> r.first_marker_index == 3 && r.second_marker_index == 2 && r.region_index
            == 2 && r.listing@.len() == 3 && r.listing@[1].is_region,
{
    if r.first_marker_index != FIRST_MARKER_INDEX {
        assert(!added_holds(*r, MarkersFailure::FirstMarkerIndex));
        return Err(MarkersFailure::FirstMarkerIndex);
    }
    if r.second_marker_index != SECOND_MARKER_INDEX {
        assert(!added_holds(*r, MarkersFailure::SecondMarkerIndex));
        return Err(MarkersFailure::SecondMarkerIndex);
    }
    if r.region_index != SECOND_MARKER_INDEX {
        assert(!added_holds(*r, MarkersFailure::RegionIndex));
        return Err(MarkersFailure::RegionIndex);
    }
    if r.listing.len() != 3 {
        assert(!added_holds(*r, MarkersFailure::WrongEntryCount));
        return Err(MarkersFailure::WrongEntryCount);
    }
    if !r.listing[1].is_region {
        assert(!added_holds(*r, MarkersFailure::SecondEntryNotRegion));
        return Err(MarkersFailure::SecondEntryNotRegion);
    }
    Ok(())
}

/// Right after the markers were added, the step passes only when REAPER gave
/// the asked indices (3, 2 and 2) and lists exactly three entries, the second
/// a region; and it passes whenever that is so.
pub proof fn law_markers_added_pass_exactly_on_three_entries(r: MarkersAddedReport)
    ensures
        (forall|f: MarkersFailure| added_holds(r, f)) <==> (r.first_marker_index == 3
            && r.second_marker_index == 2 && r.region_index == 2 && r.listing@.len() == 3
            && r.listing@[1].is_region),
{
    if forall|f: MarkersFailure| added_holds(r, f) {
        assert(added_holds(r, MarkersFailure::FirstMarkerIndex));
        assert(added_holds(r, MarkersFailure::SecondMarkerIndex));
        assert(added_holds(r, MarkersFailure::RegionIndex));
        assert(added_holds(r, MarkersFailure::WrongEntryCount));
        assert(added_holds(r, MarkersFailure::SecondEntryNotRegion));
    }
}

/// A listing of any length other than three fails the entry count.
pub proof fn law_wrong_listing_length_fails(r: MarkersAddedReport)
    requires
        r.listing@.len() != 3,
    ensures
        !added_holds(r, MarkersFailure::WrongEntryCount),
{
}

/// The number of markers (entries that are not regions) in `s`.
pub open spec fn marker_count(s: Seq<MarkerEntry>) -> nat
    decreases s.len(),
{
    if s.len() == 0 {
        0
    } else {
        marker_count(s.drop_last()) + if s.last().is_region { 0nat } else { 1nat }
    }
}

/// The markers of a listing are its entries that are not regions.
pub proof fn law_marker_count_counts_non_regions(s: Seq<MarkerEntry>)
    ensures
        marker_count(s) == s.filter(|e: MarkerEntry| !e.is_region).len(),
    decreases s.len(),
{
    reveal_with_fuel(Seq::filter, 1);
    if s.len() > 0 {
        law_marker_count_counts_non_regions(s.drop_last());
    }
}

/// `i` is the position in `s` of its first marker.
pub open spec fn is_first_marker(s: Seq<MarkerEntry>, i: int) -> bool {
    &&& 0 <= i < s.len()
    &&& !s[i].is_region
    &&& forall|j: int| 0 <= j < i ==> #[trigger] s[j].is_region
}

proof fn lemma_no_marker_count(s: Seq<MarkerEntry>)
    requires
        forall|j: int| 0 <= j < s.len() ==> #[trigger] s[j].is_region,
    ensures
        marker_count(s) == 0,
    decreases s.len(),
{
    if s.len() > 0 {
        lemma_no_marker_count(s.drop_last());
    }
}

/// Picks the marker that the step moves: the first of the markers, which must
/// number exactly two. Gives its position in `listing`.
pub fn marker_to_move(listing: &Vec<MarkerEntry>) -> (v: Result<usize, MarkersFailure>)
    ensures
        v is Ok <==> marker_count(listing@) == 2,
        v matches Ok(i) ==> is_first_marker(listing@, i as int),
        v matches Err(f) ==> f == MarkersFailure::WrongMarkerCount,
        v is Ok <==> listing@.filter(|e: MarkerEntry| !e.is_region).len() == 2,
        v matches Ok(i) ==> !listing@[i as int].is_region && forall|j: int|
            0 <= j < i ==> #[trigger] listing@[j].is_region,
{
    proof {
        law_marker_count_counts_non_regions(listing@);
    }
    let mut count: usize = 0;
    let mut first: Option<usize> = None;
    let mut i: usize = 0;
    while i < listing.len()
        invariant
            i <= listing@.len(),
            count == marker_count(listing@.take(i as int)),
            count <= i,
            first is None ==> forall|j: int| 0 <= j < i ==> #[trigger] listing@[j].is_region,
            first matches Some(k) ==> is_first_marker(listing@, k as int) && k < i,
        decreases listing@.len() - i,
    {
        assert(listing@.take(i as int + 1).drop_last() =~= listing@.take(i as int));
        if !listing[i].is_region {
            count = count + 1;
            if first.is_none() {
                first = Some(i);
            }
        }
        i = i + 1;
    }
    assert(listing@.take(i as int) =~= listing@);
    if count != 2 {
        return Err(MarkersFailure::WrongMarkerCount);
    }
    match first {
        Some(k) => Ok(k),
        None => {
            proof {
                lemma_no_marker_count(listing@);
            }
            Err(MarkersFailure::WrongMarkerCount)
        },
    }
}

/// `i` is the position in `s` of the first marker with user index `index`.
pub open spec fn is_first_marker_with_index(s: Seq<MarkerEntry>, index: usize, i: int) -> bool {
    &&& 0 <= i < s.len()
    &&& !s[i].is_region && s[i].user_index == index
    &&& forall|j: int| 0 <= j < i ==> #[trigger] s[j].is_region || s[j].user_index != index
}

/// Finds the moved marker, the first marker with the second marker's index,
/// among the project's markers and regions after the move.
pub fn find_moved_marker(listing: &Vec<MarkerEntry>) -> (v: Result<usize, MarkersFailure>)
    ensures
        v matches Ok(i) ==> is_first_marker_with_index(listing@, SECOND_MARKER_INDEX, i as int),
        v matches Ok(i) ==> i < listing@.len() && !listing@[i as int].is_region
            && listing@[i as int].user_index == 2,
        v matches Err(f) ==> f == MarkersFailure::MovedMarkerMissing && forall|j: int|
            0 <= j < listing@.len() ==> #[trigger] listing@[j].is_region || listing@[j].user_index
                != SECOND_MARKER_INDEX,
{
    let mut i: usize = 0;
    while i < listing.len()
        invariant
            i <= listing@.len(),
            forall|j: int|
                0 <= j < i ==> #[trigger] listing@[j].is_region || listing@[j].user_index
                    != SECOND_MARKER_INDEX,
        decreases listing@.len() - i,
    {
        if !listing[i].is_region && listing[i].user_index == SECOND_MARKER_INDEX {
            return Ok(i);
        }
        i = i + 1;
    }
    Err(MarkersFailure::MovedMarkerMissing)
}

} // verus!
