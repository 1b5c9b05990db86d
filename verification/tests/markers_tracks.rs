use test_steps::markers::{
    check_markers_added, find_moved_marker, marker_to_move, MarkerEntry, MarkersAddedReport,
    MarkersFailure,
};
use test_steps::tracks::{check_tracks, rename_track, TracksFailure, TracksReport};

fn marker(user_index: usize) -> MarkerEntry {
    MarkerEntry { is_region: false, user_index }
}

fn region(user_index: usize) -> MarkerEntry {
    MarkerEntry { is_region: true, user_index }
}

fn good_added() -> MarkersAddedReport {
    MarkersAddedReport {
        first_marker_index: 3,
        second_marker_index: 2,
        region_index: 2,
        listing: vec![marker(2), region(2), marker(3)],
    }
}

#[test]
fn markers_added_pass_and_fail() {
    assert_eq!(check_markers_added(&good_added()), Ok(()));

    let mut r = good_added();
    r.first_marker_index = 0;
    assert_eq!(check_markers_added(&r), Err(MarkersFailure::FirstMarkerIndex));

    let mut r = good_added();
    r.second_marker_index = 1;
    assert_eq!(check_markers_added(&r), Err(MarkersFailure::SecondMarkerIndex));

    let mut r = good_added();
    r.region_index = 1;
    assert_eq!(check_markers_added(&r), Err(MarkersFailure::RegionIndex));

    let mut r = good_added();
    r.listing.pop();
    assert_eq!(check_markers_added(&r), Err(MarkersFailure::WrongEntryCount));

    let mut r = good_added();
    r.listing = vec![region(2), marker(2), marker(3)];
    assert_eq!(check_markers_added(&r), Err(MarkersFailure::SecondEntryNotRegion));
}

#[test]
fn the_first_marker_is_moved() {
    assert_eq!(marker_to_move(&vec![marker(2), region(2), marker(3)]), Ok(0));
    assert_eq!(marker_to_move(&vec![region(2), marker(3), marker(2)]), Ok(1));
    assert_eq!(
        marker_to_move(&vec![marker(2), region(2), region(3)]),
        Err(MarkersFailure::WrongMarkerCount)
    );
    assert_eq!(
        marker_to_move(&vec![marker(1), marker(2), marker(3)]),
        Err(MarkersFailure::WrongMarkerCount)
    );
    assert_eq!(marker_to_move(&vec![]), Err(MarkersFailure::WrongMarkerCount));
}

#[test]
fn the_moved_marker_is_found_by_its_index() {
    assert_eq!(find_moved_marker(&vec![region(2), marker(3), marker(2)]), Ok(2));
    assert_eq!(find_moved_marker(&vec![marker(2), marker(2)]), Ok(0));
    assert_eq!(
        find_moved_marker(&vec![region(2), marker(3)]),
        Err(MarkersFailure::MovedMarkerMissing)
    );
}

fn good_tracks() -> TracksReport {
    TracksReport {
        first_found_by_name: true,
        first_name: Some("first".to_string()),
        second_name: Some("second".to_string()),
        second_index: 1,
        second_index_for_changes: 1,
        third_name: "third".to_string(),
        second_name_after_renaming: Some("new second".to_string()),
    }
}

#[test]
fn tracks_pass_and_fail() {
    assert_eq!(check_tracks(&good_tracks()), Ok(()));

    let mut r = good_tracks();
    r.first_found_by_name = false;
    assert_eq!(check_tracks(&r), Err(TracksFailure::FirstNotFoundByName));

    let mut r = good_tracks();
    r.first_name = None;
    assert_eq!(check_tracks(&r), Err(TracksFailure::FirstName));

    let mut r = good_tracks();
    r.second_name = Some("first".to_string());
    assert_eq!(check_tracks(&r), Err(TracksFailure::SecondName));

    let mut r = good_tracks();
    r.second_index = 2;
    assert_eq!(check_tracks(&r), Err(TracksFailure::SecondIndex));

    let mut r = good_tracks();
    r.second_index_for_changes = 0;
    assert_eq!(check_tracks(&r), Err(TracksFailure::SecondIndexForChanges));

    let mut r = good_tracks();
    r.third_name = "third new name".to_string();
    assert_eq!(check_tracks(&r), Err(TracksFailure::ThirdName));

    let mut r = good_tracks();
    r.second_name_after_renaming = Some("second".to_string());
    assert_eq!(check_tracks(&r), Err(TracksFailure::RenamedName));

    let mut r = good_tracks();
    r.second_name_after_renaming = None;
    assert_eq!(check_tracks(&r), Err(TracksFailure::RenamedName));
}

#[test]
fn only_the_second_track_is_renamed() {
    assert_eq!(rename_track(&"second".to_string()), Some("new second".to_string()));
    assert_eq!(rename_track(&"first".to_string()), None);
    assert_eq!(rename_track(&"third new name".to_string()), None);
    assert_eq!(rename_track(&"Second".to_string()), None);
}

#[test]
fn renaming_settles_after_one_round() {
    let renamed = rename_track(&"second".to_string()).unwrap();
    assert_eq!(rename_track(&renamed), None);
}
