use aquariwm::additions::{find, insertion_point, track_insert, track_push, track_remove};

#[test]
fn insertion_point_counts_the_entries_below() {
    let log = vec![1usize, 3, 4, 8];
    assert_eq!(insertion_point(&log, 0), 0);
    assert_eq!(insertion_point(&log, 1), 0);
    assert_eq!(insertion_point(&log, 2), 1);
    assert_eq!(insertion_point(&log, 4), 2);
    assert_eq!(insertion_point(&log, 8), 3);
    assert_eq!(insertion_point(&log, 9), 4);
    assert_eq!(insertion_point(&Vec::new(), 5), 0);
}

#[test]
fn find_tells_logged_from_unlogged() {
    let log = vec![1usize, 3, 4, 8];
    assert_eq!(find(&log, 3), Ok(1));
    assert_eq!(find(&log, 8), Ok(3));
    assert_eq!(find(&log, 0), Err(0));
    assert_eq!(find(&log, 5), Err(3));
    assert_eq!(find(&log, 9), Err(4));
}

#[test]
fn track_insert_shifts_the_entries_at_or_above() {
    let mut log = vec![1usize, 3, 4];
    track_insert(&mut log, 3);
    assert_eq!(log, vec![1, 3, 4, 5]);
    track_insert(&mut log, 0);
    assert_eq!(log, vec![0, 2, 4, 5, 6]);
    track_insert(&mut log, 9);
    assert_eq!(log, vec![0, 2, 4, 5, 6, 9]);
}

#[test]
fn track_insert_into_an_empty_log() {
    let mut log: Vec<usize> = Vec::new();
    track_insert(&mut log, 2);
    assert_eq!(log, vec![2]);
}

#[test]
fn track_push_appends() {
    let mut log = vec![0usize, 2];
    track_push(&mut log, 5);
    assert_eq!(log, vec![0, 2, 5]);
}

#[test]
fn track_remove_of_a_logged_slot_drops_it() {
    let mut log = vec![1usize, 3, 4, 8];
    track_remove(&mut log, 3);
    assert_eq!(log, vec![1, 3, 7]);
}

#[test]
fn track_remove_of_an_unlogged_slot_only_shifts() {
    let mut log = vec![1usize, 3, 4, 8];
    track_remove(&mut log, 2);
    assert_eq!(log, vec![1, 2, 3, 7]);
    track_remove(&mut log, 0);
    assert_eq!(log, vec![0, 1, 2, 6]);
    track_remove(&mut log, 9);
    assert_eq!(log, vec![0, 1, 2, 6]);
}

/// Replays edits on the log and on a list of marks, one per child, and
/// compares the log with the slots of the marked children after each edit.
fn replay(start: usize, edits: &[(bool, usize)]) {
    let mut log: Vec<usize> = Vec::new();
    let mut fresh: Vec<bool> = vec![false; start];
    for &(insert, index) in edits {
        if insert {
            fresh.insert(index, true);
            track_insert(&mut log, index);
        } else {
            fresh.remove(index);
            track_remove(&mut log, index);
        }
        let expected: Vec<usize> =
            (0..fresh.len()).filter(|&slot| fresh[slot]).collect();
        assert_eq!(log, expected);
    }
}

#[test]
fn log_names_the_new_children_after_interleaved_edits() {
    replay(3, &[(true, 1), (true, 4), (false, 0), (true, 0), (false, 1), (false, 3), (true, 2)]);
    replay(0, &[(true, 0), (true, 0), (true, 1), (false, 1), (false, 0), (false, 0)]);
    replay(2, &[(false, 1), (false, 0), (true, 0), (true, 1), (true, 0)]);
}

#[test]
fn removing_a_pending_addition_forgets_it() {
    let mut log: Vec<usize> = Vec::new();
    track_insert(&mut log, 1);
    track_insert(&mut log, 1);
    assert_eq!(log, vec![1, 2]);
    track_remove(&mut log, 1);
    assert_eq!(log, vec![1]);
    track_remove(&mut log, 1);
    assert_eq!(log, Vec::<usize>::new());
}
