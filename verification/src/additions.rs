//! The log of pending additions: the storage slots of the children that were
//! inserted into a group since its last commit, kept sorted and free of
//! duplicates while children are inserted and removed around them.

use vstd::prelude::*;

verus! {

/// Each entry is smaller than the one after it.
pub open spec fn strictly_ascending(log: Seq<usize>) -> bool {
    forall|i: int, j: int| 0 <= i < j < log.len() ==> log[i] < log[j]
}

/// Every entry is a slot of a sequence of `len` children.
pub open spec fn within(log: Seq<usize>, len: int) -> bool {
    forall|i: int| 0 <= i < log.len() ==> (#[trigger] log[i]) < len
}

/// The log after a child was inserted at slot `index`: the entries below
/// `index` stay, `index` itself joins, and the entries at or above it move up
/// by one, as their children did.
pub open spec fn inserted(log: Seq<usize>, index: usize) -> Seq<usize> {
    Seq::new(
        log.len() + 1,
        |j: int|
            if j < log.len() && log[j] < index {
                log[j]
            } else if j == 0 || log[j - 1] < index {
                index
            } else {
                (log[j - 1] + 1) as usize
            },
    )
}

/// The log after the child at slot `index` was removed: the entries below
/// `index` stay, `index` itself leaves if it was logged, and the entries above
/// it move down by one.
pub open spec fn removed(log: Seq<usize>, index: usize) -> Seq<usize> {
    let gone: int = if log.contains(index) { 1 } else { 0 };
    Seq::new(
        (log.len() - gone) as nat,
        |j: int|
            if log[j] < index {
                log[j]
            } else {
                (log[j + gone] - 1) as usize
            },
    )
}

/// Returns the number of entries below `index`, which is the position at
/// which `index` would be inserted to keep the log sorted.
pub fn insertion_point(log: &Vec<usize>, index: usize) -> (point: usize)
    requires
        strictly_ascending(log@),
    ensures
        point <= log.len(),
        forall|j: int| 0 <= j < point ==> log[j] < index,
        forall|j: int| point <= j < log.len() ==> log[j] >= index,
{
    let mut low: usize = 0;
    let mut high: usize = log.len();
    while low < high
        invariant
            strictly_ascending(log@),
            low <= high <= log.len(),
            forall|j: int| 0 <= j < low ==> log[j] < index,
            forall|j: int| high <= j < log.len() ==> log[j] >= index,
        decreases high - low,
    {
        let middle: usize = low + (high - low) / 2;
        if log[middle] < index {
            low = middle + 1;
        } else {
            high = middle;
        }
    }
    low
}

/// The position that a lookup came back with, found or not.
pub open spec fn position(found: Result<usize, usize>) -> int {
    match found {
        Ok(at) => at as int,
        Err(at) => at as int,
    }
}

/// Looks `index` up in the log: `Ok` with its position where it is logged,
/// `Err` with its insertion point where it is not.
pub fn find(log: &Vec<usize>, index: usize) -> (found: Result<usize, usize>)
    requires
        strictly_ascending(log@),
    ensures
        found is Ok <==> log@.contains(index),
        found is Ok ==> position(found) < log.len() && log[position(found)] == index,
        0 <= position(found) <= log.len(),
        forall|j: int| 0 <= j < position(found) ==> log[j] < index,
        forall|j: int| position(found) <= j < log.len() ==> log[j] >= index,
{
    let point = insertion_point(log, index);
    if point < log.len() && log[point] == index {
        Ok(point)
    } else {
        assert forall|j: int| 0 <= j < log.len() implies log[j] != index by {
            if j > point {
                assert(log[point as int] < log[j]);
            }
        }
        Err(point)
    }
}

/// Adds one to every entry from position `from` on.
fn shift_up(log: &mut Vec<usize>, from: usize)
    requires
        from <= old(log).len(),
        forall|j: int| from <= j < old(log).len() ==> old(log)[j] < usize::MAX,
    ensures
        final(log).len() == old(log).len(),
        forall|j: int| 0 <= j < from ==> final(log)[j] == old(log)[j],
        forall|j: int| from <= j < old(log).len() ==> final(log)[j] == old(log)[j] + 1,
{
    let mut at: usize = from;
    while at < log.len()
        invariant
            from <= at <= log.len(),
            log.len() == old(log).len(),
            forall|j: int| 0 <= j < from ==> log[j] == old(log)[j],
            forall|j: int| from <= j < at ==> log[j] == old(log)[j] + 1,
            forall|j: int| at <= j < log.len() ==> log[j] == old(log)[j],
            forall|j: int| from <= j < old(log).len() ==> old(log)[j] < usize::MAX,
        decreases log.len() - at,
    {
        let entry: usize = log[at];
        log[at] = entry + 1;
        at += 1;
    }
}

/// Takes one from every entry from position `from` on.
fn shift_down(log: &mut Vec<usize>, from: usize)
    requires
        from <= old(log).len(),
        forall|j: int| from <= j < old(log).len() ==> old(log)[j] > 0,
    ensures
        final(log).len() == old(log).len(),
        forall|j: int| 0 <= j < from ==> final(log)[j] == old(log)[j],
        forall|j: int| from <= j < old(log).len() ==> final(log)[j] == old(log)[j] - 1,
{
    let mut at: usize = from;
    while at < log.len()
        invariant
            from <= at <= log.len(),
            log.len() == old(log).len(),
            forall|j: int| 0 <= j < from ==> log[j] == old(log)[j],
            forall|j: int| from <= j < at ==> log[j] == old(log)[j] - 1,
            forall|j: int| at <= j < log.len() ==> log[j] == old(log)[j],
            forall|j: int| from <= j < old(log).len() ==> old(log)[j] > 0,
        decreases log.len() - at,
    {
        let entry: usize = log[at];
        log[at] = entry - 1;
        at += 1;
    }
}

/// Updates the log for a child inserted at slot `index`.
pub fn track_insert(log: &mut Vec<usize>, index: usize)
    requires
        strictly_ascending(old(log)@),
        forall|j: int| 0 <= j < old(log).len() ==> old(log)[j] < usize::MAX,
    ensures
        final(log)@ == inserted(old(log)@, index),
        strictly_ascending(final(log)@),
        final(log)@.contains(index),
{
    let point = insertion_point(log, index);
    log.insert(point, index);
    let len: usize = log.len();
    assert(point < len);
    shift_up(log, point + 1);
    assert(log@ =~= inserted(old(log)@, index));
    assert(log@[point as int] == index);
}

/// Updates the log for a child pushed into the last slot, `index`, which is
/// above every logged slot.
pub fn track_push(log: &mut Vec<usize>, index: usize)
    requires
        strictly_ascending(old(log)@),
        forall|j: int| 0 <= j < old(log).len() ==> old(log)[j] < index,
    ensures
        final(log)@ == inserted(old(log)@, index),
        final(log)@ == old(log)@.push(index),
        strictly_ascending(final(log)@),
{
    log.push(index);
    assert(log@ =~= inserted(old(log)@, index));
}

/// Updates the log for the removal of the child at slot `index`.
pub fn track_remove(log: &mut Vec<usize>, index: usize)
    requires
        strictly_ascending(old(log)@),
    ensures
        final(log)@ == removed(old(log)@, index),
        strictly_ascending(final(log)@),
{
    let from: usize = match find(log, index) {
        Ok(at) => {
            log.remove(at);
            at
        },
        Err(at) => at,
    };
    assert forall|j: int| from <= j < log.len() implies log[j] > 0 by {
        assert(log[j] > index);
    }
    shift_down(log, from);
    assert(log@ =~= removed(old(log)@, index));
}

/// One structural edit of a group's children, by storage slot.
pub enum Edit {
    /// A new child is inserted at the slot.
    Insert(usize),
    /// The child at the slot is removed.
    Remove(usize),
}

/// The log names exactly the slots of the children that are new: `fresh`
/// says of each child of the group, by slot, whether it was inserted since
/// the last commit.
pub open spec fn tracks(log: Seq<usize>, fresh: Seq<bool>) -> bool {
    &&& strictly_ascending(log)
    &&& within(log, fresh.len() as int)
    &&& forall|slot: int|
        0 <= slot < fresh.len() ==> (log.contains(slot as usize) <==> #[trigger] fresh[slot])
}

/// Whether `edit` can be made on a group of `len` children.
pub open spec fn allowed(edit: Edit, len: int) -> bool {
    match edit {
        Edit::Insert(index) => index <= len < usize::MAX,
        Edit::Remove(index) => index < len <= usize::MAX,
    }
}

/// The log after `edit`.
pub open spec fn log_after(log: Seq<usize>, edit: Edit) -> Seq<usize> {
    match edit {
        Edit::Insert(index) => inserted(log, index),
        Edit::Remove(index) => removed(log, index),
    }
}

/// The children after `edit`, each marked new or not.
pub open spec fn fresh_after(fresh: Seq<bool>, edit: Edit) -> Seq<bool> {
    match edit {
        Edit::Insert(index) => fresh.insert(index as int, true),
        Edit::Remove(index) => fresh.remove(index as int),
    }
}

/// Whether the edits can be made one after the other on a group of `len`
/// children.
pub open spec fn all_allowed(edits: Seq<Edit>, len: int) -> bool
    decreases edits.len(),
{
    if edits.len() == 0 {
        true
    } else {
        allowed(edits[0], len) && all_allowed(
            edits.skip(1),
            match edits[0] {
                Edit::Insert(_) => len + 1,
                Edit::Remove(_) => len - 1,
            },
        )
    }
}

/// The log after the edits, made one after the other.
pub open spec fn log_replayed(log: Seq<usize>, edits: Seq<Edit>) -> Seq<usize>
    decreases edits.len(),
{
    if edits.len() == 0 {
        log
    } else {
        log_replayed(log_after(log, edits[0]), edits.skip(1))
    }
}

/// The children after the edits, each marked new or not.
pub open spec fn fresh_replayed(fresh: Seq<bool>, edits: Seq<Edit>) -> Seq<bool>
    decreases edits.len(),
{
    if edits.len() == 0 {
        fresh
    } else {
        fresh_replayed(fresh_after(fresh, edits[0]), edits.skip(1))
    }
}

/// The number of entries of a sorted log that are below `index`.
pub proof fn split_point(log: Seq<usize>, index: usize) -> (point: int)
    requires
        strictly_ascending(log),
    ensures
        0 <= point <= log.len(),
        forall|j: int| 0 <= j < point ==> log[j] < index,
        forall|j: int| point <= j < log.len() ==> log[j] >= index,
    decreases log.len(),
{
    if log.len() == 0 {
        0
    } else if log[log.len() - 1] < index {
        assert forall|j: int| 0 <= j < log.len() implies log[j] < index by {
            if j < log.len() - 1 {
                assert(log[j] < log[log.len() - 1]);
            }
        }
        log.len() as int
    } else {
        let shorter = log.drop_last();
        assert forall|i: int, j: int| 0 <= i < j < shorter.len() implies shorter[i]
            < shorter[j] by {
            assert(log[i] < log[j]);
        }
        let point = split_point(shorter, index);
        assert forall|j: int| point <= j < log.len() implies log[j] >= index by {
            if j < log.len() - 1 {
                assert(shorter[j] >= index);
            }
        }
        assert forall|j: int| 0 <= j < point implies log[j] < index by {
            assert(shorter[j] < index);
        }
        point
    }
}

/// After an insertion the log still names exactly the new children: the
/// one just inserted, and those it named before, where they stand now.
pub proof fn insert_keeps_track(log: Seq<usize>, fresh: Seq<bool>, index: usize)
    requires
        tracks(log, fresh),
        index <= fresh.len() < usize::MAX,
    ensures
        tracks(inserted(log, index), fresh.insert(index as int, true)),
{
    let point = split_point(log, index);
    let grown = inserted(log, index);
    let marks = fresh.insert(index as int, true);
    assert forall|j: int| 0 <= j < grown.len() implies grown[j] == (if j < point {
        log[j]
    } else if j == point {
        index
    } else {
        (log[j - 1] + 1) as usize
    }) by {
        if j > 0 && j - 1 < point {
            assert(log[j - 1] < index);
        }
        if j > 0 && j - 1 >= point {
            assert(log[j - 1] >= index);
        }
        if j < log.len() && j >= point {
            assert(log[j] >= index);
        }
    }
    assert forall|j: int| 0 <= j < log.len() implies log[j] + 1 <= usize::MAX by {
        assert(log[j] < fresh.len());
    }
    assert forall|i: int, j: int| 0 <= i < j < grown.len() implies grown[i] < grown[j] by {
        if i < point && j > point {
            assert(log[i] < index);
            assert(log[j - 1] >= index);
        } else if i > point {
            assert(log[i - 1] < log[j - 1]);
        } else if i == point && j > point {
            assert(log[j - 1] >= index);
        } else if j < point {
            assert(log[i] < log[j]);
        }
    }
    assert forall|j: int| 0 <= j < grown.len() implies (#[trigger] grown[j]) < marks.len() by {
        if j < point {
            assert(log[j] < fresh.len());
        } else if j > point {
            assert(log[j - 1] < fresh.len());
        }
    }
    assert forall|slot: int| 0 <= slot < marks.len() implies (grown.contains(slot as usize)
        <==> #[trigger] marks[slot]) by {
        if slot < index {
            assert(marks[slot] == fresh[slot]);
            if log.contains(slot as usize) {
                let j = choose|j: int| 0 <= j < log.len() && log[j] == slot as usize;
                assert(j < point);
                assert(grown[j] == slot as usize);
            }
            if grown.contains(slot as usize) {
                let j = choose|j: int| 0 <= j < grown.len() && grown[j] == slot as usize;
                if j > point {
                    assert(log[j - 1] >= index);
                }
                assert(j < point);
                assert(log[j] == slot as usize);
            }
        } else if slot == index {
            assert(grown[point] == index);
        } else {
            assert(marks[slot] == fresh[slot - 1]);
            if log.contains((slot - 1) as usize) {
                let j = choose|j: int| 0 <= j < log.len() && log[j] == (slot - 1) as usize;
                assert(j >= point);
                assert(grown[j + 1] == slot as usize);
            }
            if grown.contains(slot as usize) {
                let j = choose|j: int| 0 <= j < grown.len() && grown[j] == slot as usize;
                if j < point {
                    assert(log[j] < index);
                }
                assert(j > point);
                assert(log[j - 1] == (slot - 1) as usize);
            }
        }
    }
}

/// After a removal the log still names exactly the new children: those it
/// named before and that were not removed, where they stand now.
pub proof fn remove_keeps_track(log: Seq<usize>, fresh: Seq<bool>, index: usize)
    requires
        tracks(log, fresh),
        index < fresh.len() <= usize::MAX,
    ensures
        tracks(removed(log, index), fresh.remove(index as int)),
{
    let point = split_point(log, index);
    let shrunk = removed(log, index);
    let marks = fresh.remove(index as int);
    let gone: int = if log.contains(index) { 1 } else { 0 };
    if log.contains(index) {
        let at = choose|j: int| 0 <= j < log.len() && log[j] == index;
        if at < point {
            assert(log[at] < index);
        }
        if at > point {
            assert(log[point] < log[at]);
        }
        assert(at == point);
        assert(log[point] == index);
    } else {
        if point < log.len() {
            assert(log[point] != index);
        }
    }
    assert forall|j: int| point + gone <= j < log.len() implies log[j] > index by {
        if gone == 1 {
            assert(log[point] < log[j]);
        } else {
            assert(log[j] >= index);
            assert(log[j] != index);
        }
    }
    assert forall|j: int| 0 <= j < shrunk.len() implies shrunk[j] == (if j < point {
        log[j]
    } else {
        (log[j + gone] - 1) as usize
    }) by {
        if j < point {
            assert(log[j] < index);
        } else {
            assert(log[j] >= index);
        }
    }
    assert forall|i: int, j: int| 0 <= i < j < shrunk.len() implies shrunk[i] < shrunk[j] by {
        if j < point {
            assert(log[i] < log[j]);
        } else if i < point {
            assert(log[i] < index);
            assert(log[j + gone] > index);
        } else {
            assert(log[i + gone] < log[j + gone]);
            assert(log[i + gone] > index);
        }
    }
    assert forall|j: int| 0 <= j < shrunk.len() implies (#[trigger] shrunk[j]) < marks.len() by {
        if j < point {
            assert(log[j] < index);
        } else {
            assert(log[j + gone] < fresh.len());
            assert(log[j + gone] > index);
        }
    }
    assert forall|slot: int| 0 <= slot < marks.len() implies (shrunk.contains(slot as usize)
        <==> #[trigger] marks[slot]) by {
        if slot < index {
            assert(marks[slot] == fresh[slot]);
            if log.contains(slot as usize) {
                let j = choose|j: int| 0 <= j < log.len() && log[j] == slot as usize;
                if j >= point {
                    assert(log[j] >= index);
                }
                assert(shrunk[j] == slot as usize);
            }
            if shrunk.contains(slot as usize) {
                let j = choose|j: int| 0 <= j < shrunk.len() && shrunk[j] == slot as usize;
                if j >= point {
                    assert(log[j + gone] > index);
                }
                assert(log[j] == slot as usize);
            }
        } else {
            assert(marks[slot] == fresh[slot + 1]);
            if log.contains((slot + 1) as usize) {
                let j = choose|j: int| 0 <= j < log.len() && log[j] == (slot + 1) as usize;
                if j < point {
                    assert(log[j] < index);
                }
                if gone == 1 {
                    assert(log[point] == index);
                }
                assert(j >= point + gone);
                assert(shrunk[j - gone] == slot as usize);
            }
            if shrunk.contains(slot as usize) {
                let j = choose|j: int| 0 <= j < shrunk.len() && shrunk[j] == slot as usize;
                if j < point {
                    assert(log[j] < index);
                }
                assert(log[j + gone] == (slot + 1) as usize);
            }
        }
    }
}

/// Whatever edits are made between two commits, in whatever order, the log
/// names exactly the children that are new once all of them are made.
pub proof fn replay_keeps_track(log: Seq<usize>, fresh: Seq<bool>, edits: Seq<Edit>)
    requires
        tracks(log, fresh),
        all_allowed(edits, fresh.len() as int),
    ensures
        tracks(log_replayed(log, edits), fresh_replayed(fresh, edits)),
    decreases edits.len(),
{
    if edits.len() > 0 {
        match edits[0] {
            Edit::Insert(index) => insert_keeps_track(log, fresh, index),
            Edit::Remove(index) => remove_keeps_track(log, fresh, index),
        }
        replay_keeps_track(log_after(log, edits[0]), fresh_after(fresh, edits[0]), edits.skip(1));
    }
}

} // verus!
