//! The choice of the snapshot that a database is restored from.
use crate::plan::Fault;
use std::path::PathBuf;
use vstd::prelude::*;

verus! {

/// An entry of the directory that holds the snapshots.
#[derive(Debug, PartialEq, Eq)]
pub struct SnapshotEntry {
    pub path: PathBuf,
    /// When the entry was last modified, in whole seconds of the Unix epoch. There is no number
    /// for a time before the epoch.
    pub modified: Option<u64>,
}

/// Whether every entry was modified in the Unix epoch.
pub open spec fn all_dated(entries: Seq<SnapshotEntry>) -> bool {
    forall|i: int| 0 <= i < entries.len() ==> (#[trigger] entries[i]).modified is Some
}

/// Whether the entry at a place is the first of those that were modified last, and was modified
/// after the first second of the epoch.
pub open spec fn is_latest(entries: Seq<SnapshotEntry>, place: int) -> bool {
    &&& 0 <= place < entries.len()
    &&& entries[place].modified->0 > 0
    &&& forall|i: int|
        0 <= i < entries.len() ==> (#[trigger] entries[i]).modified->0 <= entries[place].modified->0
    &&& forall|i: int|
        0 <= i < place ==> (#[trigger] entries[i]).modified->0 < entries[place].modified->0
}

/// The place of the latest entry, where there is one.
pub open spec fn latest_place(entries: Seq<SnapshotEntry>) -> int {
    choose|place: int| is_latest(entries, place)
}

/// No two places hold the latest entry.
pub proof fn law_latest_is_unique(entries: Seq<SnapshotEntry>, a: int, b: int)
    requires
        is_latest(entries, a),
        is_latest(entries, b),
    ensures
        a == b,
{
    assert(entries[a].modified->0 <= entries[b].modified->0);
    assert(entries[b].modified->0 <= entries[a].modified->0);
    if a < b {
        assert(entries[a].modified->0 < entries[b].modified->0);
    }
    if b < a {
        assert(entries[b].modified->0 < entries[a].modified->0);
    }
}

/// There is a latest entry exactly if one was modified after the first second of the epoch.
pub proof fn law_when_there_is_a_latest(entries: Seq<SnapshotEntry>)
    requires
        all_dated(entries),
    ensures
        is_latest(entries, latest_place(entries)) <==> exists|i: int|
            0 <= i < entries.len() && (#[trigger] entries[i]).modified->0 > 0,
    decreases entries.len(),
{
    if entries.len() > 0 {
        let before = entries.drop_last();
        let last = entries.len() - 1;
        assert forall|i: int| 0 <= i < before.len() implies (
        #[trigger] before[i]).modified is Some by {
            assert(before[i] == entries[i]);
        }
        law_when_there_is_a_latest(before);
        let place = latest_place(before);
        if is_latest(before, place) {
            if entries[last].modified->0 > before[place].modified->0 {
                assert forall|i: int| 0 <= i < last implies (#[trigger] entries[i]).modified->0
                    < entries[last].modified->0 by {
                    assert(before[i].modified->0 <= before[place].modified->0);
                }
                assert(is_latest(entries, last));
            } else {
                assert forall|i: int| 0 <= i < entries.len() implies (
                #[trigger] entries[i]).modified->0 <= entries[place].modified->0 by {
                    if i < last {
                        assert(before[i].modified->0 <= before[place].modified->0);
                    }
                }
                assert forall|i: int| 0 <= i < place implies (#[trigger] entries[i]).modified->0
                    < entries[place].modified->0 by {
                    assert(before[i].modified->0 < before[place].modified->0);
                }
                assert(is_latest(entries, place));
            }
        } else {
            assert forall|i: int| 0 <= i < last implies (
            #[trigger] entries[i]).modified->0 <= 0 by {
                assert(before[i] == entries[i]);
            }
            if entries[last].modified->0 > 0 {
                assert(is_latest(entries, last));
            }
        }
    }
}

/// The place of the entry that was modified last. Of several such entries the first counts, and
/// an entry of the first second of the epoch never does.
pub fn latest_snapshot(entries: &Vec<SnapshotEntry>) -> (r: Result<usize, Fault>)
    ensures
        match r {
            Ok(place) => all_dated(entries@) && is_latest(entries@, place as int) && place
                == latest_place(entries@),
            Err(Fault::BeforeEpoch) => !all_dated(entries@),
            Err(fault) => fault == Fault::NoSnapshots && all_dated(entries@) && forall|place: int|
                !is_latest(entries@, place),
        },
{
    let mut latest: Option<usize> = None;
    let mut latest_time: u64 = 0;
    let mut i: usize = 0;
    while i < entries.len()
        invariant
            i <= entries.len(),
            forall|j: int| 0 <= j < i ==> (#[trigger] entries@[j]).modified is Some,
            forall|j: int| 0 <= j < i ==> (#[trigger] entries@[j]).modified->0 <= latest_time,
            match latest {
                Some(place) => place < i && latest_time > 0 && entries@[place as int].modified->0
                    == latest_time && forall|j: int|
                    0 <= j < place ==> (#[trigger] entries@[j]).modified->0 < latest_time,
                None => latest_time == 0,
            },
        decreases entries.len() - i,
    {
        match entries[i].modified {
            Some(modified_time) => {
                if modified_time > latest_time {
                    latest_time = modified_time;
                    latest = Some(i);
                }
            },
            None => {
                return Err(Fault::BeforeEpoch);
            },
        }
        i += 1;
    }
    match latest {
        Some(place) => {
            proof {
                assert(is_latest(entries@, place as int));
                law_latest_is_unique(entries@, place as int, latest_place(entries@));
            }
            Ok(place)
        },
        None => Err(Fault::NoSnapshots),
    }
}

} // verus!
