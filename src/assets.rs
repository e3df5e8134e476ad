use vstd::prelude::*;

use std::collections::HashSet;

verus! {

/// A change to a loaded vector image asset, by asset identity.
#[derive(Clone, Copy, Debug, PartialEq, Eq, Structural)]
pub enum AssetEvent {
    Created(u64),
    Modified(u64),
    Removed(u64),
}

/// The assets to copy to the render side after `events`, in event order:
/// created or modified, and not removed since.
pub open spec fn changed_after(events: Seq<AssetEvent>) -> Set<u64>
    decreases events.len(),
{
    if events.len() == 0 {
        Set::empty()
    } else {
        let before = changed_after(events.drop_last());
        match events.last() {
            AssetEvent::Created(h) => before.insert(h),
            AssetEvent::Modified(h) => before.insert(h),
            AssetEvent::Removed(h) => before.remove(h),
        }
    }
}

/// The assets that `events` removed at some point.
pub open spec fn removed_in(events: Seq<AssetEvent>) -> Set<u64>
    decreases events.len(),
{
    if events.len() == 0 {
        Set::empty()
    } else {
        let before = removed_in(events.drop_last());
        match events.last() {
            AssetEvent::Removed(h) => before.insert(h),
            _ => before,
        }
    }
}

/// How the render side's copies of the assets must change this frame:
/// drop every removed asset, then copy every changed one that is still
/// loaded.
pub struct AssetUpdates {
    pub removed: HashSet<u64>,
    pub changed: HashSet<u64>,
}

/// Folds this frame's asset events into the removals and the copies that
/// the render side's assets need.
pub fn extract_vec_img_render_assets(events: &Vec<AssetEvent>) -> (r: AssetUpdates)
    ensures
        r.removed@ == removed_in(events@),
        r.changed@ == changed_after(events@),
{
    broadcast use vstd::std_specs::hash::group_hash_axioms;

    let mut removed: HashSet<u64> = HashSet::new();
    let mut changed: HashSet<u64> = HashSet::new();
    let mut i: usize = 0;
    while i < events.len()
        invariant
            i <= events@.len(),
            removed@ == removed_in(events@.take(i as int)),
            changed@ == changed_after(events@.take(i as int)),
        decreases events@.len() - i,
    {
        assert(events@.take(i + 1).drop_last() == events@.take(i as int));
        match events[i] {
            AssetEvent::Created(h) => {
                changed.insert(h);
            },
            AssetEvent::Modified(h) => {
                changed.insert(h);
            },
            AssetEvent::Removed(h) => {
                changed.remove(&h);
                removed.insert(h);
            },
        }
        i = i + 1;
    }
    assert(events@.take(events@.len() as int) == events@);
    AssetUpdates { removed, changed }
}

} // verus!
