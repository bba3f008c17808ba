//! The holder of the one published snapshot.

use vstd::prelude::*;
use crate::snapshot::{Snapshot, SnapshotView};

verus! {

/// Holds exactly one snapshot: the latest that was published. There is no
/// history. A write replaces the whole value and a read copies the whole
/// value out, so a reader never holds a reference into the store. Writing
/// needs the store exclusively; a program that shares the store between a
/// writer and readers puts it behind a lock and gets whole values only.
#[derive(Debug)]
pub struct SnapshotStore {
    current: Snapshot,
}

impl View for SnapshotStore {
    type V = SnapshotView;

    closed spec fn view(&self) -> SnapshotView {
        self.current@
    }
}

impl SnapshotStore {
    /// A store that holds the empty snapshot.
    pub fn new() -> (store: Self)
        ensures
            store@ == SnapshotView::empty(0),
    {
        SnapshotStore { current: Snapshot::empty(0) }
    }

    /// Replaces the held snapshot.
    pub fn write(&mut self, snapshot: Snapshot)
        ensures
            final(self)@ == snapshot@,
    {
        self.current = snapshot;
    }

    /// A copy of the held snapshot.
    pub fn read(&self) -> (snapshot: Snapshot)
        ensures
            snapshot@ == self@,
    {
        self.current.clone()
    }
}

} // verus!
