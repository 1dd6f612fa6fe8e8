//! The cache of the latest captured form: one slot, overwritten by every capture.

use crate::wire::FormSnapshotJson;
use vstd::prelude::*;

verus! {

/// The latest form snapshot, if any was published.
#[derive(Debug)]
pub struct FormSnapshotState {
    pub latest: Option<FormSnapshotJson>,
}

impl FormSnapshotState {
    /// A cache that holds nothing.
    pub fn new() -> (r: FormSnapshotState)
        ensures
            r.latest is None,
    {
        FormSnapshotState { latest: None }
    }

    /// Holds `snapshot` from now on, and forgets what was held before.
    pub fn publish(&mut self, snapshot: FormSnapshotJson)
        ensures
            final(self).latest == Some(snapshot),
    {
        self.latest = Some(snapshot);
    }

    /// The snapshot that was published last; `None` where none ever was.
    pub fn latest(&self) -> (r: Option<&FormSnapshotJson>)
        ensures
            match r {
                Some(s) => self.latest == Some(*s),
                None => self.latest is None,
            },
    {
        self.latest.as_ref()
    }
}

} // verus!
