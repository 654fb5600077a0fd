//! The value handed from the protocol watcher to the reporter: the identity
//! of the window that just became active.

use vstd::prelude::*;

verus! {

/// The fields of one activation event, as mathematical values.
pub struct SnapshotView {
    pub app_id: Seq<char>,
    pub title: Seq<char>,
}

/// An immutable record of one window activation: the application id and the
/// title of the surface that became active. It has no identity beyond its
/// fields.
#[derive(Debug)]
pub struct ActiveWindowSnapshot {
    pub app_id: String,
    pub title: String,
}

impl View for ActiveWindowSnapshot {
    type V = SnapshotView;

    open spec fn view(&self) -> SnapshotView {
        SnapshotView { app_id: self.app_id@, title: self.title@ }
    }
}

impl Clone for ActiveWindowSnapshot {
    fn clone(&self) -> (r: Self)
        ensures
            r == *self,
    {
        ActiveWindowSnapshot { app_id: self.app_id.clone(), title: self.title.clone() }
    }
}

} // verus!
