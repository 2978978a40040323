//! Filesystem events as the pipeline sees them: a kind and the paths the
//! platform watcher reported, already reduced to plain values.

use vstd::prelude::*;

verus! {

/// The kind of a native filesystem event. Only creations drive the
/// pipeline; everything else is discarded.
#[derive(Clone, Copy, Debug, PartialEq, Eq, Structural)]
pub enum EventKind {
    Create,
    Modify,
    Remove,
    Other,
}

/// One native filesystem event: its kind and the ordered paths it reports.
#[derive(Clone, Debug)]
pub struct FileEvent {
    pub kind: EventKind,
    pub paths: Vec<String>,
}

/// The mathematical value of a [`FileEvent`].
pub struct FileEventView {
    pub kind: EventKind,
    pub paths: Seq<Seq<char>>,
}

impl View for FileEvent {
    type V = FileEventView;

    open spec fn view(&self) -> FileEventView {
        FileEventView { kind: self.kind, paths: self.paths.deep_view() }
    }
}

/// An event is actionable exactly when it is a creation that reports at
/// least one path.
pub open spec fn actionable(e: FileEventView) -> bool {
    e.kind == EventKind::Create && e.paths.len() > 0
}

} // verus!
