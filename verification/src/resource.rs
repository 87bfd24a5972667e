//! Snapshots of watched resources and the events that deliver them.

use vstd::prelude::*;

use crate::labels::LabelMap;

verus! {

/// A snapshot of one watched resource: its identifying metadata and its
/// labels, all possibly absent.
pub struct Resource {
    /// The namespace the resource lives in, when one is set.
    pub namespace: Option<String>,
    /// The resource's name, when one is discoverable.
    pub name: Option<String>,
    /// The resource's label mapping; an absent mapping reads as empty.
    pub labels: Option<LabelMap>,
}

impl Resource {
    /// The label mapping, an absent mapping reading as empty.
    pub open spec fn label_view(self) -> Map<Seq<char>, Seq<char>> {
        match self.labels {
            Some(m) => m@,
            None => Map::empty(),
        }
    }

    /// The namespace the resource is reconciled against: the stated one, or
    /// "default" when none is set.
    pub open spec fn effective_namespace(self) -> Seq<char> {
        match self.namespace {
            Some(ns) => ns@,
            None => "default"@,
        }
    }

    /// The name used in observability records: the stated one, or "unknown"
    /// when none is discoverable.
    pub open spec fn display_name(self) -> Seq<char> {
        match self.name {
            Some(n) => n@,
            None => "unknown"@,
        }
    }
}

/// One notification from the watch stream.
pub enum Event {
    /// The resource exists; covers both creation and update.
    Applied(Resource),
    /// The resource was removed; the snapshot may be partial.
    Removed(Resource),
    /// Any other stream notification (restart and initial-sync markers).
    Other,
}

} // verus!
