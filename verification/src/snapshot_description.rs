use vstd::prelude::*;

verus! {

/// One line of the snapshot listing: when a cluster snapshot was taken, the
/// unique id that ties its volume snapshots together, and its description.
#[derive(Clone, PartialEq, Eq)]
pub struct SnapshotDescription {
    pub snapshot_start_time: String,
    pub qumulo_unique_id: String,
    pub snapshot_description: String,
}

pub struct SnapshotDescriptionView {
    pub snapshot_start_time: Seq<char>,
    pub qumulo_unique_id: Seq<char>,
    pub snapshot_description: Seq<char>,
}

impl View for SnapshotDescription {
    type V = SnapshotDescriptionView;

    open spec fn view(&self) -> SnapshotDescriptionView {
        SnapshotDescriptionView {
            snapshot_start_time: self.snapshot_start_time@,
            qumulo_unique_id: self.qumulo_unique_id@,
            snapshot_description: self.snapshot_description@,
        }
    }
}

impl DeepView for SnapshotDescription {
    type V = SnapshotDescriptionView;

    open spec fn deep_view(&self) -> SnapshotDescriptionView {
        self@
    }
}

/// How a snapshot description is shown: its three parts joined by " - ".
pub open spec fn display_text(d: SnapshotDescriptionView) -> Seq<char> {
    d.snapshot_start_time + " - "@ + d.qumulo_unique_id + " - "@ + d.snapshot_description
}

impl SnapshotDescription {
    /// The description as it is shown to the user (and in debug output):
    /// `start time - unique id - description`.
    pub fn to_display_string(&self) -> (s: String)
        ensures
            s@ == display_text(self@),
    {
        self.snapshot_start_time.clone().concat(" - ").concat(self.qumulo_unique_id.as_str()).concat(
            " - ",
        ).concat(self.snapshot_description.as_str())
    }
}

} // verus!
