//! The course of a cluster restore, as a machine that the program drives: it
//! hands the machine what the last action brought back, and the machine
//! answers with the state it is in next and the action to perform.
//!
//! The order is: find the volume snapshots of the cluster snapshot, find the
//! volumes attached to the nodes, detach them and wait until EC2 reports all
//! of them "ok", delete them if asked to, then for each volume snapshot
//! create a volume, wait until it is "available", and attach it where the
//! snapshot's tags say.

use vstd::prelude::*;

use crate::aws::{
    delete_requests_view, delete_volume_requests, detach_requests_view, detach_volume_requests,
    get_ebs_volume_mappings, instance_mappings, lemma_instance_mappings_keep_every_mapping,
    lemma_reservation_instances_keep_every_instance, instances_list_mappings, private_ip_filters,
    private_ip_filters_view, reservation_instances, reservations_are_complete,
    reservations_list_instances,
};
use crate::constants;
use crate::ec2::{
    AttachVolumeRequest, AttachVolumeRequestView, CreateVolumeRequest, CreateVolumeRequestView,
    DeleteVolumeRequest, DeleteVolumeRequestView, DetachVolumeRequest, DetachVolumeRequestView, Filter,
    FilterView, Reservation, ReservationView, Snapshot, SnapshotView, Volume, VolumeStatusItem,
    VolumeStatusItemView, VolumeView,
};
use crate::listing::{
    lemma_mapping_volume_ids_are_every_volume, mapping_volume_ids, names_volume, volume_ids_of_mappings,
};
use crate::qsnaperror::QsnapError;
use crate::restore::{
    attach_request_view, attachable, plan_volume_restore, restorable, restore_snapshot_filters,
    restore_snapshot_filters_view, restore_volume_request_view, snapshot_is_restorable,
    volume_restore_view, VolumeRestore, VolumeRestoreView,
};
use crate::util::{
    all_have_status, all_in_state, all_volumes_in_state, check_all_volumes_for_status,
    statuses_are_readable, statuses_readable,
};

verus! {

/// The last action that the restore asked for.
#[derive(Clone, Copy, Debug, PartialEq, Eq, Structural)]
pub enum RestorePhase {
    Start,
    DescribingSnapshots,
    DescribingInstances,
    Detaching,
    CheckingDetached,
    WaitingDetached,
    ReportingDetached,
    Deleting,
    ReportingDeleted,
    StartingProgress,
    CreatingVolume,
    CheckingVolume,
    WaitingVolume,
    Attaching,
    Finished,
    Failed,
}

/// What an action brought back.
#[derive(Debug)]
pub enum RestoreEvent {
    /// The action was performed and brought nothing back.
    Done,
    SnapshotsDescribed(Option<Vec<Snapshot>>),
    InstancesDescribed(Option<Vec<Reservation>>),
    VolumeStatuses(Option<Vec<VolumeStatusItem>>),
    VolumeCreated(Option<String>),
    Volumes(Option<Vec<Volume>>),
}

pub enum RestoreEventView {
    Done,
    SnapshotsDescribed(Option<Seq<SnapshotView>>),
    InstancesDescribed(Option<Seq<ReservationView>>),
    VolumeStatuses(Option<Seq<VolumeStatusItemView>>),
    VolumeCreated(Option<Seq<char>>),
    Volumes(Option<Seq<VolumeView>>),
}

impl View for RestoreEvent {
    type V = RestoreEventView;

    open spec fn view(&self) -> RestoreEventView {
        match self {
            RestoreEvent::Done => RestoreEventView::Done,
            RestoreEvent::SnapshotsDescribed(o) => RestoreEventView::SnapshotsDescribed(o.deep_view()),
            RestoreEvent::InstancesDescribed(o) => RestoreEventView::InstancesDescribed(o.deep_view()),
            RestoreEvent::VolumeStatuses(o) => RestoreEventView::VolumeStatuses(o.deep_view()),
            RestoreEvent::VolumeCreated(o) => RestoreEventView::VolumeCreated(o.deep_view()),
            RestoreEvent::Volumes(o) => RestoreEventView::Volumes(o.deep_view()),
        }
    }
}

/// What the program is to do next.
#[derive(Debug)]
pub enum RestoreAction {
    /// Describe the snapshots that the filters select.
    DescribeSnapshots(Vec<Filter>),
    /// Describe the instances that the filters select.
    DescribeInstances(Vec<Filter>),
    /// Send each detach request.
    DetachVolumes(Vec<DetachVolumeRequest>),
    /// Describe the status of the volumes.
    DescribeVolumeStatuses(Vec<String>),
    /// Sleep for the given number of seconds.
    Wait(u64),
    /// Print the line.
    Report(String),
    /// Send each delete request.
    DeleteVolumes(Vec<DeleteVolumeRequest>),
    /// Show a progress indicator with the message.
    StartProgress(String),
    /// Create a volume, and bring back its id.
    CreateVolume(CreateVolumeRequest),
    /// Describe the volumes.
    DescribeVolumes(Vec<String>),
    /// Send the attach request.
    AttachVolume(AttachVolumeRequest),
    /// Stop the progress indicator and print the message: the restore is done.
    Finish(String),
    /// Print the error and end the program with a failure.
    Fail(QsnapError),
}

pub enum RestoreActionView {
    DescribeSnapshots(Seq<FilterView>),
    DescribeInstances(Seq<FilterView>),
    DetachVolumes(Seq<DetachVolumeRequestView>),
    DescribeVolumeStatuses(Seq<Seq<char>>),
    Wait(u64),
    Report(Seq<char>),
    DeleteVolumes(Seq<DeleteVolumeRequestView>),
    StartProgress(Seq<char>),
    CreateVolume(CreateVolumeRequestView),
    DescribeVolumes(Seq<Seq<char>>),
    AttachVolume(AttachVolumeRequestView),
    Finish(Seq<char>),
    Fail(Seq<char>),
}

impl View for RestoreAction {
    type V = RestoreActionView;

    open spec fn view(&self) -> RestoreActionView {
        match self {
            RestoreAction::DescribeSnapshots(f) => RestoreActionView::DescribeSnapshots(f.deep_view()),
            RestoreAction::DescribeInstances(f) => RestoreActionView::DescribeInstances(f.deep_view()),
            RestoreAction::DetachVolumes(r) => RestoreActionView::DetachVolumes(r.deep_view()),
            RestoreAction::DescribeVolumeStatuses(ids) => RestoreActionView::DescribeVolumeStatuses(ids.deep_view()),
            RestoreAction::Wait(s) => RestoreActionView::Wait(*s),
            RestoreAction::Report(m) => RestoreActionView::Report(m@),
            RestoreAction::DeleteVolumes(r) => RestoreActionView::DeleteVolumes(r.deep_view()),
            RestoreAction::StartProgress(m) => RestoreActionView::StartProgress(m@),
            RestoreAction::CreateVolume(r) => RestoreActionView::CreateVolume(r@),
            RestoreAction::DescribeVolumes(ids) => RestoreActionView::DescribeVolumes(ids.deep_view()),
            RestoreAction::AttachVolume(r) => RestoreActionView::AttachVolume(r@),
            RestoreAction::Finish(m) => RestoreActionView::Finish(m@),
            RestoreAction::Fail(e) => RestoreActionView::Fail(e@),
        }
    }
}

/// A cluster restore under way.
pub struct RestoreRun {
    phase: RestorePhase,
    ip_addresses: Vec<String>,
    snapshot_unique_id: String,
    delete_attached_drives: bool,
    snapshots: Vec<Snapshot>,
    volume_ids: Vec<String>,
    current: Option<VolumeRestore>,
    new_volume_id: Option<String>,
}

/// The state of a cluster restore: the last action asked for, the nodes'
/// addresses, the unique id of the cluster snapshot, whether the old volumes
/// are to be deleted, the volume snapshots still to restore, the old
/// volumes' ids, the volume being restored and the id of its new volume.
pub struct RestoreRunView {
    pub phase: RestorePhase,
    pub ip_addresses: Seq<Seq<char>>,
    pub snapshot_unique_id: Seq<char>,
    pub delete_attached_drives: bool,
    pub snapshots: Seq<SnapshotView>,
    pub volume_ids: Seq<Seq<char>>,
    pub current: Option<VolumeRestoreView>,
    pub new_volume_id: Option<Seq<char>>,
}

impl View for RestoreRun {
    type V = RestoreRunView;

    closed spec fn view(&self) -> RestoreRunView {
        RestoreRunView {
            phase: self.phase,
            ip_addresses: self.ip_addresses.deep_view(),
            snapshot_unique_id: self.snapshot_unique_id@,
            delete_attached_drives: self.delete_attached_drives,
            snapshots: self.snapshots.deep_view(),
            volume_ids: self.volume_ids.deep_view(),
            current: match self.current {
                Some(c) => Some(c@),
                None => None,
            },
            new_volume_id: self.new_volume_id.deep_view(),
        }
    }
}

/// The restore at its start.
pub open spec fn restore_start(
    ip_addresses: Seq<Seq<char>>,
    snapshot_unique_id: Seq<char>,
    delete_attached_drives: bool,
) -> RestoreRunView {
    RestoreRunView {
        phase: RestorePhase::Start,
        ip_addresses,
        snapshot_unique_id,
        delete_attached_drives,
        snapshots: seq![],
        volume_ids: seq![],
        current: None,
        new_volume_id: None,
    }
}

/// The state holds the volume being restored while one is, and the id of its
/// new volume once it has one.
pub open spec fn restore_wf(s: RestoreRunView) -> bool {
    &&& (s.phase == RestorePhase::CreatingVolume || s.phase == RestorePhase::CheckingVolume
        || s.phase == RestorePhase::WaitingVolume || s.phase == RestorePhase::Attaching)
        ==> s.current is Some
    &&& (s.phase == RestorePhase::CheckingVolume || s.phase == RestorePhase::WaitingVolume
        || s.phase == RestorePhase::Attaching) ==> s.new_volume_id is Some
}

/// The list in an answer; none when the answer holds no list.
pub open spec fn or_empty<A>(o: Option<Seq<A>>) -> Seq<A> {
    match o {
        Some(s) => s,
        None => seq![],
    }
}

/// The volumes that the nodes of the answer have attached.
pub open spec fn attached_volume_ids(reservations: Seq<ReservationView>) -> Seq<Seq<char>> {
    mapping_volume_ids(instance_mappings(reservation_instances(reservations)))
}

/// Whether the restore can take `e` in its state: `e` is what the last
/// action brings back, and it holds what the next step reads.
pub open spec fn restore_accepts(s: RestoreRunView, e: RestoreEventView) -> bool {
    match s.phase {
        RestorePhase::Start | RestorePhase::Detaching | RestorePhase::WaitingDetached
        | RestorePhase::ReportingDetached | RestorePhase::Deleting | RestorePhase::ReportingDeleted
        | RestorePhase::WaitingVolume => e is Done,
        RestorePhase::StartingProgress | RestorePhase::Attaching => e is Done && (s.snapshots.len() > 0
            ==> restorable(s.snapshots[0])),
        RestorePhase::DescribingSnapshots => e is SnapshotsDescribed,
        RestorePhase::DescribingInstances => e matches RestoreEventView::InstancesDescribed(o) && o is Some
            && reservations_list_instances(o->0) && instances_list_mappings(o->0),
        RestorePhase::CheckingDetached => e matches RestoreEventView::VolumeStatuses(o) && statuses_readable(
            or_empty(o),
            "ok"@,
        ),
        RestorePhase::CreatingVolume => e matches RestoreEventView::VolumeCreated(o) && o is Some,
        RestorePhase::CheckingVolume => e matches RestoreEventView::Volumes(o) && (all_in_state(
            or_empty(o),
            "available"@,
        ) ==> attachable(s.current->0)),
        RestorePhase::Finished | RestorePhase::Failed => false,
    }
}

/// The next volume snapshot to restore, or the end of the restore.
pub open spec fn next_volume(s: RestoreRunView) -> (RestoreRunView, RestoreActionView) {
    if s.snapshots.len() == 0 {
        (
            RestoreRunView { phase: RestorePhase::Finished, ..s },
            RestoreActionView::Finish(constants::CLUSTER_RESTORE_SUCCESS@),
        )
    } else {
        (
            RestoreRunView {
                phase: RestorePhase::CreatingVolume,
                snapshots: s.snapshots.drop_first(),
                current: Some(volume_restore_view(s.snapshots[0])),
                new_volume_id: None,
                ..s
            },
            RestoreActionView::CreateVolume(restore_volume_request_view(s.snapshots[0])),
        )
    }
}

/// One step of the restore: the state it is in next and the action to
/// perform, given what the last action brought back.
pub open spec fn restore_next(s: RestoreRunView, e: RestoreEventView) -> (RestoreRunView, RestoreActionView) {
    match s.phase {
        RestorePhase::Start => (
            RestoreRunView { phase: RestorePhase::DescribingSnapshots, ..s },
            RestoreActionView::DescribeSnapshots(restore_snapshot_filters_view(s.snapshot_unique_id)),
        ),
        RestorePhase::DescribingSnapshots => (
            RestoreRunView {
                phase: RestorePhase::DescribingInstances,
                snapshots: match e {
                    RestoreEventView::SnapshotsDescribed(o) => or_empty(o),
                    _ => seq![],
                },
                ..s
            },
            RestoreActionView::DescribeInstances(private_ip_filters_view(s.ip_addresses)),
        ),
        RestorePhase::DescribingInstances => {
            let reservations = match e {
                RestoreEventView::InstancesDescribed(o) => or_empty(o),
                _ => seq![],
            };
            if reservations.len() == 0 {
                (
                    RestoreRunView { phase: RestorePhase::Failed, ..s },
                    RestoreActionView::Fail(constants::EC2_INSTANCES_NOT_FOUND@),
                )
            } else {
                let volume_ids = attached_volume_ids(reservations);
                (
                    RestoreRunView { phase: RestorePhase::Detaching, volume_ids, ..s },
                    RestoreActionView::DetachVolumes(detach_requests_view(volume_ids)),
                )
            }
        },
        RestorePhase::Detaching | RestorePhase::WaitingDetached => (
            RestoreRunView { phase: RestorePhase::CheckingDetached, ..s },
            RestoreActionView::DescribeVolumeStatuses(s.volume_ids),
        ),
        RestorePhase::CheckingDetached => {
            let statuses = match e {
                RestoreEventView::VolumeStatuses(o) => or_empty(o),
                _ => seq![],
            };
            if all_have_status(statuses, "ok"@) {
                (
                    RestoreRunView { phase: RestorePhase::ReportingDetached, ..s },
                    RestoreActionView::Report(constants::VOLUMES_DETATCHED_MESSAGE@),
                )
            } else {
                (RestoreRunView { phase: RestorePhase::WaitingDetached, ..s }, RestoreActionView::Wait(1))
            }
        },
        RestorePhase::ReportingDetached => if s.delete_attached_drives {
            (
                RestoreRunView { phase: RestorePhase::Deleting, ..s },
                RestoreActionView::DeleteVolumes(delete_requests_view(s.volume_ids)),
            )
        } else {
            (
                RestoreRunView { phase: RestorePhase::StartingProgress, ..s },
                RestoreActionView::StartProgress(constants::WAITING_FOR_VOLUMES_MESSAGE@),
            )
        },
        RestorePhase::Deleting => (
            RestoreRunView { phase: RestorePhase::ReportingDeleted, ..s },
            RestoreActionView::Report(constants::VOLUMES_DELETED_MESSAGE@),
        ),
        RestorePhase::ReportingDeleted => (
            RestoreRunView { phase: RestorePhase::StartingProgress, ..s },
            RestoreActionView::StartProgress(constants::WAITING_FOR_VOLUMES_MESSAGE@),
        ),
        RestorePhase::StartingProgress | RestorePhase::Attaching => next_volume(s),
        RestorePhase::CreatingVolume => {
            let id = match e {
                RestoreEventView::VolumeCreated(o) => o->0,
                _ => seq![],
            };
            (
                RestoreRunView { phase: RestorePhase::CheckingVolume, new_volume_id: Some(id), ..s },
                RestoreActionView::DescribeVolumes(seq![id]),
            )
        },
        RestorePhase::CheckingVolume => {
            let volumes = match e {
                RestoreEventView::Volumes(o) => or_empty(o),
                _ => seq![],
            };
            if all_in_state(volumes, "available"@) {
                (
                    RestoreRunView { phase: RestorePhase::Attaching, ..s },
                    RestoreActionView::AttachVolume(
                        attach_request_view(s.current->0, s.new_volume_id->0),
                    ),
                )
            } else {
                (RestoreRunView { phase: RestorePhase::WaitingVolume, ..s }, RestoreActionView::Wait(1))
            }
        },
        RestorePhase::WaitingVolume => (
            RestoreRunView { phase: RestorePhase::CheckingVolume, ..s },
            RestoreActionView::DescribeVolumes(seq![s.new_volume_id->0]),
        ),
        RestorePhase::Finished | RestorePhase::Failed => (s, RestoreActionView::Wait(0)),
    }
}

impl RestoreRun {
    /// A restore of the cluster whose nodes have the given private addresses,
    /// from the cluster snapshot `snapshot_unique_id`; the volumes now
    /// attached are deleted once detached if `delete_attached_drives` is set.
    pub fn new(ip_addresses: Vec<String>, snapshot_unique_id: String, delete_attached_drives: bool) -> (r:
        RestoreRun)
        ensures
            r@ == restore_start(ip_addresses.deep_view(), snapshot_unique_id@, delete_attached_drives),
            restore_wf(r@),
    {
        let r = RestoreRun {
            phase: RestorePhase::Start,
            ip_addresses,
            snapshot_unique_id,
            delete_attached_drives,
            snapshots: Vec::new(),
            volume_ids: Vec::new(),
            current: None,
            new_volume_id: None,
        };
        assert(r@.snapshots =~= Seq::<SnapshotView>::empty());
        assert(r@.volume_ids =~= Seq::<Seq<char>>::empty());
        r
    }

    /// The last action that the restore asked for.
    pub fn phase(&self) -> (p: RestorePhase)
        ensures
            p == self@.phase,
    {
        self.phase
    }

    /// Whether the restore has ended, done or failed.
    pub fn is_over(&self) -> (r: bool)
        ensures
            r == (self@.phase == RestorePhase::Finished || self@.phase == RestorePhase::Failed),
    {
        self.phase == RestorePhase::Finished || self.phase == RestorePhase::Failed
    }

    /// Whether the restore can take `event` now.
    pub fn accepts(&self, event: &RestoreEvent) -> (r: bool)
        requires
            restore_wf(self@),
        ensures
            r == restore_accepts(self@, event@),
    {
        match self.phase {
            RestorePhase::Start | RestorePhase::Detaching | RestorePhase::WaitingDetached
            | RestorePhase::ReportingDetached | RestorePhase::Deleting | RestorePhase::ReportingDeleted
            | RestorePhase::WaitingVolume => match event {
                RestoreEvent::Done => true,
                _ => false,
            },
            RestorePhase::StartingProgress | RestorePhase::Attaching => match event {
                RestoreEvent::Done => self.snapshots.len() == 0 || snapshot_is_restorable(&self.snapshots[0]),
                _ => false,
            },
            RestorePhase::DescribingSnapshots => match event {
                RestoreEvent::SnapshotsDescribed(_) => true,
                _ => false,
            },
            RestorePhase::DescribingInstances => match event {
                RestoreEvent::InstancesDescribed(o) => reservations_are_complete(o),
                _ => false,
            },
            RestorePhase::CheckingDetached => match event {
                RestoreEvent::VolumeStatuses(o) => match o {
                    Some(items) => statuses_are_readable(items, "ok"),
                    None => {
                        assert(or_empty(event@->VolumeStatuses_0) =~= Seq::<VolumeStatusItemView>::empty());
                        true
                    },
                },
                _ => false,
            },
            RestorePhase::CreatingVolume => match event {
                RestoreEvent::VolumeCreated(o) => o.is_some(),
                _ => false,
            },
            RestorePhase::CheckingVolume => match event {
                RestoreEvent::Volumes(o) => {
                    let available = match o {
                        Some(volumes) => all_volumes_in_state(volumes, "available"),
                        None => true,
                    };
                    let attachable_now = match &self.current {
                        Some(c) => c.is_attachable(),
                        None => false,
                    };
                    !available || attachable_now
                },
                _ => false,
            },
            RestorePhase::Finished | RestorePhase::Failed => false,
        }
    }

    /// Takes what the last action brought back, moves to the next state and
    /// returns the next action.
    pub fn step(&mut self, event: RestoreEvent) -> (action: RestoreAction)
        requires
            restore_wf(old(self)@),
            restore_accepts(old(self)@, event@),
        ensures
            restore_wf(final(self)@),
            (final(self)@, action@) == restore_next(old(self)@, event@),
    {
        match self.phase {
            RestorePhase::Start => {
                self.phase = RestorePhase::DescribingSnapshots;
                RestoreAction::DescribeSnapshots(restore_snapshot_filters(self.snapshot_unique_id.as_str()))
            },
            RestorePhase::DescribingSnapshots => {
                if let RestoreEvent::SnapshotsDescribed(o) = event {
                    self.snapshots = match o {
                        Some(ss) => ss,
                        None => Vec::new(),
                    };
                }
                assert(self.snapshots.deep_view() =~= or_empty(event@->SnapshotsDescribed_0));
                self.phase = RestorePhase::DescribingInstances;
                RestoreAction::DescribeInstances(private_ip_filters(&self.ip_addresses))
            },
            RestorePhase::DescribingInstances => {
                let reservations = match event {
                    RestoreEvent::InstancesDescribed(o) => o,
                    _ => None,
                };
                match get_ebs_volume_mappings(reservations) {
                    Err(e) => {
                        self.phase = RestorePhase::Failed;
                        RestoreAction::Fail(e)
                    },
                    Ok(mappings) => {
                        self.volume_ids = volume_ids_of_mappings(mappings);
                        self.phase = RestorePhase::Detaching;
                        RestoreAction::DetachVolumes(detach_volume_requests(&self.volume_ids))
                    },
                }
            },
            RestorePhase::Detaching | RestorePhase::WaitingDetached => {
                self.phase = RestorePhase::CheckingDetached;
                RestoreAction::DescribeVolumeStatuses(self.volume_ids.clone())
            },
            RestorePhase::CheckingDetached => {
                let statuses = match event {
                    RestoreEvent::VolumeStatuses(Some(items)) => items,
                    _ => Vec::new(),
                };
                assert(statuses.deep_view() =~= or_empty(event@->VolumeStatuses_0));
                if check_all_volumes_for_status(statuses, "ok") {
                    self.phase = RestorePhase::ReportingDetached;
                    RestoreAction::Report(constants::VOLUMES_DETATCHED_MESSAGE.to_owned())
                } else {
                    self.phase = RestorePhase::WaitingDetached;
                    RestoreAction::Wait(1)
                }
            },
            RestorePhase::ReportingDetached => {
                if self.delete_attached_drives {
                    self.phase = RestorePhase::Deleting;
                    RestoreAction::DeleteVolumes(delete_volume_requests(&self.volume_ids))
                } else {
                    self.phase = RestorePhase::StartingProgress;
                    RestoreAction::StartProgress(constants::WAITING_FOR_VOLUMES_MESSAGE.to_owned())
                }
            },
            RestorePhase::Deleting => {
                self.phase = RestorePhase::ReportingDeleted;
                RestoreAction::Report(constants::VOLUMES_DELETED_MESSAGE.to_owned())
            },
            RestorePhase::ReportingDeleted => {
                self.phase = RestorePhase::StartingProgress;
                RestoreAction::StartProgress(constants::WAITING_FOR_VOLUMES_MESSAGE.to_owned())
            },
            RestorePhase::StartingProgress | RestorePhase::Attaching => {
                if self.snapshots.len() == 0 {
                    self.phase = RestorePhase::Finished;
                    RestoreAction::Finish(constants::CLUSTER_RESTORE_SUCCESS.to_owned())
                } else {
                    let ghost before = self.snapshots.deep_view();
                    let snapshot = self.snapshots.remove(0);
                    assert(self.snapshots.deep_view() =~= before.drop_first());
                    let plan = plan_volume_restore(snapshot);
                    let request = plan.create_volume_request.duplicate();
                    self.current = Some(plan);
                    self.new_volume_id = None;
                    self.phase = RestorePhase::CreatingVolume;
                    RestoreAction::CreateVolume(request)
                }
            },
            RestorePhase::CreatingVolume => {
                let id = match event {
                    RestoreEvent::VolumeCreated(Some(id)) => id,
                    _ => String::new(),
                };
                let ids = vec![id.clone()];
                assert(ids.deep_view() =~= seq![id@]);
                self.new_volume_id = Some(id);
                self.phase = RestorePhase::CheckingVolume;
                RestoreAction::DescribeVolumes(ids)
            },
            RestorePhase::CheckingVolume => {
                let volumes = match event {
                    RestoreEvent::Volumes(Some(vs)) => vs,
                    _ => Vec::new(),
                };
                assert(volumes.deep_view() =~= or_empty(event@->Volumes_0));
                if all_volumes_in_state(&volumes, "available") {
                    let id = match &self.new_volume_id {
                        Some(id) => id.clone(),
                        None => String::new(),
                    };
                    let request = match &self.current {
                        Some(c) => c.attach_volume_request(id),
                        None => AttachVolumeRequest {
                            device: String::new(),
                            instance_id: String::new(),
                            volume_id: String::new(),
                        },
                    };
                    self.phase = RestorePhase::Attaching;
                    RestoreAction::AttachVolume(request)
                } else {
                    self.phase = RestorePhase::WaitingVolume;
                    RestoreAction::Wait(1)
                }
            },
            RestorePhase::WaitingVolume => {
                let id = match &self.new_volume_id {
                    Some(id) => id.clone(),
                    None => String::new(),
                };
                let ids = vec![id];
                assert(ids.deep_view() =~= seq![self.new_volume_id->0@]);
                self.phase = RestorePhase::CheckingVolume;
                RestoreAction::DescribeVolumes(ids)
            },
            RestorePhase::Finished | RestorePhase::Failed => RestoreAction::Wait(0),
        }
    }
}

/// The old volumes are deleted only when the user asked for it, right after
/// the report that they are detached, and that report comes only from a
/// status check in which every volume was "ok". The volumes deleted are the
/// volumes that were detached.
pub proof fn lemma_delete_only_when_asked_and_detached(s: RestoreRunView, e: RestoreEventView)
    requires
        restore_accepts(s, e),
    ensures
        restore_next(s, e).1 is DeleteVolumes ==> s.phase == RestorePhase::ReportingDetached
            && s.delete_attached_drives && restore_next(s, e).1 == RestoreActionView::DeleteVolumes(
            delete_requests_view(s.volume_ids),
        ),
        restore_next(s, e).0.phase == RestorePhase::ReportingDetached ==> s.phase
            == RestorePhase::CheckingDetached && e is VolumeStatuses
            && all_have_status(or_empty(e->VolumeStatuses_0), "ok"@),
        s.phase != RestorePhase::DescribingInstances ==> restore_next(s, e).0.volume_ids == s.volume_ids,
{
}

/// A restored volume is attached only once a check found it "available", to
/// the instance and under the device that its snapshot's tags give.
pub proof fn lemma_attach_only_when_available(s: RestoreRunView, e: RestoreEventView)
    requires
        restore_accepts(s, e),
    ensures
        restore_next(s, e).1 is AttachVolume ==> s.phase == RestorePhase::CheckingVolume
            && e is Volumes && all_in_state(or_empty(e->Volumes_0), "available"@)
            && attachable(s.current->0) && restore_next(s, e).1 == RestoreActionView::AttachVolume(
            attach_request_view(s.current->0, s.new_volume_id->0),
        ),
{
}

/// The volume snapshots are restored one after another, in the order in which
/// they were described, and the restore finishes only when none is left.
pub proof fn lemma_snapshots_restored_in_order(s: RestoreRunView, e: RestoreEventView)
    requires
        restore_accepts(s, e),
    ensures
        restore_next(s, e).1 is CreateVolume ==> s.snapshots.len() > 0 && restore_next(s, e).1
            == RestoreActionView::CreateVolume(restore_volume_request_view(s.snapshots[0]))
            && restore_next(s, e).0.snapshots == s.snapshots.drop_first() && restore_next(s, e).0.current
            == Some(volume_restore_view(s.snapshots[0])),
        !(restore_next(s, e).1 is CreateVolume) && s.phase != RestorePhase::DescribingSnapshots
            ==> restore_next(s, e).0.snapshots == s.snapshots,
        restore_next(s, e).1 is Finish ==> s.snapshots.len() == 0,
{
}

/// Every look at the detach of the old volumes is at all of them: each status
/// description, the first one and each one after a wait, asks for the status
/// of exactly the volumes that were detached, which are the volumes that the
/// nodes had attached, so the restore goes on only once all of them are
/// "ok". The detach itself is one forced detach per such volume, in order.
pub proof fn lemma_status_looks_cover_every_detached_volume(s: RestoreRunView, e: RestoreEventView)
    requires
        restore_accepts(s, e),
    ensures
        restore_next(s, e).1 is DescribeVolumeStatuses ==> (s.phase == RestorePhase::Detaching || s.phase
            == RestorePhase::WaitingDetached) && restore_next(s, e).1 == RestoreActionView::DescribeVolumeStatuses(
            s.volume_ids,
        ) && restore_next(s, e).0.volume_ids == s.volume_ids,
        restore_next(s, e).1 is DetachVolumes ==> {
            let requests = restore_next(s, e).1->DetachVolumes_0;
            let volume_ids = restore_next(s, e).0.volume_ids;
            &&& s.phase == RestorePhase::DescribingInstances
            &&& volume_ids == attached_volume_ids(or_empty(e->InstancesDescribed_0))
            &&& requests.len() == volume_ids.len()
            &&& forall|k: int|
                0 <= k < requests.len() ==> (#[trigger] requests[k]).volume_id == volume_ids[k]
                    && requests[k].force == Some(true)
        },
{
}

/// Every look at a restored volume is at that new volume alone, the id that
/// EC2 gave when it created it: the first look and each look after a wait.
/// The id is kept until the volume is attached, and the attach is of that
/// volume, so a volume is attached only after a look at it found it
/// "available".
pub proof fn lemma_volume_looks_at_the_new_volume(s: RestoreRunView, e: RestoreEventView)
    requires
        restore_wf(s),
        restore_accepts(s, e),
    ensures
        restore_next(s, e).1 is DescribeVolumes ==> restore_next(s, e).0.new_volume_id is Some
            && restore_next(s, e).1 == RestoreActionView::DescribeVolumes(
            seq![restore_next(s, e).0.new_volume_id->0],
        ),
        s.phase == RestorePhase::CreatingVolume ==> restore_next(s, e).0.new_volume_id == e->VolumeCreated_0,
        s.phase == RestorePhase::CheckingVolume || s.phase == RestorePhase::WaitingVolume
            ==> restore_next(s, e).0.new_volume_id == s.new_volume_id,
        restore_next(s, e).1 is AttachVolume ==> s.phase == RestorePhase::CheckingVolume
            && all_in_state(or_empty(e->Volumes_0), "available"@)
            && restore_next(s, e).1->AttachVolume_0.volume_id == s.new_volume_id->0,
{
}

/// The volumes that a restore detaches (and deletes, if asked) include every
/// EBS volume of every node found, whatever the device it is on: each mapping
/// of each instance of each reservation that names a volume gives its id.
pub proof fn lemma_every_attached_volume_is_detached(rs: Seq<ReservationView>)
    requires
        reservations_list_instances(rs),
        instances_list_mappings(rs),
    ensures
        forall|i: int, j: int, k: int|
            0 <= i < rs.len() && 0 <= j < rs[i].instances->0.len() && 0 <= k
                < rs[i].instances->0[j].block_device_mappings->0.len() && names_volume(
                #[trigger] rs[i].instances->0[j].block_device_mappings->0[k],
            ) ==> attached_volume_ids(rs).contains(
                rs[i].instances->0[j].block_device_mappings->0[k].ebs->0.volume_id->0,
            ),
{
    let is = reservation_instances(rs);
    let ms = instance_mappings(is);
    lemma_reservation_instances_keep_every_instance(rs);
    lemma_instance_mappings_keep_every_mapping(is);
    let positions = lemma_mapping_volume_ids_are_every_volume(ms);
    let ids = mapping_volume_ids(ms);
    assert forall|i: int, j: int, k: int|
        0 <= i < rs.len() && 0 <= j < rs[i].instances->0.len() && 0 <= k
            < rs[i].instances->0[j].block_device_mappings->0.len() && names_volume(
            #[trigger] rs[i].instances->0[j].block_device_mappings->0[k],
        ) implies ids.contains(rs[i].instances->0[j].block_device_mappings->0[k].ebs->0.volume_id->0) by {
        let inst = rs[i].instances->0[j];
        let m = inst.block_device_mappings->0[k];
        assert(rs[i].instances is Some);
        assert(inst.block_device_mappings is Some);
        assert(is.contains(inst));
        let a = choose|a: int| 0 <= a < is.len() && is[a] == inst;
        assert(is[a].block_device_mappings->0[k] == m);
        assert(ms.contains(m));
        let b = choose|b: int| 0 <= b < ms.len() && ms[b] == m;
        assert(names_volume(ms[b]));
        assert(positions.contains(b));
        let q = choose|q: int| 0 <= q < positions.len() && positions[q] == b;
        assert(ids[q] == m.ebs->0.volume_id->0);
    }
}

/// A restore looks up every node of the cluster: the instance description
/// asks for the instances whose private IP address is any of the addresses
/// the restore was given, all of them, and no step changes those addresses.
pub proof fn lemma_restore_looks_up_every_node(s: RestoreRunView, e: RestoreEventView)
    ensures
        restore_next(s, e).1 is DescribeInstances ==> restore_next(s, e).1
            == RestoreActionView::DescribeInstances(
            seq![FilterView { name: Some("private-ip-address"@), values: Some(s.ip_addresses) }],
        ),
        restore_next(s, e).0.ip_addresses == s.ip_addresses,
{
}

/// A restore fails only when no instance has the given addresses, and then
/// it has not touched any volume.
pub proof fn lemma_fail_only_without_instances(s: RestoreRunView, e: RestoreEventView)
    requires
        restore_accepts(s, e),
    ensures
        restore_next(s, e).1 is Fail ==> s.phase == RestorePhase::DescribingInstances
            && e is InstancesDescribed && e->InstancesDescribed_0->0.len() == 0
            && restore_next(s, e).1 == RestoreActionView::Fail(constants::EC2_INSTANCES_NOT_FOUND@),
{
}

/// The restore run over a sequence of events: the state it ends in and the
/// actions it asked for, in order.
pub open spec fn run_restore(s: RestoreRunView, es: Seq<RestoreEventView>) -> (RestoreRunView, Seq<RestoreActionView>)
    decreases es.len(),
{
    if es.len() == 0 {
        (s, seq![])
    } else {
        let rest = run_restore(restore_next(s, es[0]).0, es.drop_first());
        (rest.0, seq![restore_next(s, es[0]).1] + rest.1)
    }
}

/// The restore can take each of the events in turn.
pub open spec fn restore_takes(s: RestoreRunView, es: Seq<RestoreEventView>) -> bool
    decreases es.len(),
{
    es.len() == 0 || (restore_wf(s) && restore_accepts(s, es[0]) && restore_takes(
        restore_next(s, es[0]).0,
        es.drop_first(),
    ))
}

/// Running the restore over two sequences of events, one after the other.
pub proof fn lemma_run_restore_append(s: RestoreRunView, a: Seq<RestoreEventView>, b: Seq<RestoreEventView>)
    ensures
        run_restore(s, a + b) == (
            run_restore(run_restore(s, a).0, b).0,
            run_restore(s, a).1 + run_restore(run_restore(s, a).0, b).1,
        ),
        restore_takes(s, a + b) == (restore_takes(s, a) && restore_takes(run_restore(s, a).0, b)),
    decreases a.len(),
{
    if a.len() == 0 {
        assert(a + b =~= b);
        assert(run_restore(s, a).1 + run_restore(s, b).1 =~= run_restore(s, b).1);
    } else {
        let t = restore_next(s, a[0]).0;
        assert((a + b)[0] == a[0]);
        assert((a + b).drop_first() =~= a.drop_first() + b);
        lemma_run_restore_append(t, a.drop_first(), b);
        let mid = run_restore(t, a.drop_first());
        assert(seq![restore_next(s, a[0]).1] + (mid.1 + run_restore(mid.0, b).1) =~= (seq![
            restore_next(s, a[0]).1,
        ] + mid.1) + run_restore(mid.0, b).1);
    }
}

/// A step of the restore keeps its state well formed.
pub proof fn lemma_restore_next_keeps_wf(s: RestoreRunView, e: RestoreEventView)
    requires
        restore_wf(s),
        restore_accepts(s, e),
    ensures
        restore_wf(restore_next(s, e).0),
{
}

/// A volume that EC2 reports as available.
pub open spec fn available_volume() -> VolumeView {
    VolumeView { state: Some("available"@), volume_type: None }
}

/// What EC2 answers while the volumes are restored, when every call goes
/// through at once: each new volume is created with the next id of `new_ids`
/// and is available at the first look.
pub open spec fn volume_events(new_ids: Seq<Seq<char>>) -> Seq<RestoreEventView>
    decreases new_ids.len(),
{
    if new_ids.len() == 0 {
        seq![RestoreEventView::Done]
    } else {
        seq![
            RestoreEventView::Done,
            RestoreEventView::VolumeCreated(Some(new_ids[0])),
            RestoreEventView::Volumes(Some(seq![available_volume()])),
        ] + volume_events(new_ids.drop_first())
    }
}

/// The actions of the restore of the volume snapshots, given the ids of the new
/// volumes: for each snapshot in turn, one volume created from it, a look at
/// the new volume, and one attach where its tags say; then the end.
pub open spec fn volume_actions(snapshots: Seq<SnapshotView>, new_ids: Seq<Seq<char>>) -> Seq<RestoreActionView>
    decreases snapshots.len(),
{
    if snapshots.len() == 0 {
        seq![RestoreActionView::Finish(constants::CLUSTER_RESTORE_SUCCESS@)]
    } else {
        seq![
            RestoreActionView::CreateVolume(restore_volume_request_view(snapshots[0])),
            RestoreActionView::DescribeVolumes(seq![new_ids[0]]),
            RestoreActionView::AttachVolume(attach_request_view(volume_restore_view(snapshots[0]), new_ids[0])),
        ] + volume_actions(snapshots.drop_first(), new_ids.drop_first())
    }
}

/// Every snapshot can be restored and its restore knows where to attach.
pub open spec fn all_restorable(snapshots: Seq<SnapshotView>) -> bool {
    forall|k: int|
        0 <= k < snapshots.len() ==> restorable(#[trigger] snapshots[k]) && attachable(
            volume_restore_view(snapshots[k]),
        )
}

/// Once the old volumes are dealt with, the restore creates and attaches one
/// volume per volume snapshot, in order, and then finishes.
pub proof fn lemma_restore_volumes(s: RestoreRunView, new_ids: Seq<Seq<char>>)
    requires
        s.phase == RestorePhase::StartingProgress || s.phase == RestorePhase::Attaching,
        restore_wf(s),
        all_restorable(s.snapshots),
        new_ids.len() == s.snapshots.len(),
    ensures
        restore_takes(s, volume_events(new_ids)),
        run_restore(s, volume_events(new_ids)).1 == volume_actions(s.snapshots, new_ids),
        run_restore(s, volume_events(new_ids)).0.phase == RestorePhase::Finished,
    decreases new_ids.len(),
{
    let es = volume_events(new_ids);
    if new_ids.len() == 0 {
        assert(es == seq![RestoreEventView::Done]);
        assert(es.drop_first() =~= Seq::<RestoreEventView>::empty());
        reveal_with_fuel(run_restore, 2);
        reveal_with_fuel(restore_takes, 2);
        assert(run_restore(s, es).1 =~= volume_actions(s.snapshots, new_ids));
    } else {
        let e0 = RestoreEventView::Done;
        let e1 = RestoreEventView::VolumeCreated(Some(new_ids[0]));
        let e2 = RestoreEventView::Volumes(Some(seq![available_volume()]));
        let head = seq![e0, e1, e2];
        let tail = volume_events(new_ids.drop_first());
        assert(es == head + tail);
        assert(restorable(s.snapshots[0]) && attachable(volume_restore_view(s.snapshots[0])));
        let s1 = restore_next(s, e0).0;
        let s2 = restore_next(s1, e1).0;
        let s3 = restore_next(s2, e2).0;
        assert(all_in_state(seq![available_volume()], "available"@));
        assert(s3.phase == RestorePhase::Attaching);
        assert(s3.snapshots == s.snapshots.drop_first());
        assert forall|k: int| 0 <= k < s3.snapshots.len() implies restorable(#[trigger] s3.snapshots[k])
            && attachable(volume_restore_view(s3.snapshots[k])) by {
            assert(s3.snapshots[k] == s.snapshots[k + 1]);
        }
        lemma_restore_volumes(s3, new_ids.drop_first());
        assert(head.drop_first() =~= seq![e1, e2]);
        assert(head.drop_first().drop_first() =~= seq![e2]);
        assert(head.drop_first().drop_first().drop_first() =~= Seq::<RestoreEventView>::empty());
        reveal_with_fuel(run_restore, 4);
        reveal_with_fuel(restore_takes, 4);
        assert(run_restore(s, head).0 == s3);
        assert(restore_takes(s, head));
        lemma_run_restore_append(s, head, tail);
        assert(run_restore(s, head).1 =~= seq![
            RestoreActionView::CreateVolume(restore_volume_request_view(s.snapshots[0])),
            RestoreActionView::DescribeVolumes(seq![new_ids[0]]),
            RestoreActionView::AttachVolume(attach_request_view(volume_restore_view(s.snapshots[0]), new_ids[0])),
        ]);
    }
}

/// What EC2 answers until the old volumes are dealt with, when every call goes
/// through: the volume snapshots, the nodes, the statuses of the detached
/// volumes at the first look, and acknowledgements.
pub open spec fn detach_events(
    snapshots: Seq<SnapshotView>,
    reservations: Seq<ReservationView>,
    statuses: Seq<VolumeStatusItemView>,
    delete_attached_drives: bool,
) -> Seq<RestoreEventView> {
    seq![
        RestoreEventView::Done,
        RestoreEventView::SnapshotsDescribed(Some(snapshots)),
        RestoreEventView::InstancesDescribed(Some(reservations)),
        RestoreEventView::Done,
        RestoreEventView::VolumeStatuses(Some(statuses)),
        RestoreEventView::Done,
    ] + if delete_attached_drives {
        seq![RestoreEventView::Done, RestoreEventView::Done]
    } else {
        seq![]
    }
}

/// The actions of a restore until the old volumes are dealt with: find the
/// volume snapshots and the nodes, detach the nodes' volumes, look at their
/// status, report them detached, delete them if asked, and show progress.
pub open spec fn detach_actions(
    ip_addresses: Seq<Seq<char>>,
    snapshot_unique_id: Seq<char>,
    volume_ids: Seq<Seq<char>>,
    delete_attached_drives: bool,
) -> Seq<RestoreActionView> {
    seq![
        RestoreActionView::DescribeSnapshots(restore_snapshot_filters_view(snapshot_unique_id)),
        RestoreActionView::DescribeInstances(private_ip_filters_view(ip_addresses)),
        RestoreActionView::DetachVolumes(detach_requests_view(volume_ids)),
        RestoreActionView::DescribeVolumeStatuses(volume_ids),
        RestoreActionView::Report(constants::VOLUMES_DETATCHED_MESSAGE@),
    ] + if delete_attached_drives {
        seq![
            RestoreActionView::DeleteVolumes(delete_requests_view(volume_ids)),
            RestoreActionView::Report(constants::VOLUMES_DELETED_MESSAGE@),
            RestoreActionView::StartProgress(constants::WAITING_FOR_VOLUMES_MESSAGE@),
        ]
    } else {
        seq![RestoreActionView::StartProgress(constants::WAITING_FOR_VOLUMES_MESSAGE@)]
    }
}

/// A whole restore in which every EC2 call goes through: it takes every
/// answer, asks for exactly the actions of `detach_actions` and then, for each
/// volume snapshot in turn, creates one volume from it and attaches it where
/// the snapshot's tags say, and ends by reporting the cluster restored.
pub proof fn lemma_restore_from_start(
    ip_addresses: Seq<Seq<char>>,
    snapshot_unique_id: Seq<char>,
    delete_attached_drives: bool,
    snapshots: Seq<SnapshotView>,
    reservations: Seq<ReservationView>,
    statuses: Seq<VolumeStatusItemView>,
    new_ids: Seq<Seq<char>>,
)
    requires
        reservations.len() > 0,
        reservations_list_instances(reservations),
        instances_list_mappings(reservations),
        all_have_status(statuses, "ok"@),
        all_restorable(snapshots),
        new_ids.len() == snapshots.len(),
    ensures
        ({
            let start = restore_start(ip_addresses, snapshot_unique_id, delete_attached_drives);
            let events = detach_events(snapshots, reservations, statuses, delete_attached_drives)
                + volume_events(new_ids);
            &&& restore_takes(start, events)
            &&& run_restore(start, events).1 == detach_actions(
                ip_addresses,
                snapshot_unique_id,
                attached_volume_ids(reservations),
                delete_attached_drives,
            ) + volume_actions(snapshots, new_ids)
            &&& run_restore(start, events).0.phase == RestorePhase::Finished
        }),
{
    let start = restore_start(ip_addresses, snapshot_unique_id, delete_attached_drives);
    let pre = detach_events(snapshots, reservations, statuses, delete_attached_drives);
    let ids = attached_volume_ids(reservations);
    assert(statuses_readable(statuses, "ok"@));
    // Walk the fixed prefix one event at a time.
    let s1 = restore_next(start, pre[0]).0;
    let s2 = restore_next(s1, pre[1]).0;
    let s3 = restore_next(s2, pre[2]).0;
    let s4 = restore_next(s3, pre[3]).0;
    let s5 = restore_next(s4, pre[4]).0;
    let s6 = restore_next(s5, pre[5]).0;
    assert(s2.snapshots == snapshots);
    assert(s3.volume_ids == ids);
    assert(s5.phase == RestorePhase::ReportingDetached);
    let end = if delete_attached_drives {
        let s7 = restore_next(s6, pre[6]).0;
        restore_next(s7, pre[7]).0
    } else {
        s6
    };
    assert(end.phase == RestorePhase::StartingProgress);
    assert(end.snapshots == snapshots);
    assert(restore_wf(end));
    if delete_attached_drives {
        assert(pre.len() == 8);
        assert(pre.drop_first().len() == 7);
    }
    reveal_with_fuel(run_restore, 9);
    reveal_with_fuel(restore_takes, 9);
    assert(pre.drop_first() =~= pre.subrange(1, pre.len() as int));
    assert(pre.subrange(1, pre.len() as int).drop_first() =~= pre.subrange(2, pre.len() as int));
    assert(pre.subrange(2, pre.len() as int).drop_first() =~= pre.subrange(3, pre.len() as int));
    assert(pre.subrange(3, pre.len() as int).drop_first() =~= pre.subrange(4, pre.len() as int));
    assert(pre.subrange(4, pre.len() as int).drop_first() =~= pre.subrange(5, pre.len() as int));
    assert(pre.subrange(5, pre.len() as int).drop_first() =~= pre.subrange(6, pre.len() as int));
    if delete_attached_drives {
        assert(pre.subrange(6, 8).drop_first() =~= pre.subrange(7, 8));
        assert(pre.subrange(7, 8).drop_first() =~= Seq::<RestoreEventView>::empty());
    } else {
        assert(pre.subrange(6, pre.len() as int) =~= Seq::<RestoreEventView>::empty());
    }
    assert(run_restore(start, pre).0 == end);
    assert(restore_takes(start, pre));
    assert(run_restore(start, pre).1 =~= detach_actions(ip_addresses, snapshot_unique_id, ids, delete_attached_drives));
    lemma_restore_volumes(end, new_ids);
    lemma_run_restore_append(start, pre, volume_events(new_ids));
}

} // verus!
