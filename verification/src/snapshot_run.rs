//! The course of a cluster snapshot, as a machine that the program drives:
//! it hands the machine what the last action brought back, and the machine
//! answers with the state it is in next and the action to perform.
//!
//! The order is: find the nodes by their addresses, then for each node and
//! each of its block devices look up the volume's type and snapshot the
//! volume, and report each node once all its volumes are snapshotted.

use vstd::prelude::*;

use crate::aws::{
    private_ip_filters, private_ip_filters_view, reservation_instances, reservations_list_instances,
    get_instances_by_ip_address, volume_id_filters, get_volume_type,
};
use crate::ec2::{
    CreateSnapshotRequest, CreateSnapshotRequestView, Filter, FilterView, Instance,
    InstanceBlockDeviceMappingView, InstanceView, Reservation, ReservationView, Volume, VolumeView,
};
use crate::restore_run::or_empty;
use crate::snapshot::{
    mapping_has_volume_id, mapping_volume_id, mapping_volume_id_view, snapshot_request_view,
    ClusterSnapshot,
};
use crate::aws::filter_view;

verus! {

/// The last action that the snapshot asked for.
#[derive(Clone, Copy, Debug, PartialEq, Eq, Structural)]
pub enum SnapshotPhase {
    Start,
    DescribingInstances,
    DescribingVolume,
    CreatingSnapshot,
    ReportingNode,
    Finished,
}

/// What an action brought back.
#[derive(Debug)]
pub enum SnapshotEvent {
    /// The action was performed and brought nothing back.
    Done,
    InstancesDescribed(Option<Vec<Reservation>>),
    VolumesDescribed(Option<Vec<Volume>>),
}

pub enum SnapshotEventView {
    Done,
    InstancesDescribed(Option<Seq<ReservationView>>),
    VolumesDescribed(Option<Seq<VolumeView>>),
}

impl View for SnapshotEvent {
    type V = SnapshotEventView;

    open spec fn view(&self) -> SnapshotEventView {
        match self {
            SnapshotEvent::Done => SnapshotEventView::Done,
            SnapshotEvent::InstancesDescribed(o) => SnapshotEventView::InstancesDescribed(o.deep_view()),
            SnapshotEvent::VolumesDescribed(o) => SnapshotEventView::VolumesDescribed(o.deep_view()),
        }
    }
}

/// What the program is to do next.
#[derive(Debug)]
pub enum SnapshotAction {
    /// Describe the instances that the filters select.
    DescribeInstances(Vec<Filter>),
    /// Describe the volumes that the filters select.
    DescribeVolumes(Vec<Filter>),
    /// Send the snapshot request.
    CreateSnapshot(CreateSnapshotRequest),
    /// Print the line.
    Report(String),
    /// The snapshot is done.
    Finish,
}

pub enum SnapshotActionView {
    DescribeInstances(Seq<FilterView>),
    DescribeVolumes(Seq<FilterView>),
    CreateSnapshot(CreateSnapshotRequestView),
    Report(Seq<char>),
    Finish,
}

impl View for SnapshotAction {
    type V = SnapshotActionView;

    open spec fn view(&self) -> SnapshotActionView {
        match self {
            SnapshotAction::DescribeInstances(f) => SnapshotActionView::DescribeInstances(f.deep_view()),
            SnapshotAction::DescribeVolumes(f) => SnapshotActionView::DescribeVolumes(f.deep_view()),
            SnapshotAction::CreateSnapshot(r) => SnapshotActionView::CreateSnapshot(r@),
            SnapshotAction::Report(m) => SnapshotActionView::Report(m@),
            SnapshotAction::Finish => SnapshotActionView::Finish,
        }
    }
}

/// A cluster snapshot under way.
pub struct SnapshotRun {
    phase: SnapshotPhase,
    ip_addresses: Vec<String>,
    cluster: ClusterSnapshot,
    instances: Vec<Instance>,
    instance_index: usize,
    mapping_index: usize,
}

/// The state of a cluster snapshot: the last action asked for, the nodes'
/// addresses, the unique id and description of the cluster snapshot, the
/// nodes, and the node and block device that the snapshot is at.
pub struct SnapshotRunView {
    pub phase: SnapshotPhase,
    pub ip_addresses: Seq<Seq<char>>,
    pub unique_id: Seq<char>,
    pub description: Seq<char>,
    pub instances: Seq<InstanceView>,
    pub instance_index: int,
    pub mapping_index: int,
}

impl View for SnapshotRun {
    type V = SnapshotRunView;

    closed spec fn view(&self) -> SnapshotRunView {
        SnapshotRunView {
            phase: self.phase,
            ip_addresses: self.ip_addresses.deep_view(),
            unique_id: self.cluster.unique_id@,
            description: self.cluster.description@,
            instances: self.instances.deep_view(),
            instance_index: self.instance_index as int,
            mapping_index: self.mapping_index as int,
        }
    }
}

/// The block devices of a node; none when it lists none.
pub open spec fn node_mappings(instance: InstanceView) -> Seq<InstanceBlockDeviceMappingView> {
    or_empty(instance.block_device_mappings)
}

/// The line that reports a snapshotted node.
pub open spec fn node_report(instance_id: Seq<char>) -> Seq<char> {
    "Snapshotted node id: "@ + instance_id
}

/// The snapshot at its start.
pub open spec fn snapshot_start(ip_addresses: Seq<Seq<char>>, unique_id: Seq<char>, description: Seq<char>) -> SnapshotRunView {
    SnapshotRunView {
        phase: SnapshotPhase::Start,
        ip_addresses,
        unique_id,
        description,
        instances: seq![],
        instance_index: 0,
        mapping_index: 0,
    }
}

/// The snapshot is at a node and a block device of it, or past them.
pub open spec fn snapshot_wf(s: SnapshotRunView) -> bool {
    &&& 0 <= s.instance_index <= s.instances.len()
    &&& s.instance_index < s.instances.len() ==> 0 <= s.mapping_index <= node_mappings(
        s.instances[s.instance_index],
    ).len()
    &&& (s.phase == SnapshotPhase::DescribingVolume || s.phase == SnapshotPhase::CreatingSnapshot) ==> {
        &&& s.instance_index < s.instances.len()
        &&& s.mapping_index < node_mappings(s.instances[s.instance_index]).len()
        &&& mapping_has_volume_id(node_mappings(s.instances[s.instance_index])[s.mapping_index])
    }
    &&& s.phase == SnapshotPhase::ReportingNode ==> s.instance_index < s.instances.len()
}

/// What the snapshot reads when it moves to a position: the volume of the
/// block device there, or the id of the node once all its devices are done.
pub open spec fn position_readable(instances: Seq<InstanceView>, i: int, m: int) -> bool {
    i < instances.len() ==> if m < node_mappings(instances[i]).len() {
        mapping_has_volume_id(node_mappings(instances[i])[m])
    } else {
        instances[i].instance_id is Some
    }
}

/// The step that moves the snapshot to node `i`, block device `m`.
pub open spec fn snapshot_advance(s: SnapshotRunView, i: int, m: int) -> (SnapshotRunView, SnapshotActionView) {
    if i >= s.instances.len() {
        (
            SnapshotRunView { phase: SnapshotPhase::Finished, instance_index: i, mapping_index: m, ..s },
            SnapshotActionView::Finish,
        )
    } else if m < node_mappings(s.instances[i]).len() {
        (
            SnapshotRunView { phase: SnapshotPhase::DescribingVolume, instance_index: i, mapping_index: m, ..s },
            SnapshotActionView::DescribeVolumes(
                seq![filter_view("volume-id"@, seq![mapping_volume_id_view(node_mappings(s.instances[i])[m])])],
            ),
        )
    } else {
        (
            SnapshotRunView { phase: SnapshotPhase::ReportingNode, instance_index: i, mapping_index: m, ..s },
            SnapshotActionView::Report(node_report(s.instances[i].instance_id->0)),
        )
    }
}

/// Whether the snapshot can take `e` in its state: `e` is what the last
/// action brings back, and it holds what the next step reads.
pub open spec fn snapshot_accepts(s: SnapshotRunView, e: SnapshotEventView) -> bool {
    match s.phase {
        SnapshotPhase::Start => e is Done,
        SnapshotPhase::DescribingInstances => e matches SnapshotEventView::InstancesDescribed(o) && o is Some
            && reservations_list_instances(o->0) && position_readable(reservation_instances(o->0), 0, 0),
        SnapshotPhase::DescribingVolume => e matches SnapshotEventView::VolumesDescribed(o) && o is Some
            && o->0.len() > 0,
        SnapshotPhase::CreatingSnapshot => e is Done && position_readable(
            s.instances,
            s.instance_index,
            s.mapping_index + 1,
        ),
        SnapshotPhase::ReportingNode => e is Done && position_readable(s.instances, s.instance_index + 1, 0),
        SnapshotPhase::Finished => false,
    }
}

/// One step of the snapshot: the state it is in next and the action to
/// perform, given what the last action brought back.
pub open spec fn snapshot_next(s: SnapshotRunView, e: SnapshotEventView) -> (SnapshotRunView, SnapshotActionView) {
    match s.phase {
        SnapshotPhase::Start => (
            SnapshotRunView { phase: SnapshotPhase::DescribingInstances, ..s },
            SnapshotActionView::DescribeInstances(private_ip_filters_view(s.ip_addresses)),
        ),
        SnapshotPhase::DescribingInstances => {
            let reservations = match e {
                SnapshotEventView::InstancesDescribed(o) => or_empty(o),
                _ => seq![],
            };
            snapshot_advance(SnapshotRunView { instances: reservation_instances(reservations), ..s }, 0, 0)
        },
        SnapshotPhase::DescribingVolume => {
            let volumes = match e {
                SnapshotEventView::VolumesDescribed(o) => or_empty(o),
                _ => seq![],
            };
            let instance = s.instances[s.instance_index];
            (
                SnapshotRunView { phase: SnapshotPhase::CreatingSnapshot, ..s },
                SnapshotActionView::CreateSnapshot(
                    snapshot_request_view(
                        s.unique_id,
                        s.description,
                        instance,
                        node_mappings(instance)[s.mapping_index],
                        volumes[0].volume_type,
                    ),
                ),
            )
        },
        SnapshotPhase::CreatingSnapshot => snapshot_advance(s, s.instance_index, s.mapping_index + 1),
        SnapshotPhase::ReportingNode => snapshot_advance(s, s.instance_index + 1, 0),
        SnapshotPhase::Finished => (s, SnapshotActionView::Finish),
    }
}

impl SnapshotRun {
    /// A snapshot, as `cluster`, of the cluster whose nodes have the given
    /// private addresses.
    pub fn new(ip_addresses: Vec<String>, cluster: ClusterSnapshot) -> (r: SnapshotRun)
        ensures
            r@ == snapshot_start(ip_addresses.deep_view(), cluster.unique_id@, cluster.description@),
            snapshot_wf(r@),
    {
        let r = SnapshotRun {
            phase: SnapshotPhase::Start,
            ip_addresses,
            cluster,
            instances: Vec::new(),
            instance_index: 0,
            mapping_index: 0,
        };
        assert(r@.instances =~= Seq::<InstanceView>::empty());
        r
    }

    /// The unique id of the cluster snapshot.
    pub fn unique_id(&self) -> (r: &str)
        ensures
            r@ == self@.unique_id,
    {
        self.cluster.unique_id.as_str()
    }

    /// The last action that the snapshot asked for.
    pub fn phase(&self) -> (p: SnapshotPhase)
        ensures
            p == self@.phase,
    {
        self.phase
    }

    /// Whether the snapshot is done.
    pub fn is_over(&self) -> (r: bool)
        ensures
            r == (self@.phase == SnapshotPhase::Finished),
    {
        self.phase == SnapshotPhase::Finished
    }

    /// While snapshotting a device, the next device index fits in a `usize`.
    proof fn lemma_next_device_fits(&self)
        requires
            snapshot_wf(self@),
            self@.phase == SnapshotPhase::CreatingSnapshot,
        ensures
            self.mapping_index < usize::MAX,
            self.instance_index < self.instances.len(),
    {
        let instance = self.instances@[self.instance_index as int];
        assert(self@.instances[self@.instance_index] == instance@);
        if let Some(ms) = instance.block_device_mappings {
            assert(self.mapping_index < ms.len());
        }
    }

    fn readable_at(instances: &Vec<Instance>, i: usize, m: usize) -> (r: bool)
        ensures
            r == position_readable(instances.deep_view(), i as int, m as int),
    {
        if i >= instances.len() {
            return true;
        }
        let instance = &instances[i];
        assert(instances.deep_view()[i as int] == instance@);
        match &instance.block_device_mappings {
            Some(ms) => {
                if m < ms.len() {
                    assert(node_mappings(instance@)[m as int] == ms[m as int]@);
                    match &ms[m].ebs {
                        Some(ebs) => ebs.volume_id.is_some(),
                        None => false,
                    }
                } else {
                    instance.instance_id.is_some()
                }
            },
            None => instance.instance_id.is_some(),
        }
    }

    /// Whether the snapshot can take `event` now.
    pub fn accepts(&self, event: &SnapshotEvent) -> (r: bool)
        requires
            snapshot_wf(self@),
        ensures
            r == snapshot_accepts(self@, event@),
    {
        match self.phase {
            SnapshotPhase::Start => match event {
                SnapshotEvent::Done => true,
                _ => false,
            },
            SnapshotPhase::DescribingInstances => match event {
                SnapshotEvent::InstancesDescribed(Some(rs)) => {
                    let ghost rsv = rs.deep_view();
                    let n = rs.len();
                    let mut complete = true;
                    for i in 0..n
                        invariant
                            n == rs.len(),
                            rsv == rs.deep_view(),
                            complete == forall|k: int| 0 <= k < i ==> (#[trigger] rsv[k]).instances is Some,
                    {
                        assert(rsv[i as int] == rs[i as int]@);
                        if rs[i].instances.is_none() {
                            complete = false;
                        }
                    }
                    if !complete {
                        return false;
                    }
                    self.readable_in_reservations(rs)
                },
                _ => false,
            },
            SnapshotPhase::DescribingVolume => match event {
                SnapshotEvent::VolumesDescribed(Some(vs)) => vs.len() > 0,
                _ => false,
            },
            SnapshotPhase::CreatingSnapshot => match event {
                SnapshotEvent::Done => {
                    proof {
                        self.lemma_next_device_fits();
                    }
                    Self::readable_at(&self.instances, self.instance_index, self.mapping_index + 1)
                },
                _ => false,
            },
            SnapshotPhase::ReportingNode => match event {
                SnapshotEvent::Done => {
                    assert(self.instance_index < self.instances.len());
                    Self::readable_at(&self.instances, self.instance_index + 1, 0)
                },
                _ => false,
            },
            SnapshotPhase::Finished => false,
        }
    }

    fn readable_in_reservations(&self, rs: &Vec<Reservation>) -> (r: bool)
        requires
            reservations_list_instances(rs.deep_view()),
        ensures
            r == position_readable(reservation_instances(rs.deep_view()), 0, 0),
    {
        let ghost rsv = rs.deep_view();
        let n = rs.len();
        let mut k: usize = 0;
        while k < n
            invariant
                n == rs.len(),
                rsv == rs.deep_view(),
                reservations_list_instances(rsv),
                k <= n,
                forall|j: int| 0 <= j < k ==> (#[trigger] rsv[j]).instances->0.len() == 0,
                reservation_instances(rsv.take(k as int)).len() == 0,
            decreases n - k,
        {
            assert(rsv[k as int] == rs[k as int]@);
            assert(rsv.take(k + 1).drop_last() =~= rsv.take(k as int));
            match &rs[k].instances {
                Some(instances) => {
                    if instances.len() > 0 {
                        proof {
                            lemma_first_instance(rsv, k as int);
                        }
                        return Self::readable_at(instances, 0, 0);
                    }
                },
                None => {},
            }
            k = k + 1;
        }
        assert(rsv.take(n as int) =~= rsv);
        true
    }

    /// Takes what the last action brought back, moves to the next state and
    /// returns the next action.
    pub fn step(&mut self, event: SnapshotEvent) -> (action: SnapshotAction)
        requires
            snapshot_wf(old(self)@),
            snapshot_accepts(old(self)@, event@),
        ensures
            snapshot_wf(final(self)@),
            (final(self)@, action@) == snapshot_next(old(self)@, event@),
    {
        match self.phase {
            SnapshotPhase::Start => {
                self.phase = SnapshotPhase::DescribingInstances;
                SnapshotAction::DescribeInstances(private_ip_filters(&self.ip_addresses))
            },
            SnapshotPhase::DescribingInstances => {
                let reservations = match event {
                    SnapshotEvent::InstancesDescribed(o) => o,
                    _ => None,
                };
                self.instances = get_instances_by_ip_address(reservations);
                self.advance(0, 0)
            },
            SnapshotPhase::DescribingVolume => {
                let volumes = match event {
                    SnapshotEvent::VolumesDescribed(o) => o,
                    _ => None,
                };
                let volume_type = get_volume_type(volumes);
                let instance = &self.instances[self.instance_index];
                assert(self@.instances[self@.instance_index] == instance@);
                let mappings = match &instance.block_device_mappings {
                    Some(ms) => ms,
                    None => {
                        assert(false);
                        return SnapshotAction::Finish;
                    },
                };
                assert(node_mappings(instance@)[self@.mapping_index] == mappings[self.mapping_index as int]@);
                let request = self.cluster.create_snapshot_request(instance, &mappings[self.mapping_index], volume_type);
                self.phase = SnapshotPhase::CreatingSnapshot;
                SnapshotAction::CreateSnapshot(request)
            },
            SnapshotPhase::CreatingSnapshot => {
                proof {
                    self.lemma_next_device_fits();
                }
                let i = self.instance_index;
                let m = self.mapping_index + 1;
                self.advance(i, m)
            },
            SnapshotPhase::ReportingNode => {
                assert(self.instance_index < self.instances.len());
                let i = self.instance_index + 1;
                self.advance(i, 0)
            },
            SnapshotPhase::Finished => SnapshotAction::Finish,
        }
    }

    fn advance(&mut self, i: usize, m: usize) -> (action: SnapshotAction)
        requires
            i <= old(self).instances.len(),
            i < old(self).instances.len() ==> m <= node_mappings(old(self)@.instances[i as int]).len(),
            position_readable(old(self)@.instances, i as int, m as int),
        ensures
            snapshot_wf(final(self)@),
            (final(self)@, action@) == snapshot_advance(old(self)@, i as int, m as int),
    {
        self.instance_index = i;
        self.mapping_index = m;
        if i >= self.instances.len() {
            self.phase = SnapshotPhase::Finished;
            return SnapshotAction::Finish;
        }
        let instance = &self.instances[i];
        assert(self@.instances[i as int] == instance@);
        match &instance.block_device_mappings {
            Some(ms) => {
                if m < ms.len() {
                    assert(node_mappings(instance@)[m as int] == ms[m as int]@);
                    let volume_id = mapping_volume_id(&ms[m]);
                    self.phase = SnapshotPhase::DescribingVolume;
                    return SnapshotAction::DescribeVolumes(volume_id_filters(volume_id.as_str()));
                }
            },
            None => {},
        }
        let id = match &instance.instance_id {
            Some(id) => id.as_str(),
            None => "",
        };
        self.phase = SnapshotPhase::ReportingNode;
        SnapshotAction::Report("Snapshotted node id: ".to_owned().concat(id))
    }
}

/// The first instance of the reservations is the first instance of the first
/// reservation that has one.
proof fn lemma_first_instance(rs: Seq<ReservationView>, k: int)
    requires
        reservations_list_instances(rs),
        0 <= k < rs.len(),
        reservation_instances(rs.take(k)).len() == 0,
        rs[k].instances->0.len() > 0,
    ensures
        reservation_instances(rs).len() > 0,
        reservation_instances(rs)[0] == rs[k].instances->0[0],
    decreases rs.len(),
{
    if k == rs.len() - 1 {
        assert(rs.drop_last() =~= rs.take(k));
    } else {
        assert(rs.drop_last().take(k) =~= rs.take(k));
        assert(reservations_list_instances(rs.drop_last()));
        lemma_first_instance(rs.drop_last(), k);
        assert(rs.drop_last()[k] == rs[k]);
    }
}

/// Every step keeps the unique id and description of the cluster snapshot,
/// so all volume snapshots of one run carry the same unique id; and each
/// snapshot request is for the block device that the run is at, on its node,
/// with the type that the volume description gave.
pub proof fn lemma_snapshot_requests_share_the_unique_id(s: SnapshotRunView, e: SnapshotEventView)
    requires
        snapshot_wf(s),
        snapshot_accepts(s, e),
    ensures
        snapshot_next(s, e).0.unique_id == s.unique_id,
        snapshot_next(s, e).0.description == s.description,
        snapshot_next(s, e).1 is CreateSnapshot ==> s.phase == SnapshotPhase::DescribingVolume
            && snapshot_next(s, e).1 == SnapshotActionView::CreateSnapshot(
            snapshot_request_view(
                s.unique_id,
                s.description,
                s.instances[s.instance_index],
                node_mappings(s.instances[s.instance_index])[s.mapping_index],
                or_empty(e->VolumesDescribed_0)[0].volume_type,
            ),
        ),
{
}

/// A node is reported only once every one of its block devices has been
/// passed, and the run finishes only once every node has been reported.
pub proof fn lemma_nodes_reported_after_their_devices(s: SnapshotRunView, e: SnapshotEventView)
    requires
        snapshot_wf(s),
        snapshot_accepts(s, e),
    ensures
        snapshot_next(s, e).1 is Report ==> {
            let t = snapshot_next(s, e).0;
            &&& t.instance_index < t.instances.len()
            &&& t.mapping_index == node_mappings(t.instances[t.instance_index]).len()
            &&& snapshot_next(s, e).1 == SnapshotActionView::Report(
                node_report(t.instances[t.instance_index].instance_id->0),
            )
        },
        snapshot_next(s, e).1 is Finish ==> snapshot_next(s, e).0.instance_index >= snapshot_next(
            s,
            e,
        ).0.instances.len(),
{
}

/// A step of the snapshot keeps its state well formed.
pub proof fn lemma_snapshot_next_keeps_wf(s: SnapshotRunView, e: SnapshotEventView)
    requires
        snapshot_wf(s),
        snapshot_accepts(s, e),
    ensures
        snapshot_wf(snapshot_next(s, e).0),
{
}

/// The snapshot run over a sequence of events: the state it ends in and the
/// actions it asked for, in order.
pub open spec fn run_snapshot(s: SnapshotRunView, es: Seq<SnapshotEventView>) -> (SnapshotRunView, Seq<SnapshotActionView>)
    decreases es.len(),
{
    if es.len() == 0 {
        (s, seq![])
    } else {
        let rest = run_snapshot(snapshot_next(s, es[0]).0, es.drop_first());
        (rest.0, seq![snapshot_next(s, es[0]).1] + rest.1)
    }
}

/// The snapshot can take each of the events in turn.
pub open spec fn snapshot_takes(s: SnapshotRunView, es: Seq<SnapshotEventView>) -> bool
    decreases es.len(),
{
    es.len() == 0 || (snapshot_wf(s) && snapshot_accepts(s, es[0]) && snapshot_takes(
        snapshot_next(s, es[0]).0,
        es.drop_first(),
    ))
}

/// A snapshot looks up every node of the cluster: its first action describes
/// the instances whose private IP address is any of the addresses it was
/// given, all of them, and no step changes those addresses.
pub proof fn lemma_snapshot_looks_up_every_node(
    ip_addresses: Seq<Seq<char>>,
    unique_id: Seq<char>,
    description: Seq<char>,
    s: SnapshotRunView,
    e: SnapshotEventView,
)
    ensures
        snapshot_next(snapshot_start(ip_addresses, unique_id, description), SnapshotEventView::Done).1
            == SnapshotActionView::DescribeInstances(
            seq![FilterView { name: Some("private-ip-address"@), values: Some(ip_addresses) }],
        ),
        snapshot_next(s, e).1 is DescribeInstances ==> snapshot_next(s, e).1
            == SnapshotActionView::DescribeInstances(
            seq![FilterView { name: Some("private-ip-address"@), values: Some(s.ip_addresses) }],
        ),
        snapshot_next(s, e).0.ip_addresses == s.ip_addresses,
{
}

} // verus!
