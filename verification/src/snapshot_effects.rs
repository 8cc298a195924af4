//! What any finished snapshot run asks EC2 to snapshot: one volume snapshot
//! per block device of the nodes, in order, all under the run's unique id.

use vstd::prelude::*;

use crate::aws::reservation_instances;
use crate::ec2::{CreateSnapshotRequestView, InstanceBlockDeviceMappingView, InstanceView};
use crate::restore_run::or_empty;
use crate::snapshot::snapshot_request_view;
use crate::snapshot_run::{
    lemma_snapshot_next_keeps_wf, node_mappings, run_snapshot, snapshot_accepts, snapshot_next, snapshot_start,
    snapshot_takes, snapshot_wf, SnapshotActionView, SnapshotEventView, SnapshotPhase, SnapshotRunView,
};

verus! {

/// The block devices of the nodes from node `i`, device `m` on, each with its
/// node: the rest of node `i`'s devices, then every device of the later
/// nodes, in order.
pub open spec fn devices_from(instances: Seq<InstanceView>, i: int, m: int) -> Seq<
    (InstanceView, InstanceBlockDeviceMappingView),
>
    decreases instances.len() - i, node_mappings(instances[i]).len() - m,
{
    if i < 0 || i >= instances.len() {
        seq![]
    } else if m < node_mappings(instances[i]).len() {
        seq![(instances[i], node_mappings(instances[i])[m])] + devices_from(instances, i, m + 1)
    } else {
        devices_from(instances, i + 1, 0)
    }
}

/// Every block device of the nodes, each with its node, in order.
pub open spec fn node_devices(instances: Seq<InstanceView>) -> Seq<(InstanceView, InstanceBlockDeviceMappingView)> {
    devices_from(instances, 0, 0)
}

/// The snapshot requests among the actions, in order.
pub open spec fn snapshot_requests(actions: Seq<SnapshotActionView>) -> Seq<CreateSnapshotRequestView>
    decreases actions.len(),
{
    if actions.len() == 0 {
        seq![]
    } else {
        (match actions[0] {
            SnapshotActionView::CreateSnapshot(r) => seq![r],
            _ => seq![],
        }) + snapshot_requests(actions.drop_first())
    }
}

/// The volume type that each volume description gave, in order: that of the
/// first volume described.
pub open spec fn described_types(events: Seq<SnapshotEventView>) -> Seq<Option<Seq<char>>>
    decreases events.len(),
{
    if events.len() == 0 {
        seq![]
    } else {
        (match events[0] {
            SnapshotEventView::VolumesDescribed(o) => seq![or_empty(o)[0].volume_type],
            _ => seq![],
        }) + described_types(events.drop_first())
    }
}

/// The snapshot requests for the devices, the `k`-th with the `k`-th volume
/// type, all in the cluster snapshot `unique_id` described by `description`.
pub open spec fn device_requests(
    unique_id: Seq<char>,
    description: Seq<char>,
    devices: Seq<(InstanceView, InstanceBlockDeviceMappingView)>,
    volume_types: Seq<Option<Seq<char>>>,
) -> Seq<CreateSnapshotRequestView> {
    Seq::new(
        devices.len(),
        |k: int| snapshot_request_view(unique_id, description, devices[k].0, devices[k].1, volume_types[k]),
    )
}

/// The devices that the snapshot still snapshots from state `s` on.
pub open spec fn remaining_devices(s: SnapshotRunView) -> Seq<(InstanceView, InstanceBlockDeviceMappingView)> {
    match s.phase {
        SnapshotPhase::DescribingVolume => devices_from(s.instances, s.instance_index, s.mapping_index),
        SnapshotPhase::CreatingSnapshot => devices_from(s.instances, s.instance_index, s.mapping_index + 1),
        SnapshotPhase::ReportingNode => devices_from(s.instances, s.instance_index + 1, 0),
        _ => seq![],
    }
}

/// The snapshot has found the nodes.
pub open spec fn past_nodes(s: SnapshotRunView) -> bool {
    !(s.phase == SnapshotPhase::Start || s.phase == SnapshotPhase::DescribingInstances)
}

/// One step of a run, as the definitions of `run_snapshot` and
/// `snapshot_takes` give it.
proof fn lemma_run_step(s: SnapshotRunView, es: Seq<SnapshotEventView>)
    requires
        es.len() > 0,
    ensures
        run_snapshot(s, es).0 == (if es.drop_first().len() == 0 {
            snapshot_next(s, es[0]).0
        } else {
            run_snapshot(snapshot_next(s, es[0]).0, es.drop_first()).0
        }),
        run_snapshot(s, es).1 == seq![snapshot_next(s, es[0]).1] + run_snapshot(
            snapshot_next(s, es[0]).0,
            es.drop_first(),
        ).1,
        snapshot_takes(s, es) == (snapshot_wf(s) && snapshot_accepts(s, es[0]) && snapshot_takes(
            snapshot_next(s, es[0]).0,
            es.drop_first(),
        )),
{
    reveal_with_fuel(run_snapshot, 2);
}

proof fn lemma_snapshot_requests_cons(a: SnapshotActionView, rest: Seq<SnapshotActionView>)
    ensures
        snapshot_requests(seq![a] + rest) == (match a {
            SnapshotActionView::CreateSnapshot(r) => seq![r],
            _ => seq![],
        }) + snapshot_requests(rest),
{
    assert((seq![a] + rest)[0] == a);
    assert((seq![a] + rest).drop_first() =~= rest);
}

proof fn lemma_device_requests_cons(
    unique_id: Seq<char>,
    description: Seq<char>,
    devices: Seq<(InstanceView, InstanceBlockDeviceMappingView)>,
    volume_types: Seq<Option<Seq<char>>>,
)
    requires
        devices.len() > 0,
        volume_types.len() == devices.len(),
    ensures
        device_requests(unique_id, description, devices, volume_types) == seq![
            snapshot_request_view(unique_id, description, devices[0].0, devices[0].1, volume_types[0]),
        ] + device_requests(unique_id, description, devices.drop_first(), volume_types.drop_first()),
{
    let whole = device_requests(unique_id, description, devices, volume_types);
    let rest = device_requests(unique_id, description, devices.drop_first(), volume_types.drop_first());
    assert forall|k: int| 1 <= k < devices.len() implies whole[k] == rest[k - 1] by {
        assert(devices.drop_first()[k - 1] == devices[k]);
        assert(volume_types.drop_first()[k - 1] == volume_types[k]);
    }
    assert(device_requests(unique_id, description, devices, volume_types) =~= seq![
        snapshot_request_view(unique_id, description, devices[0].0, devices[0].1, volume_types[0]),
    ] + device_requests(unique_id, description, devices.drop_first(), volume_types.drop_first()));
}

/// A run from a state past the nodes that ends with the snapshot done asks
/// for exactly one snapshot request per device still ahead, in order, each
/// with the volume type that the volume description gave; the volumes are
/// described exactly once per such device, and the last action finishes.
proof fn lemma_run_requests(s: SnapshotRunView, es: Seq<SnapshotEventView>)
    requires
        snapshot_wf(s),
        past_nodes(s),
        snapshot_takes(s, es),
        run_snapshot(s, es).0.phase == SnapshotPhase::Finished,
    ensures
        described_types(es).len() == remaining_devices(s).len(),
        snapshot_requests(run_snapshot(s, es).1) == device_requests(
            s.unique_id,
            s.description,
            remaining_devices(s),
            described_types(es),
        ),
        es.len() > 0 ==> run_snapshot(s, es).1.last() == SnapshotActionView::Finish,
    decreases es.len(),
{
    if es.len() == 0 {
        assert(s.phase == SnapshotPhase::Finished);
        assert(device_requests(s.unique_id, s.description, remaining_devices(s), described_types(es))
            =~= Seq::<CreateSnapshotRequestView>::empty());
    } else {
        let e = es[0];
        let rest = es.drop_first();
        lemma_run_step(s, es);
        let t = snapshot_next(s, e).0;
        let a = snapshot_next(s, e).1;
        lemma_snapshot_next_keeps_wf(s, e);
        assert(t.unique_id == s.unique_id && t.description == s.description);
        assert(past_nodes(t));
        if rest.len() == 0 {
            assert(t.phase == SnapshotPhase::Finished);
        }
        lemma_run_requests(t, rest);
        let tail = run_snapshot(t, rest).1;
        lemma_snapshot_requests_cons(a, tail);
        if rest.len() == 0 {
            assert(run_snapshot(s, es).1 =~= seq![a]);
        } else {
            assert((seq![a] + tail).last() == tail.last());
        }
        let types = described_types(rest);
        assert(described_types(es) == (match e {
            SnapshotEventView::VolumesDescribed(o) => seq![or_empty(o)[0].volume_type],
            _ => seq![],
        }) + types);
        let i = s.instance_index;
        let m = s.mapping_index;
        match s.phase {
            SnapshotPhase::DescribingVolume => {
                let ty = or_empty(e->VolumesDescribed_0)[0].volume_type;
                let dev = (s.instances[i], node_mappings(s.instances[i])[m]);
                assert(described_types(es) =~= seq![ty] + types);
                assert(remaining_devices(s) == seq![dev] + remaining_devices(t));
                assert((seq![dev] + remaining_devices(t)).drop_first() =~= remaining_devices(t));
                assert((seq![ty] + types).drop_first() =~= types);
                lemma_device_requests_cons(s.unique_id, s.description, seq![dev] + remaining_devices(t), seq![ty] + types);
            },
            SnapshotPhase::CreatingSnapshot => {
                assert(described_types(es) =~= types);
                assert(remaining_devices(t) == remaining_devices(s));
            },
            SnapshotPhase::ReportingNode => {
                assert(described_types(es) =~= types);
                assert(remaining_devices(t) == remaining_devices(s));
            },
            _ => {},
        }
    }
}

/// What any finished snapshot run asks EC2 to snapshot. Take any run of the
/// snapshot that the machine accepts and that ends with the snapshot done.
/// EC2's second answer lists the nodes; the run then sends exactly one
/// snapshot request per block device of those nodes, node by node and device
/// by device, every one of them for the cluster snapshot `unique_id`
/// described by `description`, the `k`-th with the volume type that the
/// `k`-th volume description gave. It describes exactly one volume per
/// device, and its last action finishes the snapshot.
pub proof fn lemma_finished_snapshot_requests(
    ip_addresses: Seq<Seq<char>>,
    unique_id: Seq<char>,
    description: Seq<char>,
    events: Seq<SnapshotEventView>,
)
    requires
        snapshot_takes(snapshot_start(ip_addresses, unique_id, description), events),
        run_snapshot(snapshot_start(ip_addresses, unique_id, description), events).0.phase
            == SnapshotPhase::Finished,
    ensures
        events.len() >= 2,
        events[1] is InstancesDescribed,
        ({
            let run = run_snapshot(snapshot_start(ip_addresses, unique_id, description), events);
            let devices = node_devices(reservation_instances(or_empty(events[1]->InstancesDescribed_0)));
            &&& described_types(events).len() == devices.len()
            &&& snapshot_requests(run.1) == device_requests(
                unique_id,
                description,
                devices,
                described_types(events),
            )
            &&& run.1.last() == SnapshotActionView::Finish
        }),
{
    let s0 = snapshot_start(ip_addresses, unique_id, description);
    assert(events.len() > 0);
    lemma_run_step(s0, events);
    let s1 = snapshot_next(s0, events[0]).0;
    let r1 = events.drop_first();
    assert(s1.phase == SnapshotPhase::DescribingInstances);
    assert(r1.len() > 0);
    assert(r1[0] == events[1]);
    lemma_run_step(s1, r1);
    let s2 = snapshot_next(s1, r1[0]).0;
    let r2 = r1.drop_first();
    let instances = reservation_instances(or_empty(events[1]->InstancesDescribed_0));
    assert(s2.instances == instances);
    assert(s2.unique_id == unique_id && s2.description == description);
    assert(snapshot_wf(s1));
    lemma_snapshot_next_keeps_wf(s1, r1[0]);
    assert(past_nodes(s2));
    assert(remaining_devices(s2) == node_devices(instances));
    if r2.len() == 0 {
        assert(s2.phase == SnapshotPhase::Finished);
    }
    lemma_run_requests(s2, r2);
    let a0 = snapshot_next(s0, events[0]).1;
    let a1 = snapshot_next(s1, r1[0]).1;
    let tail = run_snapshot(s2, r2).1;
    assert(run_snapshot(s0, events).1 == seq![a0] + (seq![a1] + tail));
    lemma_snapshot_requests_cons(a1, tail);
    lemma_snapshot_requests_cons(a0, seq![a1] + tail);
    assert(described_types(events) == described_types(r1));
    assert(described_types(r1) == described_types(r2));
    if r2.len() == 0 {
        assert(seq![a1] + tail =~= seq![a1]);
        assert(a1 == SnapshotActionView::Finish);
    } else {
        assert((seq![a1] + tail).last() == tail.last());
    }
    assert((seq![a0] + (seq![a1] + tail)).last() == (seq![a1] + tail).last());
}

} // verus!
