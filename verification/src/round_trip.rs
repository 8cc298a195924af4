//! What a snapshot run leaves behind, read back by a later restore and by a
//! later listing.

use vstd::prelude::*;

use crate::aws::{delete_requests_view, detach_requests_view};
use crate::constants;
use crate::ec2::{AttachVolumeRequestView, InstanceBlockDeviceMappingView, InstanceView, SnapshotView};
use crate::listing::{carries_unique_id, lemma_listing_one_line_per_cluster_snapshot, list_snapshots, listable, listed_ids};
use crate::restore::{lemma_restore_undoes_snapshot, restore_volume_request_view};
use crate::restore_effects::{
    created_ids, lemma_finished_restore_effects, lemma_restore_effects_index, restore_effects, volume_effects,
};
use crate::restore_run::{
    attached_volume_ids, or_empty, restore_start, restore_takes, run_restore, RestoreActionView, RestoreEventView,
    RestorePhase,
};
use crate::aws::reservation_instances;
use crate::snapshot::snapshot_request_view;
use crate::snapshot_effects::{described_types, lemma_finished_snapshot_requests, node_devices, snapshot_requests};
use crate::snapshot_run::{run_snapshot, snapshot_start, snapshot_takes, SnapshotEventView, SnapshotPhase};

verus! {

/// The tags that the request snapshotting the volume of `mapping` on
/// `instance`, in the cluster snapshot `unique_id` described by
/// `description`, puts on the volume snapshot.
pub open spec fn run_snapshot_tags(
    unique_id: Seq<char>,
    description: Seq<char>,
    instance: InstanceView,
    mapping: InstanceBlockDeviceMappingView,
    volume_type: Option<Seq<char>>,
) -> Option<Seq<crate::ec2::TagView>> {
    snapshot_request_view(unique_id, description, instance, mapping, volume_type).tag_specifications->0[0].tags
}

/// A volume snapshot that a snapshot run with unique id `unique_id` and
/// description `description` made: it carries the description and the tags
/// of one of the run's snapshot requests.
pub open spec fn made_by_snapshot_run(s: SnapshotView, unique_id: Seq<char>, description: Seq<char>) -> bool {
    &&& s.description == Some(description)
    &&& exists|instance: InstanceView, mapping: InstanceBlockDeviceMappingView, volume_type: Option<Seq<char>>|
        s.tags == #[trigger] run_snapshot_tags(unique_id, description, instance, mapping, volume_type)
}

/// A restore of a cluster snapshot undoes the snapshot run. Take any run of
/// the restore that the machine accepts and that ends with the cluster
/// restored, however many times it waited for the detached volumes to report
/// "ok" or for a new volume to become "available", in which EC2 answered the
/// search for volume snapshots with those of the snapshot run, one per
/// recorded node, device and volume type. Then the requests that change
/// volumes are exactly: the detach of the nodes' volumes, their delete if
/// asked, and then, for each volume snapshot in turn, one volume created from
/// it with its recorded type, and its attach to the recorded node under the
/// recorded device name, with the id that EC2 gave the new volume. EC2
/// reported exactly one new volume per volume snapshot, and the run ends by
/// reporting the cluster restored.
pub proof fn lemma_restore_recreates_snapshotted_volumes(
    ip_addresses: Seq<Seq<char>>,
    unique_id: Seq<char>,
    description: Seq<char>,
    delete_attached_drives: bool,
    snapshots: Seq<SnapshotView>,
    instances: Seq<InstanceView>,
    mappings: Seq<InstanceBlockDeviceMappingView>,
    volume_types: Seq<Option<Seq<char>>>,
    events: Seq<RestoreEventView>,
)
    requires
        instances.len() == snapshots.len(),
        mappings.len() == snapshots.len(),
        volume_types.len() == snapshots.len(),
        forall|k: int|
            0 <= k < snapshots.len() ==> (#[trigger] snapshots[k]).tags == run_snapshot_tags(
                unique_id,
                description,
                instances[k],
                mappings[k],
                volume_types[k],
            ),
        forall|k: int|
            0 <= k < snapshots.len() ==> (#[trigger] mappings[k]).device_name is Some
                && instances[k].instance_id is Some,
        restore_takes(restore_start(ip_addresses, unique_id, delete_attached_drives), events),
        run_restore(restore_start(ip_addresses, unique_id, delete_attached_drives), events).0.phase
            == RestorePhase::Finished,
        events.len() > 1,
        events[1] == RestoreEventView::SnapshotsDescribed(Some(snapshots)),
    ensures
        events.len() >= 3,
        events[2] is InstancesDescribed,
        ({
            let run = run_restore(restore_start(ip_addresses, unique_id, delete_attached_drives), events);
            let effects = volume_effects(run.1);
            let volume_ids = attached_volume_ids(or_empty(events[2]->InstancesDescribed_0));
            let new_ids = created_ids(events);
            let first = if delete_attached_drives {
                2int
            } else {
                1int
            };
            &&& new_ids.len() == snapshots.len()
            &&& effects.len() == first + 2 * snapshots.len()
            &&& effects[0] == RestoreActionView::DetachVolumes(detach_requests_view(volume_ids))
            &&& delete_attached_drives ==> effects[1] == RestoreActionView::DeleteVolumes(
                delete_requests_view(volume_ids),
            )
            &&& forall|k: int|
                0 <= k < snapshots.len() ==> {
                    &&& effects[first + 2 * k] == RestoreActionView::CreateVolume(
                        restore_volume_request_view(#[trigger] snapshots[k]),
                    )
                    &&& restore_volume_request_view(snapshots[k]).snapshot_id == snapshots[k].snapshot_id
                    &&& restore_volume_request_view(snapshots[k]).volume_type == volume_types[k]
                    &&& effects[first + 2 * k + 1] == RestoreActionView::AttachVolume(
                        AttachVolumeRequestView {
                            device: mappings[k].device_name->0,
                            instance_id: instances[k].instance_id->0,
                            volume_id: new_ids[k],
                        },
                    )
                }
            &&& run.1.last() == RestoreActionView::Finish(constants::CLUSTER_RESTORE_SUCCESS@)
        }),
{
    let run = run_restore(restore_start(ip_addresses, unique_id, delete_attached_drives), events);
    let volume_ids = attached_volume_ids(or_empty(events[2]->InstancesDescribed_0));
    let new_ids = created_ids(events);
    lemma_finished_restore_effects(ip_addresses, unique_id, delete_attached_drives, events);
    assert(or_empty(events[1]->SnapshotsDescribed_0) == snapshots);
    lemma_restore_effects_index(snapshots, new_ids);
    let prefix = seq![RestoreActionView::DetachVolumes(detach_requests_view(volume_ids))] + (
    if delete_attached_drives {
        seq![RestoreActionView::DeleteVolumes(delete_requests_view(volume_ids))]
    } else {
        seq![]
    });
    let tail = restore_effects(snapshots, new_ids);
    let effects = volume_effects(run.1);
    assert(effects == prefix + tail);
    let first = if delete_attached_drives {
        2int
    } else {
        1int
    };
    assert(prefix.len() == first);
    assert forall|k: int| 0 <= k < snapshots.len() implies {
        &&& effects[first + 2 * k] == RestoreActionView::CreateVolume(
            restore_volume_request_view(#[trigger] snapshots[k]),
        )
        &&& restore_volume_request_view(snapshots[k]).snapshot_id == snapshots[k].snapshot_id
        &&& restore_volume_request_view(snapshots[k]).volume_type == volume_types[k]
        &&& effects[first + 2 * k + 1] == RestoreActionView::AttachVolume(
            AttachVolumeRequestView {
                device: mappings[k].device_name->0,
                instance_id: instances[k].instance_id->0,
                volume_id: new_ids[k],
            },
        )
    } by {
        lemma_restore_undoes_snapshot(
            snapshots[k],
            unique_id,
            description,
            instances[k],
            mappings[k],
            volume_types[k],
        );
        assert(effects[first + 2 * k] == tail[2 * k]);
        assert(effects[first + 2 * k + 1] == tail[2 * k + 1]);
    }
    assert(effects[0] == prefix[0]);
    if delete_attached_drives {
        assert(effects[1] == prefix[1]);
    }
}

/// Snapshotting a cluster and then restoring it gives each block device back
/// a volume made from its own snapshot. Take any finished snapshot run, and
/// volume snapshots that EC2 made for its requests, one per request and in
/// the order sent (each carrying its request's tags); take any finished
/// restore of the same cluster snapshot in which EC2 answered the search for
/// volume snapshots with those. Then the restore, after the detach (and the
/// delete if asked), creates for the `k`-th block device of the snapshotted
/// nodes one volume, from the `k`-th volume snapshot and of the type its
/// volume had, and attaches it to the same node under the same device name;
/// it creates and attaches nothing else.
pub proof fn lemma_snapshot_then_restore(
    ip_addresses: Seq<Seq<char>>,
    unique_id: Seq<char>,
    description: Seq<char>,
    snapshot_events: Seq<SnapshotEventView>,
    snapshots: Seq<SnapshotView>,
    delete_attached_drives: bool,
    restore_events: Seq<RestoreEventView>,
)
    requires
        snapshot_takes(snapshot_start(ip_addresses, unique_id, description), snapshot_events),
        run_snapshot(snapshot_start(ip_addresses, unique_id, description), snapshot_events).0.phase
            == SnapshotPhase::Finished,
        ({
            let requests = snapshot_requests(
                run_snapshot(snapshot_start(ip_addresses, unique_id, description), snapshot_events).1,
            );
            &&& snapshots.len() == requests.len()
            &&& forall|k: int|
                0 <= k < snapshots.len() ==> (#[trigger] snapshots[k]).tags
                    == requests[k].tag_specifications->0[0].tags
        }),
        snapshot_events.len() > 1 ==> {
            let devices = node_devices(reservation_instances(or_empty(snapshot_events[1]->InstancesDescribed_0)));
            forall|k: int|
                0 <= k < devices.len() ==> (#[trigger] devices[k]).1.device_name is Some
                    && devices[k].0.instance_id is Some
        },
        restore_takes(restore_start(ip_addresses, unique_id, delete_attached_drives), restore_events),
        run_restore(restore_start(ip_addresses, unique_id, delete_attached_drives), restore_events).0.phase
            == RestorePhase::Finished,
        restore_events.len() > 1,
        restore_events[1] == RestoreEventView::SnapshotsDescribed(Some(snapshots)),
    ensures
        snapshot_events.len() >= 2,
        restore_events.len() >= 3,
        ({
            let devices = node_devices(reservation_instances(or_empty(snapshot_events[1]->InstancesDescribed_0)));
            let volume_types = described_types(snapshot_events);
            let effects = volume_effects(
                run_restore(restore_start(ip_addresses, unique_id, delete_attached_drives), restore_events).1,
            );
            let new_ids = created_ids(restore_events);
            let first = if delete_attached_drives {
                2int
            } else {
                1int
            };
            &&& snapshots.len() == devices.len()
            &&& new_ids.len() == devices.len()
            &&& effects.len() == first + 2 * devices.len()
            &&& forall|k: int|
                0 <= k < devices.len() ==> {
                    &&& effects[first + 2 * k] == RestoreActionView::CreateVolume(
                        restore_volume_request_view(#[trigger] snapshots[k]),
                    )
                    &&& restore_volume_request_view(snapshots[k]).snapshot_id == snapshots[k].snapshot_id
                    &&& restore_volume_request_view(snapshots[k]).volume_type == volume_types[k]
                    &&& effects[first + 2 * k + 1] == RestoreActionView::AttachVolume(
                        AttachVolumeRequestView {
                            device: devices[k].1.device_name->0,
                            instance_id: devices[k].0.instance_id->0,
                            volume_id: new_ids[k],
                        },
                    )
                }
        }),
{
    lemma_finished_snapshot_requests(ip_addresses, unique_id, description, snapshot_events);
    let devices = node_devices(reservation_instances(or_empty(snapshot_events[1]->InstancesDescribed_0)));
    let volume_types = described_types(snapshot_events);
    let n = devices.len();
    let instances = Seq::new(n, |k: int| devices[k].0);
    let mappings = Seq::new(n, |k: int| devices[k].1);
    let requests = snapshot_requests(
        run_snapshot(snapshot_start(ip_addresses, unique_id, description), snapshot_events).1,
    );
    assert forall|k: int| 0 <= k < snapshots.len() implies (#[trigger] snapshots[k]).tags == run_snapshot_tags(
        unique_id,
        description,
        instances[k],
        mappings[k],
        volume_types[k],
    ) by {
        assert(requests[k] == snapshot_request_view(unique_id, description, devices[k].0, devices[k].1, volume_types[k]));
    }
    assert forall|k: int| 0 <= k < snapshots.len() implies (#[trigger] mappings[k]).device_name is Some
        && instances[k].instance_id is Some by {
        assert(devices[k].1.device_name is Some && devices[k].0.instance_id is Some);
    }
    lemma_restore_recreates_snapshotted_volumes(
        ip_addresses,
        unique_id,
        description,
        delete_attached_drives,
        snapshots,
        instances,
        mappings,
        volume_types,
        restore_events,
    );
}

/// A listing after a snapshot run shows the run once: when at least one of
/// the volume snapshots described was made by the run, and every volume
/// snapshot that carries the run's unique id was made by it, the listing has
/// exactly one line with that unique id, and it shows the run's description.
pub proof fn lemma_listing_shows_a_snapshot_run(
    snapshots: Seq<SnapshotView>,
    unique_id: Seq<char>,
    description: Seq<char>,
)
    requires
        forall|i: int| 0 <= i < snapshots.len() ==> listable(#[trigger] snapshots[i]),
        exists|i: int| 0 <= i < snapshots.len() && made_by_snapshot_run(#[trigger] snapshots[i], unique_id, description),
        forall|i: int|
            0 <= i < snapshots.len() && carries_unique_id(#[trigger] snapshots[i], unique_id)
                ==> made_by_snapshot_run(snapshots[i], unique_id, description),
    ensures
        ({
            let listing = list_snapshots(seq![], snapshots);
            &&& exists|k: int|
                0 <= k < listing.len() && (#[trigger] listing[k]).qumulo_unique_id == unique_id
                    && listing[k].snapshot_description == description
            &&& forall|k1: int, k2: int|
                0 <= k1 < listing.len() && 0 <= k2 < listing.len() && (#[trigger] listing[k1]).qumulo_unique_id
                    == unique_id && (#[trigger] listing[k2]).qumulo_unique_id == unique_id ==> k1 == k2
        }),
{
    let listing = list_snapshots(seq![], snapshots);
    lemma_listing_one_line_per_cluster_snapshot(snapshots);
    let i0 = choose|i: int| 0 <= i < snapshots.len() && made_by_snapshot_run(#[trigger] snapshots[i], unique_id, description);
    let (instance, mapping, volume_type) = choose|
        instance: InstanceView,
        mapping: InstanceBlockDeviceMappingView,
        volume_type: Option<Seq<char>>,
    | snapshots[i0].tags == #[trigger] run_snapshot_tags(unique_id, description, instance, mapping, volume_type);
    lemma_restore_undoes_snapshot(snapshots[i0], unique_id, description, instance, mapping, volume_type);
    assert(carries_unique_id(snapshots[i0], unique_id));
    assert(listed_ids(listing).contains(unique_id));
    let k = choose|k: int| 0 <= k < listed_ids(listing).len() && listed_ids(listing)[k] == unique_id;
    assert(listing[k].qumulo_unique_id == unique_id);
    let i = choose|i: int|
        0 <= i < snapshots.len() && #[trigger] listing[k].snapshot_start_time == snapshots[i].start_time->0
            && listing[k].snapshot_description == snapshots[i].description->0 && carries_unique_id(
            snapshots[i],
            listing[k].qumulo_unique_id,
        );
    assert(made_by_snapshot_run(snapshots[i], unique_id, description));
    assert forall|k1: int, k2: int|
        0 <= k1 < listing.len() && 0 <= k2 < listing.len() && (#[trigger] listing[k1]).qumulo_unique_id
            == unique_id && (#[trigger] listing[k2]).qumulo_unique_id == unique_id implies k1 == k2 by {
        assert(listed_ids(listing)[k1] == listed_ids(listing)[k2]);
    }
}

} // verus!
