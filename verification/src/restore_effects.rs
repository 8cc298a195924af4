//! What any restore run does to the volumes, however long it waits for EC2:
//! the detach, delete, create and attach requests it sends, in order.

use vstd::prelude::*;

use crate::aws::{delete_requests_view, detach_requests_view};
use crate::constants;
use crate::ec2::SnapshotView;
use crate::restore::{attach_request_view, restore_volume_request_view, volume_restore_view};
use crate::restore_run::{
    attached_volume_ids, lemma_restore_next_keeps_wf, or_empty, restore_accepts, restore_next, restore_start,
    restore_takes, restore_wf, run_restore, RestoreActionView, RestoreEventView, RestorePhase, RestoreRunView,
};

verus! {

/// An action that changes the volumes: a detach, delete, create or attach.
pub open spec fn is_volume_effect(a: RestoreActionView) -> bool {
    a is DetachVolumes || a is DeleteVolumes || a is CreateVolume || a is AttachVolume
}

/// The actions that change the volumes, in order.
pub open spec fn volume_effects(actions: Seq<RestoreActionView>) -> Seq<RestoreActionView>
    decreases actions.len(),
{
    if actions.len() == 0 {
        seq![]
    } else {
        (if is_volume_effect(actions[0]) {
            seq![actions[0]]
        } else {
            seq![]
        }) + volume_effects(actions.drop_first())
    }
}

/// The ids of the volumes that EC2 reports created, in order.
pub open spec fn created_ids(events: Seq<RestoreEventView>) -> Seq<Seq<char>>
    decreases events.len(),
{
    if events.len() == 0 {
        seq![]
    } else {
        (match events[0] {
            RestoreEventView::VolumeCreated(Some(id)) => seq![id],
            _ => seq![],
        }) + created_ids(events.drop_first())
    }
}

/// For each volume snapshot in turn, the volume created from it and its
/// attach, under the id that EC2 gives the new volume.
pub open spec fn restore_effects(snapshots: Seq<SnapshotView>, new_ids: Seq<Seq<char>>) -> Seq<RestoreActionView>
    decreases snapshots.len(),
{
    if snapshots.len() == 0 {
        seq![]
    } else {
        seq![
            RestoreActionView::CreateVolume(restore_volume_request_view(snapshots[0])),
            RestoreActionView::AttachVolume(attach_request_view(volume_restore_view(snapshots[0]), new_ids[0])),
        ] + restore_effects(snapshots.drop_first(), new_ids.drop_first())
    }
}

/// The restore has found the nodes' volumes and has not failed.
pub open spec fn past_instances(s: RestoreRunView) -> bool {
    !(s.phase == RestorePhase::Start || s.phase == RestorePhase::DescribingSnapshots
        || s.phase == RestorePhase::DescribingInstances || s.phase == RestorePhase::Failed)
}

/// The requests that the restore still sends to change the volumes from
/// state `s` on, given the ids of the volumes still to be created.
pub open spec fn remaining_effects(s: RestoreRunView, new_ids: Seq<Seq<char>>) -> Seq<RestoreActionView> {
    match s.phase {
        RestorePhase::Detaching | RestorePhase::CheckingDetached | RestorePhase::WaitingDetached
        | RestorePhase::ReportingDetached => (if s.delete_attached_drives {
            seq![RestoreActionView::DeleteVolumes(delete_requests_view(s.volume_ids))]
        } else {
            seq![]
        }) + restore_effects(s.snapshots, new_ids),
        RestorePhase::Deleting | RestorePhase::ReportingDeleted | RestorePhase::StartingProgress
        | RestorePhase::Attaching => restore_effects(s.snapshots, new_ids),
        RestorePhase::CreatingVolume => seq![
            RestoreActionView::AttachVolume(attach_request_view(s.current->0, new_ids[0])),
        ] + restore_effects(s.snapshots, new_ids.drop_first()),
        RestorePhase::CheckingVolume | RestorePhase::WaitingVolume => seq![
            RestoreActionView::AttachVolume(attach_request_view(s.current->0, s.new_volume_id->0)),
        ] + restore_effects(s.snapshots, new_ids),
        _ => seq![],
    }
}

/// How many volumes the restore still creates from state `s` on.
pub open spec fn pending_creates(s: RestoreRunView) -> nat {
    match s.phase {
        RestorePhase::CreatingVolume => s.snapshots.len() + 1,
        RestorePhase::Finished => 0,
        _ => s.snapshots.len(),
    }
}

proof fn lemma_volume_effects_cons(a: RestoreActionView, rest: Seq<RestoreActionView>)
    ensures
        volume_effects(seq![a] + rest) == (if is_volume_effect(a) {
            seq![a]
        } else {
            seq![]
        }) + volume_effects(rest),
{
    assert((seq![a] + rest)[0] == a);
    assert((seq![a] + rest).drop_first() =~= rest);
}

/// A run from a state past the nodes' volumes that ends with the restore
/// done sends exactly the remaining requests, and EC2 reports exactly as many
/// volumes created as the restore still creates; its last action reports the
/// cluster restored.
proof fn lemma_run_effects(s: RestoreRunView, es: Seq<RestoreEventView>)
    requires
        restore_wf(s),
        past_instances(s),
        restore_takes(s, es),
        run_restore(s, es).0.phase == RestorePhase::Finished,
    ensures
        volume_effects(run_restore(s, es).1) == remaining_effects(s, created_ids(es)),
        created_ids(es).len() == pending_creates(s),
        es.len() > 0 ==> run_restore(s, es).1.last() == RestoreActionView::Finish(constants::CLUSTER_RESTORE_SUCCESS@),
    decreases es.len(),
{
    if es.len() == 0 {
        assert(s.phase == RestorePhase::Finished);
    } else {
        let e = es[0];
        let rest = es.drop_first();
        let t = restore_next(s, e).0;
        let a = restore_next(s, e).1;
        assert(restore_accepts(s, e));
        lemma_restore_next_keeps_wf(s, e);
        assert(past_instances(t));
        lemma_run_effects(t, rest);
        lemma_volume_effects_cons(a, run_restore(t, rest).1);
        let ids = created_ids(rest);
        assert(created_ids(es) == (match e {
            RestoreEventView::VolumeCreated(Some(id)) => seq![id],
            _ => seq![],
        }) + ids);
        if rest.len() == 0 {
            assert(run_restore(s, es).1 =~= seq![a]);
        } else {
            assert((seq![a] + run_restore(t, rest).1).last() == run_restore(t, rest).1.last());
        }
        match s.phase {
            RestorePhase::CreatingVolume => {
                let id = e->VolumeCreated_0->0;
                assert(created_ids(es) =~= seq![id] + ids);
                assert((seq![id] + ids).drop_first() =~= ids);
            },
            RestorePhase::StartingProgress | RestorePhase::Attaching => {
                assert(created_ids(es) =~= ids);
                if s.snapshots.len() > 0 {
                    assert(remaining_effects(s, ids) =~= seq![
                        RestoreActionView::CreateVolume(restore_volume_request_view(s.snapshots[0])),
                    ] + remaining_effects(t, ids));
                } else {
                    assert(remaining_effects(s, ids) =~= Seq::<RestoreActionView>::empty());
                    assert(t.phase == RestorePhase::Finished);
                }
            },
            RestorePhase::ReportingDetached => {
                assert(created_ids(es) =~= ids);
                if s.delete_attached_drives {
                    assert(remaining_effects(s, ids) =~= seq![
                        RestoreActionView::DeleteVolumes(delete_requests_view(s.volume_ids)),
                    ] + remaining_effects(t, ids));
                } else {
                    assert(remaining_effects(s, ids) =~= remaining_effects(t, ids));
                }
            },
            RestorePhase::CheckingVolume => {
                assert(created_ids(es) =~= ids);
                if t.phase == RestorePhase::Attaching {
                    assert(remaining_effects(s, ids) =~= seq![a] + remaining_effects(t, ids));
                }
            },
            _ => {
                assert(created_ids(es) =~= ids);
            },
        }
    }
}

/// What any finished restore does to the volumes, however many times it waits
/// for the detached volumes to report "ok" or for a new volume to be
/// "available": it takes the volume snapshots and the nodes from EC2's first
/// answers, detaches the nodes' volumes, deletes them if asked, then for each
/// volume snapshot in turn creates one volume from it and attaches it, under
/// the id that EC2 gave it, where the snapshot's tags say; it sends no other
/// request that changes a volume, EC2 reports exactly one new volume per
/// volume snapshot, and the last action reports the cluster restored.
pub proof fn lemma_finished_restore_effects(
    ip_addresses: Seq<Seq<char>>,
    snapshot_unique_id: Seq<char>,
    delete_attached_drives: bool,
    events: Seq<RestoreEventView>,
)
    requires
        restore_takes(restore_start(ip_addresses, snapshot_unique_id, delete_attached_drives), events),
        run_restore(restore_start(ip_addresses, snapshot_unique_id, delete_attached_drives), events).0.phase
            == RestorePhase::Finished,
    ensures
        events.len() >= 3,
        events[1] is SnapshotsDescribed,
        events[2] is InstancesDescribed,
        ({
            let start = restore_start(ip_addresses, snapshot_unique_id, delete_attached_drives);
            let snapshots = or_empty(events[1]->SnapshotsDescribed_0);
            let volume_ids = attached_volume_ids(or_empty(events[2]->InstancesDescribed_0));
            &&& or_empty(events[2]->InstancesDescribed_0).len() > 0
            &&& volume_effects(run_restore(start, events).1) == seq![
                RestoreActionView::DetachVolumes(detach_requests_view(volume_ids)),
            ] + (if delete_attached_drives {
                seq![RestoreActionView::DeleteVolumes(delete_requests_view(volume_ids))]
            } else {
                seq![]
            }) + restore_effects(snapshots, created_ids(events))
            &&& created_ids(events).len() == snapshots.len()
            &&& run_restore(start, events).1.last() == RestoreActionView::Finish(
                constants::CLUSTER_RESTORE_SUCCESS@,
            )
        }),
{
    let s0 = restore_start(ip_addresses, snapshot_unique_id, delete_attached_drives);
    assert(events.len() > 0);
    let s1 = restore_next(s0, events[0]).0;
    let r1 = events.drop_first();
    lemma_run_step(s0, events);
    assert(s1.phase == RestorePhase::DescribingSnapshots);
    assert(r1.len() > 0);
    assert(r1[0] == events[1]);
    let s2 = restore_next(s1, r1[0]).0;
    let r2 = r1.drop_first();
    lemma_run_step(s1, r1);
    assert(s2.phase == RestorePhase::DescribingInstances);
    assert(r2.len() > 0);
    assert(r2[0] == events[2]);
    let s3 = restore_next(s2, r2[0]).0;
    let r3 = r2.drop_first();
    lemma_run_step(s2, r2);
    let reservations = or_empty(events[2]->InstancesDescribed_0);
    if reservations.len() == 0 {
        assert(s3.phase == RestorePhase::Failed);
        if r3.len() > 0 {
            lemma_run_step(s3, r3);
            assert(!restore_accepts(s3, r3[0]));
        }
        assert(false);
    }
    assert(s3.phase == RestorePhase::Detaching);
    assert(s3.snapshots == or_empty(events[1]->SnapshotsDescribed_0));
    assert(restore_wf(s3));
    lemma_run_effects(s3, r3);
    let a0 = restore_next(s0, events[0]).1;
    let a1 = restore_next(s1, r1[0]).1;
    let a2 = restore_next(s2, r2[0]).1;
    let tail = run_restore(s3, r3).1;
    assert(run_restore(s0, events).1 == seq![a0] + (seq![a1] + (seq![a2] + tail)));
    lemma_volume_effects_cons(a2, tail);
    lemma_volume_effects_cons(a1, seq![a2] + tail);
    lemma_volume_effects_cons(a0, seq![a1] + (seq![a2] + tail));
    assert(created_ids(events) == created_ids(r1));
    assert(created_ids(r1) == created_ids(r2));
    assert(created_ids(r2) == created_ids(r3));
    if r3.len() == 0 {
        assert(s3.phase == RestorePhase::Finished);
    }
    assert((seq![a0] + (seq![a1] + (seq![a2] + tail))).last() == tail.last());
    let ids = created_ids(r3);
    assert(volume_effects(run_restore(s0, events).1) =~= seq![a2] + remaining_effects(s3, ids));
}

/// The requests of `restore_effects` one by one: for the `k`-th volume
/// snapshot, the create request at `2 * k` and the attach request, under the
/// `k`-th new id, right after it.
pub proof fn lemma_restore_effects_index(snapshots: Seq<SnapshotView>, new_ids: Seq<Seq<char>>)
    requires
        new_ids.len() >= snapshots.len(),
    ensures
        restore_effects(snapshots, new_ids).len() == 2 * snapshots.len(),
        forall|k: int|
            0 <= k < snapshots.len() ==> {
                &&& restore_effects(snapshots, new_ids)[2 * k] == RestoreActionView::CreateVolume(
                    restore_volume_request_view(#[trigger] snapshots[k]),
                )
                &&& restore_effects(snapshots, new_ids)[2 * k + 1] == RestoreActionView::AttachVolume(
                    attach_request_view(volume_restore_view(snapshots[k]), new_ids[k]),
                )
            },
    decreases snapshots.len(),
{
    if snapshots.len() > 0 {
        let rest = restore_effects(snapshots.drop_first(), new_ids.drop_first());
        let head = seq![
            RestoreActionView::CreateVolume(restore_volume_request_view(snapshots[0])),
            RestoreActionView::AttachVolume(attach_request_view(volume_restore_view(snapshots[0]), new_ids[0])),
        ];
        lemma_restore_effects_index(snapshots.drop_first(), new_ids.drop_first());
        assert(restore_effects(snapshots, new_ids) == head + rest);
        assert forall|k: int| 1 <= k < snapshots.len() implies {
            &&& restore_effects(snapshots, new_ids)[2 * k] == RestoreActionView::CreateVolume(
                restore_volume_request_view(#[trigger] snapshots[k]),
            )
            &&& restore_effects(snapshots, new_ids)[2 * k + 1] == RestoreActionView::AttachVolume(
                attach_request_view(volume_restore_view(snapshots[k]), new_ids[k]),
            )
        } by {
            assert(snapshots[k] == snapshots.drop_first()[k - 1]);
            assert(new_ids[k] == new_ids.drop_first()[k - 1]);
            assert(2 * k == 2 * (k - 1) + 2);
        }
    }
}

/// One step of a run, as the definitions of `run_restore` and
/// `restore_takes` give it.
proof fn lemma_run_step(s: RestoreRunView, es: Seq<RestoreEventView>)
    requires
        es.len() > 0,
    ensures
        run_restore(s, es).0 == (if es.drop_first().len() == 0 {
            restore_next(s, es[0]).0
        } else {
            run_restore(restore_next(s, es[0]).0, es.drop_first()).0
        }),
        run_restore(s, es).1 == seq![restore_next(s, es[0]).1] + run_restore(
            restore_next(s, es[0]).0,
            es.drop_first(),
        ).1,
        restore_takes(s, es) == (restore_wf(s) && restore_accepts(s, es[0]) && restore_takes(
            restore_next(s, es[0]).0,
            es.drop_first(),
        )),
{
    reveal_with_fuel(run_restore, 2);
}

} // verus!
