use qsnap::constants;
use qsnap::ec2::{
    EbsInstanceBlockDevice, Instance, InstanceBlockDeviceMapping, Reservation, Snapshot, Volume, VolumeStatusInfo,
    VolumeStatusItem,
};
use qsnap::restore_run::{RestoreAction, RestoreEvent, RestorePhase, RestoreRun};
use qsnap::snapshot::{snapshot_tag_specification, ClusterSnapshot};
use qsnap::snapshot_run::{SnapshotAction, SnapshotEvent, SnapshotPhase, SnapshotRun};

fn mapping(device: &str, volume: &str) -> InstanceBlockDeviceMapping {
    InstanceBlockDeviceMapping {
        device_name: Some(device.to_string()),
        ebs: Some(EbsInstanceBlockDevice { volume_id: Some(volume.to_string()) }),
    }
}

fn instance(id: &str, mappings: Vec<InstanceBlockDeviceMapping>) -> Instance {
    Instance { instance_id: Some(id.to_string()), block_device_mappings: Some(mappings) }
}

fn cluster() -> Vec<Reservation> {
    vec![Reservation {
        instances: Some(vec![
            instance("i-1", vec![mapping("/dev/xvda", "vol-a"), mapping("/dev/xvdb", "vol-b")]),
            instance("i-2", vec![mapping("/dev/xvda", "vol-c")]),
        ]),
    }]
}

fn status(s: &str) -> VolumeStatusItem {
    VolumeStatusItem { volume_status: Some(VolumeStatusInfo { status: Some(s.to_string()) }) }
}

fn volume(state: &str) -> Volume {
    Volume { state: Some(state.to_string()), volume_type: None }
}

fn volume_snapshot(id: &str, device: &str, instance_id: &str, volume_type: &str) -> Snapshot {
    Snapshot {
        snapshot_id: Some(id.to_string()),
        start_time: Some("t".to_string()),
        description: Some("d".to_string()),
        tags: snapshot_tag_specification(
            "calm-lake-0007",
            Some(device.to_string()),
            Some(instance_id.to_string()),
            Some(volume_type.to_string()),
        )
        .tags,
    }
}

fn step(run: &mut RestoreRun, event: RestoreEvent) -> RestoreAction {
    assert!(run.accepts(&event), "{:?} in {:?}", event, run.phase());
    run.step(event)
}

fn detach_and_wait(run: &mut RestoreRun) {
    match step(run, RestoreEvent::Done) {
        RestoreAction::DescribeSnapshots(f) => {
            assert_eq!(f[0].values, Some(vec!["calm-lake-0007".to_string()]));
        },
        a => panic!("{:?}", a),
    }
    let snaps = vec![volume_snapshot("snap-1", "/dev/xvda", "i-1", "st1"), volume_snapshot("snap-2", "/dev/xvdb", "i-1", "gp2")];
    match step(run, RestoreEvent::SnapshotsDescribed(Some(snaps))) {
        RestoreAction::DescribeInstances(f) => {
            assert_eq!(f[0].values, Some(vec!["10.0.0.1".to_string(), "10.0.0.2".to_string()]));
        },
        a => panic!("{:?}", a),
    }
    match step(run, RestoreEvent::InstancesDescribed(Some(cluster()))) {
        RestoreAction::DetachVolumes(rs) => {
            let ids: Vec<String> = rs.iter().map(|r| r.volume_id.clone()).collect();
            assert_eq!(ids, vec!["vol-a", "vol-b", "vol-c"]);
            assert!(rs.iter().all(|r| r.force == Some(true)));
        },
        a => panic!("{:?}", a),
    }
    match step(run, RestoreEvent::Done) {
        RestoreAction::DescribeVolumeStatuses(ids) => assert_eq!(ids, vec!["vol-a", "vol-b", "vol-c"]),
        a => panic!("{:?}", a),
    }
    match step(run, RestoreEvent::VolumeStatuses(Some(vec![status("ok"), status("impaired"), status("ok")]))) {
        RestoreAction::Wait(1) => {},
        a => panic!("{:?}", a),
    }
    assert!(matches!(step(run, RestoreEvent::Done), RestoreAction::DescribeVolumeStatuses(_)));
    match step(run, RestoreEvent::VolumeStatuses(Some(vec![status("ok"), status("ok"), status("ok")]))) {
        RestoreAction::Report(m) => assert_eq!(m, constants::VOLUMES_DETATCHED_MESSAGE),
        a => panic!("{:?}", a),
    }
}

fn restore_volumes(run: &mut RestoreRun) {
    match step(run, RestoreEvent::Done) {
        RestoreAction::CreateVolume(r) => {
            assert_eq!(r.snapshot_id, Some("snap-1".to_string()));
            assert_eq!(r.volume_type, Some("st1".to_string()));
            assert_eq!(r.availability_zone, "us-west-2b");
        },
        a => panic!("{:?}", a),
    }
    match step(run, RestoreEvent::VolumeCreated(Some("vol-n1".to_string()))) {
        RestoreAction::DescribeVolumes(ids) => assert_eq!(ids, vec!["vol-n1"]),
        a => panic!("{:?}", a),
    }
    assert!(matches!(step(run, RestoreEvent::Volumes(Some(vec![volume("creating")]))), RestoreAction::Wait(1)));
    assert!(matches!(step(run, RestoreEvent::Done), RestoreAction::DescribeVolumes(_)));
    match step(run, RestoreEvent::Volumes(Some(vec![volume("available")]))) {
        RestoreAction::AttachVolume(r) => {
            assert_eq!(r.device, "/dev/xvda");
            assert_eq!(r.instance_id, "i-1");
            assert_eq!(r.volume_id, "vol-n1");
        },
        a => panic!("{:?}", a),
    }
    match step(run, RestoreEvent::Done) {
        RestoreAction::CreateVolume(r) => {
            assert_eq!(r.snapshot_id, Some("snap-2".to_string()));
            assert_eq!(r.volume_type, Some("gp2".to_string()));
        },
        a => panic!("{:?}", a),
    }
    assert!(matches!(step(run, RestoreEvent::VolumeCreated(Some("vol-n2".to_string()))), RestoreAction::DescribeVolumes(_)));
    match step(run, RestoreEvent::Volumes(Some(vec![volume("available")]))) {
        RestoreAction::AttachVolume(r) => {
            assert_eq!(r.device, "/dev/xvdb");
            assert_eq!(r.volume_id, "vol-n2");
        },
        a => panic!("{:?}", a),
    }
    match step(run, RestoreEvent::Done) {
        RestoreAction::Finish(m) => assert_eq!(m, constants::CLUSTER_RESTORE_SUCCESS),
        a => panic!("{:?}", a),
    }
    assert!(run.is_over());
    assert_eq!(run.phase(), RestorePhase::Finished);
    assert!(!run.accepts(&RestoreEvent::Done));
}

fn ips() -> Vec<String> {
    vec!["10.0.0.1".to_string(), "10.0.0.2".to_string()]
}

#[test]
fn restore_deleting_old_volumes() {
    let mut run = RestoreRun::new(ips(), "calm-lake-0007".to_string(), true);
    detach_and_wait(&mut run);
    match step(&mut run, RestoreEvent::Done) {
        RestoreAction::DeleteVolumes(rs) => {
            let ids: Vec<String> = rs.into_iter().map(|r| r.volume_id).collect();
            assert_eq!(ids, vec!["vol-a", "vol-b", "vol-c"]);
        },
        a => panic!("{:?}", a),
    }
    match step(&mut run, RestoreEvent::Done) {
        RestoreAction::Report(m) => assert_eq!(m, constants::VOLUMES_DELETED_MESSAGE),
        a => panic!("{:?}", a),
    }
    match step(&mut run, RestoreEvent::Done) {
        RestoreAction::StartProgress(m) => assert_eq!(m, constants::WAITING_FOR_VOLUMES_MESSAGE),
        a => panic!("{:?}", a),
    }
    restore_volumes(&mut run);
}

#[test]
fn restore_keeping_old_volumes() {
    let mut run = RestoreRun::new(ips(), "calm-lake-0007".to_string(), false);
    detach_and_wait(&mut run);
    match step(&mut run, RestoreEvent::Done) {
        RestoreAction::StartProgress(m) => assert_eq!(m, constants::WAITING_FOR_VOLUMES_MESSAGE),
        a => panic!("{:?}", a),
    }
    restore_volumes(&mut run);
}

#[test]
fn restore_without_instances_fails() {
    let mut run = RestoreRun::new(ips(), "u".to_string(), true);
    step(&mut run, RestoreEvent::Done);
    step(&mut run, RestoreEvent::SnapshotsDescribed(None));
    match step(&mut run, RestoreEvent::InstancesDescribed(Some(vec![]))) {
        RestoreAction::Fail(e) => assert_eq!(e.description(), constants::EC2_INSTANCES_NOT_FOUND),
        a => panic!("{:?}", a),
    }
    assert!(run.is_over());
    assert_eq!(run.phase(), RestorePhase::Failed);
}

#[test]
fn restore_without_snapshots_finishes() {
    let mut run = RestoreRun::new(ips(), "u".to_string(), false);
    step(&mut run, RestoreEvent::Done);
    step(&mut run, RestoreEvent::SnapshotsDescribed(None));
    step(&mut run, RestoreEvent::InstancesDescribed(Some(cluster())));
    step(&mut run, RestoreEvent::Done);
    assert!(matches!(step(&mut run, RestoreEvent::VolumeStatuses(None)), RestoreAction::Report(_)));
    assert!(matches!(step(&mut run, RestoreEvent::Done), RestoreAction::StartProgress(_)));
    assert!(matches!(step(&mut run, RestoreEvent::Done), RestoreAction::Finish(_)));
}

#[test]
fn restore_refuses_unexpected_events() {
    let mut run = RestoreRun::new(ips(), "u".to_string(), false);
    assert!(!run.accepts(&RestoreEvent::VolumeCreated(Some("v".to_string()))));
    step(&mut run, RestoreEvent::Done);
    assert!(!run.accepts(&RestoreEvent::Done));
    step(&mut run, RestoreEvent::SnapshotsDescribed(Some(vec![Snapshot { snapshot_id: None, start_time: None, description: None, tags: None }])));
    assert!(!run.accepts(&RestoreEvent::InstancesDescribed(None)));
    assert!(!run.accepts(&RestoreEvent::InstancesDescribed(Some(vec![Reservation { instances: None }]))));
    step(&mut run, RestoreEvent::InstancesDescribed(Some(cluster())));
    step(&mut run, RestoreEvent::Done);
    assert!(!run.accepts(&RestoreEvent::VolumeStatuses(Some(vec![VolumeStatusItem { volume_status: None }]))));
    step(&mut run, RestoreEvent::VolumeStatuses(Some(vec![])));
    step(&mut run, RestoreEvent::Done);
    // The only snapshot has no tags: the restore cannot go on from here.
    assert!(!run.accepts(&RestoreEvent::Done));
}

#[test]
fn snapshot_run_over_two_nodes() {
    let c = ClusterSnapshot { unique_id: "calm-lake-0007".to_string(), description: "nightly".to_string() };
    let mut run = SnapshotRun::new(ips(), c);
    assert_eq!(run.unique_id(), "calm-lake-0007");
    let mut step = |run: &mut SnapshotRun, e: SnapshotEvent| {
        assert!(run.accepts(&e), "{:?} in {:?}", e, run.phase());
        run.step(e)
    };
    match step(&mut run, SnapshotEvent::Done) {
        SnapshotAction::DescribeInstances(f) => assert_eq!(f[0].name, Some("private-ip-address".to_string())),
        a => panic!("{:?}", a),
    }
    let mut expected = vec![("vol-a", "/dev/xvda", "i-1", "st1"), ("vol-b", "/dev/xvdb", "i-1", "gp2")];
    let mut action = step(&mut run, SnapshotEvent::InstancesDescribed(Some(cluster())));
    for node in ["i-1", "i-2"].iter() {
        for (vol, device, iid, vtype) in expected.drain(..) {
            match action {
                SnapshotAction::DescribeVolumes(f) => assert_eq!(f[0].values, Some(vec![vol.to_string()])),
                a => panic!("{:?}", a),
            }
            let v = Volume { state: None, volume_type: Some(vtype.to_string()) };
            match step(&mut run, SnapshotEvent::VolumesDescribed(Some(vec![v]))) {
                SnapshotAction::CreateSnapshot(r) => {
                    assert_eq!(r.volume_id, vol);
                    assert_eq!(r.description, Some("nightly".to_string()));
                    let specs = r.tag_specifications.unwrap();
                    assert_eq!(
                        specs[0],
                        snapshot_tag_specification(
                            "calm-lake-0007",
                            Some(device.to_string()),
                            Some(iid.to_string()),
                            Some(vtype.to_string())
                        )
                    );
                },
                a => panic!("{:?}", a),
            }
            action = step(&mut run, SnapshotEvent::Done);
        }
        match action {
            SnapshotAction::Report(m) => assert_eq!(m, format!("Snapshotted node id: {}", node)),
            a => panic!("{:?}", a),
        }
        expected = vec![("vol-c", "/dev/xvda", "i-2", "io1")];
        action = step(&mut run, SnapshotEvent::Done);
    }
    assert!(matches!(action, SnapshotAction::Finish));
    assert!(run.is_over());
    assert_eq!(run.phase(), SnapshotPhase::Finished);
}

#[test]
fn snapshot_run_without_instances_finishes() {
    let c = ClusterSnapshot { unique_id: "u".to_string(), description: "d".to_string() };
    let mut run = SnapshotRun::new(ips(), c);
    run.step(SnapshotEvent::Done);
    let e = SnapshotEvent::InstancesDescribed(Some(vec![Reservation { instances: Some(vec![]) }]));
    assert!(run.accepts(&e));
    assert!(matches!(run.step(e), SnapshotAction::Finish));
}

#[test]
fn snapshot_run_node_without_devices_is_reported() {
    let c = ClusterSnapshot { unique_id: "u".to_string(), description: "d".to_string() };
    let mut run = SnapshotRun::new(ips(), c);
    run.step(SnapshotEvent::Done);
    let i = Instance { instance_id: Some("i-9".to_string()), block_device_mappings: None };
    let e = SnapshotEvent::InstancesDescribed(Some(vec![Reservation { instances: Some(vec![i]) }]));
    assert!(run.accepts(&e));
    match run.step(e) {
        SnapshotAction::Report(m) => assert_eq!(m, "Snapshotted node id: i-9"),
        a => panic!("{:?}", a),
    }
}

#[test]
fn snapshot_run_refuses_unreadable_answers() {
    let c = ClusterSnapshot { unique_id: "u".to_string(), description: "d".to_string() };
    let mut run = SnapshotRun::new(ips(), c);
    run.step(SnapshotEvent::Done);
    let no_id = Instance { instance_id: None, block_device_mappings: Some(vec![]) };
    assert!(!run.accepts(&SnapshotEvent::InstancesDescribed(Some(vec![Reservation { instances: Some(vec![no_id]) }]))));
    let no_volume = Instance {
        instance_id: Some("i".to_string()),
        block_device_mappings: Some(vec![InstanceBlockDeviceMapping { device_name: None, ebs: None }]),
    };
    assert!(!run.accepts(&SnapshotEvent::InstancesDescribed(Some(vec![Reservation { instances: Some(vec![no_volume]) }]))));
    assert!(!run.accepts(&SnapshotEvent::InstancesDescribed(None)));
    run.step(SnapshotEvent::InstancesDescribed(Some(cluster())));
    assert!(!run.accepts(&SnapshotEvent::VolumesDescribed(Some(vec![]))));
    assert!(!run.accepts(&SnapshotEvent::VolumesDescribed(None)));
}

fn snapshot_requests_of_a_run(unique_id: &str, description: &str) -> Vec<qsnap::ec2::CreateSnapshotRequest> {
    let c = ClusterSnapshot { unique_id: unique_id.to_string(), description: description.to_string() };
    let mut run = SnapshotRun::new(ips(), c);
    let mut requests = Vec::new();
    let mut action = run.step(SnapshotEvent::Done);
    let mut event = SnapshotEvent::InstancesDescribed(Some(cluster()));
    loop {
        match action {
            SnapshotAction::Finish => break,
            _ => {},
        }
        assert!(run.accepts(&event));
        action = run.step(event);
        event = match &action {
            SnapshotAction::DescribeVolumes(_) => {
                SnapshotEvent::VolumesDescribed(Some(vec![Volume { state: None, volume_type: Some("st1".to_string()) }]))
            },
            SnapshotAction::CreateSnapshot(r) => {
                requests.push(r.clone());
                SnapshotEvent::Done
            },
            _ => SnapshotEvent::Done,
        };
    }
    requests
}

#[test]
fn restore_after_snapshot_run_puts_volumes_back() {
    let requests = snapshot_requests_of_a_run("calm-lake-0007", "nightly");
    assert_eq!(requests.len(), 3);
    let snaps: Vec<Snapshot> = requests
        .iter()
        .enumerate()
        .map(|(k, r)| Snapshot {
            snapshot_id: Some(format!("snap-{}", k)),
            start_time: Some("t".to_string()),
            description: r.description.clone(),
            tags: r.tag_specifications.clone().unwrap()[0].tags.clone(),
        })
        .collect();
    let mut run = RestoreRun::new(ips(), "calm-lake-0007".to_string(), false);
    step(&mut run, RestoreEvent::Done);
    step(&mut run, RestoreEvent::SnapshotsDescribed(Some(snaps)));
    step(&mut run, RestoreEvent::InstancesDescribed(Some(cluster())));
    step(&mut run, RestoreEvent::Done);
    step(&mut run, RestoreEvent::VolumeStatuses(Some(vec![status("ok"), status("ok"), status("ok")])));
    step(&mut run, RestoreEvent::Done);
    let mut attached = Vec::new();
    let mut created = 0;
    let mut k = 0;
    loop {
        match step(&mut run, RestoreEvent::Done) {
            RestoreAction::CreateVolume(r) => {
                assert_eq!(r.snapshot_id, Some(format!("snap-{}", k)));
                assert_eq!(r.volume_type, Some("st1".to_string()));
                created += 1;
            },
            RestoreAction::Finish(m) => {
                assert_eq!(m, constants::CLUSTER_RESTORE_SUCCESS);
                break;
            },
            a => panic!("{:?}", a),
        }
        step(&mut run, RestoreEvent::VolumeCreated(Some(format!("vol-new-{}", k))));
        match step(&mut run, RestoreEvent::Volumes(Some(vec![volume("available")]))) {
            RestoreAction::AttachVolume(r) => attached.push((r.instance_id, r.device, r.volume_id)),
            a => panic!("{:?}", a),
        }
        k += 1;
    }
    assert_eq!(created, 3);
    assert_eq!(
        attached,
        vec![
            ("i-1".to_string(), "/dev/xvda".to_string(), "vol-new-0".to_string()),
            ("i-1".to_string(), "/dev/xvdb".to_string(), "vol-new-1".to_string()),
            ("i-2".to_string(), "/dev/xvda".to_string(), "vol-new-2".to_string()),
        ]
    );
}

#[test]
fn listing_after_snapshot_run_shows_it_once() {
    let requests = snapshot_requests_of_a_run("calm-lake-0007", "nightly");
    let mut snaps: Vec<Snapshot> = requests
        .iter()
        .map(|r| Snapshot {
            snapshot_id: None,
            start_time: Some("t".to_string()),
            description: r.description.clone(),
            tags: r.tag_specifications.clone().unwrap()[0].tags.clone(),
        })
        .collect();
    snaps.insert(1, volume_snapshot("snap-other", "/dev/xvdz", "i-9", "gp2"));
    snaps[1].tags.as_mut().unwrap()[1].value = Some("other-run-0001".to_string());
    let listing = qsnap::listing::list_snapshot_descriptions(Some(snaps)).ok().unwrap();
    let ours: Vec<_> = listing.iter().filter(|d| d.qumulo_unique_id == "calm-lake-0007").collect();
    assert_eq!(ours.len(), 1);
    assert_eq!(ours[0].snapshot_description, "nightly");
    assert_eq!(listing.len(), 2);
}

#[test]
fn restore_that_waits_after_snapshot_run_puts_volumes_back() {
    let c = ClusterSnapshot { unique_id: "calm-lake-0007".to_string(), description: "nightly".to_string() };
    let mut snapshot = SnapshotRun::new(ips(), c);
    let types = ["st1", "gp2", "io1"];
    let mut requests = Vec::new();
    let mut action = snapshot.step(SnapshotEvent::Done);
    let mut event = SnapshotEvent::InstancesDescribed(Some(cluster()));
    loop {
        if matches!(action, SnapshotAction::Finish) {
            break;
        }
        assert!(snapshot.accepts(&event));
        action = snapshot.step(event);
        event = match &action {
            SnapshotAction::DescribeVolumes(_) => {
                let t = types[requests.len()].to_string();
                SnapshotEvent::VolumesDescribed(Some(vec![Volume { state: None, volume_type: Some(t) }]))
            },
            SnapshotAction::CreateSnapshot(r) => {
                requests.push(r.clone());
                SnapshotEvent::Done
            },
            _ => SnapshotEvent::Done,
        };
    }
    assert_eq!(requests.len(), 3);
    let snaps: Vec<Snapshot> = requests
        .iter()
        .enumerate()
        .map(|(k, r)| Snapshot {
            snapshot_id: Some(format!("snap-{}", k)),
            start_time: Some("t".to_string()),
            description: r.description.clone(),
            tags: r.tag_specifications.clone().unwrap()[0].tags.clone(),
        })
        .collect();
    let mut run = RestoreRun::new(ips(), "calm-lake-0007".to_string(), true);
    let mut effects: Vec<String> = Vec::new();
    let mut created = 0;
    let mut status_looks = 0;
    let mut volume_looks = 0;
    let mut event = RestoreEvent::Done;
    loop {
        let action = step(&mut run, event);
        event = match action {
            RestoreAction::DescribeSnapshots(_) => RestoreEvent::SnapshotsDescribed(Some(snaps.clone())),
            RestoreAction::DescribeInstances(_) => RestoreEvent::InstancesDescribed(Some(cluster())),
            RestoreAction::DetachVolumes(rs) => {
                effects.push(format!("detach {}", rs.len()));
                RestoreEvent::Done
            },
            RestoreAction::DescribeVolumeStatuses(_) => {
                status_looks += 1;
                let s = if status_looks < 3 { "impaired" } else { "ok" };
                RestoreEvent::VolumeStatuses(Some(vec![status("ok"), status(s), status("ok")]))
            },
            RestoreAction::DeleteVolumes(rs) => {
                effects.push(format!("delete {}", rs.len()));
                RestoreEvent::Done
            },
            RestoreAction::CreateVolume(r) => {
                effects.push(format!("create {} {}", r.snapshot_id.unwrap(), r.volume_type.unwrap()));
                created += 1;
                RestoreEvent::VolumeCreated(Some(format!("vol-new-{}", created)))
            },
            RestoreAction::DescribeVolumes(_) => {
                volume_looks += 1;
                let s = if volume_looks % 3 == 0 { "available" } else { "creating" };
                RestoreEvent::Volumes(Some(vec![volume(s)]))
            },
            RestoreAction::AttachVolume(r) => {
                effects.push(format!("attach {} {} {}", r.volume_id, r.instance_id, r.device));
                RestoreEvent::Done
            },
            RestoreAction::Wait(n) => {
                assert_eq!(n, 1);
                RestoreEvent::Done
            },
            RestoreAction::Report(_) | RestoreAction::StartProgress(_) => RestoreEvent::Done,
            RestoreAction::Finish(m) => {
                assert_eq!(m, constants::CLUSTER_RESTORE_SUCCESS);
                break;
            },
            a => panic!("{:?}", a),
        };
    }
    assert!(run.is_over());
    assert_eq!(status_looks, 3);
    assert_eq!(volume_looks, 9);
    assert_eq!(
        effects,
        vec![
            "detach 3",
            "delete 3",
            "create snap-0 st1",
            "attach vol-new-1 i-1 /dev/xvda",
            "create snap-1 gp2",
            "attach vol-new-2 i-1 /dev/xvdb",
            "create snap-2 io1",
            "attach vol-new-3 i-2 /dev/xvda",
        ]
    );
}
