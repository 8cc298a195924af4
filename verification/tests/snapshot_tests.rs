use qsnap::constants;
use qsnap::ec2::{EbsInstanceBlockDevice, Instance, InstanceBlockDeviceMapping, Snapshot};
use qsnap::restore::{plan_volume_restore, restore_snapshot_filters, snapshot_is_restorable};
use qsnap::snapshot::{mapping_volume_id, snapshot_tag_specification, ClusterSnapshot};

fn mapping(device: &str, volume: &str) -> InstanceBlockDeviceMapping {
    InstanceBlockDeviceMapping {
        device_name: Some(device.to_string()),
        ebs: Some(EbsInstanceBlockDevice { volume_id: Some(volume.to_string()) }),
    }
}

#[test]
fn new_cluster_snapshot_has_a_haiku_id() {
    let c = ClusterSnapshot::new("nightly");
    assert_eq!(c.description, "nightly");
    let parts: Vec<&str> = c.unique_id.split('-').collect();
    assert_eq!(parts.len(), 3, "{}", c.unique_id);
    assert!(!parts[0].is_empty() && parts[0].chars().all(|ch| ch.is_ascii_lowercase()));
    assert!(!parts[1].is_empty() && parts[1].chars().all(|ch| ch.is_ascii_lowercase()));
    assert_eq!(parts[2].len(), 4);
    assert!(parts[2].chars().all(|ch| ch.is_ascii_digit()));
    assert!(haikunator::DEFAULT_ADJECTIVES.contains(&parts[0]));
    assert!(haikunator::DEFAULT_NOUNS.contains(&parts[1]));
}

#[test]
fn tags_in_order() {
    let spec = snapshot_tag_specification("uid", Some("/dev/xvdb".to_string()), Some("i-1".to_string()), Some("st1".to_string()));
    assert_eq!(spec.resource_type, Some("snapshot".to_string()));
    let tags = spec.tags.unwrap();
    let pairs: Vec<(String, Option<String>)> = tags.into_iter().map(|t| (t.key.unwrap(), t.value)).collect();
    assert_eq!(
        pairs,
        vec![
            ("qumulo-cluster-snapshot".to_string(), Some("true".to_string())),
            ("qumulo-snapshot-unique-id".to_string(), Some("uid".to_string())),
            ("qumulo-drive-mapping".to_string(), Some("/dev/xvdb".to_string())),
            ("qumulo-ec2-instance-id".to_string(), Some("i-1".to_string())),
            ("qumulo-drive-type".to_string(), Some("st1".to_string())),
        ]
    );
}

#[test]
fn volume_of_mapping() {
    assert_eq!(mapping_volume_id(&mapping("/dev/a", "vol-9")), "vol-9");
}

#[test]
fn snapshot_request_of_a_mapping() {
    let c = ClusterSnapshot { unique_id: "calm-lake-0007".to_string(), description: "before upgrade".to_string() };
    let i = Instance { instance_id: Some("i-42".to_string()), block_device_mappings: None };
    let r = c.create_snapshot_request(&i, &mapping("/dev/xvdc", "vol-3"), Some("gp2".to_string()));
    assert_eq!(r.description, Some("before upgrade".to_string()));
    assert_eq!(r.volume_id, "vol-3");
    let specs = r.tag_specifications.unwrap();
    assert_eq!(specs.len(), 1);
    assert_eq!(
        specs[0],
        snapshot_tag_specification("calm-lake-0007", Some("/dev/xvdc".to_string()), Some("i-42".to_string()), Some("gp2".to_string()))
    );
}

#[test]
fn restore_reads_back_the_snapshot_tags() {
    let c = ClusterSnapshot { unique_id: "calm-lake-0007".to_string(), description: "d".to_string() };
    let i = Instance { instance_id: Some("i-42".to_string()), block_device_mappings: None };
    let r = c.create_snapshot_request(&i, &mapping("/dev/xvdc", "vol-3"), Some("sc1".to_string()));
    let tags = r.tag_specifications.unwrap().remove(0).tags;
    let s = Snapshot { snapshot_id: Some("snap-1".to_string()), start_time: None, description: None, tags };
    assert!(snapshot_is_restorable(&s));
    let plan = plan_volume_restore(s);
    assert_eq!(plan.create_volume_request.volume_type, Some("sc1".to_string()));
    assert_eq!(plan.create_volume_request.snapshot_id, Some("snap-1".to_string()));
    assert_eq!(plan.create_volume_request.availability_zone, "us-west-2b");
    assert!(plan.is_attachable());
    let a = plan.attach_volume_request("vol-new".to_string());
    assert_eq!(a.device, "/dev/xvdc");
    assert_eq!(a.instance_id, "i-42");
    assert_eq!(a.volume_id, "vol-new");
}

#[test]
fn restored_volume_is_tagged() {
    let s = Snapshot {
        snapshot_id: Some("snap-1".to_string()),
        start_time: None,
        description: None,
        tags: snapshot_tag_specification("u", None, Some("i-1".to_string()), None).tags,
    };
    let plan = plan_volume_restore(s);
    let specs = plan.create_volume_request.tag_specifications.clone().unwrap();
    assert_eq!(specs[0].resource_type, Some("volume".to_string()));
    let t = &specs[0].tags.as_ref().unwrap()[0];
    assert_eq!(t.key, Some(constants::EBS_RESTORE_VOLUME_TAG_KEY.to_string()));
    assert_eq!(t.value, Some("true".to_string()));
    assert_eq!(plan.device_name, None);
    assert!(!plan.is_attachable());
}

#[test]
fn snapshot_without_tags_is_not_restorable() {
    let s = Snapshot { snapshot_id: None, start_time: None, description: None, tags: None };
    assert!(!snapshot_is_restorable(&s));
}

#[test]
fn restore_filters() {
    let f = restore_snapshot_filters("quiet-moon-0042");
    assert_eq!(f.len(), 2);
    assert_eq!(f[0].name, Some("tag:qumulo-snapshot-unique-id".to_string()));
    assert_eq!(f[0].values, Some(vec!["quiet-moon-0042".to_string()]));
    assert_eq!(f[1].name, Some("tag-key".to_string()));
    assert_eq!(f[1].values, Some(vec!["qumulo-cluster-snapshot".to_string()]));
}
