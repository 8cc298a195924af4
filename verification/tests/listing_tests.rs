use qsnap::constants;
use qsnap::ec2::{EbsInstanceBlockDevice, InstanceBlockDeviceMapping, Snapshot, Tag};
use qsnap::listing::{
    list_snapshot_descriptions, list_snapshot_filters, snapshot_table_rows, snapshots_are_listable, volume_ids_of_mappings,
};
use qsnap::snapshot_description::SnapshotDescription;

fn tag(k: &str, v: &str) -> Tag {
    Tag { key: Some(k.to_string()), value: Some(v.to_string()) }
}

fn snapshot(start: &str, description: &str, unique_id: &str) -> Snapshot {
    Snapshot {
        snapshot_id: Some(format!("snap-{}", start)),
        start_time: Some(start.to_string()),
        description: Some(description.to_string()),
        tags: Some(vec![
            tag(constants::EBS_SNAPSHOT_QUMULO_TAG_KEY, "true"),
            tag(constants::EBS_SNAPSHOT_UNIQUE_ID_TAG_KEY, unique_id),
        ]),
    }
}

#[test]
fn volume_ids_skip_devices_without_volume() {
    let ms = vec![
        InstanceBlockDeviceMapping { device_name: Some("/dev/a".to_string()), ebs: Some(EbsInstanceBlockDevice { volume_id: Some("vol-1".to_string()) }) },
        InstanceBlockDeviceMapping { device_name: Some("/dev/b".to_string()), ebs: None },
        InstanceBlockDeviceMapping { device_name: Some("/dev/c".to_string()), ebs: Some(EbsInstanceBlockDevice { volume_id: None }) },
        InstanceBlockDeviceMapping { device_name: None, ebs: Some(EbsInstanceBlockDevice { volume_id: Some("vol-2".to_string()) }) },
    ];
    assert_eq!(volume_ids_of_mappings(ms), vec!["vol-1".to_string(), "vol-2".to_string()]);
}

#[test]
fn listing_filters() {
    let f = list_snapshot_filters(vec!["vol-1".to_string()]);
    assert_eq!(f.len(), 2);
    assert_eq!(f[0].name, Some("volume-id".to_string()));
    assert_eq!(f[0].values, Some(vec!["vol-1".to_string()]));
    assert_eq!(f[1].name, Some("tag-key".to_string()));
    assert_eq!(f[1].values, Some(vec!["qumulo-cluster-snapshot".to_string()]));
}

#[test]
fn one_line_per_unique_id() {
    let snaps = vec![
        snapshot("t1", "first", "autumn-river-0001"),
        snapshot("t2", "first again", "autumn-river-0001"),
        snapshot("t3", "second", "quiet-moon-0042"),
    ];
    let ds = list_snapshot_descriptions(Some(snaps)).ok().unwrap();
    assert!(
        ds == vec![
            SnapshotDescription {
                snapshot_start_time: "t1".to_string(),
                qumulo_unique_id: "autumn-river-0001".to_string(),
                snapshot_description: "first".to_string(),
            },
            SnapshotDescription {
                snapshot_start_time: "t3".to_string(),
                qumulo_unique_id: "quiet-moon-0042".to_string(),
                snapshot_description: "second".to_string(),
            },
        ]
    );
    let shown: Vec<String> = ds.iter().map(|d| d.to_display_string()).collect();
    assert_eq!(shown, vec!["t1 - autumn-river-0001 - first", "t3 - quiet-moon-0042 - second"]);
}

#[test]
fn snapshots_without_unique_id_are_not_listed() {
    let mut s = snapshot("t1", "d", "x");
    s.tags = Some(vec![tag(constants::EBS_SNAPSHOT_QUMULO_TAG_KEY, "true")]);
    assert!(list_snapshot_descriptions(Some(vec![s])).ok().unwrap().is_empty());
    assert!(list_snapshot_descriptions(Some(vec![])).ok().unwrap().is_empty());
}

#[test]
fn no_snapshot_list_is_an_error() {
    let e = match list_snapshot_descriptions(None) {
        Ok(_) => panic!("a missing snapshot list must be an error"),
        Err(e) => e,
    };
    assert_eq!(e.description(), constants::EC2_SNAPSHOTS_NOT_FOUND_ERROR);
}

#[test]
fn table_has_header_and_rows() {
    let ds = vec![SnapshotDescription {
        snapshot_start_time: "t1".to_string(),
        qumulo_unique_id: "id".to_string(),
        snapshot_description: "d".to_string(),
    }];
    let rows = snapshot_table_rows(&ds);
    assert_eq!(rows.len(), 2);
    assert_eq!(rows[0], vec!["Created Time", "Unique Identifier Tag", "Description"]);
    assert_eq!(rows[1], vec!["t1", "id", "d"]);
}

#[test]
fn listable_answers() {
    assert!(snapshots_are_listable(&None));
    assert!(snapshots_are_listable(&Some(vec![snapshot("t", "d", "u")])));
    let mut no_time = snapshot("t", "d", "u");
    no_time.start_time = None;
    assert!(!snapshots_are_listable(&Some(vec![no_time])));
    let mut bad_tag = snapshot("t", "d", "u");
    bad_tag.tags = Some(vec![Tag { key: None, value: Some("v".to_string()) }]);
    assert!(!snapshots_are_listable(&Some(vec![snapshot("t", "d", "u"), bad_tag])));
}
