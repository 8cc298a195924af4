use qsnap::constants;
use qsnap::ec2::{Tag, Volume, VolumeStatusInfo, VolumeStatusItem};
use qsnap::qsnaperror::QsnapError;
use qsnap::region::Region;
use qsnap::snapshot_description::SnapshotDescription;
use qsnap::util::{
    all_volumes_in_state, check_all_volumes_for_state, check_all_volumes_for_status, get_region_from_user_input,
    get_tag_value, has_tag, statuses_are_readable,
};

fn status(s: Option<&str>) -> VolumeStatusItem {
    VolumeStatusItem { volume_status: Some(VolumeStatusInfo { status: s.map(|x| x.to_string()) }) }
}

fn volume(state: Option<&str>) -> Volume {
    Volume { state: state.map(|x| x.to_string()), volume_type: None }
}

fn tag(k: Option<&str>, v: Option<&str>) -> Tag {
    Tag { key: k.map(|x| x.to_string()), value: v.map(|x| x.to_string()) }
}

#[test]
fn error_keeps_its_message() {
    let e = QsnapError::new("something failed");
    assert_eq!(e.description(), "something failed");
    assert_eq!(e.to_display_string(), "something failed");
}

#[test]
fn snapshot_description_is_shown_with_dashes() {
    let d = SnapshotDescription {
        snapshot_start_time: "2019-05-01".to_string(),
        qumulo_unique_id: "autumn-river-1234".to_string(),
        snapshot_description: "First snap".to_string(),
    };
    assert_eq!(d.to_display_string(), "2019-05-01 - autumn-river-1234 - First snap");
}

#[test]
fn all_statuses_ok() {
    assert!(check_all_volumes_for_status(vec![status(Some("ok")), status(Some("ok"))], "ok"));
}

#[test]
fn one_status_impaired() {
    assert!(!check_all_volumes_for_status(vec![status(Some("ok")), status(Some("impaired"))], "ok"));
    assert!(!check_all_volumes_for_status(vec![status(None)], "ok"));
}

#[test]
fn no_status_is_all_ok() {
    assert!(check_all_volumes_for_status(vec![], "ok"));
}

#[test]
fn status_check_stops_at_first_mismatch() {
    // The entry after the mismatch has no summary; it is never read.
    let items = vec![status(Some("impaired")), VolumeStatusItem { volume_status: None }];
    assert!(statuses_are_readable(&items, "ok"));
    assert!(!check_all_volumes_for_status(items, "ok"));
}

#[test]
fn missing_summary_before_mismatch_is_unreadable() {
    let items = vec![status(Some("ok")), VolumeStatusItem { volume_status: None }];
    assert!(!statuses_are_readable(&items, "ok"));
}

#[test]
fn volume_states() {
    assert!(check_all_volumes_for_state(vec![volume(Some("available"))], "available"));
    assert!(!check_all_volumes_for_state(vec![volume(Some("available")), volume(Some("creating"))], "available"));
    assert!(!check_all_volumes_for_state(vec![volume(None)], "available"));
    assert!(check_all_volumes_for_state(vec![], "available"));
    assert!(all_volumes_in_state(&vec![volume(Some("in-use"))], "in-use"));
}

#[test]
fn region_names_parse() {
    assert_eq!(get_region_from_user_input("us-west-2").unwrap(), Region::UsWest2);
    assert_eq!(get_region_from_user_input("eu-north-1").unwrap(), Region::EuNorth1);
    assert_eq!(get_region_from_user_input("us-gov-west-1").unwrap(), Region::UsGovWest1);
}

#[test]
fn unknown_region_is_an_error() {
    let e = get_region_from_user_input("mars-central-1").unwrap_err();
    assert_eq!(e.description(), constants::UNKNOWN_REGION_ERROR);
    assert!(get_region_from_user_input("US-WEST-2").is_err());
    assert!(get_region_from_user_input("").is_err());
}

#[test]
fn every_region_name_parses_back() {
    let all = [
        Region::UsWest1, Region::UsWest2, Region::UsEast1, Region::UsEast2, Region::ApEast1,
        Region::ApSouth1, Region::ApNortheast1, Region::ApNortheast2, Region::ApSoutheast1,
        Region::ApSoutheast2, Region::CaCentral1, Region::CnNorth1, Region::CnNorthwest1,
        Region::EuCentral1, Region::EuWest1, Region::EuWest2, Region::EuWest3, Region::EuNorth1,
        Region::SaEast1, Region::UsGovEast1, Region::UsGovWest1,
    ];
    for r in all.iter() {
        assert_eq!(get_region_from_user_input(r.name()).unwrap(), *r);
    }
    assert_eq!(Region::ApSoutheast2.name(), "ap-southeast-2");
}

#[test]
fn tag_value_of_first_matching_tag() {
    let tags = vec![tag(Some("a"), Some("1")), tag(None, Some("x")), tag(Some("b"), Some("2")), tag(Some("b"), Some("3"))];
    assert_eq!(get_tag_value(&tags, "b"), Some("2".to_string()));
    assert_eq!(get_tag_value(&tags, "a"), Some("1".to_string()));
    assert!(has_tag(&tags, "b"));
    assert!(!has_tag(&tags, "c"));
}

#[test]
fn tag_without_value() {
    let tags = vec![tag(Some("k"), None)];
    assert_eq!(get_tag_value(&tags, "k"), None);
}
