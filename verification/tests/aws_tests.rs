use qsnap::aws::{
    delete_volume_requests, detach_volume_requests, get_ebs_volume_mappings, get_instances_by_ip_address,
    private_ip_filters, reservations_are_complete, volume_id_filters, get_volume_type,
};
use qsnap::constants;
use qsnap::ec2::{EbsInstanceBlockDevice, Instance, InstanceBlockDeviceMapping, Reservation, Volume};

fn mapping(device: &str, volume: &str) -> InstanceBlockDeviceMapping {
    InstanceBlockDeviceMapping {
        device_name: Some(device.to_string()),
        ebs: Some(EbsInstanceBlockDevice { volume_id: Some(volume.to_string()) }),
    }
}

fn instance(id: &str, mappings: Vec<InstanceBlockDeviceMapping>) -> Instance {
    Instance { instance_id: Some(id.to_string()), block_device_mappings: Some(mappings) }
}

#[test]
fn volume_filter_names_the_volume() {
    let f = volume_id_filters("vol-1");
    assert_eq!(f.len(), 1);
    assert_eq!(f[0].name, Some("volume-id".to_string()));
    assert_eq!(f[0].values, Some(vec!["vol-1".to_string()]));
}

#[test]
fn type_of_first_volume() {
    let volumes = vec![
        Volume { state: None, volume_type: Some("st1".to_string()) },
        Volume { state: None, volume_type: Some("gp2".to_string()) },
    ];
    assert_eq!(get_volume_type(Some(volumes)), Some("st1".to_string()));
    assert_eq!(get_volume_type(Some(vec![Volume { state: None, volume_type: None }])), None);
}

#[test]
fn ip_filter_lists_the_addresses() {
    let ips = vec!["10.0.0.1".to_string(), "10.0.0.2".to_string()];
    let f = private_ip_filters(&ips);
    assert_eq!(f.len(), 1);
    assert_eq!(f[0].name, Some("private-ip-address".to_string()));
    assert_eq!(f[0].values, Some(ips));
}

#[test]
fn instances_are_flattened_in_order() {
    let rs = vec![
        Reservation { instances: Some(vec![instance("i-1", vec![]), instance("i-2", vec![])]) },
        Reservation { instances: Some(vec![]) },
        Reservation { instances: Some(vec![instance("i-3", vec![])]) },
    ];
    let is = get_instances_by_ip_address(Some(rs));
    let ids: Vec<String> = is.iter().map(|i| i.instance_id.clone().unwrap()).collect();
    assert_eq!(ids, vec!["i-1", "i-2", "i-3"]);
}

#[test]
fn mappings_of_all_instances() {
    let rs = vec![
        Reservation { instances: Some(vec![instance("i-1", vec![mapping("/dev/xvda", "vol-a"), mapping("/dev/xvdb", "vol-b")])]) },
        Reservation { instances: Some(vec![instance("i-2", vec![mapping("/dev/xvda", "vol-c")])]) },
    ];
    assert!(reservations_are_complete(&Some(rs.clone())));
    let ms = get_ebs_volume_mappings(Some(rs)).unwrap();
    assert_eq!(ms, vec![mapping("/dev/xvda", "vol-a"), mapping("/dev/xvdb", "vol-b"), mapping("/dev/xvda", "vol-c")]);
}

#[test]
fn no_reservation_is_no_instance_found() {
    let e = get_ebs_volume_mappings(Some(vec![])).unwrap_err();
    assert_eq!(e.description(), constants::EC2_INSTANCES_NOT_FOUND);
}

#[test]
fn incomplete_reservations_are_detected() {
    assert!(!reservations_are_complete(&None));
    assert!(!reservations_are_complete(&Some(vec![Reservation { instances: None }])));
    let no_mappings = Instance { instance_id: Some("i-1".to_string()), block_device_mappings: None };
    assert!(!reservations_are_complete(&Some(vec![Reservation { instances: Some(vec![no_mappings]) }])));
    assert!(reservations_are_complete(&Some(vec![])));
}

#[test]
fn detach_requests_are_forced() {
    let ids = vec!["vol-a".to_string(), "vol-b".to_string()];
    let rs = detach_volume_requests(&ids);
    assert_eq!(rs.len(), 2);
    assert_eq!(rs[0].volume_id, "vol-a");
    assert_eq!(rs[1].volume_id, "vol-b");
    assert!(rs.iter().all(|r| r.force == Some(true)));
}

#[test]
fn delete_requests_name_each_volume() {
    let ids = vec!["vol-a".to_string(), "vol-b".to_string()];
    let rs = delete_volume_requests(&ids);
    let names: Vec<String> = rs.into_iter().map(|r| r.volume_id).collect();
    assert_eq!(names, ids);
    assert!(delete_volume_requests(&vec![]).is_empty());
}
