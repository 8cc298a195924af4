//! What the EC2 queries of the tool send and what it keeps of the answers.
//! The queries themselves are made by the program around this library.

use vstd::prelude::*;

use crate::constants;
use crate::ec2::{
    DeleteVolumeRequest, DeleteVolumeRequestView, DetachVolumeRequest, DetachVolumeRequestView, Filter,
    FilterView, Instance, InstanceBlockDeviceMapping, InstanceBlockDeviceMappingView, InstanceView,
    Reservation, ReservationView, Volume,
};
use crate::qsnaperror::QsnapError;

verus! {

/// A filter of one name with the given values.
pub open spec fn filter_view(name: Seq<char>, values: Seq<Seq<char>>) -> FilterView {
    FilterView { name: Some(name), values: Some(values) }
}

/// The filters that select the volume with id `volume_id`.
pub fn volume_id_filters(volume_id: &str) -> (r: Vec<Filter>)
    ensures
        r.deep_view() == seq![filter_view("volume-id"@, seq![volume_id@])],
{
    let values = vec![volume_id.to_owned()];
    assert(values.deep_view() =~= seq![volume_id@]);
    let r = vec![Filter { name: Some("volume-id".to_owned()), values: Some(values) }];
    assert(r.deep_view() =~= seq![filter_view("volume-id"@, seq![volume_id@])]);
    r
}

/// The type of the volume that a description of one volume id returned: the
/// type of the first volume it lists.
pub fn get_volume_type(volumes: Option<Vec<Volume>>) -> (r: Option<String>)
    requires
        volumes is Some,
        volumes->0.len() > 0,
    ensures
        r.deep_view() == volumes->0.deep_view()[0].volume_type,
{
    let mut vs = volumes.unwrap();
    let first = vs.swap_remove(0);
    first.volume_type
}

/// The filters that select the instances with one of the given private IP
/// addresses.
pub open spec fn private_ip_filters_view(ip_addresses: Seq<Seq<char>>) -> Seq<FilterView> {
    seq![filter_view("private-ip-address"@, ip_addresses)]
}

/// The filters that select the instances with one of the given private IP
/// addresses.
pub fn private_ip_filters(ip_addresses: &Vec<String>) -> (r: Vec<Filter>)
    ensures
        r.deep_view() == private_ip_filters_view(ip_addresses.deep_view()),
{
    let values = ip_addresses.clone();
    let r = vec![Filter { name: Some("private-ip-address".to_owned()), values: Some(values) }];
    assert(r.deep_view() =~= seq![filter_view("private-ip-address"@, ip_addresses.deep_view())]);
    r
}

/// The instances of the reservations, reservation after reservation.
pub open spec fn reservation_instances(rs: Seq<ReservationView>) -> Seq<InstanceView>
    decreases rs.len(),
{
    if rs.len() == 0 {
        seq![]
    } else {
        reservation_instances(rs.drop_last()) + rs.last().instances->0
    }
}

/// Every reservation lists its instances.
pub open spec fn reservations_list_instances(rs: Seq<ReservationView>) -> bool {
    forall|i: int| 0 <= i < rs.len() ==> (#[trigger] rs[i]).instances is Some
}

/// The instances that a description of the instances with given private IP
/// addresses returned, in order.
pub fn get_instances_by_ip_address(reservations: Option<Vec<Reservation>>) -> (r: Vec<Instance>)
    requires
        reservations is Some,
        reservations_list_instances(reservations->0.deep_view()),
    ensures
        r.deep_view() == reservation_instances(reservations->0.deep_view()),
{
    let rs = reservations.unwrap();
    let ghost rsv = rs.deep_view();
    let mut out: Vec<Instance> = Vec::new();
    for reservation in it: rs.into_iter()
        invariant
            rsv == it.seq().map_values(|r: Reservation| r.deep_view()),
            reservations_list_instances(rsv),
            out.deep_view() == reservation_instances(rsv.take(it.index() as int)),
    {
        let ghost k = it.index() as int;
        assert(rsv[k] == reservation.deep_view());
        let mut instances = reservation.instances.unwrap();
        let ghost before = out.deep_view();
        let ghost added = instances.deep_view();
        out.append(&mut instances);
        assert(rsv.take(k + 1).drop_last() =~= rsv.take(k));
        assert(out.deep_view() =~= before + added);
    }
    assert(rsv.take(rsv.len() as int) =~= rsv);
    out
}

/// Whether an instance description answer lists its reservations, their
/// instances and the instances' block device mappings.
pub fn reservations_are_complete(reservations: &Option<Vec<Reservation>>) -> (r: bool)
    ensures
        r == (reservations is Some && reservations_list_instances(reservations->0.deep_view())
            && instances_list_mappings(reservations->0.deep_view())),
{
    match reservations {
        None => false,
        Some(rs) => {
            let ghost rsv = rs.deep_view();
            assert(reservations->0.deep_view() == rsv);
            let n = rs.len();
            for i in 0..n
                invariant
                    n == rs.len(),
                    rsv == rs.deep_view(),
                    reservations == Some(*rs),
                    forall|k: int| 0 <= k < i ==> (#[trigger] rsv[k]).instances is Some,
                    forall|k: int, j: int|
                        0 <= k < i && 0 <= j < rsv[k].instances->0.len()
                            ==> (#[trigger] rsv[k].instances->0[j]).block_device_mappings is Some,
            {
                assert(rsv[i as int] == rs[i as int].deep_view());
                match &rs[i].instances {
                    None => {
                        assert(rsv[i as int].instances is None);
                        assert(!reservations_list_instances(rsv));
                        return false;
                    },
                    Some(instances) => {
                        let m = instances.len();
                        for j in 0..m
                            invariant
                                m == instances.len(),
                                i < rsv.len(),
                                rsv == rs.deep_view(),
                                reservations == Some(*rs),
                                rsv[i as int].instances == Some(instances.deep_view()),
                                forall|l: int| 0 <= l < j ==> (#[trigger] rsv[i as int].instances->0[l]).block_device_mappings is Some,
                        {
                            assert(rsv[i as int].instances->0[j as int] == instances[j as int].deep_view());
                            if instances[j].block_device_mappings.is_none() {
                                assert(rsv[i as int].instances->0[j as int].block_device_mappings is None);
                                assert(!instances_list_mappings(rsv));
                                return false;
                            }
                        }
                    },
                }
            }
            true
        },
    }
}

/// The block device mappings of the instances of the reservations, in order.
pub open spec fn instance_mappings(is: Seq<InstanceView>) -> Seq<InstanceBlockDeviceMappingView>
    decreases is.len(),
{
    if is.len() == 0 {
        seq![]
    } else {
        instance_mappings(is.drop_last()) + is.last().block_device_mappings->0
    }
}

/// The mappings of the instances keep every block device mapping of every
/// instance that lists them.
pub proof fn lemma_instance_mappings_keep_every_mapping(is: Seq<InstanceView>)
    ensures
        forall|i: int, k: int|
            0 <= i < is.len() && is[i].block_device_mappings is Some && 0 <= k
                < is[i].block_device_mappings->0.len() ==> instance_mappings(is).contains(
                #[trigger] is[i].block_device_mappings->0[k],
            ),
    decreases is.len(),
{
    if is.len() > 0 {
        let n = is.len() - 1;
        let front = instance_mappings(is.drop_last());
        lemma_instance_mappings_keep_every_mapping(is.drop_last());
        assert forall|i: int, k: int|
            0 <= i < is.len() && is[i].block_device_mappings is Some && 0 <= k
                < is[i].block_device_mappings->0.len() implies instance_mappings(is).contains(
            #[trigger] is[i].block_device_mappings->0[k],
        ) by {
            let all = instance_mappings(is);
            if i < n {
                assert(is.drop_last()[i] == is[i]);
                let j = choose|j: int| 0 <= j < front.len() && front[j] == is[i].block_device_mappings->0[k];
                assert(all[j] == front[j]);
            } else {
                assert(all[front.len() + k] == is[i].block_device_mappings->0[k]);
            }
        }
    }
}

/// The instances of the reservations keep every instance of every
/// reservation that lists them.
pub proof fn lemma_reservation_instances_keep_every_instance(rs: Seq<ReservationView>)
    ensures
        forall|i: int, j: int|
            0 <= i < rs.len() && rs[i].instances is Some && 0 <= j < rs[i].instances->0.len()
                ==> reservation_instances(rs).contains(#[trigger] rs[i].instances->0[j]),
    decreases rs.len(),
{
    if rs.len() > 0 {
        let n = rs.len() - 1;
        let front = reservation_instances(rs.drop_last());
        lemma_reservation_instances_keep_every_instance(rs.drop_last());
        assert forall|i: int, j: int|
            0 <= i < rs.len() && rs[i].instances is Some && 0 <= j < rs[i].instances->0.len()
                implies reservation_instances(rs).contains(#[trigger] rs[i].instances->0[j]) by {
            let all = reservation_instances(rs);
            if i < n {
                assert(rs.drop_last()[i] == rs[i]);
                let q = choose|q: int| 0 <= q < front.len() && front[q] == rs[i].instances->0[j];
                assert(all[q] == front[q]);
            } else {
                assert(all[front.len() + j] == rs[i].instances->0[j]);
            }
        }
    }
}

/// Every instance of every reservation lists its block device mappings.
pub open spec fn instances_list_mappings(rs: Seq<ReservationView>) -> bool {
    forall|i: int, j: int|
        0 <= i < rs.len() && 0 <= j < rs[i].instances->0.len()
            ==> (#[trigger] rs[i].instances->0[j]).block_device_mappings is Some
}

/// The block device mappings of all instances that an instance description
/// returned, in order; an error when it returned no reservation at all.
pub fn get_ebs_volume_mappings(reservations: Option<Vec<Reservation>>) -> (r: Result<
    Vec<InstanceBlockDeviceMapping>,
    QsnapError,
>)
    requires
        reservations is Some,
        reservations_list_instances(reservations->0.deep_view()),
        instances_list_mappings(reservations->0.deep_view()),
    ensures
        match r {
            Ok(ms) => reservations->0.len() > 0 && ms.deep_view() == instance_mappings(
                reservation_instances(reservations->0.deep_view()),
            ),
            Err(e) => reservations->0.len() == 0 && e@ == constants::EC2_INSTANCES_NOT_FOUND@,
        },
{
    let rs = reservations.unwrap();
    if rs.len() == 0 {
        return Err(QsnapError::new(constants::EC2_INSTANCES_NOT_FOUND));
    }
    let ghost rsv = rs.deep_view();
    proof {
        lemma_instances_list_mappings(rsv);
    }
    let instances = get_instances_by_ip_address(Some(rs));
    let ghost isv = instances.deep_view();
    let mut out: Vec<InstanceBlockDeviceMapping> = Vec::new();
    for instance in it: instances.into_iter()
        invariant
            isv == it.seq().map_values(|i: Instance| i.deep_view()),
            forall|k: int| 0 <= k < isv.len() ==> (#[trigger] isv[k]).block_device_mappings is Some,
            out.deep_view() == instance_mappings(isv.take(it.index() as int)),
    {
        let ghost k = it.index() as int;
        assert(isv[k] == instance.deep_view());
        let mut mappings = instance.block_device_mappings.unwrap();
        let ghost before = out.deep_view();
        let ghost added = mappings.deep_view();
        out.append(&mut mappings);
        assert(isv.take(k + 1).drop_last() =~= isv.take(k));
        assert(out.deep_view() =~= before + added);
    }
    assert(isv.take(isv.len() as int) =~= isv);
    Ok(out)
}

/// When every instance of every reservation lists its mappings, so does every
/// instance that the reservations list.
proof fn lemma_instances_list_mappings(rs: Seq<ReservationView>)
    requires
        reservations_list_instances(rs),
        instances_list_mappings(rs),
    ensures
        forall|k: int|
            0 <= k < reservation_instances(rs).len()
                ==> (#[trigger] reservation_instances(rs)[k]).block_device_mappings is Some,
    decreases rs.len(),
{
    if rs.len() > 0 {
        let init = rs.drop_last();
        assert forall|i: int, j: int|
            0 <= i < init.len() && 0 <= j < init[i].instances->0.len()
                implies (#[trigger] init[i].instances->0[j]).block_device_mappings is Some by {
            assert(init[i] == rs[i]);
        }
        lemma_instances_list_mappings(init);
        let prefix = reservation_instances(init);
        let last = rs.last().instances->0;
        assert forall|k: int|
            0 <= k < reservation_instances(rs).len()
                implies (#[trigger] reservation_instances(rs)[k]).block_device_mappings is Some by {
            if k >= prefix.len() {
                assert(reservation_instances(rs)[k] == rs[rs.len() - 1].instances->0[k - prefix.len()]);
            }
        }
    }
}

/// The requests that force each of the volumes off its instance.
pub open spec fn detach_requests_view(volume_ids: Seq<Seq<char>>) -> Seq<DetachVolumeRequestView> {
    volume_ids.map_values(|id: Seq<char>| DetachVolumeRequestView { volume_id: id, force: Some(true) })
}

/// The requests that delete each of the volumes.
pub open spec fn delete_requests_view(volume_ids: Seq<Seq<char>>) -> Seq<DeleteVolumeRequestView> {
    volume_ids.map_values(|id: Seq<char>| DeleteVolumeRequestView { volume_id: id })
}

/// The requests that force each of the volumes off its instance, in order.
pub fn detach_volume_requests(volume_ids: &Vec<String>) -> (r: Vec<DetachVolumeRequest>)
    ensures
        r.deep_view() == detach_requests_view(volume_ids.deep_view()),
{
    let mut out: Vec<DetachVolumeRequest> = Vec::new();
    for i in 0..volume_ids.len()
        invariant
            out.deep_view() == detach_requests_view(volume_ids.deep_view().take(i as int)),
    {
        let ghost before = out.deep_view();
        let request = DetachVolumeRequest { volume_id: volume_ids[i].clone(), force: Some(true) };
        out.push(request);
        assert(out.deep_view() =~= before.push(request.deep_view()));
        assert(volume_ids.deep_view().take(i + 1) =~= volume_ids.deep_view().take(i as int).push(
            volume_ids[i as int]@,
        ));
        assert(out.deep_view() =~= detach_requests_view(volume_ids.deep_view().take(i + 1)));
    }
    assert(volume_ids.deep_view().take(volume_ids.len() as int) =~= volume_ids.deep_view());
    out
}

/// The requests that delete each of the volumes, in order.
pub fn delete_volume_requests(volume_ids: &Vec<String>) -> (r: Vec<DeleteVolumeRequest>)
    ensures
        r.deep_view() == delete_requests_view(volume_ids.deep_view()),
{
    let mut out: Vec<DeleteVolumeRequest> = Vec::new();
    for i in 0..volume_ids.len()
        invariant
            out.deep_view() == delete_requests_view(volume_ids.deep_view().take(i as int)),
    {
        let ghost before = out.deep_view();
        let request = DeleteVolumeRequest { volume_id: volume_ids[i].clone() };
        out.push(request);
        assert(out.deep_view() =~= before.push(request.deep_view()));
        assert(volume_ids.deep_view().take(i + 1) =~= volume_ids.deep_view().take(i as int).push(
            volume_ids[i as int]@,
        ));
        assert(out.deep_view() =~= delete_requests_view(volume_ids.deep_view().take(i + 1)));
    }
    assert(volume_ids.deep_view().take(volume_ids.len() as int) =~= volume_ids.deep_view());
    out
}

} // verus!
