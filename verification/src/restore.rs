//! Restoring a cluster from one of its snapshots: a volume is created from
//! every volume snapshot with the unique id, and attached where the
//! snapshot's tags say the snapshotted volume was.

use vstd::prelude::*;

use crate::aws::filter_view;
use crate::constants;
use crate::ec2::{
    AttachVolumeRequest, AttachVolumeRequestView, CreateVolumeRequest, CreateVolumeRequestView, Filter,
    FilterView,
    Snapshot, SnapshotView, TagSpecification, TagSpecificationView, TagView,
};
use crate::ec2::{InstanceBlockDeviceMappingView, InstanceView};
use crate::listing::carries_unique_id;
use crate::snapshot::{snapshot_request_view, snapshot_tags, tag_view};
use crate::util::{find_tag, get_tag_value, has_tag};

verus! {

/// The name of the filter on the unique-id tag: "tag:" and the tag's key.
pub open spec fn unique_id_filter_name() -> Seq<char> {
    "tag:"@ + constants::EBS_SNAPSHOT_UNIQUE_ID_TAG_KEY@
}

/// The filters that select the volume snapshots of the cluster snapshot
/// `snapshot_unique_id` that this tool made.
pub open spec fn restore_snapshot_filters_view(snapshot_unique_id: Seq<char>) -> Seq<FilterView> {
    seq![
        filter_view(unique_id_filter_name(), seq![snapshot_unique_id]),
        filter_view("tag-key"@, seq![constants::EBS_SNAPSHOT_QUMULO_TAG_KEY@]),
    ]
}

/// The filters that select the volume snapshots of the cluster snapshot
/// `snapshot_unique_id` that this tool made.
pub fn restore_snapshot_filters(snapshot_unique_id: &str) -> (r: Vec<Filter>)
    ensures
        r.deep_view() == restore_snapshot_filters_view(snapshot_unique_id@),
{
    let name = "tag:".to_owned().concat(constants::EBS_SNAPSHOT_UNIQUE_ID_TAG_KEY);
    let ids = vec![snapshot_unique_id.to_owned()];
    let keys = vec![constants::EBS_SNAPSHOT_QUMULO_TAG_KEY.to_owned()];
    assert(ids.deep_view() =~= seq![snapshot_unique_id@]);
    assert(keys.deep_view() =~= seq![constants::EBS_SNAPSHOT_QUMULO_TAG_KEY@]);
    let r = vec![
        Filter { name: Some(name), values: Some(ids) },
        Filter { name: Some("tag-key".to_owned()), values: Some(keys) },
    ];
    assert(r.deep_view() =~= seq![
        filter_view(unique_id_filter_name(), seq![snapshot_unique_id@]),
        filter_view("tag-key"@, seq![constants::EBS_SNAPSHOT_QUMULO_TAG_KEY@]),
    ]);
    r
}

/// The tags of a snapshot; none when it has no tag list.
pub open spec fn tags_or_empty(s: SnapshotView) -> Seq<TagView> {
    match s.tags {
        Some(tags) => tags,
        None => seq![],
    }
}

/// The value of the tag with key `key` on the snapshot.
pub open spec fn snapshot_tag_value(s: SnapshotView, key: Seq<char>) -> Option<Seq<char>> {
    find_tag(tags_or_empty(s), key)->0.value
}

/// A snapshot can be restored: it has the instance, drive mapping and drive
/// type tags.
pub open spec fn restorable(s: SnapshotView) -> bool {
    &&& find_tag(tags_or_empty(s), constants::EBS_SNAPSHOT_EC2_INSTANCE_ID_TAG_KEY@) is Some
    &&& find_tag(tags_or_empty(s), constants::EBS_SNAPSHOT_DRIVE_MAPPING_TAG_KEY@) is Some
    &&& find_tag(tags_or_empty(s), constants::EBS_SNAPSHOT_DRIVE_TYPE_TAG_KEY@) is Some
}

/// Whether a snapshot can be restored.
pub fn snapshot_is_restorable(snapshot: &Snapshot) -> (r: bool)
    ensures
        r == restorable(snapshot@),
{
    match &snapshot.tags {
        Some(tags) => has_tag(tags, constants::EBS_SNAPSHOT_EC2_INSTANCE_ID_TAG_KEY) && has_tag(
            tags,
            constants::EBS_SNAPSHOT_DRIVE_MAPPING_TAG_KEY,
        ) && has_tag(tags, constants::EBS_SNAPSHOT_DRIVE_TYPE_TAG_KEY),
        None => false,
    }
}

/// The tag specification of a restored volume: it is marked as restored.
pub open spec fn restored_volume_tag_specification() -> TagSpecificationView {
    TagSpecificationView {
        resource_type: Some("volume"@),
        tags: Some(seq![tag_view(constants::EBS_RESTORE_VOLUME_TAG_KEY@, Some("true"@))]),
    }
}

/// The request that creates a volume from the snapshot: in the availability
/// zone "us-west-2b", of the type that the snapshot's drive type tag names.
pub open spec fn restore_volume_request_view(s: SnapshotView) -> CreateVolumeRequestView {
    CreateVolumeRequestView {
        availability_zone: "us-west-2b"@,
        snapshot_id: s.snapshot_id,
        tag_specifications: Some(seq![restored_volume_tag_specification()]),
        volume_type: snapshot_tag_value(s, constants::EBS_SNAPSHOT_DRIVE_TYPE_TAG_KEY@),
    }
}

/// The restore of one volume: the request that creates it, and where it is to
/// be attached once it is available.
#[derive(Debug)]
pub struct VolumeRestore {
    pub create_volume_request: CreateVolumeRequest,
    pub ec2_instance_id: Option<String>,
    pub device_name: Option<String>,
}

pub struct VolumeRestoreView {
    pub create_volume_request: CreateVolumeRequestView,
    pub ec2_instance_id: Option<Seq<char>>,
    pub device_name: Option<Seq<char>>,
}

impl View for VolumeRestore {
    type V = VolumeRestoreView;

    open spec fn view(&self) -> VolumeRestoreView {
        VolumeRestoreView {
            create_volume_request: self.create_volume_request@,
            ec2_instance_id: self.ec2_instance_id.deep_view(),
            device_name: self.device_name.deep_view(),
        }
    }
}

/// The restore of the volume of a snapshot, read from its tags.
pub open spec fn volume_restore_view(s: SnapshotView) -> VolumeRestoreView {
    VolumeRestoreView {
        create_volume_request: restore_volume_request_view(s),
        ec2_instance_id: snapshot_tag_value(s, constants::EBS_SNAPSHOT_EC2_INSTANCE_ID_TAG_KEY@),
        device_name: snapshot_tag_value(s, constants::EBS_SNAPSHOT_DRIVE_MAPPING_TAG_KEY@),
    }
}

/// The restore knows both the instance and the device.
pub open spec fn attachable(r: VolumeRestoreView) -> bool {
    r.ec2_instance_id is Some && r.device_name is Some
}

/// The request that attaches the created volume `new_volume_id` where the
/// restore says.
pub open spec fn attach_request_view(r: VolumeRestoreView, new_volume_id: Seq<char>) -> AttachVolumeRequestView {
    AttachVolumeRequestView {
        device: r.device_name->0,
        instance_id: r.ec2_instance_id->0,
        volume_id: new_volume_id,
    }
}

/// The restore of the volume of a snapshot, read from its tags.
pub fn plan_volume_restore(snapshot: Snapshot) -> (r: VolumeRestore)
    requires
        restorable(snapshot@),
    ensures
        r@ == volume_restore_view(snapshot@),
{
    let ghost sv = snapshot@;
    let tags = match snapshot.tags {
        Some(tags) => tags,
        None => Vec::new(),
    };
    assert(tags.deep_view() =~= tags_or_empty(sv));
    let ec2_instance_id = get_tag_value(&tags, constants::EBS_SNAPSHOT_EC2_INSTANCE_ID_TAG_KEY);
    let device_name = get_tag_value(&tags, constants::EBS_SNAPSHOT_DRIVE_MAPPING_TAG_KEY);
    let volume_type = get_tag_value(&tags, constants::EBS_SNAPSHOT_DRIVE_TYPE_TAG_KEY);
    let restore_tags = vec![
        crate::ec2::Tag {
            key: Some(constants::EBS_RESTORE_VOLUME_TAG_KEY.to_owned()),
            value: Some("true".to_owned()),
        },
    ];
    assert(restore_tags.deep_view() =~= seq![
        tag_view(constants::EBS_RESTORE_VOLUME_TAG_KEY@, Some("true"@)),
    ]);
    let tag_specs = vec![
        TagSpecification { resource_type: Some("volume".to_owned()), tags: Some(restore_tags) },
    ];
    let create_volume_request = CreateVolumeRequest {
        availability_zone: "us-west-2b".to_owned(),
        tag_specifications: Some(tag_specs),
        snapshot_id: snapshot.snapshot_id,
        volume_type,
    };
    assert(create_volume_request@.tag_specifications->0 =~= seq![
        restored_volume_tag_specification(),
    ]);
    VolumeRestore { create_volume_request, ec2_instance_id, device_name }
}

impl VolumeRestore {
    /// Whether the restore knows both the instance and the device.
    pub fn is_attachable(&self) -> (r: bool)
        ensures
            r == attachable(self@),
    {
        self.ec2_instance_id.is_some() && self.device_name.is_some()
    }

    /// The request that attaches the created volume `new_volume_id` to the
    /// instance, under the device name, that the snapshot's tags give.
    pub fn attach_volume_request(&self, new_volume_id: String) -> (r: AttachVolumeRequest)
        requires
            attachable(self@),
        ensures
            r@ == attach_request_view(self@, new_volume_id@),
    {
        let device = match &self.device_name {
            Some(d) => d.clone(),
            None => String::new(),
        };
        let instance_id = match &self.ec2_instance_id {
            Some(i) => i.clone(),
            None => String::new(),
        };
        AttachVolumeRequest { device, instance_id, volume_id: new_volume_id }
    }
}

/// The tag keys that this tool writes are pairwise distinct.
proof fn lemma_tag_keys_distinct()
    ensures
        constants::EBS_SNAPSHOT_QUMULO_TAG_KEY@ != constants::EBS_SNAPSHOT_UNIQUE_ID_TAG_KEY@,
        constants::EBS_SNAPSHOT_QUMULO_TAG_KEY@ != constants::EBS_SNAPSHOT_DRIVE_MAPPING_TAG_KEY@,
        constants::EBS_SNAPSHOT_QUMULO_TAG_KEY@ != constants::EBS_SNAPSHOT_EC2_INSTANCE_ID_TAG_KEY@,
        constants::EBS_SNAPSHOT_QUMULO_TAG_KEY@ != constants::EBS_SNAPSHOT_DRIVE_TYPE_TAG_KEY@,
        constants::EBS_SNAPSHOT_UNIQUE_ID_TAG_KEY@ != constants::EBS_SNAPSHOT_DRIVE_MAPPING_TAG_KEY@,
        constants::EBS_SNAPSHOT_UNIQUE_ID_TAG_KEY@ != constants::EBS_SNAPSHOT_EC2_INSTANCE_ID_TAG_KEY@,
        constants::EBS_SNAPSHOT_UNIQUE_ID_TAG_KEY@ != constants::EBS_SNAPSHOT_DRIVE_TYPE_TAG_KEY@,
        constants::EBS_SNAPSHOT_DRIVE_MAPPING_TAG_KEY@ != constants::EBS_SNAPSHOT_EC2_INSTANCE_ID_TAG_KEY@,
        constants::EBS_SNAPSHOT_DRIVE_MAPPING_TAG_KEY@ != constants::EBS_SNAPSHOT_DRIVE_TYPE_TAG_KEY@,
        constants::EBS_SNAPSHOT_EC2_INSTANCE_ID_TAG_KEY@ != constants::EBS_SNAPSHOT_DRIVE_TYPE_TAG_KEY@,
{
    reveal_strlit("qumulo-cluster-snapshot");
    reveal_strlit("qumulo-snapshot-unique-id");
    reveal_strlit("qumulo-drive-mapping");
    reveal_strlit("qumulo-ec2-instance-id");
    reveal_strlit("qumulo-drive-type");
    assert(constants::EBS_SNAPSHOT_QUMULO_TAG_KEY@[7] != constants::EBS_SNAPSHOT_UNIQUE_ID_TAG_KEY@[7]);
    assert(constants::EBS_SNAPSHOT_QUMULO_TAG_KEY@[7] != constants::EBS_SNAPSHOT_DRIVE_MAPPING_TAG_KEY@[7]);
    assert(constants::EBS_SNAPSHOT_QUMULO_TAG_KEY@[7] != constants::EBS_SNAPSHOT_EC2_INSTANCE_ID_TAG_KEY@[7]);
    assert(constants::EBS_SNAPSHOT_QUMULO_TAG_KEY@[7] != constants::EBS_SNAPSHOT_DRIVE_TYPE_TAG_KEY@[7]);
    assert(constants::EBS_SNAPSHOT_UNIQUE_ID_TAG_KEY@[7] != constants::EBS_SNAPSHOT_DRIVE_MAPPING_TAG_KEY@[7]);
    assert(constants::EBS_SNAPSHOT_UNIQUE_ID_TAG_KEY@[7] != constants::EBS_SNAPSHOT_EC2_INSTANCE_ID_TAG_KEY@[7]);
    assert(constants::EBS_SNAPSHOT_UNIQUE_ID_TAG_KEY@[7] != constants::EBS_SNAPSHOT_DRIVE_TYPE_TAG_KEY@[7]);
    assert(constants::EBS_SNAPSHOT_DRIVE_MAPPING_TAG_KEY@[7] != constants::EBS_SNAPSHOT_EC2_INSTANCE_ID_TAG_KEY@[7]);
    assert(constants::EBS_SNAPSHOT_DRIVE_MAPPING_TAG_KEY@.len() != constants::EBS_SNAPSHOT_DRIVE_TYPE_TAG_KEY@.len());
    assert(constants::EBS_SNAPSHOT_EC2_INSTANCE_ID_TAG_KEY@[7] != constants::EBS_SNAPSHOT_DRIVE_TYPE_TAG_KEY@[7]);
}

/// A restore reads back what a snapshot wrote: a volume snapshot that carries
/// the tags of `snapshot_tags` can be restored, its volume is created with the
/// recorded volume type and attached to the recorded instance under the
/// recorded device name, and it carries the marker and unique-id tags that the
/// restore filters select on.
pub proof fn lemma_restore_reads_snapshot_tags(
    snapshot: SnapshotView,
    unique_id: Seq<char>,
    device_name: Option<Seq<char>>,
    instance_id: Option<Seq<char>>,
    volume_type: Option<Seq<char>>,
)
    requires
        snapshot.tags == Some(snapshot_tags(unique_id, device_name, instance_id, volume_type)),
    ensures
        restorable(snapshot),
        restore_volume_request_view(snapshot).volume_type == volume_type,
        restore_volume_request_view(snapshot).snapshot_id == snapshot.snapshot_id,
        snapshot_tag_value(snapshot, constants::EBS_SNAPSHOT_DRIVE_MAPPING_TAG_KEY@) == device_name,
        snapshot_tag_value(snapshot, constants::EBS_SNAPSHOT_EC2_INSTANCE_ID_TAG_KEY@) == instance_id,
        snapshot_tag_value(snapshot, constants::EBS_SNAPSHOT_UNIQUE_ID_TAG_KEY@) == Some(unique_id),
        find_tag(tags_or_empty(snapshot), constants::EBS_SNAPSHOT_QUMULO_TAG_KEY@) is Some,
{
    lemma_tag_keys_distinct();
    let tags = snapshot_tags(unique_id, device_name, instance_id, volume_type);
    assert(tags_or_empty(snapshot) == tags);
    assert(tags.drop_first() =~= seq![tags[1], tags[2], tags[3], tags[4]]);
    assert(tags.drop_first().drop_first() =~= seq![tags[2], tags[3], tags[4]]);
    assert(tags.drop_first().drop_first().drop_first() =~= seq![tags[3], tags[4]]);
    assert(tags.drop_first().drop_first().drop_first().drop_first() =~= seq![tags[4]]);
    reveal_with_fuel(find_tag, 6);
}

/// Restoring undoes snapshotting: a volume snapshot made by the request that
/// snapshots the volume of `mapping` on `instance` (so carrying that request's
/// tags) can be restored; its volume is created with the type the volume had,
/// attached to the same instance under the same device name, and it is listed
/// under the cluster snapshot's unique id.
pub proof fn lemma_restore_undoes_snapshot(
    snapshot: SnapshotView,
    unique_id: Seq<char>,
    description: Seq<char>,
    instance: InstanceView,
    mapping: InstanceBlockDeviceMappingView,
    volume_type: Option<Seq<char>>,
)
    requires
        snapshot.tags == snapshot_request_view(
            unique_id,
            description,
            instance,
            mapping,
            volume_type,
        ).tag_specifications->0[0].tags,
    ensures
        restorable(snapshot),
        volume_restore_view(snapshot).create_volume_request.volume_type == volume_type,
        volume_restore_view(snapshot).device_name == mapping.device_name,
        volume_restore_view(snapshot).ec2_instance_id == instance.instance_id,
        mapping.device_name is Some && instance.instance_id is Some ==> attachable(volume_restore_view(snapshot)),
        carries_unique_id(snapshot, unique_id),
{
    lemma_restore_reads_snapshot_tags(snapshot, unique_id, mapping.device_name, instance.instance_id, volume_type);
    let tags = snapshot_tags(unique_id, mapping.device_name, instance.instance_id, volume_type);
    assert(snapshot.tags->0[1] == tags[1]);
}

} // verus!
