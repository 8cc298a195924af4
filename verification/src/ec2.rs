//! The parts of EC2's records and requests that this tool reads or fills,
//! as plain values, each with a view over sequences of characters.

use vstd::prelude::*;

verus! {

/// A key/value tag on an EC2 resource.
#[derive(Clone, Debug, PartialEq, Eq)]
pub struct Tag {
    pub key: Option<String>,
    pub value: Option<String>,
}

pub struct TagView {
    pub key: Option<Seq<char>>,
    pub value: Option<Seq<char>>,
}

impl View for Tag {
    type V = TagView;

    open spec fn view(&self) -> TagView {
        TagView { key: self.key.deep_view(), value: self.value.deep_view() }
    }
}

impl DeepView for Tag {
    type V = TagView;

    open spec fn deep_view(&self) -> TagView {
        self@
    }
}

impl Tag {
    /// A copy of the tag.
    pub fn duplicate(&self) -> (r: Tag)
        ensures
            r@ == self@,
    {
        Tag { key: self.key.clone(), value: self.value.clone() }
    }
}

/// Copies of the tags, in order.
pub fn duplicate_tags(tags: &Vec<Tag>) -> (r: Vec<Tag>)
    ensures
        r.deep_view() == tags.deep_view(),
{
    let mut out: Vec<Tag> = Vec::new();
    for i in 0..tags.len()
        invariant
            out.deep_view() == tags.deep_view().take(i as int),
    {
        let ghost before = out.deep_view();
        let t = tags[i].duplicate();
        out.push(t);
        assert(out.deep_view() =~= before.push(t.deep_view()));
        assert(tags.deep_view().take(i + 1) =~= tags.deep_view().take(i as int).push(tags[i as int].deep_view()));
    }
    assert(tags.deep_view().take(tags.len() as int) =~= tags.deep_view());
    out
}

/// A filter of a describe request: the records whose attribute `name`
/// takes one of `values`.
#[derive(Clone, Debug, PartialEq, Eq)]
pub struct Filter {
    pub name: Option<String>,
    pub values: Option<Vec<String>>,
}

pub struct FilterView {
    pub name: Option<Seq<char>>,
    pub values: Option<Seq<Seq<char>>>,
}

impl View for Filter {
    type V = FilterView;

    open spec fn view(&self) -> FilterView {
        FilterView { name: self.name.deep_view(), values: self.values.deep_view() }
    }
}

impl DeepView for Filter {
    type V = FilterView;

    open spec fn deep_view(&self) -> FilterView {
        self@
    }
}

/// The tags to put on a resource of the given type when it is created.
#[derive(Clone, Debug, PartialEq, Eq)]
pub struct TagSpecification {
    pub resource_type: Option<String>,
    pub tags: Option<Vec<Tag>>,
}

pub struct TagSpecificationView {
    pub resource_type: Option<Seq<char>>,
    pub tags: Option<Seq<TagView>>,
}

impl View for TagSpecification {
    type V = TagSpecificationView;

    open spec fn view(&self) -> TagSpecificationView {
        TagSpecificationView {
            resource_type: self.resource_type.deep_view(),
            tags: self.tags.deep_view(),
        }
    }
}

impl DeepView for TagSpecification {
    type V = TagSpecificationView;

    open spec fn deep_view(&self) -> TagSpecificationView {
        self@
    }
}

impl TagSpecification {
    /// A copy of the tag specification.
    pub fn duplicate(&self) -> (r: TagSpecification)
        ensures
            r@ == self@,
    {
        let tags = match &self.tags {
            Some(t) => Some(duplicate_tags(t)),
            None => None,
        };
        TagSpecification { resource_type: self.resource_type.clone(), tags }
    }
}

/// Copies of the tag specifications, in order.
pub fn duplicate_tag_specifications(specs: &Vec<TagSpecification>) -> (r: Vec<TagSpecification>)
    ensures
        r.deep_view() == specs.deep_view(),
{
    let mut out: Vec<TagSpecification> = Vec::new();
    for i in 0..specs.len()
        invariant
            out.deep_view() == specs.deep_view().take(i as int),
    {
        let ghost before = out.deep_view();
        let t = specs[i].duplicate();
        out.push(t);
        assert(out.deep_view() =~= before.push(t.deep_view()));
        assert(specs.deep_view().take(i + 1) =~= specs.deep_view().take(i as int).push(specs[i as int].deep_view()));
    }
    assert(specs.deep_view().take(specs.len() as int) =~= specs.deep_view());
    out
}

/// An EBS volume: its state ("creating", "available", ...) and its type.
#[derive(Clone, Debug, PartialEq, Eq)]
pub struct Volume {
    pub state: Option<String>,
    pub volume_type: Option<String>,
}

pub struct VolumeView {
    pub state: Option<Seq<char>>,
    pub volume_type: Option<Seq<char>>,
}

impl View for Volume {
    type V = VolumeView;

    open spec fn view(&self) -> VolumeView {
        VolumeView { state: self.state.deep_view(), volume_type: self.volume_type.deep_view() }
    }
}

impl DeepView for Volume {
    type V = VolumeView;

    open spec fn deep_view(&self) -> VolumeView {
        self@
    }
}

/// The status summary of a volume ("ok", "impaired", ...).
#[derive(Clone, Debug, PartialEq, Eq)]
pub struct VolumeStatusInfo {
    pub status: Option<String>,
}

pub struct VolumeStatusInfoView {
    pub status: Option<Seq<char>>,
}

impl View for VolumeStatusInfo {
    type V = VolumeStatusInfoView;

    open spec fn view(&self) -> VolumeStatusInfoView {
        VolumeStatusInfoView { status: self.status.deep_view() }
    }
}

impl DeepView for VolumeStatusInfo {
    type V = VolumeStatusInfoView;

    open spec fn deep_view(&self) -> VolumeStatusInfoView {
        self@
    }
}

/// One entry of a volume status report.
#[derive(Clone, Debug, PartialEq, Eq)]
pub struct VolumeStatusItem {
    pub volume_status: Option<VolumeStatusInfo>,
}

pub struct VolumeStatusItemView {
    pub volume_status: Option<VolumeStatusInfoView>,
}

impl View for VolumeStatusItem {
    type V = VolumeStatusItemView;

    open spec fn view(&self) -> VolumeStatusItemView {
        VolumeStatusItemView { volume_status: self.volume_status.deep_view() }
    }
}

impl DeepView for VolumeStatusItem {
    type V = VolumeStatusItemView;

    open spec fn deep_view(&self) -> VolumeStatusItemView {
        self@
    }
}

/// The EBS part of a block device mapping: the volume behind the device.
#[derive(Clone, Debug, PartialEq, Eq)]
pub struct EbsInstanceBlockDevice {
    pub volume_id: Option<String>,
}

pub struct EbsInstanceBlockDeviceView {
    pub volume_id: Option<Seq<char>>,
}

impl View for EbsInstanceBlockDevice {
    type V = EbsInstanceBlockDeviceView;

    open spec fn view(&self) -> EbsInstanceBlockDeviceView {
        EbsInstanceBlockDeviceView { volume_id: self.volume_id.deep_view() }
    }
}

impl DeepView for EbsInstanceBlockDevice {
    type V = EbsInstanceBlockDeviceView;

    open spec fn deep_view(&self) -> EbsInstanceBlockDeviceView {
        self@
    }
}

/// A device of an instance ("/dev/xvdb", ...) and the volume attached there.
#[derive(Clone, Debug, PartialEq, Eq)]
pub struct InstanceBlockDeviceMapping {
    pub device_name: Option<String>,
    pub ebs: Option<EbsInstanceBlockDevice>,
}

pub struct InstanceBlockDeviceMappingView {
    pub device_name: Option<Seq<char>>,
    pub ebs: Option<EbsInstanceBlockDeviceView>,
}

impl View for InstanceBlockDeviceMapping {
    type V = InstanceBlockDeviceMappingView;

    open spec fn view(&self) -> InstanceBlockDeviceMappingView {
        InstanceBlockDeviceMappingView {
            device_name: self.device_name.deep_view(),
            ebs: self.ebs.deep_view(),
        }
    }
}

impl DeepView for InstanceBlockDeviceMapping {
    type V = InstanceBlockDeviceMappingView;

    open spec fn deep_view(&self) -> InstanceBlockDeviceMappingView {
        self@
    }
}

/// An EC2 instance: a node of the cluster.
#[derive(Clone, Debug, PartialEq, Eq)]
pub struct Instance {
    pub instance_id: Option<String>,
    pub block_device_mappings: Option<Vec<InstanceBlockDeviceMapping>>,
}

pub struct InstanceView {
    pub instance_id: Option<Seq<char>>,
    pub block_device_mappings: Option<Seq<InstanceBlockDeviceMappingView>>,
}

impl View for Instance {
    type V = InstanceView;

    open spec fn view(&self) -> InstanceView {
        InstanceView {
            instance_id: self.instance_id.deep_view(),
            block_device_mappings: self.block_device_mappings.deep_view(),
        }
    }
}

impl DeepView for Instance {
    type V = InstanceView;

    open spec fn deep_view(&self) -> InstanceView {
        self@
    }
}

/// A reservation: the instances that one launch request started.
#[derive(Clone, Debug, PartialEq, Eq)]
pub struct Reservation {
    pub instances: Option<Vec<Instance>>,
}

pub struct ReservationView {
    pub instances: Option<Seq<InstanceView>>,
}

impl View for Reservation {
    type V = ReservationView;

    open spec fn view(&self) -> ReservationView {
        ReservationView { instances: self.instances.deep_view() }
    }
}

impl DeepView for Reservation {
    type V = ReservationView;

    open spec fn deep_view(&self) -> ReservationView {
        self@
    }
}

/// An EBS snapshot.
#[derive(Clone, Debug, PartialEq, Eq)]
pub struct Snapshot {
    pub snapshot_id: Option<String>,
    pub start_time: Option<String>,
    pub description: Option<String>,
    pub tags: Option<Vec<Tag>>,
}

pub struct SnapshotView {
    pub snapshot_id: Option<Seq<char>>,
    pub start_time: Option<Seq<char>>,
    pub description: Option<Seq<char>>,
    pub tags: Option<Seq<TagView>>,
}

impl View for Snapshot {
    type V = SnapshotView;

    open spec fn view(&self) -> SnapshotView {
        SnapshotView {
            snapshot_id: self.snapshot_id.deep_view(),
            start_time: self.start_time.deep_view(),
            description: self.description.deep_view(),
            tags: self.tags.deep_view(),
        }
    }
}

impl DeepView for Snapshot {
    type V = SnapshotView;

    open spec fn deep_view(&self) -> SnapshotView {
        self@
    }
}

/// A request to snapshot one volume.
#[derive(Clone, Debug, PartialEq, Eq)]
pub struct CreateSnapshotRequest {
    pub description: Option<String>,
    pub volume_id: String,
    pub tag_specifications: Option<Vec<TagSpecification>>,
}

pub struct CreateSnapshotRequestView {
    pub description: Option<Seq<char>>,
    pub volume_id: Seq<char>,
    pub tag_specifications: Option<Seq<TagSpecificationView>>,
}

impl View for CreateSnapshotRequest {
    type V = CreateSnapshotRequestView;

    open spec fn view(&self) -> CreateSnapshotRequestView {
        CreateSnapshotRequestView {
            description: self.description.deep_view(),
            volume_id: self.volume_id@,
            tag_specifications: self.tag_specifications.deep_view(),
        }
    }
}

/// A request to create a volume, here always from a snapshot.
#[derive(Clone, Debug, PartialEq, Eq)]
pub struct CreateVolumeRequest {
    pub availability_zone: String,
    pub snapshot_id: Option<String>,
    pub tag_specifications: Option<Vec<TagSpecification>>,
    pub volume_type: Option<String>,
}

pub struct CreateVolumeRequestView {
    pub availability_zone: Seq<char>,
    pub snapshot_id: Option<Seq<char>>,
    pub tag_specifications: Option<Seq<TagSpecificationView>>,
    pub volume_type: Option<Seq<char>>,
}

impl View for CreateVolumeRequest {
    type V = CreateVolumeRequestView;

    open spec fn view(&self) -> CreateVolumeRequestView {
        CreateVolumeRequestView {
            availability_zone: self.availability_zone@,
            snapshot_id: self.snapshot_id.deep_view(),
            tag_specifications: self.tag_specifications.deep_view(),
            volume_type: self.volume_type.deep_view(),
        }
    }
}

impl CreateVolumeRequest {
    /// A copy of the request.
    pub fn duplicate(&self) -> (r: CreateVolumeRequest)
        ensures
            r@ == self@,
    {
        let tag_specifications = match &self.tag_specifications {
            Some(t) => Some(duplicate_tag_specifications(t)),
            None => None,
        };
        CreateVolumeRequest {
            availability_zone: self.availability_zone.clone(),
            snapshot_id: self.snapshot_id.clone(),
            tag_specifications,
            volume_type: self.volume_type.clone(),
        }
    }
}

/// A request to attach a volume to an instance under a device name.
#[derive(Clone, Debug, PartialEq, Eq)]
pub struct AttachVolumeRequest {
    pub device: String,
    pub instance_id: String,
    pub volume_id: String,
}

pub struct AttachVolumeRequestView {
    pub device: Seq<char>,
    pub instance_id: Seq<char>,
    pub volume_id: Seq<char>,
}

impl View for AttachVolumeRequest {
    type V = AttachVolumeRequestView;

    open spec fn view(&self) -> AttachVolumeRequestView {
        AttachVolumeRequestView {
            device: self.device@,
            instance_id: self.instance_id@,
            volume_id: self.volume_id@,
        }
    }
}

/// A request to detach a volume from the instance it is attached to.
#[derive(Clone, Debug, PartialEq, Eq)]
pub struct DetachVolumeRequest {
    pub volume_id: String,
    pub force: Option<bool>,
}

pub struct DetachVolumeRequestView {
    pub volume_id: Seq<char>,
    pub force: Option<bool>,
}

impl View for DetachVolumeRequest {
    type V = DetachVolumeRequestView;

    open spec fn view(&self) -> DetachVolumeRequestView {
        DetachVolumeRequestView { volume_id: self.volume_id@, force: self.force }
    }
}

impl DeepView for DetachVolumeRequest {
    type V = DetachVolumeRequestView;

    open spec fn deep_view(&self) -> DetachVolumeRequestView {
        self@
    }
}

/// A request to delete a volume.
#[derive(Clone, Debug, PartialEq, Eq)]
pub struct DeleteVolumeRequest {
    pub volume_id: String,
}

pub struct DeleteVolumeRequestView {
    pub volume_id: Seq<char>,
}

impl View for DeleteVolumeRequest {
    type V = DeleteVolumeRequestView;

    open spec fn view(&self) -> DeleteVolumeRequestView {
        DeleteVolumeRequestView { volume_id: self.volume_id@ }
    }
}

impl DeepView for DeleteVolumeRequest {
    type V = DeleteVolumeRequestView;

    open spec fn deep_view(&self) -> DeleteVolumeRequestView {
        self@
    }
}

} // verus!
