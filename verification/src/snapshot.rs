//! Snapshotting a cluster: every EBS volume of every node is snapshotted, and
//! each snapshot is tagged with what a restore needs to put a copy of the
//! volume back in its place.

use vstd::prelude::*;

use crate::constants;
use crate::ec2::{
    CreateSnapshotRequest, CreateSnapshotRequestView, Instance, InstanceBlockDeviceMapping,
    InstanceBlockDeviceMappingView, InstanceView, Tag, TagSpecification, TagSpecificationView,
    TagView,
};

verus! {

/// The adjectives of `haikunator`'s default word list, in its order.
pub open spec fn haiku_adjectives() -> Seq<Seq<char>> {
    seq![
        "autumn"@, "hidden"@, "bitter"@, "misty"@, "silent"@, "empty"@, "dry"@, "dark"@, "summer"@,
        "icy"@, "delicate"@, "quiet"@, "white"@, "cool"@, "spring"@, "winter"@, "patient"@,
        "twilight"@, "dawn"@, "crimson"@, "wispy"@, "weathered"@, "blue"@, "billowing"@, "broken"@,
        "cold"@, "damp"@, "falling"@, "frosty"@, "green"@, "long"@, "late"@, "lingering"@, "bold"@,
        "little"@, "morning"@, "muddy"@, "old"@, "red"@, "rough"@, "still"@, "small"@,
        "sparkling"@, "throbbing"@, "shy"@, "wandering"@, "withered"@, "wild"@, "black"@, "young"@,
        "holy"@, "solitary"@, "fragrant"@, "aged"@, "snowy"@, "proud"@, "floral"@, "restless"@,
        "divine"@, "polished"@, "ancient"@, "purple"@, "lively"@, "nameless"@, "lucky"@, "odd"@,
        "tiny"@, "free"@, "dry"@, "yellow"@, "orange"@, "gentle"@, "tight"@, "super"@, "royal"@,
        "broad"@, "steep"@, "flat"@, "square"@, "round"@, "mute"@, "noisy"@, "hushy"@, "raspy"@,
        "soft"@, "shrill"@, "rapid"@, "sweet"@, "curly"@, "calm"@, "jolly"@, "fancy"@, "plain"@,
        "shinny"@,
    ]
}

/// The nouns of `haikunator`'s default word list, in its order.
pub open spec fn haiku_nouns() -> Seq<Seq<char>> {
    seq![
        "waterfall"@, "river"@, "breeze"@, "moon"@, "rain"@, "wind"@, "sea"@, "morning"@, "snow"@,
        "lake"@, "sunset"@, "pine"@, "shadow"@, "leaf"@, "dawn"@, "glitter"@, "forest"@, "hill"@,
        "cloud"@, "meadow"@, "sun"@, "glade"@, "bird"@, "brook"@, "butterfly"@, "bush"@, "dew"@,
        "dust"@, "field"@, "fire"@, "flower"@, "firefly"@, "feather"@, "grass"@, "haze"@,
        "mountain"@, "night"@, "pond"@, "darkness"@, "snowflake"@, "silence"@, "sound"@, "sky"@,
        "shape"@, "surf"@, "thunder"@, "violet"@, "water"@, "wildflower"@, "wave"@, "water"@,
        "resonance"@, "sun"@, "wood"@, "dream"@, "cherry"@, "tree"@, "fog"@, "frost"@, "voice"@,
        "paper"@, "frog"@, "smoke"@, "star"@, "atom"@, "band"@, "bar"@, "base"@, "block"@, "boat"@,
        "term"@, "credit"@, "art"@, "fashion"@, "truth"@, "disk"@, "math"@, "unit"@, "cell"@,
        "scene"@, "heart"@, "recipe"@, "union"@, "limit"@, "bread"@, "toast"@, "bonus"@, "lab"@,
        "mud"@, "mode"@, "poetry"@, "tooth"@, "hall"@, "king"@, "queen"@, "lion"@, "tiger"@,
        "penguin"@, "kiwi"@, "cake"@, "mouse"@, "rice"@, "coke"@, "hola"@, "salad"@, "hat"@,
    ]
}

/// Whether every character of `s` is one of '0' to '9'.
pub open spec fn is_digits(s: Seq<char>) -> bool {
    forall|i: int| 0 <= i < s.len() ==> '0' <= #[trigger] s[i] <= '9'
}

/// The shape of the names that `Haikunator::default().haikunate()` makes:
/// an adjective of its default list, a noun of its default list and four
/// digits, joined by '-'.
pub open spec fn is_haiku_name(name: Seq<char>) -> bool {
    exists|adjective: Seq<char>, noun: Seq<char>, token: Seq<char>|
        #![trigger adjective + "-"@ + noun + "-"@ + token]
        haiku_adjectives().contains(adjective) && haiku_nouns().contains(noun) && token.len() == 4
            && is_digits(token) && name == adjective + "-"@ + noun + "-"@ + token
}

/// `haikunator::Haikunator::default().haikunate()`: a random name.
/// Claimed of it: the name is a word of the crate's default adjective list
/// (`DEFAULT_ADJECTIVES`), '-', a word of its default noun list
/// (`DEFAULT_NOUNS`), '-', and four characters of "0123456789" (its default
/// token). Which words and digits come out is random and is not stated.
#[verifier::external_body]
fn haikunate_default() -> (name: String)
    ensures
        is_haiku_name(name@),
{
    haikunator::Haikunator::default().haikunate()
}

/// A snapshot of a whole cluster under way: the unique id that tags all of
/// its volume snapshots, and the description that each of them carries.
#[derive(Debug)]
pub struct ClusterSnapshot {
    pub unique_id: String,
    pub description: String,
}

/// A tag with both key and value.
pub open spec fn tag_view(key: Seq<char>, value: Option<Seq<char>>) -> TagView {
    TagView { key: Some(key), value }
}

/// The tags of a volume snapshot: that this tool made it, the unique id of
/// the cluster snapshot, the device of the volume, the instance it belonged
/// to and the volume's type, in this order.
pub open spec fn snapshot_tags(
    unique_id: Seq<char>,
    device_name: Option<Seq<char>>,
    instance_id: Option<Seq<char>>,
    volume_type: Option<Seq<char>>,
) -> Seq<TagView> {
    seq![
        tag_view(constants::EBS_SNAPSHOT_QUMULO_TAG_KEY@, Some("true"@)),
        tag_view(constants::EBS_SNAPSHOT_UNIQUE_ID_TAG_KEY@, Some(unique_id)),
        tag_view(constants::EBS_SNAPSHOT_DRIVE_MAPPING_TAG_KEY@, device_name),
        tag_view(constants::EBS_SNAPSHOT_EC2_INSTANCE_ID_TAG_KEY@, instance_id),
        tag_view(constants::EBS_SNAPSHOT_DRIVE_TYPE_TAG_KEY@, volume_type),
    ]
}

/// The tag specification of a volume snapshot.
pub open spec fn snapshot_tag_specification_view(
    unique_id: Seq<char>,
    device_name: Option<Seq<char>>,
    instance_id: Option<Seq<char>>,
    volume_type: Option<Seq<char>>,
) -> TagSpecificationView {
    TagSpecificationView {
        resource_type: Some("snapshot"@),
        tags: Some(snapshot_tags(unique_id, device_name, instance_id, volume_type)),
    }
}

/// The mapping names an EBS volume.
pub open spec fn mapping_has_volume_id(mapping: InstanceBlockDeviceMappingView) -> bool {
    mapping.ebs matches Some(ebs) && ebs.volume_id is Some
}

/// The id of the volume behind a mapping.
pub open spec fn mapping_volume_id_view(mapping: InstanceBlockDeviceMappingView) -> Seq<char> {
    mapping.ebs->0.volume_id->0
}

/// The request that snapshots the volume of `mapping` on `instance`.
pub open spec fn snapshot_request_view(
    unique_id: Seq<char>,
    description: Seq<char>,
    instance: InstanceView,
    mapping: InstanceBlockDeviceMappingView,
    volume_type: Option<Seq<char>>,
) -> CreateSnapshotRequestView {
    CreateSnapshotRequestView {
        description: Some(description),
        volume_id: mapping_volume_id_view(mapping),
        tag_specifications: Some(
            seq![
                snapshot_tag_specification_view(
                    unique_id,
                    mapping.device_name,
                    instance.instance_id,
                    volume_type,
                ),
            ],
        ),
    }
}

fn tag(key: &str, value: Option<String>) -> (t: Tag)
    ensures
        t@ == tag_view(key@, value.deep_view()),
{
    Tag { key: Some(key.to_owned()), value }
}

/// The tag specification of a volume snapshot.
pub fn snapshot_tag_specification(
    unique_id: &str,
    device_name: Option<String>,
    instance_id: Option<String>,
    volume_type: Option<String>,
) -> (r: TagSpecification)
    ensures
        r@ == snapshot_tag_specification_view(
            unique_id@,
            device_name.deep_view(),
            instance_id.deep_view(),
            volume_type.deep_view(),
        ),
{
    let ghost expected = snapshot_tags(
        unique_id@,
        device_name.deep_view(),
        instance_id.deep_view(),
        volume_type.deep_view(),
    );
    let tags = vec![
        tag(constants::EBS_SNAPSHOT_QUMULO_TAG_KEY, Some("true".to_owned())),
        tag(constants::EBS_SNAPSHOT_UNIQUE_ID_TAG_KEY, Some(unique_id.to_owned())),
        tag(constants::EBS_SNAPSHOT_DRIVE_MAPPING_TAG_KEY, device_name),
        tag(constants::EBS_SNAPSHOT_EC2_INSTANCE_ID_TAG_KEY, instance_id),
        tag(constants::EBS_SNAPSHOT_DRIVE_TYPE_TAG_KEY, volume_type),
    ];
    assert(tags.deep_view() =~= expected);
    TagSpecification { resource_type: Some("snapshot".to_owned()), tags: Some(tags) }
}

/// The id of the volume behind a mapping; the mapping must name one.
pub fn mapping_volume_id(mapping: &InstanceBlockDeviceMapping) -> (r: String)
    requires
        mapping_has_volume_id(mapping@),
    ensures
        r@ == mapping_volume_id_view(mapping@),
{
    match &mapping.ebs {
        Some(ebs) => match &ebs.volume_id {
            Some(id) => id.clone(),
            None => String::new(),
        },
        None => String::new(),
    }
}

impl ClusterSnapshot {
    /// Starts a cluster snapshot with a fresh random unique id.
    pub fn new(description: &str) -> (r: ClusterSnapshot)
        ensures
            is_haiku_name(r.unique_id@),
            r.description@ == description@,
    {
        ClusterSnapshot { unique_id: haikunate_default(), description: description.to_owned() }
    }

    /// The request that snapshots the volume of `mapping` on `instance`, a
    /// volume of type `volume_type`.
    pub fn create_snapshot_request(
        &self,
        instance: &Instance,
        mapping: &InstanceBlockDeviceMapping,
        volume_type: Option<String>,
    ) -> (r: CreateSnapshotRequest)
        requires
            mapping_has_volume_id(mapping@),
        ensures
            r@ == snapshot_request_view(
                self.unique_id@,
                self.description@,
                instance@,
                mapping@,
                volume_type.deep_view(),
            ),
    {
        let spec = snapshot_tag_specification(
            self.unique_id.as_str(),
            mapping.device_name.clone(),
            instance.instance_id.clone(),
            volume_type,
        );
        let specs = vec![spec];
        let r = CreateSnapshotRequest {
            description: Some(self.description.clone()),
            volume_id: mapping_volume_id(mapping),
            tag_specifications: Some(specs),
        };
        assert(r@.tag_specifications->0 =~= snapshot_request_view(
            self.unique_id@,
            self.description@,
            instance@,
            mapping@,
            volume_type.deep_view(),
        ).tag_specifications->0);
        r
    }
}

} // verus!
