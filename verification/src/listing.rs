//! Listing the cluster snapshots that this tool made: one line per unique
//! id, taken from the volume snapshots that carry it.

use vstd::prelude::*;

use crate::aws::filter_view;
use crate::constants;
use crate::ec2::{
    Filter, InstanceBlockDeviceMapping, InstanceBlockDeviceMappingView, Snapshot, SnapshotView, Tag,
    TagView,
};
use crate::qsnaperror::QsnapError;
use crate::snapshot_description::{SnapshotDescription, SnapshotDescriptionView};

verus! {

/// The ids of the EBS volumes behind the mappings, skipping the mappings
/// that name none, in order.
pub open spec fn mapping_volume_ids(ms: Seq<InstanceBlockDeviceMappingView>) -> Seq<Seq<char>>
    decreases ms.len(),
{
    if ms.len() == 0 {
        seq![]
    } else {
        let rest = mapping_volume_ids(ms.drop_last());
        match ms.last().ebs {
            Some(ebs) => match ebs.volume_id {
                Some(id) => rest.push(id),
                None => rest,
            },
            None => rest,
        }
    }
}

/// A block device mapping that names an EBS volume, whatever its device.
pub open spec fn names_volume(m: InstanceBlockDeviceMappingView) -> bool {
    m.ebs is Some && m.ebs->0.volume_id is Some
}

/// The volume ids are exactly those of the mappings that name an EBS volume,
/// whatever their device name, each once and in the order of the mappings:
/// the returned positions pick out, in increasing order, the mappings whose
/// ids are listed, and every mapping that names a volume is among them.
pub proof fn lemma_mapping_volume_ids_are_every_volume(ms: Seq<InstanceBlockDeviceMappingView>) -> (positions:
    Seq<int>)
    ensures
        positions.len() == mapping_volume_ids(ms).len(),
        forall|j: int|
            0 <= j < positions.len() ==> 0 <= #[trigger] positions[j] < ms.len() && names_volume(ms[positions[j]])
                && ms[positions[j]].ebs->0.volume_id == Some(mapping_volume_ids(ms)[j]),
        forall|i: int, j: int| 0 <= i < j < positions.len() ==> positions[i] < positions[j],
        forall|k: int| 0 <= k < ms.len() && names_volume(#[trigger] ms[k]) ==> positions.contains(k),
    decreases ms.len(),
{
    if ms.len() == 0 {
        seq![]
    } else {
        let n = ms.len() - 1;
        let before = lemma_mapping_volume_ids_are_every_volume(ms.drop_last());
        assert forall|k: int| 0 <= k < n && names_volume(#[trigger] ms[k]) implies before.contains(k) by {
            assert(ms.drop_last()[k] == ms[k]);
        }
        if names_volume(ms[n]) {
            let positions = before.push(n);
            assert(positions[before.len() as int] == n);
            assert forall|k: int| 0 <= k < ms.len() && names_volume(#[trigger] ms[k]) implies positions.contains(k) by {
                if k < n {
                    let j = choose|j: int| 0 <= j < before.len() && before[j] == k;
                    assert(positions[j] == k);
                } else {
                    assert(positions[before.len() as int] == k);
                }
            }
            assert forall|j: int| 0 <= j < positions.len() implies 0 <= #[trigger] positions[j] < ms.len()
                && names_volume(ms[positions[j]]) && ms[positions[j]].ebs->0.volume_id == Some(
                mapping_volume_ids(ms)[j],
            ) by {
                if j < before.len() {
                    assert(ms.drop_last()[before[j]] == ms[before[j]]);
                }
            }
            positions
        } else {
            assert forall|j: int| 0 <= j < before.len() implies 0 <= #[trigger] before[j] < ms.len()
                && names_volume(ms[before[j]]) && ms[before[j]].ebs->0.volume_id == Some(
                mapping_volume_ids(ms)[j],
            ) by {
                assert(ms.drop_last()[before[j]] == ms[before[j]]);
            }
            before
        }
    }
}

/// The ids of the EBS volumes behind the mappings, in order.
pub fn volume_ids_of_mappings(mappings: Vec<InstanceBlockDeviceMapping>) -> (r: Vec<String>)
    ensures
        r.deep_view() == mapping_volume_ids(mappings.deep_view()),
{
    let ghost ms = mappings.deep_view();
    let mut out: Vec<String> = Vec::new();
    for mapping in it: mappings.into_iter()
        invariant
            ms == it.seq().map_values(|m: InstanceBlockDeviceMapping| m.deep_view()),
            out.deep_view() == mapping_volume_ids(ms.take(it.index() as int)),
    {
        let ghost k = it.index() as int;
        assert(ms[k] == mapping.deep_view());
        assert(ms.take(k + 1).drop_last() =~= ms.take(k));
        let ghost before = out.deep_view();
        if let Some(ebs) = mapping.ebs {
            if let Some(id) = ebs.volume_id {
                out.push(id);
                assert(out.deep_view() =~= before.push(ms[k].ebs->0.volume_id->0));
            }
        }
    }
    assert(ms.take(ms.len() as int) =~= ms);
    out
}

/// The filters that select the snapshots this tool made of the given volumes.
pub fn list_snapshot_filters(volume_ids: Vec<String>) -> (r: Vec<Filter>)
    ensures
        r.deep_view() == seq![
            filter_view("volume-id"@, volume_ids.deep_view()),
            filter_view("tag-key"@, seq![constants::EBS_SNAPSHOT_QUMULO_TAG_KEY@]),
        ],
{
    let ghost ids = volume_ids.deep_view();
    let keys = vec![constants::EBS_SNAPSHOT_QUMULO_TAG_KEY.to_owned()];
    assert(keys.deep_view() =~= seq![constants::EBS_SNAPSHOT_QUMULO_TAG_KEY@]);
    let r = vec![
        Filter { name: Some("volume-id".to_owned()), values: Some(volume_ids) },
        Filter { name: Some("tag-key".to_owned()), values: Some(keys) },
    ];
    assert(r.deep_view() =~= seq![
        filter_view("volume-id"@, ids),
        filter_view("tag-key"@, seq![constants::EBS_SNAPSHOT_QUMULO_TAG_KEY@]),
    ]);
    r
}

/// The unique ids of the listed descriptions.
pub open spec fn listed_ids(ds: Seq<SnapshotDescriptionView>) -> Seq<Seq<char>> {
    ds.map_values(|d: SnapshotDescriptionView| d.qumulo_unique_id)
}

/// One tag of a snapshot read for the listing: a unique-id tag whose value is
/// not listed yet adds a line.
pub open spec fn list_tag(
    listed: Seq<SnapshotDescriptionView>,
    start_time: Seq<char>,
    description: Seq<char>,
    tag: TagView,
) -> Seq<SnapshotDescriptionView> {
    if tag.key->0 == constants::EBS_SNAPSHOT_UNIQUE_ID_TAG_KEY@ && !listed_ids(listed).contains(
        tag.value->0,
    ) {
        listed.push(
            SnapshotDescriptionView {
                snapshot_start_time: start_time,
                qumulo_unique_id: tag.value->0,
                snapshot_description: description,
            },
        )
    } else {
        listed
    }
}

/// The tags of one snapshot read in order.
pub open spec fn list_tags(
    listed: Seq<SnapshotDescriptionView>,
    start_time: Seq<char>,
    description: Seq<char>,
    tags: Seq<TagView>,
) -> Seq<SnapshotDescriptionView>
    decreases tags.len(),
{
    if tags.len() == 0 {
        listed
    } else {
        list_tags(list_tag(listed, start_time, description, tags[0]), start_time, description, tags.drop_first())
    }
}

/// The snapshots read in order, each with its tags.
pub open spec fn list_snapshots(
    listed: Seq<SnapshotDescriptionView>,
    snapshots: Seq<SnapshotView>,
) -> Seq<SnapshotDescriptionView>
    decreases snapshots.len(),
{
    if snapshots.len() == 0 {
        listed
    } else {
        let s = snapshots[0];
        list_snapshots(
            list_tags(listed, s.start_time->0, s.description->0, s.tags->0),
            snapshots.drop_first(),
        )
    }
}

/// A snapshot can be read for the listing: it has tags, a start time and a
/// description, and every tag has a key and a value.
pub open spec fn listable(s: SnapshotView) -> bool {
    &&& s.tags is Some
    &&& s.start_time is Some
    &&& s.description is Some
    &&& forall|j: int|
        0 <= j < s.tags->0.len() ==> (#[trigger] s.tags->0[j]).key is Some && s.tags->0[j].value is Some
}

/// Every snapshot of an answer can be read for the listing.
pub open spec fn all_listable(snapshots: Option<Seq<SnapshotView>>) -> bool {
    snapshots is Some ==> forall|i: int| 0 <= i < snapshots->0.len() ==> listable(#[trigger] snapshots->0[i])
}

/// Whether every snapshot of an answer can be read for the listing.
pub fn snapshots_are_listable(snapshots: &Option<Vec<Snapshot>>) -> (r: bool)
    ensures
        r == all_listable(snapshots.deep_view()),
{
    match snapshots {
        None => true,
        Some(ss) => {
            assert(*snapshots == Some(*ss));
            assert(snapshots.deep_view() == Some(ss.deep_view()));
            let n = ss.len();
            assert(ss.deep_view().len() == n);
            for i in 0..n
                invariant
                    n == ss.len(),
                    n == ss.deep_view().len(),
                    snapshots.deep_view() == Some(ss.deep_view()),
                    forall|k: int| 0 <= k < i ==> listable(#[trigger] ss.deep_view()[k]),
            {
                let s = &ss[i];
                assert(ss.deep_view()[i as int] == s@);
                if s.start_time.is_none() || s.description.is_none() {
                    assert(!listable(ss.deep_view()[i as int]));
                    assert(snapshots.deep_view()->0[i as int] == ss.deep_view()[i as int]);
                    return false;
                }
                match &s.tags {
                    None => {
                        assert(!listable(ss.deep_view()[i as int]));
                        assert(snapshots.deep_view()->0[i as int] == ss.deep_view()[i as int]);
                        return false;
                    },
                    Some(tags) => {
                        let m = tags.len();
                        for j in 0..m
                            invariant
                                m == tags.len(),
                                s@.tags == Some(tags.deep_view()),
                                i < ss.len(),
                                i < ss.deep_view().len(),
                                ss.deep_view()[i as int] == s@,
                                snapshots.deep_view() == Some(ss.deep_view()),
                                forall|l: int| 0 <= l < j ==> (#[trigger] tags.deep_view()[l]).key is Some && tags.deep_view()[l].value is Some,
                        {
                            assert(tags.deep_view()[j as int] == tags[j as int]@);
                            if tags[j].key.is_none() || tags[j].value.is_none() {
                                assert(!listable(ss.deep_view()[i as int]));
                                assert(snapshots.deep_view()->0[i as int] == ss.deep_view()[i as int]);
                                return false;
                            }
                        }
                    },
                }
            }
            true
        },
    }
}

fn contains_string(v: &Vec<String>, s: &String) -> (r: bool)
    ensures
        r == v.deep_view().contains(s@),
{
    let n = v.len();
    for i in 0..n
        invariant
            n == v.len(),
            forall|j: int| 0 <= j < i ==> v.deep_view()[j] != s@,
    {
        if v[i] == *s {
            assert(v.deep_view()[i as int] == s@);
            return true;
        }
    }
    false
}

/// The listing of the cluster snapshots that the volume snapshots belong to:
/// one line for each unique id, in the order in which the ids first occur,
/// with the start time and description of the snapshot where it first occurs.
/// An error when the answer held no snapshot list at all.
pub fn list_snapshot_descriptions(snapshots: Option<Vec<Snapshot>>) -> (r: Result<
    Vec<SnapshotDescription>,
    QsnapError,
>)
    requires
        all_listable(snapshots.deep_view()),
    ensures
        match r {
            Ok(ds) => snapshots is Some && ds.deep_view() == list_snapshots(
                seq![],
                snapshots->0.deep_view(),
            ),
            Err(e) => snapshots is None && e@ == constants::EC2_SNAPSHOTS_NOT_FOUND_ERROR@,
        },
{
    let ghost answer = snapshots.deep_view();
    match snapshots {
        None => Err(QsnapError::new(constants::EC2_SNAPSHOTS_NOT_FOUND_ERROR)),
        Some(ss) => {
            let ghost all = ss.deep_view();
            assert forall|i: int| 0 <= i < all.len() implies listable(#[trigger] all[i]) by {
                assert(answer->0[i] == all[i]);
            }
            let mut ids: Vec<String> = Vec::new();
            let mut out: Vec<SnapshotDescription> = Vec::new();
            assert(all.skip(0) =~= all);
            assert(out.deep_view() =~= Seq::<SnapshotDescriptionView>::empty());
            assert(ids.deep_view() =~= listed_ids(out.deep_view()));
            let unique_id_key = constants::EBS_SNAPSHOT_UNIQUE_ID_TAG_KEY.to_owned();
            for snapshot in it: ss.into_iter()
                invariant
                    all == it.seq().map_values(|s: Snapshot| s.deep_view()),
                    forall|i: int| 0 <= i < all.len() ==> listable(#[trigger] all[i]),
                    unique_id_key@ == constants::EBS_SNAPSHOT_UNIQUE_ID_TAG_KEY@,
                    ids.deep_view() == listed_ids(out.deep_view()),
                    list_snapshots(seq![], all) == list_snapshots(
                        out.deep_view(),
                        all.skip(it.index() as int),
                    ),
            {
                let ghost k = it.index() as int;
                assert(all[k] == snapshot.deep_view());
                assert(all.skip(k)[0] == all[k]);
                assert(all.skip(k).drop_first() =~= all.skip(k + 1));
                let ghost sv = all[k];
                let ghost listed_before = out.deep_view();
                assert(listable(sv));
                let tags = snapshot.tags.unwrap();
                let start_time = snapshot.start_time.unwrap();
                let description = snapshot.description.unwrap();
                let ghost tv = tags.deep_view();
                assert(tv.skip(0) =~= tv);
                for tag in jt: tags.into_iter()
                    invariant
                        tv == jt.seq().map_values(|t: Tag| t.deep_view()),
                        forall|j: int| 0 <= j < tv.len() ==> (#[trigger] tv[j]).key is Some && tv[j].value is Some,
                        unique_id_key@ == constants::EBS_SNAPSHOT_UNIQUE_ID_TAG_KEY@,
                        ids.deep_view() == listed_ids(out.deep_view()),
                        list_tags(listed_before, start_time@, description@, tv) == list_tags(
                            out.deep_view(),
                            start_time@,
                            description@,
                            tv.skip(jt.index() as int),
                        ),
                {
                    let ghost j = jt.index() as int;
                    assert(tv[j] == tag.deep_view());
                    assert(tv.skip(j)[0] == tv[j]);
                    assert(tv.skip(j).drop_first() =~= tv.skip(j + 1));
                    let ghost listed = out.deep_view();
                    let value = tag.value.unwrap();
                    let key = tag.key.unwrap();
                    if key == unique_id_key && !contains_string(&ids, &value) {
                        let line = SnapshotDescription {
                            snapshot_start_time: start_time.clone(),
                            qumulo_unique_id: value.clone(),
                            snapshot_description: description.clone(),
                        };
                        let ghost ids_before = ids.deep_view();
                        out.push(line);
                        ids.push(value);
                        assert(ids.deep_view() =~= ids_before.push(line.qumulo_unique_id@));
                        assert(out.deep_view() =~= listed.push(line.deep_view()));
                        assert(ids.deep_view() =~= listed_ids(out.deep_view()));
                    }
                    assert(out.deep_view() == list_tag(listed, start_time@, description@, tv[j]));
                }
                assert(tv.skip(tv.len() as int) =~= Seq::<TagView>::empty());
                assert(tv == sv.tags->0);
            }
            assert(all.skip(all.len() as int) =~= Seq::<SnapshotView>::empty());
            Ok(out)
        },
    }
}

/// A tag that gives a snapshot's cluster snapshot id.
pub open spec fn is_unique_id_tag(tag: TagView) -> bool {
    tag.key == Some(constants::EBS_SNAPSHOT_UNIQUE_ID_TAG_KEY@)
}

/// `listed` is a prefix of `result`.
pub open spec fn extends(
    listed: Seq<SnapshotDescriptionView>,
    result: Seq<SnapshotDescriptionView>,
) -> bool {
    listed.len() <= result.len() && forall|k: int| 0 <= k < listed.len() ==> result[k] == listed[k]
}

proof fn lemma_extends_ids(listed: Seq<SnapshotDescriptionView>, result: Seq<SnapshotDescriptionView>, id: Seq<char>)
    requires
        extends(listed, result),
        listed_ids(listed).contains(id),
    ensures
        listed_ids(result).contains(id),
{
    let k = choose|k: int| 0 <= k < listed_ids(listed).len() && listed_ids(listed)[k] == id;
    assert(listed_ids(result)[k] == id);
}

proof fn lemma_list_tag(
    listed: Seq<SnapshotDescriptionView>,
    start_time: Seq<char>,
    description: Seq<char>,
    tag: TagView,
)
    requires
        tag.key is Some,
        tag.value is Some,
    ensures
        ({
            let r = list_tag(listed, start_time, description, tag);
            &&& extends(listed, r)
            &&& r.len() <= listed.len() + 1
            &&& listed_ids(listed).no_duplicates() ==> listed_ids(r).no_duplicates()
            &&& is_unique_id_tag(tag) ==> listed_ids(r).contains(tag.value->0)
            &&& r.len() == listed.len() + 1 ==> is_unique_id_tag(tag) && r.last() == SnapshotDescriptionView {
                snapshot_start_time: start_time,
                qumulo_unique_id: tag.value->0,
                snapshot_description: description,
            }
        }),
{
    let r = list_tag(listed, start_time, description, tag);
    if r.len() == listed.len() + 1 {
        assert(listed_ids(r) =~= listed_ids(listed).push(tag.value->0));
        assert(listed_ids(r)[listed.len() as int] == tag.value->0);
    }
}

proof fn lemma_list_tags(
    listed: Seq<SnapshotDescriptionView>,
    start_time: Seq<char>,
    description: Seq<char>,
    tags: Seq<TagView>,
)
    requires
        forall|j: int| 0 <= j < tags.len() ==> (#[trigger] tags[j]).key is Some && tags[j].value is Some,
    ensures
        ({
            let r = list_tags(listed, start_time, description, tags);
            &&& extends(listed, r)
            &&& listed_ids(listed).no_duplicates() ==> listed_ids(r).no_duplicates()
            &&& forall|j: int|
                0 <= j < tags.len() && is_unique_id_tag(#[trigger] tags[j])
                    ==> listed_ids(r).contains(tags[j].value->0)
            &&& forall|k: int|
                listed.len() <= k < r.len() ==> (#[trigger] r[k]).snapshot_start_time == start_time
                    && r[k].snapshot_description == description && exists|j: int|
                    0 <= j < tags.len() && is_unique_id_tag(#[trigger] tags[j]) && tags[j].value
                        == Some(r[k].qumulo_unique_id)
        }),
    decreases tags.len(),
{
    if tags.len() > 0 {
        let r1 = list_tag(listed, start_time, description, tags[0]);
        let rest = tags.drop_first();
        lemma_list_tag(listed, start_time, description, tags[0]);
        assert forall|j: int| 0 <= j < rest.len() implies (#[trigger] rest[j]).key is Some && rest[j].value is Some by {
            assert(rest[j] == tags[j + 1]);
        }
        lemma_list_tags(r1, start_time, description, rest);
        let r = list_tags(listed, start_time, description, tags);
        assert(r == list_tags(r1, start_time, description, rest));
        assert forall|j: int|
            0 <= j < tags.len() && is_unique_id_tag(#[trigger] tags[j])
                implies listed_ids(r).contains(tags[j].value->0) by {
            if j == 0 {
                lemma_extends_ids(r1, r, tags[0].value->0);
            } else {
                assert(rest[j - 1] == tags[j]);
            }
        }
        assert forall|k: int| listed.len() <= k < r.len() implies (#[trigger] r[k]).snapshot_start_time == start_time
            && r[k].snapshot_description == description && exists|j: int|
            0 <= j < tags.len() && is_unique_id_tag(#[trigger] tags[j]) && tags[j].value == Some(
                r[k].qumulo_unique_id,
            ) by {
            if k < r1.len() {
                assert(r[k] == r1[k]);
                assert(k == listed.len());
                assert(r1.last() == r1[k]);
                assert(is_unique_id_tag(tags[0]));
            } else {
                let j = choose|j: int|
                    0 <= j < rest.len() && is_unique_id_tag(#[trigger] rest[j]) && rest[j].value == Some(
                        r[k].qumulo_unique_id,
                    );
                assert(rest[j] == tags[j + 1]);
            }
        }
    }
}

proof fn lemma_list_snapshots(listed: Seq<SnapshotDescriptionView>, snapshots: Seq<SnapshotView>)
    requires
        forall|i: int| 0 <= i < snapshots.len() ==> listable(#[trigger] snapshots[i]),
    ensures
        ({
            let r = list_snapshots(listed, snapshots);
            &&& extends(listed, r)
            &&& listed_ids(listed).no_duplicates() ==> listed_ids(r).no_duplicates()
            &&& forall|i: int, j: int|
                0 <= i < snapshots.len() && 0 <= j < snapshots[i].tags->0.len() && is_unique_id_tag(
                    #[trigger] snapshots[i].tags->0[j],
                ) ==> listed_ids(r).contains(snapshots[i].tags->0[j].value->0)
            &&& forall|k: int|
                listed.len() <= k < r.len() ==> exists|i: int|
                    0 <= i < snapshots.len() && #[trigger] r[k].snapshot_start_time
                        == snapshots[i].start_time->0 && r[k].snapshot_description
                        == snapshots[i].description->0 && carries_unique_id(
                        snapshots[i],
                        r[k].qumulo_unique_id,
                    )
        }),
    decreases snapshots.len(),
{
    if snapshots.len() > 0 {
        let s = snapshots[0];
        assert(listable(s));
        let r1 = list_tags(listed, s.start_time->0, s.description->0, s.tags->0);
        let rest = snapshots.drop_first();
        lemma_list_tags(listed, s.start_time->0, s.description->0, s.tags->0);
        assert forall|i: int| 0 <= i < rest.len() implies listable(#[trigger] rest[i]) by {
            assert(rest[i] == snapshots[i + 1]);
        }
        lemma_list_snapshots(r1, rest);
        let r = list_snapshots(listed, snapshots);
        assert(r == list_snapshots(r1, rest));
        assert forall|i: int, j: int|
            0 <= i < snapshots.len() && 0 <= j < snapshots[i].tags->0.len() && is_unique_id_tag(
                #[trigger] snapshots[i].tags->0[j],
            ) implies listed_ids(r).contains(snapshots[i].tags->0[j].value->0) by {
            if i == 0 {
                lemma_extends_ids(r1, r, snapshots[0].tags->0[j].value->0);
            } else {
                assert(rest[i - 1] == snapshots[i]);
                assert(is_unique_id_tag(rest[i - 1].tags->0[j]));
            }
        }
        assert forall|k: int| listed.len() <= k < r.len() implies exists|i: int|
            0 <= i < snapshots.len() && #[trigger] r[k].snapshot_start_time == snapshots[i].start_time->0
                && r[k].snapshot_description == snapshots[i].description->0 && carries_unique_id(
                snapshots[i],
                r[k].qumulo_unique_id,
            ) by {
            if k < r1.len() {
                assert(r[k] == r1[k]);
                let j = choose|j: int|
                    0 <= j < s.tags->0.len() && is_unique_id_tag(#[trigger] s.tags->0[j])
                        && s.tags->0[j].value == Some(r1[k].qumulo_unique_id);
                assert(carries_unique_id(snapshots[0], r[k].qumulo_unique_id));
            } else {
                let i = choose|i: int|
                    0 <= i < rest.len() && #[trigger] r[k].snapshot_start_time == rest[i].start_time->0
                        && r[k].snapshot_description == rest[i].description->0 && carries_unique_id(
                        rest[i],
                        r[k].qumulo_unique_id,
                    );
                assert(rest[i] == snapshots[i + 1]);
            }
        }
    }
}

/// Whether a snapshot is tagged as part of the cluster snapshot `id`.
pub open spec fn carries_unique_id(s: SnapshotView, id: Seq<char>) -> bool {
    exists|j: int|
        0 <= j < s.tags->0.len() && is_unique_id_tag(#[trigger] s.tags->0[j]) && s.tags->0[j].value
            == Some(id)
}

/// The listing shows each cluster snapshot once: no unique id is listed
/// twice, every unique id that a snapshot carries is listed, and every listed
/// line shows the start time and description of a snapshot that carries its id.
pub proof fn lemma_listing_one_line_per_cluster_snapshot(snapshots: Seq<SnapshotView>)
    requires
        forall|i: int| 0 <= i < snapshots.len() ==> listable(#[trigger] snapshots[i]),
    ensures
        ({
            let listing = list_snapshots(seq![], snapshots);
            &&& listed_ids(listing).no_duplicates()
            &&& forall|i: int, id: Seq<char>|
                0 <= i < snapshots.len() && #[trigger] carries_unique_id(snapshots[i], id)
                    ==> listed_ids(listing).contains(id)
            &&& forall|k: int|
                0 <= k < listing.len() ==> exists|i: int|
                    0 <= i < snapshots.len() && #[trigger] listing[k].snapshot_start_time
                        == snapshots[i].start_time->0 && listing[k].snapshot_description
                        == snapshots[i].description->0 && carries_unique_id(
                        snapshots[i],
                        listing[k].qumulo_unique_id,
                    )
        }),
{
    let empty = Seq::<SnapshotDescriptionView>::empty();
    assert(listed_ids(empty) =~= Seq::<Seq<char>>::empty());
    lemma_list_snapshots(empty, snapshots);
    let listing = list_snapshots(empty, snapshots);
    assert forall|i: int, id: Seq<char>|
        0 <= i < snapshots.len() && #[trigger] carries_unique_id(snapshots[i], id)
            implies listed_ids(listing).contains(id) by {
        let j = choose|j: int|
            0 <= j < snapshots[i].tags->0.len() && is_unique_id_tag(#[trigger] snapshots[i].tags->0[j])
                && snapshots[i].tags->0[j].value == Some(id);
        assert(is_unique_id_tag(snapshots[i].tags->0[j]));
    }
}

/// The header row of the snapshot table.
pub open spec fn table_header() -> Seq<Seq<char>> {
    seq!["Created Time"@, "Unique Identifier Tag"@, "Description"@]
}

/// The table row of one listed cluster snapshot.
pub open spec fn table_row(d: SnapshotDescriptionView) -> Seq<Seq<char>> {
    seq![d.snapshot_start_time, d.qumulo_unique_id, d.snapshot_description]
}

/// The rows of the snapshot table: the header, then one row per listed
/// cluster snapshot, in order.
pub fn snapshot_table_rows(descriptions: &Vec<SnapshotDescription>) -> (r: Vec<Vec<String>>)
    ensures
        r.len() == descriptions.len() + 1,
        r.deep_view()[0] == table_header(),
        forall|k: int|
            0 <= k < descriptions.len() ==> #[trigger] r.deep_view()[k + 1] == table_row(
                descriptions.deep_view()[k],
            ),
{
    let header = vec!["Created Time".to_owned(), "Unique Identifier Tag".to_owned(), "Description".to_owned()];
    assert(header.deep_view() =~= table_header());
    let mut rows: Vec<Vec<String>> = vec![header];
    let n = descriptions.len();
    for i in 0..n
        invariant
            n == descriptions.len(),
            rows.len() == i + 1,
            rows.deep_view()[0] == table_header(),
            forall|k: int|
                0 <= k < i ==> #[trigger] rows.deep_view()[k + 1] == table_row(descriptions.deep_view()[k]),
    {
        let d = &descriptions[i];
        let row = vec![
            d.snapshot_start_time.clone(),
            d.qumulo_unique_id.clone(),
            d.snapshot_description.clone(),
        ];
        assert(row.deep_view() =~= table_row(descriptions.deep_view()[i as int]));
        let ghost before = rows.deep_view();
        rows.push(row);
        assert(rows.deep_view() =~= before.push(row.deep_view()));
    }
    rows
}

} // verus!
