//! Checks on what EC2 reports, tag lookup and region names.

use vstd::prelude::*;

use crate::constants;
use crate::ec2::{Tag, TagView, Volume, VolumeStatusItem, VolumeStatusItemView, VolumeView};
use crate::qsnaperror::QsnapError;
use crate::region::{region_name, Region};

verus! {

/// Whether two strings hold the same characters.
pub(crate) fn str_equal(a: &str, b: &str) -> (r: bool)
    ensures
        r == (a@ == b@),
{
    a.to_owned() == b.to_owned()
}

/// Whether a volume status entry reports the status `status`.
pub open spec fn has_status(item: VolumeStatusItemView, status: Seq<char>) -> bool {
    item.volume_status matches Some(info) && info.status == Some(status)
}

/// The entries are read in order up to the first one that does not report
/// `status`; each of them must carry a status summary.
pub open spec fn statuses_readable(items: Seq<VolumeStatusItemView>, status: Seq<char>) -> bool {
    forall|i: int|
        0 <= i < items.len() && (forall|j: int| 0 <= j < i ==> has_status(#[trigger] items[j], status))
            ==> (#[trigger] items[i]).volume_status is Some
}

/// Whether the entries can be read up to the first one that does not report
/// `status`.
pub fn statuses_are_readable(volume_statuses: &Vec<VolumeStatusItem>, status: &str) -> (r: bool)
    ensures
        r == statuses_readable(volume_statuses.deep_view(), status@),
{
    let ghost items = volume_statuses.deep_view();
    let wanted = status.to_owned();
    let n = volume_statuses.len();
    for i in 0..n
        invariant
            n == volume_statuses.len(),
            items == volume_statuses.deep_view(),
            wanted@ == status@,
            forall|j: int| 0 <= j < i ==> has_status(#[trigger] items[j], status@),
    {
        let item = &volume_statuses[i];
        assert(items[i as int] == item.deep_view());
        match &item.volume_status {
            None => {
                return false;
            },
            Some(info) => {
                let matches = match &info.status {
                    Some(s) => *s == wanted,
                    None => false,
                };
                if !matches {
                    assert(!has_status(items[i as int], status@));
                    assert forall|k: int|
                        0 <= k < items.len() && (forall|j: int| 0 <= j < k ==> has_status(#[trigger] items[j], status@))
                            implies (#[trigger] items[k]).volume_status is Some by {
                        if k > i {
                            assert(has_status(items[i as int], status@));
                        }
                    }
                    return true;
                }
            },
        }
    }
    true
}

/// Whether every entry reports status `status`.
pub open spec fn all_have_status(items: Seq<VolumeStatusItemView>, status: Seq<char>) -> bool {
    forall|i: int| 0 <= i < items.len() ==> has_status(#[trigger] items[i], status)
}

/// Whether every entry of a volume status report has status `status`.
pub fn check_all_volumes_for_status(volume_statuses: Vec<VolumeStatusItem>, status: &str) -> (r: bool)
    requires
        statuses_readable(volume_statuses.deep_view(), status@),
    ensures
        r == all_have_status(volume_statuses.deep_view(), status@),
{
    let ghost items = volume_statuses.deep_view();
    let wanted = status.to_owned();
    let n = volume_statuses.len();
    for i in 0..n
        invariant
            n == volume_statuses.len(),
            items == volume_statuses.deep_view(),
            wanted@ == status@,
            statuses_readable(items, status@),
            forall|j: int| 0 <= j < i ==> has_status(#[trigger] items[j], status@),
    {
        let item = &volume_statuses[i];
        assert(items[i as int] == item.deep_view());
        assert(forall|j: int| 0 <= j < i ==> has_status(#[trigger] items[j], status@));
        assert(item.volume_status is Some);
        let matches = match &item.volume_status {
            Some(info) => match &info.status {
                Some(s) => *s == wanted,
                None => false,
            },
            None => false,
        };
        if !matches {
            assert(!has_status(items[i as int], status@));
            return false;
        }
    }
    true
}

/// Whether a volume is in state `state`.
pub open spec fn has_state(volume: VolumeView, state: Seq<char>) -> bool {
    volume.state == Some(state)
}

/// Whether every volume is in state `state`.
pub open spec fn all_in_state(volumes: Seq<VolumeView>, state: Seq<char>) -> bool {
    forall|i: int| 0 <= i < volumes.len() ==> has_state(#[trigger] volumes[i], state)
}

/// Whether every volume is in state `state`.
pub fn check_all_volumes_for_state(volumes: Vec<Volume>, state: &str) -> (r: bool)
    ensures
        r == all_in_state(volumes.deep_view(), state@),
{
    all_volumes_in_state(&volumes, state)
}

/// Whether every volume is in state `state`.
pub fn all_volumes_in_state(volumes: &Vec<Volume>, state: &str) -> (r: bool)
    ensures
        r == all_in_state(volumes.deep_view(), state@),
{
    let ghost vs = volumes.deep_view();
    let wanted = state.to_owned();
    let n = volumes.len();
    for i in 0..n
        invariant
            n == volumes.len(),
            vs == volumes.deep_view(),
            wanted@ == state@,
            forall|j: int| 0 <= j < i ==> has_state(#[trigger] vs[j], state@),
    {
        let volume = &volumes[i];
        assert(vs[i as int] == volume.deep_view());
        let matches = match &volume.state {
            Some(s) => *s == wanted,
            None => false,
        };
        if !matches {
            assert(!has_state(vs[i as int], state@));
            return false;
        }
    }
    true
}

/// The region whose name is `user_region`, or an error when no region has
/// that name.
pub fn get_region_from_user_input(user_region: &str) -> (r: Result<Region, QsnapError>)
    ensures
        match r {
            Ok(region) => region_name(region) == user_region@,
            Err(e) => (forall|region: Region| region_name(region) != user_region@)
                && e@ == constants::UNKNOWN_REGION_ERROR@,
        },
{
    if str_equal(user_region, "us-west-1") {
        Ok(Region::UsWest1)
    } else if str_equal(user_region, "us-west-2") {
        Ok(Region::UsWest2)
    } else if str_equal(user_region, "us-east-1") {
        Ok(Region::UsEast1)
    } else if str_equal(user_region, "us-east-2") {
        Ok(Region::UsEast2)
    } else if str_equal(user_region, "ap-east-1") {
        Ok(Region::ApEast1)
    } else if str_equal(user_region, "ap-south-1") {
        Ok(Region::ApSouth1)
    } else if str_equal(user_region, "ap-northeast-1") {
        Ok(Region::ApNortheast1)
    } else if str_equal(user_region, "ap-northeast-2") {
        Ok(Region::ApNortheast2)
    } else if str_equal(user_region, "ap-southeast-1") {
        Ok(Region::ApSoutheast1)
    } else if str_equal(user_region, "ap-southeast-2") {
        Ok(Region::ApSoutheast2)
    } else if str_equal(user_region, "ca-central-1") {
        Ok(Region::CaCentral1)
    } else if str_equal(user_region, "cn-north-1") {
        Ok(Region::CnNorth1)
    } else if str_equal(user_region, "cn-northwest-1") {
        Ok(Region::CnNorthwest1)
    } else if str_equal(user_region, "eu-central-1") {
        Ok(Region::EuCentral1)
    } else if str_equal(user_region, "eu-west-1") {
        Ok(Region::EuWest1)
    } else if str_equal(user_region, "eu-west-2") {
        Ok(Region::EuWest2)
    } else if str_equal(user_region, "eu-west-3") {
        Ok(Region::EuWest3)
    } else if str_equal(user_region, "eu-north-1") {
        Ok(Region::EuNorth1)
    } else if str_equal(user_region, "sa-east-1") {
        Ok(Region::SaEast1)
    } else if str_equal(user_region, "us-gov-east-1") {
        Ok(Region::UsGovEast1)
    } else if str_equal(user_region, "us-gov-west-1") {
        Ok(Region::UsGovWest1)
    } else {
        Err(QsnapError::new(constants::UNKNOWN_REGION_ERROR))
    }
}

/// The first tag with key `key`, as `Iterator::find` gives it.
pub open spec fn find_tag(tags: Seq<TagView>, key: Seq<char>) -> Option<TagView>
    decreases tags.len(),
{
    if tags.len() == 0 {
        None
    } else if tags[0].key == Some(key) {
        Some(tags[0])
    } else {
        find_tag(tags.drop_first(), key)
    }
}

/// Whether some tag has key `key`.
pub fn has_tag(tags: &Vec<Tag>, key: &str) -> (r: bool)
    ensures
        r == find_tag(tags.deep_view(), key@) is Some,
{
    let ghost ts = tags.deep_view();
    let wanted = key.to_owned();
    let n = tags.len();
    let mut i: usize = 0;
    assert(ts.skip(0) =~= ts);
    while i < n
        invariant
            n == tags.len(),
            ts == tags.deep_view(),
            wanted@ == key@,
            i <= n,
            find_tag(ts, key@) == find_tag(ts.skip(i as int), key@),
        decreases n - i,
    {
        let tag = &tags[i];
        assert(ts.skip(i as int)[0] == tag.deep_view());
        let found = match &tag.key {
            Some(k) => *k == wanted,
            None => false,
        };
        if found {
            return true;
        }
        assert(ts.skip(i as int).drop_first() =~= ts.skip(i + 1));
        i = i + 1;
    }
    assert(ts.skip(i as int).len() == 0);
    false
}

/// The value of the first tag whose key is `key`; such a tag must exist.
pub fn get_tag_value(tags: &Vec<Tag>, key: &str) -> (r: Option<String>)
    requires
        find_tag(tags.deep_view(), key@) is Some,
    ensures
        r.deep_view() == find_tag(tags.deep_view(), key@)->0.value,
{
    let ghost ts = tags.deep_view();
    let wanted = key.to_owned();
    let n = tags.len();
    let mut i: usize = 0;
    assert(ts.skip(0) =~= ts);
    while i < n
        invariant
            n == tags.len(),
            ts == tags.deep_view(),
            wanted@ == key@,
            i <= n,
            find_tag(ts, key@) == find_tag(ts.skip(i as int), key@),
            find_tag(ts, key@) is Some,
        decreases n - i,
    {
        let tag = &tags[i];
        assert(ts.skip(i as int)[0] == tag.deep_view());
        let found = match &tag.key {
            Some(k) => *k == wanted,
            None => false,
        };
        if found {
            return tag.value.clone();
        }
        assert(ts.skip(i as int).drop_first() =~= ts.skip(i + 1));
        i = i + 1;
    }
    assert(ts.skip(i as int).len() == 0);
    None
}

} // verus!
