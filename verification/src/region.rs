//! The AWS regions that the tool knows by name.

use vstd::prelude::*;

verus! {

/// An AWS region.
#[derive(Clone, Copy, Debug, PartialEq, Eq, Structural)]
pub enum Region {
    UsWest1,
    UsWest2,
    UsEast1,
    UsEast2,
    ApEast1,
    ApSouth1,
    ApNortheast1,
    ApNortheast2,
    ApSoutheast1,
    ApSoutheast2,
    CaCentral1,
    CnNorth1,
    CnNorthwest1,
    EuCentral1,
    EuWest1,
    EuWest2,
    EuWest3,
    EuNorth1,
    SaEast1,
    UsGovEast1,
    UsGovWest1,
}

/// The name of a region, as the user types it.
pub open spec fn region_name(r: Region) -> Seq<char> {
    match r {
        Region::UsWest1 => "us-west-1"@,
        Region::UsWest2 => "us-west-2"@,
        Region::UsEast1 => "us-east-1"@,
        Region::UsEast2 => "us-east-2"@,
        Region::ApEast1 => "ap-east-1"@,
        Region::ApSouth1 => "ap-south-1"@,
        Region::ApNortheast1 => "ap-northeast-1"@,
        Region::ApNortheast2 => "ap-northeast-2"@,
        Region::ApSoutheast1 => "ap-southeast-1"@,
        Region::ApSoutheast2 => "ap-southeast-2"@,
        Region::CaCentral1 => "ca-central-1"@,
        Region::CnNorth1 => "cn-north-1"@,
        Region::CnNorthwest1 => "cn-northwest-1"@,
        Region::EuCentral1 => "eu-central-1"@,
        Region::EuWest1 => "eu-west-1"@,
        Region::EuWest2 => "eu-west-2"@,
        Region::EuWest3 => "eu-west-3"@,
        Region::EuNorth1 => "eu-north-1"@,
        Region::SaEast1 => "sa-east-1"@,
        Region::UsGovEast1 => "us-gov-east-1"@,
        Region::UsGovWest1 => "us-gov-west-1"@,
    }
}

impl Region {
    /// The name of the region, as the user types it.
    pub fn name(&self) -> (s: &'static str)
        ensures
            s@ == region_name(*self),
    {
        match self {
            Region::UsWest1 => "us-west-1",
            Region::UsWest2 => "us-west-2",
            Region::UsEast1 => "us-east-1",
            Region::UsEast2 => "us-east-2",
            Region::ApEast1 => "ap-east-1",
            Region::ApSouth1 => "ap-south-1",
            Region::ApNortheast1 => "ap-northeast-1",
            Region::ApNortheast2 => "ap-northeast-2",
            Region::ApSoutheast1 => "ap-southeast-1",
            Region::ApSoutheast2 => "ap-southeast-2",
            Region::CaCentral1 => "ca-central-1",
            Region::CnNorth1 => "cn-north-1",
            Region::CnNorthwest1 => "cn-northwest-1",
            Region::EuCentral1 => "eu-central-1",
            Region::EuWest1 => "eu-west-1",
            Region::EuWest2 => "eu-west-2",
            Region::EuWest3 => "eu-west-3",
            Region::EuNorth1 => "eu-north-1",
            Region::SaEast1 => "sa-east-1",
            Region::UsGovEast1 => "us-gov-east-1",
            Region::UsGovWest1 => "us-gov-west-1",
        }
    }
}

/// No two regions have the same name, so a name picks out at most one region.
pub proof fn lemma_region_names_distinct(a: Region, b: Region)
    ensures
        region_name(a) == region_name(b) ==> a == b,
{
    reveal_strlit("us-west-1");
    reveal_strlit("us-west-2");
    reveal_strlit("us-east-1");
    reveal_strlit("us-east-2");
    reveal_strlit("ap-east-1");
    reveal_strlit("ap-south-1");
    reveal_strlit("ap-northeast-1");
    reveal_strlit("ap-northeast-2");
    reveal_strlit("ap-southeast-1");
    reveal_strlit("ap-southeast-2");
    reveal_strlit("ca-central-1");
    reveal_strlit("cn-north-1");
    reveal_strlit("cn-northwest-1");
    reveal_strlit("eu-central-1");
    reveal_strlit("eu-west-1");
    reveal_strlit("eu-west-2");
    reveal_strlit("eu-west-3");
    reveal_strlit("eu-north-1");
    reveal_strlit("sa-east-1");
    reveal_strlit("us-gov-east-1");
    reveal_strlit("us-gov-west-1");
    if region_name(a) == region_name(b) {
        assert(region_name(a).len() == region_name(b).len());
        assert(region_name(a)[0] == region_name(b)[0]);
        assert(region_name(a)[1] == region_name(b)[1]);
        assert(region_name(a)[3] == region_name(b)[3]);
        assert(region_name(a)[4] == region_name(b)[4]);
        assert(region_name(a)[5] == region_name(b)[5]);
        assert(region_name(a)[7] == region_name(b)[7]);
        assert(region_name(a)[8] == region_name(b)[8]);
        assert(region_name(a).last() == region_name(b).last());
    }
}

/// Each region goes by its AWS code: the code of US East (N. Virginia) is
/// "us-east-1", that of US East (Ohio) "us-east-2", and so on for every region
/// the tool knows. With `lemma_region_names_distinct`, a code picks out its own
/// region and no other.
pub proof fn lemma_region_codes()
    ensures
        region_name(Region::UsWest1) == "us-west-1"@,
        region_name(Region::UsWest2) == "us-west-2"@,
        region_name(Region::UsEast1) == "us-east-1"@,
        region_name(Region::UsEast2) == "us-east-2"@,
        region_name(Region::ApEast1) == "ap-east-1"@,
        region_name(Region::ApSouth1) == "ap-south-1"@,
        region_name(Region::ApNortheast1) == "ap-northeast-1"@,
        region_name(Region::ApNortheast2) == "ap-northeast-2"@,
        region_name(Region::ApSoutheast1) == "ap-southeast-1"@,
        region_name(Region::ApSoutheast2) == "ap-southeast-2"@,
        region_name(Region::CaCentral1) == "ca-central-1"@,
        region_name(Region::CnNorth1) == "cn-north-1"@,
        region_name(Region::CnNorthwest1) == "cn-northwest-1"@,
        region_name(Region::EuCentral1) == "eu-central-1"@,
        region_name(Region::EuWest1) == "eu-west-1"@,
        region_name(Region::EuWest2) == "eu-west-2"@,
        region_name(Region::EuWest3) == "eu-west-3"@,
        region_name(Region::EuNorth1) == "eu-north-1"@,
        region_name(Region::SaEast1) == "sa-east-1"@,
        region_name(Region::UsGovEast1) == "us-gov-east-1"@,
        region_name(Region::UsGovWest1) == "us-gov-west-1"@,
{
}

} // verus!
