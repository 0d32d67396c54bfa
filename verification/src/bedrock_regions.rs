//! Amazon Bedrock Mantle regions.

use crate::text::str_eq;
use vstd::prelude::*;

verus! {

/// The regions in which Amazon Bedrock Mantle is available.
pub open spec fn mantle_regions() -> Seq<Seq<char>> {
    seq![
        "us-east-2"@,
        "us-east-1"@,
        "us-west-2"@,
        "ap-southeast-3"@,
        "ap-south-1"@,
        "ap-northeast-1"@,
        "eu-central-1"@,
        "eu-west-1"@,
        "eu-west-2"@,
        "eu-south-1"@,
        "eu-north-1"@,
        "sa-east-1"@,
    ]
}

/// Returns whether Amazon Bedrock Mantle is available in `region`.
pub fn is_supported_amazon_bedrock_region(region: &str) -> (supported: bool)
    ensures
        supported == mantle_regions().contains(region@),
{
    let regions = [
        "us-east-2",
        "us-east-1",
        "us-west-2",
        "ap-southeast-3",
        "ap-south-1",
        "ap-northeast-1",
        "eu-central-1",
        "eu-west-1",
        "eu-west-2",
        "eu-south-1",
        "eu-north-1",
        "sa-east-1",
    ];
    let mut i: usize = 0;
    while i < regions.len()
        invariant
            i <= regions@.len(),
            regions@.len() == mantle_regions().len(),
            forall|j: int| 0 <= j < regions@.len() ==> regions@[j]@ == #[trigger] mantle_regions()[j],
            forall|j: int| 0 <= j < i ==> #[trigger] mantle_regions()[j] != region@,
        decreases regions@.len() - i,
    {
        if str_eq(regions[i], region) {
            assert(mantle_regions()[i as int] == region@);
            return true;
        }
        i = i + 1;
    }
    false
}

/// The model is available in these twelve regions and in no other.
pub proof fn law_exactly_these_regions_are_supported(region: Seq<char>)
    ensures
        mantle_regions().contains(region) <==> {
            ||| region == "us-east-1"@
            ||| region == "us-east-2"@
            ||| region == "us-west-2"@
            ||| region == "ap-southeast-3"@
            ||| region == "ap-south-1"@
            ||| region == "ap-northeast-1"@
            ||| region == "eu-central-1"@
            ||| region == "eu-west-1"@
            ||| region == "eu-west-2"@
            ||| region == "eu-south-1"@
            ||| region == "eu-north-1"@
            ||| region == "sa-east-1"@
        },
{
    assert(mantle_regions()[0] == "us-east-2"@);
    assert(mantle_regions()[1] == "us-east-1"@);
    assert(mantle_regions()[2] == "us-west-2"@);
    assert(mantle_regions()[3] == "ap-southeast-3"@);
    assert(mantle_regions()[4] == "ap-south-1"@);
    assert(mantle_regions()[5] == "ap-northeast-1"@);
    assert(mantle_regions()[6] == "eu-central-1"@);
    assert(mantle_regions()[7] == "eu-west-1"@);
    assert(mantle_regions()[8] == "eu-west-2"@);
    assert(mantle_regions()[9] == "eu-south-1"@);
    assert(mantle_regions()[10] == "eu-north-1"@);
    assert(mantle_regions()[11] == "sa-east-1"@);
}

/// Asked about a region, the library says that it is supported exactly when it
/// is one of those regions.
pub proof fn law_a_region_is_supported_or_not(region: &str, supported: bool)
    requires
        call_ensures(is_supported_amazon_bedrock_region, (region,), supported),
    ensures
        supported <==> mantle_regions().contains(region@),
{
}

} // verus!
