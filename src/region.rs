use vstd::prelude::*;
use vstd::string::*;

verus! {

/// `eu-west-1`, the region used when neither an override nor the
/// environment names one.
pub open spec fn fallback_region() -> Seq<char> {
    seq!['e', 'u', '-', 'w', 'e', 's', 't', '-', '1']
}

/// A region candidate that is present and not empty.
pub open spec fn usable(candidate: Option<String>) -> bool {
    candidate matches Some(name) && name@.len() > 0
}

/// The first usable candidate among the explicit override and the
/// environment's region, else the fallback region.
pub open spec fn spec_resolved_region(
    override_region: Option<String>,
    environment_region: Option<String>,
) -> Seq<char> {
    if usable(override_region) {
        override_region->0@
    } else if usable(environment_region) {
        environment_region->0@
    } else {
        fallback_region()
    }
}

/// Picks the region to talk to: the override if it is given and not empty,
/// else the environment's region if it is given and not empty, else
/// `eu-west-1`.
pub fn resolve_region(
    override_region: &Option<String>,
    environment_region: &Option<String>,
) -> (r: String)
    ensures
        r@ == spec_resolved_region(*override_region, *environment_region),
{
    if let Some(name) = override_region {
        if !name.as_str().is_empty() {
            return name.clone();
        }
    }
    if let Some(name) = environment_region {
        if !name.as_str().is_empty() {
            return name.clone();
        }
    }
    proof {
        reveal_strlit("eu-west-1");
    }
    String::from_str("eu-west-1")
}

/// A usable override decides the region, whatever the environment holds.
pub proof fn lemma_override_wins(override_region: String, environment_region: Option<String>)
    requires
        override_region@.len() > 0,
    ensures
        spec_resolved_region(Some(override_region), environment_region) == override_region@,
{
}

/// With no override and no region from the environment, the region is
/// `eu-west-1`.
pub proof fn lemma_fallback_when_unset()
    ensures
        spec_resolved_region(None, None) == fallback_region(),
{
}

} // verus!
