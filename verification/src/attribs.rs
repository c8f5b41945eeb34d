//! The attribute list a context is created from: key and value pairs in a
//! fixed order, closed by a zero.

use crate::config::{GlProfile, Version};
use vstd::prelude::*;

verus! {

/// The key that selects a profile.
pub const OSMESA_PROFILE: i32 = 0x33;

/// The value of `OSMESA_PROFILE` for the core profile.
pub const OSMESA_CORE_PROFILE: i32 = 0x34;

/// The value of `OSMESA_PROFILE` for the compatibility profile.
pub const OSMESA_COMPAT_PROFILE: i32 = 0x35;

/// The key of the major version number.
pub const OSMESA_CONTEXT_MAJOR_VERSION: i32 = 0x36;

/// The key of the minor version number.
pub const OSMESA_CONTEXT_MINOR_VERSION: i32 = 0x37;

/// The value that stands for a profile.
pub open spec fn profile_value(profile: GlProfile) -> i32 {
    match profile {
        GlProfile::Compatibility => OSMESA_COMPAT_PROFILE,
        GlProfile::Core => OSMESA_CORE_PROFILE,
    }
}

/// The profile's key and value, or nothing where no profile is asked for.
pub open spec fn profile_pair(profile: Option<GlProfile>) -> Seq<i32> {
    match profile {
        Some(p) => seq![OSMESA_PROFILE, profile_value(p)],
        None => Seq::empty(),
    }
}

/// The major version's key and value, then the minor version's.
pub open spec fn version_pairs(version: Version) -> Seq<i32> {
    seq![
        OSMESA_CONTEXT_MAJOR_VERSION,
        version.0 as i32,
        OSMESA_CONTEXT_MINOR_VERSION,
        version.1 as i32,
    ]
}

/// The whole list: the profile pair if there is one, the two version pairs,
/// and the closing zero.
pub open spec fn attribute_list(profile: Option<GlProfile>, version: Version) -> Seq<i32> {
    profile_pair(profile) + version_pairs(version) + seq![0i32]
}

/// `list` is closed at index `end`: a zero stands there in a key's place,
/// and no key before it is zero, so a reader that takes pairs until a zero
/// key stops exactly there.
pub open spec fn closed_at(list: Seq<i32>, end: int) -> bool {
    &&& 0 <= end < list.len()
    &&& end % 2 == 0
    &&& list[end] == 0
    &&& forall|k: int| 0 <= k < end && k % 2 == 0 ==> list[k] != 0
}

/// The value that a reader finds for `key`: it takes the pairs in order,
/// stops at a zero key or where no whole pair is left, and the first pair
/// whose key is `key` counts.
pub open spec fn value_of(list: Seq<i32>, key: i32) -> Option<i32>
    decreases list.len(),
{
    if list.len() < 2 || list[0] == 0 {
        None
    } else if list[0] == key {
        Some(list[1])
    } else {
        value_of(list.skip(2), key)
    }
}

/// Builds the list for a profile and a version.
pub fn build_attributes(profile: Option<GlProfile>, version: Version) -> (attribs: Vec<i32>)
    ensures
        attribs@ == attribute_list(profile, version),
{
    let mut attribs: Vec<i32> = Vec::new();
    if let Some(profile) = profile {
        attribs.push(OSMESA_PROFILE);
        match profile {
            GlProfile::Compatibility => {
                attribs.push(OSMESA_COMPAT_PROFILE);
            },
            GlProfile::Core => {
                attribs.push(OSMESA_CORE_PROFILE);
            },
        }
    }
    attribs.push(OSMESA_CONTEXT_MAJOR_VERSION);
    attribs.push(version.0 as i32);
    attribs.push(OSMESA_CONTEXT_MINOR_VERSION);
    attribs.push(version.1 as i32);
    attribs.push(0);
    attribs
}

/// With a profile, the list is the profile pair, then the two version pairs,
/// then the closing zero, and nothing else.
pub proof fn lemma_list_with_profile(profile: GlProfile, version: Version)
    ensures
        attribute_list(Some(profile), version) == seq![
            OSMESA_PROFILE,
            profile_value(profile),
            OSMESA_CONTEXT_MAJOR_VERSION,
            version.0 as i32,
            OSMESA_CONTEXT_MINOR_VERSION,
            version.1 as i32,
            0i32,
        ],
{
}

/// Without a profile, the list is the two version pairs, then the closing
/// zero: the profile's key stands in no key's place.
pub proof fn lemma_list_without_profile(version: Version)
    ensures
        attribute_list(None, version) == seq![
            OSMESA_CONTEXT_MAJOR_VERSION,
            version.0 as i32,
            OSMESA_CONTEXT_MINOR_VERSION,
            version.1 as i32,
            0i32,
        ],
        forall|k: int|
            0 <= k < attribute_list(None, version).len() && k % 2 == 0 ==> attribute_list(
                None,
                version,
            )[k] != OSMESA_PROFILE,
{
}

/// Every list is closed at its last index and nowhere before it: it ends
/// with one zero that a reader takes for the end, whatever the version's
/// numbers are.
pub proof fn lemma_list_closed_at_its_end(profile: Option<GlProfile>, version: Version)
    ensures
        closed_at(
            attribute_list(profile, version),
            attribute_list(profile, version).len() - 1,
        ),
        forall|end: int|
            closed_at(attribute_list(profile, version), end) ==> end == attribute_list(
                profile,
                version,
            ).len() - 1,
{
    let list = attribute_list(profile, version);
    assert forall|end: int| closed_at(list, end) implies end == list.len() - 1 by {
        if end < list.len() - 1 {
            assert(list[end] != 0);
        }
    }
}

/// A reader of the list finds the version that was asked for, the profile
/// exactly when one was asked for, and no other key.
pub proof fn lemma_list_reads_back(profile: Option<GlProfile>, version: Version, key: i32)
    ensures
        value_of(attribute_list(profile, version), key) == if key
            == OSMESA_CONTEXT_MAJOR_VERSION {
            Some(version.0 as i32)
        } else if key == OSMESA_CONTEXT_MINOR_VERSION {
            Some(version.1 as i32)
        } else if key == OSMESA_PROFILE && profile is Some {
            Some(profile_value(profile->Some_0))
        } else {
            None
        },
{
    let list = attribute_list(profile, version);
    let versions = version_pairs(version) + seq![0i32];
    let minor = seq![OSMESA_CONTEXT_MINOR_VERSION, version.1 as i32, 0i32];
    assert(minor.skip(2) == seq![0i32]);
    assert(versions.skip(2) == minor);
    assert(value_of(versions, key) == if key == OSMESA_CONTEXT_MAJOR_VERSION {
        Some(version.0 as i32)
    } else if key == OSMESA_CONTEXT_MINOR_VERSION {
        Some(version.1 as i32)
    } else {
        None
    }) by {
        reveal_with_fuel(value_of, 3);
    }
    if profile is Some {
        assert(list.skip(2) == versions);
    } else {
        assert(list == versions);
    }
}

} // verus!
