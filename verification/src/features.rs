//! Feature bits of a virtio-net device.

use vstd::prelude::*;

verus! {

/// The device handles packets with a partial checksum.
pub const VIRTIO_NET_F_CSUM: u32 = 0;

/// The driver handles packets with a partial checksum.
pub const VIRTIO_NET_F_GUEST_CSUM: u32 = 1;

/// The guest's offloads can be changed through the control queue.
pub const VIRTIO_NET_F_CTRL_GUEST_OFFLOADS: u32 = 2;

/// The device reports a maximum transmission unit.
pub const VIRTIO_NET_F_MTU: u32 = 3;

/// The driver can receive TSOv4.
pub const VIRTIO_NET_F_GUEST_TSO4: u32 = 7;

/// The driver can receive TSOv6.
pub const VIRTIO_NET_F_GUEST_TSO6: u32 = 8;

/// The driver can receive TSO with ECN.
pub const VIRTIO_NET_F_GUEST_ECN: u32 = 9;

/// The driver can receive UFO.
pub const VIRTIO_NET_F_GUEST_UFO: u32 = 10;

/// The device can receive TSOv4.
pub const VIRTIO_NET_F_HOST_TSO4: u32 = 11;

/// The device can receive TSOv6.
pub const VIRTIO_NET_F_HOST_TSO6: u32 = 12;

/// The device can receive TSO with ECN.
pub const VIRTIO_NET_F_HOST_ECN: u32 = 13;

/// The device can receive UFO.
pub const VIRTIO_NET_F_HOST_UFO: u32 = 14;

/// The configuration has a status field.
pub const VIRTIO_NET_F_STATUS: u32 = 16;

/// There is a control queue.
pub const VIRTIO_NET_F_CTRL_VQ: u32 = 17;

/// The guest can announce itself on request.
pub const VIRTIO_NET_F_GUEST_ANNOUNCE: u32 = 21;

/// The queues can use event indexes.
pub const VIRTIO_RING_F_EVENT_IDX: u32 = 29;

/// The device complies with version 1 of the virtio standard.
pub const VIRTIO_F_VERSION_1: u32 = 32;

/// The device reaches guest memory through a platform's translation.
pub const VIRTIO_F_ACCESS_PLATFORM: u32 = 33;

/// The bits that are set in a feature word.
pub open spec fn feature_bits(features: u64) -> Set<u32> {
    Set::new(|bit: u32| bit < 64 && features & (1u64 << bit) != 0)
}

/// `bits` under a condition, else none.
pub open spec fn only_if(condition: bool, bits: Set<u32>) -> Set<u32> {
    if condition {
        bits
    } else {
        Set::empty()
    }
}

/// The features that a fresh device offers before its configuration space is built.
/// Segmentation and fragmentation offloads need the checksum offload.
pub open spec fn offered_features(
    mtu: bool,
    access_platform: bool,
    tso: bool,
    ufo: bool,
    csum: bool,
) -> Set<u32> {
    set![
        VIRTIO_RING_F_EVENT_IDX,
        VIRTIO_F_VERSION_1,
        VIRTIO_NET_F_CTRL_VQ,
        VIRTIO_NET_F_STATUS,
        VIRTIO_NET_F_GUEST_ANNOUNCE,
    ].union(only_if(mtu, set![VIRTIO_NET_F_MTU])).union(
        only_if(access_platform, set![VIRTIO_F_ACCESS_PLATFORM]),
    ).union(
        only_if(
            csum,
            set![
                VIRTIO_NET_F_CSUM,
                VIRTIO_NET_F_GUEST_CSUM,
                VIRTIO_NET_F_CTRL_GUEST_OFFLOADS,
            ],
        ),
    ).union(
        only_if(
            csum && tso,
            set![
                VIRTIO_NET_F_HOST_ECN,
                VIRTIO_NET_F_HOST_TSO4,
                VIRTIO_NET_F_HOST_TSO6,
                VIRTIO_NET_F_GUEST_ECN,
                VIRTIO_NET_F_GUEST_TSO4,
                VIRTIO_NET_F_GUEST_TSO6,
            ],
        ),
    ).union(only_if(csum && ufo, set![VIRTIO_NET_F_HOST_UFO, VIRTIO_NET_F_GUEST_UFO]))
}

/// Whether the bit `feature` is set in `features`.
pub fn has_feature(features: u64, feature: u32) -> (r: bool)
    requires
        feature < 64,
    ensures
        r == feature_bits(features).contains(feature),
{
    features & (1u64 << feature) != 0
}

/// `features` with the bit `feature` set.
pub fn with_feature(features: u64, feature: u32) -> (r: u64)
    requires
        feature < 64,
    ensures
        feature_bits(r) == feature_bits(features).insert(feature),
{
    let r: u64 = features | (1u64 << feature);
    assert forall|bit: u32| #[trigger]
        feature_bits(r).contains(bit) == feature_bits(features).insert(feature).contains(bit) by {
        if bit < 64 {
            assert((features | (1u64 << feature)) & (1u64 << bit) != 0 <==> (features & (1u64
                << bit) != 0 || bit == feature)) by (bit_vector)
                requires
                    bit < 64,
                    feature < 64,
            ;
        }
    }
    r
}

/// The feature word of a fresh device, before its configuration space is built.
pub fn fresh_features(
    mtu: bool,
    access_platform: bool,
    tso: bool,
    ufo: bool,
    csum: bool,
) -> (r: u64)
    ensures
        feature_bits(r) == offered_features(mtu, access_platform, tso, ufo, csum),
{
    assert(feature_bits(0) =~= Set::<u32>::empty()) by {
        assert forall|bit: u32| !#[trigger] feature_bits(0).contains(bit) by {
            assert(0u64 & (1u64 << bit) == 0) by (bit_vector);
        }
    }
    let mut features: u64 = with_feature(0, VIRTIO_RING_F_EVENT_IDX);
    features = with_feature(features, VIRTIO_F_VERSION_1);
    if mtu {
        features = with_feature(features, VIRTIO_NET_F_MTU);
    }
    if access_platform {
        features = with_feature(features, VIRTIO_F_ACCESS_PLATFORM);
    }
    if csum {
        features = with_feature(features, VIRTIO_NET_F_CSUM);
        features = with_feature(features, VIRTIO_NET_F_GUEST_CSUM);
        features = with_feature(features, VIRTIO_NET_F_CTRL_GUEST_OFFLOADS);
        if tso {
            features = with_feature(features, VIRTIO_NET_F_HOST_ECN);
            features = with_feature(features, VIRTIO_NET_F_HOST_TSO4);
            features = with_feature(features, VIRTIO_NET_F_HOST_TSO6);
            features = with_feature(features, VIRTIO_NET_F_GUEST_ECN);
            features = with_feature(features, VIRTIO_NET_F_GUEST_TSO4);
            features = with_feature(features, VIRTIO_NET_F_GUEST_TSO6);
        }
        if ufo {
            features = with_feature(features, VIRTIO_NET_F_HOST_UFO);
            features = with_feature(features, VIRTIO_NET_F_GUEST_UFO);
        }
    }
    features = with_feature(features, VIRTIO_NET_F_CTRL_VQ);
    features = with_feature(features, VIRTIO_NET_F_STATUS);
    features = with_feature(features, VIRTIO_NET_F_GUEST_ANNOUNCE);
    assert(feature_bits(features) =~= offered_features(mtu, access_platform, tso, ufo, csum));
    features
}

/// A feature word is known by the bits that are set in it.
pub proof fn law_features_known_by_bits(a: u64, b: u64)
    requires
        feature_bits(a) == feature_bits(b),
    ensures
        a == b,
{
    if a != b {
        let difference = a ^ b;
        let bit = vstd::std_specs::bits::u64_trailing_zeros(difference);
        vstd::std_specs::bits::axiom_u64_trailing_zeros(difference);
        assert(a != b ==> a ^ b != 0) by (bit_vector);
        assert(feature_bits(a).contains(bit) == (a & (1u64 << bit) != 0));
        assert(feature_bits(b).contains(bit) == (b & (1u64 << bit) != 0));
        assert((a & (1u64 << bit) != 0) != (b & (1u64 << bit) != 0)) by (bit_vector)
            requires
                bit < 64,
                difference == a ^ b,
                (difference >> (bit as u64)) & 1u64 == 1u64,
        ;
    }
}

/// A bit is in a feature word's set exactly if it is set in the word, up to the last one.
pub proof fn law_feature_bit(features: u64, bit: u32)
    ensures
        feature_bits(features).contains(bit) <==> bit < 64 && (features >> bit) & 1 == 1,
{
    if bit < 64 {
        assert((features & (1u64 << bit) != 0) == ((features >> bit) & 1 == 1)) by (bit_vector)
            requires
                bit < 64,
        ;
    }
}

/// Each feature is offered under its own condition alone. Some always are; the maximum
/// transmission unit and the access platform with their own option; the checksum with its
/// option; each segmentation feature if and only if both checksum and segmentation offload
/// are on, and each fragmentation feature if and only if both checksum and fragmentation
/// offload are. Nothing else is offered.
pub proof fn law_features_offered(
    mtu: bool,
    access_platform: bool,
    tso: bool,
    ufo: bool,
    csum: bool,
    bit: u32,
)
    ensures
        offered_features(mtu, access_platform, tso, ufo, csum).contains(bit) <==> {
            ||| bit == VIRTIO_RING_F_EVENT_IDX || bit == VIRTIO_F_VERSION_1
            ||| bit == VIRTIO_NET_F_CTRL_VQ || bit == VIRTIO_NET_F_STATUS
            ||| bit == VIRTIO_NET_F_GUEST_ANNOUNCE
            ||| bit == VIRTIO_NET_F_MTU && mtu
            ||| bit == VIRTIO_F_ACCESS_PLATFORM && access_platform
            ||| bit == VIRTIO_NET_F_CSUM && csum
            ||| bit == VIRTIO_NET_F_GUEST_CSUM && csum
            ||| bit == VIRTIO_NET_F_CTRL_GUEST_OFFLOADS && csum
            ||| bit == VIRTIO_NET_F_HOST_ECN && csum && tso
            ||| bit == VIRTIO_NET_F_HOST_TSO4 && csum && tso
            ||| bit == VIRTIO_NET_F_HOST_TSO6 && csum && tso
            ||| bit == VIRTIO_NET_F_GUEST_ECN && csum && tso
            ||| bit == VIRTIO_NET_F_GUEST_TSO4 && csum && tso
            ||| bit == VIRTIO_NET_F_GUEST_TSO6 && csum && tso
            ||| bit == VIRTIO_NET_F_HOST_UFO && csum && ufo
            ||| bit == VIRTIO_NET_F_GUEST_UFO && csum && ufo
        },
{
}

/// The options do not interfere: what one of them adds to the offered features is the same
/// whatever the other ones are.
pub proof fn law_options_add_their_features(
    mtu: bool,
    access_platform: bool,
    tso: bool,
    ufo: bool,
    csum: bool,
)
    ensures
        offered_features(true, access_platform, tso, ufo, csum) == offered_features(
            false,
            access_platform,
            tso,
            ufo,
            csum,
        ).insert(VIRTIO_NET_F_MTU),
        offered_features(mtu, true, tso, ufo, csum) == offered_features(
            mtu,
            false,
            tso,
            ufo,
            csum,
        ).insert(VIRTIO_F_ACCESS_PLATFORM),
        offered_features(mtu, access_platform, true, ufo, true) == offered_features(
            mtu,
            access_platform,
            false,
            ufo,
            true,
        ).union(
            set![
                VIRTIO_NET_F_HOST_ECN,
                VIRTIO_NET_F_HOST_TSO4,
                VIRTIO_NET_F_HOST_TSO6,
                VIRTIO_NET_F_GUEST_ECN,
                VIRTIO_NET_F_GUEST_TSO4,
                VIRTIO_NET_F_GUEST_TSO6,
            ],
        ),
        offered_features(mtu, access_platform, tso, true, true) == offered_features(
            mtu,
            access_platform,
            tso,
            false,
            true,
        ).union(set![VIRTIO_NET_F_HOST_UFO, VIRTIO_NET_F_GUEST_UFO]),
        offered_features(mtu, access_platform, tso, ufo, false) == offered_features(
            mtu,
            access_platform,
            false,
            false,
            false,
        ),
        offered_features(mtu, access_platform, false, false, true) == offered_features(
            mtu,
            access_platform,
            false,
            false,
            false,
        ).union(
            set![VIRTIO_NET_F_CSUM, VIRTIO_NET_F_GUEST_CSUM, VIRTIO_NET_F_CTRL_GUEST_OFFLOADS],
        ),
{
}

} // verus!
