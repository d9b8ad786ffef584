//! The virtio-net device.

use vstd::prelude::*;

use crate::config::VirtioNetConfig;
use crate::features::{
    fresh_features, has_feature, VIRTIO_NET_F_CTRL_VQ, VIRTIO_NET_F_GUEST_ANNOUNCE,
    VIRTIO_NET_F_STATUS,
};

verus! {

/// The smallest maximum transmission unit that the virtio standard allows.
pub const MIN_MTU: u16 = 1280;

/// The device type of a network device.
pub const VIRTIO_DEVICE_TYPE_NET: u32 = 1;

/// Failures of creating a device. `E` is what the failed operation reports.
#[derive(Debug)]
pub enum NetError<E> {
    /// The taps could not be opened.
    OpenTap(E),
    /// An existing tap could not be used.
    TapError(E),
    /// The file descriptor of a tap could not be duplicated.
    DuplicateTapFd(E),
}

/// What virtio devices have in common.
#[derive(Debug)]
pub struct VirtioCommon {
    /// The type of the device.
    pub device_type: u32,
    /// The features that the device offers.
    pub avail_features: u64,
    /// The features that the guest has acknowledged.
    pub acked_features: u64,
    /// The size of each queue.
    pub queue_sizes: Vec<u16>,
    /// How many threads meet when the device is paused.
    pub paused_sync: Option<usize>,
    /// The number of queues that an active device has at least.
    pub min_queues: u16,
    /// Whether the device is paused.
    pub paused: bool,
    /// Whether the device has an interrupt to trigger.
    pub interrupt_cb: bool,
}

impl Default for VirtioCommon {
    /// Common state of a device that offers nothing and has no queues.
    fn default() -> (r: Self)
        ensures
            r.device_type == 0,
            r.avail_features == 0,
            r.acked_features == 0,
            r.queue_sizes@ == Seq::<u16>::empty(),
            r.paused_sync == None::<usize>,
            r.min_queues == 0,
            !r.paused,
            !r.interrupt_cb,
    {
        VirtioCommon {
            device_type: 0,
            avail_features: 0,
            acked_features: 0,
            queue_sizes: Vec::new(),
            paused_sync: None,
            min_queues: 0,
            paused: false,
            interrupt_cb: false,
        }
    }
}

impl VirtioCommon {
    /// Whether the guest has acknowledged the feature with this bit.
    pub open spec fn acked(self, feature: u32) -> bool {
        crate::features::feature_bits(self.acked_features).contains(feature)
    }

    /// Whether the guest has acknowledged the feature with this bit.
    pub fn feature_acked(&self, feature: u32) -> (r: bool)
        requires
            feature < 64,
        ensures
            r == self.acked(feature),
    {
        has_feature(self.acked_features, feature)
    }
}

/// What a device has transferred.
#[derive(Clone, Copy, Debug)]
pub struct NetCounters {
    pub rx_bytes: u64,
    pub rx_frames: u64,
    pub tx_bytes: u64,
    pub tx_frames: u64,
}

/// The state of a device that a snapshot holds.
#[derive(Debug)]
pub struct NetState {
    pub avail_features: u64,
    pub acked_features: u64,
    pub config: VirtioNetConfig,
    pub announce_pending: bool,
    pub queue_size: Vec<u16>,
}

/// What a device starts with, either restored from a [`NetState`] or fresh.
#[derive(Debug)]
pub struct NetConstructorState {
    pub avail_features: u64,
    pub acked_features: u64,
    pub config: VirtioNetConfig,
    pub announce_pending: bool,
    pub queue_sizes: Vec<u16>,
    pub paused: bool,
}

/// Open taps, and the maximum transmission unit that the first of them reports.
#[derive(Debug)]
pub struct OpenTaps<E> {
    pub taps: Vec<i32>,
    pub mtu: Result<i32, E>,
}

/// A virtio-net device.
#[derive(Debug)]
pub struct Net {
    pub common: VirtioCommon,
    pub id: String,
    /// The file descriptors of the taps, one for each queue pair.
    pub taps: Vec<i32>,
    pub config: VirtioNetConfig,
    /// Whether the guest still has to acknowledge a request to announce itself.
    pub announce_pending: bool,
    pub counters: NetCounters,
}

/// Whether every field of the configuration is zero.
pub open spec fn blank_config(config: VirtioNetConfig) -> bool {
    &&& config.mac@ == seq![0u8, 0, 0, 0, 0, 0]
    &&& config == (VirtioNetConfig {
        mac: config.mac,
        status: 0,
        max_virtqueue_pairs: 0,
        mtu: 0,
        speed: 0,
        duplex: 0,
    })
}

/// What a builder of the configuration space is given to start with: a blank configuration
/// and the features `offered` so far.
pub open spec fn builder_start(
    config: VirtioNetConfig,
    features: u64,
    offered: Set<u32>,
) -> bool {
    blank_config(config) && crate::features::feature_bits(features) == offered
}

/// Whether the builder that a new device with these parameters uses can be called.
pub open spec fn can_build<
    B: FnOnce(VirtioNetConfig, [u8; 6], usize, Option<u16>, u64) -> (VirtioNetConfig, u64),
    Q: FnOnce(VirtioNetConfig, usize, Option<u16>, u64) -> (VirtioNetConfig, u64),
>(
    guest_mac: Option<[u8; 6]>,
    access_platform: bool,
    mtu: Option<u16>,
    num_queues: usize,
    tso: bool,
    ufo: bool,
    csum: bool,
    build: B,
    build_with_mq: Q,
) -> bool {
    let offered = crate::features::offered_features(mtu is Some, access_platform, tso, ufo, csum);
    forall|config: VirtioNetConfig, features: u64| #[trigger]
        builder_start(config, features, offered) ==> match guest_mac {
            Some(mac) => call_requires(build, (config, mac, num_queues, mtu, features)),
            None => call_requires(build_with_mq, (config, num_queues, mtu, features)),
        }
}

/// Whether a new device with these parameters can start with `start`: configuration and
/// features are what the builder made of a blank configuration and the offered features, no
/// feature is acknowledged, and there is one queue more than `num_queues`, for control.
pub open spec fn is_fresh<
    B: FnOnce(VirtioNetConfig, [u8; 6], usize, Option<u16>, u64) -> (VirtioNetConfig, u64),
    Q: FnOnce(VirtioNetConfig, usize, Option<u16>, u64) -> (VirtioNetConfig, u64),
>(
    start: NetConstructorState,
    guest_mac: Option<[u8; 6]>,
    access_platform: bool,
    mtu: Option<u16>,
    num_queues: usize,
    queue_size: u16,
    tso: bool,
    ufo: bool,
    csum: bool,
    build: B,
    build_with_mq: Q,
) -> bool {
    let offered = crate::features::offered_features(mtu is Some, access_platform, tso, ufo, csum);
    let built = (start.config, start.avail_features);
    &&& exists|config: VirtioNetConfig, features: u64|
        {
            &&& #[trigger] builder_start(config, features, offered)
            &&& match guest_mac {
                Some(mac) => call_ensures(build, (config, mac, num_queues, mtu, features), built),
                None => call_ensures(build_with_mq, (config, num_queues, mtu, features), built),
            }
        }
    &&& start.acked_features == 0
    &&& !start.announce_pending
    &&& !start.paused
    &&& start.queue_sizes@ == Seq::new((num_queues + 1) as nat, |i: int| queue_size)
}

/// What a device that continues from `state` starts with.
pub open spec fn restored(state: NetState) -> NetConstructorState {
    NetConstructorState {
        avail_features: state.avail_features,
        acked_features: state.acked_features,
        config: state.config,
        announce_pending: state.announce_pending,
        queue_sizes: state.queue_size,
        paused: true,
    }
}

/// Whether `net` is a network device with these taps that has just started with `start`, for
/// `num_queues` queues besides the control queue.
pub open spec fn started_with(
    net: Net,
    id: Seq<char>,
    taps: Seq<i32>,
    num_queues: usize,
    start: NetConstructorState,
) -> bool {
    &&& net.common.device_type == VIRTIO_DEVICE_TYPE_NET
    &&& net.common.avail_features == start.avail_features
    &&& net.common.acked_features == start.acked_features
    &&& net.common.queue_sizes == start.queue_sizes
    &&& net.common.paused_sync == Some((num_queues / 2 + 1) as usize)
    &&& net.common.min_queues == 2
    &&& net.common.paused == start.paused
    &&& !net.common.interrupt_cb
    &&& net.id@ == id
    &&& net.taps@ == taps
    &&& net.config == start.config
    &&& net.announce_pending == start.announce_pending
    &&& net.counters == (NetCounters { rx_bytes: 0, rx_frames: 0, tx_bytes: 0, tx_frames: 0 })
}

/// The number of queue pairs among `num_queues` queues.
pub fn queue_pairs(num_queues: usize) -> (r: usize)
    ensures
        r == num_queues as int / 2,
{
    num_queues / 2
}

/// The maximum transmission unit to advertise: the low 16 bits of what the tap reports.
/// Where the tap could not be asked, none is advertised.
pub open spec fn advertised_mtu<E>(reported: Result<i32, E>) -> Option<u16> {
    match reported {
        Ok(mtu) => Some((mtu as int % 0x1_0000) as u16),
        Err(_) => None,
    }
}

fn advertise_mtu<E>(reported: &Result<i32, E>) -> (r: Option<u16>)
    ensures
        r == advertised_mtu(*reported),
{
    match reported {
        Ok(mtu) => {
            let m: i32 = *mtu;
            assert(m as u16 == m % 0x1_0000) by (bit_vector);
            Some(
                #[verifier::truncate]
                (m as u16),
            )
        },
        Err(_) => None,
    }
}

impl Net {
    /// What a device that continues from `state` starts with. It starts paused.
    pub fn restored_constructor_state(state: NetState) -> (r: NetConstructorState)
        ensures
            r == restored(state),
    {
        NetConstructorState {
            avail_features: state.avail_features,
            acked_features: state.acked_features,
            config: state.config,
            announce_pending: state.announce_pending,
            queue_sizes: state.queue_size,
            paused: true,
        }
    }

    /// What a new device starts with. The configuration space is filled by one of the two
    /// builders, which also may change the offered features: by `build` where the guest gets
    /// a MAC address, else by `build_with_mq`. Each is given a blank configuration and the
    /// features offered so far.
    pub fn fresh_constructor_state<
        B: FnOnce(VirtioNetConfig, [u8; 6], usize, Option<u16>, u64) -> (VirtioNetConfig, u64),
        Q: FnOnce(VirtioNetConfig, usize, Option<u16>, u64) -> (VirtioNetConfig, u64),
    >(
        guest_mac: Option<[u8; 6]>,
        access_platform_enabled: bool,
        mtu: Option<u16>,
        num_queues: usize,
        queue_size: u16,
        offload_tso: bool,
        offload_ufo: bool,
        offload_csum: bool,
        build: B,
        build_with_mq: Q,
    ) -> (r: NetConstructorState)
        requires
            num_queues < usize::MAX,
            can_build(
                guest_mac,
                access_platform_enabled,
                mtu,
                num_queues,
                offload_tso,
                offload_ufo,
                offload_csum,
                build,
                build_with_mq,
            ),
        ensures
            is_fresh(
                r,
                guest_mac,
                access_platform_enabled,
                mtu,
                num_queues,
                queue_size,
                offload_tso,
                offload_ufo,
                offload_csum,
                build,
                build_with_mq,
            ),
    {
        let features: u64 = fresh_features(
            mtu.is_some(),
            access_platform_enabled,
            offload_tso,
            offload_ufo,
            offload_csum,
        );
        let blank: VirtioNetConfig = VirtioNetConfig::default();
        assert(builder_start(
            blank,
            features,
            crate::features::offered_features(
                mtu is Some,
                access_platform_enabled,
                offload_tso,
                offload_ufo,
                offload_csum,
            ),
        ));
        let (config, avail_features) = match guest_mac {
            Some(mac) => build(blank, mac, num_queues, mtu, features),
            None => build_with_mq(blank, num_queues, mtu, features),
        };
        let queue_sizes: Vec<u16> = vec![queue_size; num_queues + 1];
        assert(queue_sizes@ =~= Seq::new((num_queues + 1) as nat, |i: int| queue_size));
        NetConstructorState {
            avail_features,
            acked_features: 0,
            config,
            announce_pending: false,
            queue_sizes,
            paused: false,
        }
    }

    /// Creates a device with the given taps, either fresh or continuing from `state`. A fresh
    /// device advertises the maximum transmission unit of its first tap.
    pub fn new_with_tap<
        E,
        B: FnOnce(VirtioNetConfig, [u8; 6], usize, Option<u16>, u64) -> (VirtioNetConfig, u64),
        Q: FnOnce(VirtioNetConfig, usize, Option<u16>, u64) -> (VirtioNetConfig, u64),
    >(
        id: String,
        taps: OpenTaps<E>,
        guest_mac: Option<[u8; 6]>,
        access_platform_enabled: bool,
        num_queues: usize,
        queue_size: u16,
        state: Option<NetState>,
        offload_tso: bool,
        offload_ufo: bool,
        offload_csum: bool,
        build: B,
        build_with_mq: Q,
    ) -> (r: Result<Self, NetError<E>>)
        requires
            taps.taps@.len() > 0,
            state is None ==> {
                &&& num_queues < usize::MAX
                &&& can_build(
                    guest_mac,
                    access_platform_enabled,
                    advertised_mtu(taps.mtu),
                    num_queues,
                    offload_tso,
                    offload_ufo,
                    offload_csum,
                    build,
                    build_with_mq,
                )
            },
        ensures
            r matches Ok(net) && match state {
                Some(state) => started_with(net, id@, taps.taps@, num_queues, restored(state)),
                None => exists|start: NetConstructorState| #[trigger]
                    started_with(net, id@, taps.taps@, num_queues, start) && is_fresh(
                        start,
                        guest_mac,
                        access_platform_enabled,
                        advertised_mtu(taps.mtu),
                        num_queues,
                        queue_size,
                        offload_tso,
                        offload_ufo,
                        offload_csum,
                        build,
                        build_with_mq,
                    ),
            },
    {
        let mtu: Option<u16> = advertise_mtu(&taps.mtu);
        let start: NetConstructorState = match state {
            Some(state) => Self::restored_constructor_state(state),
            None => Self::fresh_constructor_state(
                guest_mac,
                access_platform_enabled,
                mtu,
                num_queues,
                queue_size,
                offload_tso,
                offload_ufo,
                offload_csum,
                build,
                build_with_mq,
            ),
        };
        let ghost begun = start;
        let net = Net {
            common: VirtioCommon {
                device_type: VIRTIO_DEVICE_TYPE_NET,
                avail_features: start.avail_features,
                acked_features: start.acked_features,
                queue_sizes: start.queue_sizes,
                paused_sync: Some(queue_pairs(num_queues) + 1),
                min_queues: 2,
                paused: start.paused,
                interrupt_cb: false,
            },
            id,
            taps: taps.taps,
            config: start.config,
            announce_pending: start.announce_pending,
            counters: NetCounters { rx_bytes: 0, rx_frames: 0, tx_bytes: 0, tx_frames: 0 },
        };
        assert(started_with(net, id@, taps.taps@, num_queues, begun));
        Ok(net)
    }

    /// Creates a device with taps that were opened for it, one for each pair of the
    /// `num_queues` queues, or reports that they could not be opened.
    pub fn new<
        E,
        B: FnOnce(VirtioNetConfig, [u8; 6], usize, Option<u16>, u64) -> (VirtioNetConfig, u64),
        Q: FnOnce(VirtioNetConfig, usize, Option<u16>, u64) -> (VirtioNetConfig, u64),
    >(
        id: String,
        opened: Result<OpenTaps<E>, E>,
        guest_mac: Option<[u8; 6]>,
        access_platform_enabled: bool,
        num_queues: usize,
        queue_size: u16,
        state: Option<NetState>,
        offload_tso: bool,
        offload_ufo: bool,
        offload_csum: bool,
        build: B,
        build_with_mq: Q,
    ) -> (r: Result<Self, NetError<E>>)
        requires
            opened matches Ok(taps) ==> taps.taps@.len() > 0 && (state is None ==> {
                &&& num_queues < usize::MAX
                &&& can_build(
                    guest_mac,
                    access_platform_enabled,
                    advertised_mtu(taps.mtu),
                    num_queues,
                    offload_tso,
                    offload_ufo,
                    offload_csum,
                    build,
                    build_with_mq,
                )
            }),
        ensures
            match opened {
                Err(e) => r == Err::<Self, NetError<E>>(NetError::OpenTap(e)),
                Ok(taps) => r matches Ok(net) && match state {
                    Some(state) => started_with(net, id@, taps.taps@, num_queues, restored(state)),
                    None => exists|start: NetConstructorState| #[trigger]
                        started_with(net, id@, taps.taps@, num_queues, start) && is_fresh(
                            start,
                            guest_mac,
                            access_platform_enabled,
                            advertised_mtu(taps.mtu),
                            num_queues,
                            queue_size,
                            offload_tso,
                            offload_ufo,
                            offload_csum,
                            build,
                            build_with_mq,
                        ),
                },
            },
    {
        match opened {
            Err(e) => Err(NetError::OpenTap(e)),
            Ok(taps) => Self::new_with_tap(
                id,
                taps,
                guest_mac,
                access_platform_enabled,
                num_queues,
                queue_size,
                state,
                offload_tso,
                offload_ufo,
                offload_csum,
                build,
                build_with_mq,
            ),
        }
    }

    /// Creates a device with taps that were made from file descriptors, two queues for each
    /// of them, or reports why they could not be made. [`crate::taps::TapSetup`] makes them.
    pub fn from_tap_fds<
        E,
        B: FnOnce(VirtioNetConfig, [u8; 6], usize, Option<u16>, u64) -> (VirtioNetConfig, u64),
        Q: FnOnce(VirtioNetConfig, usize, Option<u16>, u64) -> (VirtioNetConfig, u64),
    >(
        id: String,
        made: Result<OpenTaps<E>, NetError<E>>,
        guest_mac: Option<[u8; 6]>,
        access_platform_enabled: bool,
        queue_size: u16,
        state: Option<NetState>,
        offload_tso: bool,
        offload_ufo: bool,
        offload_csum: bool,
        build: B,
        build_with_mq: Q,
    ) -> (r: Result<Self, NetError<E>>)
        requires
            made matches Ok(taps) ==> {
                &&& taps.taps@.len() > 0
                &&& 2 * taps.taps@.len() < usize::MAX
                &&& state is None ==> can_build(
                    guest_mac,
                    access_platform_enabled,
                    advertised_mtu(taps.mtu),
                    (2 * taps.taps@.len()) as usize,
                    offload_tso,
                    offload_ufo,
                    offload_csum,
                    build,
                    build_with_mq,
                )
            },
        ensures
            match made {
                Err(e) => r == Err::<Self, NetError<E>>(e),
                Ok(taps) => r matches Ok(net) && match state {
                    Some(state) => started_with(
                        net,
                        id@,
                        taps.taps@,
                        (2 * taps.taps@.len()) as usize,
                        restored(state),
                    ),
                    None => exists|start: NetConstructorState| #[trigger]
                        started_with(
                            net,
                            id@,
                            taps.taps@,
                            (2 * taps.taps@.len()) as usize,
                            start,
                        ) && is_fresh(
                            start,
                            guest_mac,
                            access_platform_enabled,
                            advertised_mtu(taps.mtu),
                            (2 * taps.taps@.len()) as usize,
                            queue_size,
                            offload_tso,
                            offload_ufo,
                            offload_csum,
                            build,
                            build_with_mq,
                        ),
                },
            },
    {
        match made {
            Err(e) => Err(e),
            Ok(taps) => {
                let num_queue_pairs: usize = taps.taps.len();
                Self::new_with_tap(
                    id,
                    taps,
                    guest_mac,
                    access_platform_enabled,
                    num_queue_pairs * 2,
                    queue_size,
                    state,
                    offload_tso,
                    offload_ufo,
                    offload_csum,
                    build,
                    build_with_mq,
                )
            },
        }
    }
}

/// A new device offers every feature that its builder was given to start with, whatever the
/// builder adds: always the status field, the control queue, and that the guest can announce
/// itself.
pub proof fn law_fresh_device_offers<
    B: FnOnce(VirtioNetConfig, [u8; 6], usize, Option<u16>, u64) -> (VirtioNetConfig, u64),
    Q: FnOnce(VirtioNetConfig, usize, Option<u16>, u64) -> (VirtioNetConfig, u64),
>(
    start: NetConstructorState,
    guest_mac: Option<[u8; 6]>,
    access_platform: bool,
    mtu: Option<u16>,
    num_queues: usize,
    queue_size: u16,
    tso: bool,
    ufo: bool,
    csum: bool,
    build: B,
    build_with_mq: Q,
)
    requires
        is_fresh(
            start,
            guest_mac,
            access_platform,
            mtu,
            num_queues,
            queue_size,
            tso,
            ufo,
            csum,
            build,
            build_with_mq,
        ),
        forall|config: VirtioNetConfig, mac: [u8; 6], features: u64, built: (VirtioNetConfig, u64)|
            #[trigger] call_ensures(build, (config, mac, num_queues, mtu, features), built)
                ==> crate::features::feature_bits(features).subset_of(
                crate::features::feature_bits(built.1),
            ),
        forall|config: VirtioNetConfig, features: u64, built: (VirtioNetConfig, u64)|
            #[trigger] call_ensures(build_with_mq, (config, num_queues, mtu, features), built)
                ==> crate::features::feature_bits(features).subset_of(
                crate::features::feature_bits(built.1),
            ),
    ensures
        crate::features::offered_features(mtu is Some, access_platform, tso, ufo, csum).subset_of(
            crate::features::feature_bits(start.avail_features),
        ),
        crate::features::feature_bits(start.avail_features).contains(VIRTIO_NET_F_STATUS),
        crate::features::feature_bits(start.avail_features).contains(VIRTIO_NET_F_CTRL_VQ),
        crate::features::feature_bits(start.avail_features).contains(VIRTIO_NET_F_GUEST_ANNOUNCE),
{
    let offered = crate::features::offered_features(mtu is Some, access_platform, tso, ufo, csum);
    assert(offered.contains(VIRTIO_NET_F_STATUS));
    assert(offered.contains(VIRTIO_NET_F_CTRL_VQ));
    assert(offered.contains(VIRTIO_NET_F_GUEST_ANNOUNCE));
}

/// A fresh device advertises the maximum transmission unit that its tap reports, reduced to 16
/// bits, and so every one that fits; where the tap could not be asked it advertises none.
pub proof fn law_mtu_advertised<E>(reported: Result<i32, E>)
    ensures
        match reported {
            Ok(mtu) => {
                &&& advertised_mtu(reported) matches Some(advertised)
                &&& (advertised - mtu) % 0x1_0000 == 0
                &&& 0 <= mtu < 0x1_0000 ==> advertised == mtu
            },
            Err(_) => advertised_mtu(reported) is None,
        },
{
}

/// What a fresh device starts with: nothing acknowledged, no announcement pending, not paused,
/// and `num_queues + 1` queues of the given size. Its configuration and features are what the
/// builder for its kind made of an all-zero configuration and of the features offered for
/// the given options, and the builder was given the address, the number of queues and the
/// maximum transmission unit.
pub proof fn law_fresh_start<
    B: FnOnce(VirtioNetConfig, [u8; 6], usize, Option<u16>, u64) -> (VirtioNetConfig, u64),
    Q: FnOnce(VirtioNetConfig, usize, Option<u16>, u64) -> (VirtioNetConfig, u64),
>(
    start: NetConstructorState,
    guest_mac: Option<[u8; 6]>,
    access_platform: bool,
    mtu: Option<u16>,
    num_queues: usize,
    queue_size: u16,
    tso: bool,
    ufo: bool,
    csum: bool,
    build: B,
    build_with_mq: Q,
)
    requires
        is_fresh(
            start,
            guest_mac,
            access_platform,
            mtu,
            num_queues,
            queue_size,
            tso,
            ufo,
            csum,
            build,
            build_with_mq,
        ),
    ensures
        start.acked_features == 0,
        !start.announce_pending,
        !start.paused,
        start.queue_sizes@.len() == num_queues + 1,
        forall|i: int| 0 <= i <= num_queues ==> start.queue_sizes@[i] == queue_size,
        guest_mac matches Some(mac) ==> exists|config: VirtioNetConfig, features: u64|
            {
                &&& #[trigger] call_ensures(
                    build,
                    (config, mac, num_queues, mtu, features),
                    (start.config, start.avail_features),
                )
                &&& forall|i: int| 0 <= i < 17 ==> config.bytes()[i] == 0
                &&& crate::features::feature_bits(features) == crate::features::offered_features(
                    mtu is Some,
                    access_platform,
                    tso,
                    ufo,
                    csum,
                )
            },
        guest_mac is None ==> exists|config: VirtioNetConfig, features: u64|
            {
                &&& #[trigger] call_ensures(
                    build_with_mq,
                    (config, num_queues, mtu, features),
                    (start.config, start.avail_features),
                )
                &&& forall|i: int| 0 <= i < 17 ==> config.bytes()[i] == 0
                &&& crate::features::feature_bits(features) == crate::features::offered_features(
                    mtu is Some,
                    access_platform,
                    tso,
                    ufo,
                    csum,
                )
            },
{
}

/// What holds of every device that has just started: it is a network device with the features,
/// the configuration, the queues and the announcement it started with; it counts nothing
/// transferred, needs two queues at least, has no interrupt yet, and its pause waits for one
/// thread of each queue pair and the caller's.
pub proof fn law_device_started(
    net: Net,
    id: Seq<char>,
    taps: Seq<i32>,
    num_queues: usize,
    start: NetConstructorState,
)
    requires
        started_with(net, id, taps, num_queues, start),
    ensures
        net.common.device_type == 1,
        net.common.avail_features == start.avail_features,
        net.common.acked_features == start.acked_features,
        net.common.queue_sizes@ == start.queue_sizes@,
        net.common.paused_sync matches Some(threads) && threads == 1 + num_queues as int / 2,
        net.common.min_queues == 2,
        net.common.paused == start.paused,
        !net.common.interrupt_cb,
        net.id@ == id,
        net.taps@ == taps,
        net.config == start.config,
        net.announce_pending == start.announce_pending,
        net.counters.rx_bytes == 0 && net.counters.rx_frames == 0,
        net.counters.tx_bytes == 0 && net.counters.tx_frames == 0,
{
}

} // verus!
