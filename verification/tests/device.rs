use virtio_bindings::{virtio_config, virtio_ids, virtio_net, virtio_ring};
use virtio_net_migration::announce::{
    AnnounceStep, VirtioNetPostMigrationAnnouncer, ETH_FRAME_LEN,
};
use virtio_net_migration::config::{
    VirtioNetConfig, CONFIG_LEN, MAC_ADDR_LEN, STATUS_OFFSET, VIRTIO_NET_S_ANNOUNCE,
    VIRTIO_NET_S_LINK_UP,
};
use virtio_net_migration::error::PausableError;
use virtio_net_migration::features::{
    fresh_features, has_feature, with_feature, VIRTIO_F_ACCESS_PLATFORM, VIRTIO_F_VERSION_1,
    VIRTIO_NET_F_CSUM, VIRTIO_NET_F_CTRL_GUEST_OFFLOADS, VIRTIO_NET_F_CTRL_VQ,
    VIRTIO_NET_F_GUEST_ANNOUNCE, VIRTIO_NET_F_GUEST_CSUM, VIRTIO_NET_F_GUEST_ECN,
    VIRTIO_NET_F_GUEST_TSO4, VIRTIO_NET_F_GUEST_TSO6, VIRTIO_NET_F_GUEST_UFO,
    VIRTIO_NET_F_HOST_ECN, VIRTIO_NET_F_HOST_TSO4, VIRTIO_NET_F_HOST_TSO6, VIRTIO_NET_F_HOST_UFO,
    VIRTIO_NET_F_MTU, VIRTIO_NET_F_STATUS, VIRTIO_RING_F_EVENT_IDX,
};
use virtio_net_migration::names::{ctrl_thread_name, queue_pair_thread_name};
use virtio_net_migration::net::{
    queue_pairs, Net, NetConstructorState, NetCounters, NetError, NetState, OpenTaps,
    VirtioCommon, MIN_MTU, VIRTIO_DEVICE_TYPE_NET,
};

fn test_net(acked_features: u64, interrupt_cb: bool) -> Net {
    Net {
        common: VirtioCommon { acked_features, interrupt_cb, ..Default::default() },
        id: "test-net".to_string(),
        taps: Vec::new(),
        config: VirtioNetConfig::default(),
        announce_pending: false,
        counters: NetCounters { rx_bytes: 0, rx_frames: 0, tx_bytes: 0, tx_frames: 0 },
    }
}

fn read_status(device: &Net) -> u16 {
    let mut data = vec![0u8; CONFIG_LEN];
    device.read_config(0, &mut data);
    u16::from_le_bytes([data[STATUS_OFFSET], data[STATUS_OFFSET + 1]])
}

// A builder that sets the address, and offers bit 5 for it.
fn with_mac(
    config: VirtioNetConfig,
    mac: [u8; 6],
    num_queues: usize,
    mtu: Option<u16>,
    features: u64,
) -> (VirtioNetConfig, u64) {
    let mut config = config;
    config.mac = mac;
    with_mq(config, num_queues, mtu, features | 1 << 5)
}

// A builder that sets the number of queue pairs and the transmission unit.
fn with_mq(
    config: VirtioNetConfig,
    num_queues: usize,
    mtu: Option<u16>,
    features: u64,
) -> (VirtioNetConfig, u64) {
    let mut config = config;
    config.max_virtqueue_pairs = (num_queues / 2) as u16;
    if let Some(mtu) = mtu {
        config.mtu = mtu;
    }
    (config, features)
}

#[test]
fn test_fresh_constructor_state_exposes_status() {
    let state = Net::fresh_constructor_state(
        None,
        false,
        Some(MIN_MTU),
        2,
        256,
        false,
        false,
        false,
        with_mac,
        with_mq,
    );

    assert_ne!(state.avail_features & (1 << VIRTIO_NET_F_STATUS), 0);
}

#[test]
fn test_status_feature_reports_link_up() {
    let net = test_net(1 << VIRTIO_NET_F_STATUS, false);

    assert_eq!(read_status(&net), VIRTIO_NET_S_LINK_UP);
}

#[test]
fn test_post_migration_sets_announce_and_triggers_config() {
    let mut net =
        test_net((1 << VIRTIO_NET_F_GUEST_ANNOUNCE) | (1 << VIRTIO_NET_F_STATUS), true);
    let mut config_count = 0;

    let announcer = net.post_migration_announcer().unwrap();
    let announcement = announcer.announce(12, &mut net.announce_pending);
    if announcement.trigger_config {
        config_count += 1;
    }

    assert!(net.announce_pending);
    assert_ne!(read_status(&net) & VIRTIO_NET_S_ANNOUNCE, 0);
    assert_eq!(config_count, 1);
}

#[test]
fn test_post_migration_without_feature_is_noop() {
    let mut net = test_net(0, true);
    let mut config_count = 0;

    let announcer = net.post_migration_announcer().unwrap();
    let announcement = announcer.announce(12, &mut net.announce_pending);
    if announcement.trigger_config {
        config_count += 1;
    }

    assert!(!net.announce_pending);
    assert_eq!(read_status(&net) & VIRTIO_NET_S_ANNOUNCE, 0);
    assert_eq!(config_count, 0);
}

#[test]
fn test_post_migration_retries_retrigger_config_interrupt() {
    let mut net =
        test_net((1 << VIRTIO_NET_F_GUEST_ANNOUNCE) | (1 << VIRTIO_NET_F_STATUS), true);
    let mut config_count = 0;
    let announcer = net.post_migration_announcer().unwrap();

    if announcer.announce(12, &mut net.announce_pending).trigger_config {
        config_count += 1;
    }
    if announcer.announce(12, &mut net.announce_pending).trigger_config {
        config_count += 1;
    }

    assert!(net.announce_pending);
    assert_ne!(read_status(&net) & VIRTIO_NET_S_ANNOUNCE, 0);
    assert_eq!(config_count, 2);
}

#[test]
fn test_reset_clears_pending_announce() {
    let mut net =
        test_net((1 << VIRTIO_NET_F_GUEST_ANNOUNCE) | (1 << VIRTIO_NET_F_STATUS), true);

    let announcer = net.post_migration_announcer().unwrap();
    announcer.announce(12, &mut net.announce_pending);
    assert!(net.announce_pending);

    net.reset();

    assert!(!net.announce_pending);
    assert_eq!(read_status(&net) & VIRTIO_NET_S_ANNOUNCE, 0);
}

#[test]
fn status_hidden_without_feature() {
    let mut net = test_net(0, true);
    net.announce_pending = true;
    net.config.status = 0xffff;
    assert_eq!(read_status(&net), 0);
    assert_eq!(net.config_with_status().status, 0);
}

#[test]
fn stale_status_not_shown() {
    let mut net = test_net(1 << VIRTIO_NET_F_STATUS, true);
    net.config.status = 0xfff2;
    assert_eq!(read_status(&net), 1);
    net.announce_pending = true;
    assert_eq!(read_status(&net), 3);
}

#[test]
fn no_request_without_interrupt() {
    let mut net =
        test_net((1 << VIRTIO_NET_F_GUEST_ANNOUNCE) | (1 << VIRTIO_NET_F_STATUS), false);
    let announcer = VirtioNetPostMigrationAnnouncer::new(&net);
    assert!(!announcer.announce(12, &mut net.announce_pending).trigger_config);
    assert!(!net.announce_pending);
}

#[test]
fn config_bytes_and_windows() {
    let mut net = test_net(1 << VIRTIO_NET_F_STATUS, false);
    net.config.mac = [1, 2, 3, 4, 5, 6];
    net.config.max_virtqueue_pairs = 0x0708;
    net.config.mtu = 0x090a;
    net.config.speed = 0x0b0c_0d0e;
    net.config.duplex = 0x0f;
    let expected: Vec<u8> =
        vec![1, 2, 3, 4, 5, 6, 1, 0, 8, 7, 0x0a, 9, 0x0e, 0x0d, 0x0c, 0x0b, 0x0f];
    assert_eq!(net.config_with_status().as_slice(), expected);

    let mut window = [0u8; 4];
    net.read_config(5, &mut window);
    assert_eq!(window, [6, 1, 0, 8]);
    let mut last = [0u8; 1];
    net.read_config(16, &mut last);
    assert_eq!(last, [0x0f]);
    let mut beyond = [9u8; 2];
    net.read_config(16, &mut beyond);
    assert_eq!(beyond, [9, 9]);
    let mut far = [9u8; 2];
    net.read_config(u64::MAX, &mut far);
    assert_eq!(far, [9, 9]);
    let mut nothing: [u8; 0] = [];
    net.read_config(17, &mut nothing);
    assert_eq!(nothing.len(), 0);
}

#[test]
fn feature_numbers_of_the_standard() {
    assert_eq!(VIRTIO_NET_F_CSUM, virtio_net::VIRTIO_NET_F_CSUM);
    assert_eq!(VIRTIO_NET_F_GUEST_CSUM, virtio_net::VIRTIO_NET_F_GUEST_CSUM);
    assert_eq!(
        VIRTIO_NET_F_CTRL_GUEST_OFFLOADS,
        virtio_net::VIRTIO_NET_F_CTRL_GUEST_OFFLOADS
    );
    assert_eq!(VIRTIO_NET_F_MTU, virtio_net::VIRTIO_NET_F_MTU);
    assert_eq!(VIRTIO_NET_F_GUEST_TSO4, virtio_net::VIRTIO_NET_F_GUEST_TSO4);
    assert_eq!(VIRTIO_NET_F_GUEST_TSO6, virtio_net::VIRTIO_NET_F_GUEST_TSO6);
    assert_eq!(VIRTIO_NET_F_GUEST_ECN, virtio_net::VIRTIO_NET_F_GUEST_ECN);
    assert_eq!(VIRTIO_NET_F_GUEST_UFO, virtio_net::VIRTIO_NET_F_GUEST_UFO);
    assert_eq!(VIRTIO_NET_F_HOST_TSO4, virtio_net::VIRTIO_NET_F_HOST_TSO4);
    assert_eq!(VIRTIO_NET_F_HOST_TSO6, virtio_net::VIRTIO_NET_F_HOST_TSO6);
    assert_eq!(VIRTIO_NET_F_HOST_ECN, virtio_net::VIRTIO_NET_F_HOST_ECN);
    assert_eq!(VIRTIO_NET_F_HOST_UFO, virtio_net::VIRTIO_NET_F_HOST_UFO);
    assert_eq!(VIRTIO_NET_F_STATUS, virtio_net::VIRTIO_NET_F_STATUS);
    assert_eq!(VIRTIO_NET_F_CTRL_VQ, virtio_net::VIRTIO_NET_F_CTRL_VQ);
    assert_eq!(VIRTIO_NET_F_GUEST_ANNOUNCE, virtio_net::VIRTIO_NET_F_GUEST_ANNOUNCE);
    assert_eq!(VIRTIO_RING_F_EVENT_IDX, virtio_ring::VIRTIO_RING_F_EVENT_IDX);
    assert_eq!(VIRTIO_F_VERSION_1, virtio_config::VIRTIO_F_VERSION_1);
    assert_eq!(VIRTIO_F_ACCESS_PLATFORM, virtio_config::VIRTIO_F_ACCESS_PLATFORM);
    assert_eq!(VIRTIO_NET_S_LINK_UP as u32, virtio_net::VIRTIO_NET_S_LINK_UP);
    assert_eq!(VIRTIO_NET_S_ANNOUNCE as u32, virtio_net::VIRTIO_NET_S_ANNOUNCE);
    assert_eq!(VIRTIO_DEVICE_TYPE_NET, virtio_ids::VIRTIO_ID_NET);
    assert_eq!(MAC_ADDR_LEN, 6);
}

#[test]
fn fresh_feature_words() {
    let base: u64 = 1 << 29 | 1 << 32 | 1 << 17 | 1 << 16 | 1 << 21;
    assert_eq!(fresh_features(false, false, false, false, false), base);
    assert_eq!(fresh_features(true, false, false, false, false), base | 1 << 3);
    assert_eq!(fresh_features(false, true, false, false, false), base | 1 << 33);
    // The other offloads need the checksum offload.
    assert_eq!(fresh_features(false, false, true, true, false), base);
    assert_eq!(fresh_features(false, false, false, false, true), base | 0b111);
    let tso: u64 = 1 << 13 | 1 << 11 | 1 << 12 | 1 << 9 | 1 << 7 | 1 << 8;
    assert_eq!(fresh_features(false, false, true, false, true), base | 0b111 | tso);
    let ufo: u64 = 1 << 14 | 1 << 10;
    assert_eq!(fresh_features(false, false, false, true, true), base | 0b111 | ufo);
    assert_eq!(
        fresh_features(true, true, true, true, true),
        base | 1 << 3 | 1 << 33 | 0b111 | tso | ufo
    );
}

#[test]
fn feature_bits_set_and_read() {
    assert_eq!(with_feature(0b100, 0), 0b101);
    assert_eq!(with_feature(0b100, 2), 0b100);
    assert_eq!(with_feature(0, 63), 1 << 63);
    assert!(has_feature(1 << 63, 63));
    assert!(!has_feature(!(1 << 21), 21));
}

#[test]
fn fresh_state_uses_its_builder() {
    let mac = [2, 0, 0, 0, 0, 1];
    let state = Net::fresh_constructor_state(
        Some(mac),
        true,
        Some(1500),
        4,
        512,
        false,
        false,
        false,
        with_mac,
        with_mq,
    );
    assert_eq!(state.config.mac, mac);
    assert_eq!(state.config.mtu, 1500);
    assert_eq!(state.config.max_virtqueue_pairs, 2);
    assert_eq!(
        state.avail_features,
        fresh_features(true, true, false, false, false) | 1 << 5
    );
    assert_eq!(state.acked_features, 0);
    assert_eq!(state.queue_sizes, vec![512; 5]);
    assert!(!state.announce_pending);
    assert!(!state.paused);

    let state = Net::fresh_constructor_state(
        None, false, None, 2, 256, false, false, false, with_mac, with_mq,
    );
    assert_eq!(state.config.mac, [0; 6]);
    assert_eq!(state.config.mtu, 0);
    assert_eq!(state.avail_features, fresh_features(false, false, false, false, false));
}

#[test]
fn new_device_with_taps() {
    let taps: OpenTaps<&str> = OpenTaps { taps: vec![10, 11], mtu: Ok(0x1_05dc) };
    let net = Net::new_with_tap(
        "net0".to_string(),
        taps,
        None,
        false,
        5,
        256,
        None,
        false,
        false,
        false,
        with_mac,
        with_mq,
    )
    .unwrap();
    assert_eq!(net.device_type(), 1);
    assert_eq!(net.id(), "net0");
    assert_eq!(net.taps, vec![10, 11]);
    // The low 16 bits of what the tap reports.
    assert_eq!(net.config.mtu, 0x05dc);
    assert!(has_feature(net.features(), VIRTIO_NET_F_MTU));
    assert_eq!(net.queue_max_sizes(), &[256; 6]);
    assert_eq!(net.common.paused_sync, Some(3));
    assert_eq!(net.common.min_queues, 2);
    assert!(!net.common.paused);
    assert!(!net.common.interrupt_cb);
    assert!(!net.announce_pending);
}

#[test]
fn unknown_mtu_not_advertised() {
    let taps = OpenTaps { taps: vec![10], mtu: Err("no ioctl") };
    let net = Net::new_with_tap(
        "net0".to_string(),
        taps,
        None,
        false,
        2,
        256,
        None,
        false,
        false,
        false,
        with_mac,
        with_mq,
    )
    .unwrap();
    assert!(!has_feature(net.features(), VIRTIO_NET_F_MTU));
    assert_eq!(net.config.mtu, 0);
}

#[test]
fn negative_mtu_wraps() {
    let taps: OpenTaps<&str> = OpenTaps { taps: vec![10], mtu: Ok(-1) };
    let net = Net::new_with_tap(
        "net0".to_string(),
        taps,
        None,
        false,
        2,
        256,
        None,
        false,
        false,
        false,
        with_mac,
        with_mq,
    )
    .unwrap();
    assert_eq!(net.config.mtu, 0xffff);
}

#[test]
fn restored_device_continues() {
    let mut net = test_net(1 << VIRTIO_NET_F_STATUS, true);
    net.common.avail_features = 0x1234;
    net.common.queue_sizes = vec![64, 128, 32];
    net.announce_pending = true;
    net.config.mac = [9, 8, 7, 6, 5, 4];
    let saved = net.state();
    assert_eq!(saved.avail_features, 0x1234);
    assert_eq!(saved.queue_size, vec![64, 128, 32]);

    let taps: OpenTaps<&str> = OpenTaps { taps: vec![3], mtu: Ok(1500) };
    let restored = Net::new(
        "net1".to_string(),
        Ok(taps),
        Some([1; 6]),
        true,
        2,
        256,
        Some(saved),
        true,
        true,
        true,
        with_mac,
        with_mq,
    )
    .unwrap();
    assert!(restored.common.paused);
    assert!(restored.announce_pending);
    assert_eq!(restored.features(), 0x1234);
    assert_eq!(restored.common.acked_features, 1 << VIRTIO_NET_F_STATUS);
    assert_eq!(restored.queue_max_sizes(), &[64, 128, 32]);
    assert_eq!(restored.config.mac, [9, 8, 7, 6, 5, 4]);
    assert_eq!(read_status(&restored), read_status(&net));
    assert_eq!(read_status(&restored), 3);
    assert_eq!(restored.common.paused_sync, Some(2));
}

#[test]
fn restored_constructor_state_is_paused() {
    let state = NetState {
        avail_features: 7,
        acked_features: 3,
        config: VirtioNetConfig::default(),
        announce_pending: true,
        queue_size: vec![1, 2],
    };
    let start: NetConstructorState = Net::restored_constructor_state(state);
    assert_eq!(start.avail_features, 7);
    assert_eq!(start.acked_features, 3);
    assert!(start.announce_pending);
    assert_eq!(start.queue_sizes, vec![1, 2]);
    assert!(start.paused);
}

#[test]
fn open_failure_is_reported() {
    let r = Net::new(
        "net0".to_string(),
        Err("denied"),
        None,
        false,
        2,
        256,
        None,
        false,
        false,
        false,
        with_mac,
        with_mq,
    );
    assert!(matches!(r, Err(NetError::OpenTap("denied"))));
}

#[test]
fn device_from_tap_fds() {
    let taps: OpenTaps<&str> = OpenTaps { taps: vec![20, 21, 22], mtu: Ok(9000) };
    let net = Net::from_tap_fds(
        "net0".to_string(),
        Ok(taps),
        None,
        false,
        128,
        None,
        false,
        false,
        false,
        with_mac,
        with_mq,
    )
    .unwrap();
    assert_eq!(net.queue_max_sizes(), &[128; 7]);
    assert_eq!(net.common.paused_sync, Some(4));
    assert_eq!(net.config.max_virtqueue_pairs, 3);
    assert_eq!(net.config.mtu, 9000);

    let r = Net::from_tap_fds(
        "net0".to_string(),
        Err(NetError::TapError("busy")),
        None,
        false,
        128,
        None,
        false,
        false,
        false,
        with_mac,
        with_mq,
    );
    assert!(matches!(r, Err(NetError::TapError("busy"))));
}

#[test]
fn queue_pair_counts() {
    assert_eq!(queue_pairs(0), 0);
    assert_eq!(queue_pairs(1), 0);
    assert_eq!(queue_pairs(2), 1);
    assert_eq!(queue_pairs(7), 3);
}

#[test]
fn rarp_frame_bytes() {
    let mut net = test_net(0, false);
    net.config.mac = [0xa0, 0xa1, 0xa2, 0xa3, 0xa4, 0xa5];
    let expected: [u8; 60] = [
        0xff, 0xff, 0xff, 0xff, 0xff, 0xff, 0xa0, 0xa1, 0xa2, 0xa3, 0xa4, 0xa5, 0x80, 0x35, 0x00,
        0x01, 0x08, 0x00, 0x06, 0x04, 0x00, 0x03, 0xa0, 0xa1, 0xa2, 0xa3, 0xa4, 0xa5, 0, 0, 0, 0,
        0xa0, 0xa1, 0xa2, 0xa3, 0xa4, 0xa5, 0, 0, 0, 0, 0, 0, 0, 0, 0, 0, 0, 0, 0, 0, 0, 0, 0, 0,
        0, 0, 0, 0,
    ];
    assert_eq!(net.build_rarp_announce(), expected);
    assert_eq!(expected.len(), ETH_FRAME_LEN);
}

#[test]
fn announcement_packet_has_header() {
    let mut net = test_net(0, false);
    net.taps = vec![4, 5];
    let announcement = net.post_migration_announcer().unwrap().announce(12, &mut net.announce_pending);
    assert_eq!(announcement.taps, vec![4, 5]);
    assert_eq!(announcement.packet.len(), 72);
    assert_eq!(announcement.packet[..12], [0u8; 12]);
    assert_eq!(announcement.packet[12..], net.build_rarp_announce());
}

#[test]
fn frames_go_out_before_the_interrupt() {
    let mut net = test_net(1 << VIRTIO_NET_F_GUEST_ANNOUNCE, true);
    net.taps = vec![4, 5, 6];
    let announcer = net.post_migration_announcer().unwrap();
    let announcement = announcer.announce(12, &mut net.announce_pending);
    let expected = [
        AnnounceStep::WritePacket(4),
        AnnounceStep::WritePacket(5),
        AnnounceStep::WritePacket(6),
        AnnounceStep::TriggerConfig,
    ];
    // Operations that fail do not stop the others.
    for outcome in [Ok(()), Err("EAGAIN")] {
        let mut performed = Vec::new();
        let mut next = announcement.operation(0);
        while let Some(step) = next {
            next = announcement.resume(performed.len(), outcome);
            performed.push(step);
        }
        assert_eq!(performed, expected);
    }
    assert_eq!(announcement.operation(3), Some(AnnounceStep::TriggerConfig));
    assert_eq!(announcement.operation(4), None);
    assert_eq!(announcement.operation(usize::MAX), None);
    assert_eq!(announcement.resume(usize::MAX, Ok::<(), &str>(())), None);
}

#[test]
fn frames_go_out_without_the_feature() {
    let mut net = test_net(0, true);
    net.taps = vec![4, 5];
    let announcer = net.post_migration_announcer().unwrap();
    let announcement = announcer.announce(12, &mut net.announce_pending);
    assert_eq!(announcement.operation(0), Some(AnnounceStep::WritePacket(4)));
    assert_eq!(announcement.operation(1), Some(AnnounceStep::WritePacket(5)));
    assert_eq!(announcement.operation(2), None);
}

#[test]
fn counters_by_name() {
    let mut net = test_net(0, false);
    net.counters = NetCounters { rx_bytes: 1, rx_frames: 2, tx_bytes: 3, tx_frames: 4 };
    assert_eq!(
        net.counters(),
        vec![("rx_bytes", 1), ("rx_frames", 2), ("tx_bytes", 3), ("tx_frames", 4)]
    );
}

#[test]
fn resume_wakes_control_thread() {
    let net = test_net(0, false);
    assert!(matches!(net.resume(Ok(()), true), Ok(true)));
    assert!(matches!(net.resume(Ok(()), false), Ok(false)));
    let failed = net.resume(Err(PausableError::resume("stuck")), true);
    assert!(matches!(failed, Err(PausableError::Resume(s)) if s == "stuck"));
}

#[test]
fn snapshot_of_a_device() {
    let mut net = test_net(5, false);
    net.common.avail_features = 9;
    let snapshot = net
        .snapshot(|state| serde_json::to_string(&(state.avail_features, state.acked_features)))
        .unwrap();
    let back: (u64, u64) = snapshot.to_state(|s| serde_json::from_str(s)).unwrap();
    assert_eq!(back, (9, 5));
}

#[test]
fn thread_names() {
    assert_eq!(ctrl_thread_name("net0"), "net0_ctrl");
    assert_eq!(queue_pair_thread_name("net0", 0), "net0_qp0");
    assert_eq!(queue_pair_thread_name("net0", 9), "net0_qp9");
    assert_eq!(queue_pair_thread_name("net0", 10), "net0_qp10");
    assert_eq!(queue_pair_thread_name("", 90817), "_qp90817");
}

#[test]
fn snapshot_restores_the_device() {
    let mut net = test_net(1 << VIRTIO_NET_F_STATUS, false);
    net.common.avail_features = 0xabc;
    net.common.queue_sizes = vec![16, 8, 4];
    net.announce_pending = true;
    net.config.mac = [3, 1, 4, 1, 5, 9];
    net.config.mtu = 1400;
    let snapshot = net
        .snapshot(|state| {
            serde_json::to_string(&(
                state.avail_features,
                state.acked_features,
                (state.config.mac, state.config.mtu),
                state.announce_pending,
                &state.queue_size,
            ))
        })
        .unwrap();
    let state: NetState = snapshot
        .to_state(|text| {
            let (avail_features, acked_features, (mac, mtu), announce_pending, queue_size) =
                serde_json::from_str(text)?;
            let config = VirtioNetConfig { mac, mtu, ..Default::default() };
            Ok(NetState { avail_features, acked_features, config, announce_pending, queue_size })
        })
        .unwrap();
    let taps: OpenTaps<&str> = OpenTaps { taps: vec![3], mtu: Err("unknown") };
    let restored = Net::new_with_tap(
        "net0".to_string(),
        taps,
        None,
        false,
        2,
        256,
        Some(state),
        false,
        false,
        false,
        with_mac,
        with_mq,
    )
    .unwrap();
    assert_eq!(restored.features(), 0xabc);
    assert_eq!(restored.queue_max_sizes(), &[16, 8, 4]);
    assert_eq!(
        restored.config_with_status().as_slice(),
        net.config_with_status().as_slice()
    );
    assert!(restored.announce_pending);
    assert!(restored.common.paused);
}
