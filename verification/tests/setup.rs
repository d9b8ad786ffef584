use virtio_net_migration::activate::{
    ActivateAnswer, ActivateError, ActivateStep, Activation,
};
use virtio_net_migration::config::VirtioNetConfig;
use virtio_net_migration::features::{VIRTIO_NET_F_CTRL_VQ, VIRTIO_RING_F_EVENT_IDX};
use virtio_net_migration::net::{Net, NetCounters, NetError, VirtioCommon};
use virtio_net_migration::taps::{TapAnswer, TapSetup, TapStep};

type Step = ActivateStep<&'static str, &'static str>;

fn net(acked_features: u64) -> Net {
    Net {
        common: VirtioCommon { acked_features, ..Default::default() },
        id: "net0".to_string(),
        taps: vec![10, 11],
        config: VirtioNetConfig::default(),
        announce_pending: false,
        counters: NetCounters { rx_bytes: 0, rx_frames: 0, tx_bytes: 0, tx_frames: 0 },
    }
}

fn begin(
    net: &mut Net,
    queues: Vec<&'static str>,
    rate_limited: bool,
) -> (Activation<&'static str>, Step) {
    match net.activate(Ok(()), queues, rate_limited) {
        Ok(begun) => begun,
        Err(_) => panic!("not activated"),
    }
}

#[test]
fn activation_with_control_queue() {
    let acked = 1 << VIRTIO_NET_F_CTRL_VQ | 1 << VIRTIO_RING_F_EVENT_IDX;
    let mut net = net(acked);
    let (mut activation, step) = begin(&mut net, vec!["rx0", "tx0", "rx1", "tx1", "ctrl"], false);
    assert_eq!(net.common.paused_sync, Some(4));
    assert!(net.common.interrupt_cb);
    assert!(matches!(
        step,
        ActivateStep::SpawnCtrl { queue: "ctrl", queue_index: 4, event_idx: true }
    ));
    let step: Step = activation.resume(ActivateAnswer::Spawned(Ok(())));
    assert!(matches!(step, ActivateStep::SetOffload { tap: 10, features } if features == acked));
    let step: Step = activation.resume(ActivateAnswer::OffloadSet(Ok(())));
    assert!(matches!(
        step,
        ActivateStep::SpawnQueuePair {
            pair: 0,
            rx_queue: "rx0",
            tx_queue: "tx0",
            tap: 10,
            queue_index_base: 0,
            event_idx: true,
        }
    ));
    let step: Step = activation.resume(ActivateAnswer::Spawned(Ok(())));
    assert!(matches!(step, ActivateStep::SetOffload { tap: 11, .. }));
    let step: Step = activation.resume(ActivateAnswer::OffloadSet(Ok(())));
    assert!(matches!(
        step,
        ActivateStep::SpawnQueuePair {
            pair: 1,
            rx_queue: "rx1",
            tx_queue: "tx1",
            tap: 11,
            queue_index_base: 2,
            event_idx: true,
        }
    ));
    let step: Step = activation.resume(ActivateAnswer::Spawned(Ok(())));
    assert!(matches!(step, ActivateStep::Done(Ok(()))));
}

#[test]
fn activation_without_control_queue() {
    // An even number of queues holds no control queue.
    let mut net0 = net(1 << VIRTIO_NET_F_CTRL_VQ);
    let (_, step) = begin(&mut net0, vec!["rx0", "tx0"], false);
    assert!(matches!(step, ActivateStep::SetOffload { tap: 10, .. }));
    assert_eq!(net0.common.paused_sync, Some(2));

    // An odd one neither, unless the guest knows of it. The last queue is not served.
    let mut net1 = net(0);
    let (mut activation, step) = begin(&mut net1, vec!["rx0", "tx0", "rest"], false);
    assert!(matches!(step, ActivateStep::SetOffload { tap: 10, features: 0 }));
    assert_eq!(net1.common.paused_sync, Some(2));
    let step: Step = activation.resume(ActivateAnswer::OffloadSet(Ok(())));
    assert!(matches!(step, ActivateStep::SpawnQueuePair { event_idx: false, .. }));
    let step: Step = activation.resume(ActivateAnswer::Spawned(Ok(())));
    assert!(matches!(step, ActivateStep::Done(Ok(()))));
}

#[test]
fn activation_creates_rate_limiters() {
    let mut net = net(0);
    let (mut activation, step) = begin(&mut net, vec!["rx0", "tx0"], true);
    assert!(matches!(step, ActivateStep::CreateRxRateLimiter { pair: 0 }));
    let step: Step = activation.resume(ActivateAnswer::LimiterCreated(Ok(())));
    assert!(matches!(step, ActivateStep::CreateTxRateLimiter { pair: 0 }));
    let step: Step = activation.resume(ActivateAnswer::LimiterCreated(Ok(())));
    assert!(matches!(step, ActivateStep::SetOffload { tap: 10, .. }));
}

#[test]
fn activation_failures() {
    let mut dev = net(0);
    let r = dev.activate::<&str, &str>(Err("eventfd"), vec![], false);
    assert!(matches!(r, Err(ActivateError::Common("eventfd"))));
    assert_eq!(dev.common.paused_sync, None);
    assert!(!dev.common.interrupt_cb);

    let (mut activation, _) = begin(&mut dev, vec!["rx0", "tx0"], true);
    let step: Step = activation.resume(ActivateAnswer::LimiterCreated(Err("timer")));
    assert!(matches!(step, ActivateStep::Done(Err(ActivateError::CreateRateLimiter("timer")))));

    let (mut activation, _) = begin(&mut dev, vec!["rx0", "tx0"], false);
    let step: Step = activation.resume(ActivateAnswer::OffloadSet(Err("ioctl")));
    assert!(matches!(step, ActivateStep::Done(Err(ActivateError::BadActivate))));

    let (mut activation, _) = begin(&mut dev, vec!["rx0", "tx0"], false);
    let _: Step = activation.resume(ActivateAnswer::OffloadSet(Ok(())));
    let step: Step = activation.resume(ActivateAnswer::Spawned(Err("clone")));
    assert!(matches!(step, ActivateStep::Done(Err(ActivateError::SpawnThread("clone")))));
}

#[test]
fn activation_without_queues() {
    let mut net = net(0);
    let (_, step) = begin(&mut net, vec![], true);
    assert!(matches!(step, ActivateStep::Done(Ok(()))));
    assert_eq!(net.common.paused_sync, Some(1));
}

#[test]
fn taps_from_file_descriptors() {
    let (mut setup, step) = TapSetup::begin::<&str>(vec![3, 4], Some(9000));
    assert!(matches!(step, TapStep::Duplicate(3)));
    let step = setup.resume(TapAnswer::Duplicated { fd: 13, last_error: "" });
    assert!(matches!(step, TapStep::Open { fd: 13, num_queue_pairs: 2 }));
    let step = setup.resume(TapAnswer::<&str>::Opened(Ok(23)));
    assert!(matches!(step, TapStep::Duplicate(4)));
    let step = setup.resume(TapAnswer::Duplicated { fd: 0, last_error: "" });
    assert!(matches!(step, TapStep::Open { fd: 0, num_queue_pairs: 2 }));
    let step = setup.resume(TapAnswer::<&str>::Opened(Ok(24)));
    assert!(matches!(step, TapStep::SetMtu { tap: 23, mtu: 9000 }));
    let step = setup.resume(TapAnswer::<&str>::MtuSet(Ok(())));
    assert!(matches!(step, TapStep::Ready));
    assert_eq!(setup.taps, vec![23, 24]);
}

#[test]
fn taps_keep_their_mtu() {
    let (mut setup, _) = TapSetup::begin::<&str>(vec![3], None);
    setup.resume(TapAnswer::Duplicated { fd: 13, last_error: "" });
    let step = setup.resume(TapAnswer::<&str>::Opened(Ok(23)));
    assert!(matches!(step, TapStep::Ready));
}

#[test]
fn tap_setup_failures() {
    let (mut setup, _) = TapSetup::begin::<&str>(vec![3], Some(u16::MAX));
    let step = setup.resume(TapAnswer::Duplicated { fd: -1, last_error: "EMFILE" });
    assert!(matches!(step, TapStep::Failed(NetError::DuplicateTapFd("EMFILE"))));

    let (mut setup, _) = TapSetup::begin::<&str>(vec![3], Some(u16::MAX));
    setup.resume(TapAnswer::Duplicated { fd: 5, last_error: "" });
    let step = setup.resume(TapAnswer::Opened(Err("ioctl")));
    assert!(matches!(step, TapStep::Failed(NetError::TapError("ioctl"))));

    let (mut setup, _) = TapSetup::begin::<&str>(vec![3], Some(u16::MAX));
    setup.resume(TapAnswer::Duplicated { fd: 5, last_error: "" });
    let step = setup.resume(TapAnswer::<&str>::Opened(Ok(6)));
    assert!(matches!(step, TapStep::SetMtu { tap: 6, mtu: 65535 }));
    let step = setup.resume(TapAnswer::MtuSet(Err("mtu")));
    assert!(matches!(step, TapStep::Failed(NetError::TapError("mtu"))));
}
