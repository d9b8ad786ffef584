//! What holds of the library's operations, from their arguments to their results.
//!
//! In these laws `call_ensures(f, args, r)` says that `r` is a result of `f` for `args`.

use vstd::prelude::*;

use crate::activate::{ActivateAnswer, ActivateError, ActivateStep, Activation};
use crate::announce::{Announcement, AnnounceStep, VirtioNetPostMigrationAnnouncer};
use crate::config::VirtioNetConfig;
use crate::ctrl::{CtrlAnswer, CtrlStep, NetCtrlEpollHandler};
use crate::error::PausableError;
use crate::events::{event_type, Listener, CTRL_QUEUE_EVENT, RX_QUEUE_EVENT, RX_TAP_EVENT};
use crate::features::{
    fresh_features, has_feature, with_feature, VIRTIO_F_ACCESS_PLATFORM, VIRTIO_F_VERSION_1,
    VIRTIO_NET_F_CSUM, VIRTIO_NET_F_CTRL_GUEST_OFFLOADS, VIRTIO_NET_F_CTRL_VQ,
    VIRTIO_NET_F_GUEST_ANNOUNCE, VIRTIO_NET_F_GUEST_CSUM, VIRTIO_NET_F_GUEST_ECN,
    VIRTIO_NET_F_GUEST_TSO4, VIRTIO_NET_F_GUEST_TSO6, VIRTIO_NET_F_GUEST_UFO,
    VIRTIO_NET_F_HOST_ECN, VIRTIO_NET_F_HOST_TSO4, VIRTIO_NET_F_HOST_TSO6, VIRTIO_NET_F_HOST_UFO,
    VIRTIO_NET_F_MTU, VIRTIO_NET_F_STATUS, VIRTIO_RING_F_EVENT_IDX,
};
use crate::handler::{NetAnswer, NetEpollHandler, NetStep};
use crate::names::{ctrl_thread_name, queue_pair_thread_name};
use crate::net::{Net, NetConstructorState, NetError, NetState, OpenTaps, VirtioCommon};
use crate::run::{NetRun, RunAnswer, RunPhase, RunStep};
use crate::taps::{TapAnswer, TapSetup, TapStep};

verus! {

/// The event number is what the data leaves modulo 2^16.
pub proof fn law_event_type(data: u64, r: u16)
    requires
        call_ensures(event_type, (data,), r),
    ensures
        (data - r) % 0x1_0000 == 0,
{
}

/// A feature is found exactly if its bit is set.
pub proof fn law_feature_found(features: u64, feature: u32, r: bool)
    requires
        feature < 64,
        call_ensures(has_feature, (features, feature), r),
    ensures
        r <==> features & (1u64 << feature) != 0,
{
}

/// A guest's acknowledgement of a feature is found exactly if its bit is set.
pub proof fn law_acknowledgement_found(common: VirtioCommon, feature: u32, r: bool)
    requires
        feature < 64,
        call_ensures(VirtioCommon::feature_acked, (&common, feature), r),
    ensures
        r <==> common.acked_features & (1u64 << feature) != 0,
{
}

/// A feature that is added is set from then on, and the others stay as they were.
pub proof fn law_feature_added(features: u64, feature: u32, r: u64, bit: u32)
    requires
        feature < 64,
        bit < 64,
        call_ensures(with_feature, (features, feature), r),
    ensures
        r & (1u64 << bit) != 0 <==> features & (1u64 << bit) != 0 || bit == feature,
{
    assert(crate::features::feature_bits(r).contains(bit) == crate::features::feature_bits(
        features,
    ).insert(feature).contains(bit));
}

/// A fresh device offers each feature under its own condition, whatever the other options are,
/// and nothing else.
pub proof fn law_fresh_features(
    mtu: bool,
    access_platform: bool,
    tso: bool,
    ufo: bool,
    csum: bool,
    r: u64,
    bit: u32,
)
    requires
        bit < 64,
        call_ensures(fresh_features, (mtu, access_platform, tso, ufo, csum), r),
    ensures
        r & (1u64 << bit) != 0 <==> {
            ||| bit == VIRTIO_RING_F_EVENT_IDX || bit == VIRTIO_F_VERSION_1
            ||| bit == VIRTIO_NET_F_CTRL_VQ || bit == VIRTIO_NET_F_STATUS
            ||| bit == VIRTIO_NET_F_GUEST_ANNOUNCE
            ||| mtu && bit == VIRTIO_NET_F_MTU
            ||| access_platform && bit == VIRTIO_F_ACCESS_PLATFORM
            ||| csum && bit == VIRTIO_NET_F_CSUM
            ||| csum && bit == VIRTIO_NET_F_GUEST_CSUM
            ||| csum && bit == VIRTIO_NET_F_CTRL_GUEST_OFFLOADS
            ||| csum && tso && (bit == VIRTIO_NET_F_HOST_ECN || bit == VIRTIO_NET_F_GUEST_ECN)
            ||| csum && tso && (bit == VIRTIO_NET_F_HOST_TSO4 || bit == VIRTIO_NET_F_GUEST_TSO4)
            ||| csum && tso && (bit == VIRTIO_NET_F_HOST_TSO6 || bit == VIRTIO_NET_F_GUEST_TSO6)
            ||| csum && ufo && (bit == VIRTIO_NET_F_HOST_UFO || bit == VIRTIO_NET_F_GUEST_UFO)
        },
{
    crate::features::law_features_offered(mtu, access_platform, tso, ufo, csum, bit);
    assert(crate::features::feature_bits(r).contains(bit) <==> r & (1u64 << bit) != 0);
}

/// The configuration's bytes hold each field at its place.
pub proof fn law_config_bytes(config: VirtioNetConfig, r: Vec<u8>)
    requires
        call_ensures(VirtioNetConfig::as_slice, (&config,), r),
    ensures
        r@.len() == 17,
        forall|i: int| 0 <= i < 6 ==> r@[i] == config.mac@[i],
        r@[6] + 0x100 * r@[7] == config.status,
        r@[8] + 0x100 * r@[9] == config.max_virtqueue_pairs,
        r@[10] + 0x100 * r@[11] == config.mtu,
        r@[12] + 0x100 * r@[13] + 0x1_0000 * r@[14] + 0x100_0000 * r@[15] == config.speed,
        r@[16] == config.duplex,
{
    crate::config::law_fields_in_bytes(config);
}

/// The configuration that the guest sees differs from the device's in the status alone, which
/// tells of the link and of a pending announcement where the guest knows the field.
pub proof fn law_config_with_status(net: Net, r: VirtioNetConfig)
    requires
        call_ensures(Net::config_with_status, (&net,), r),
    ensures
        r == (VirtioNetConfig { status: r.status, ..net.config }),
        r.status == if net.common.acked_features & (1u64 << VIRTIO_NET_F_STATUS) == 0 {
            0
        } else if net.announce_pending {
            3
        } else {
            1int
        },
{
    crate::device::law_shown_config(net);
}

/// A read of the configuration within its bounds gives the bytes that the guest sees from the
/// offset on, and one beyond them changes nothing.
pub proof fn law_config_read(
    net: Net,
    offset: u64,
    data: &mut [u8],
    shown: VirtioNetConfig,
    bytes: Vec<u8>,
)
    requires
        call_ensures(Net::config_with_status, (&net,), shown),
        call_ensures(VirtioNetConfig::as_slice, (&shown,), bytes),
        call_ensures(Net::read_config, (&net, offset, data), ()),
    ensures
        final(data)@.len() == old(data)@.len(),
        offset + old(data)@.len() <= 17 ==> forall|i: int|
            0 <= i < old(data)@.len() ==> final(data)@[i] == bytes@[offset + i],
        offset + old(data)@.len() > 17 ==> final(data)@ == old(data)@,
{
    crate::config::law_fields_in_bytes(shown);
}

/// A saved state holds what the device has.
pub proof fn law_state_saved(net: Net, state: NetState)
    requires
        call_ensures(Net::state, (&net,), state),
    ensures
        state.avail_features == net.common.avail_features,
        state.acked_features == net.common.acked_features,
        state.config == net.config,
        state.announce_pending == net.announce_pending,
        state.queue_size@ == net.common.queue_sizes@,
{
}

/// What a restored device starts with is what the state holds, and it starts paused.
pub proof fn law_restored_start(state: NetState, r: NetConstructorState)
    requires
        call_ensures(Net::restored_constructor_state, (state,), r),
    ensures
        r.avail_features == state.avail_features,
        r.acked_features == state.acked_features,
        r.config == state.config,
        r.announce_pending == state.announce_pending,
        r.queue_sizes@ == state.queue_size@,
        r.paused,
{
}

/// A device that is created from the state of another one has exactly its features, those that
/// the guest acknowledged, its configuration, its pending announcement and its queue sizes,
/// whatever it is created with besides. It is paused and has the given taps.
pub proof fn law_device_moves<
    E,
    B: FnOnce(VirtioNetConfig, [u8; 6], usize, Option<u16>, u64) -> (VirtioNetConfig, u64),
    Q: FnOnce(VirtioNetConfig, usize, Option<u16>, u64) -> (VirtioNetConfig, u64),
>(
    net: Net,
    state: NetState,
    id: String,
    taps: OpenTaps<E>,
    guest_mac: Option<[u8; 6]>,
    access_platform: bool,
    num_queues: usize,
    queue_size: u16,
    tso: bool,
    ufo: bool,
    csum: bool,
    build: B,
    build_with_mq: Q,
    r: Result<Net, NetError<E>>,
)
    requires
        call_ensures(Net::state, (&net,), state),
        call_ensures(
            Net::new_with_tap::<E, B, Q>,
            (
                id,
                taps,
                guest_mac,
                access_platform,
                num_queues,
                queue_size,
                Some(state),
                tso,
                ufo,
                csum,
                build,
                build_with_mq,
            ),
            r,
        ),
    ensures
        r matches Ok(restored) && {
            &&& restored.common.avail_features == net.common.avail_features
            &&& restored.common.acked_features == net.common.acked_features
            &&& restored.common.queue_sizes@ == net.common.queue_sizes@
            &&& restored.config == net.config
            &&& restored.announce_pending == net.announce_pending
            &&& restored.common.paused
            &&& restored.taps@ == taps.taps@
            &&& restored.id@ == id@
            &&& restored.common.paused_sync matches Some(n) && n == 1 + num_queues as int / 2
        },
{
}

/// Taps that could not be opened or made are the reason why there is no device, and nothing
/// else is.
pub proof fn law_tap_failure_reported<
    E,
    B: FnOnce(VirtioNetConfig, [u8; 6], usize, Option<u16>, u64) -> (VirtioNetConfig, u64),
    Q: FnOnce(VirtioNetConfig, usize, Option<u16>, u64) -> (VirtioNetConfig, u64),
>(
    id: String,
    opened: Result<OpenTaps<E>, E>,
    made: Result<OpenTaps<E>, NetError<E>>,
    guest_mac: Option<[u8; 6]>,
    access_platform: bool,
    num_queues: usize,
    queue_size: u16,
    state: Option<NetState>,
    tso: bool,
    ufo: bool,
    csum: bool,
    build: B,
    build_with_mq: Q,
    new: Result<Net, NetError<E>>,
    from_fds: Result<Net, NetError<E>>,
)
    requires
        call_ensures(
            Net::new::<E, B, Q>,
            (
                id,
                opened,
                guest_mac,
                access_platform,
                num_queues,
                queue_size,
                state,
                tso,
                ufo,
                csum,
                build,
                build_with_mq,
            ),
            new,
        ),
        call_ensures(
            Net::from_tap_fds::<E, B, Q>,
            (
                id,
                made,
                guest_mac,
                access_platform,
                queue_size,
                state,
                tso,
                ufo,
                csum,
                build,
                build_with_mq,
            ),
            from_fds,
        ),
    ensures
        new is Ok <==> opened is Ok,
        opened matches Err(e) ==> new == Err::<Net, NetError<E>>(NetError::OpenTap(e)),
        opened matches Ok(taps) ==> (new matches Ok(net) && net.taps@ == taps.taps@),
        from_fds is Ok <==> made is Ok,
        made matches Err(e) ==> from_fds == Err::<Net, NetError<E>>(e),
        made matches Ok(taps) ==> (from_fds matches Ok(net) && net.taps@ == taps.taps@),
{
}

/// A reset forgets a pending announcement and changes nothing else here.
pub proof fn law_reset(net: &mut Net)
    requires
        call_ensures(Net::reset, (net,), ()),
    ensures
        !final(net).announce_pending,
        final(net).common == old(net).common,
        final(net).config == old(net).config,
        final(net).taps == old(net).taps,
        final(net).id == old(net).id,
        final(net).counters == old(net).counters,
{
}

/// The counters are reported under their names.
pub proof fn law_counters(net: Net, r: Vec<(&'static str, u64)>)
    requires
        call_ensures(Net::counters, (&net,), r),
    ensures
        r@.len() == 4,
        r@[0].0@ == "rx_bytes"@ && r@[0].1 == net.counters.rx_bytes,
        r@[1].0@ == "rx_frames"@ && r@[1].1 == net.counters.rx_frames,
        r@[2].0@ == "tx_bytes"@ && r@[2].1 == net.counters.tx_bytes,
        r@[3].0@ == "tx_frames"@ && r@[3].1 == net.counters.tx_frames,
{
}

/// What a device shows of its common state is what it has.
pub proof fn law_getters(net: Net, device_type: u32, features: u64, sizes: &[u16], id: String)
    requires
        call_ensures(Net::device_type, (&net,), device_type),
        call_ensures(Net::features, (&net,), features),
        call_ensures(Net::queue_max_sizes, (&net,), sizes),
        call_ensures(Net::id, (&net,), id),
    ensures
        device_type == net.common.device_type,
        features == net.common.avail_features,
        sizes@ == net.common.queue_sizes@,
        id@ == net.id@,
{
}

/// A resumed device wakes the control queue's thread exactly if there is one, and a failure to
/// resume is passed on.
pub proof fn law_resume(
    net: Net,
    common: Result<(), PausableError>,
    ctrl_thread: bool,
    r: Result<bool, PausableError>,
)
    requires
        call_ensures(Net::resume, (&net, common, ctrl_thread), r),
    ensures
        common is Ok ==> r == Ok::<bool, PausableError>(ctrl_thread),
        common matches Err(e) ==> r == Err::<bool, PausableError>(e),
{
}

/// The announcing frame goes to everyone and carries the device's address as its source, as the
/// sender and as the target of a reverse ARP request, with zeros elsewhere, for every address.
pub proof fn law_announcing_frame(net: Net, r: [u8; 60])
    requires
        call_ensures(Net::build_rarp_announce, (&net,), r),
    ensures
        forall|i: int| 0 <= i < 6 ==> r@[i] == 0xff,
        forall|i: int| 0 <= i < 6 ==> #[trigger] r@[6 + i] == net.config.mac@[i],
        r@.subrange(12, 22) == seq![0x80u8, 0x35, 0x00, 0x01, 0x08, 0x00, 6, 4, 0x00, 0x03],
        forall|i: int| 0 <= i < 6 ==> #[trigger] r@[22 + i] == net.config.mac@[i],
        forall|i: int| 28 <= i < 32 ==> r@[i] == 0,
        forall|i: int| 0 <= i < 6 ==> #[trigger] r@[32 + i] == net.config.mac@[i],
        forall|i: int| 38 <= i < 60 ==> r@[i] == 0,
{
    crate::announce::law_frame_announces_address(net.config.mac@);
}

/// Announcing a device writes the announcing frame, behind an empty header, to each of its taps.
/// The guest is asked to announce itself exactly if it has acknowledged that it can and the
/// device has an interrupt: then an announcement is pending, else that stays as it was.
pub proof fn law_device_announced(
    net: Net,
    frame: [u8; 60],
    announcer: Option<VirtioNetPostMigrationAnnouncer>,
    header: usize,
    pending: &mut bool,
    r: Announcement,
)
    requires
        call_ensures(Net::build_rarp_announce, (&net,), frame),
        call_ensures(Net::post_migration_announcer, (&net,), announcer),
        announcer matches Some(a) ==> call_ensures(
            VirtioNetPostMigrationAnnouncer::announce,
            (&a, header, pending),
            r,
        ),
    ensures
        announcer is Some,
        r.packet@.len() == header + 60,
        forall|i: int| 0 <= i < header ==> r.packet@[i] == 0,
        r.packet@.skip(header as int) == frame@,
        r.taps@ == net.taps@,
        ({
            let asks = net.common.acked_features & (1u64 << VIRTIO_NET_F_GUEST_ANNOUNCE) != 0
                && net.common.interrupt_cb;
            &&& r.trigger_config == asks
            &&& *final(pending) == (*old(pending) || asks)
        }),
{
    assert(r.packet@.skip(header as int) =~= frame@);
}

/// An announcer that is made of a device is the one that the device gives.
pub proof fn law_announcer_made(net: Net, r: VirtioNetPostMigrationAnnouncer)
    requires
        call_ensures(VirtioNetPostMigrationAnnouncer::new, (&net,), r),
    ensures
        r.guest_announce_negotiated <==> net.common.acked_features & (1u64
            << VIRTIO_NET_F_GUEST_ANNOUNCE) != 0,
        r.interrupt_cb == net.common.interrupt_cb,
        r.taps@ == net.taps@,
        r.id@ == net.id@,
{
}

/// The operations of an announcement: first a write to each tap in order, then the interrupt if
/// it is wanted, then nothing, whatever came of the one before.
pub proof fn law_announcement_operations<E>(
    announcement: Announcement,
    i: usize,
    outcome: Result<(), E>,
    operation: Option<AnnounceStep>,
    next: Option<AnnounceStep>,
)
    requires
        call_ensures(Announcement::operation, (&announcement, i), operation),
        call_ensures(Announcement::resume::<E>, (&announcement, i, outcome), next),
    ensures
        ({
            let taps = announcement.taps@;
            &&& i < taps.len() ==> operation == Some(AnnounceStep::WritePacket(taps[i as int]))
            &&& i == taps.len() && announcement.trigger_config ==> operation == Some(
                AnnounceStep::TriggerConfig,
            )
            &&& i == taps.len() && !announcement.trigger_config ==> operation is None
            &&& i > taps.len() ==> operation is None
            &&& i + 1 < taps.len() ==> next == Some(AnnounceStep::WritePacket(taps[i + 1]))
            &&& i + 1 == taps.len() && announcement.trigger_config ==> next == Some(
                AnnounceStep::TriggerConfig,
            )
            &&& i + 1 == taps.len() && !announcement.trigger_config ==> next is None
            &&& i + 1 > taps.len() ==> next is None
        }),
{
}

/// A thread's name is the device's identifier and what the thread serves, for a queue pair with
/// its number.
pub proof fn law_thread_names(id: &str, pair: usize, ctrl: String, qp: String)
    requires
        call_ensures(ctrl_thread_name, (id,), ctrl),
        call_ensures(queue_pair_thread_name, (id, pair), qp),
    ensures
        ctrl@ == id@ + "_ctrl"@,
        qp@.len() > id@.len() + 3,
        qp@.take(id@.len() + 3int) == id@ + "_qp"@,
        crate::names::decimal_value(qp@.skip(id@.len() + 3int)) == pair,
{
    reveal_strlit("_qp");
    crate::names::law_decimal_denotes(pair as nat);
    assert(qp@.take(id@.len() + 3int) =~= id@ + "_qp"@);
    assert(qp@.skip(id@.len() + 3int) =~= crate::names::decimal(pair as nat));
}

/// A new handler of a queue pair serves what it was given, reports the tap as readable with that
/// event, and listens to nothing yet.
pub proof fn law_new_handler(
    base: u16,
    events: (i32, i32),
    tap: i32,
    rx: Option<i32>,
    tx: Option<i32>,
    r: NetEpollHandler,
)
    requires
        call_ensures(NetEpollHandler::new, (base, events, tap, rx, tx), r),
    ensures
        r.queue_index_base == base,
        r.queue_evt_pair == events,
        r.tap == tap,
        r.rx_rate_limiter == rx,
        r.tx_rate_limiter == tx,
        r.tap_rx_event_id == RX_TAP_EVENT,
        r.epoll_fd is None,
        !r.rx_tap_listening && !r.rx_desc_avail,
        r.phase is Idle,
{
}

/// A handler takes the steps that its events and answers call for: those of the event that the
/// low half-word of the data numbers.
pub proof fn law_handler_steps<E>(
    handler: &mut NetEpollHandler,
    data: u64,
    first: NetStep<E>,
    resumed: &mut NetEpollHandler,
    answer: NetAnswer<E>,
    next: NetStep<E>,
)
    requires
        call_ensures(NetEpollHandler::handle_event::<E>, (handler, data), first),
        call_ensures(NetEpollHandler::resume::<E>, (resumed, answer), next),
    ensures
        (*final(handler), first) == old(handler).on_event::<E>(data as int % 0x1_0000),
        (*final(resumed), next) == old(resumed).on_answer(answer),
{
}

/// The control queue's handler listens to its queue and takes the steps that its events and
/// answers call for.
pub proof fn law_ctrl_handler_steps<E>(
    event: i32,
    index: u16,
    new: NetCtrlEpollHandler,
    listener: Listener,
    handler: &mut NetCtrlEpollHandler,
    data: u64,
    first: CtrlStep<E>,
    resumed: &mut NetCtrlEpollHandler,
    answer: CtrlAnswer<E>,
    next: CtrlStep<E>,
)
    requires
        call_ensures(NetCtrlEpollHandler::new, (event, index), new),
        call_ensures(NetCtrlEpollHandler::run_ctrl, (&new,), listener),
        call_ensures(NetCtrlEpollHandler::handle_event::<E>, (handler, data), first),
        call_ensures(NetCtrlEpollHandler::resume::<E>, (resumed, answer), next),
    ensures
        new.queue_evt == event && new.queue_index == index && new.phase is Idle,
        listener.fd == event && listener.event == CTRL_QUEUE_EVENT,
        (*final(handler), first) == old(handler).on_event::<E>(data as int % 0x1_0000),
        (*final(resumed), next) == old(resumed).on_answer(answer),
{
}

/// The start of a loop begins with the receive queue's event and takes the steps that its
/// answers call for.
pub proof fn law_run_steps<E>(
    handler: NetEpollHandler,
    epoll_fd: i32,
    begun: (NetRun, RunStep<E>),
    resumed: &mut NetRun,
    answer: RunAnswer<E>,
    next: RunStep<E>,
)
    requires
        call_ensures(NetRun::run::<E>, (handler, epoll_fd), begun),
        call_ensures(NetRun::resume::<E>, (resumed, answer), next),
    ensures
        begun.0 == (NetRun { handler, epoll_fd, phase: RunPhase::AddListener(0) }),
        begun.1 == RunStep::<E>::AddEvent(
            (Listener { fd: handler.queue_evt_pair.0, event: RX_QUEUE_EVENT }),
        ),
        (*final(resumed), next) == old(resumed).on_answer(answer),
{
}

/// The making of taps begins with the first file descriptor and takes the steps that its answers
/// call for.
pub proof fn law_tap_steps<E>(
    fds: Vec<i32>,
    mtu: Option<u16>,
    begun: (TapSetup, TapStep<E>),
    resumed: &mut TapSetup,
    answer: TapAnswer<E>,
    next: TapStep<E>,
)
    requires
        call_ensures(TapSetup::begin::<E>, (fds, mtu), begun),
        call_ensures(TapSetup::resume::<E>, (resumed, answer), next),
    ensures
        begun.0.fds@ == fds@,
        begun.0.mtu == mtu,
        begun.0.taps@.len() == 0,
        begun.0.phase is Duplicate,
        begun.1 == TapStep::<E>::Duplicate(fds@[0]),
        (final(resumed)@, next) == old(resumed)@.on_answer(answer),
{
}

/// Activating a device fails if what it has in common with other devices could not be activated,
/// and then changes nothing. Else it begins with the first of the operations that deal its
/// queues, and its pause waits for as many threads as serve the queues and the caller's.
pub proof fn law_activation_begins<Q, E>(
    net: &mut Net,
    common: Result<(), E>,
    queues: Vec<Q>,
    rate_limited: bool,
    r: Result<(Activation<Q>, ActivateStep<Q, E>), ActivateError<E>>,
)
    requires
        call_ensures(Net::activate::<Q, E>, (net, common, queues, rate_limited), r),
    ensures
        r is Ok <==> common is Ok,
        common matches Err(e) ==> r matches Err(ActivateError::Common(f)) && f == e,
        common is Err ==> *final(net) == *old(net),
        common is Ok ==> {
            let ctrl = old(net).common.acked_features & (1u64 << VIRTIO_NET_F_CTRL_VQ) != 0
                && queues@.len() % 2 == 1;
            let begun = r->Ok_0;
            &&& (begun.0@, begun.1) == crate::activate::after_operations::<Q, E>(
                *old(net),
                queues@,
                rate_limited,
                0,
            )
            &&& final(net).common.paused_sync matches Some(threads)
            &&& threads == 1 + queues@.len() / 2 + if ctrl {
                1int
            } else {
                0int
            }
            &&& final(net).common.interrupt_cb
            &&& final(net).common.acked_features == old(net).common.acked_features
            &&& final(net).common.avail_features == old(net).common.avail_features
            &&& final(net).taps == old(net).taps && final(net).config == old(net).config
            &&& final(net).announce_pending == old(net).announce_pending
        },
{
    assert(queues.len() == queues@.len());
}

/// An activation takes the steps that its answers call for.
pub proof fn law_activation_steps<Q, E>(
    activation: &mut Activation<Q>,
    answer: ActivateAnswer<E>,
    next: ActivateStep<Q, E>,
)
    requires
        call_ensures(Activation::<Q>::resume::<E>, (activation, answer), next),
    ensures
        (final(activation)@, next) == old(activation)@.on_answer(answer),
{
}

/// Whether a builder can be given this to start with: a configuration of zeros, and the features
/// that are offered for these options.
pub open spec fn builder_input(
    config: VirtioNetConfig,
    features: u64,
    mtu: bool,
    access_platform: bool,
    tso: bool,
    ufo: bool,
    csum: bool,
) -> bool {
    &&& forall|i: int| 0 <= i < 6 ==> config.mac@[i] == 0
    &&& config.status == 0 && config.max_virtqueue_pairs == 0 && config.mtu == 0
    &&& config.speed == 0 && config.duplex == 0
    &&& crate::features::feature_bits(features) == crate::features::offered_features(
        mtu,
        access_platform,
        tso,
        ufo,
        csum,
    )
}

/// A new device has nothing acknowledged and nothing pending, runs, and has one queue more than
/// asked for, each of the size asked for. Its configuration and features are what a builder
/// made: the one for an address where the guest gets one, else the other. The builder was
/// given zeros and the features of the device's options, the address, the number of queues,
/// and the maximum transmission unit of the first tap if that is known.
pub proof fn law_device_made<
    E,
    B: FnOnce(VirtioNetConfig, [u8; 6], usize, Option<u16>, u64) -> (VirtioNetConfig, u64),
    Q: FnOnce(VirtioNetConfig, usize, Option<u16>, u64) -> (VirtioNetConfig, u64),
>(
    id: String,
    taps: OpenTaps<E>,
    guest_mac: Option<[u8; 6]>,
    access_platform: bool,
    num_queues: usize,
    queue_size: u16,
    tso: bool,
    ufo: bool,
    csum: bool,
    build: B,
    build_with_mq: Q,
    r: Result<Net, NetError<E>>,
)
    requires
        call_ensures(
            Net::new_with_tap::<E, B, Q>,
            (
                id,
                taps,
                guest_mac,
                access_platform,
                num_queues,
                queue_size,
                None,
                tso,
                ufo,
                csum,
                build,
                build_with_mq,
            ),
            r,
        ),
    ensures
        r matches Ok(net) && {
            &&& net.common.device_type == 1 && net.common.min_queues == 2
            &&& net.common.acked_features == 0
            &&& !net.announce_pending && !net.common.paused && !net.common.interrupt_cb
            &&& net.common.queue_sizes@.len() == num_queues + 1
            &&& forall|i: int| 0 <= i <= num_queues ==> net.common.queue_sizes@[i] == queue_size
            &&& net.taps@ == taps.taps@
            &&& net.id@ == id@
            &&& net.common.paused_sync matches Some(n) && n == 1 + num_queues as int / 2
        },
        exists|config: VirtioNetConfig, features: u64, mtu: Option<u16>|
            {
                &&& #[trigger] builder_input(
                    config,
                    features,
                    mtu is Some,
                    access_platform,
                    tso,
                    ufo,
                    csum,
                )
                &&& mtu is Some <==> taps.mtu is Ok
                &&& mtu is Some ==> (mtu->0 - taps.mtu->Ok_0) % 0x1_0000 == 0
                &&& match guest_mac {
                    Some(mac) => call_ensures(
                        build,
                        (config, mac, num_queues, mtu, features),
                        (r->Ok_0.config, r->Ok_0.common.avail_features),
                    ),
                    None => call_ensures(
                        build_with_mq,
                        (config, num_queues, mtu, features),
                        (r->Ok_0.config, r->Ok_0.common.avail_features),
                    ),
                }
            },
{
    let net = r->Ok_0;
    let mtu = crate::net::advertised_mtu(taps.mtu);
    let start = choose|start: NetConstructorState| #[trigger]
        crate::net::started_with(net, id@, taps.taps@, num_queues, start) && crate::net::is_fresh(
            start,
            guest_mac,
            access_platform,
            mtu,
            num_queues,
            queue_size,
            tso,
            ufo,
            csum,
            build,
            build_with_mq,
        );
    let offered = crate::features::offered_features(mtu is Some, access_platform, tso, ufo, csum);
    let built = (start.config, start.avail_features);
    let (config, features) = choose|config: VirtioNetConfig, features: u64|
        {
            &&& #[trigger] crate::net::builder_start(config, features, offered)
            &&& match guest_mac {
                Some(mac) => call_ensures(build, (config, mac, num_queues, mtu, features), built),
                None => call_ensures(build_with_mq, (config, num_queues, mtu, features), built),
            }
        };
    crate::net::law_mtu_advertised(taps.mtu);
    assert(builder_input(config, features, mtu is Some, access_platform, tso, ufo, csum));
}

/// However a device gets its taps, one that continues from a state has what the state holds, and
/// a new one has the queues asked for: two for each file descriptor where the taps are made
/// from them, and one more.
pub proof fn law_device_from_taps<
    E,
    B: FnOnce(VirtioNetConfig, [u8; 6], usize, Option<u16>, u64) -> (VirtioNetConfig, u64),
    Q: FnOnce(VirtioNetConfig, usize, Option<u16>, u64) -> (VirtioNetConfig, u64),
>(
    id: String,
    taps: OpenTaps<E>,
    guest_mac: Option<[u8; 6]>,
    access_platform: bool,
    num_queues: usize,
    queue_size: u16,
    state: Option<NetState>,
    tso: bool,
    ufo: bool,
    csum: bool,
    build: B,
    build_with_mq: Q,
    new: Result<Net, NetError<E>>,
    from_fds: Result<Net, NetError<E>>,
)
    requires
        2 * taps.taps@.len() < usize::MAX,
        call_ensures(
            Net::new::<E, B, Q>,
            (
                id,
                Ok(taps),
                guest_mac,
                access_platform,
                num_queues,
                queue_size,
                state,
                tso,
                ufo,
                csum,
                build,
                build_with_mq,
            ),
            new,
        ),
        call_ensures(
            Net::from_tap_fds::<E, B, Q>,
            (
                id,
                Ok(taps),
                guest_mac,
                access_platform,
                queue_size,
                state,
                tso,
                ufo,
                csum,
                build,
                build_with_mq,
            ),
            from_fds,
        ),
    ensures
        new is Ok && from_fds is Ok,
        state matches Some(s) ==> {
            &&& new->Ok_0.common.avail_features == s.avail_features
            &&& new->Ok_0.common.acked_features == s.acked_features
            &&& new->Ok_0.common.queue_sizes@ == s.queue_size@
            &&& new->Ok_0.config == s.config
            &&& new->Ok_0.announce_pending == s.announce_pending
            &&& from_fds->Ok_0.common.avail_features == s.avail_features
            &&& from_fds->Ok_0.common.acked_features == s.acked_features
            &&& from_fds->Ok_0.common.queue_sizes@ == s.queue_size@
            &&& from_fds->Ok_0.config == s.config
            &&& from_fds->Ok_0.announce_pending == s.announce_pending
            &&& new->Ok_0.common.paused && from_fds->Ok_0.common.paused
        },
        state is None ==> {
            let sizes = new->Ok_0.common.queue_sizes@;
            let fds_sizes = from_fds->Ok_0.common.queue_sizes@;
            &&& sizes.len() == num_queues + 1
            &&& forall|i: int| 0 <= i < sizes.len() ==> sizes[i] == queue_size
            &&& fds_sizes.len() == 2 * taps.taps@.len() + 1
            &&& forall|i: int| 0 <= i < fds_sizes.len() ==> fds_sizes[i] == queue_size
            &&& new->Ok_0.common.acked_features == 0 && from_fds->Ok_0.common.acked_features == 0
            &&& !new->Ok_0.common.paused && !from_fds->Ok_0.common.paused
        },
        new->Ok_0.common.paused_sync matches Some(n) && n == 1 + num_queues as int / 2,
        from_fds->Ok_0.common.paused_sync matches Some(n) && n == 1 + taps.taps@.len(),
{
}

/// The default configuration and common state hold nothing, and two queues make a pair.
pub proof fn law_device_defaults(
    config: VirtioNetConfig,
    common: VirtioCommon,
    num_queues: usize,
    pairs: usize,
)
    requires
        call_ensures(<VirtioNetConfig as Default>::default, (), config),
        call_ensures(<VirtioCommon as Default>::default, (), common),
        call_ensures(crate::net::queue_pairs, (num_queues,), pairs),
    ensures
        forall|i: int| 0 <= i < 6 ==> config.mac@[i] == 0,
        config.status == 0 && config.max_virtqueue_pairs == 0 && config.mtu == 0,
        config.speed == 0 && config.duplex == 0,
        common.device_type == 0 && common.avail_features == 0 && common.acked_features == 0,
        common.queue_sizes@.len() == 0 && common.paused_sync is None && common.min_queues == 0,
        !common.paused && !common.interrupt_cb,
        2 * pairs <= num_queues < 2 * pairs + 2,
{
}

} // verus!
