//! What a virtio-net device shows of itself, and how its state is saved and restored.

use vstd::prelude::*;

use crate::config::{
    VirtioNetConfig, CONFIG_LEN, VIRTIO_NET_S_ANNOUNCE, VIRTIO_NET_S_LINK_UP,
};
use crate::error::{PausableError, RestoreError, SnapshotError};
use crate::features::VIRTIO_NET_F_STATUS;
use crate::net::{Net, NetState};
use crate::snapshot::Snapshot;

verus! {

/// The status that the guest sees: nothing unless the guest knows the status field, else
/// that the link is up, and the request to announce itself while that is pending.
pub open spec fn shown_status(status_acked: bool, announce_pending: bool) -> u16 {
    if !status_acked {
        0
    } else if announce_pending {
        VIRTIO_NET_S_LINK_UP | VIRTIO_NET_S_ANNOUNCE
    } else {
        VIRTIO_NET_S_LINK_UP
    }
}

impl Net {
    /// Whether `state` is the state of the device.
    pub open spec fn saved_as(self, state: NetState) -> bool {
        &&& state.avail_features == self.common.avail_features
        &&& state.acked_features == self.common.acked_features
        &&& state.config == self.config
        &&& state.announce_pending == self.announce_pending
        &&& state.queue_size@ == self.common.queue_sizes@
    }

    /// The configuration that the guest sees.
    pub open spec fn shown_config(self) -> VirtioNetConfig {
        VirtioNetConfig {
            status: shown_status(self.common.acked(VIRTIO_NET_F_STATUS), self.announce_pending),
            ..self.config
        }
    }

    /// The state of the device.
    pub fn state(&self) -> (r: NetState)
        ensures
            self.saved_as(r),
    {
        let queue_size: Vec<u16> = self.common.queue_sizes.clone();
        assert(queue_size@ =~= self.common.queue_sizes@);
        NetState {
            avail_features: self.common.avail_features,
            acked_features: self.common.acked_features,
            config: self.config,
            announce_pending: self.announce_pending,
            queue_size,
        }
    }

    /// The configuration that the guest sees. Its status is computed from the current state
    /// of the device; what the configuration held there does not show.
    pub fn config_with_status(&self) -> (r: VirtioNetConfig)
        ensures
            r == self.shown_config(),
    {
        let mut config: VirtioNetConfig = self.config;
        config.status = 0;
        if self.common.feature_acked(VIRTIO_NET_F_STATUS) {
            config.status = VIRTIO_NET_S_LINK_UP;
            if self.announce_pending {
                config.status = config.status | VIRTIO_NET_S_ANNOUNCE;
            }
        }
        config
    }

    /// Reads the configuration that the guest sees from `offset` on into `data`. A read that
    /// reaches beyond the configuration leaves `data` as it is.
    pub fn read_config(&self, offset: u64, data: &mut [u8])
        ensures
            final(data)@ == (if offset + old(data)@.len() <= CONFIG_LEN {
                self.shown_config().bytes().subrange(
                    offset as int,
                    offset + old(data)@.len(),
                )
            } else {
                old(data)@
            }),
    {
        let bytes: Vec<u8> = self.config_with_status().as_slice();
        if offset > CONFIG_LEN as u64 || data.len() > CONFIG_LEN - offset as usize {
            return ;
        }
        let start: usize = offset as usize;
        let ghost wanted = self.shown_config().bytes().subrange(
            offset as int,
            offset + old(data)@.len(),
        );
        let mut i: usize = 0;
        while i < data.len()
            invariant
                i <= data@.len(),
                data@.len() == old(data)@.len(),
                start == offset,
                bytes@ == self.shown_config().bytes(),
                bytes@.len() == CONFIG_LEN,
                offset + old(data)@.len() <= CONFIG_LEN,
                wanted == bytes@.subrange(offset as int, offset + old(data)@.len()),
                data@.take(i as int) == wanted.take(i as int),
            decreases data@.len() - i,
        {
            data[i] = bytes[start + i];
            assert(data@.take(i + 1) =~= wanted.take(i + 1));
            i += 1;
        }
        assert(data@.take(i as int) =~= data@ && wanted.take(i as int) =~= wanted);
    }

    /// Forgets a pending announcement, as part of the reset of the device.
    pub fn reset(&mut self)
        ensures
            *final(self) == (Net { announce_pending: false, ..*old(self) }),
    {
        self.announce_pending = false;
    }

    /// What the device has transferred, by name.
    pub fn counters(&self) -> (r: Vec<(&'static str, u64)>)
        ensures
            r@.len() == 4,
            r@[0].0@ == "rx_bytes"@ && r@[0].1 == self.counters.rx_bytes,
            r@[1].0@ == "rx_frames"@ && r@[1].1 == self.counters.rx_frames,
            r@[2].0@ == "tx_bytes"@ && r@[2].1 == self.counters.tx_bytes,
            r@[3].0@ == "tx_frames"@ && r@[3].1 == self.counters.tx_frames,
    {
        let mut r: Vec<(&'static str, u64)> = Vec::new();
        r.push(("rx_bytes", self.counters.rx_bytes));
        r.push(("rx_frames", self.counters.rx_frames));
        r.push(("tx_bytes", self.counters.tx_bytes));
        r.push(("tx_frames", self.counters.tx_frames));
        r
    }

    /// The type of the device.
    pub fn device_type(&self) -> (r: u32)
        ensures
            r == self.common.device_type,
    {
        self.common.device_type
    }

    /// The size of each queue.
    pub fn queue_max_sizes(&self) -> (r: &[u16])
        ensures
            r@ == self.common.queue_sizes@,
    {
        self.common.queue_sizes.as_slice()
    }

    /// The features that the device offers.
    pub fn features(&self) -> (r: u64)
        ensures
            r == self.common.avail_features,
    {
        self.common.avail_features
    }

    /// The identifier of the device.
    pub fn id(&self) -> (r: String)
        ensures
            r@ == self.id@,
    {
        self.id.clone()
    }

    /// Ends the resumption of the device, once what it has in common with other devices was
    /// resumed or has failed to be: whether to wake the thread of the control queue, which
    /// there is if `ctrl_thread` says so.
    pub fn resume(&self, common: Result<(), PausableError>, ctrl_thread: bool) -> (r: Result<
        bool,
        PausableError,
    >)
        ensures
            r == match common {
                Ok(_) => Ok::<bool, PausableError>(ctrl_thread),
                Err(e) => Err(e),
            },
    {
        match common {
            Ok(_) => Ok(ctrl_thread),
            Err(e) => Err(e),
        }
    }

    /// A snapshot of the device: its state, serialized by `serialize`.
    pub fn snapshot<F: FnOnce(&NetState) -> Result<String, serde_json::Error>>(
        &self,
        serialize: F,
    ) -> (r: Result<Snapshot, SnapshotError>)
        requires
            forall|state: NetState|
                self.saved_as(state) ==> #[trigger] call_requires(serialize, (&state,)),
        ensures
            exists|state: NetState| #[trigger]
                self.saved_as(state) && match r {
                    Ok(snapshot) => {
                        &&& snapshot.snapshots@ == Map::<Seq<char>, Snapshot>::empty()
                        &&& snapshot.snapshot_data matches Some(data)
                            && crate::snapshot::serialized_to(serialize, &state, data@)
                    },
                    Err(error) => error matches SnapshotError::Serialize(e) && call_ensures(
                        serialize,
                        (&state,),
                        Err::<String, serde_json::Error>(e),
                    ),
                },
    {
        let state: NetState = self.state();
        Snapshot::new_from_state(&state, serialize)
    }
}

/// A device that continues from the state of another one has its features, its configuration,
/// its pending announcement and its queues, and the same state; the guest sees the same
/// configuration. It is paused.
pub proof fn law_restored_device_continues(
    net: Net,
    state: NetState,
    id: Seq<char>,
    taps: Seq<i32>,
    num_queues: usize,
    restored: Net,
)
    requires
        net.saved_as(state),
        crate::net::started_with(restored, id, taps, num_queues, crate::net::restored(state)),
    ensures
        restored.saved_as(state),
        restored.common.avail_features == net.common.avail_features,
        restored.common.acked_features == net.common.acked_features,
        restored.common.queue_sizes@ == net.common.queue_sizes@,
        restored.config == net.config,
        restored.announce_pending == net.announce_pending,
        restored.shown_config() == net.shown_config(),
        restored.common.paused,
{
}

/// Whether `a` and `b` are the same state of a device.
pub open spec fn same_state(a: NetState, b: NetState) -> bool {
    &&& a.avail_features == b.avail_features
    &&& a.acked_features == b.acked_features
    &&& a.config == b.config
    &&& a.announce_pending == b.announce_pending
    &&& a.queue_size@ == b.queue_size@
}

/// Whether what `parse` makes of a text that `serialize` made of a state is the same state.
pub open spec fn parsing_undoes_serializing<
    'a,
    S: FnOnce(&NetState) -> Result<String, serde_json::Error>,
    F: FnOnce(&'a str) -> Result<NetState, serde_json::Error>,
>(serialize: S, parse: F) -> bool {
    forall|state: NetState, made: String, s: &'a str, parsed: Result<NetState, serde_json::Error>|
        #![trigger call_ensures(serialize, (&state,), Ok::<String, serde_json::Error>(made)), call_ensures(parse, (s,), parsed)]
        call_ensures(serialize, (&state,), Ok::<String, serde_json::Error>(made)) && s@ == made@
            && call_ensures(parse, (s,), parsed) ==> (parsed matches Ok(back) && same_state(
            back,
            state,
        ))
}

/// A device's snapshot restores the device: where parsing undoes serializing, `text`, the data
/// of a snapshot of `net`, restores to a state of `net`, and a device that continues from it
/// has that state, shows the guest the same configuration and is paused.
pub proof fn law_snapshot_restores_device<
    'a,
    S: FnOnce(&NetState) -> Result<String, serde_json::Error>,
    F: FnOnce(&'a str) -> Result<NetState, serde_json::Error>,
>(
    net: Net,
    serialize: S,
    text: Seq<char>,
    parse: F,
    r: Result<NetState, RestoreError>,
    id: Seq<char>,
    taps: Seq<i32>,
    num_queues: usize,
    restored: Net,
)
    requires
        parsing_undoes_serializing(serialize, parse),
        exists|state: NetState| #[trigger]
            net.saved_as(state) && crate::snapshot::serialized_to(serialize, &state, text),
        crate::snapshot::restored_from(parse, text, r),
        r matches Ok(state) ==> crate::net::started_with(
            restored,
            id,
            taps,
            num_queues,
            crate::net::restored(state),
        ),
    ensures
        r matches Ok(state) && net.saved_as(state) && restored.saved_as(state),
        restored.common.avail_features == net.common.avail_features,
        restored.common.acked_features == net.common.acked_features,
        restored.common.queue_sizes@ == net.common.queue_sizes@,
        restored.config == net.config,
        restored.announce_pending == net.announce_pending,
        restored.shown_config() == net.shown_config(),
        restored.common.paused,
{
    let saved = choose|state: NetState| #[trigger]
        net.saved_as(state) && crate::snapshot::serialized_to(serialize, &state, text);
    let made = choose|s: String|
        s@ == text && #[trigger] call_ensures(
            serialize,
            (&saved,),
            Ok::<String, serde_json::Error>(s),
        );
    law_restored_device_continues(net, r->Ok_0, id, taps, num_queues, restored);
}

/// The guest sees the request to announce itself exactly while it is pending and the guest
/// knows the status field, and the link up whenever it knows the field.
pub proof fn law_status_bits(net: Net)
    ensures
        net.shown_config().status & VIRTIO_NET_S_ANNOUNCE != 0 <==> net.common.acked(
            VIRTIO_NET_F_STATUS,
        ) && net.announce_pending,
        net.shown_config().status & VIRTIO_NET_S_LINK_UP != 0 <==> net.common.acked(
            VIRTIO_NET_F_STATUS,
        ),
{
    assert((1u16 | 2u16) & 2u16 != 0 && (1u16 | 2u16) & 1u16 != 0 && 1u16 & 2u16 == 0 && 1u16 & 1u16
        != 0 && 0u16 & 1u16 == 0 && 0u16 & 2u16 == 0) by (bit_vector);
}

/// The state of a device holds the device's own features, configuration, announcement and queue
/// sizes, unchanged.
pub proof fn law_state_is_the_devices(net: Net, state: NetState)
    requires
        net.saved_as(state),
    ensures
        state.avail_features == net.common.avail_features,
        state.acked_features == net.common.acked_features,
        state.config == net.config,
        state.announce_pending == net.announce_pending,
        state.queue_size@ == net.common.queue_sizes@,
{
}

/// The guest sees the device's configuration but for the status, which is computed: nothing
/// where the guest does not know the field, else that the link is up, and the request to
/// announce itself while one is pending. What the configuration holds as status, and
/// everything else of the device, does not matter to it.
pub proof fn law_shown_config(net: Net)
    ensures
        net.shown_config().mac == net.config.mac,
        net.shown_config().max_virtqueue_pairs == net.config.max_virtqueue_pairs,
        net.shown_config().mtu == net.config.mtu,
        net.shown_config().speed == net.config.speed,
        net.shown_config().duplex == net.config.duplex,
        net.shown_config().status == if net.common.acked_features & (1u64 << VIRTIO_NET_F_STATUS)
            == 0 {
            0
        } else if net.announce_pending {
            3
        } else {
            1int
        },
{
    assert(1u16 | 2u16 == 3u16) by (bit_vector);
}

} // verus!
