//! Announcing a device on the network after a migration.

use vstd::prelude::*;

use crate::config::VIRTIO_NET_S_ANNOUNCE;
use crate::features::{VIRTIO_NET_F_GUEST_ANNOUNCE, VIRTIO_NET_F_STATUS};
use crate::net::Net;

verus! {

/// The minimum length of an Ethernet frame, without the frame check sequence, which the
/// hardware adds.
pub const ETH_FRAME_LEN: usize = 60;

/// A reverse ARP request that announces the address `mac`. It asks for nothing: its sender
/// and its target are the announced address, and it goes to everyone.
pub open spec fn rarp_frame(mac: Seq<u8>) -> Seq<u8> {
    // Ethernet header: broadcast, from this device, reverse ARP.
    seq![0xff, 0xff, 0xff, 0xff, 0xff, 0xffu8] + mac + seq![0x80, 0x35u8]
    // Ethernet and IPv4 addresses of 6 and 4 bytes, reverse request.
     + seq![0x00, 0x01, 0x08, 0x00, 6, 4, 0x00, 0x03u8]
    // The device as sender and as target, without protocol addresses.
     + mac + seq![0, 0, 0, 0u8] + mac + seq![0, 0, 0, 0u8]
    // Padding up to the minimum length.
     + Seq::new(18, |i: int| 0u8)
}

/// What to do to announce a device.
#[derive(Debug)]
pub struct Announcement {
    /// The frame to write, after an empty virtio-net header.
    pub packet: Vec<u8>,
    /// The taps to write it to.
    pub taps: Vec<i32>,
    /// Whether to tell the guest that the configuration has changed.
    pub trigger_config: bool,
}

/// An operation of an announcement.
#[derive(Clone, Copy, Debug, PartialEq, Eq, Structural)]
pub enum AnnounceStep {
    /// Write the announcement's packet to the tap.
    WritePacket(i32),
    /// Tell the guest that the configuration has changed.
    TriggerConfig,
}

/// The operations that announce a device, in their order: the packet is written once to each
/// tap, and only then is the guest told, if it is asked to announce itself.
pub open spec fn announce_steps(taps: Seq<i32>, asks_guest: bool) -> Seq<AnnounceStep> {
    Seq::new(taps.len(), |i: int| AnnounceStep::WritePacket(taps[i])) + if asks_guest {
        seq![AnnounceStep::TriggerConfig]
    } else {
        Seq::empty()
    }
}

/// The operation in place `i` of `steps`, if there are so many.
pub open spec fn step_at(steps: Seq<AnnounceStep>, i: int) -> Option<AnnounceStep> {
    if 0 <= i < steps.len() {
        Some(steps[i])
    } else {
        None
    }
}

impl Announcement {
    /// The operations of the announcement, in their order.
    pub open spec fn steps(self) -> Seq<AnnounceStep> {
        announce_steps(self.taps@, self.trigger_config)
    }

    /// The operation in place `i`, if there are so many.
    pub fn operation(&self, i: usize) -> (r: Option<AnnounceStep>)
        ensures
            r == step_at(self.steps(), i as int),
    {
        if i < self.taps.len() {
            Some(AnnounceStep::WritePacket(self.taps[i]))
        } else if i == self.taps.len() && self.trigger_config {
            Some(AnnounceStep::TriggerConfig)
        } else {
            None
        }
    }

    /// The operation that follows the one in place `i`, whatever the outcome of that one was: a
    /// failure is ignored.
    pub fn resume<E>(&self, i: usize, _outcome: Result<(), E>) -> (r: Option<AnnounceStep>)
        ensures
            r == step_at(self.steps(), i + 1),
    {
        if i < self.taps.len() {
            self.operation(i + 1)
        } else {
            None
        }
    }
}

/// Announces a device on the network. It holds what it needs of the device, so that it can
/// announce again while the device is in use.
#[derive(Debug)]
pub struct VirtioNetPostMigrationAnnouncer {
    pub id: String,
    /// Whether the guest can announce itself on request.
    pub guest_announce_negotiated: bool,
    /// Whether there is an interrupt to tell the guest with.
    pub interrupt_cb: bool,
    /// The frame that announces the device.
    pub rarp_announce: [u8; 60],
    pub taps: Vec<i32>,
}

impl Net {
    /// The reverse ARP frame that announces the device's address.
    pub fn build_rarp_announce(&self) -> (r: [u8; 60])
        ensures
            r@ == rarp_frame(self.config.mac@),
    {
        let mac: [u8; 6] = self.config.mac;
        let r: [u8; 60] = [
            0xff, 0xff, 0xff, 0xff, 0xff, 0xff,
            mac[0], mac[1], mac[2], mac[3], mac[4], mac[5],
            0x80, 0x35,
            0x00, 0x01, 0x08, 0x00, 6, 4, 0x00, 0x03,
            mac[0], mac[1], mac[2], mac[3], mac[4], mac[5],
            0, 0, 0, 0,
            mac[0], mac[1], mac[2], mac[3], mac[4], mac[5],
            0, 0, 0, 0,
            0, 0, 0, 0, 0, 0, 0, 0, 0, 0, 0, 0, 0, 0, 0, 0, 0, 0,
        ];
        assert(r@ =~= rarp_frame(mac@));
        r
    }

    /// What announces this device after a migration.
    pub fn post_migration_announcer(&self) -> (r: Option<VirtioNetPostMigrationAnnouncer>)
        ensures
            r matches Some(announcer) && announcer.announces(*self),
    {
        Some(VirtioNetPostMigrationAnnouncer::new(self))
    }
}

impl VirtioNetPostMigrationAnnouncer {
    /// Whether this announces the device `dev` as it is.
    pub open spec fn announces(self, dev: Net) -> bool {
        &&& self.id@ == dev.id@
        &&& self.guest_announce_negotiated == dev.common.acked(VIRTIO_NET_F_GUEST_ANNOUNCE)
        &&& self.interrupt_cb == dev.common.interrupt_cb
        &&& self.rarp_announce@ == rarp_frame(dev.config.mac@)
        &&& self.taps@ == dev.taps@
    }

    /// Whether the guest is asked to announce itself: it can, and there is a way to tell it.
    pub open spec fn asks_guest(self) -> bool {
        self.guest_announce_negotiated && self.interrupt_cb
    }

    /// What announces the device `dev`.
    pub fn new(dev: &Net) -> (r: Self)
        ensures
            r.announces(*dev),
    {
        let taps: Vec<i32> = dev.taps.clone();
        assert(taps@ =~= dev.taps@);
        VirtioNetPostMigrationAnnouncer {
            id: dev.id.clone(),
            guest_announce_negotiated: dev.common.feature_acked(VIRTIO_NET_F_GUEST_ANNOUNCE),
            interrupt_cb: dev.common.interrupt_cb,
            rarp_announce: dev.build_rarp_announce(),
            taps,
        }
    }

    /// Announces the device: its frame goes to every tap at once, so that the network can
    /// converge before the guest runs again. A guest that can announce itself is also asked
    /// to, by the pending announcement and, after the frame was written, by the change of the
    /// configuration.
    pub fn announce(&self, vnet_hdr_len: usize, announce_pending: &mut bool) -> (r: Announcement)
        requires
            vnet_hdr_len + ETH_FRAME_LEN <= usize::MAX,
        ensures
            r.packet@ == Seq::new(vnet_hdr_len as nat, |i: int| 0u8) + self.rarp_announce@,
            r.taps@ == self.taps@,
            r.trigger_config == self.asks_guest(),
            r.steps() == announce_steps(self.taps@, self.asks_guest()),
            *final(announce_pending) == (*old(announce_pending) || self.asks_guest()),
    {
        let mut packet: Vec<u8> = vec![0u8; vnet_hdr_len];
        let ghost header = packet@;
        assert(header =~= Seq::new(vnet_hdr_len as nat, |i: int| 0u8));
        for i in 0..ETH_FRAME_LEN
            invariant
                packet@ == header + self.rarp_announce@.take(i as int),
        {
            packet.push(self.rarp_announce[i]);
            assert(packet@ =~= header + self.rarp_announce@.take(i + 1));
        }
        assert(self.rarp_announce@.take(ETH_FRAME_LEN as int) =~= self.rarp_announce@);
        let taps: Vec<i32> = self.taps.clone();
        assert(taps@ =~= self.taps@);
        let trigger_config: bool = self.guest_announce_negotiated && self.interrupt_cb;
        if trigger_config {
            *announce_pending = true;
        }
        Announcement { packet, taps, trigger_config }
    }
}

/// The frame has the minimum length of an Ethernet frame and goes to the broadcast address. It
/// carries the announced address as its source, as the sender and as the target of a reverse
/// ARP request, and zeros elsewhere.
pub proof fn law_frame_announces_address(mac: Seq<u8>)
    requires
        mac.len() == 6,
    ensures
        rarp_frame(mac).len() == ETH_FRAME_LEN,
        rarp_frame(mac).subrange(6, 12) == mac,
        rarp_frame(mac).subrange(22, 28) == mac,
        rarp_frame(mac).subrange(32, 38) == mac,
        // It goes to everyone, whatever the address is.
        forall|i: int| 0 <= i < 6 ==> rarp_frame(mac)[i] == 0xff,
        // It is a reverse ARP frame.
        rarp_frame(mac)[12] == 0x80 && rarp_frame(mac)[13] == 0x35,
        // A reverse request for Ethernet addresses of 6 and IPv4 addresses of 4 bytes.
        rarp_frame(mac)[14] == 0x00 && rarp_frame(mac)[15] == 0x01,
        rarp_frame(mac)[16] == 0x08 && rarp_frame(mac)[17] == 0x00,
        rarp_frame(mac)[18] == 6 && rarp_frame(mac)[19] == 4,
        rarp_frame(mac)[20] == 0x00 && rarp_frame(mac)[21] == 0x03,
        // No protocol addresses, and nothing behind.
        forall|i: int| 28 <= i < 32 || 38 <= i < 60 ==> rarp_frame(mac)[i] == 0,
{
    assert(rarp_frame(mac).subrange(6, 12) =~= mac);
    assert(rarp_frame(mac).subrange(22, 28) =~= mac);
    assert(rarp_frame(mac).subrange(32, 38) =~= mac);
}

/// An announcement writes its packet once to each tap, in their order and whether or not the
/// guest is asked to announce itself. The guest is told at most once, exactly if it is asked,
/// and after every tap was written to.
pub proof fn law_frames_go_out_first(taps: Seq<i32>, asks_guest: bool, i: int)
    ensures
        0 <= i < taps.len() ==> step_at(announce_steps(taps, asks_guest), i) == Some(
            AnnounceStep::WritePacket(taps[i]),
        ),
        step_at(announce_steps(taps, asks_guest), i) == Some(AnnounceStep::TriggerConfig) <==> i
            == taps.len() && asks_guest,
        !(0 <= i < taps.len()) ==> !(step_at(announce_steps(taps, asks_guest), i) matches Some(
            AnnounceStep::WritePacket(_),
        )),
{
}

/// After an announcement, a guest that was asked to announce itself and knows the status field
/// sees the request, until the device is reset. A device whose guest is not asked stays as
/// it was.
pub proof fn law_announcement_shown(net: Net, announcer: VirtioNetPostMigrationAnnouncer)
    requires
        announcer.announces(net),
    ensures
        ({
            let after = Net {
                announce_pending: net.announce_pending || announcer.asks_guest(),
                ..net
            };
            let reset = Net { announce_pending: false, ..after };
            &&& announcer.asks_guest() && net.common.acked(VIRTIO_NET_F_STATUS)
                ==> after.shown_config().status & VIRTIO_NET_S_ANNOUNCE != 0
            &&& !announcer.asks_guest() ==> after == net
            &&& !net.common.acked(VIRTIO_NET_F_GUEST_ANNOUNCE) ==> after == net
            &&& reset.shown_config().status & VIRTIO_NET_S_ANNOUNCE == 0
        }),
{
    let after = Net { announce_pending: net.announce_pending || announcer.asks_guest(), ..net };
    let reset = Net { announce_pending: false, ..after };
    crate::device::law_status_bits(after);
    crate::device::law_status_bits(reset);
}

/// What announces a device knows it: it asks the guest to announce itself exactly if the guest
/// has acknowledged that it can and the device has an interrupt, its frame carries the
/// device's address, and it writes to the device's taps.
pub proof fn law_announcer_knows_device(net: Net, announcer: VirtioNetPostMigrationAnnouncer)
    requires
        announcer.announces(net),
    ensures
        announcer.asks_guest() <==> net.common.acked_features & (1u64
            << VIRTIO_NET_F_GUEST_ANNOUNCE) != 0 && net.common.interrupt_cb,
        forall|i: int| 0 <= i < 6 ==> announcer.rarp_announce@[i] == 0xff,
        announcer.rarp_announce@.subrange(6, 12) == net.config.mac@,
        announcer.rarp_announce@.subrange(22, 28) == net.config.mac@,
        announcer.rarp_announce@.subrange(32, 38) == net.config.mac@,
        announcer.taps@ == net.taps@,
        announcer.id@ == net.id@,
{
    law_frame_announces_address(net.config.mac@);
}

} // verus!
