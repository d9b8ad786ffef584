//! The configuration space of a virtio-net device.

use vstd::prelude::*;

verus! {

/// The length of a MAC address.
pub const MAC_ADDR_LEN: usize = 6;

/// Status bit: the link is up.
pub const VIRTIO_NET_S_LINK_UP: u16 = 1;

/// Status bit: the guest is asked to announce itself.
pub const VIRTIO_NET_S_ANNOUNCE: u16 = 2;

/// The length of the configuration space.
pub const CONFIG_LEN: usize = 17;

/// The place of the status field in the configuration space.
pub const STATUS_OFFSET: usize = 6;

/// The configuration of a virtio-net device.
#[derive(Clone, Copy, Debug)]
pub struct VirtioNetConfig {
    /// The MAC address.
    pub mac: [u8; 6],
    /// The status bits.
    pub status: u16,
    /// The number of queue pairs, where there may be several.
    pub max_virtqueue_pairs: u16,
    /// The maximum transmission unit.
    pub mtu: u16,
    /// The speed of the link in units of 1 Mb/s.
    pub speed: u32,
    /// The duplex mode of the link.
    pub duplex: u8,
}

/// The bytes of `x`, least significant first.
pub open spec fn le16(x: u16) -> Seq<u8> {
    seq![(x % 0x100) as u8, (x / 0x100) as u8]
}

/// The bytes of `x`, least significant first.
pub open spec fn le32(x: u32) -> Seq<u8> {
    seq![
        (x % 0x100) as u8,
        (x / 0x100 % 0x100) as u8,
        (x / 0x1_0000 % 0x100) as u8,
        (x / 0x100_0000) as u8,
    ]
}

fn push_le16(bytes: &mut Vec<u8>, x: u16)
    ensures
        final(bytes)@ == old(bytes)@ + le16(x),
{
    bytes.push((x % 0x100) as u8);
    bytes.push((x / 0x100) as u8);
    assert(bytes@ =~= old(bytes)@ + le16(x));
}

impl VirtioNetConfig {
    /// The configuration as the guest reads it: the fields in their order without padding,
    /// numbers with the least significant byte first.
    pub open spec fn bytes(self) -> Seq<u8> {
        self.mac@ + le16(self.status) + le16(self.max_virtqueue_pairs) + le16(self.mtu) + le32(
            self.speed,
        ) + seq![self.duplex]
    }

    /// The configuration as the guest reads it.
    pub fn as_slice(&self) -> (r: Vec<u8>)
        ensures
            r@ == self.bytes(),
            r@.len() == CONFIG_LEN,
    {
        let mut bytes: Vec<u8> = Vec::new();
        for i in 0..MAC_ADDR_LEN
            invariant
                bytes@ == self.mac@.take(i as int),
        {
            bytes.push(self.mac[i]);
            assert(bytes@ =~= self.mac@.take(i + 1));
        }
        assert(bytes@ =~= self.mac@);
        push_le16(&mut bytes, self.status);
        push_le16(&mut bytes, self.max_virtqueue_pairs);
        push_le16(&mut bytes, self.mtu);
        bytes.push((self.speed % 0x100) as u8);
        bytes.push((self.speed / 0x100 % 0x100) as u8);
        bytes.push((self.speed / 0x1_0000 % 0x100) as u8);
        bytes.push((self.speed / 0x100_0000) as u8);
        bytes.push(self.duplex);
        assert(bytes@ =~= self.bytes());
        bytes
    }
}

impl Default for VirtioNetConfig {
    /// A configuration with every field zero.
    fn default() -> (r: Self)
        ensures
            r.mac@ == seq![0u8, 0, 0, 0, 0, 0],
            r == (VirtioNetConfig {
                mac: r.mac,
                status: 0,
                max_virtqueue_pairs: 0,
                mtu: 0,
                speed: 0,
                duplex: 0,
            }),
    {
        let mac: [u8; 6] = [0, 0, 0, 0, 0, 0];
        assert(mac@ =~= seq![0u8, 0, 0, 0, 0, 0]);
        VirtioNetConfig { mac, status: 0, max_virtqueue_pairs: 0, mtu: 0, speed: 0, duplex: 0 }
    }
}

/// The guest finds the status at its place, with the least significant byte first.
pub proof fn law_status_in_bytes(config: VirtioNetConfig)
    ensures
        config.bytes().len() == CONFIG_LEN,
        config.bytes()[STATUS_OFFSET as int] + 0x100 * config.bytes()[STATUS_OFFSET + 1]
            == config.status,
{
}

/// The guest finds each field at its place: the address first, then numbers with the least
/// significant byte first, and the duplex mode last.
pub proof fn law_fields_in_bytes(config: VirtioNetConfig)
    ensures
        config.bytes().len() == 17,
        forall|i: int| 0 <= i < 6 ==> config.bytes()[i] == config.mac@[i],
        config.bytes()[6] + 0x100 * config.bytes()[7] == config.status,
        config.bytes()[8] + 0x100 * config.bytes()[9] == config.max_virtqueue_pairs,
        config.bytes()[10] + 0x100 * config.bytes()[11] == config.mtu,
        config.bytes()[12] + 0x100 * config.bytes()[13] + 0x1_0000 * config.bytes()[14]
            + 0x100_0000 * config.bytes()[15] == config.speed,
        config.bytes()[16] == config.duplex,
{
}

} // verus!
