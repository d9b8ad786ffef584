//! Events of the device's epoll loops and the failures of its outside operations.

use vstd::prelude::*;

verus! {

/// The last event number that the epoll helper keeps for itself.
pub const EPOLL_HELPER_EVENT_LAST: u16 = 15;

/// Event available on the control queue.
pub const CTRL_QUEUE_EVENT: u16 = EPOLL_HELPER_EVENT_LAST + 1;

/// The guest has made a buffer available to receive a frame into.
pub const RX_QUEUE_EVENT: u16 = EPOLL_HELPER_EVENT_LAST + 1;

/// The transmit queue has a frame that is ready to send from the guest.
pub const TX_QUEUE_EVENT: u16 = EPOLL_HELPER_EVENT_LAST + 2;

/// A frame is available for reading from the tap device to receive in the guest.
pub const RX_TAP_EVENT: u16 = EPOLL_HELPER_EVENT_LAST + 3;

/// The tap can be written to. Used after the tap refused a frame, to retry.
pub const TX_TAP_EVENT: u16 = EPOLL_HELPER_EVENT_LAST + 4;

/// New 'wake up' event from the receive rate limiter.
pub const RX_RATE_LIMITER_EVENT: u16 = EPOLL_HELPER_EVENT_LAST + 5;

/// New 'wake up' event from the transmit rate limiter.
pub const TX_RATE_LIMITER_EVENT: u16 = EPOLL_HELPER_EVENT_LAST + 6;

/// A file descriptor to watch for input and the event to report for it.
#[derive(Clone, Copy, Debug, PartialEq, Eq, Structural)]
pub struct Listener {
    pub fd: i32,
    pub event: u16,
}

/// Failures of the device's outside operations. `E` is what such an operation reports.
#[derive(Debug)]
pub enum DeviceError<E> {
    /// A listener could not be registered.
    IoError(E),
    /// A queue could not be processed.
    NetQueuePair(E),
    /// The guest could not be told that a queue was used.
    FailedSignalingUsedQueue(E),
}

/// The event number that an epoll event carries: the low 16 bits of its data.
pub open spec fn event_number(data: u64) -> int {
    data as int % 0x1_0000
}

/// The event number in the data of an epoll event.
pub fn event_type(data: u64) -> (r: u16)
    ensures
        r == event_number(data),
{
    assert(data as u16 == data % 0x1_0000) by (bit_vector);
    #[verifier::truncate]
    (data as u16)
}

/// The number of an event does not depend on what else its data holds: every number is the one
/// that data carries in its low half-word.
pub proof fn law_event_number_is_carried(number: u16, rest: int, data: u64)
    requires
        data == 0x1_0000 * rest + number,
    ensures
        event_number(data) == number,
{
}

} // verus!
