//! The event loop of a queue pair, as decisions.
//!
//! [`NetEpollHandler`] holds what the loop knows of the queue pair. An epoll event enters
//! through [`NetEpollHandler::handle_event`], which names the first operation to perform.
//! Each operation's outcome goes to [`NetEpollHandler::resume`], which names the next one,
//! until the step is [`NetStep::Done`].

use vstd::prelude::*;

use crate::events::{
    event_type, DeviceError, RX_QUEUE_EVENT, RX_RATE_LIMITER_EVENT, RX_TAP_EVENT, TX_QUEUE_EVENT,
    TX_RATE_LIMITER_EVENT, TX_TAP_EVENT,
};

verus! {

/// Why the transmit queue is being processed.
#[derive(Clone, Copy, Debug, PartialEq, Eq, Structural)]
pub enum TxCause {
    /// The guest made frames available.
    Queue,
    /// The tap became writable.
    Tap,
    /// The rate limiter has budget again.
    RateLimiter,
}

/// The outside operation whose outcome the handler waits for.
#[derive(Clone, Copy, Debug, PartialEq, Eq, Structural)]
pub enum Phase {
    /// None: the next epoll event may be handled.
    Idle,
    /// Reading the receive queue's event.
    ReadRxEvent,
    /// Asking whether the receive rate limiter blocks.
    QueryRxLimiter,
    /// Registering the tap after a receive queue event.
    RegisterTap,
    /// Reading the transmit queue's event.
    ReadTxEvent,
    /// Asking whether the transmit rate limiter blocks.
    QueryTxLimiter(TxCause),
    /// Processing the transmit queue.
    ProcessTx(TxCause),
    /// Signalling the transmit queue.
    SignalTx(TxCause),
    /// Processing the receive queue.
    ProcessRx,
    /// Signalling the receive queue.
    SignalRx,
    /// Running the receive rate limiter's own handler.
    RunRxLimiter,
    /// Registering the tap after a receive rate limiter event.
    RegisterTapAfterLimiter,
    /// Running the transmit rate limiter's own handler.
    RunTxLimiter,
}

/// An outside operation to perform, or the end of an event's handling.
#[derive(Debug)]
pub enum NetStep<E> {
    /// Read the receive queue's event.
    ReadRxQueueEvent,
    /// Read the transmit queue's event.
    ReadTxQueueEvent,
    /// Ask the receive rate limiter whether it blocks.
    QueryRxRateLimiter,
    /// Ask the transmit rate limiter whether it blocks.
    QueryTxRateLimiter,
    /// Run the receive rate limiter's handler.
    RunRxRateLimiter,
    /// Run the transmit rate limiter's handler.
    RunTxRateLimiter,
    /// Watch `fd` for input in the epoll instance `epoll_fd`, with `data` as event data.
    RegisterListener { epoll_fd: i32, fd: i32, data: u64 },
    /// Process the transmit queue.
    ProcessTx,
    /// Process the receive queue.
    ProcessRx,
    /// Tell the guest that the queue with this index was used.
    SignalUsedQueue(u16),
    /// The event is handled, with this result.
    Done(Result<(), HandleEventError<E>>),
}

/// The outcome of an outside operation.
#[derive(Debug)]
pub enum NetAnswer<E> {
    /// A queue's event was read, or could not be.
    EventRead(Result<(), E>),
    /// Whether the rate limiter blocks.
    Blocked(bool),
    /// The rate limiter's handler ran.
    LimiterRun(Result<(), E>),
    /// The listener was registered.
    Registered(Result<(), E>),
    /// A queue was processed: whether the guest is to be told, and whether the tap is
    /// listened to and receive buffers are available now.
    Processed { signal: Result<bool, E>, rx_tap_listening: bool, rx_desc_avail: bool },
    /// The guest was told that a queue was used.
    Signalled(Result<(), E>),
}

/// Failures of handling an event.
#[derive(Debug)]
pub enum HandleEventError<E> {
    /// Processing the receive queue failed.
    RxQueue(DeviceError<E>),
    /// Processing the transmit queue failed.
    TxQueue(DeviceError<E>),
    /// Processing the transmit queue failed after the tap became writable.
    TxTap(DeviceError<E>),
    /// Processing the tap queue failed.
    TapQueue(DeviceError<E>),
    /// The rate limiter's handler failed.
    RateLimiter(E),
    /// The tap could not be registered after a rate limiter event.
    RegisterListener(E),
    /// A receive rate limiter event without a receive rate limiter.
    UnexpectedRxRateLimiterEvent,
    /// A transmit rate limiter event without a transmit rate limiter.
    UnexpectedTxRateLimiterEvent,
    /// An event with an unknown number.
    UnexpectedEvent(u16),
}

/// What the event loop of a queue pair knows of it.
#[derive(Clone, Copy, Debug)]
pub struct NetEpollHandler {
    /// The index of the receive queue; the transmit queue has the next one.
    pub queue_index_base: u16,
    /// The events of the receive and the transmit queue.
    pub queue_evt_pair: (i32, i32),
    /// The tap.
    pub tap: i32,
    /// The event of the receive rate limiter, where there is one.
    pub rx_rate_limiter: Option<i32>,
    /// The event of the transmit rate limiter, where there is one.
    pub tx_rate_limiter: Option<i32>,
    /// The event that the tap reports for input.
    pub tap_rx_event_id: u16,
    /// The epoll instance of the loop, once it runs.
    pub epoll_fd: Option<i32>,
    /// Whether the tap is listened to for input.
    pub rx_tap_listening: bool,
    /// Whether the guest has receive buffers available.
    pub rx_desc_avail: bool,
    /// What the handler waits for.
    pub phase: Phase,
}

/// The error of a failure while the transmit queue is processed for `cause`.
pub open spec fn tx_error<E>(cause: TxCause, e: DeviceError<E>) -> HandleEventError<E> {
    match cause {
        TxCause::Tap => HandleEventError::TxTap(e),
        _ => HandleEventError::TxQueue(e),
    }
}

impl NetEpollHandler {
    /// A queue pair starts at an even queue index.
    pub open spec fn wf(self) -> bool {
        self.queue_index_base % 2 == 0
    }

    /// The handler, waiting for what `phase` says.
    pub open spec fn at(self, phase: Phase) -> Self {
        NetEpollHandler { phase, ..self }
    }

    /// The handler and the step after `result` ended the handling of an event.
    pub open spec fn done<E>(self, result: Result<(), HandleEventError<E>>) -> (Self, NetStep<E>) {
        (self.at(Phase::Idle), NetStep::Done(result))
    }

    /// The handler and the step that starts listening to the tap.
    pub open spec fn register<E>(self, phase: Phase) -> (Self, NetStep<E>) {
        (
            self.at(phase),
            NetStep::RegisterListener {
                epoll_fd: self.epoll_fd->0,
                fd: self.tap,
                data: self.tap_rx_event_id as u64,
            },
        )
    }

    /// The handler and the step once it is known whether the receive rate limit is reached:
    /// the tap is listened to unless it is already, or the limit is reached.
    pub open spec fn rx_limit_known<E>(self, reached: bool) -> (Self, NetStep<E>) {
        if self.rx_tap_listening || reached {
            self.done(Ok(()))
        } else {
            self.register(Phase::RegisterTap)
        }
    }

    /// The handler and the step when the transmit queue is to be processed unless the rate
    /// limit is reached. A queue pair without a rate limiter has no limit.
    pub open spec fn tx_limit_unknown<E>(self, cause: TxCause) -> (Self, NetStep<E>) {
        if self.tx_rate_limiter is Some {
            (self.at(Phase::QueryTxLimiter(cause)), NetStep::QueryTxRateLimiter)
        } else {
            (self.at(Phase::ProcessTx(cause)), NetStep::ProcessTx)
        }
    }

    /// The handler and the first step for the event with number `event`.
    pub open spec fn on_event<E>(self, event: int) -> (Self, NetStep<E>) {
        if event == RX_QUEUE_EVENT {
            (self.at(Phase::ReadRxEvent), NetStep::ReadRxQueueEvent)
        } else if event == TX_QUEUE_EVENT {
            (self.at(Phase::ReadTxEvent), NetStep::ReadTxQueueEvent)
        } else if event == TX_TAP_EVENT {
            self.tx_limit_unknown(TxCause::Tap)
        } else if event == RX_TAP_EVENT {
            (self.at(Phase::ProcessRx), NetStep::ProcessRx)
        } else if event == RX_RATE_LIMITER_EVENT {
            if self.rx_rate_limiter is Some {
                (self.at(Phase::RunRxLimiter), NetStep::RunRxRateLimiter)
            } else {
                self.done(Err(HandleEventError::UnexpectedRxRateLimiterEvent))
            }
        } else if event == TX_RATE_LIMITER_EVENT {
            if self.tx_rate_limiter is Some {
                (self.at(Phase::RunTxLimiter), NetStep::RunTxRateLimiter)
            } else {
                self.done(Err(HandleEventError::UnexpectedTxRateLimiterEvent))
            }
        } else {
            self.done(Err(HandleEventError::UnexpectedEvent(event as u16)))
        }
    }

    /// Whether `answer` is an outcome of the operation that the handler waits for.
    pub open spec fn expects<E>(self, answer: NetAnswer<E>) -> bool {
        match self.phase {
            Phase::Idle => false,
            Phase::ReadRxEvent | Phase::ReadTxEvent => answer is EventRead,
            Phase::QueryRxLimiter | Phase::QueryTxLimiter(_) => answer is Blocked,
            Phase::RegisterTap | Phase::RegisterTapAfterLimiter => answer is Registered,
            Phase::ProcessTx(_) | Phase::ProcessRx => answer is Processed,
            Phase::SignalTx(_) | Phase::SignalRx => answer is Signalled,
            Phase::RunRxLimiter | Phase::RunTxLimiter => answer is LimiterRun,
        }
    }

    /// The handler and the next step after `answer`.
    pub open spec fn on_answer<E>(self, answer: NetAnswer<E>) -> (Self, NetStep<E>) {
        match (self.phase, answer) {
            // A receive queue event makes buffers available even where reading it failed.
            (Phase::ReadRxEvent, _) => {
                let handler = NetEpollHandler { rx_desc_avail: true, ..self };
                if handler.rx_rate_limiter is Some {
                    (handler.at(Phase::QueryRxLimiter), NetStep::QueryRxRateLimiter)
                } else {
                    handler.rx_limit_known(false)
                }
            },
            (Phase::QueryRxLimiter, NetAnswer::Blocked(blocked)) => self.rx_limit_known(blocked),
            (Phase::RegisterTap, NetAnswer::Registered(Ok(_))) => {
                NetEpollHandler { rx_tap_listening: true, ..self }.done(Ok(()))
            },
            (Phase::RegisterTap, NetAnswer::Registered(Err(e))) => {
                self.done(Err(HandleEventError::RxQueue(DeviceError::IoError(e))))
            },
            (Phase::ReadTxEvent, _) => self.tx_limit_unknown(TxCause::Queue),
            (Phase::QueryTxLimiter(cause), NetAnswer::Blocked(blocked)) => if blocked {
                self.done(Ok(()))
            } else {
                (self.at(Phase::ProcessTx(cause)), NetStep::ProcessTx)
            },
            (
                Phase::ProcessTx(cause),
                NetAnswer::Processed { signal, rx_tap_listening, rx_desc_avail },
            ) => {
                let handler = NetEpollHandler { rx_tap_listening, rx_desc_avail, ..self };
                match signal {
                    Ok(true) => (
                        handler.at(Phase::SignalTx(cause)),
                        NetStep::SignalUsedQueue((self.queue_index_base + 1) as u16),
                    ),
                    Ok(false) => handler.done(Ok(())),
                    Err(e) => handler.done(Err(tx_error(cause, DeviceError::NetQueuePair(e)))),
                }
            },
            (Phase::SignalTx(cause), NetAnswer::Signalled(Err(e))) => {
                self.done(Err(tx_error(cause, DeviceError::FailedSignalingUsedQueue(e))))
            },
            (
                Phase::ProcessRx,
                NetAnswer::Processed { signal, rx_tap_listening, rx_desc_avail },
            ) => {
                let handler = NetEpollHandler { rx_tap_listening, rx_desc_avail, ..self };
                match signal {
                    Ok(true) => (
                        handler.at(Phase::SignalRx),
                        NetStep::SignalUsedQueue(self.queue_index_base),
                    ),
                    Ok(false) => handler.done(Ok(())),
                    Err(e) => handler.done(
                        Err(HandleEventError::TapQueue(DeviceError::NetQueuePair(e))),
                    ),
                }
            },
            (Phase::SignalRx, NetAnswer::Signalled(Err(e))) => {
                self.done(Err(HandleEventError::TapQueue(DeviceError::FailedSignalingUsedQueue(e))))
            },
            (Phase::RunRxLimiter, NetAnswer::LimiterRun(Ok(_))) => {
                if !self.rx_tap_listening && self.rx_desc_avail {
                    self.register(Phase::RegisterTapAfterLimiter)
                } else {
                    self.done(Ok(()))
                }
            },
            (Phase::RegisterTapAfterLimiter, NetAnswer::Registered(Ok(_))) => {
                NetEpollHandler { rx_tap_listening: true, ..self }.done(Ok(()))
            },
            (Phase::RegisterTapAfterLimiter, NetAnswer::Registered(Err(e))) => {
                self.done(Err(HandleEventError::RegisterListener(e)))
            },
            (Phase::RunTxLimiter, NetAnswer::LimiterRun(Ok(_))) => (
                self.at(Phase::ProcessTx(TxCause::RateLimiter)),
                NetStep::ProcessTx,
            ),
            (_, NetAnswer::LimiterRun(Err(e))) => self.done(Err(HandleEventError::RateLimiter(e))),
            _ => self.done(Ok(())),
        }
    }

    /// A handler for the queue pair whose receive queue has the index `queue_index_base`.
    /// Nothing is listened to and no receive buffer is available yet.
    pub fn new(
        queue_index_base: u16,
        queue_evt_pair: (i32, i32),
        tap: i32,
        rx_rate_limiter: Option<i32>,
        tx_rate_limiter: Option<i32>,
    ) -> (r: Self)
        requires
            queue_index_base % 2 == 0,
        ensures
            r.wf(),
            r == (NetEpollHandler {
                queue_index_base,
                queue_evt_pair,
                tap,
                rx_rate_limiter,
                tx_rate_limiter,
                tap_rx_event_id: RX_TAP_EVENT,
                epoll_fd: None,
                rx_tap_listening: false,
                rx_desc_avail: false,
                phase: Phase::Idle,
            }),
    {
        NetEpollHandler {
            queue_index_base,
            queue_evt_pair,
            tap,
            rx_rate_limiter,
            tx_rate_limiter,
            tap_rx_event_id: RX_TAP_EVENT,
            epoll_fd: None,
            rx_tap_listening: false,
            rx_desc_avail: false,
            phase: Phase::Idle,
        }
    }

    fn finish<E>(&mut self, result: Result<(), HandleEventError<E>>) -> (r: NetStep<E>)
        ensures
            (*final(self), r) == old(self).done::<E>(result),
    {
        self.phase = Phase::Idle;
        NetStep::Done(result)
    }

    fn register_tap<E>(&mut self, phase: Phase) -> (r: NetStep<E>)
        requires
            old(self).epoll_fd is Some,
        ensures
            (*final(self), r) == old(self).register::<E>(phase),
    {
        self.phase = phase;
        let epoll_fd: i32 = self.epoll_fd.unwrap();
        NetStep::RegisterListener { epoll_fd, fd: self.tap, data: self.tap_rx_event_id as u64 }
    }

    /// Goes on with a receive queue event once it is known whether the rate limit is reached.
    fn handle_rx_event<E>(&mut self, rate_limit_reached: bool) -> (r: NetStep<E>)
        requires
            !old(self).rx_tap_listening && !rate_limit_reached ==> old(self).epoll_fd is Some,
        ensures
            (*final(self), r) == old(self).rx_limit_known::<E>(rate_limit_reached),
    {
        if !self.rx_tap_listening && !rate_limit_reached {
            self.register_tap(Phase::RegisterTap)
        } else {
            self.finish(Ok(()))
        }
    }

    /// Starts to process the transmit queue.
    fn process_tx<E>(&mut self, cause: TxCause) -> (r: NetStep<E>)
        ensures
            (*final(self), r) == (
                old(self).at(Phase::ProcessTx(cause)),
                NetStep::<E>::ProcessTx,
            ),
    {
        self.phase = Phase::ProcessTx(cause);
        NetStep::ProcessTx
    }

    /// Starts to process the transmit queue, unless the rate limit turns out to be reached.
    fn handle_tx_event<E>(&mut self, cause: TxCause) -> (r: NetStep<E>)
        ensures
            (*final(self), r) == old(self).tx_limit_unknown::<E>(cause),
    {
        if self.tx_rate_limiter.is_some() {
            self.phase = Phase::QueryTxLimiter(cause);
            NetStep::QueryTxRateLimiter
        } else {
            self.process_tx(cause)
        }
    }

    /// Starts to read frames from the tap into the receive queue.
    fn handle_rx_tap_event<E>(&mut self) -> (r: NetStep<E>)
        ensures
            (*final(self), r) == (old(self).at(Phase::ProcessRx), NetStep::<E>::ProcessRx),
    {
        self.phase = Phase::ProcessRx;
        NetStep::ProcessRx
    }

    /// Starts to handle an epoll event and names the first operation that this takes. `data`
    /// is the data of the event.
    pub fn handle_event<E>(&mut self, data: u64) -> (r: NetStep<E>)
        requires
            old(self).phase is Idle,
        ensures
            (*final(self), r) == old(self).on_event::<E>(crate::events::event_number(data)),
    {
        let ev_type: u16 = event_type(data);
        if ev_type == RX_QUEUE_EVENT {
            self.phase = Phase::ReadRxEvent;
            NetStep::ReadRxQueueEvent
        } else if ev_type == TX_QUEUE_EVENT {
            self.phase = Phase::ReadTxEvent;
            NetStep::ReadTxQueueEvent
        } else if ev_type == TX_TAP_EVENT {
            self.handle_tx_event(TxCause::Tap)
        } else if ev_type == RX_TAP_EVENT {
            self.handle_rx_tap_event()
        } else if ev_type == RX_RATE_LIMITER_EVENT {
            if self.rx_rate_limiter.is_some() {
                self.phase = Phase::RunRxLimiter;
                NetStep::RunRxRateLimiter
            } else {
                self.finish(Err(HandleEventError::UnexpectedRxRateLimiterEvent))
            }
        } else if ev_type == TX_RATE_LIMITER_EVENT {
            if self.tx_rate_limiter.is_some() {
                self.phase = Phase::RunTxLimiter;
                NetStep::RunTxRateLimiter
            } else {
                self.finish(Err(HandleEventError::UnexpectedTxRateLimiterEvent))
            }
        } else {
            self.finish(Err(HandleEventError::UnexpectedEvent(ev_type)))
        }
    }

    /// Takes the outcome of the operation that the last step named, and names the next one.
    pub fn resume<E>(&mut self, answer: NetAnswer<E>) -> (r: NetStep<E>)
        requires
            old(self).wf(),
            old(self).expects(answer),
            old(self).on_answer(answer).1 is RegisterListener ==> old(self).epoll_fd is Some,
        ensures
            final(self).wf(),
            (*final(self), r) == old(self).on_answer(answer),
    {
        match (self.phase, answer) {
            (Phase::ReadRxEvent, _) => {
                self.rx_desc_avail = true;
                if self.rx_rate_limiter.is_some() {
                    self.phase = Phase::QueryRxLimiter;
                    NetStep::QueryRxRateLimiter
                } else {
                    self.handle_rx_event(false)
                }
            },
            (Phase::QueryRxLimiter, NetAnswer::Blocked(blocked)) => self.handle_rx_event(blocked),
            (Phase::RegisterTap, NetAnswer::Registered(registered)) => match registered {
                Ok(_) => {
                    self.rx_tap_listening = true;
                    self.finish(Ok(()))
                },
                Err(e) => self.finish(Err(HandleEventError::RxQueue(DeviceError::IoError(e)))),
            },
            (Phase::ReadTxEvent, _) => self.handle_tx_event(TxCause::Queue),
            (Phase::QueryTxLimiter(cause), NetAnswer::Blocked(blocked)) => if blocked {
                self.finish(Ok(()))
            } else {
                self.process_tx(cause)
            },
            (
                Phase::ProcessTx(cause),
                NetAnswer::Processed { signal, rx_tap_listening, rx_desc_avail },
            ) => {
                self.rx_tap_listening = rx_tap_listening;
                self.rx_desc_avail = rx_desc_avail;
                match signal {
                    Ok(true) => {
                        self.phase = Phase::SignalTx(cause);
                        NetStep::SignalUsedQueue(self.queue_index_base + 1)
                    },
                    Ok(false) => self.finish(Ok(())),
                    Err(e) => self.finish(Err(tx_failed(cause, DeviceError::NetQueuePair(e)))),
                }
            },
            (Phase::SignalTx(cause), NetAnswer::Signalled(Err(e))) => {
                self.finish(Err(tx_failed(cause, DeviceError::FailedSignalingUsedQueue(e))))
            },
            (
                Phase::ProcessRx,
                NetAnswer::Processed { signal, rx_tap_listening, rx_desc_avail },
            ) => {
                self.rx_tap_listening = rx_tap_listening;
                self.rx_desc_avail = rx_desc_avail;
                match signal {
                    Ok(true) => {
                        self.phase = Phase::SignalRx;
                        NetStep::SignalUsedQueue(self.queue_index_base)
                    },
                    Ok(false) => self.finish(Ok(())),
                    Err(e) => self.finish(
                        Err(HandleEventError::TapQueue(DeviceError::NetQueuePair(e))),
                    ),
                }
            },
            (Phase::SignalRx, NetAnswer::Signalled(Err(e))) => self.finish(
                Err(HandleEventError::TapQueue(DeviceError::FailedSignalingUsedQueue(e))),
            ),
            (Phase::RunRxLimiter, NetAnswer::LimiterRun(Ok(_))) => {
                if !self.rx_tap_listening && self.rx_desc_avail {
                    self.register_tap(Phase::RegisterTapAfterLimiter)
                } else {
                    self.finish(Ok(()))
                }
            },
            (Phase::RegisterTapAfterLimiter, NetAnswer::Registered(registered)) => match registered {
                Ok(_) => {
                    self.rx_tap_listening = true;
                    self.finish(Ok(()))
                },
                Err(e) => self.finish(Err(HandleEventError::RegisterListener(e))),
            },
            (Phase::RunTxLimiter, NetAnswer::LimiterRun(Ok(_))) => {
                self.process_tx(TxCause::RateLimiter)
            },
            (_, NetAnswer::LimiterRun(Err(e))) => {
                self.finish(Err(HandleEventError::RateLimiter(e)))
            },
            _ => self.finish(Ok(())),
        }
    }
}

/// The error of a failure while the transmit queue is processed for `cause`.
fn tx_failed<E>(cause: TxCause, e: DeviceError<E>) -> (r: HandleEventError<E>)
    ensures
        r == tx_error(cause, e),
{
    match cause {
        TxCause::Tap => HandleEventError::TxTap(e),
        _ => HandleEventError::TxQueue(e),
    }
}

} // verus!
