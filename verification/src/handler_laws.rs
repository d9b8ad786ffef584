//! What holds of a queue pair's event loop over several steps and events.

use vstd::prelude::*;

use crate::events::{
    DeviceError, RX_QUEUE_EVENT, RX_RATE_LIMITER_EVENT, RX_TAP_EVENT, TX_QUEUE_EVENT,
    TX_RATE_LIMITER_EVENT, TX_TAP_EVENT,
};
use crate::handler::{HandleEventError, NetAnswer, NetEpollHandler, NetStep, Phase, TxCause};

verus! {

/// An upper bound on the operations that an event's handling still takes.
pub open spec fn operations_left(phase: Phase) -> nat {
    match phase {
        Phase::Idle => 0,
        Phase::RegisterTap | Phase::RegisterTapAfterLimiter => 1,
        Phase::SignalTx(_) | Phase::SignalRx => 1,
        Phase::QueryRxLimiter | Phase::ProcessTx(_) | Phase::ProcessRx | Phase::RunRxLimiter => 2,
        Phase::ReadRxEvent | Phase::QueryTxLimiter(_) | Phase::RunTxLimiter => 3,
        Phase::ReadTxEvent => 4,
    }
}

/// The handling of an event takes at most four operations: it starts with no more than that
/// to do, each outcome leaves less, and it is over exactly when the handler is idle again.
pub proof fn law_event_handling_ends<E>(handler: NetEpollHandler, event: int, answer: NetAnswer<E>)
    ensures
        operations_left(handler.on_event::<E>(event).0.phase) <= 4,
        handler.on_event::<E>(event).0.phase is Idle <==> handler.on_event::<E>(event).1 is Done,
        handler.expects(answer) ==> {
            let (next, step) = handler.on_answer(answer);
            &&& operations_left(next.phase) < operations_left(handler.phase)
            &&& (next.phase is Idle <==> step is Done)
        },
{
}

/// Handling events never changes which queues, tap, rate limiters and epoll instance the
/// handler serves.
pub proof fn law_queue_pair_kept<E>(handler: NetEpollHandler, event: int, answer: NetAnswer<E>)
    ensures
        handler.on_event::<E>(event).0 == handler.at(handler.on_event::<E>(event).0.phase),
        handler.on_answer(answer).0 == (NetEpollHandler {
            rx_tap_listening: handler.on_answer(answer).0.rx_tap_listening,
            rx_desc_avail: handler.on_answer(answer).0.rx_desc_avail,
            phase: handler.on_answer(answer).0.phase,
            ..handler
        }),
{
}

/// The tap is registered only while it is not listened to, so never twice.
pub proof fn law_tap_registered_once<E>(handler: NetEpollHandler, event: int, answer: NetAnswer<E>)
    requires
        handler.expects(answer),
    ensures
        !(handler.on_event::<E>(event).1 is RegisterListener),
        handler.on_answer(answer).1 is RegisterListener ==> !handler.rx_tap_listening
            && !handler.on_answer(answer).0.rx_tap_listening,
{
}

/// The handler takes the tap for listened to only after it was registered, or where the
/// processing of a queue left it so.
pub proof fn law_listening_is_earned<E>(handler: NetEpollHandler, answer: NetAnswer<E>)
    requires
        handler.expects(answer),
        !handler.rx_tap_listening,
        handler.on_answer(answer).0.rx_tap_listening,
    ensures
        answer matches NetAnswer::Registered(Ok(_)) || (
        answer matches NetAnswer::Processed { rx_tap_listening, .. } && rx_tap_listening),
{
}

/// The guest is told that a queue was used exactly where processing that queue asks for it,
/// and it is told of that queue.
pub proof fn law_signals_what_was_processed<E>(handler: NetEpollHandler, answer: NetAnswer<E>)
    requires
        handler.wf(),
        handler.expects(answer),
    ensures
        handler.on_answer(answer).1 is SignalUsedQueue
            <==> answer matches NetAnswer::Processed { signal: Ok(true), .. },
        handler.on_answer(answer).1 matches NetStep::SignalUsedQueue(index) ==> {
            ||| handler.phase is ProcessRx && index == handler.queue_index_base
            ||| handler.phase is ProcessTx && index == handler.queue_index_base + 1
        },
{
}

/// While the transmit rate limiter blocks, a transmit event leaves the queue alone and
/// succeeds.
pub proof fn law_blocked_transmit_waits<E>(handler: NetEpollHandler, read: Result<(), E>)
    requires
        handler.tx_rate_limiter is Some,
    ensures
        ({
            let queried = handler.on_event::<E>(TX_TAP_EVENT as int);
            &&& queried.1 is QueryTxRateLimiter
            &&& queried.0.on_answer(NetAnswer::<E>::Blocked(true)) == handler.done::<E>(Ok(()))
        }),
        ({
            let started = handler.on_event::<E>(TX_QUEUE_EVENT as int);
            let queried = started.0.on_answer(NetAnswer::EventRead(read));
            &&& started.1 is ReadTxQueueEvent
            &&& queried.1 is QueryTxRateLimiter
            &&& queried.0.on_answer(NetAnswer::<E>::Blocked(true)) == handler.done::<E>(Ok(()))
        }),
{
}

/// A wake up of the transmit rate limiter restarts the processing of the transmit queue.
pub proof fn law_transmit_resumes<E>(handler: NetEpollHandler)
    requires
        handler.tx_rate_limiter is Some,
    ensures
        ({
            let started = handler.on_event::<E>(TX_RATE_LIMITER_EVENT as int);
            &&& started.1 is RunTxRateLimiter
            &&& started.0.on_answer(NetAnswer::<E>::LimiterRun(Ok(()))) == (
                handler.at(Phase::ProcessTx(TxCause::RateLimiter)),
                NetStep::<E>::ProcessTx,
            )
        }),
{
}

/// A receive event while the rate limiter blocks does not listen to the tap but remembers
/// the buffers; the limiter's wake up then listens to it.
pub proof fn law_receive_resumes<E>(handler: NetEpollHandler, read: Result<(), E>)
    requires
        handler.rx_rate_limiter is Some,
        handler.epoll_fd is Some,
        !handler.rx_tap_listening,
    ensures
        ({
            let started = handler.on_event::<E>(RX_QUEUE_EVENT as int);
            let queried = started.0.on_answer(NetAnswer::EventRead(read));
            let blocked = queried.0.on_answer(NetAnswer::<E>::Blocked(true));
            let woken = blocked.0.on_event::<E>(RX_RATE_LIMITER_EVENT as int);
            let registering = woken.0.on_answer(NetAnswer::<E>::LimiterRun(Ok(())));
            let listening = registering.0.on_answer(NetAnswer::<E>::Registered(Ok(())));
            &&& started.1 is ReadRxQueueEvent
            &&& queried.1 is QueryRxRateLimiter
            &&& blocked.1 == NetStep::<E>::Done(Ok(()))
            &&& !blocked.0.rx_tap_listening && blocked.0.rx_desc_avail
            &&& woken.1 is RunRxRateLimiter
            &&& registering.1 == (NetStep::<E>::RegisterListener {
                epoll_fd: handler.epoll_fd->0,
                fd: handler.tap,
                data: handler.tap_rx_event_id as u64,
            })
            &&& listening.1 == NetStep::<E>::Done(Ok(()))
            &&& listening.0 == (NetEpollHandler {
                rx_tap_listening: true,
                rx_desc_avail: true,
                phase: Phase::Idle,
                ..handler
            })
        }),
{
}

/// An event that is none of the loop's is refused, and changes nothing.
pub proof fn law_unknown_event_refused<E>(handler: NetEpollHandler, event: u16)
    requires
        handler.phase is Idle,
        event != RX_QUEUE_EVENT,
        event != TX_QUEUE_EVENT,
        event != RX_TAP_EVENT,
        event != TX_TAP_EVENT,
        event != RX_RATE_LIMITER_EVENT,
        event != TX_RATE_LIMITER_EVENT,
    ensures
        handler.on_event::<E>(event as int) == (
            handler,
            NetStep::Done(Err(HandleEventError::<E>::UnexpectedEvent(event))),
        ),
{
}

/// A failed operation ends the event's handling with an error that carries its failure,
/// except for the reading of a queue's event.
pub proof fn law_failures_are_reported<E>(handler: NetEpollHandler, answer: NetAnswer<E>, e: E)
    requires
        handler.expects(answer),
        ({
            ||| answer == NetAnswer::LimiterRun(Err::<(), E>(e))
            ||| answer == NetAnswer::Registered(Err::<(), E>(e))
            ||| answer == NetAnswer::Signalled(Err::<(), E>(e))
            ||| answer matches NetAnswer::Processed { signal: Err(failure), .. } && failure == e
        }),
    ensures
        handler.on_answer(answer).1 matches NetStep::Done(Err(error)) && failure_of(error) == Some(
            e,
        ),
{
}

/// The failure of an outside operation that an error carries.
pub open spec fn failure_of<E>(error: HandleEventError<E>) -> Option<E> {
    match error {
        HandleEventError::RxQueue(device) | HandleEventError::TxQueue(device)
        | HandleEventError::TxTap(device) | HandleEventError::TapQueue(device) => match device {
            DeviceError::IoError(e) | DeviceError::NetQueuePair(e)
            | DeviceError::FailedSignalingUsedQueue(e) => Some(e),
        },
        HandleEventError::RateLimiter(e) | HandleEventError::RegisterListener(e) => Some(e),
        _ => None,
    }
}

/// The outcomes that the outside operations have while an event is handled.
#[verifier::reject_recursive_types(E)]
pub struct Outcomes<E> {
    /// Reading the receive queue's event.
    pub rx_event: Result<(), E>,
    /// Reading the transmit queue's event.
    pub tx_event: Result<(), E>,
    /// Whether the receive rate limiter blocks.
    pub rx_blocked: bool,
    /// Whether the transmit rate limiter blocks.
    pub tx_blocked: bool,
    /// Running the receive rate limiter's handler.
    pub rx_limiter: Result<(), E>,
    /// Running the transmit rate limiter's handler.
    pub tx_limiter: Result<(), E>,
    /// Registering the tap.
    pub registered: Result<(), E>,
    /// Processing a queue: whether the guest is to be told.
    pub signal: Result<bool, E>,
    /// Whether the tap is listened to after a queue was processed.
    pub listening_after: bool,
    /// Whether receive buffers are available after a queue was processed.
    pub buffers_after: bool,
    /// Telling the guest that a queue was used.
    pub signalled: Result<(), E>,
}

impl<E> Outcomes<E> {
    /// The answer to a step.
    pub open spec fn answer(self, step: NetStep<E>) -> NetAnswer<E> {
        match step {
            NetStep::ReadRxQueueEvent => NetAnswer::EventRead(self.rx_event),
            NetStep::ReadTxQueueEvent => NetAnswer::EventRead(self.tx_event),
            NetStep::QueryRxRateLimiter => NetAnswer::Blocked(self.rx_blocked),
            NetStep::QueryTxRateLimiter => NetAnswer::Blocked(self.tx_blocked),
            NetStep::RunRxRateLimiter => NetAnswer::LimiterRun(self.rx_limiter),
            NetStep::RunTxRateLimiter => NetAnswer::LimiterRun(self.tx_limiter),
            NetStep::RegisterListener { .. } => NetAnswer::Registered(self.registered),
            NetStep::ProcessTx | NetStep::ProcessRx => NetAnswer::Processed {
                signal: self.signal,
                rx_tap_listening: self.listening_after,
                rx_desc_avail: self.buffers_after,
            },
            NetStep::SignalUsedQueue(_) | NetStep::Done(_) => NetAnswer::Signalled(self.signalled),
        }
    }

    /// The steps from processing a queue on: the guest is told of the queue `index` exactly
    /// where processing asks for it, and what fails is reported.
    pub open spec fn processing(
        self,
        process: NetStep<E>,
        index: int,
        error: spec_fn(DeviceError<E>) -> HandleEventError<E>,
    ) -> Seq<NetStep<E>> {
        match (self.signal, self.signalled) {
            (Err(e), _) => seq![process, NetStep::Done(Err(error(DeviceError::NetQueuePair(e))))],
            (Ok(false), _) => seq![process, NetStep::Done(Ok(()))],
            (Ok(true), Ok(_)) => seq![
                process,
                NetStep::SignalUsedQueue(index as u16),
                NetStep::Done(Ok(())),
            ],
            (Ok(true), Err(e)) => seq![
                process,
                NetStep::SignalUsedQueue(index as u16),
                NetStep::Done(Err(error(DeviceError::FailedSignalingUsedQueue(e)))),
            ],
        }
    }
}

/// The handler after `step` and what follows it were performed with these outcomes, and the
/// steps that this took. At most `fuel` operations are performed, and only where the handler
/// takes their answers.
pub open spec fn perform<E>(
    handler: NetEpollHandler,
    step: NetStep<E>,
    outcomes: Outcomes<E>,
    fuel: nat,
) -> (NetEpollHandler, Seq<NetStep<E>>)
    decreases fuel,
{
    if step is Done || fuel == 0 || !handler.expects(outcomes.answer(step)) {
        (handler, seq![step])
    } else {
        let (next, following) = handler.on_answer(outcomes.answer(step));
        let rest = perform(next, following, outcomes, (fuel - 1) as nat);
        (rest.0, seq![step] + rest.1)
    }
}

/// The handler after an event was handled with these outcomes, and the steps that this took.
pub open spec fn handled<E>(handler: NetEpollHandler, event: int, outcomes: Outcomes<E>) -> (
    NetEpollHandler,
    Seq<NetStep<E>>,
) {
    let (started, step) = handler.on_event::<E>(event);
    perform(started, step, outcomes, 5)
}

/// A transmit queue event and an event of the writable tap process the transmit queue unless
/// there is a rate limiter and it blocks, whatever reading the event gave. Only the
/// processing changes what the handler knows.
pub proof fn law_transmit_event_handled<E>(
    handler: NetEpollHandler,
    from_tap: bool,
    outcomes: Outcomes<E>,
)
    requires
        handler.wf(),
    ensures
        ({
            let event = if from_tap {
                TX_TAP_EVENT as int
            } else {
                TX_QUEUE_EVENT as int
            };
            let (end, steps) = handled(handler, event, outcomes);
            let blocked = handler.tx_rate_limiter is Some && outcomes.tx_blocked;
            let read = if from_tap {
                Seq::empty()
            } else {
                seq![NetStep::<E>::ReadTxQueueEvent]
            };
            let asked = if handler.tx_rate_limiter is Some {
                seq![NetStep::<E>::QueryTxRateLimiter]
            } else {
                Seq::empty()
            };
            let error = |e: DeviceError<E>|
                if from_tap {
                    HandleEventError::TxTap(e)
                } else {
                    HandleEventError::TxQueue(e)
                };
            &&& steps == read + asked + if blocked {
                seq![NetStep::<E>::Done(Ok(()))]
            } else {
                outcomes.processing(NetStep::ProcessTx, handler.queue_index_base + 1, error)
            }
            &&& steps.contains(NetStep::<E>::ProcessTx) <==> !blocked
            &&& end == (NetEpollHandler {
                rx_tap_listening: if blocked {
                    handler.rx_tap_listening
                } else {
                    outcomes.listening_after
                },
                rx_desc_avail: if blocked {
                    handler.rx_desc_avail
                } else {
                    outcomes.buffers_after
                },
                phase: Phase::Idle,
                ..handler
            })
        }),
{
    reveal_with_fuel(perform, 6);
    let event = if from_tap {
        TX_TAP_EVENT as int
    } else {
        TX_QUEUE_EVENT as int
    };
    let steps = handled(handler, event, outcomes).1;
    let place = (if from_tap {
        0int
    } else {
        1int
    }) + if handler.tx_rate_limiter is Some {
        1int
    } else {
        0int
    };
    if !(handler.tx_rate_limiter is Some && outcomes.tx_blocked) {
        assert(steps[place] == NetStep::<E>::ProcessTx);
    }
}

/// A receive queue event makes buffers available, whatever reading it gave. It listens to the
/// tap unless that is listened to already or there is a rate limiter and it blocks.
pub proof fn law_receive_event_handled<E>(handler: NetEpollHandler, outcomes: Outcomes<E>)
    ensures
        ({
            let (end, steps) = handled(handler, RX_QUEUE_EVENT as int, outcomes);
            let blocked = handler.rx_rate_limiter is Some && outcomes.rx_blocked;
            let registers = !handler.rx_tap_listening && !blocked;
            let asked = if handler.rx_rate_limiter is Some {
                seq![NetStep::<E>::QueryRxRateLimiter]
            } else {
                Seq::empty()
            };
            &&& steps == seq![NetStep::<E>::ReadRxQueueEvent] + asked + if registers {
                seq![
                    NetStep::<E>::RegisterListener {
                        epoll_fd: handler.epoll_fd->0,
                        fd: handler.tap,
                        data: handler.tap_rx_event_id as u64,
                    },
                    NetStep::Done(
                        match outcomes.registered {
                            Ok(_) => Ok(()),
                            Err(e) => Err(HandleEventError::RxQueue(DeviceError::IoError(e))),
                        },
                    ),
                ]
            } else {
                seq![NetStep::<E>::Done(Ok(()))]
            }
            &&& end == (NetEpollHandler {
                rx_tap_listening: handler.rx_tap_listening || registers && outcomes.registered is Ok,
                rx_desc_avail: true,
                phase: Phase::Idle,
                ..handler
            })
        }),
{
    reveal_with_fuel(perform, 6);
}

/// An event of the readable tap processes the receive queue.
pub proof fn law_tap_event_handled<E>(handler: NetEpollHandler, outcomes: Outcomes<E>)
    ensures
        ({
            let (end, steps) = handled(handler, RX_TAP_EVENT as int, outcomes);
            &&& steps == outcomes.processing(
                NetStep::ProcessRx,
                handler.queue_index_base as int,
                |e: DeviceError<E>| HandleEventError::TapQueue(e),
            )
            &&& end == (NetEpollHandler {
                rx_tap_listening: outcomes.listening_after,
                rx_desc_avail: outcomes.buffers_after,
                phase: Phase::Idle,
                ..handler
            })
        }),
{
    reveal_with_fuel(perform, 6);
}

/// A wake up of the receive rate limiter runs its handler and then listens to the tap where
/// that is not listened to and buffers are available. Without a rate limiter it is refused.
pub proof fn law_receive_limiter_event_handled<E>(handler: NetEpollHandler, outcomes: Outcomes<E>)
    ensures
        ({
            let (end, steps) = handled(handler, RX_RATE_LIMITER_EVENT as int, outcomes);
            let registers = handler.rx_rate_limiter is Some && outcomes.rx_limiter is Ok
                && !handler.rx_tap_listening && handler.rx_desc_avail;
            &&& handler.rx_rate_limiter is None ==> steps == seq![
                NetStep::<E>::Done(Err(HandleEventError::UnexpectedRxRateLimiterEvent)),
            ]
            &&& handler.rx_rate_limiter is Some ==> match outcomes.rx_limiter {
                Err(e) => steps == seq![
                    NetStep::<E>::RunRxRateLimiter,
                    NetStep::Done(Err(HandleEventError::RateLimiter(e))),
                ],
                Ok(_) => steps == seq![NetStep::<E>::RunRxRateLimiter] + if registers {
                    seq![
                        NetStep::<E>::RegisterListener {
                            epoll_fd: handler.epoll_fd->0,
                            fd: handler.tap,
                            data: handler.tap_rx_event_id as u64,
                        },
                        NetStep::Done(
                            match outcomes.registered {
                                Ok(_) => Ok(()),
                                Err(e) => Err(HandleEventError::RegisterListener(e)),
                            },
                        ),
                    ]
                } else {
                    seq![NetStep::<E>::Done(Ok(()))]
                },
            }
            &&& end == (NetEpollHandler {
                rx_tap_listening: handler.rx_tap_listening || registers && outcomes.registered is Ok,
                phase: Phase::Idle,
                ..handler
            })
        }),
{
    reveal_with_fuel(perform, 6);
}

/// A wake up of the transmit rate limiter runs its handler and then processes the transmit
/// queue. Without a rate limiter it is refused.
pub proof fn law_transmit_limiter_event_handled<E>(handler: NetEpollHandler, outcomes: Outcomes<E>)
    requires
        handler.wf(),
    ensures
        ({
            let (end, steps) = handled(handler, TX_RATE_LIMITER_EVENT as int, outcomes);
            let processes = handler.tx_rate_limiter is Some && outcomes.tx_limiter is Ok;
            &&& handler.tx_rate_limiter is None ==> steps == seq![
                NetStep::<E>::Done(Err(HandleEventError::UnexpectedTxRateLimiterEvent)),
            ]
            &&& handler.tx_rate_limiter is Some ==> match outcomes.tx_limiter {
                Err(e) => steps == seq![
                    NetStep::<E>::RunTxRateLimiter,
                    NetStep::Done(Err(HandleEventError::RateLimiter(e))),
                ],
                Ok(_) => steps == seq![NetStep::<E>::RunTxRateLimiter] + outcomes.processing(
                    NetStep::ProcessTx,
                    handler.queue_index_base + 1,
                    |e: DeviceError<E>| HandleEventError::TxQueue(e),
                ),
            }
            &&& end == (NetEpollHandler {
                rx_tap_listening: if processes {
                    outcomes.listening_after
                } else {
                    handler.rx_tap_listening
                },
                rx_desc_avail: if processes {
                    outcomes.buffers_after
                } else {
                    handler.rx_desc_avail
                },
                phase: Phase::Idle,
                ..handler
            })
        }),
{
    reveal_with_fuel(perform, 6);
}

/// The six events of a queue pair's loop differ from each other and from those that the epoll
/// helper keeps for itself.
pub proof fn law_events_differ()
    ensures
        crate::events::EPOLL_HELPER_EVENT_LAST < RX_QUEUE_EVENT < TX_QUEUE_EVENT < RX_TAP_EVENT
            < TX_TAP_EVENT < RX_RATE_LIMITER_EVENT < TX_RATE_LIMITER_EVENT,
{
}

} // verus!
