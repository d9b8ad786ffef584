//! The start of a queue pair's event loop, as decisions.
//!
//! [`NetRun::run`] names the first operation that starting the loop takes. Each operation's
//! outcome goes to [`NetRun::resume`], which names the next one, until the loop runs or the
//! start has failed.

use vstd::prelude::*;

use crate::events::{
    Listener, RX_QUEUE_EVENT, RX_RATE_LIMITER_EVENT, RX_TAP_EVENT, TX_QUEUE_EVENT,
    TX_RATE_LIMITER_EVENT,
};
use crate::handler::NetEpollHandler;

verus! {

/// The operation whose outcome the start of the loop waits for.
#[derive(Clone, Copy, Debug, PartialEq, Eq, Structural)]
pub enum RunPhase {
    /// Adding the listener at this place among those that every loop starts with.
    AddListener(usize),
    /// Reading the used index of the receive queue.
    ReadUsed,
    /// Reading the available index of the receive queue, whose used index is known.
    ReadAvail(u16),
    /// Adding the tap.
    AddTap,
    /// None: the loop runs, or its start has failed.
    Over,
}

/// An operation to perform, or the end of the start.
#[derive(Debug)]
pub enum RunStep<E> {
    /// Add the listener to the loop.
    AddEvent(Listener),
    /// Read the used index of the receive queue.
    ReadUsedIndex,
    /// Read the available index of the receive queue.
    ReadAvailIndex,
    /// Run the loop.
    Run,
    /// The start has failed.
    Failed(RunError<E>),
}

/// The outcome of an operation.
#[derive(Debug)]
pub enum RunAnswer<E> {
    /// The listener was added.
    Added(Result<(), E>),
    /// The index of the receive queue.
    Index(Result<u16, E>),
}

/// Failures of starting the loop.
#[derive(Debug)]
pub enum RunError<E> {
    /// A listener could not be added.
    AddEvent(E),
    /// An index of the receive queue could not be read.
    QueueRingIndex(E),
}

/// The start of the event loop of `handler` in the epoll instance `epoll_fd`.
#[derive(Clone, Copy, Debug)]
pub struct NetRun {
    pub handler: NetEpollHandler,
    pub epoll_fd: i32,
    pub phase: RunPhase,
}

impl NetEpollHandler {
    /// What every loop of the queue pair listens to from its start: both queues, and the
    /// rate limiters that there are.
    pub open spec fn start_listeners(self) -> Seq<Listener> {
        seq![
            Listener { fd: self.queue_evt_pair.0, event: RX_QUEUE_EVENT },
            Listener { fd: self.queue_evt_pair.1, event: TX_QUEUE_EVENT },
        ] + (match self.rx_rate_limiter {
            Some(fd) => seq![Listener { fd, event: RX_RATE_LIMITER_EVENT }],
            None => Seq::empty(),
        }) + (match self.tx_rate_limiter {
            Some(fd) => seq![Listener { fd, event: TX_RATE_LIMITER_EVENT }],
            None => Seq::empty(),
        })
    }

    /// The listener at place `i` of `start_listeners`, if there are so many.
    fn start_listener(&self, i: usize) -> (r: Option<Listener>)
        ensures
            r == if i < self.start_listeners().len() {
                Some(self.start_listeners()[i as int])
            } else {
                None::<Listener>
            },
    {
        let mut listeners: Vec<Listener> = Vec::new();
        listeners.push(Listener { fd: self.queue_evt_pair.0, event: RX_QUEUE_EVENT });
        listeners.push(Listener { fd: self.queue_evt_pair.1, event: TX_QUEUE_EVENT });
        if let Some(fd) = self.rx_rate_limiter {
            listeners.push(Listener { fd, event: RX_RATE_LIMITER_EVENT });
        }
        if let Some(fd) = self.tx_rate_limiter {
            listeners.push(Listener { fd, event: TX_RATE_LIMITER_EVENT });
        }
        assert(listeners@ == self.start_listeners());
        if i < listeners.len() {
            Some(listeners[i])
        } else {
            None
        }
    }
}

impl NetRun {
    /// The place of the listener being added is one of those there are.
    pub open spec fn wf(self) -> bool {
        self.phase matches RunPhase::AddListener(i) ==> i < self.handler.start_listeners().len()
    }

    /// The start, waiting for what `phase` says.
    pub open spec fn at(self, phase: RunPhase) -> Self {
        NetRun { phase, ..self }
    }

    /// The start that has made the loop run, with the tap listened to or not. From now on
    /// the handler knows the epoll instance.
    pub open spec fn running<E>(self, tap_listening: bool) -> (Self, RunStep<E>) {
        (
            NetRun {
                handler: NetEpollHandler {
                    epoll_fd: Some(self.epoll_fd),
                    rx_tap_listening: tap_listening,
                    ..self.handler
                },
                phase: RunPhase::Over,
                ..self
            },
            RunStep::Run,
        )
    }

    /// Whether `answer` is an outcome of the operation that the start waits for.
    pub open spec fn expects<E>(self, answer: RunAnswer<E>) -> bool {
        match self.phase {
            RunPhase::AddListener(_) | RunPhase::AddTap => answer is Added,
            RunPhase::ReadUsed | RunPhase::ReadAvail(_) => answer is Index,
            RunPhase::Over => false,
        }
    }

    /// The start and the next step after `answer`. Buffers that the guest has made available
    /// but the device has not used yet make it listen to the tap at once: there are some where
    /// the indexes differ. They count modulo 2^16, so the available one may be the smaller.
    pub open spec fn on_answer<E>(self, answer: RunAnswer<E>) -> (Self, RunStep<E>) {
        match (self.phase, answer) {
            (RunPhase::AddListener(i), RunAnswer::Added(Ok(_))) => {
                let listeners = self.handler.start_listeners();
                if i + 1 < listeners.len() {
                    (
                        self.at(RunPhase::AddListener((i + 1) as usize)),
                        RunStep::AddEvent(listeners[i + 1]),
                    )
                } else {
                    (self.at(RunPhase::ReadUsed), RunStep::ReadUsedIndex)
                }
            },
            (RunPhase::ReadUsed, RunAnswer::Index(Ok(used))) => (
                self.at(RunPhase::ReadAvail(used)),
                RunStep::ReadAvailIndex,
            ),
            (RunPhase::ReadAvail(used), RunAnswer::Index(Ok(avail))) => if used != avail {
                (
                    self.at(RunPhase::AddTap),
                    RunStep::AddEvent(Listener { fd: self.handler.tap, event: RX_TAP_EVENT }),
                )
            } else {
                self.running(self.handler.rx_tap_listening)
            },
            (RunPhase::AddTap, RunAnswer::Added(Ok(_))) => self.running(true),
            (_, RunAnswer::Added(Err(e))) => (
                self.at(RunPhase::Over),
                RunStep::Failed(RunError::AddEvent(e)),
            ),
            (_, RunAnswer::Index(Err(e))) => (
                self.at(RunPhase::Over),
                RunStep::Failed(RunError::QueueRingIndex(e)),
            ),
            (_, _) => (self, RunStep::Run),
        }
    }

    /// Begins to start the loop of `handler` in the epoll instance `epoll_fd`, and names the
    /// first operation that this takes: adding the receive queue's event.
    pub fn run<E>(handler: NetEpollHandler, epoll_fd: i32) -> (r: (Self, RunStep<E>))
        ensures
            r.0.wf(),
            r.0 == (NetRun { handler, epoll_fd, phase: RunPhase::AddListener(0) }),
            r.1 == RunStep::<E>::AddEvent(handler.start_listeners()[0]),
    {
        let first = Listener { fd: handler.queue_evt_pair.0, event: RX_QUEUE_EVENT };
        (NetRun { handler, epoll_fd, phase: RunPhase::AddListener(0) }, RunStep::AddEvent(first))
    }

    fn start_loop<E>(&mut self, tap_listening: bool) -> (r: RunStep<E>)
        ensures
            (*final(self), r) == old(self).running::<E>(tap_listening),
    {
        self.handler.epoll_fd = Some(self.epoll_fd);
        self.handler.rx_tap_listening = tap_listening;
        self.phase = RunPhase::Over;
        RunStep::Run
    }

    fn fail<E>(&mut self, error: RunError<E>) -> (r: RunStep<E>)
        ensures
            (*final(self), r) == (old(self).at(RunPhase::Over), RunStep::Failed(error)),
    {
        self.phase = RunPhase::Over;
        RunStep::Failed(error)
    }

    /// Takes the outcome of the operation that the last step named, and names the next one.
    pub fn resume<E>(&mut self, answer: RunAnswer<E>) -> (r: RunStep<E>)
        requires
            old(self).wf(),
            old(self).expects(answer),
        ensures
            final(self).wf(),
            (*final(self), r) == old(self).on_answer(answer),
    {
        match answer {
            RunAnswer::Added(Err(e)) => self.fail(RunError::AddEvent(e)),
            RunAnswer::Index(Err(e)) => self.fail(RunError::QueueRingIndex(e)),
            RunAnswer::Added(Ok(_)) => match self.phase {
                RunPhase::AddListener(i) => match self.handler.start_listener(i + 1) {
                    Some(listener) => {
                        self.phase = RunPhase::AddListener(i + 1);
                        RunStep::AddEvent(listener)
                    },
                    None => {
                        self.phase = RunPhase::ReadUsed;
                        RunStep::ReadUsedIndex
                    },
                },
                _ => self.start_loop(true),
            },
            RunAnswer::Index(Ok(index)) => match self.phase {
                RunPhase::ReadAvail(used) => if used != index {
                    self.phase = RunPhase::AddTap;
                    RunStep::AddEvent(Listener { fd: self.handler.tap, event: RX_TAP_EVENT })
                } else {
                    let listening: bool = self.handler.rx_tap_listening;
                    self.start_loop(listening)
                },
                _ => {
                    self.phase = RunPhase::ReadAvail(index);
                    RunStep::ReadAvailIndex
                },
            },
        }
    }
}

/// The start of a fresh handler's loop listens to the tap exactly where the receive queue
/// has buffers that were not used yet, and leaves a handler that knows its epoll instance.
pub proof fn law_start_listens_to_tap<E>(run: NetRun, used: u16, avail: u16)
    requires
        run.phase is ReadUsed,
        !run.handler.rx_tap_listening,
    ensures
        ({
            let read = run.on_answer(RunAnswer::<E>::Index(Ok(used)));
            let known = read.0.on_answer(RunAnswer::<E>::Index(Ok(avail)));
            let started = if used != avail {
                known.0.on_answer(RunAnswer::<E>::Added(Ok(())))
            } else {
                known
            };
            &&& read.1 is ReadAvailIndex
            &&& used != avail <==> known.1 == RunStep::<E>::AddEvent(
                Listener { fd: run.handler.tap, event: RX_TAP_EVENT },
            )
            &&& started.1 is Run
            &&& started.0.handler == (NetEpollHandler {
                epoll_fd: Some(run.epoll_fd),
                rx_tap_listening: used != avail,
                ..run.handler
            })
        }),
{
}

/// The start and its step after `n` listeners were added.
pub open spec fn after_adding<E>(run: NetRun, n: nat) -> (NetRun, RunStep<E>)
    decreases n,
{
    if n == 0 {
        (run, RunStep::AddEvent(run.handler.start_listeners()[0]))
    } else {
        after_adding::<E>(run, (n - 1) as nat).0.on_answer(RunAnswer::Added(Ok(())))
    }
}

/// The start adds the listeners of `start_listeners` one after the other, each of them once,
/// and then reads the used index.
pub proof fn law_start_adds_every_listener<E>(run: NetRun, n: nat)
    requires
        run.phase == RunPhase::AddListener(0),
        n <= run.handler.start_listeners().len(),
    ensures
        after_adding::<E>(run, n).0 == run.at(after_adding::<E>(run, n).0.phase),
        n < run.handler.start_listeners().len() ==> {
            &&& after_adding::<E>(run, n).0.phase == RunPhase::AddListener(n as usize)
            &&& after_adding::<E>(run, n).1 == RunStep::<E>::AddEvent(
                run.handler.start_listeners()[n as int],
            )
        },
        n == run.handler.start_listeners().len() ==> {
            &&& after_adding::<E>(run, n).0 == run.at(RunPhase::ReadUsed)
            &&& after_adding::<E>(run, n).1 == RunStep::<E>::ReadUsedIndex
        },
    decreases n,
{
    if n > 0 {
        law_start_adds_every_listener::<E>(run, (n - 1) as nat);
    }
}

/// Every loop listens first to the receive queue, then to the transmit queue, then to each rate
/// limiter that there is, and to nothing else.
pub proof fn law_start_listeners(handler: NetEpollHandler)
    ensures
        ({
            let listeners = handler.start_listeners();
            let rx = handler.rx_rate_limiter;
            let tx = handler.tx_rate_limiter;
            &&& listeners.len() == 2 + (if rx is Some {
                1int
            } else {
                0int
            }) + (if tx is Some {
                1int
            } else {
                0int
            })
            &&& listeners[0] == (Listener { fd: handler.queue_evt_pair.0, event: RX_QUEUE_EVENT })
            &&& listeners[1] == (Listener { fd: handler.queue_evt_pair.1, event: TX_QUEUE_EVENT })
            &&& rx matches Some(fd) ==> listeners[2] == (Listener {
                fd,
                event: RX_RATE_LIMITER_EVENT,
            })
            &&& tx matches Some(fd) ==> listeners.last() == (Listener {
                fd,
                event: TX_RATE_LIMITER_EVENT,
            })
        }),
{
}

/// The first failure ends the start: one of adding a listener and one of reading an index are
/// told apart, and the handler stays as it was.
pub proof fn law_start_failure_ends<E>(run: NetRun, e: E)
    ensures
        run.phase is AddListener || run.phase is AddTap ==> {
            &&& run.expects(RunAnswer::Added(Err::<(), E>(e)))
            &&& run.on_answer(RunAnswer::Added(Err::<(), E>(e))) == (
                NetRun { phase: RunPhase::Over, ..run },
                RunStep::Failed(RunError::AddEvent(e)),
            )
        },
        run.phase is ReadUsed || run.phase is ReadAvail ==> {
            &&& run.expects(RunAnswer::Index(Err::<u16, E>(e)))
            &&& run.on_answer(RunAnswer::Index(Err::<u16, E>(e))) == (
                NetRun { phase: RunPhase::Over, ..run },
                RunStep::Failed(RunError::QueueRingIndex(e)),
            )
        },
{
}

/// The start takes every outcome of the operation that it waits for.
pub proof fn law_start_takes_outcomes<E>(run: NetRun, added: Result<(), E>, index: Result<u16, E>)
    ensures
        run.phase is AddListener || run.phase is AddTap ==> run.expects(RunAnswer::Added(added)),
        run.phase is ReadUsed || run.phase is ReadAvail ==> run.expects(RunAnswer::Index(index)),
{
}

/// The start and its step after every listener was added and the indexes of the receive queue
/// were read as `used` and `avail`, and after the tap was added where the step asks for it.
pub open spec fn started<E>(handler: NetEpollHandler, epoll_fd: i32, used: u16, avail: u16) -> (
    NetRun,
    RunStep<E>,
) {
    let run = NetRun { handler, epoll_fd, phase: RunPhase::AddListener(0) };
    let added = after_adding::<E>(run, handler.start_listeners().len()).0;
    let read = added.on_answer(RunAnswer::<E>::Index(Ok(used))).0;
    let known = read.on_answer(RunAnswer::<E>::Index(Ok(avail)));
    if known.1 is AddEvent {
        known.0.on_answer(RunAnswer::<E>::Added(Ok(())))
    } else {
        known
    }
}

/// Where every operation succeeds the loop runs. Its handler knows the epoll instance, and the
/// tap is listened to exactly if it was before or the ring indexes differ, however they
/// compare. Nothing else of the handler changes.
pub proof fn law_loop_starts<E>(handler: NetEpollHandler, epoll_fd: i32, used: u16, avail: u16)
    ensures
        started::<E>(handler, epoll_fd, used, avail).1 is Run,
        started::<E>(handler, epoll_fd, used, avail).0.handler == (NetEpollHandler {
            epoll_fd: Some(epoll_fd),
            rx_tap_listening: handler.rx_tap_listening || used != avail,
            ..handler
        }),
{
    let run = NetRun { handler, epoll_fd, phase: RunPhase::AddListener(0) };
    law_start_adds_every_listener::<E>(run, handler.start_listeners().len());
}

} // verus!
