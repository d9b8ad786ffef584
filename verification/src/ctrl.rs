//! The event loop of the control queue, as decisions.
//!
//! An epoll event enters through [`NetCtrlEpollHandler::handle_event`], which names the first
//! operation to perform. Each operation's outcome goes to [`NetCtrlEpollHandler::resume`],
//! which names the next one, until the step is [`CtrlStep::Done`].

use vstd::prelude::*;

use crate::events::{event_type, DeviceError, Listener, CTRL_QUEUE_EVENT};

verus! {

/// The outside operation whose outcome the handler waits for.
#[derive(Clone, Copy, Debug, PartialEq, Eq, Structural)]
pub enum CtrlPhase {
    /// None: the next epoll event may be handled.
    Idle,
    /// Reading the queue's event.
    ReadEvent,
    /// Processing the queue.
    Process,
    /// Asking whether the guest wants to be told.
    QueryNotification,
    /// Signalling the queue.
    Signal,
}

/// An outside operation to perform, or the end of an event's handling.
#[derive(Debug)]
pub enum CtrlStep<E> {
    /// Read the queue's event.
    ReadQueueEvent,
    /// Process the queue.
    ProcessQueue,
    /// Ask the queue whether the guest wants to be told that it was used.
    QueryNotification,
    /// Tell the guest that the queue with this index was used.
    SignalUsedQueue(u16),
    /// The event is handled, with this result.
    Done(Result<(), CtrlEventError<E>>),
}

/// The outcome of an outside operation.
#[derive(Debug)]
pub enum CtrlAnswer<E> {
    /// The queue's event was read.
    EventRead(Result<(), E>),
    /// The queue was processed.
    Processed(Result<(), E>),
    /// Whether the guest wants to be told.
    NeedsNotification(Result<bool, E>),
    /// The guest was told.
    Signalled(Result<(), E>),
}

/// Failures of handling an event of the control queue.
#[derive(Debug)]
pub enum CtrlEventError<E> {
    /// The queue's event could not be read.
    GetEvent(E),
    /// The queue could not be processed.
    ProcessQueue(E),
    /// The guest could not be told that the queue was used.
    SignalQueue(DeviceError<E>),
    /// It is not known whether the guest wants to be told.
    NotificationState(E),
    /// The event is not the control queue's.
    UnknownEvent,
}

/// What the event loop of the control queue knows of it.
#[derive(Clone, Copy, Debug)]
pub struct NetCtrlEpollHandler {
    /// The event of the queue.
    pub queue_evt: i32,
    /// The index of the queue.
    pub queue_index: u16,
    /// What the handler waits for.
    pub phase: CtrlPhase,
}

impl NetCtrlEpollHandler {
    /// The handler, waiting for what `phase` says.
    pub open spec fn at(self, phase: CtrlPhase) -> Self {
        NetCtrlEpollHandler { phase, ..self }
    }

    /// The handler and the step after `result` ended the handling of an event.
    pub open spec fn done<E>(self, result: Result<(), CtrlEventError<E>>) -> (Self, CtrlStep<E>) {
        (self.at(CtrlPhase::Idle), CtrlStep::Done(result))
    }

    /// The handler and the first step for the event with number `event`.
    pub open spec fn on_event<E>(self, event: int) -> (Self, CtrlStep<E>) {
        if event == CTRL_QUEUE_EVENT {
            (self.at(CtrlPhase::ReadEvent), CtrlStep::ReadQueueEvent)
        } else {
            self.done(Err(CtrlEventError::UnknownEvent))
        }
    }

    /// Whether `answer` is an outcome of the operation that the handler waits for.
    pub open spec fn expects<E>(self, answer: CtrlAnswer<E>) -> bool {
        match self.phase {
            CtrlPhase::Idle => false,
            CtrlPhase::ReadEvent => answer is EventRead,
            CtrlPhase::Process => answer is Processed,
            CtrlPhase::QueryNotification => answer is NeedsNotification,
            CtrlPhase::Signal => answer is Signalled,
        }
    }

    /// The handler and the next step after `answer`: the event is read, the queue is
    /// processed, and the guest is told if it wants to be. The first failure ends this.
    pub open spec fn on_answer<E>(self, answer: CtrlAnswer<E>) -> (Self, CtrlStep<E>) {
        match answer {
            CtrlAnswer::EventRead(Ok(_)) => (self.at(CtrlPhase::Process), CtrlStep::ProcessQueue),
            CtrlAnswer::EventRead(Err(e)) => self.done(Err(CtrlEventError::GetEvent(e))),
            CtrlAnswer::Processed(Ok(_)) => (
                self.at(CtrlPhase::QueryNotification),
                CtrlStep::QueryNotification,
            ),
            CtrlAnswer::Processed(Err(e)) => self.done(Err(CtrlEventError::ProcessQueue(e))),
            CtrlAnswer::NeedsNotification(Ok(true)) => (
                self.at(CtrlPhase::Signal),
                CtrlStep::SignalUsedQueue(self.queue_index),
            ),
            CtrlAnswer::NeedsNotification(Ok(false)) => self.done(Ok(())),
            CtrlAnswer::NeedsNotification(Err(e)) => {
                self.done(Err(CtrlEventError::NotificationState(e)))
            },
            CtrlAnswer::Signalled(Ok(_)) => self.done(Ok(())),
            CtrlAnswer::Signalled(Err(e)) => self.done(
                Err(CtrlEventError::SignalQueue(DeviceError::FailedSignalingUsedQueue(e))),
            ),
        }
    }

    /// A handler for the control queue with the index `queue_index`.
    pub fn new(queue_evt: i32, queue_index: u16) -> (r: Self)
        ensures
            r == (NetCtrlEpollHandler { queue_evt, queue_index, phase: CtrlPhase::Idle }),
    {
        NetCtrlEpollHandler { queue_evt, queue_index, phase: CtrlPhase::Idle }
    }

    /// What the loop of the control queue listens to.
    pub fn run_ctrl(&self) -> (r: Listener)
        ensures
            r == (Listener { fd: self.queue_evt, event: CTRL_QUEUE_EVENT }),
    {
        Listener { fd: self.queue_evt, event: CTRL_QUEUE_EVENT }
    }

    fn finish<E>(&mut self, result: Result<(), CtrlEventError<E>>) -> (r: CtrlStep<E>)
        ensures
            (*final(self), r) == old(self).done::<E>(result),
    {
        self.phase = CtrlPhase::Idle;
        CtrlStep::Done(result)
    }

    /// Starts to handle an epoll event and names the first operation that this takes. `data`
    /// is the data of the event.
    pub fn handle_event<E>(&mut self, data: u64) -> (r: CtrlStep<E>)
        requires
            old(self).phase is Idle,
        ensures
            (*final(self), r) == old(self).on_event::<E>(crate::events::event_number(data)),
    {
        let ev_type: u16 = event_type(data);
        if ev_type == CTRL_QUEUE_EVENT {
            self.phase = CtrlPhase::ReadEvent;
            CtrlStep::ReadQueueEvent
        } else {
            self.finish(Err(CtrlEventError::UnknownEvent))
        }
    }

    /// Takes the outcome of the operation that the last step named, and names the next one.
    pub fn resume<E>(&mut self, answer: CtrlAnswer<E>) -> (r: CtrlStep<E>)
        requires
            old(self).expects(answer),
        ensures
            (*final(self), r) == old(self).on_answer(answer),
    {
        match answer {
            CtrlAnswer::EventRead(read) => match read {
                Ok(_) => {
                    self.phase = CtrlPhase::Process;
                    CtrlStep::ProcessQueue
                },
                Err(e) => self.finish(Err(CtrlEventError::GetEvent(e))),
            },
            CtrlAnswer::Processed(processed) => match processed {
                Ok(_) => {
                    self.phase = CtrlPhase::QueryNotification;
                    CtrlStep::QueryNotification
                },
                Err(e) => self.finish(Err(CtrlEventError::ProcessQueue(e))),
            },
            CtrlAnswer::NeedsNotification(needed) => match needed {
                Ok(true) => {
                    self.phase = CtrlPhase::Signal;
                    CtrlStep::SignalUsedQueue(self.queue_index)
                },
                Ok(false) => self.finish(Ok(())),
                Err(e) => self.finish(Err(CtrlEventError::NotificationState(e))),
            },
            CtrlAnswer::Signalled(signalled) => match signalled {
                Ok(_) => self.finish(Ok(())),
                Err(e) => self.finish(
                    Err(CtrlEventError::SignalQueue(DeviceError::FailedSignalingUsedQueue(e))),
                ),
            },
        }
    }
}

/// A control queue event whose operations all succeed reads the event, processes the queue
/// and asks whether the guest wants to be told; the guest is told exactly if it does. The
/// handler is then as it was.
pub proof fn law_ctrl_event_served<E>(handler: NetCtrlEpollHandler, notify: bool)
    requires
        handler.phase is Idle,
    ensures
        ({
            let started = handler.on_event::<E>(CTRL_QUEUE_EVENT as int);
            let read = started.0.on_answer(CtrlAnswer::<E>::EventRead(Ok(())));
            let processed = read.0.on_answer(CtrlAnswer::<E>::Processed(Ok(())));
            let asked = processed.0.on_answer(CtrlAnswer::<E>::NeedsNotification(Ok(notify)));
            let ended = if notify {
                asked.0.on_answer(CtrlAnswer::<E>::Signalled(Ok(())))
            } else {
                asked
            };
            &&& started.1 is ReadQueueEvent
            &&& read.1 is ProcessQueue
            &&& processed.1 is QueryNotification
            &&& notify <==> asked.1 == CtrlStep::<E>::SignalUsedQueue(handler.queue_index)
            &&& ended == (handler, CtrlStep::<E>::Done(Ok(())))
        }),
{
}

/// A failed operation ends the handling of a control queue event with an error, and the
/// handler is ready for the next event.
pub proof fn law_ctrl_failure_ends<E>(handler: NetCtrlEpollHandler, answer: CtrlAnswer<E>)
    requires
        handler.expects(answer),
        ({
            ||| answer matches CtrlAnswer::EventRead(Err(_))
            ||| answer matches CtrlAnswer::Processed(Err(_))
            ||| answer matches CtrlAnswer::NeedsNotification(Err(_))
            ||| answer matches CtrlAnswer::Signalled(Err(_))
        }),
    ensures
        handler.on_answer(answer).0 == handler.at(CtrlPhase::Idle),
        handler.on_answer(answer).1 matches CtrlStep::Done(Err(_)),
{
}

/// The outcomes that the outside operations have while a control queue event is handled.
#[verifier::reject_recursive_types(E)]
pub struct CtrlOutcomes<E> {
    /// Reading the queue's event.
    pub read: Result<(), E>,
    /// Processing the queue.
    pub processed: Result<(), E>,
    /// Asking whether the guest wants to be told.
    pub notify: Result<bool, E>,
    /// Telling the guest.
    pub signalled: Result<(), E>,
}

impl<E> CtrlOutcomes<E> {
    /// The answer to a step.
    pub open spec fn answer(self, step: CtrlStep<E>) -> CtrlAnswer<E> {
        match step {
            CtrlStep::ReadQueueEvent => CtrlAnswer::EventRead(self.read),
            CtrlStep::ProcessQueue => CtrlAnswer::Processed(self.processed),
            CtrlStep::QueryNotification => CtrlAnswer::NeedsNotification(self.notify),
            CtrlStep::SignalUsedQueue(_) | CtrlStep::Done(_) => {
                CtrlAnswer::Signalled(self.signalled)
            },
        }
    }
}

/// The handler after `step` and what follows it were performed with these outcomes, and the
/// steps that this took. At most `fuel` operations are performed, and only where the handler
/// takes their answers.
pub open spec fn perform<E>(
    handler: NetCtrlEpollHandler,
    step: CtrlStep<E>,
    outcomes: CtrlOutcomes<E>,
    fuel: nat,
) -> (NetCtrlEpollHandler, Seq<CtrlStep<E>>)
    decreases fuel,
{
    if step is Done || fuel == 0 || !handler.expects(outcomes.answer(step)) {
        (handler, seq![step])
    } else {
        let (next, following) = handler.on_answer(outcomes.answer(step));
        let rest = perform(next, following, outcomes, (fuel - 1) as nat);
        (rest.0, seq![step] + rest.1)
    }
}

/// The handling of a control queue event reads the event, processes the queue, asks whether the
/// guest wants to be told and tells it exactly if it does. What fails first ends this with
/// its error. Any other event is refused. The handler is as it was in the end.
pub proof fn law_ctrl_event_handled<E>(
    handler: NetCtrlEpollHandler,
    event: u16,
    outcomes: CtrlOutcomes<E>,
)
    requires
        handler.phase is Idle,
    ensures
        ({
            let (started, step) = handler.on_event::<E>(event as int);
            let (end, steps) = perform(started, step, outcomes, 5);
            let read = seq![CtrlStep::<E>::ReadQueueEvent];
            let processed = read.push(CtrlStep::ProcessQueue);
            let asked = processed.push(CtrlStep::QueryNotification);
            let told = asked.push(CtrlStep::SignalUsedQueue(handler.queue_index));
            &&& end == handler
            &&& event != CTRL_QUEUE_EVENT ==> steps == seq![
                CtrlStep::<E>::Done(Err(CtrlEventError::UnknownEvent)),
            ]
            &&& event == CTRL_QUEUE_EVENT ==> steps == match (
                outcomes.read,
                outcomes.processed,
                outcomes.notify,
                outcomes.signalled,
            ) {
                (Err(e), _, _, _) => read.push(CtrlStep::Done(Err(CtrlEventError::GetEvent(e)))),
                (_, Err(e), _, _) => processed.push(
                    CtrlStep::Done(Err(CtrlEventError::ProcessQueue(e))),
                ),
                (_, _, Err(e), _) => asked.push(
                    CtrlStep::Done(Err(CtrlEventError::NotificationState(e))),
                ),
                (_, _, Ok(false), _) => asked.push(CtrlStep::Done(Ok(()))),
                (_, _, Ok(true), Ok(_)) => told.push(CtrlStep::Done(Ok(()))),
                (_, _, Ok(true), Err(e)) => told.push(
                    CtrlStep::Done(
                        Err(CtrlEventError::SignalQueue(DeviceError::FailedSignalingUsedQueue(e))),
                    ),
                ),
            }
        }),
{
    reveal_with_fuel(perform, 6);
}

} // verus!
