//! The activation of a device, as decisions.
//!
//! [`Net::activate`] deals with the queues of an activated device and names the first
//! operation. Each operation's outcome goes to [`Activation::resume`], which names the next
//! one, until the step is [`ActivateStep::Done`].

use vstd::prelude::*;

use crate::features::{VIRTIO_NET_F_CTRL_VQ, VIRTIO_RING_F_EVENT_IDX};
use crate::net::Net;

verus! {

/// The operation whose outcome the activation waits for.
#[derive(Clone, Copy, Debug, PartialEq, Eq, Structural)]
pub enum ActivatePhase {
    /// Spawning the thread of the control queue.
    SpawnCtrl,
    /// Creating the receive rate limiter of a queue pair.
    CreateRxLimiter,
    /// Creating the transmit rate limiter of a queue pair.
    CreateTxLimiter,
    /// Programming the offloads of a queue pair's tap.
    SetOffload,
    /// Spawning the thread of a queue pair.
    SpawnPair,
    /// None: the device is active, or an operation has failed.
    Over,
}

/// An operation to perform, or the end of the activation. `Q` is a queue.
#[derive(Debug)]
pub enum ActivateStep<Q, E> {
    /// Spawn the thread of the control queue.
    SpawnCtrl { queue: Q, queue_index: u16, event_idx: bool },
    /// Create the receive rate limiter of the queue pair.
    CreateRxRateLimiter { pair: usize },
    /// Create the transmit rate limiter of the queue pair.
    CreateTxRateLimiter { pair: usize },
    /// Program the offloads of the tap for the acknowledged features.
    SetOffload { tap: i32, features: u64 },
    /// Spawn the thread of the queue pair.
    SpawnQueuePair {
        pair: usize,
        rx_queue: Q,
        tx_queue: Q,
        tap: i32,
        queue_index_base: u16,
        event_idx: bool,
    },
    /// The activation is over, with this result.
    Done(Result<(), ActivateError<E>>),
}

/// The outcome of an operation.
#[derive(Debug)]
pub enum ActivateAnswer<E> {
    /// A thread was spawned.
    Spawned(Result<(), E>),
    /// A rate limiter was created.
    LimiterCreated(Result<(), E>),
    /// The offloads were programmed.
    OffloadSet(Result<(), E>),
}

/// Failures of activating a device.
#[derive(Debug)]
pub enum ActivateError<E> {
    /// What virtio devices have in common could not be activated.
    Common(E),
    /// A rate limiter could not be created.
    CreateRateLimiter(E),
    /// The offloads of a tap could not be programmed.
    BadActivate,
    /// A thread could not be spawned.
    SpawnThread(E),
}

/// The activation of a device. `queues` are those that no thread serves yet; those of queue
/// pair `pair` come first.
#[derive(Debug)]
pub struct Activation<Q> {
    pub taps: Vec<i32>,
    pub acked_features: u64,
    pub event_idx: bool,
    pub rate_limited: bool,
    pub queues: Vec<Q>,
    pub pair: usize,
    pub num_pairs: usize,
    pub phase: ActivatePhase,
}

/// An [`Activation`] as a mathematical value.
pub struct ActivationView<Q> {
    pub taps: Seq<i32>,
    pub acked_features: u64,
    pub event_idx: bool,
    pub rate_limited: bool,
    pub queues: Seq<Q>,
    pub pair: usize,
    pub num_pairs: usize,
    pub phase: ActivatePhase,
}

impl<Q> View for Activation<Q> {
    type V = ActivationView<Q>;

    open spec fn view(&self) -> ActivationView<Q> {
        ActivationView {
            taps: self.taps@,
            acked_features: self.acked_features,
            event_idx: self.event_idx,
            rate_limited: self.rate_limited,
            queues: self.queues@,
            pair: self.pair,
            num_pairs: self.num_pairs,
            phase: self.phase,
        }
    }
}

impl<Q> ActivationView<Q> {
    /// Two queues are left for each queue pair that is still to be served, and there is one
    /// while a rate limiter is created for it or its tap is programmed.
    pub open spec fn wf(self) -> bool {
        &&& self.pair <= self.num_pairs <= usize::MAX / 2
        &&& self.queues.len() / 2 == self.num_pairs - self.pair
        &&& self.phase is CreateRxLimiter || self.phase is CreateTxLimiter || self.phase
            is SetOffload ==> self.pair < self.num_pairs
        &&& self.phase is SetOffload ==> self.pair < self.taps.len()
    }

    /// The activation, waiting for what `phase` says.
    pub open spec fn at(self, phase: ActivatePhase) -> Self {
        ActivationView { phase, ..self }
    }

    /// The activation and the step after `result` ended it.
    pub open spec fn done<E>(self, result: Result<(), ActivateError<E>>) -> (
        Self,
        ActivateStep<Q, E>,
    ) {
        (self.at(ActivatePhase::Over), ActivateStep::Done(result))
    }

    /// The activation and the step that programs the offloads of the next queue pair's tap.
    pub open spec fn set_offload<E>(self) -> (Self, ActivateStep<Q, E>) {
        (
            self.at(ActivatePhase::SetOffload),
            ActivateStep::SetOffload {
                tap: self.taps[self.pair as int],
                features: self.acked_features,
            },
        )
    }

    /// The activation and the step that begins with the next queue pair, if there is one.
    pub open spec fn next_pair<E>(self) -> (Self, ActivateStep<Q, E>) {
        if self.pair >= self.num_pairs {
            self.done(Ok(()))
        } else if self.rate_limited {
            (
                self.at(ActivatePhase::CreateRxLimiter),
                ActivateStep::CreateRxRateLimiter { pair: self.pair },
            )
        } else {
            self.set_offload()
        }
    }

    /// Whether `answer` is an outcome of the operation that the activation waits for.
    pub open spec fn expects<E>(self, answer: ActivateAnswer<E>) -> bool {
        match self.phase {
            ActivatePhase::SpawnCtrl | ActivatePhase::SpawnPair => answer is Spawned,
            ActivatePhase::CreateRxLimiter | ActivatePhase::CreateTxLimiter => {
                answer is LimiterCreated
            },
            ActivatePhase::SetOffload => answer is OffloadSet,
            ActivatePhase::Over => false,
        }
    }

    /// The activation and the next step after `answer`. The first failure ends it.
    pub open spec fn on_answer<E>(self, answer: ActivateAnswer<E>) -> (Self, ActivateStep<Q, E>) {
        match answer {
            ActivateAnswer::Spawned(Ok(_)) => self.next_pair(),
            ActivateAnswer::Spawned(Err(e)) => self.done(Err(ActivateError::SpawnThread(e))),
            ActivateAnswer::LimiterCreated(Ok(_)) => if self.phase is CreateRxLimiter {
                (
                    self.at(ActivatePhase::CreateTxLimiter),
                    ActivateStep::CreateTxRateLimiter { pair: self.pair },
                )
            } else {
                self.set_offload()
            },
            ActivateAnswer::LimiterCreated(Err(e)) => {
                self.done(Err(ActivateError::CreateRateLimiter(e)))
            },
            ActivateAnswer::OffloadSet(Ok(_)) => (
                ActivationView {
                    queues: self.queues.skip(2),
                    pair: (self.pair + 1) as usize,
                    phase: ActivatePhase::SpawnPair,
                    ..self
                },
                ActivateStep::SpawnQueuePair {
                    pair: self.pair,
                    rx_queue: self.queues[0],
                    tx_queue: self.queues[1],
                    tap: self.taps[self.pair as int],
                    queue_index_base: (2 * self.pair as int % 0x1_0000) as u16,
                    event_idx: self.event_idx,
                },
            ),
            ActivateAnswer::OffloadSet(Err(_)) => self.done(Err(ActivateError::BadActivate)),
        }
    }
}

impl<Q> Activation<Q> {
    fn end<E>(&mut self, result: Result<(), ActivateError<E>>) -> (r: ActivateStep<Q, E>)
        ensures
            (final(self)@, r) == old(self)@.done::<E>(result),
    {
        self.phase = ActivatePhase::Over;
        ActivateStep::Done(result)
    }

    fn program_tap<E>(&mut self) -> (r: ActivateStep<Q, E>)
        requires
            old(self)@.pair < old(self)@.taps.len(),
        ensures
            (final(self)@, r) == old(self)@.set_offload::<E>(),
    {
        self.phase = ActivatePhase::SetOffload;
        ActivateStep::SetOffload { tap: self.taps[self.pair], features: self.acked_features }
    }

    fn begin_pair<E>(&mut self) -> (r: ActivateStep<Q, E>)
        requires
            old(self)@.wf(),
            old(self)@.next_pair::<E>().1 is SetOffload ==> old(self)@.pair < old(self)@.taps.len(),
        ensures
            final(self)@.wf(),
            (final(self)@, r) == old(self)@.next_pair::<E>(),
    {
        if self.pair >= self.num_pairs {
            self.end(Ok(()))
        } else if self.rate_limited {
            self.phase = ActivatePhase::CreateRxLimiter;
            ActivateStep::CreateRxRateLimiter { pair: self.pair }
        } else {
            self.program_tap()
        }
    }

    /// Takes the outcome of the operation that the last step named, and names the next one.
    /// A queue pair whose turn comes needs a tap.
    pub fn resume<E>(&mut self, answer: ActivateAnswer<E>) -> (r: ActivateStep<Q, E>)
        requires
            old(self)@.wf(),
            old(self)@.expects(answer),
            old(self)@.on_answer(answer).1 is SetOffload ==> old(self)@.pair
                < old(self)@.taps.len(),
        ensures
            final(self)@.wf(),
            (final(self)@, r) == old(self)@.on_answer(answer),
    {
        match answer {
            ActivateAnswer::Spawned(spawned) => match spawned {
                Ok(_) => self.begin_pair(),
                Err(e) => self.end(Err(ActivateError::SpawnThread(e))),
            },
            ActivateAnswer::LimiterCreated(created) => match created {
                Ok(_) => if self.phase == ActivatePhase::CreateRxLimiter {
                    self.phase = ActivatePhase::CreateTxLimiter;
                    ActivateStep::CreateTxRateLimiter { pair: self.pair }
                } else {
                    self.program_tap()
                },
                Err(e) => self.end(Err(ActivateError::CreateRateLimiter(e))),
            },
            ActivateAnswer::OffloadSet(set) => match set {
                Ok(_) => {
                    let pair: usize = self.pair;
                    let rx_queue = self.queues.remove(0);
                    let tx_queue = self.queues.remove(0);
                    assert(self.queues@ =~= old(self)@.queues.skip(2));
                    self.pair = pair + 1;
                    self.phase = ActivatePhase::SpawnPair;
                    let first: u64 = (pair * 2) as u64;
                    assert(first as u16 == first % 0x1_0000) by (bit_vector);
                    ActivateStep::SpawnQueuePair {
                        pair,
                        rx_queue,
                        tx_queue,
                        tap: self.taps[pair],
                        queue_index_base: #[verifier::truncate]
                        (first as u16),
                        event_idx: self.event_idx,
                    }
                },
                Err(_) => self.end(Err(ActivateError::BadActivate)),
            },
        }
    }
}

/// Whether the last of `num_queues` queues is the control queue: the guest has acknowledged
/// that there is one, and it makes the number of queues odd.
pub open spec fn has_ctrl_queue(net: Net, num_queues: nat) -> bool {
    net.common.acked(VIRTIO_NET_F_CTRL_VQ) && num_queues % 2 == 1
}

/// How many threads serve the queues: one for each queue pair, and one for the control queue.
pub open spec fn queue_threads(net: Net, num_queues: nat) -> nat {
    num_queues / 2 + if has_ctrl_queue(net, num_queues) {
        1nat
    } else {
        0nat
    }
}

/// The activation of `net` with these queues, before any of them is served.
pub open spec fn activation_of<Q>(net: Net, queues: Seq<Q>, rate_limited: bool) -> ActivationView<
    Q,
> {
    ActivationView {
        taps: net.taps@,
        acked_features: net.common.acked_features,
        event_idx: net.common.acked(VIRTIO_RING_F_EVENT_IDX),
        rate_limited,
        queues: if has_ctrl_queue(net, queues.len()) {
            queues.drop_last()
        } else {
            queues
        },
        pair: 0,
        num_pairs: (queues.len() / 2) as usize,
        phase: ActivatePhase::Over,
    }
}

/// The activation of `net` with these queues and its first step: the control queue comes
/// first, then the queue pairs.
pub open spec fn first_step<Q, E>(net: Net, queues: Seq<Q>, rate_limited: bool) -> (
    ActivationView<Q>,
    ActivateStep<Q, E>,
) {
    let activation = activation_of(net, queues, rate_limited);
    if has_ctrl_queue(net, queues.len()) {
        (
            activation.at(ActivatePhase::SpawnCtrl),
            ActivateStep::SpawnCtrl {
                queue: queues.last(),
                queue_index: ((queues.len() - 1) % 0x1_0000) as u16,
                event_idx: activation.event_idx,
            },
        )
    } else {
        activation.next_pair()
    }
}

impl Net {
    /// Begins to activate the device with these queues, once what it has in common with
    /// other devices was activated or has failed to be, and names the first operation.
    /// `rate_limited` says whether the queue pairs get rate limiters. All threads that will
    /// serve the queues meet with the caller's when the device is paused.
    pub fn activate<Q, E>(
        &mut self,
        common: Result<(), E>,
        queues: Vec<Q>,
        rate_limited: bool,
    ) -> (r: Result<(Activation<Q>, ActivateStep<Q, E>), ActivateError<E>>)
        requires
            common is Ok && first_step::<Q, E>(*old(self), queues@, rate_limited).1 is SetOffload
                ==> old(self).taps@.len() > 0,
        ensures
            match common {
                Err(e) => {
                    &&& r == Err::<(Activation<Q>, ActivateStep<Q, E>), ActivateError<E>>(
                        ActivateError::Common(e),
                    )
                    &&& *final(self) == *old(self)
                },
                Ok(_) => {
                    &&& r matches Ok((activation, step))
                    &&& activation@.wf()
                    &&& (activation@, step) == first_step::<Q, E>(
                        *old(self),
                        queues@,
                        rate_limited,
                    )
                    &&& final(self).common.paused_sync == Some(
                        (1 + queue_threads(*old(self), queues@.len())) as usize,
                    )
                    &&& final(self).common.interrupt_cb
                    &&& final(self).common == (crate::net::VirtioCommon {
                        paused_sync: final(self).common.paused_sync,
                        interrupt_cb: true,
                        ..old(self).common
                    })
                    &&& *final(self) == (Net { common: final(self).common, ..*old(self) })
                },
            },
    {
        match common {
            Err(e) => Err(ActivateError::Common(e)),
            Ok(_) => {
                let mut queues = queues;
                let num_queues: usize = queues.len();
                let event_idx: bool = self.common.feature_acked(VIRTIO_RING_F_EVENT_IDX);
                let has_ctrl: bool = self.common.feature_acked(VIRTIO_NET_F_CTRL_VQ) && num_queues
                    % 2 != 0;
                let ctrl_threads: usize = if has_ctrl {
                    1
                } else {
                    0
                };
                let qp_threads: usize = (num_queues - ctrl_threads) / 2;
                let ghost all = queues@;
                let ctrl_queue: Option<Q> = if has_ctrl {
                    queues.pop()
                } else {
                    None
                };
                let taps: Vec<i32> = self.taps.clone();
                assert(taps@ =~= self.taps@);
                self.common.paused_sync = Some(1 + qp_threads + ctrl_threads);
                self.common.interrupt_cb = true;
                let mut activation = Activation {
                    taps,
                    acked_features: self.common.acked_features,
                    event_idx,
                    rate_limited,
                    queues,
                    pair: 0,
                    num_pairs: qp_threads,
                    phase: ActivatePhase::Over,
                };
                assert(activation@ == activation_of(*old(self), all, rate_limited));
                match ctrl_queue {
                    Some(queue) => {
                        activation.phase = ActivatePhase::SpawnCtrl;
                        let index: u64 = (num_queues - 1) as u64;
                        assert(index as u16 == index % 0x1_0000) by (bit_vector);
                        let step = ActivateStep::SpawnCtrl {
                            queue,
                            queue_index: #[verifier::truncate]
                            (index as u16),
                            event_idx,
                        };
                        Ok((activation, step))
                    },
                    None => {
                        let step = activation.begin_pair();
                        Ok((activation, step))
                    },
                }
            },
        }
    }
}

/// The activation and the step that spawns the next queue pair's thread, where everything
/// that comes before it for that queue pair succeeds.
pub open spec fn serve_pair<Q, E>(activation: ActivationView<Q>) -> (
    ActivationView<Q>,
    ActivateStep<Q, E>,
) {
    let begun = activation.next_pair::<E>();
    let ready = if activation.rate_limited {
        begun.0.on_answer(ActivateAnswer::<E>::LimiterCreated(Ok(()))).0.on_answer(
            ActivateAnswer::<E>::LimiterCreated(Ok(())),
        )
    } else {
        begun
    };
    ready.0.on_answer(ActivateAnswer::<E>::OffloadSet(Ok(())))
}

/// The activation once the threads of `n` more queue pairs were spawned.
pub open spec fn after_pairs<Q, E>(activation: ActivationView<Q>, n: nat) -> ActivationView<Q>
    decreases n,
{
    if n == 0 {
        activation
    } else {
        serve_pair::<Q, E>(after_pairs::<Q, E>(activation, (n - 1) as nat)).0
    }
}

/// Where every operation succeeds, queue pair `n` gets the queues `2 * n` and `2 * n + 1`
/// and the tap `n`, and once every queue pair has its thread the activation is over.
pub proof fn law_pairs_get_their_queues<Q, E>(activation: ActivationView<Q>, n: nat)
    requires
        activation.wf(),
        activation.pair == 0,
        n <= activation.num_pairs,
    ensures
        ({
            let before = after_pairs::<Q, E>(activation, n);
            &&& before == (ActivationView {
                queues: activation.queues.skip(2 * n as int),
                pair: n as usize,
                phase: before.phase,
                ..activation
            })
            &&& n < activation.num_pairs ==> serve_pair::<Q, E>(before).1 == (
            ActivateStep::<Q, E>::SpawnQueuePair {
                pair: n as usize,
                rx_queue: activation.queues[2 * n as int],
                tx_queue: activation.queues[2 * n as int + 1],
                tap: activation.taps[n as int],
                queue_index_base: (2 * n as int % 0x1_0000) as u16,
                event_idx: activation.event_idx,
            })
            &&& n == activation.num_pairs ==> before.next_pair::<E>().1 == ActivateStep::<
                Q,
                E,
            >::Done(Ok(()))
        }),
    decreases n,
{
    if n > 0 {
        law_pairs_get_their_queues::<Q, E>(activation, (n - 1) as nat);
        assert(activation.queues.skip(2 * (n - 1)).skip(2) =~= activation.queues.skip(
            2 * n as int,
        ));
    } else {
        assert(activation.queues.skip(0) =~= activation.queues);
    }
}

/// The threads that meet when the device is paused are those that the activation spawns: one
/// for each queue pair, and one for the control queue where the first step spawns it. The
/// queue pairs get the first queues, in their order.
pub proof fn law_spawned_threads_meet<Q, E>(net: Net, queues: Seq<Q>, rate_limited: bool)
    requires
        queues.len() <= usize::MAX,
        first_step::<Q, E>(net, queues, rate_limited).1 is SetOffload ==> net.taps@.len() > 0,
    ensures
        ({
            let (activation, step) = first_step::<Q, E>(net, queues, rate_limited);
            &&& activation.wf()
            &&& activation.pair == 0
            &&& queue_threads(net, queues.len()) == activation.num_pairs + if step is SpawnCtrl {
                1int
            } else {
                0int
            }
            &&& forall|i: int|
                0 <= i < 2 * activation.num_pairs ==> #[trigger] activation.queues[i] == queues[i]
        }),
{
}

/// A queue pair is given an even queue index to start at, as its handler needs it.
pub proof fn law_pairs_start_even<Q, E>(activation: ActivationView<Q>, answer: ActivateAnswer<E>)
    ensures
        activation.on_answer(answer).1 matches ActivateStep::SpawnQueuePair {
            queue_index_base,
            ..
        } ==> queue_index_base % 2 == 0,
{
}

/// The outcome of a step that succeeds.
pub open spec fn success<Q, E>(step: ActivateStep<Q, E>) -> ActivateAnswer<E> {
    match step {
        ActivateStep::CreateRxRateLimiter { .. } | ActivateStep::CreateTxRateLimiter { .. } => {
            ActivateAnswer::LimiterCreated(Ok(()))
        },
        ActivateStep::SetOffload { .. } => ActivateAnswer::OffloadSet(Ok(())),
        _ => ActivateAnswer::Spawned(Ok(())),
    }
}

/// The activation of `net` with these queues and the step that it names after `n` operations,
/// where each of them succeeds. An activation that does not take an answer stays.
pub open spec fn after_operations<Q, E>(
    net: Net,
    queues: Seq<Q>,
    rate_limited: bool,
    n: nat,
) -> (ActivationView<Q>, ActivateStep<Q, E>)
    decreases n,
{
    if n == 0 {
        first_step(net, queues, rate_limited)
    } else {
        let (activation, step) = after_operations::<Q, E>(
            net,
            queues,
            rate_limited,
            (n - 1) as nat,
        );
        if activation.expects(success(step)) {
            activation.on_answer(success(step))
        } else {
            (activation, step)
        }
    }
}

/// How many operations of an activation precede those of queue pair `n`: one for the control
/// queue where it is the last of an odd number and acknowledged, and for each earlier queue
/// pair the programming of its tap and its thread, and two rate limiters if they are wanted.
pub open spec fn operations_before(net: Net, num_queues: nat, rate_limited: bool, n: nat) -> nat {
    (if net.common.acked_features & (1u64 << VIRTIO_NET_F_CTRL_VQ) != 0 && num_queues % 2 == 1 {
        1nat
    } else {
        0nat
    }) + if rate_limited {
        4 * n
    } else {
        2 * n
    }
}

/// The operations of one queue pair, from the activation `at` on whose turn it is, which comes
/// after `k` operations.
proof fn lemma_pair_served<Q, E>(
    net: Net,
    queues: Seq<Q>,
    rate_limited: bool,
    k: nat,
    at: ActivationView<Q>,
)
    requires
        after_operations::<Q, E>(net, queues, rate_limited, k) == at.next_pair::<E>(),
        at.rate_limited == rate_limited,
        at.pair < at.num_pairs,
    ensures
        ({
            let step = |i: nat| after_operations::<Q, E>(net, queues, rate_limited, i).1;
            let spawn = ActivateStep::<Q, E>::SpawnQueuePair {
                pair: at.pair,
                rx_queue: at.queues[0],
                tx_queue: at.queues[1],
                tap: at.taps[at.pair as int],
                queue_index_base: (2 * at.pair as int % 0x1_0000) as u16,
                event_idx: at.event_idx,
            };
            let offload = ActivateStep::<Q, E>::SetOffload {
                tap: at.taps[at.pair as int],
                features: at.acked_features,
            };
            let next = ActivationView {
                queues: at.queues.skip(2),
                pair: (at.pair + 1) as usize,
                ..at
            };
            &&& rate_limited ==> {
                &&& step(k) == (ActivateStep::<Q, E>::CreateRxRateLimiter { pair: at.pair })
                &&& step(k + 1) == (ActivateStep::<Q, E>::CreateTxRateLimiter { pair: at.pair })
                &&& step(k + 2) == offload
                &&& step(k + 3) == spawn
                &&& after_operations::<Q, E>(net, queues, rate_limited, k + 4) == next.next_pair::<
                    E,
                >()
            }
            &&& !rate_limited ==> {
                &&& step(k) == offload
                &&& step(k + 1) == spawn
                &&& after_operations::<Q, E>(net, queues, rate_limited, k + 2) == next.next_pair::<
                    E,
                >()
            }
        }),
{
    let first = after_operations::<Q, E>(net, queues, rate_limited, k);
    let second = after_operations::<Q, E>(net, queues, rate_limited, k + 1);
    let third = after_operations::<Q, E>(net, queues, rate_limited, k + 2);
    assert(second == first.0.on_answer(success(first.1)));
    assert(third == second.0.on_answer(success(second.1)));
    if rate_limited {
        let fourth = after_operations::<Q, E>(net, queues, rate_limited, k + 3);
        let fifth = after_operations::<Q, E>(net, queues, rate_limited, k + 4);
        assert(fourth == third.0.on_answer(success(third.1)));
        assert(fifth == fourth.0.on_answer(success(fourth.1)));
    }
}

/// The state of an activation when the turn of queue pair `n` comes.
proof fn lemma_before_pair<Q, E>(net: Net, queues: Seq<Q>, rate_limited: bool, n: nat)
    requires
        queues.len() <= usize::MAX,
        n <= queues.len() / 2,
    ensures
        ({
            let start = activation_of(net, queues, rate_limited);
            let at = ActivationView {
                queues: start.queues.skip(2 * n as int),
                pair: n as usize,
                ..start
            };
            after_operations::<Q, E>(
                net,
                queues,
                rate_limited,
                operations_before(net, queues.len(), rate_limited, n),
            ) == at.next_pair::<E>()
        }),
    decreases n,
{
    let start = activation_of(net, queues, rate_limited);
    let before = operations_before(net, queues.len(), rate_limited, n);
    if n == 0 {
        assert(start.queues.skip(0) =~= start.queues);
        let first = after_operations::<Q, E>(net, queues, rate_limited, 0);
        assert(first == first_step::<Q, E>(net, queues, rate_limited));
        assert(ActivationView { queues: start.queues.skip(0), pair: 0, ..start } == start);
        if before == 1 {
            let second = after_operations::<Q, E>(net, queues, rate_limited, 1);
            assert(second == first.0.on_answer(success(first.1)));
        }
    } else {
        let m = (n - 1) as nat;
        lemma_before_pair::<Q, E>(net, queues, rate_limited, m);
        let at = ActivationView {
            queues: start.queues.skip(2 * m as int),
            pair: m as usize,
            ..start
        };
        assert(at.queues.skip(2) =~= start.queues.skip(2 * n as int));
        let earlier = operations_before(net, queues.len(), rate_limited, m);
        lemma_pair_served::<Q, E>(net, queues, rate_limited, earlier, at);
        assert(before == earlier + if rate_limited {
            4nat
        } else {
            2nat
        });
    }
}

/// What activating a device does where every operation succeeds, from its queues and taps. The
/// control queue, which is the last one where its number is odd and the guest knows of it, gets
/// its thread first. Then each queue pair `n` in turn gets two rate limiters if they are wanted,
/// whether or not there is a control queue, its tap is programmed for the acknowledged
/// features, and its thread gets the queues `2 * n` and `2 * n + 1` and the tap `n`. After
/// the last queue pair the activation is over.
pub proof fn law_activation_deals_queues<Q, E>(
    net: Net,
    queues: Seq<Q>,
    rate_limited: bool,
    n: nat,
)
    requires
        queues.len() <= usize::MAX,
        n <= queues.len() / 2,
    ensures
        ({
            let at = operations_before(net, queues.len(), rate_limited, n);
            let step = |i: nat| after_operations::<Q, E>(net, queues, rate_limited, i).1;
            let event_idx = net.common.acked_features & (1u64 << VIRTIO_RING_F_EVENT_IDX) != 0;
            let ctrl = net.common.acked_features & (1u64 << VIRTIO_NET_F_CTRL_VQ) != 0
                && queues.len() % 2 == 1;
            let tap = net.taps@[n as int];
            let offload = if rate_limited {
                at + 2
            } else {
                at
            };
            &&& step(0) is SpawnCtrl <==> ctrl
            &&& ctrl ==> step(0) == (ActivateStep::<Q, E>::SpawnCtrl {
                queue: queues.last(),
                queue_index: ((queues.len() - 1) % 0x1_0000) as u16,
                event_idx,
            })
            &&& n == queues.len() / 2 ==> step(at) == ActivateStep::<Q, E>::Done(Ok(()))
            &&& n < queues.len() / 2 && rate_limited ==> {
                &&& step(at) == (ActivateStep::<Q, E>::CreateRxRateLimiter { pair: n as usize })
                &&& step(at + 1) == (ActivateStep::<Q, E>::CreateTxRateLimiter {
                    pair: n as usize,
                })
            }
            &&& n < queues.len() / 2 ==> {
                &&& step(offload) == (ActivateStep::<Q, E>::SetOffload {
                    tap,
                    features: net.common.acked_features,
                })
                &&& step(offload + 1) == (ActivateStep::<Q, E>::SpawnQueuePair {
                    pair: n as usize,
                    rx_queue: queues[2 * n as int],
                    tx_queue: queues[2 * n as int + 1],
                    tap,
                    queue_index_base: (2 * n as int % 0x1_0000) as u16,
                    event_idx,
                })
            }
        }),
{
    lemma_before_pair::<Q, E>(net, queues, rate_limited, n);
    let at = operations_before(net, queues.len(), rate_limited, n);
    assert(after_operations::<Q, E>(net, queues, rate_limited, 0) == first_step::<Q, E>(
        net,
        queues,
        rate_limited,
    ));
    if n < queues.len() / 2 {
        let start = activation_of(net, queues, rate_limited);
        let turn = ActivationView {
            queues: start.queues.skip(2 * n as int),
            pair: n as usize,
            ..start
        };
        lemma_pair_served::<Q, E>(net, queues, rate_limited, at, turn);
    }
}

/// The activation that a device begins carries what it was begun with: the device's taps and
/// features, and whether there are to be rate limiters.
pub proof fn law_activation_keeps_its_inputs<Q, E>(net: Net, queues: Seq<Q>, rate_limited: bool)
    requires
        queues.len() <= usize::MAX,
    ensures
        ({
            let activation = first_step::<Q, E>(net, queues, rate_limited).0;
            &&& activation.rate_limited == rate_limited
            &&& activation.taps == net.taps@
            &&& activation.acked_features == net.common.acked_features
            &&& activation.num_pairs == queues.len() / 2
        }),
{
}

/// As many threads meet when the device is paused as there are queue pairs, and one more where
/// an odd number of queues ends with the control queue.
pub proof fn law_threads_counted(net: Net, num_queues: nat)
    ensures
        queue_threads(net, num_queues) == num_queues / 2 + if net.common.acked_features & (1u64
            << VIRTIO_NET_F_CTRL_VQ) != 0 && num_queues % 2 == 1 {
            1int
        } else {
            0int
        },
{
}

/// The first failure ends the activation with its error, at whatever queue pair it comes.
pub proof fn law_activation_failures<Q, E>(activation: ActivationView<Q>, e: E)
    ensures
        activation.on_answer(ActivateAnswer::Spawned(Err::<(), E>(e))).1 == ActivateStep::<
            Q,
            E,
        >::Done(Err(ActivateError::SpawnThread(e))),
        activation.on_answer(ActivateAnswer::LimiterCreated(Err::<(), E>(e))).1 == ActivateStep::<
            Q,
            E,
        >::Done(Err(ActivateError::CreateRateLimiter(e))),
        activation.on_answer(ActivateAnswer::OffloadSet(Err::<(), E>(e))).1 == ActivateStep::<
            Q,
            E,
        >::Done(Err(ActivateError::BadActivate)),
        activation.phase is SpawnCtrl || activation.phase is SpawnPair ==> activation.expects(
            ActivateAnswer::Spawned(Err::<(), E>(e)),
        ),
        activation.phase is CreateRxLimiter || activation.phase is CreateTxLimiter
            ==> activation.expects(ActivateAnswer::LimiterCreated(Err::<(), E>(e))),
        activation.phase is SetOffload ==> activation.expects(
            ActivateAnswer::OffloadSet(Err::<(), E>(e)),
        ),
{
}

} // verus!
