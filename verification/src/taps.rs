//! Making taps from file descriptors, as decisions.
//!
//! [`TapSetup::begin`] names the first operation. Each operation's outcome goes to
//! [`TapSetup::resume`], which names the next one, until the taps are ready or an operation
//! has failed.

use vstd::prelude::*;

use crate::net::NetError;

verus! {

/// The operation whose outcome the setup waits for.
#[derive(Clone, Copy, Debug, PartialEq, Eq, Structural)]
pub enum TapPhase {
    /// Duplicating a file descriptor.
    Duplicate,
    /// Making a tap from a duplicate.
    Open,
    /// Setting the maximum transmission unit of the first tap.
    SetMtu,
    /// None: the taps are ready, or an operation has failed.
    Over,
}

/// An operation to perform, or the end of the setup.
#[derive(Debug)]
pub enum TapStep<E> {
    /// Duplicate the file descriptor.
    Duplicate(i32),
    /// Make a tap from the file descriptor, for a device with so many queue pairs.
    Open { fd: i32, num_queue_pairs: usize },
    /// Set the maximum transmission unit of the tap.
    SetMtu { tap: i32, mtu: i32 },
    /// The taps are ready.
    Ready,
    /// An operation has failed.
    Failed(NetError<E>),
}

/// The outcome of an operation.
#[derive(Debug)]
pub enum TapAnswer<E> {
    /// The duplicate, or a negative number and the reason.
    Duplicated { fd: i32, last_error: E },
    /// The tap.
    Opened(Result<i32, E>),
    /// The maximum transmission unit was set.
    MtuSet(Result<(), E>),
}

/// The making of one tap for each of `fds`, with the maximum transmission unit `mtu` if one
/// is wanted. `taps` are those made so far.
#[derive(Debug)]
pub struct TapSetup {
    pub fds: Vec<i32>,
    pub mtu: Option<u16>,
    pub taps: Vec<i32>,
    pub phase: TapPhase,
}

/// A [`TapSetup`] as a mathematical value.
pub struct TapSetupView {
    pub fds: Seq<i32>,
    pub mtu: Option<u16>,
    pub taps: Seq<i32>,
    pub phase: TapPhase,
}

impl View for TapSetup {
    type V = TapSetupView;

    open spec fn view(&self) -> TapSetupView {
        TapSetupView {
            fds: self.fds@,
            mtu: self.mtu,
            taps: self.taps@,
            phase: self.phase,
        }
    }
}

impl TapSetupView {
    /// There is a file descriptor left while one is duplicated or opened, and a tap once all
    /// of them are.
    pub open spec fn wf(self) -> bool {
        &&& self.fds.len() > 0
        &&& self.phase is Duplicate || self.phase is Open ==> self.taps.len() < self.fds.len()
        &&& self.phase is SetMtu ==> self.taps.len() == self.fds.len()
    }

    /// The setup, waiting for what `phase` says.
    pub open spec fn at(self, phase: TapPhase) -> Self {
        TapSetupView { phase, ..self }
    }

    /// Whether `answer` is an outcome of the operation that the setup waits for.
    pub open spec fn expects<E>(self, answer: TapAnswer<E>) -> bool {
        match self.phase {
            TapPhase::Duplicate => answer is Duplicated,
            TapPhase::Open => answer is Opened,
            TapPhase::SetMtu => answer is MtuSet,
            TapPhase::Over => false,
        }
    }

    /// The setup and the next step after `answer`.
    pub open spec fn on_answer<E>(self, answer: TapAnswer<E>) -> (Self, TapStep<E>) {
        match answer {
            TapAnswer::Duplicated { fd, last_error } => if fd < 0 {
                (self.at(TapPhase::Over), TapStep::Failed(NetError::DuplicateTapFd(last_error)))
            } else {
                (
                    self.at(TapPhase::Open),
                    TapStep::Open { fd, num_queue_pairs: self.fds.len() as usize },
                )
            },
            TapAnswer::Opened(Ok(tap)) => {
                let next = TapSetupView { taps: self.taps.push(tap), ..self };
                if next.taps.len() < self.fds.len() {
                    (
                        next.at(TapPhase::Duplicate),
                        TapStep::Duplicate(self.fds[next.taps.len() as int]),
                    )
                } else {
                    match self.mtu {
                        Some(mtu) => (
                            next.at(TapPhase::SetMtu),
                            TapStep::SetMtu { tap: next.taps[0], mtu: mtu as i32 },
                        ),
                        None => (next.at(TapPhase::Over), TapStep::Ready),
                    }
                }
            },
            TapAnswer::MtuSet(Ok(_)) => (self.at(TapPhase::Over), TapStep::Ready),
            TapAnswer::Opened(Err(e)) | TapAnswer::MtuSet(Err(e)) => (
                self.at(TapPhase::Over),
                TapStep::Failed(NetError::TapError(e)),
            ),
        }
    }
}

impl TapSetup {
    /// Begins to make taps from `fds`, and names the first operation: duplicating the first
    /// file descriptor, so that the taps do not depend on the given ones.
    pub fn begin<E>(fds: Vec<i32>, mtu: Option<u16>) -> (r: (Self, TapStep<E>))
        requires
            fds@.len() > 0,
        ensures
            r.0@.wf(),
            r.0@ == (TapSetupView {
                fds: fds@,
                mtu,
                taps: Seq::empty(),
                phase: TapPhase::Duplicate,
            }),
            r.1 == TapStep::<E>::Duplicate(fds@[0]),
    {
        let first: i32 = fds[0];
        (
            TapSetup { fds, mtu, taps: Vec::new(), phase: TapPhase::Duplicate },
            TapStep::Duplicate(first),
        )
    }

    fn end<E>(&mut self, step: TapStep<E>) -> (r: TapStep<E>)
        ensures
            (final(self)@, r) == (old(self)@.at(TapPhase::Over), step),
    {
        self.phase = TapPhase::Over;
        step
    }

    /// Takes the outcome of the operation that the last step named, and names the next one.
    pub fn resume<E>(&mut self, answer: TapAnswer<E>) -> (r: TapStep<E>)
        requires
            old(self)@.wf(),
            old(self)@.expects(answer),
        ensures
            final(self)@.wf(),
            (final(self)@, r) == old(self)@.on_answer(answer),
    {
        match answer {
            TapAnswer::Duplicated { fd, last_error } => if fd < 0 {
                self.end(TapStep::Failed(NetError::DuplicateTapFd(last_error)))
            } else {
                self.phase = TapPhase::Open;
                TapStep::Open { fd, num_queue_pairs: self.fds.len() }
            },
            TapAnswer::Opened(opened) => match opened {
                Ok(tap) => {
                    self.taps.push(tap);
                    if self.taps.len() < self.fds.len() {
                        self.phase = TapPhase::Duplicate;
                        TapStep::Duplicate(self.fds[self.taps.len()])
                    } else {
                        match self.mtu {
                            Some(mtu) => {
                                self.phase = TapPhase::SetMtu;
                                TapStep::SetMtu { tap: self.taps[0], mtu: mtu as i32 }
                            },
                            None => self.end(TapStep::Ready),
                        }
                    }
                },
                Err(e) => self.end(TapStep::Failed(NetError::TapError(e))),
            },
            TapAnswer::MtuSet(set) => match set {
                Ok(_) => self.end(TapStep::Ready),
                Err(e) => self.end(TapStep::Failed(NetError::TapError(e))),
            },
        }
    }
}

/// The setup after the duplicates of the first `taps.len()` file descriptors were opened as
/// `taps`, and the step that it then names.
pub open spec fn after_opening<E>(
    setup: TapSetupView,
    duplicates: Seq<i32>,
    taps: Seq<i32>,
    error: E,
) -> (TapSetupView, TapStep<E>)
    decreases taps.len(),
{
    if taps.len() == 0 {
        (setup, TapStep::Duplicate(setup.fds[0]))
    } else {
        let n = taps.len() - 1;
        let before = after_opening(setup, duplicates, taps.drop_last(), error);
        let duplicated = before.0.on_answer(
            TapAnswer::Duplicated { fd: duplicates[n], last_error: error },
        );
        duplicated.0.on_answer(TapAnswer::<E>::Opened(Ok(taps[n])))
    }
}

/// Where every operation succeeds, the setup makes one tap for each file descriptor, in
/// their order, and then sets the maximum transmission unit of the first tap if one is
/// wanted.
pub proof fn law_one_tap_per_fd<E>(
    setup: TapSetupView,
    duplicates: Seq<i32>,
    taps: Seq<i32>,
    error: E,
)
    requires
        setup.fds.len() > 0,
        setup.phase is Duplicate,
        setup.taps.len() == 0,
        taps.len() <= setup.fds.len(),
        taps.len() <= duplicates.len(),
        forall|i: int| 0 <= i < duplicates.len() ==> duplicates[i] >= 0,
    ensures
        ({
            let (next, step) = after_opening(setup, duplicates, taps, error);
            &&& next.fds == setup.fds
            &&& next.mtu == setup.mtu
            &&& next.taps == taps
            &&& taps.len() < setup.fds.len() ==> next.phase is Duplicate && step
                == TapStep::<E>::Duplicate(setup.fds[taps.len() as int])
            &&& taps.len() == setup.fds.len() ==> match setup.mtu {
                Some(mtu) => {
                    &&& step == (TapStep::<E>::SetMtu { tap: taps[0], mtu: mtu as i32 })
                    &&& next.on_answer(TapAnswer::<E>::MtuSet(Ok(()))).1 == TapStep::<E>::Ready
                },
                None => step == TapStep::<E>::Ready,
            }
        }),
    decreases taps.len(),
{
    if taps.len() > 0 {
        law_one_tap_per_fd(setup, duplicates, taps.drop_last(), error);
        assert(taps.drop_last().push(taps.last()) =~= taps);
    } else {
        assert(setup.taps =~= taps);
    }
}

/// Each outcome leads on as it should: a duplicate is opened as a tap for as many queue pairs as
/// there are file descriptors, and what fails first ends the setup with its error. No other
/// tap is then made.
pub proof fn law_tap_outcomes<E>(setup: TapSetupView, fd: i32, e: E)
    requires
        setup.fds.len() <= usize::MAX,
    ensures
        setup.phase is Duplicate ==> {
            let answer = TapAnswer::Duplicated { fd, last_error: e };
            let (next, step) = setup.on_answer(answer);
            &&& setup.expects(answer)
            &&& next.fds == setup.fds && next.mtu == setup.mtu && next.taps == setup.taps
            &&& fd < 0 <==> step == TapStep::Failed(NetError::DuplicateTapFd(e))
            &&& fd < 0 <==> next.phase is Over
            &&& fd >= 0 ==> next.phase is Open && (step matches TapStep::Open {
                fd: opened,
                num_queue_pairs,
            } && opened == fd && num_queue_pairs == setup.fds.len())
        },
        setup.phase is Open ==> {
            let answer = TapAnswer::Opened(Err::<i32, E>(e));
            &&& setup.expects(answer)
            &&& setup.on_answer(answer) == (
                TapSetupView { phase: TapPhase::Over, ..setup },
                TapStep::Failed(NetError::TapError(e)),
            )
        },
        setup.phase is SetMtu ==> {
            let answer = TapAnswer::MtuSet(Err::<(), E>(e));
            &&& setup.expects(answer)
            &&& setup.on_answer(answer) == (
                TapSetupView { phase: TapPhase::Over, ..setup },
                TapStep::Failed(NetError::TapError(e)),
            )
        },
        setup.phase is SetMtu ==> setup.on_answer(TapAnswer::<E>::MtuSet(Ok(()))) == (
            TapSetupView { phase: TapPhase::Over, ..setup },
            TapStep::<E>::Ready,
        ),
{
}

} // verus!
