use virtio_net_migration::ctrl::{
    CtrlAnswer, CtrlEventError, CtrlStep, NetCtrlEpollHandler,
};
use virtio_net_migration::events::{
    event_type, DeviceError, Listener, CTRL_QUEUE_EVENT, RX_QUEUE_EVENT, RX_RATE_LIMITER_EVENT,
    RX_TAP_EVENT, TX_QUEUE_EVENT, TX_RATE_LIMITER_EVENT, TX_TAP_EVENT,
};
use virtio_net_migration::handler::{
    HandleEventError, NetAnswer, NetEpollHandler, NetStep, Phase,
};
use virtio_net_migration::run::{NetRun, RunAnswer, RunError, RunStep};

type Step = NetStep<&'static str>;
type Answer = NetAnswer<&'static str>;

fn handler(rx_limiter: Option<i32>, tx_limiter: Option<i32>) -> NetEpollHandler {
    let mut handler = NetEpollHandler::new(4, (30, 31), 32, rx_limiter, tx_limiter);
    handler.epoll_fd = Some(99);
    handler
}

fn processed(signal: Result<bool, &'static str>) -> Answer {
    NetAnswer::Processed { signal, rx_tap_listening: true, rx_desc_avail: true }
}

#[test]
fn events_follow_the_helpers() {
    assert_eq!(CTRL_QUEUE_EVENT, 16);
    assert_eq!(RX_QUEUE_EVENT, 16);
    assert_eq!(TX_QUEUE_EVENT, 17);
    assert_eq!(RX_TAP_EVENT, 18);
    assert_eq!(TX_TAP_EVENT, 19);
    assert_eq!(RX_RATE_LIMITER_EVENT, 20);
    assert_eq!(TX_RATE_LIMITER_EVENT, 21);
}

#[test]
fn event_number_is_the_low_half_word() {
    assert_eq!(event_type(0x1_0012), 0x12);
    assert_eq!(event_type(u64::MAX), 0xffff);
    assert_eq!(event_type(7), 7);
}

#[test]
fn rx_event_registers_tap() {
    let mut h = handler(None, None);
    assert!(matches!(h.handle_event(16), Step::ReadRxQueueEvent));
    // A failed read of the event is no reason to stop.
    let step: Step = h.resume(NetAnswer::EventRead(Err("eventfd")));
    assert!(matches!(step, NetStep::RegisterListener { epoll_fd: 99, fd: 32, data: 18 }));
    assert!(h.rx_desc_avail);
    assert!(!h.rx_tap_listening);
    let step: Step = h.resume(NetAnswer::Registered(Ok(())));
    assert!(matches!(step, NetStep::Done(Ok(()))));
    assert!(h.rx_tap_listening);

    // It is not registered a second time.
    assert!(matches!(h.handle_event(16), Step::ReadRxQueueEvent));
    let step: Step = h.resume(NetAnswer::EventRead(Ok(())));
    assert!(matches!(step, NetStep::Done(Ok(()))));
}

#[test]
fn rx_event_registration_failure() {
    let mut h = handler(None, None);
    let _: Step = h.handle_event(16);
    let _: Step = h.resume(NetAnswer::EventRead(Ok(())));
    let step: Step = h.resume(NetAnswer::Registered(Err("epoll")));
    assert!(matches!(
        step,
        NetStep::Done(Err(HandleEventError::RxQueue(DeviceError::IoError("epoll"))))
    ));
    assert!(!h.rx_tap_listening);
    assert_eq!(h.phase, Phase::Idle);
}

#[test]
fn blocked_receive_resumes_with_limiter() {
    let mut h = handler(Some(40), None);
    let _: Step = h.handle_event(16);
    let step: Step = h.resume(NetAnswer::EventRead(Ok(())));
    assert!(matches!(step, NetStep::QueryRxRateLimiter));
    let step: Step = h.resume(NetAnswer::Blocked(true));
    assert!(matches!(step, NetStep::Done(Ok(()))));
    assert!(!h.rx_tap_listening);
    assert!(h.rx_desc_avail);

    assert!(matches!(h.handle_event(20), Step::RunRxRateLimiter));
    let step: Step = h.resume(NetAnswer::LimiterRun(Ok(())));
    assert!(matches!(step, NetStep::RegisterListener { epoll_fd: 99, fd: 32, data: 18 }));
    let step: Step = h.resume(NetAnswer::Registered(Ok(())));
    assert!(matches!(step, NetStep::Done(Ok(()))));
    assert!(h.rx_tap_listening);
}

#[test]
fn rx_limiter_event_without_buffers() {
    let mut h = handler(Some(40), None);
    let _: Step = h.handle_event(20);
    let step: Step = h.resume(NetAnswer::LimiterRun(Ok(())));
    assert!(matches!(step, NetStep::Done(Ok(()))));
    assert!(!h.rx_tap_listening);
}

#[test]
fn rx_limiter_event_failures() {
    let mut h = handler(Some(40), None);
    h.rx_desc_avail = true;
    let _: Step = h.handle_event(20);
    let step: Step = h.resume(NetAnswer::LimiterRun(Err("timer")));
    assert!(matches!(step, NetStep::Done(Err(HandleEventError::RateLimiter("timer")))));
    let _: Step = h.handle_event(20);
    let _: Step = h.resume(NetAnswer::LimiterRun(Ok(())));
    let step: Step = h.resume(NetAnswer::Registered(Err("epoll")));
    assert!(matches!(step, NetStep::Done(Err(HandleEventError::RegisterListener("epoll")))));
    assert!(!h.rx_tap_listening);
}

#[test]
fn limiter_events_without_limiter() {
    let mut h = handler(None, None);
    let step: Step = h.handle_event(20);
    assert!(matches!(step, NetStep::Done(Err(HandleEventError::UnexpectedRxRateLimiterEvent))));
    let step: Step = h.handle_event(21);
    assert!(matches!(step, NetStep::Done(Err(HandleEventError::UnexpectedTxRateLimiterEvent))));
}

#[test]
fn tx_event_processes_and_signals() {
    let mut h = handler(None, None);
    assert!(matches!(h.handle_event(17), Step::ReadTxQueueEvent));
    let step: Step = h.resume(NetAnswer::EventRead(Err("eventfd")));
    assert!(matches!(step, NetStep::ProcessTx));
    let step: Step = h.resume(processed(Ok(true)));
    assert!(matches!(step, NetStep::SignalUsedQueue(5)));
    assert!(h.rx_tap_listening);
    let step: Step = h.resume(NetAnswer::Signalled(Ok(())));
    assert!(matches!(step, NetStep::Done(Ok(()))));
}

#[test]
fn tx_event_without_signal() {
    let mut h = handler(None, None);
    let _: Step = h.handle_event(17);
    let _: Step = h.resume(NetAnswer::EventRead(Ok(())));
    let step: Step = h.resume(processed(Ok(false)));
    assert!(matches!(step, NetStep::Done(Ok(()))));
}

#[test]
fn blocked_transmit_waits() {
    let mut h = handler(None, Some(41));
    let _: Step = h.handle_event(17);
    let step: Step = h.resume(NetAnswer::EventRead(Ok(())));
    assert!(matches!(step, NetStep::QueryTxRateLimiter));
    let step: Step = h.resume(NetAnswer::Blocked(true));
    assert!(matches!(step, NetStep::Done(Ok(()))));
    assert!(matches!(h.handle_event(19), Step::QueryTxRateLimiter));
    let step: Step = h.resume(NetAnswer::Blocked(false));
    assert!(matches!(step, NetStep::ProcessTx));
    let _: Step = h.resume(processed(Ok(false)));

    assert!(matches!(h.handle_event(21), Step::RunTxRateLimiter));
    let step: Step = h.resume(NetAnswer::LimiterRun(Ok(())));
    assert!(matches!(step, NetStep::ProcessTx));
    let step: Step = h.resume(processed(Err("ring")));
    assert!(matches!(
        step,
        NetStep::Done(Err(HandleEventError::TxQueue(DeviceError::NetQueuePair("ring"))))
    ));
    let _: Step = h.handle_event(21);
    let step: Step = h.resume(NetAnswer::LimiterRun(Err("timer")));
    assert!(matches!(step, NetStep::Done(Err(HandleEventError::RateLimiter("timer")))));
}

#[test]
fn tx_failures_tell_their_cause() {
    let mut h = handler(None, None);
    let _: Step = h.handle_event(19);
    let step: Step = h.resume(processed(Err("ring")));
    assert!(matches!(
        step,
        NetStep::Done(Err(HandleEventError::TxTap(DeviceError::NetQueuePair("ring"))))
    ));
    let _: Step = h.handle_event(19);
    let _: Step = h.resume(processed(Ok(true)));
    let step: Step = h.resume(NetAnswer::Signalled(Err("irq")));
    assert!(matches!(
        step,
        NetStep::Done(Err(HandleEventError::TxTap(DeviceError::FailedSignalingUsedQueue("irq"))))
    ));
    let _: Step = h.handle_event(17);
    let _: Step = h.resume(NetAnswer::EventRead(Ok(())));
    let _: Step = h.resume(processed(Ok(true)));
    let step: Step = h.resume(NetAnswer::Signalled(Err("irq")));
    assert!(matches!(
        step,
        NetStep::Done(Err(HandleEventError::TxQueue(DeviceError::FailedSignalingUsedQueue(
            "irq"
        ))))
    ));
}

#[test]
fn tap_event_processes_receive_queue() {
    let mut h = handler(None, None);
    h.rx_tap_listening = true;
    assert!(matches!(h.handle_event(18), Step::ProcessRx));
    let step: Step = h.resume(NetAnswer::Processed {
        signal: Ok(true),
        rx_tap_listening: false,
        rx_desc_avail: false,
    });
    assert!(matches!(step, NetStep::SignalUsedQueue(4)));
    assert!(!h.rx_tap_listening);
    assert!(!h.rx_desc_avail);
    let step: Step = h.resume(NetAnswer::Signalled(Err("irq")));
    assert!(matches!(
        step,
        NetStep::Done(Err(HandleEventError::TapQueue(DeviceError::FailedSignalingUsedQueue(
            "irq"
        ))))
    ));
    let _: Step = h.handle_event(18);
    let step: Step = h.resume(processed(Err("ring")));
    assert!(matches!(
        step,
        NetStep::Done(Err(HandleEventError::TapQueue(DeviceError::NetQueuePair("ring"))))
    ));
}

#[test]
fn unknown_event_refused() {
    let mut h = handler(None, None);
    let step: Step = h.handle_event(0x5_0002);
    assert!(matches!(step, NetStep::Done(Err(HandleEventError::UnexpectedEvent(2)))));
    assert_eq!(h.phase, Phase::Idle);
}

#[test]
fn loop_starts_with_its_listeners() {
    let h = NetEpollHandler::new(0, (30, 31), 32, Some(40), Some(41));
    let (mut run, step) = NetRun::run::<&str>(h, 77);
    assert!(matches!(step, RunStep::AddEvent(l) if l == Listener { fd: 30, event: 16 }));
    let step = run.resume(RunAnswer::<&str>::Added(Ok(())));
    assert!(matches!(step, RunStep::AddEvent(l) if l == Listener { fd: 31, event: 17 }));
    let step = run.resume(RunAnswer::<&str>::Added(Ok(())));
    assert!(matches!(step, RunStep::AddEvent(l) if l == Listener { fd: 40, event: 20 }));
    let step = run.resume(RunAnswer::<&str>::Added(Ok(())));
    assert!(matches!(step, RunStep::AddEvent(l) if l == Listener { fd: 41, event: 21 }));
    let step = run.resume(RunAnswer::<&str>::Added(Ok(())));
    assert!(matches!(step, RunStep::ReadUsedIndex));
    let step = run.resume(RunAnswer::<&str>::Index(Ok(3)));
    assert!(matches!(step, RunStep::ReadAvailIndex));
    let step = run.resume(RunAnswer::<&str>::Index(Ok(4)));
    assert!(matches!(step, RunStep::AddEvent(l) if l == Listener { fd: 32, event: 18 }));
    assert!(!run.handler.rx_tap_listening);
    let step = run.resume(RunAnswer::<&str>::Added(Ok(())));
    assert!(matches!(step, RunStep::Run));
    assert!(run.handler.rx_tap_listening);
    assert_eq!(run.handler.epoll_fd, Some(77));
}

#[test]
fn loop_starts_without_tap_when_all_is_used() {
    let h = NetEpollHandler::new(0, (30, 31), 32, None, Some(41));
    let (mut run, _) = NetRun::run::<&str>(h, 77);
    run.resume(RunAnswer::<&str>::Added(Ok(())));
    let step = run.resume(RunAnswer::<&str>::Added(Ok(())));
    assert!(matches!(step, RunStep::AddEvent(l) if l == Listener { fd: 41, event: 21 }));
    run.resume(RunAnswer::<&str>::Added(Ok(())));
    run.resume(RunAnswer::<&str>::Index(Ok(4)));
    let step = run.resume(RunAnswer::<&str>::Index(Ok(4)));
    assert!(matches!(step, RunStep::Run));
    assert!(!run.handler.rx_tap_listening);
    assert_eq!(run.handler.epoll_fd, Some(77));
}

#[test]
fn loop_starts_with_tap_across_the_index_wrap() {
    for (used, avail) in [(65535, 1), (65535, 0), (4, 3), (0, 65535)] {
        let h = NetEpollHandler::new(0, (30, 31), 32, None, None);
        let (mut run, _) = NetRun::run::<&str>(h, 77);
        run.resume(RunAnswer::<&str>::Added(Ok(())));
        run.resume(RunAnswer::<&str>::Added(Ok(())));
        run.resume(RunAnswer::<&str>::Index(Ok(used)));
        let step = run.resume(RunAnswer::<&str>::Index(Ok(avail)));
        assert!(matches!(step, RunStep::AddEvent(l) if l == Listener { fd: 32, event: 18 }));
        let step = run.resume(RunAnswer::<&str>::Added(Ok(())));
        assert!(matches!(step, RunStep::Run));
        assert!(run.handler.rx_tap_listening);
        assert_eq!(run.handler.epoll_fd, Some(77));
    }
}

#[test]
fn loop_start_failures() {
    let h = NetEpollHandler::new(0, (30, 31), 32, None, None);
    let (mut run, _) = NetRun::run::<&str>(h, 77);
    let step = run.resume(RunAnswer::Added(Err("epoll")));
    assert!(matches!(step, RunStep::Failed(RunError::AddEvent("epoll"))));
    assert_eq!(run.handler.epoll_fd, None);

    let (mut run, _) = NetRun::run::<&str>(h, 77);
    run.resume(RunAnswer::<&str>::Added(Ok(())));
    run.resume(RunAnswer::<&str>::Added(Ok(())));
    let step = run.resume(RunAnswer::Index(Err("memory")));
    assert!(matches!(step, RunStep::Failed(RunError::QueueRingIndex("memory"))));
}

#[test]
fn control_event_served() {
    let mut h = NetCtrlEpollHandler::new(50, 6);
    assert_eq!(h.run_ctrl(), Listener { fd: 50, event: 16 });
    let step: CtrlStep<&str> = h.handle_event(16);
    assert!(matches!(step, CtrlStep::ReadQueueEvent));
    let step: CtrlStep<&str> = h.resume(CtrlAnswer::EventRead(Ok(())));
    assert!(matches!(step, CtrlStep::ProcessQueue));
    let step: CtrlStep<&str> = h.resume(CtrlAnswer::Processed(Ok(())));
    assert!(matches!(step, CtrlStep::QueryNotification));
    let step: CtrlStep<&str> = h.resume(CtrlAnswer::NeedsNotification(Ok(true)));
    assert!(matches!(step, CtrlStep::SignalUsedQueue(6)));
    let step: CtrlStep<&str> = h.resume(CtrlAnswer::Signalled(Ok(())));
    assert!(matches!(step, CtrlStep::Done(Ok(()))));

    let _: CtrlStep<&str> = h.handle_event(16);
    let _: CtrlStep<&str> = h.resume(CtrlAnswer::EventRead(Ok(())));
    let _: CtrlStep<&str> = h.resume(CtrlAnswer::Processed(Ok(())));
    let step: CtrlStep<&str> = h.resume(CtrlAnswer::NeedsNotification(Ok(false)));
    assert!(matches!(step, CtrlStep::Done(Ok(()))));
}

#[test]
fn control_event_failures() {
    let mut h = NetCtrlEpollHandler::new(50, 6);
    let step: CtrlStep<&str> = h.handle_event(17);
    assert!(matches!(step, CtrlStep::Done(Err(CtrlEventError::UnknownEvent))));
    let _: CtrlStep<&str> = h.handle_event(16);
    let step = h.resume(CtrlAnswer::EventRead(Err("eventfd")));
    assert!(matches!(step, CtrlStep::Done(Err(CtrlEventError::GetEvent("eventfd")))));
    let _: CtrlStep<&str> = h.handle_event(16);
    let _: CtrlStep<&str> = h.resume(CtrlAnswer::EventRead(Ok(())));
    let step = h.resume(CtrlAnswer::Processed(Err("chain")));
    assert!(matches!(step, CtrlStep::Done(Err(CtrlEventError::ProcessQueue("chain")))));
    let _: CtrlStep<&str> = h.handle_event(16);
    let _: CtrlStep<&str> = h.resume(CtrlAnswer::EventRead(Ok(())));
    let _: CtrlStep<&str> = h.resume(CtrlAnswer::Processed(Ok(())));
    let step = h.resume(CtrlAnswer::NeedsNotification(Err("memory")));
    assert!(matches!(step, CtrlStep::Done(Err(CtrlEventError::NotificationState("memory")))));
    let _: CtrlStep<&str> = h.handle_event(16);
    let _: CtrlStep<&str> = h.resume(CtrlAnswer::EventRead(Ok(())));
    let _: CtrlStep<&str> = h.resume(CtrlAnswer::Processed(Ok(())));
    let _: CtrlStep<&str> = h.resume(CtrlAnswer::NeedsNotification(Ok(true)));
    let step = h.resume(CtrlAnswer::Signalled(Err("irq")));
    assert!(matches!(
        step,
        CtrlStep::Done(Err(CtrlEventError::SignalQueue(DeviceError::FailedSignalingUsedQueue(
            "irq"
        ))))
    ));
}
