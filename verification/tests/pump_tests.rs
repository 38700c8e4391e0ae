use std::sync::Mutex;

use toyvpn::pump::{
    downlink_step, tun_write_step, uplink_after_send, uplink_step, ByteCounters, DownlinkOutcome,
    StopFlag, Supervisor, SupervisorEvent, TransportEvent, TunReadEvent, TunWriteResult,
    UplinkOutcome, VpnCallback, WriteProgress,
};

/// Records every callback invocation, as a host UI would observe them.
#[derive(Default)]
struct Recorder {
    stats: Mutex<Vec<(u64, u64)>>,
    stops: Mutex<Vec<String>>,
}

impl VpnCallback for Recorder {
    fn on_stats_update(&self, tx_bytes: u64, rx_bytes: u64) {
        self.stats.lock().unwrap().push((tx_bytes, rx_bytes));
    }

    fn on_stop(&self, reason: String) {
        self.stops.lock().unwrap().push(reason);
    }
}

#[test]
fn counters_start_at_zero_and_only_grow() {
    let mut c = ByteCounters::new();
    assert_eq!(c.snapshot(), (0, 0));
    c.add_tx(100);
    c.add_rx(40);
    assert_eq!(c.snapshot(), (100, 40));
    c.add_tx(0);
    c.add_rx(0);
    let (tx, rx) = c.snapshot();
    assert!(tx >= 100 && rx >= 40);
    assert_eq!((tx, rx), (100, 40));
}

#[test]
fn would_block_does_not_advance_tx() {
    let mut c = ByteCounters::new();
    c.add_tx(7);
    let o = uplink_step(&mut c, &TunReadEvent::WouldBlock);
    assert_eq!(o, UplinkOutcome::Retry);
    assert_eq!(c.snapshot(), (7, 0));
}

#[test]
fn uplink_accounts_exactly_the_bytes_read() {
    let mut c = ByteCounters::new();
    assert_eq!(uplink_step(&mut c, &TunReadEvent::Read(1500)), UplinkOutcome::Forward(1500));
    assert_eq!(uplink_step(&mut c, &TunReadEvent::Read(20)), UplinkOutcome::Forward(20));
    assert_eq!(c.snapshot(), (1520, 0));
}

#[test]
fn uplink_exits_on_stop_eof_and_read_error() {
    let mut c = ByteCounters::new();
    assert_eq!(uplink_step(&mut c, &TunReadEvent::Stop), UplinkOutcome::Exit);
    assert_eq!(uplink_step(&mut c, &TunReadEvent::Read(0)), UplinkOutcome::Exit);
    assert_eq!(uplink_step(&mut c, &TunReadEvent::ReadError), UplinkOutcome::Exit);
    assert_eq!(c.snapshot(), (0, 0));
}

#[test]
fn send_errors_are_not_terminal_for_the_uplink() {
    assert_eq!(uplink_after_send(true), UplinkOutcome::Retry);
    assert_eq!(uplink_after_send(false), UplinkOutcome::Retry);
}

#[test]
fn downlink_accounts_frames_and_exits_on_receive_error() {
    let mut c = ByteCounters::new();
    assert_eq!(downlink_step(&mut c, &TransportEvent::Frame(900)), DownlinkOutcome::Write(900));
    assert_eq!(c.snapshot(), (0, 900));
    // A receive failure is terminal and leaves the counters untouched.
    assert_eq!(downlink_step(&mut c, &TransportEvent::RecvError), DownlinkOutcome::Exit);
    assert_eq!(c.snapshot(), (0, 900));
    assert_eq!(downlink_step(&mut c, &TransportEvent::Stop), DownlinkOutcome::Exit);
}

#[test]
fn partial_tun_writes_are_retried_for_the_remainder() {
    assert_eq!(tun_write_step(100, 0, &TunWriteResult::Wrote(40)), WriteProgress::Again(40));
    assert_eq!(tun_write_step(100, 40, &TunWriteResult::WouldBlock), WriteProgress::Again(40));
    assert_eq!(tun_write_step(100, 40, &TunWriteResult::Wrote(60)), WriteProgress::Done);
    assert_eq!(tun_write_step(100, 40, &TunWriteResult::WriteError), WriteProgress::Fail);
}

#[test]
fn stop_flag_is_sticky_and_idempotent() {
    let mut s = StopFlag::new();
    assert!(!s.is_fired());
    s.stop();
    assert!(s.is_fired());
    s.stop();
    assert!(s.is_fired());
}

#[test]
fn stop_before_start_reports_stopped_exactly_once() {
    // The user fires the stop handle before the pump starts; the
    // supervisor's first race then resolves to the stop signal.
    let mut flag = StopFlag::new();
    flag.stop();
    let mut sup = Supervisor::new();
    let first = if flag.is_fired() {
        sup.step(SupervisorEvent::StopRequested)
    } else {
        None
    };
    assert_eq!(first.as_deref(), Some("Stopped"));
    // Tasks drain afterwards; none of their exits is reported again.
    assert_eq!(sup.step(SupervisorEvent::UplinkDone(None)), None);
    assert_eq!(sup.step(SupervisorEvent::DownlinkDone(None)), None);
    assert_eq!(sup.step(SupervisorEvent::StatsDone), None);
}

#[test]
fn clean_stop_reports_stopped() {
    let mut sup = Supervisor::new();
    let r = sup.step(SupervisorEvent::StopRequested);
    assert_eq!(r.as_deref(), Some("Stopped"));
}

#[test]
fn transport_receive_failure_ends_the_session_with_the_error_text() {
    // The downlink sees the receive error and exits; the supervisor turns
    // the first task exit into the single stop report carrying the text.
    let mut c = ByteCounters::new();
    assert_eq!(downlink_step(&mut c, &TransportEvent::RecvError), DownlinkOutcome::Exit);
    let mut sup = Supervisor::new();
    let reason = sup.step(SupervisorEvent::DownlinkDone(Some(String::from(
        "connection reset by peer",
    ))));
    assert_eq!(reason.as_deref(), Some("connection reset by peer"));
    // The uplink drains cleanly afterwards without a second report.
    let mut c2 = ByteCounters::new();
    assert_eq!(uplink_step(&mut c2, &TunReadEvent::Stop), UplinkOutcome::Exit);
    assert_eq!(sup.step(SupervisorEvent::UplinkDone(None)), None);
}

#[test]
fn a_session_reports_stats_while_running_and_one_stop_at_the_end() {
    let recorder = Recorder::default();
    let mut counters = ByteCounters::new();
    let mut stop = StopFlag::new();
    let mut sup = Supervisor::new();

    // Two pump turns, then a stats tick.
    assert_eq!(uplink_step(&mut counters, &TunReadEvent::Read(300)), UplinkOutcome::Forward(300));
    assert_eq!(downlink_step(&mut counters, &TransportEvent::Frame(120)), DownlinkOutcome::Write(120));
    let (tx, rx) = counters.snapshot();
    recorder.on_stats_update(tx, rx);

    // The user stops the session; every task drains; one report.
    stop.stop();
    if stop.is_fired() {
        if let Some(reason) = sup.step(SupervisorEvent::StopRequested) {
            recorder.on_stop(reason);
        }
    }
    for late in [
        SupervisorEvent::UplinkDone(None),
        SupervisorEvent::DownlinkDone(None),
        SupervisorEvent::StatsDone,
    ] {
        if let Some(reason) = sup.step(late) {
            recorder.on_stop(reason);
        }
    }

    assert_eq!(recorder.stats.lock().unwrap().as_slice(), &[(300, 120)]);
    assert_eq!(recorder.stops.lock().unwrap().as_slice(), &[String::from("Stopped")]);
}

#[test]
fn first_task_error_wins_the_report() {
    let mut sup = Supervisor::new();
    let r1 = sup.step(SupervisorEvent::UplinkDone(Some(String::from("tun gone"))));
    assert_eq!(r1.as_deref(), Some("tun gone"));
    let r2 = sup.step(SupervisorEvent::DownlinkDone(Some(String::from("later"))));
    assert_eq!(r2, None);
}
