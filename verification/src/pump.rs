//! The client packet pump's decisions.
//!
//! The pump bridges a TUN descriptor and a datagram transport under a
//! cooperative scheduler.  The loops that await readiness, read, write,
//! send and receive live outside; every decision they take between two
//! suspension points is a step function here: byte accounting, retrying
//! after `WouldBlock` or a partial write, and turning the first terminal
//! event of the session into the single stop report.

use vstd::prelude::*;

verus! {

broadcast use vstd::string::group_string_axioms;

/// Callback interface for VPN events, implemented by the host.
pub trait VpnCallback: Send + Sync {
    /// Periodic cumulative counters.
    fn on_stats_update(&self, tx_bytes: u64, rx_bytes: u64);

    /// The single terminal report of a session.
    fn on_stop(&self, reason: String);
}

/// The session's cumulative byte counters.  Both only ever grow.
pub struct ByteCounters {
    tx: u64,
    rx: u64,
}

impl ByteCounters {
    /// Bytes read from the TUN device and pushed to the transport.
    pub closed spec fn spec_tx(self) -> u64 {
        self.tx
    }

    /// Bytes received from the transport and written to the TUN device.
    pub closed spec fn spec_rx(self) -> u64 {
        self.rx
    }

    /// Both counters start at zero for each session.
    pub fn new() -> (c: ByteCounters)
        ensures
            c.spec_tx() == 0,
            c.spec_rx() == 0,
    {
        ByteCounters { tx: 0, rx: 0 }
    }

    /// Accounts `n` sent bytes.  The counter grows by exactly `n` and
    /// never decreases.
    pub fn add_tx(&mut self, n: u64)
        requires
            old(self).spec_tx() + n <= u64::MAX,
        ensures
            final(self).spec_tx() == old(self).spec_tx() + n,
            final(self).spec_rx() == old(self).spec_rx(),
            final(self).spec_tx() >= old(self).spec_tx(),
    {
        self.tx = self.tx + n;
    }

    /// Accounts `n` received bytes.  The counter grows by exactly `n` and
    /// never decreases.
    pub fn add_rx(&mut self, n: u64)
        requires
            old(self).spec_rx() + n <= u64::MAX,
        ensures
            final(self).spec_rx() == old(self).spec_rx() + n,
            final(self).spec_tx() == old(self).spec_tx(),
            final(self).spec_rx() >= old(self).spec_rx(),
    {
        self.rx = self.rx + n;
    }

    /// The snapshot the stats tick reports to the host callback.
    pub fn snapshot(&self) -> (r: (u64, u64))
        ensures
            r.0 == self.spec_tx(),
            r.1 == self.spec_rx(),
    {
        (self.tx, self.rx)
    }
}

/// The stop handle: a broadcast wake that is fired at most meaningfully
/// once and stays fired.  Firing it again changes nothing.
pub struct StopFlag {
    fired: bool,
}

impl StopFlag {
    /// Whether the stop signal has been fired.
    pub closed spec fn spec_fired(self) -> bool {
        self.fired
    }

    /// A fresh, unfired handle; one per session.
    pub fn new() -> (s: StopFlag)
        ensures
            !s.spec_fired(),
    {
        StopFlag { fired: false }
    }

    /// Fires the stop signal.  Idempotent, and the signal is sticky: a
    /// fired handle never becomes unfired.
    pub fn stop(&mut self)
        ensures
            final(self).spec_fired(),
    {
        self.fired = true;
    }

    /// Observes the signal, as every task does at each suspension point.
    pub fn is_fired(&self) -> (r: bool)
        ensures
            r == self.spec_fired(),
    {
        self.fired
    }
}

/// What the uplink task saw after racing the stop signal against TUN
/// readability and attempting one non-blocking read.
pub enum TunReadEvent {
    /// The stop signal won the race.
    Stop,
    /// A read completed with this many bytes; zero is end of file.
    Read(usize),
    /// The descriptor was not actually readable; try again.
    WouldBlock,
    /// The read failed; terminal for the uplink.
    ReadError,
}

/// What the uplink task does next.
#[derive(Clone, Copy, PartialEq, Eq, Structural, Debug)]
pub enum UplinkOutcome {
    /// Push the first `n` buffered bytes to the transport, then loop.
    Forward(usize),
    /// Loop again without sending anything.
    Retry,
    /// Leave the loop; the uplink is finished.
    Exit,
}

/// One turn of the uplink loop.  A successful read of `n > 0` bytes
/// advances `tx` by exactly `n` and forwards the bytes; `WouldBlock`
/// retries and must leave the counters untouched; stop, end of file and
/// read errors are terminal.  Neither counter ever decreases.
pub fn uplink_step(c: &mut ByteCounters, ev: &TunReadEvent) -> (o: UplinkOutcome)
    requires
        *ev matches TunReadEvent::Read(n) ==> old(c).spec_tx() + n <= u64::MAX,
    ensures
        final(c).spec_tx() >= old(c).spec_tx(),
        final(c).spec_rx() == old(c).spec_rx(),
        match *ev {
            TunReadEvent::Stop => o == UplinkOutcome::Exit && *final(c) == *old(c),
            TunReadEvent::Read(n) => {
                if n == 0 {
                    o == UplinkOutcome::Exit && *final(c) == *old(c)
                } else {
                    o == UplinkOutcome::Forward(n) && final(c).spec_tx() == old(c).spec_tx() + n
                }
            },
            TunReadEvent::WouldBlock => o == UplinkOutcome::Retry && *final(c) == *old(c),
            TunReadEvent::ReadError => o == UplinkOutcome::Exit && *final(c) == *old(c),
        },
{
    match *ev {
        TunReadEvent::Stop => UplinkOutcome::Exit,
        TunReadEvent::Read(n) => {
            if n == 0 {
                UplinkOutcome::Exit
            } else {
                c.add_tx(n as u64);
                UplinkOutcome::Forward(n)
            }
        },
        TunReadEvent::WouldBlock => UplinkOutcome::Retry,
        TunReadEvent::ReadError => UplinkOutcome::Exit,
    }
}

/// After a forwarded frame, the uplink keeps running whether or not the
/// transport accepted it: a send failure is logged, never terminal, since
/// the transport may recover.
pub fn uplink_after_send(send_failed: bool) -> (o: UplinkOutcome)
    ensures
        o == UplinkOutcome::Retry,
{
    let _ = send_failed;
    UplinkOutcome::Retry
}

/// What the downlink task saw after racing the stop signal against the
/// transport.
pub enum TransportEvent {
    /// The stop signal won the race.
    Stop,
    /// A frame of this many bytes arrived.
    Frame(usize),
    /// The receive failed; terminal for the downlink, because the
    /// transport cannot recover in this core.
    RecvError,
}

/// What the downlink task does next.
#[derive(Clone, Copy, PartialEq, Eq, Structural, Debug)]
pub enum DownlinkOutcome {
    /// Write the frame of `n` bytes to the TUN device, then loop.
    Write(usize),
    /// Leave the loop; the downlink is finished.
    Exit,
}

/// One turn of the downlink loop.  An arrived frame advances `rx` by
/// exactly its length and goes to the TUN device; stop and a receive
/// error are terminal and leave the counters untouched.  Neither counter
/// ever decreases.
pub fn downlink_step(c: &mut ByteCounters, ev: &TransportEvent) -> (o: DownlinkOutcome)
    requires
        *ev matches TransportEvent::Frame(n) ==> old(c).spec_rx() + n <= u64::MAX,
    ensures
        final(c).spec_rx() >= old(c).spec_rx(),
        final(c).spec_tx() == old(c).spec_tx(),
        match *ev {
            TransportEvent::Stop => o == DownlinkOutcome::Exit && *final(c) == *old(c),
            TransportEvent::Frame(n) => o == DownlinkOutcome::Write(n) && final(c).spec_rx()
                == old(c).spec_rx() + n,
            TransportEvent::RecvError => o == DownlinkOutcome::Exit && *final(c) == *old(c),
        },
{
    match *ev {
        TransportEvent::Stop => DownlinkOutcome::Exit,
        TransportEvent::Frame(n) => {
            c.add_rx(n as u64);
            DownlinkOutcome::Write(n)
        },
        TransportEvent::RecvError => DownlinkOutcome::Exit,
    }
}

/// What one non-blocking TUN write attempt returned.
pub enum TunWriteResult {
    /// This many bytes were accepted.
    Wrote(usize),
    /// The descriptor was not actually writable; wait and retry.
    WouldBlock,
    /// The write failed; terminal for the downlink.
    WriteError,
}

/// Where the frame write stands after one attempt.
#[derive(Clone, Copy, PartialEq, Eq, Structural, Debug)]
pub enum WriteProgress {
    /// The whole frame is out.
    Done,
    /// `written` bytes are out so far; wait for writability and retry
    /// with the remainder.
    Again(usize),
    /// Terminal write failure.
    Fail,
}

/// One turn of the inner write loop for a frame of `frame_len` bytes of
/// which `written` are already out.  A partial write advances by exactly
/// the accepted count and is retried for the remainder; `WouldBlock`
/// retries without progress; a write error is terminal.
pub fn tun_write_step(frame_len: usize, written: usize, res: &TunWriteResult) -> (p:
    WriteProgress)
    requires
        written <= frame_len,
        res matches TunWriteResult::Wrote(n) ==> n <= frame_len - written,
    ensures
        match *res {
            TunWriteResult::Wrote(n) => {
                if written + n == frame_len {
                    p == WriteProgress::Done
                } else {
                    p == WriteProgress::Again((written + n) as usize)
                }
            },
            TunWriteResult::WouldBlock => p == WriteProgress::Again(written),
            TunWriteResult::WriteError => p == WriteProgress::Fail,
        },
{
    match *res {
        TunWriteResult::Wrote(n) => {
            if written + n == frame_len {
                WriteProgress::Done
            } else {
                WriteProgress::Again(written + n)
            }
        },
        TunWriteResult::WouldBlock => WriteProgress::Again(written),
        TunWriteResult::WriteError => WriteProgress::Fail,
    }
}

/// The first event that ends a session, as the supervisor sees it.
pub enum SupervisorEvent {
    /// The user fired the stop handle.
    StopRequested,
    /// The uplink left its loop, cleanly or with this error text.
    UplinkDone(Option<String>),
    /// The downlink left its loop, cleanly or with this error text.
    DownlinkDone(Option<String>),
    /// The stats task left its loop.
    StatsDone,
}

/// The reason text the host receives for a session ended by `ev`:
/// `"Stopped"` for a clean end, the first terminal error's text otherwise.
pub open spec fn spec_stop_reason(ev: SupervisorEvent) -> Seq<char> {
    match ev {
        SupervisorEvent::StopRequested => "Stopped"@,
        SupervisorEvent::UplinkDone(r) => match r {
            Some(e) => e@,
            None => "Stopped"@,
        },
        SupervisorEvent::DownlinkDone(r) => match r {
            Some(e) => e@,
            None => "Stopped"@,
        },
        SupervisorEvent::StatsDone => "Stopped"@,
    }
}

/// The supervisor of one session: it reports the first terminal event to
/// the host, exactly once, and ignores everything after.
pub struct Supervisor {
    done: bool,
}

impl Supervisor {
    /// Whether the session has already ended and been reported.
    pub closed spec fn spec_done(self) -> bool {
        self.done
    }

    /// How one call of `step` relates the supervisor before (`pre`) and
    /// after (`post`): the first event ends the session and earns the
    /// reason text; later events change nothing and earn nothing.
    pub open spec fn sup_step(
        pre: Supervisor,
        post: Supervisor,
        ev: SupervisorEvent,
        r: Option<String>,
    ) -> bool {
        if pre.spec_done() {
            &&& post.spec_done()
            &&& r is None
        } else {
            &&& post.spec_done()
            &&& r matches Some(s) && s@ == spec_stop_reason(ev)
        }
    }

    /// A supervisor for a session that is about to run.
    pub fn new() -> (s: Supervisor)
        ensures
            !s.spec_done(),
    {
        Supervisor { done: false }
    }

    /// Takes the next session-level event.  Returns `Some(reason)` exactly
    /// on the first event: the text to pass to `on_stop`, after
    /// broadcasting the stop signal to the remaining tasks.
    pub fn step(&mut self, ev: SupervisorEvent) -> (r: Option<String>)
        ensures
            Supervisor::sup_step(*old(self), *final(self), ev, r),
    {
        if self.done {
            None
        } else {
            self.done = true;
            Some(stop_reason(ev))
        }
    }

    /// The stop report happens exactly once: the first event of a fresh
    /// supervisor earns it, and no later event ever does.
    pub proof fn lemma_stop_reported_once(
        s0: Supervisor,
        s1: Supervisor,
        s2: Supervisor,
        e1: SupervisorEvent,
        e2: SupervisorEvent,
        r1: Option<String>,
        r2: Option<String>,
    )
        requires
            !s0.spec_done(),
            Supervisor::sup_step(s0, s1, e1, r1),
            Supervisor::sup_step(s1, s2, e2, r2),
        ensures
            r1 matches Some(s) && s@ == spec_stop_reason(e1),
            r2 is None,
    {
    }
}

/// Builds the reason text for a session ended by `ev`.
fn stop_reason(ev: SupervisorEvent) -> (s: String)
    ensures
        s@ == spec_stop_reason(ev),
{
    let stopped: &str = "Stopped";
    match ev {
        SupervisorEvent::StopRequested => stopped.to_string(),
        SupervisorEvent::UplinkDone(r) => match r {
            Some(e) => e,
            None => stopped.to_string(),
        },
        SupervisorEvent::DownlinkDone(r) => match r {
            Some(e) => e,
            None => stopped.to_string(),
        },
        SupervisorEvent::StatsDone => stopped.to_string(),
    }
}

} // verus!
