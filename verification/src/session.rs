//! The session: the decisions of the keepalive loop that owns the transport.
//!
//! The session itself touches neither the socket nor the queues nor the clock.
//! It is a state machine: the driver performs the action it is given, reports
//! what came of it together with the current time, and gets the next action.
//! One pass through the phases is one turn of the loop: look at the outbound
//! queue, look at the transport, send a ping when one is due, give the
//! connection up when no pong has come for too long, and rest briefly when
//! the turn found nothing to do.

use vstd::prelude::*;
use crate::message::{Polled, RecvMsg, SendMsg};

verus! {

/// Seconds between two pings.
pub const PING_INTERVAL: u64 = 5;

/// Seconds without a pong after which the connection counts as dead.
pub const PONG_TIMEOUT: u64 = 3 * PING_INTERVAL;

/// Nanoseconds in a second: the session's clock counts nanoseconds.
pub const NANOS_PER_SEC: u64 = 1_000_000_000;

/// Microseconds to rest after a turn that found no work.
pub const IDLE_SLEEP_MICROS: u64 = 50;

/// A frame read from the transport.
#[derive(Debug)]
pub enum Frame {
    Text(String),
    Binary(Vec<u8>),
    Close,
    Ping(Vec<u8>),
    Pong(Vec<u8>),
}

/// Why a read from the transport gave no frame.
#[derive(Debug)]
pub enum Fault {
    /// The peer broke the framing protocol.
    Protocol,
    /// A data frame was not acceptable.
    DataFrame,
    /// The transport has no data at the moment.
    NoData,
    /// The read would have had to wait.
    WouldBlock,
    /// Another input/output error, with its description.
    Io(String),
    /// A text frame was not UTF-8, with the description.
    Utf8(String),
    /// Anything else, with its description.
    Other(String),
}

/// Something worth a line in the log; it never changes what the session does.
#[derive(Debug)]
pub enum Notice {
    /// A text frame could not be written.
    SendFailed,
    /// The relay sent a binary frame, which this client has no use for.
    UnexpectedBinary,
    /// The transport failed in a way that is not part of normal operation.
    TransportFault(Fault),
}

/// What the driver reports back to the session.
#[derive(Debug)]
pub enum SessionEvent {
    /// The outcome of `PollOutbound`.
    Outbound(Polled<SendMsg>),
    /// The outcome of `PollTransport`.
    Transport(Result<Frame, Fault>),
    /// The outcome of any other action: whether it succeeded.
    Completed(bool),
}

/// What the driver is to do next.
#[derive(Debug)]
pub enum SessionAction {
    /// Take one message from the outbound queue, without waiting.
    PollOutbound,
    /// Write a text frame.
    SendText(String),
    /// Read one frame from the transport, without waiting.
    PollTransport,
    /// Answer a ping with a pong that carries the same payload.
    SendPong(Vec<u8>),
    /// Write a ping whose payload is this one byte.
    SendPing(u8),
    /// Put a message on the inbound queue.
    Deliver(RecvMsg),
    /// Rest for this many microseconds.
    Sleep(u64),
    /// Release the transport and leave the loop.
    Terminate,
}

/// The next action, with what the driver may want to log first.
#[derive(Debug)]
pub struct Directive {
    pub notice: Option<Notice>,
    pub action: SessionAction,
}

/// Which report the session is waiting for.
#[derive(Clone, Copy, Debug, PartialEq, Eq)]
pub enum Phase {
    /// For the outcome of `PollOutbound`.
    Outbound,
    /// For the completion of `SendText`.
    TextSent,
    /// For the outcome of `PollTransport`.
    Transport,
    /// For the completion of `Deliver` with a text message.
    TextDelivered,
    /// For the completion of `SendPong`.
    PongSent,
    /// For the completion of `SendPing`.
    PingSent,
    /// For the completion of `Deliver` with the close message.
    Closing,
    /// For the completion of `Sleep`.
    Slept,
    /// For nothing: the session is over.
    Terminated,
}

/// The state of one connection's keepalive loop.
#[derive(Clone, Copy, Debug)]
pub struct Session {
    /// When the last ping was sent.
    pub last_ping: u64,
    /// When the last pong was seen.
    pub last_pong: u64,
    /// The payload of the last ping.
    pub ping_nonce: u8,
    /// Whether the current turn has found no work so far.
    pub idle: bool,
    pub phase: Phase,
}

/// Nanoseconds from `then` to `now`; none if the clock stepped back.
pub open spec fn elapsed(now: u64, then: u64) -> int {
    if now >= then {
        now - then
    } else {
        0
    }
}

/// The ping payload that follows `nonce`.
pub open spec fn next_nonce(nonce: u8) -> u8 {
    if nonce == u8::MAX {
        0u8
    } else {
        (nonce + 1) as u8
    }
}

/// Faults that are part of normal non-blocking operation and go unreported.
pub open spec fn is_transient(fault: Fault) -> bool {
    fault is Protocol || fault is DataFrame || fault is NoData || fault is WouldBlock
}

/// What to log for a failed read, if anything.
pub open spec fn fault_notice(fault: Fault) -> Option<Notice> {
    if is_transient(fault) {
        None
    } else {
        Some(Notice::TransportFault(fault))
    }
}

impl Session {
    /// A session that starts at `now`: a new turn, both timers fresh.
    pub open spec fn started(now: u64) -> Session {
        Session { last_ping: now, last_pong: now, ping_nonce: 0, idle: true, phase: Phase::Outbound }
    }

    /// More than the ping interval has passed since the last ping.
    pub open spec fn ping_due(self, now: u64) -> bool {
        elapsed(now, self.last_ping) > PING_INTERVAL * NANOS_PER_SEC
    }

    /// More than the pong timeout has passed since the last pong.
    pub open spec fn pong_expired(self, now: u64) -> bool {
        elapsed(now, self.last_pong) > PONG_TIMEOUT * NANOS_PER_SEC
    }

    /// The session ends.
    pub open spec fn ended(self) -> (Session, Directive) {
        (
            Session { phase: Phase::Terminated, ..self },
            Directive { notice: None, action: SessionAction::Terminate },
        )
    }

    /// A new turn begins with a look at the outbound queue.
    pub open spec fn next_turn(self, notice: Option<Notice>) -> (Session, Directive) {
        (
            Session { phase: Phase::Outbound, idle: true, ..self },
            Directive { notice, action: SessionAction::PollOutbound },
        )
    }

    /// The end of a turn: give up on a silent connection, else rest if the
    /// turn was idle, else go on.
    pub open spec fn watchdog(self, now: u64, notice: Option<Notice>) -> (Session, Directive) {
        if self.pong_expired(now) {
            (
                Session { phase: Phase::Closing, ..self },
                Directive { notice, action: SessionAction::Deliver(RecvMsg::Close) },
            )
        } else if self.idle {
            (
                Session { phase: Phase::Slept, ..self },
                Directive { notice, action: SessionAction::Sleep(IDLE_SLEEP_MICROS) },
            )
        } else {
            self.next_turn(notice)
        }
    }

    /// After the transport was looked at: send a ping if one is due, else go
    /// on to the watchdog.
    pub open spec fn liveness(self, now: u64, notice: Option<Notice>) -> (Session, Directive) {
        if self.ping_due(now) {
            (
                Session {
                    last_ping: now,
                    ping_nonce: next_nonce(self.ping_nonce),
                    phase: Phase::PingSent,
                    ..self
                },
                Directive { notice, action: SessionAction::SendPing(next_nonce(self.ping_nonce)) },
            )
        } else {
            self.watchdog(now, notice)
        }
    }

    /// What the outbound queue held decides between sending, looking at the
    /// transport and ending.
    pub open spec fn on_outbound(self, polled: Polled<SendMsg>) -> (Session, Directive) {
        match polled {
            Polled::Item(SendMsg::Msg(text)) => (
                Session { phase: Phase::TextSent, idle: false, ..self },
                Directive { notice: None, action: SessionAction::SendText(text) },
            ),
            Polled::Item(SendMsg::Stop) => self.ended(),
            Polled::Empty => (
                Session { phase: Phase::Transport, ..self },
                Directive { notice: None, action: SessionAction::PollTransport },
            ),
            Polled::Disconnected => self.ended(),
        }
    }

    /// What a frame from the relay leads to.
    pub open spec fn on_frame(self, frame: Frame, now: u64) -> (Session, Directive) {
        let busy = Session { idle: false, ..self };
        match frame {
            Frame::Text(text) => (
                Session { phase: Phase::TextDelivered, ..busy },
                Directive { notice: None, action: SessionAction::Deliver(RecvMsg::Msg(text)) },
            ),
            Frame::Binary(_) => busy.liveness(now, Some(Notice::UnexpectedBinary)),
            Frame::Close => (
                Session { phase: Phase::Closing, ..busy },
                Directive { notice: None, action: SessionAction::Deliver(RecvMsg::Close) },
            ),
            Frame::Ping(payload) => (
                Session { phase: Phase::PongSent, ..busy },
                Directive { notice: None, action: SessionAction::SendPong(payload) },
            ),
            Frame::Pong(_) => (Session { last_pong: now, ..busy }).liveness(now, None),
        }
    }

    /// The transition function: the state after `event` was reported at time
    /// `now`, and what the driver is to do next. A report that the current
    /// phase did not ask for ends the session, and so does every report once
    /// it has ended.
    pub open spec fn next(self, event: SessionEvent, now: u64) -> (Session, Directive) {
        match (self.phase, event) {
            (Phase::Outbound, SessionEvent::Outbound(polled)) => self.on_outbound(polled),
            (Phase::TextSent, SessionEvent::Completed(sent)) => (
                Session { phase: Phase::Transport, ..self },
                Directive {
                    notice: if sent {
                        None
                    } else {
                        Some(Notice::SendFailed)
                    },
                    action: SessionAction::PollTransport,
                },
            ),
            (Phase::Transport, SessionEvent::Transport(Ok(frame))) => self.on_frame(frame, now),
            (Phase::Transport, SessionEvent::Transport(Err(fault))) => self.liveness(
                now,
                fault_notice(fault),
            ),
            (Phase::TextDelivered, SessionEvent::Completed(delivered)) => if delivered {
                self.liveness(now, None)
            } else {
                self.ended()
            },
            (Phase::PongSent, SessionEvent::Completed(_)) => self.liveness(now, None),
            (Phase::PingSent, SessionEvent::Completed(_)) => self.watchdog(now, None),
            (Phase::Closing, SessionEvent::Completed(_)) => self.ended(),
            (Phase::Slept, SessionEvent::Completed(_)) => self.next_turn(None),
            _ => self.ended(),
        }
    }

    /// Starts a session at time `now`. The first thing to do is to look at
    /// the outbound queue.
    pub fn start(now: u64) -> (begun: (Session, SessionAction))
        ensures
            begun.0 == Session::started(now),
            begun.1 == SessionAction::PollOutbound,
    {
        (
            Session { last_ping: now, last_pong: now, ping_nonce: 0, idle: true, phase: Phase::Outbound },
            SessionAction::PollOutbound,
        )
    }

    /// Whether the session is over.
    pub fn is_terminated(&self) -> (over: bool)
        ensures
            over == (self.phase is Terminated),
    {
        match self.phase {
            Phase::Terminated => true,
            _ => false,
        }
    }

    fn end(&mut self) -> (directive: Directive)
        ensures
            (*final(self), directive) == old(self).ended(),
    {
        self.phase = Phase::Terminated;
        Directive { notice: None, action: SessionAction::Terminate }
    }

    fn begin_turn(&mut self, notice: Option<Notice>) -> (directive: Directive)
        ensures
            (*final(self), directive) == old(self).next_turn(notice),
    {
        self.phase = Phase::Outbound;
        self.idle = true;
        Directive { notice, action: SessionAction::PollOutbound }
    }

    fn check_watchdog(&mut self, now: u64, notice: Option<Notice>) -> (directive: Directive)
        ensures
            (*final(self), directive) == old(self).watchdog(now, notice),
    {
        if now >= self.last_pong && now - self.last_pong > PONG_TIMEOUT * NANOS_PER_SEC {
            self.phase = Phase::Closing;
            Directive { notice, action: SessionAction::Deliver(RecvMsg::Close) }
        } else if self.idle {
            self.phase = Phase::Slept;
            Directive { notice, action: SessionAction::Sleep(IDLE_SLEEP_MICROS) }
        } else {
            self.begin_turn(notice)
        }
    }

    fn check_liveness(&mut self, now: u64, notice: Option<Notice>) -> (directive: Directive)
        ensures
            (*final(self), directive) == old(self).liveness(now, notice),
    {
        if now >= self.last_ping && now - self.last_ping > PING_INTERVAL * NANOS_PER_SEC {
            let nonce: u8 = if self.ping_nonce == u8::MAX {
                0
            } else {
                self.ping_nonce + 1
            };
            self.last_ping = now;
            self.ping_nonce = nonce;
            self.phase = Phase::PingSent;
            Directive { notice, action: SessionAction::SendPing(nonce) }
        } else {
            self.check_watchdog(now, notice)
        }
    }

    fn handle_outbound(&mut self, polled: Polled<SendMsg>) -> (directive: Directive)
        ensures
            (*final(self), directive) == old(self).on_outbound(polled),
    {
        match polled {
            Polled::Item(SendMsg::Msg(text)) => {
                self.phase = Phase::TextSent;
                self.idle = false;
                Directive { notice: None, action: SessionAction::SendText(text) }
            },
            Polled::Item(SendMsg::Stop) => self.end(),
            Polled::Empty => {
                self.phase = Phase::Transport;
                Directive { notice: None, action: SessionAction::PollTransport }
            },
            Polled::Disconnected => self.end(),
        }
    }

    fn handle_frame(&mut self, frame: Frame, now: u64) -> (directive: Directive)
        ensures
            (*final(self), directive) == old(self).on_frame(frame, now),
    {
        self.idle = false;
        match frame {
            Frame::Text(text) => {
                self.phase = Phase::TextDelivered;
                Directive { notice: None, action: SessionAction::Deliver(RecvMsg::Msg(text)) }
            },
            Frame::Binary(_) => self.check_liveness(now, Some(Notice::UnexpectedBinary)),
            Frame::Close => {
                self.phase = Phase::Closing;
                Directive { notice: None, action: SessionAction::Deliver(RecvMsg::Close) }
            },
            Frame::Ping(payload) => {
                self.phase = Phase::PongSent;
                Directive { notice: None, action: SessionAction::SendPong(payload) }
            },
            Frame::Pong(_) => {
                self.last_pong = now;
                self.check_liveness(now, None)
            },
        }
    }

    /// Takes the driver's report of what the last action came to, read at
    /// time `now`, and says what to do next.
    pub fn step(&mut self, event: SessionEvent, now: u64) -> (directive: Directive)
        ensures
            (*final(self), directive) == old(self).next(event, now),
    {
        match (self.phase, event) {
            (Phase::Outbound, SessionEvent::Outbound(polled)) => self.handle_outbound(polled),
            (Phase::TextSent, SessionEvent::Completed(sent)) => {
                self.phase = Phase::Transport;
                let notice = if sent {
                    None
                } else {
                    Some(Notice::SendFailed)
                };
                Directive { notice, action: SessionAction::PollTransport }
            },
            (Phase::Transport, SessionEvent::Transport(Ok(frame))) => self.handle_frame(frame, now),
            (Phase::Transport, SessionEvent::Transport(Err(fault))) => {
                let notice = classify_fault(fault);
                self.check_liveness(now, notice)
            },
            (Phase::TextDelivered, SessionEvent::Completed(delivered)) => {
                if delivered {
                    self.check_liveness(now, None)
                } else {
                    self.end()
                }
            },
            (Phase::PongSent, SessionEvent::Completed(_)) => self.check_liveness(now, None),
            (Phase::PingSent, SessionEvent::Completed(_)) => self.check_watchdog(now, None),
            (Phase::Closing, SessionEvent::Completed(_)) => self.end(),
            (Phase::Slept, SessionEvent::Completed(_)) => self.begin_turn(None),
            _ => self.end(),
        }
    }
}

/// Sorts a failed read into what is swallowed and what is worth a line in
/// the log.
pub fn classify_fault(fault: Fault) -> (notice: Option<Notice>)
    ensures
        notice == fault_notice(fault),
{
    match fault {
        Fault::Protocol => None,
        Fault::DataFrame => None,
        Fault::NoData => None,
        Fault::WouldBlock => None,
        other => Some(Notice::TransportFault(other)),
    }
}

/// Once a session is over it stays over: every later report is answered with
/// `Terminate`.
pub proof fn terminated_is_final(s: Session, event: SessionEvent, now: u64)
    requires
        s.phase is Terminated,
    ensures
        s.next(event, now).0 == s,
        s.next(event, now).1 == (Directive { notice: None, action: SessionAction::Terminate }),
{
}

/// The watchdog: once a ping is out and more than the pong timeout has
/// passed since the last pong, the session hands the close message to the
/// inbound queue, and the report that follows ends it.
pub proof fn silent_connection_is_closed(
    s: Session,
    pinged: bool,
    now: u64,
    later: SessionEvent,
    then: u64,
)
    requires
        s.phase is PingSent,
        s.pong_expired(now),
    ensures
        s.next(SessionEvent::Completed(pinged), now).1.action == SessionAction::Deliver(
            RecvMsg::Close,
        ),
        s.next(SessionEvent::Completed(pinged), now).0.next(later, then).0.phase is Terminated,
        s.next(SessionEvent::Completed(pinged), now).0.next(later, then).1.action is Terminate,
{
}

/// The close message reaches the inbound queue for two reasons only: the
/// relay closed the connection, or the pong timeout ran out.
pub proof fn close_is_delivered_for_cause(s: Session, event: SessionEvent, now: u64)
    requires
        s.next(event, now).1.action == SessionAction::Deliver(RecvMsg::Close),
    ensures
        event == SessionEvent::Transport(Ok(Frame::Close)) || s.next(event, now).0.pong_expired(
            now,
        ),
        s.next(event, now).0.phase is Closing,
{
}

/// A turn is never closed over a silent connection: the session rests or
/// begins a new turn at the end of one only if the pong timeout has not run
/// out.
pub proof fn turn_ends_only_while_alive(s: Session, event: SessionEvent, now: u64)
    requires
        !(s.phase is Slept),
        s.next(event, now).0.phase is Slept || s.next(event, now).0.phase is Outbound,
    ensures
        !s.next(event, now).0.pong_expired(now),
{
}

/// A ping goes out only when more than the ping interval has passed since
/// the last one; it carries the nonce after the last one, and the ping timer
/// starts again.
pub proof fn ping_carries_next_nonce(s: Session, event: SessionEvent, now: u64, nonce: u8)
    requires
        s.next(event, now).1.action == SessionAction::SendPing(nonce),
    ensures
        s.ping_due(now),
        nonce == next_nonce(s.ping_nonce),
        s.next(event, now).0.ping_nonce == nonce,
        s.next(event, now).0.last_ping == now,
        s.next(event, now).0.phase is PingSent,
{
}

/// The session rests only after a turn that took nothing from the outbound
/// queue and read no frame.
pub proof fn sleeps_only_when_idle(s: Session, event: SessionEvent, now: u64)
    requires
        s.next(event, now).1.action is Sleep,
    ensures
        s.next(event, now).0.idle,
        !(event is Transport) || event == SessionEvent::Transport(Err(event->Transport_0->Err_0)),
        s.next(event, now).1.action == SessionAction::Sleep(IDLE_SLEEP_MICROS),
{
}

/// Payloads pass through the session unchanged: a queued text is sent as it
/// is, a text frame is delivered as it is, and a ping is answered with its
/// own payload.
pub proof fn payloads_pass_unchanged(s: Session, now: u64, text: String, payload: Vec<u8>)
    ensures
        s.phase is Outbound ==> s.next(
            SessionEvent::Outbound(Polled::Item(SendMsg::Msg(text))),
            now,
        ).1.action == SessionAction::SendText(text),
        s.phase is Transport ==> s.next(
            SessionEvent::Transport(Ok(Frame::Text(text))),
            now,
        ).1.action == SessionAction::Deliver(RecvMsg::Msg(text)),
        s.phase is Transport ==> s.next(
            SessionEvent::Transport(Ok(Frame::Ping(payload))),
            now,
        ).1.action == SessionAction::SendPong(payload),
{
}

} // verus!
