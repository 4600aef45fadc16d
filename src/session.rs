//! Session loop of one gateway attempt, as a step function: the caller
//! hands in what happened (a message, a timer poll, a failed write) and
//! performs the actions that come back.
use vstd::prelude::*;
use crate::backoff::Termination;
use crate::frame::{decode_frame, same_text, Frame, OP_HEARTBEAT, OP_HEARTBEAT_ACK, OP_HELLO};
use crate::heartbeat::HeartbeatState;
use crate::json::{is_json, json_str_at, json_text_at, json_u64_at};

verus! {

/// Lifecycle of one session. `Closed` is absorbing.
#[derive(Clone, Copy, Debug, PartialEq, Eq, Structural)]
pub enum ConnectionState {
    Connecting,
    Identified,
    Live,
    Closed,
}

/// What the transport or the clock reported.
pub enum Input {
    /// A text message arrived.
    Text(String),
    /// A transport-level ping arrived with this payload.
    Ping(Vec<u8>),
    /// The server sent a close frame.
    Close,
    /// The stream ended without a close frame.
    Ended,
    /// Reading from the transport failed.
    ReadError,
    /// Writing to the transport failed.
    WriteFailed,
    /// The heartbeat timer fired.
    Tick,
    /// Any other message (binary, pong): ignored.
    Other,
}

/// An application event for the caller's handler.
pub struct Dispatch {
    pub event: String,
    pub data: Option<String>,
}

/// What the caller is to do after a step, in this order: send a heartbeat,
/// answer a ping, hand an event to its handler, end the attempt.
pub struct Step {
    pub send_heartbeat: bool,
    pub pong: Option<Vec<u8>>,
    pub dispatch: Option<Dispatch>,
    pub stop: Option<Termination>,
}

impl Step {
    pub open spec fn idle() -> Step {
        Step { send_heartbeat: false, pong: None, dispatch: None, stop: None }
    }

    pub fn none() -> (r: Step)
        ensures
            r == Step::idle(),
    {
        Step { send_heartbeat: false, pong: None, dispatch: None, stop: None }
    }
}

/// The event, if any, that a frame with event name `t` and payload `d` hands to the handler.
pub open spec fn dispatch_of(t: Option<String>, d: Option<String>) -> Option<Dispatch> {
    match t {
        Some(name) => Some(Dispatch { event: name, data: d }),
        None => None,
    }
}

/// `d` is what a frame with text `text` hands to the handler: its event
/// name and its payload, where it has an event name.
pub open spec fn text_dispatch(d: Option<Dispatch>, text: Seq<char>) -> bool {
    match json_str_at(text, "/t"@) {
        Some(name) => d matches Some(x) && x.event@ == name && same_text(x.data, json_text_at(text, "/d"@)),
        None => d is None,
    }
}

/// Heartbeat state after a frame with opcode `op`, received at `now`;
/// `h` is the interval read from its payload.
pub open spec fn frame_heartbeat(hb: HeartbeatState, op: Option<u64>, h: Option<u64>, now: u64) -> HeartbeatState {
    if op == Some(OP_HEARTBEAT) {
        hb.sent(now)
    } else if op == Some(OP_HELLO) && h is Some {
        hb.hello(h->Some_0, now)
    } else if op == Some(OP_HEARTBEAT_ACK) {
        hb.acked()
    } else {
        hb
    }
}

/// Connection state after such a frame: the Hello that arms the heartbeat
/// timer makes an identified session live.
pub open spec fn frame_state(st: ConnectionState, hb: HeartbeatState, op: Option<u64>, h: Option<u64>) -> ConnectionState {
    if op == Some(OP_HELLO) && st == ConnectionState::Identified && hb.interval_ms is None
        && h is Some && h->Some_0 > 0 {
        ConnectionState::Live
    } else {
        st
    }
}

/// One session attempt: credentials, endpoint, lifecycle and heartbeat.
pub struct Session {
    pub token: String,
    pub gateway_url: String,
    pub state: ConnectionState,
    pub heartbeat: HeartbeatState,
}

impl Session {
    pub open spec fn wf(&self) -> bool {
        self.heartbeat.wf()
    }

    /// The same session with its connection state and heartbeat replaced.
    pub open spec fn with(self, st: ConnectionState, hb: HeartbeatState) -> Session {
        Session { state: st, heartbeat: hb, ..self }
    }

    /// A fresh session, connecting, with no heartbeat interval known yet.
    pub fn new(token: String, gateway_url: String) -> (r: Session)
        ensures
            r.token == token,
            r.gateway_url == gateway_url,
            r.state == ConnectionState::Connecting,
            r.heartbeat == HeartbeatState::empty(),
            r.wf(),
    {
        Session { token, gateway_url, state: ConnectionState::Connecting, heartbeat: HeartbeatState::new() }
    }

    /// Records that the Identify frame was sent.
    pub fn identified(&mut self)
        requires
            old(self).wf(),
        ensures
            final(self).wf(),
            *final(self) == old(self).with(
                if old(self).state == ConnectionState::Connecting {
                    ConnectionState::Identified
                } else {
                    old(self).state
                },
                old(self).heartbeat,
            ),
    {
        if self.state == ConnectionState::Connecting {
            self.state = ConnectionState::Identified;
        }
    }

    /// When the heartbeat timer next fires; none once the session is closed,
    /// so that no timer outlives its connection.
    pub fn heartbeat_due(&self) -> (r: Option<u64>)
        ensures
            r == (if self.state == ConnectionState::Closed { None } else { self.heartbeat.next_due }),
    {
        if self.state == ConnectionState::Closed {
            None
        } else {
            self.heartbeat.next_due
        }
    }

    /// Applies one decoded frame received at `now`.
    pub fn on_frame(&mut self, frame: Frame, now: u64) -> (r: Step)
        requires
            old(self).wf(),
            old(self).state != ConnectionState::Closed,
        ensures
            final(self).wf(),
            *final(self) == old(self).with(
                frame_state(old(self).state, old(self).heartbeat, frame.op, frame.heartbeat_interval),
                frame_heartbeat(old(self).heartbeat, frame.op, frame.heartbeat_interval, now),
            ),
            r == (Step {
                send_heartbeat: frame.op == Some(OP_HEARTBEAT),
                pong: None,
                dispatch: dispatch_of(frame.t, frame.d),
                stop: None,
            }),
    {
        let Frame { op, d, t, s: _, heartbeat_interval: h } = frame;
        let mut send_heartbeat = false;
        if op == Some(OP_HEARTBEAT) {
            self.heartbeat.on_sent(now);
            send_heartbeat = true;
        } else if op == Some(OP_HELLO) && h.is_some() {
            let armed = self.heartbeat.on_hello(h.unwrap(), now);
            if armed && self.state == ConnectionState::Identified {
                self.state = ConnectionState::Live;
            }
        } else if op == Some(OP_HEARTBEAT_ACK) {
            self.heartbeat.on_ack();
        }
        let dispatch = match t {
            Some(name) => Some(Dispatch { event: name, data: d }),
            None => None,
        };
        Step { send_heartbeat, pong: None, dispatch, stop: None }
    }

    /// Ends the session.
    fn close(&mut self, how: Termination) -> (r: Step)
        requires
            old(self).wf(),
        ensures
            final(self).wf(),
            *final(self) == old(self).with(ConnectionState::Closed, old(self).heartbeat),
            r == (Step { stop: Some(how), ..Step::idle() }),
    {
        self.state = ConnectionState::Closed;
        Step { send_heartbeat: false, pong: None, dispatch: None, stop: Some(how) }
    }

    /// One step of the session loop at time `now`.
    pub fn step(&mut self, input: Input, now: u64) -> (r: Step)
        requires
            old(self).wf(),
        ensures
            final(self).wf(),
            final(self).token == old(self).token,
            final(self).gateway_url == old(self).gateway_url,
            old(self).heartbeat.interval_ms is Some ==> final(self).heartbeat.interval_ms
                == old(self).heartbeat.interval_ms,
            final(self).heartbeat.outstanding ==> old(self).heartbeat.outstanding || r.send_heartbeat,
            r.send_heartbeat ==> final(self).heartbeat.last_sent_at == Some(now),
            r.stop is Some <==> (old(self).state != ConnectionState::Closed && final(self).state
                == ConnectionState::Closed),
            old(self).state == ConnectionState::Closed ==> *final(self) == *old(self) && r
                == Step::idle(),
            old(self).state != ConnectionState::Closed ==> match input {
                Input::Text(text) => {
                    &&& !is_json(text@) ==> *final(self) == *old(self) && r == Step::idle()
                    &&& is_json(text@) ==> {
                        let op = json_u64_at(text@, "/op"@);
                        let h = json_u64_at(text@, "/d/heartbeat_interval"@);
                        &&& *final(self) == old(self).with(
                            frame_state(old(self).state, old(self).heartbeat, op, h),
                            frame_heartbeat(old(self).heartbeat, op, h, now),
                        )
                        &&& r.send_heartbeat == (op == Some(OP_HEARTBEAT))
                        &&& text_dispatch(r.dispatch, text@)
                        &&& r.pong is None && r.stop is None
                    }
                },
                Input::Ping(p) => *final(self) == *old(self) && r == (Step { pong: Some(p), ..Step::idle() }),
                Input::Close => *final(self) == old(self).with(ConnectionState::Closed, old(self).heartbeat)
                    && r == (Step { stop: Some(Termination::Clean), ..Step::idle() }),
                Input::Ended | Input::ReadError | Input::WriteFailed => *final(self) == old(self).with(
                    ConnectionState::Closed,
                    old(self).heartbeat,
                ) && r == (Step { stop: Some(Termination::Error), ..Step::idle() }),
                Input::Tick => *final(self) == old(self).with(old(self).state, old(self).heartbeat.ticked(now))
                    && r == (Step { send_heartbeat: old(self).heartbeat.due(now), ..Step::idle() }),
                Input::Other => *final(self) == *old(self) && r == Step::idle(),
            },
    {
        if self.state == ConnectionState::Closed {
            return Step::none();
        }
        match input {
            Input::Text(text) => {
                match decode_frame(text.as_str()) {
                    Ok(frame) => self.on_frame(frame, now),
                    Err(_) => Step::none(),
                }
            },
            Input::Ping(p) => Step { send_heartbeat: false, pong: Some(p), dispatch: None, stop: None },
            Input::Close => self.close(Termination::Clean),
            Input::Ended | Input::ReadError | Input::WriteFailed => self.close(Termination::Error),
            Input::Tick => {
                let send = self.heartbeat.on_tick(now);
                Step { send_heartbeat: send, pong: None, dispatch: None, stop: None }
            },
            Input::Other => Step::none(),
        }
    }
}

/// A heartbeat asked for by the server is answered at once: the frame's step
/// sends one, records it as sent now, and leaves the periodic timer as it was.
pub proof fn lemma_server_request_answered_now(
    st: ConnectionState,
    hb: HeartbeatState,
    h: Option<u64>,
    now: u64,
)
    ensures
        frame_heartbeat(hb, Some(OP_HEARTBEAT), h, now) == hb.sent(now),
        frame_heartbeat(hb, Some(OP_HEARTBEAT), h, now).next_due == hb.next_due,
        frame_heartbeat(hb, Some(OP_HEARTBEAT), h, now).last_sent_at == Some(now),
        frame_state(st, hb, Some(OP_HEARTBEAT), h) == st,
{
}

/// A frame with an opcode that the protocol does not handle and no event
/// name has no effect: state, heartbeat and handler are untouched.
pub proof fn lemma_unknown_frame_no_effect(
    st: ConnectionState,
    hb: HeartbeatState,
    op: Option<u64>,
    d: Option<String>,
    h: Option<u64>,
    now: u64,
)
    requires
        op != Some(OP_HEARTBEAT),
        op != Some(OP_HELLO),
        op != Some(OP_HEARTBEAT_ACK),
    ensures
        frame_heartbeat(hb, op, h, now) == hb,
        frame_state(st, hb, op, h) == st,
        dispatch_of(None, d) is None,
{
}

} // verus!
