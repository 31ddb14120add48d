//! One client session as a state machine. The machine makes every decision
//! of a session — which response to send, whether to negotiate the control
//! channel, which backend to dial, when the session is closed — while the
//! caller performs the I/O each action asks for and feeds the outcome back
//! as the next event.
//!
//! A session runs strictly forward:
//! `Accepted → ReadingFirstPayload → {SendingUpgradeResponse | SendingStatusResponse → Peeking}
//! → Dialing → Relaying → Closed`, and any failure on the way closes it.
//! Each session answers the first payload with exactly one response line —
//! the switching-protocols answer on the control path, the `200` line with
//! the status text on the standard path — so a client is never sent two
//! different status lines on one session.

use vstd::prelude::*;

use crate::negotiator::is_control_request;
use crate::negotiator::detect_control_upgrade;
use crate::response::status_response_bytes;
use crate::response::switching_protocols_bytes;
use crate::response::standard_response;
use crate::response::switching_protocols_response;
use crate::selector::Backend;
use crate::selector::PeekOutcome;
use crate::selector::peeked_view;
use crate::selector::selected_backend;
use crate::selector::select_from_peek;

verus! {

/// How a session was negotiated: the standard peek-and-select path, or the
/// in-band control-channel upgrade.
#[derive(Clone, Copy, Debug, PartialEq, Eq, Structural)]
pub enum Mode {
    Standard,
    ControlUpgrade,
}

/// The stations of a session, passed strictly in order.
#[derive(Clone, Copy, Debug, PartialEq, Eq, Structural)]
pub enum SessionState {
    Accepted,
    ReadingFirstPayload,
    SendingUpgradeResponse,
    SendingStatusResponse,
    Peeking,
    Dialing,
    Relaying,
    Closed,
}

/// What happened outside: the outcome of the I/O step the machine last
/// asked for.
#[derive(Debug)]
pub enum Event {
    /// The session is to begin.
    Start,
    /// The first read returned these bytes (empty on immediate end-of-stream).
    FirstPayload(Vec<u8>),
    /// The first read failed.
    FirstReadFailed,
    /// The requested response was written in full.
    WriteDone,
    /// The requested response could not be written.
    WriteFailed,
    /// The bounded look-ahead finished with this outcome.
    Peeked(PeekOutcome),
    /// The backend connection was established.
    DialDone,
    /// The backend connection could not be established.
    DialFailed,
    /// The relay ended; the totals are client-to-backend and
    /// backend-to-client bytes.
    RelayFinished(u64, u64),
}

/// What the machine asks the caller to do next.
#[derive(Debug)]
pub enum Action {
    /// Read the first payload from the client.
    ReadFirstPayload,
    /// Write these bytes to the client.
    Send(Vec<u8>),
    /// Look ahead at the client's pending bytes without consuming them.
    Peek,
    /// Connect to this backend.
    Dial(Backend),
    /// Relay bytes in both directions until either side ends.
    StartRelay,
    /// Tear the session down.
    Close,
}

/// The mathematical image of a session.
pub struct SessionModel {
    pub state: SessionState,
    pub mode: Option<Mode>,
    pub backend: Option<Backend>,
    pub status: Seq<u8>,
    pub client_to_backend: u64,
    pub backend_to_client: u64,
}

/// The mathematical image of an event; a peek outcome appears as the bytes
/// it contributes (a timeout or failure as the empty payload).
pub enum EventModel {
    Start,
    FirstPayload(Seq<u8>),
    FirstReadFailed,
    WriteDone,
    WriteFailed,
    Peeked(Seq<u8>),
    DialDone,
    DialFailed,
    RelayFinished(u64, u64),
}

/// The mathematical image of an action.
pub enum ActionModel {
    ReadFirstPayload,
    Send(Seq<u8>),
    Peek,
    Dial(Backend),
    StartRelay,
    Close,
}

impl View for Event {
    type V = EventModel;

    open spec fn view(&self) -> EventModel {
        match self {
            Event::Start => EventModel::Start,
            Event::FirstPayload(p) => EventModel::FirstPayload(p@),
            Event::FirstReadFailed => EventModel::FirstReadFailed,
            Event::WriteDone => EventModel::WriteDone,
            Event::WriteFailed => EventModel::WriteFailed,
            Event::Peeked(o) => EventModel::Peeked(peeked_view(*o)),
            Event::DialDone => EventModel::DialDone,
            Event::DialFailed => EventModel::DialFailed,
            Event::RelayFinished(a, b) => EventModel::RelayFinished(*a, *b),
        }
    }
}

impl View for Action {
    type V = ActionModel;

    open spec fn view(&self) -> ActionModel {
        match self {
            Action::ReadFirstPayload => ActionModel::ReadFirstPayload,
            Action::Send(v) => ActionModel::Send(v@),
            Action::Peek => ActionModel::Peek,
            Action::Dial(b) => ActionModel::Dial(*b),
            Action::StartRelay => ActionModel::StartRelay,
            Action::Close => ActionModel::Close,
        }
    }
}

/// A session that was just accepted, before anything happened on it.
pub open spec fn fresh_session(status: Seq<u8>) -> SessionModel {
    SessionModel {
        state: SessionState::Accepted,
        mode: None,
        backend: None,
        status: status,
        client_to_backend: 0,
        backend_to_client: 0,
    }
}

/// Well-formedness of a session: the mode is decided exactly when the first
/// payload has been inspected, the backend exactly when dialing begins, a
/// control-upgrade session dials only the control endpoint, and the byte
/// counters are written only when the session closes.
pub open spec fn session_wf(m: SessionModel) -> bool {
    &&& match m.state {
        SessionState::Accepted => m.mode is None && m.backend is None,
        SessionState::ReadingFirstPayload => m.mode is None && m.backend is None,
        SessionState::SendingUpgradeResponse => m.mode == Some(Mode::ControlUpgrade)
            && m.backend is None,
        SessionState::SendingStatusResponse => m.mode == Some(Mode::Standard)
            && m.backend is None,
        SessionState::Peeking => m.mode == Some(Mode::Standard) && m.backend is None,
        SessionState::Dialing => m.mode is Some && m.backend is Some && (m.mode == Some(
            Mode::ControlUpgrade,
        ) ==> m.backend == Some(Backend::Control)) && (m.mode == Some(Mode::Standard)
            ==> m.backend != Some(Backend::Control)),
        SessionState::Relaying => m.mode is Some && m.backend is Some && (m.mode == Some(
            Mode::ControlUpgrade,
        ) ==> m.backend == Some(Backend::Control)) && (m.mode == Some(Mode::Standard)
            ==> m.backend != Some(Backend::Control)),
        SessionState::Closed => true,
    }
    &&& (m.state != SessionState::Closed ==> m.client_to_backend == 0 && m.backend_to_client == 0)
}

/// The whole decision policy of a session: what the next state is and what
/// the caller is asked to do, for every state and event. An event that the
/// current state does not expect closes the session.
pub open spec fn session_step(m: SessionModel, e: EventModel) -> (SessionModel, ActionModel) {
    match (m.state, e) {
        (SessionState::Accepted, EventModel::Start) => (
            SessionModel { state: SessionState::ReadingFirstPayload, ..m },
            ActionModel::ReadFirstPayload,
        ),
        (SessionState::ReadingFirstPayload, EventModel::FirstPayload(p)) => if is_control_request(
            p,
        ) {
            (
                SessionModel {
                    state: SessionState::SendingUpgradeResponse,
                    mode: Some(Mode::ControlUpgrade),
                    ..m
                },
                ActionModel::Send(switching_protocols_bytes()),
            )
        } else {
            (
                SessionModel {
                    state: SessionState::SendingStatusResponse,
                    mode: Some(Mode::Standard),
                    ..m
                },
                ActionModel::Send(status_response_bytes(m.status)),
            )
        },
        (SessionState::SendingUpgradeResponse, EventModel::WriteDone) => (
            SessionModel {
                state: SessionState::Dialing,
                backend: Some(Backend::Control),
                ..m
            },
            ActionModel::Dial(Backend::Control),
        ),
        (SessionState::SendingStatusResponse, EventModel::WriteDone) => (
            SessionModel { state: SessionState::Peeking, ..m },
            ActionModel::Peek,
        ),
        (SessionState::Peeking, EventModel::Peeked(p)) => (
            SessionModel {
                state: SessionState::Dialing,
                backend: Some(selected_backend(p)),
                ..m
            },
            ActionModel::Dial(selected_backend(p)),
        ),
        (SessionState::Dialing, EventModel::DialDone) => (
            SessionModel { state: SessionState::Relaying, ..m },
            ActionModel::StartRelay,
        ),
        (SessionState::Relaying, EventModel::RelayFinished(a, b)) => (
            SessionModel {
                state: SessionState::Closed,
                client_to_backend: a,
                backend_to_client: b,
                ..m
            },
            ActionModel::Close,
        ),
        _ => (SessionModel { state: SessionState::Closed, ..m }, ActionModel::Close),
    }
}

/// One client session, driven by `step`.
pub struct Session {
    pub state: SessionState,
    pub mode: Option<Mode>,
    pub backend: Option<Backend>,
    pub status: Vec<u8>,
    pub client_to_backend: u64,
    pub backend_to_client: u64,
}

impl View for Session {
    type V = SessionModel;

    open spec fn view(&self) -> SessionModel {
        SessionModel {
            state: self.state,
            mode: self.mode,
            backend: self.backend,
            status: self.status@,
            client_to_backend: self.client_to_backend,
            backend_to_client: self.backend_to_client,
        }
    }
}

impl Session {
    pub open spec fn wf(&self) -> bool {
        session_wf(self@)
    }

    /// A freshly accepted session carrying the configured status text.
    pub fn new(status: Vec<u8>) -> (s: Session)
        ensures
            s@ == fresh_session(status@),
            s.wf(),
    {
        Session {
            state: SessionState::Accepted,
            mode: None,
            backend: None,
            status: status,
            client_to_backend: 0,
            backend_to_client: 0,
        }
    }

    /// Advance the session by one event and return the action the caller
    /// is to perform next; the machine follows `session_step` exactly.
    pub fn step(&mut self, event: Event) -> (a: Action)
        requires
            old(self).wf(),
        ensures
            final(self).wf(),
            (final(self)@, a@) == session_step(old(self)@, event@),
    {
        match event {
            Event::Start => {
                match self.state {
                    SessionState::Accepted => {
                        self.state = SessionState::ReadingFirstPayload;
                        Action::ReadFirstPayload
                    },
                    _ => self.close(),
                }
            },
            Event::FirstPayload(p) => {
                match self.state {
                    SessionState::ReadingFirstPayload => {
                        if detect_control_upgrade(p.as_slice()) {
                            self.state = SessionState::SendingUpgradeResponse;
                            self.mode = Some(Mode::ControlUpgrade);
                            Action::Send(switching_protocols_response())
                        } else {
                            self.state = SessionState::SendingStatusResponse;
                            self.mode = Some(Mode::Standard);
                            Action::Send(standard_response(self.status.as_slice()))
                        }
                    },
                    _ => self.close(),
                }
            },
            Event::WriteDone => {
                match self.state {
                    SessionState::SendingUpgradeResponse => {
                        self.state = SessionState::Dialing;
                        self.backend = Some(Backend::Control);
                        Action::Dial(Backend::Control)
                    },
                    SessionState::SendingStatusResponse => {
                        self.state = SessionState::Peeking;
                        Action::Peek
                    },
                    _ => self.close(),
                }
            },
            Event::Peeked(o) => {
                match self.state {
                    SessionState::Peeking => {
                        let b = select_from_peek(&o);
                        self.state = SessionState::Dialing;
                        self.backend = Some(b);
                        Action::Dial(b)
                    },
                    _ => self.close(),
                }
            },
            Event::DialDone => {
                match self.state {
                    SessionState::Dialing => {
                        self.state = SessionState::Relaying;
                        Action::StartRelay
                    },
                    _ => self.close(),
                }
            },
            Event::RelayFinished(a, b) => {
                match self.state {
                    SessionState::Relaying => {
                        self.state = SessionState::Closed;
                        self.client_to_backend = a;
                        self.backend_to_client = b;
                        Action::Close
                    },
                    _ => self.close(),
                }
            },
            Event::FirstReadFailed => self.close(),
            Event::WriteFailed => self.close(),
            Event::DialFailed => self.close(),
        }
    }

    /// Close the session, leaving everything but the state as it was.
    fn close(&mut self) -> (a: Action)
        ensures
            final(self)@ == (SessionModel { state: SessionState::Closed, ..old(self)@ }),
            a@ == ActionModel::Close,
    {
        self.state = SessionState::Closed;
        Action::Close
    }
}

/// The mode and the backend of a session, once decided, never change: no
/// event moves a session to another backend.
pub proof fn lemma_choice_immutable(m: SessionModel, e: EventModel)
    requires
        session_wf(m),
    ensures
        m.mode is Some ==> session_step(m, e).0.mode == m.mode,
        m.backend is Some ==> session_step(m, e).0.backend == m.backend,
{
}

/// A control-upgrade request in the first payload decides the session: it
/// is answered with the switching-protocols response, and the selector is
/// bypassed for good — a control-upgrade session never peeks, and the only
/// backend it can dial is the control endpoint.
pub proof fn lemma_control_bypasses_selector(m: SessionModel, e: EventModel, p: Seq<u8>)
    requires
        session_wf(m),
    ensures
        m.state == SessionState::ReadingFirstPayload && is_control_request(p) ==> session_step(
            m,
            EventModel::FirstPayload(p),
        ) == (
            SessionModel {
                state: SessionState::SendingUpgradeResponse,
                mode: Some(Mode::ControlUpgrade),
                ..m
            },
            ActionModel::Send(switching_protocols_bytes()),
        ),
        m.mode == Some(Mode::ControlUpgrade) ==> !(session_step(m, e).1 is Peek),
        m.mode == Some(Mode::ControlUpgrade) ==> (session_step(m, e).1 matches ActionModel::Dial(
            b,
        ) ==> b == Backend::Control),
{
}

/// The status response is sent before any routing: a peek is asked for
/// only once the status response has been written, and the transition into
/// `SendingStatusResponse` is the one that sends the status text.
pub proof fn lemma_status_precedes_peek(m: SessionModel, e: EventModel)
    requires
        session_wf(m),
    ensures
        session_step(m, e).1 is Peek ==> m.state == SessionState::SendingStatusResponse,
        session_step(m, e).0.state == SessionState::SendingStatusResponse ==> session_step(
            m,
            e,
        ).1 == ActionModel::Send(status_response_bytes(m.status)),
{
}

/// A failed backend dial closes the session cleanly, without a relay.
pub proof fn lemma_dial_failure_closes(m: SessionModel)
    requires
        session_wf(m),
    ensures
        session_step(m, EventModel::DialFailed).0.state == SessionState::Closed,
        session_step(m, EventModel::DialFailed).1 == ActionModel::Close,
{
}

} // verus!
