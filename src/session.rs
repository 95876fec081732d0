use vstd::prelude::*;

use crate::codec::{
    auth_outcome, auth_pass, auth_user, auth_well_formed, be_u16, decode_handshake,
    decode_request, decode_user_passwd, encode_reply, greeting_accepted, reply_bytes,
    request_dest, request_error, AddrView, DestinationAddress, RequestError,
};
use crate::config::App;
use vstd::utf8::encode_utf8;
use crate::socks5::{ATYPE_IP6, FAIL, REQUEST_CMD_CONNECT, USER_PASS_METHOD, USER_PASS_OK, VER};

verus! {

/// Where a session stands in its handshake or relay.
#[derive(Clone, Copy, Debug, PartialEq, Eq, Structural)]
pub enum Stage {
    /// Waiting for the client's greeting.
    Greeting,
    /// Waiting for the username/password sub-negotiation.
    Auth,
    /// Waiting for the CONNECT request.
    Request,
    /// Waiting for the outcome of dialing the destination.
    Dialing,
    /// Relaying: the next read is from the client.
    RelayFromClient,
    /// Relaying: the next read is from the destination.
    RelayFromDest,
    /// The session is over; both sockets are to be closed.
    Closed,
}

/// One of the two sockets of a session.
#[derive(Clone, Copy, Debug, PartialEq, Eq, Structural)]
pub enum Side {
    Client,
    Destination,
}

/// What the driver of a session observed.
#[derive(Debug)]
pub enum Event {
    /// Bytes read from the socket that the session awaits; none means end of stream.
    Received(Vec<u8>),
    /// The awaited socket reported end of stream or an I/O error.
    Eof,
    /// The destination was reached; the address is the one actually connected to.
    Dialed(DestinationAddress),
    /// The destination could not be reached within the timeout.
    DialFailed,
}

/// What the driver of a session is to do next.
#[derive(Debug)]
pub enum Action {
    /// Write these bytes to the client, then read as `awaiting` says.
    SendToClient(Vec<u8>),
    /// Write these bytes to the destination, then read as `awaiting` says.
    SendToDest(Vec<u8>),
    /// Open one TCP connection to this address and report the outcome.
    Dial(DestinationAddress),
    /// Write these bytes to the client, then close the session.
    SendToClientAndClose(Vec<u8>),
    /// Close the session without writing anything.
    Close,
}

pub enum EventView {
    Received(Seq<u8>),
    Eof,
    Dialed(AddrView),
    DialFailed,
}

pub enum ActionView {
    SendToClient(Seq<u8>),
    SendToDest(Seq<u8>),
    Dial(AddrView),
    SendToClientAndClose(Seq<u8>),
    Close,
}

impl View for Event {
    type V = EventView;

    open spec fn view(&self) -> EventView {
        match self {
            Event::Received(b) => EventView::Received(b@),
            Event::Eof => EventView::Eof,
            Event::Dialed(a) => EventView::Dialed(a@),
            Event::DialFailed => EventView::DialFailed,
        }
    }
}

impl View for Action {
    type V = ActionView;

    open spec fn view(&self) -> ActionView {
        match self {
            Action::SendToClient(b) => ActionView::SendToClient(b@),
            Action::SendToDest(b) => ActionView::SendToDest(b@),
            Action::Dial(a) => ActionView::Dial(a@),
            Action::SendToClientAndClose(b) => ActionView::SendToClientAndClose(b@),
            Action::Close => ActionView::Close,
        }
    }
}

/// The reply that selects username/password authentication.
pub open spec fn method_selected() -> Seq<u8> {
    seq![VER, USER_PASS_METHOD]
}

/// The reply to a sub-negotiation whose credentials match.
pub open spec fn auth_ok() -> Seq<u8> {
    seq![VER, USER_PASS_OK]
}

/// The two-byte failure reply.
pub open spec fn failure() -> Seq<u8> {
    seq![VER, FAIL]
}

/// The end of a session, with nothing more written.
pub open spec fn closed() -> (Stage, ActionView) {
    (Stage::Closed, ActionView::Close)
}

/// One step of a session: from its stage and what was observed, the next
/// stage and what to do, given the configured username and password bytes.
pub open spec fn next(stage: Stage, ev: EventView, user: Seq<u8>, pass: Seq<u8>) -> (
    Stage,
    ActionView,
) {
    match (stage, ev) {
        (Stage::Greeting, EventView::Received(b)) => {
            if greeting_accepted(b) {
                (Stage::Auth, ActionView::SendToClient(method_selected()))
            } else {
                closed()
            }
        },
        (Stage::Auth, EventView::Received(b)) => {
            if auth_outcome(b, user, pass) is Ok {
                (Stage::Request, ActionView::SendToClient(auth_ok()))
            } else {
                (Stage::Closed, ActionView::SendToClientAndClose(failure()))
            }
        },
        (Stage::Request, EventView::Received(b)) => {
            match request_error(b) {
                None => (Stage::Dialing, ActionView::Dial(request_dest(b))),
                Some(RequestError::BadVersion) | Some(RequestError::UnsupportedCommand) => {
                    (Stage::Closed, ActionView::SendToClientAndClose(failure()))
                },
                Some(_) => closed(),
            }
        },
        (Stage::Dialing, EventView::Dialed(a)) => {
            (Stage::RelayFromClient, ActionView::SendToClient(reply_bytes(a)))
        },
        (Stage::RelayFromClient, EventView::Received(b)) => {
            if b.len() > 0 {
                (Stage::RelayFromDest, ActionView::SendToDest(b))
            } else {
                closed()
            }
        },
        (Stage::RelayFromDest, EventView::Received(b)) => {
            if b.len() > 0 {
                (Stage::RelayFromClient, ActionView::SendToClient(b))
            } else {
                closed()
            }
        },
        _ => closed(),
    }
}

/// The socket whose next read a session in `stage` waits for.
pub open spec fn awaited(stage: Stage) -> Option<Side> {
    match stage {
        Stage::Greeting | Stage::Auth | Stage::Request | Stage::RelayFromClient => Some(
            Side::Client,
        ),
        Stage::RelayFromDest => Some(Side::Destination),
        Stage::Dialing | Stage::Closed => None,
    }
}

/// Stages reached only after the credentials matched.
pub open spec fn past_auth(stage: Stage) -> bool {
    stage == Stage::Request || stage == Stage::Dialing || stage == Stage::RelayFromClient
        || stage == Stage::RelayFromDest
}

/// Stages in which a destination has been decoded.
pub open spec fn has_target(stage: Stage) -> bool {
    stage == Stage::Dialing || stage == Stage::RelayFromClient || stage == Stage::RelayFromDest
}

/// A greeting whose version is not 5, whose method count is zero, or whose
/// method list lacks username/password ends the session with no reply.
pub proof fn lemma_bad_greeting_closes_silently(b: Seq<u8>, user: Seq<u8>, pass: Seq<u8>)
    requires
        b.len() >= 2,
        b[0] != VER || b[1] == 0 || (b.len() >= 2 + b[1] && !b.subrange(
            2,
            2 + b[1] as int,
        ).contains(USER_PASS_METHOD)),
    ensures
        next(Stage::Greeting, EventView::Received(b), user, pass) == closed(),
{
}

/// A valid greeting that offers username/password is answered with exactly `05 02`.
pub proof fn lemma_good_greeting_selects_user_pass(b: Seq<u8>, user: Seq<u8>, pass: Seq<u8>)
    requires
        b.len() >= 2,
        b[0] == VER,
        b[1] != 0,
        b.len() >= 2 + b[1],
        b.subrange(2, 2 + b[1] as int).contains(USER_PASS_METHOD),
    ensures
        next(Stage::Greeting, EventView::Received(b), user, pass) == (
            Stage::Auth,
            ActionView::SendToClient(seq![0x05u8, 0x02u8]),
        ),
{
}

/// A sub-negotiation with the configured credentials is answered with `05 00`
/// and the session goes on to the request.
pub proof fn lemma_matching_credentials_proceed(b: Seq<u8>, user: Seq<u8>, pass: Seq<u8>)
    requires
        auth_well_formed(b),
        auth_user(b) == user,
        auth_pass(b) == pass,
    ensures
        next(Stage::Auth, EventView::Received(b), user, pass) == (
            Stage::Request,
            ActionView::SendToClient(seq![0x05u8, 0x00u8]),
        ),
{
}

/// A sub-negotiation with other credentials is answered with `05 FF` and the
/// session ends: it never reaches the request.
pub proof fn lemma_wrong_credentials_terminate(b: Seq<u8>, user: Seq<u8>, pass: Seq<u8>)
    requires
        auth_well_formed(b),
        auth_user(b) != user || auth_pass(b) != pass,
    ensures
        next(Stage::Auth, EventView::Received(b), user, pass) == (
            Stage::Closed,
            ActionView::SendToClientAndClose(seq![0x05u8, 0xffu8]),
        ),
{
}

/// For an IPv6 CONNECT request the dialed port is the big-endian field at
/// bytes 20..22, right after the 16 address bytes at 4..20.
pub proof fn lemma_ipv6_port_follows_address(b: Seq<u8>, user: Seq<u8>, pass: Seq<u8>)
    requires
        b.len() >= 22,
        b[0] == VER,
        b[1] == REQUEST_CMD_CONNECT,
        b[3] == ATYPE_IP6,
    ensures
        next(Stage::Request, EventView::Received(b), user, pass) == (
            Stage::Dialing,
            ActionView::Dial((ATYPE_IP6, b.subrange(4, 20), be_u16(b[20], b[21]))),
        ),
{
}

/// A request whose command is not CONNECT is answered with `05 FF` and the
/// session ends without dialing.
pub proof fn lemma_other_command_refused(b: Seq<u8>, user: Seq<u8>, pass: Seq<u8>)
    requires
        b.len() >= 2,
        b[0] == VER,
        b[1] != REQUEST_CMD_CONNECT,
    ensures
        next(Stage::Request, EventView::Received(b), user, pass) == (
            Stage::Closed,
            ActionView::SendToClientAndClose(seq![0x05u8, 0xffu8]),
        ),
{
}

/// The server side of one accepted connection.
#[derive(Debug)]
pub struct Session {
    stage: Stage,
    authenticated: bool,
    target: Option<DestinationAddress>,
}

impl Session {
    pub closed spec fn spec_stage(&self) -> Stage {
        self.stage
    }

    pub closed spec fn spec_authenticated(&self) -> bool {
        self.authenticated
    }

    pub closed spec fn spec_target(&self) -> Option<AddrView> {
        match self.target {
            Some(a) => Some(a@),
            None => None,
        }
    }

    /// The authenticated flag is clear before the credential stage and set in
    /// every stage after it; a destination is held only once authenticated.
    pub closed spec fn wf(&self) -> bool {
        &&& past_auth(self.stage) ==> self.authenticated
        &&& (self.stage == Stage::Greeting || self.stage == Stage::Auth) ==> !self.authenticated
        &&& has_target(self.stage) ==> self.target.is_some()
        &&& !has_target(self.stage) && self.stage != Stage::Closed ==> self.target.is_none()
        &&& self.target.is_some() ==> self.authenticated
    }

    /// A session that waits for the client's greeting.
    pub fn new() -> (s: Session)
        ensures
            s.wf(),
            s.spec_stage() == Stage::Greeting,
            !s.spec_authenticated(),
            s.spec_target().is_none(),
    {
        Session { stage: Stage::Greeting, authenticated: false, target: None }
    }

    pub fn stage(&self) -> (r: Stage)
        ensures
            r == self.spec_stage(),
    {
        self.stage
    }

    pub fn is_authenticated(&self) -> (r: bool)
        ensures
            r == self.spec_authenticated(),
    {
        self.authenticated
    }

    /// The destination decoded from the request, once there is one.
    pub fn target(&self) -> (r: Option<DestinationAddress>)
        ensures
            match r {
                Some(a) => self.spec_target() == Some(a@),
                None => self.spec_target().is_none(),
            },
    {
        self.target
    }

    /// The socket to read next, or `None` while dialing and once closed.
    pub fn awaiting(&self) -> (r: Option<Side>)
        ensures
            r == awaited(self.spec_stage()),
    {
        match self.stage {
            Stage::Greeting | Stage::Auth | Stage::Request | Stage::RelayFromClient => Some(
                Side::Client,
            ),
            Stage::RelayFromDest => Some(Side::Destination),
            Stage::Dialing | Stage::Closed => None,
        }
    }

    /// Advances the session by one observed event, checking credentials
    /// against `app`'s username and password.
    pub fn step(&mut self, app: &App, event: Event) -> (act: Action)
        requires
            old(self).wf(),
        ensures
            final(self).wf(),
            (final(self).spec_stage(), act@) == next(
                old(self).spec_stage(),
                event@,
                encode_utf8(app.username@),
                encode_utf8(app.password@),
            ),
            final(self).spec_authenticated() == (old(self).spec_authenticated() || (old(
                self,
            ).spec_stage() == Stage::Auth && final(self).spec_stage() == Stage::Request)),
            act is Dial ==> old(self).spec_target().is_none() && final(self).spec_target()
                == Some(act->Dial_0@),
            old(self).spec_target().is_some() ==> final(self).spec_target() == old(
                self,
            ).spec_target(),
    {
        let user = app.username.as_str().as_bytes();
        let pass = app.password.as_str().as_bytes();
        let act = match (self.stage, event) {
            (Stage::Greeting, Event::Received(b)) => {
                if decode_handshake(b.as_slice()) {
                    self.stage = Stage::Auth;
                    Action::SendToClient(vec![VER, USER_PASS_METHOD])
                } else {
                    self.stage = Stage::Closed;
                    Action::Close
                }
            },
            (Stage::Auth, Event::Received(b)) => {
                match decode_user_passwd(b.as_slice(), user, pass) {
                    Ok(()) => {
                        self.stage = Stage::Request;
                        self.authenticated = true;
                        Action::SendToClient(vec![VER, USER_PASS_OK])
                    },
                    Err(_) => {
                        self.stage = Stage::Closed;
                        Action::SendToClientAndClose(vec![VER, FAIL])
                    },
                }
            },
            (Stage::Request, Event::Received(b)) => {
                match decode_request(b.as_slice()) {
                    Ok(a) => {
                        self.stage = Stage::Dialing;
                        self.target = Some(a);
                        Action::Dial(a)
                    },
                    Err(RequestError::BadVersion) | Err(RequestError::UnsupportedCommand) => {
                        self.stage = Stage::Closed;
                        Action::SendToClientAndClose(vec![VER, FAIL])
                    },
                    Err(_) => {
                        self.stage = Stage::Closed;
                        Action::Close
                    },
                }
            },
            (Stage::Dialing, Event::Dialed(a)) => {
                self.stage = Stage::RelayFromClient;
                Action::SendToClient(encode_reply(&a))
            },
            (Stage::RelayFromClient, Event::Received(b)) => {
                if b.len() > 0 {
                    self.stage = Stage::RelayFromDest;
                    Action::SendToDest(b)
                } else {
                    self.stage = Stage::Closed;
                    Action::Close
                }
            },
            (Stage::RelayFromDest, Event::Received(b)) => {
                if b.len() > 0 {
                    self.stage = Stage::RelayFromClient;
                    Action::SendToClient(b)
                } else {
                    self.stage = Stage::Closed;
                    Action::Close
                }
            },
            _ => {
                self.stage = Stage::Closed;
                Action::Close
            },
        };
        proof {
            assert(seq![VER, USER_PASS_METHOD] =~= method_selected());
        }
        act
    }
}

} // verus!
