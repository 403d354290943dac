//! The session coordinator: it brings up the link, waits until a way of
//! ingestion is chosen, and then runs that one pipeline until the end.
//!
//! The coordinator owns the link adapter and the state of both pipelines. It
//! is driven from outside: every message from the observer, every event on the
//! socket and every snapshot is handed to it, and it answers with the effects
//! to perform.

use vstd::prelude::*;
use vstd::string::*;
use crate::codec::{
    control_verdict, decode_control, decoded_view, parsed_view, position_verdict, read_pos_msg,
    DecodeErrorView,
};
use crate::event::{
    effects_view, emit, no_effects, Effect, EffectView, FromGuiToServer, FromTM, FromTMView, ToGUI,
    ToGUIView, ToTMView,
};
use crate::identity::{context_chars, identity_chars, obfuscated};
use crate::link::{outcome_view, LinkConnectError, LinkSession, LinkView};
use crate::maniaplanet_telemetry::{context_of, PollState, PollView, CONTEXT_INTERVAL_MS};
use crate::mp_telemetry_data::STelemetry;
use crate::position::{near_zero, MPos};
use crate::tcp_server::{no_team, shutdown_tcp_server, SocketPipeline, SocketView};

verus! {

/// Where the session stands.
#[derive(Clone, Copy, Debug, PartialEq, Eq)]
pub enum Phase {
    /// The link is not connected yet.
    AwaitingLink,
    /// The link is connected; no way of ingestion is chosen yet.
    AwaitingMethodChoice,
    /// The socket pipeline runs.
    Serving,
    /// The polling pipeline runs.
    Polling,
    /// Nothing runs any more.
    Terminated,
}

/// What the observer's channel holds for the session.
#[derive(Clone, Copy, Debug, PartialEq, Eq)]
pub enum Inbox {
    Message(FromGuiToServer),
    /// Nothing at the moment.
    Empty,
    /// The observer has dropped its end.
    Disconnected,
}

/// The name under which the link is opened.
pub open spec fn link_app_name() -> Seq<char> {
    "TM-Proximity-Chat"@
}

/// The description under which the link is opened.
pub open spec fn link_app_description() -> Seq<char> {
    "Bridge to TM2020 plugin for proximity chat"@
}

/// The coordinator with all that it owns.
pub struct Session {
    phase: Phase,
    ip_addr: String,
    port: u16,
    link: LinkSession,
    socket: SocketPipeline,
    poll: PollState,
}

/// What a `Session` holds.
#[verifier::ext_equal]
pub struct SessionView {
    pub phase: Phase,
    /// The address to listen on, as it was asked for.
    pub ip_addr: Seq<char>,
    /// The port to listen on, as it was asked for.
    pub port: u16,
    pub link: LinkView,
    pub socket: SocketView,
    pub poll: PollView,
}

/// Where one input leaves the session, and what is to be done.
#[verifier::ext_equal]
pub struct SessionStep {
    pub session: SessionView,
    pub effects: Seq<EffectView>,
}

impl View for Session {
    type V = SessionView;

    closed spec fn view(&self) -> SessionView {
        SessionView {
            phase: self.phase,
            ip_addr: self.ip_addr@,
            port: self.port,
            link: self.link@,
            socket: self.socket@,
            poll: self.poll@,
        }
    }
}

impl SessionView {
    /// What holds of every session that was made by `Session::new` and driven
    /// through its methods: a pipeline is chosen and run only with the link
    /// connected, the link is awaited only while it is not, and the listener
    /// is open exactly while the socket pipeline runs.
    pub open spec fn wf(self) -> bool {
        &&& (self.phase is AwaitingMethodChoice || self.phase is Serving || self.phase is Polling)
            ==> self.link.connected
        &&& self.phase is AwaitingLink ==> !self.link.connected
        &&& self.socket.listening <==> self.phase is Serving
    }

    /// The session before it is started.
    pub open spec fn initial(version: Seq<char>, ip_addr: Seq<char>, port: u16) -> SessionView {
        SessionView {
            phase: Phase::AwaitingLink,
            ip_addr,
            port,
            link: LinkView::initial(),
            socket: SocketView::initial(version),
            poll: PollView::initial(0),
        }
    }

    /// Nothing happens.
    pub open spec fn idle(self) -> SessionStep {
        SessionStep { session: self, effects: Seq::empty() }
    }

    /// A request to connect the link: the link is to be opened, or, where a
    /// session is open already, the observer is told so and that session stays.
    pub open spec fn connect_requested(self) -> SessionStep {
        if self.link.connected {
            SessionStep {
                session: self,
                effects: seq![
                    EffectView::Forward(ToGUIView::MumbleError("Mumble already connected"@)),
                    EffectView::Forward(ToGUIView::IsConnected(true)),
                ],
            }
        } else {
            SessionStep {
                session: self,
                effects: seq![
                    EffectView::OpenLink {
                        name: link_app_name(),
                        description: link_app_description(),
                    },
                ],
            }
        }
    }

    /// The start of the session: the link is asked for.
    pub open spec fn started(self) -> SessionStep {
        if self.phase is AwaitingLink {
            self.connect_requested()
        } else {
            self.idle()
        }
    }

    /// An attempt to open the link came back. The observer is told whether the
    /// link is connected, and why not; with the link connected the session
    /// waits for the choice of a pipeline.
    pub open spec fn link_opened(self, outcome: Result<(), Seq<char>>) -> SessionStep {
        if self.phase is AwaitingLink {
            let link = self.link.opened(outcome);
            SessionStep {
                session: SessionView {
                    phase: if link.connected {
                        Phase::AwaitingMethodChoice
                    } else {
                        Phase::AwaitingLink
                    },
                    link,
                    ..self
                },
                effects: seq![EffectView::Forward(ToGUIView::IsConnected(link.connected))] + (
                if link.connected {
                    Seq::empty()
                } else {
                    seq![EffectView::Forward(ToGUIView::MumbleError(link.last_error))]
                }),
            }
        } else {
            self.idle()
        }
    }

    /// The end of the session: a listener that is open is closed, and nothing
    /// runs any more.
    pub open spec fn halted(self) -> SessionStep {
        let stop = self.socket.stopped();
        SessionStep {
            session: SessionView { phase: Phase::Terminated, socket: stop.socket, ..self },
            effects: stop.effects,
        }
    }

    /// The choice of the socket pipeline: the listener is opened.
    pub open spec fn serving(self) -> SessionStep {
        let listen = self.socket.listened(self.ip_addr, self.port);
        SessionStep {
            session: SessionView { phase: Phase::Serving, socket: listen.socket, ..self },
            effects: listen.effects,
        }
    }

    /// The choice of the polling pipeline, which starts at the time `now`.
    pub open spec fn polling(self, now: u64) -> SessionStep {
        SessionStep {
            session: SessionView { phase: Phase::Polling, poll: PollView::initial(now), ..self },
            effects: Seq::empty(),
        }
    }

    /// What the observer's channel held at the time `now`. A shutdown, or the
    /// loss of the observer, ends the session in any phase. A request to
    /// connect counts while the link is awaited, and the choice of a pipeline
    /// while that is awaited; everything else is passed over.
    pub open spec fn inbox(self, inbox: Inbox, now: u64) -> SessionStep {
        if self.phase is Terminated {
            self.idle()
        } else {
            match inbox {
                Inbox::Empty => self.idle(),
                Inbox::Disconnected => self.halted(),
                Inbox::Message(FromGuiToServer::Shutdown()) => self.halted(),
                Inbox::Message(FromGuiToServer::TryConnectMumble()) => if self.phase is AwaitingLink {
                    self.connect_requested()
                } else {
                    self.idle()
                },
                Inbox::Message(FromGuiToServer::UseSocketServer()) => if self.phase
                    is AwaitingMethodChoice {
                    self.serving()
                } else {
                    self.idle()
                },
                Inbox::Message(FromGuiToServer::UseManiaPlanetTelemetry()) => if self.phase
                    is AwaitingMethodChoice {
                    self.polling(now)
                } else {
                    self.idle()
                },
            }
        }
    }

    /// A peer was accepted on the socket.
    pub open spec fn accepted(self, peer: u64, addr: Seq<char>) -> SessionStep {
        if self.phase is Serving {
            SessionStep { session: self, effects: self.socket.accepted(self.link, peer, addr).effects }
        } else {
            self.idle()
        }
    }

    /// A frame from `peer` was decoded. Frames count while the socket pipeline
    /// runs, which it does with the link connected.
    pub open spec fn received(
        self,
        visible: bool,
        peer: u64,
        decoded: Result<FromTMView, DecodeErrorView>,
    ) -> SessionStep {
        if self.phase is Serving && self.link.connected {
            let step = self.socket.received(self.link, visible, peer, decoded);
            SessionStep {
                session: SessionView { socket: step.socket, link: step.link, ..self },
                effects: step.effects,
            }
        } else {
            self.idle()
        }
    }

    /// The peer at `addr` is gone.
    pub open spec fn peer_lost(self, addr: Seq<char>) -> SessionStep {
        if self.phase is Serving && self.link.connected {
            let step = self.socket.disconnected(self.link, addr);
            SessionStep {
                session: SessionView { socket: step.socket, link: step.link, ..self },
                effects: step.effects,
            }
        } else {
            self.idle()
        }
    }

    /// A snapshot of the telemetry was taken at `now`.
    pub open spec fn snapshot(self, t: STelemetry, now: u64, converted: MPos) -> SessionStep {
        if self.phase is Polling && self.link.connected {
            let step = self.poll.polled(self.link, t, now, converted);
            SessionStep {
                session: SessionView { poll: step.poll, link: step.link, ..self },
                effects: step.effects,
            }
        } else {
            self.idle()
        }
    }

    /// The telemetry could not be read: the polling pipeline ends, and with it
    /// the session. Nothing is pushed to the link and nothing goes outward.
    pub open spec fn telemetry_lost(self) -> SessionStep {
        if self.phase is Polling {
            SessionStep { session: SessionView { phase: Phase::Terminated, ..self }, effects: Seq::empty() }
        } else {
            self.idle()
        }
    }
}

/// Anything that can happen to a session.
pub enum Input {
    Start,
    LinkOpened(Result<(), Seq<char>>),
    Inbox(Inbox, u64),
    Accepted(u64, Seq<char>),
    Received(bool, u64, Result<FromTMView, DecodeErrorView>),
    PeerLost(Seq<char>),
    Snapshot(STelemetry, u64, MPos),
    TelemetryLost,
}

impl SessionView {
    /// Where `input` leaves the session, and what is to be done.
    pub open spec fn step(self, input: Input) -> SessionStep {
        match input {
            Input::Start => self.started(),
            Input::LinkOpened(outcome) => self.link_opened(outcome),
            Input::Inbox(inbox, now) => self.inbox(inbox, now),
            Input::Accepted(peer, addr) => self.accepted(peer, addr),
            Input::Received(visible, peer, decoded) => self.received(visible, peer, decoded),
            Input::PeerLost(addr) => self.peer_lost(addr),
            Input::Snapshot(t, now, converted) => self.snapshot(t, now, converted),
            Input::TelemetryLost => self.telemetry_lost(),
        }
    }
}

/// A new session is well formed, and whatever happens to a well-formed session
/// leaves it well formed.
pub proof fn lemma_well_formed(
    version: Seq<char>,
    ip_addr: Seq<char>,
    port: u16,
    s: SessionView,
    input: Input,
)
    ensures
        SessionView::initial(version, ip_addr, port).wf(),
        s.wf() ==> s.step(input).session.wf(),
{
}

/// Nothing is processed after the end: a terminated session stays as it is,
/// whatever happens, and asks for nothing.
pub proof fn lemma_terminated_is_final(s: SessionView, input: Input)
    requires
        s.phase is Terminated,
    ensures
        s.step(input) == s.idle(),
{
}

/// The pipeline that was chosen is never exchanged for the other: a session
/// that serves the socket goes on serving or ends, and one that polls goes on
/// polling or ends.
pub proof fn lemma_chosen_pipeline_stays(s: SessionView, input: Input)
    ensures
        s.phase is Serving ==> s.step(input).session.phase is Serving || s.step(
            input,
        ).session.phase is Terminated,
        s.phase is Polling ==> s.step(input).session.phase is Polling || s.step(
            input,
        ).session.phase is Terminated,
{
}

/// A shutdown is honored in every phase: it ends the session.
pub proof fn lemma_shutdown_terminates(s: SessionView, now: u64)
    ensures
        s.step(Input::Inbox(Inbox::Message(FromGuiToServer::Shutdown()), now)).session.phase
            is Terminated,
        s.step(Input::Inbox(Inbox::Disconnected, now)).session.phase is Terminated,
{
}

/// There is one link session at most: once the link is connected it is never
/// opened again, it stays connected, and its nonce never falls.
pub proof fn lemma_one_link_session(s: SessionView, input: Input)
    requires
        s.link.connected,
    ensures
        s.step(input).session.link.connected,
        s.step(input).session.link.nonce >= s.link.nonce,
        forall|i: int|
            0 <= i < s.step(input).effects.len() ==> !(#[trigger] s.step(input).effects[i]
                is OpenLink),
{
}

/// A control message that is no JSON is reported and otherwise passed over:
/// while the socket pipeline runs, whatever the text and whatever the parser's
/// reason, one protocol error with the parser's message goes to the observer,
/// the link and the shared player and server texts stay as they are, and the
/// session goes on serving.
pub proof fn lemma_unparsed_control_is_reported(
    s: SessionView,
    visible: bool,
    peer: u64,
    text: Seq<char>,
    reason: Seq<char>,
)
    requires
        s.phase is Serving,
        s.link.connected,
    ensures
        ({
            let step = s.step(Input::Received(visible, peer, control_verdict(text, Err(reason))));
            &&& step.effects == seq![
                EffectView::Forward(ToGUIView::ProtocolError("Error parsing message: "@ + reason)),
            ]
            &&& step.session.link == s.link
            &&& step.session.socket == (SocketView { last_endpoint: Some(peer), ..s.socket })
            &&& step.session.phase is Serving
        }),
{
}

/// An observer that is gone ends the session in good order: the peer that was
/// heard last is told to shut down, the listener is stopped, and nothing runs
/// any more. The link is left as it is.
pub proof fn lemma_observer_gone_shuts_down(s: SessionView, now: u64)
    requires
        s.phase is Serving,
        s.socket.listening,
    ensures
        ({
            let step = s.step(Input::Inbox(Inbox::Disconnected, now));
            &&& step.session.phase is Terminated
            &&& !step.session.socket.listening
            &&& step.session.link == s.link
            &&& step.effects == (match s.socket.last_endpoint {
                Some(peer) => seq![
                    EffectView::SendPeer { peer, message: ToTMView::ShutdownNow },
                    EffectView::StopListener,
                ],
                None => seq![EffectView::StopListener],
            })
        }),
{
    let step = s.step(Input::Inbox(Inbox::Disconnected, now));
    assert(step.effects =~= (match s.socket.last_endpoint {
        Some(peer) => seq![
            EffectView::SendPeer { peer, message: ToTMView::ShutdownNow },
            EffectView::StopListener,
        ],
        None => seq![EffectView::StopListener],
    }));
}

/// While the context is as it was in the snapshot before and no more than
/// five seconds have passed since the last push, a snapshot sets neither
/// identity nor context and tells the observer of neither player nor server;
/// the time of the last push stays, and the position is pushed all the same.
pub proof fn lemma_unchanged_context_waits(s: SessionView, t: STelemetry, now: u64, converted: MPos)
    requires
        s.phase is Polling,
        s.link.connected,
        context_of(t) == s.poll.last_ctx,
        now >= s.poll.last_ctx_update,
        now - s.poll.last_ctx_update <= CONTEXT_INTERVAL_MS,
    ensures
        ({
            let step = s.step(Input::Snapshot(t, now, converted));
            let position = s.poll.observed(t, now).pushed_position(context_of(t), converted);
            &&& step.effects == seq![
                EffectView::Forward(ToGUIView::Telemetry(t)),
                EffectView::LinkUpdate { player: position, camera: position },
                EffectView::Forward(
                    ToGUIView::FromTM(FromTMView::Positions { p: position, c: position }),
                ),
            ]
            &&& step.session.link == s.link
            &&& step.session.poll.last_ctx_update == s.poll.last_ctx_update
        }),
{
    let step = s.step(Input::Snapshot(t, now, converted));
    let position = s.poll.observed(t, now).pushed_position(context_of(t), converted);
    assert(step.effects =~= seq![
        EffectView::Forward(ToGUIView::Telemetry(t)),
        EffectView::LinkUpdate { player: position, camera: position },
        EffectView::Forward(ToGUIView::FromTM(FromTMView::Positions { p: position, c: position })),
    ]);
}

/// Once more than five seconds have passed since the last push, a snapshot
/// with the context as it was pushes identity and context again, once, and
/// the time of the last push becomes the time of the snapshot.
pub proof fn lemma_unchanged_context_is_reasserted(
    s: SessionView,
    t: STelemetry,
    now: u64,
    converted: MPos,
)
    requires
        s.phase is Polling,
        s.link.connected,
        context_of(t) == s.poll.last_ctx,
        now >= s.poll.last_ctx_update,
        now - s.poll.last_ctx_update > CONTEXT_INTERVAL_MS,
    ensures
        ({
            let step = s.step(Input::Snapshot(t, now, converted));
            let ctx = context_of(t);
            let identity = identity_chars(ctx.player_name, ctx.player_name, s.link.nonce + 1);
            let context = context_chars(obfuscated(ctx.curr_map), no_team());
            &&& step.effects.len() == 6
            &&& step.effects[1] == (EffectView::LinkIdentify { identity, context })
            &&& forall|i: int| 0 <= i < 6 && i != 1 ==> !(#[trigger] step.effects[i] is LinkIdentify)
            &&& step.session.link == s.link.identified(identity, context)
            &&& step.session.poll.last_ctx_update == now
        }),
{
}

/// A snapshot without a local player pushes the sentinel and forwards it,
/// whatever the snapshot says of the object and wherever the converted
/// position lies; no other position is pushed.
pub proof fn lemma_no_local_player_is_sentinel(s: SessionView, t: STelemetry, now: u64, converted: MPos)
    requires
        s.phase is Polling,
        s.link.connected,
        !context_of(t).is_local_player,
    ensures
        ({
            let effects = s.step(Input::Snapshot(t, now, converted)).effects;
            &&& effects.len() >= 2
            &&& effects[effects.len() - 2] == (EffectView::LinkUpdate {
                player: near_zero(),
                camera: near_zero(),
            })
            &&& effects[effects.len() - 1] == EffectView::Forward(
                ToGUIView::FromTM(FromTMView::Positions { p: near_zero(), c: near_zero() }),
            )
            &&& forall|i: int|
                0 <= i < effects.len() && (#[trigger] effects[i]) is LinkUpdate ==> i == effects.len()
                    - 2
        }),
{
}

/// A peer that disconnects takes the player off the server: identity and
/// context are pushed once, with no server and the team of everyone; then the
/// observer hears that the player left and, right after, that the peer at
/// `addr` is gone. No position is pushed.
pub proof fn lemma_peer_lost(s: SessionView, addr: Seq<char>)
    requires
        s.phase is Serving,
        s.link.connected,
    ensures
        ({
            let step = s.step(Input::PeerLost(addr));
            let identity = identity_chars(s.socket.player_name, s.socket.player_login, s.link.nonce);
            let context = context_chars(Seq::empty(), no_team());
            &&& step.effects == seq![
                EffectView::LinkIdentify { identity, context },
                EffectView::Forward(ToGUIView::FromTM(FromTMView::LeftServer)),
                EffectView::Forward(ToGUIView::FromTM(FromTMView::NetDisconnected(addr))),
            ]
            &&& step.session.link == s.link.identified(identity, context)
            &&& step.session.socket == s.socket.left()
            &&& step.session.phase is Serving
        }),
{
    let step = s.step(Input::PeerLost(addr));
    let identity = identity_chars(s.socket.player_name, s.socket.player_login, s.link.nonce);
    let context = context_chars(Seq::empty(), no_team());
    assert(step.effects =~= seq![
        EffectView::LinkIdentify { identity, context },
        EffectView::Forward(ToGUIView::FromTM(FromTMView::LeftServer)),
        EffectView::Forward(ToGUIView::FromTM(FromTMView::NetDisconnected(addr))),
    ]);
}

/// Telemetry that cannot be read ends the polling in silence: nothing is
/// pushed to the link, nothing goes outward, and what was pushed before stays.
pub proof fn lemma_telemetry_loss_is_silent(s: SessionView)
    ensures
        s.step(Input::TelemetryLost).effects == Seq::<EffectView>::empty(),
        s.step(Input::TelemetryLost).session.link == s.link,
        s.step(Input::TelemetryLost).session.poll == s.poll,
        s.step(Input::TelemetryLost).session.socket == s.socket,
        s.phase is Polling ==> s.step(Input::TelemetryLost).session.phase is Terminated,
        !(s.phase is Polling) ==> s.step(Input::TelemetryLost).session == s,
{
}

impl Session {
    /// Whether the socket pipeline runs.
    pub fn is_serving(&self) -> (r: bool)
        ensures
            r == (self@.phase is Serving && self@.link.connected),
    {
        match self.phase {
            Phase::Serving => self.link.is_connected(),
            _ => false,
        }
    }

    /// Whether the polling pipeline runs.
    pub fn is_polling(&self) -> (r: bool)
        ensures
            r == (self@.phase is Polling && self@.link.connected),
    {
        match self.phase {
            Phase::Polling => self.link.is_connected(),
            _ => false,
        }
    }

    /// A session that tells its peers the version `version` and will listen on
    /// `ip_addr` and `port`.
    pub fn new(version: &str, ip_addr: &str, port: u16) -> (r: Self)
        ensures
            r@ == SessionView::initial(version@, ip_addr@, port),
    {
        Session {
            phase: Phase::AwaitingLink,
            ip_addr: String::from_str(ip_addr),
            port,
            link: LinkSession::new(),
            socket: SocketPipeline::new(version),
            poll: PollState::new(0),
        }
    }

    pub fn phase(&self) -> (r: Phase)
        ensures
            r == self@.phase,
    {
        self.phase
    }

    pub fn link(&self) -> (r: &LinkSession)
        ensures
            r@ == self@.link,
    {
        &self.link
    }

    pub fn socket(&self) -> (r: &SocketPipeline)
        ensures
            r@ == self@.socket,
    {
        &self.socket
    }

    pub fn poll(&self) -> (r: &PollState)
        ensures
            r@ == self@.poll,
    {
        &self.poll
    }

    /// Asks for the link.
    fn try_connect_mumble(&self) -> (out: Vec<Effect>)
        ensures
            effects_view(out@) == self@.connect_requested().effects,
    {
        let mut out = no_effects();
        match self.link.connect("TM-Proximity-Chat", "Bridge to TM2020 plugin for proximity chat") {
            Ok(open) => {
                emit(&mut out, open);
            },
            Err(e) => {
                emit(&mut out, Effect::Forward(ToGUI::MumbleError(e.to_text())));
                emit(&mut out, Effect::Forward(ToGUI::IsConnected(true)));
            },
        }
        assert(effects_view(out@) =~= self@.connect_requested().effects);
        out
    }

    /// Starts the session.
    pub fn start(&mut self) -> (out: Vec<Effect>)
        ensures
            final(self)@ == old(self)@.started().session,
            effects_view(out@) == old(self)@.started().effects,
    {
        match self.phase {
            Phase::AwaitingLink => self.try_connect_mumble(),
            _ => no_effects(),
        }
    }

    /// Takes the outcome of an attempt to open the link.
    pub fn link_opened(&mut self, outcome: Result<(), String>) -> (out: Vec<Effect>)
        ensures
            final(self)@ == old(self)@.link_opened(outcome_view(outcome)).session,
            effects_view(out@) == old(self)@.link_opened(outcome_view(outcome)).effects,
    {
        let mut out = no_effects();
        match self.phase {
            Phase::AwaitingLink => {
                let _ = self.link.opened(outcome);
                let connected = self.link.is_connected();
                emit(&mut out, Effect::Forward(ToGUI::IsConnected(connected)));
                if connected {
                    self.phase = Phase::AwaitingMethodChoice;
                } else {
                    emit(&mut out, Effect::Forward(ToGUI::MumbleError(self.link.last_error().clone())));
                }
                assert(effects_view(out@) =~= old(self)@.link_opened(outcome_view(outcome)).effects);
            },
            _ => {},
        }
        out
    }

    /// Ends the session.
    fn halt(&mut self) -> (out: Vec<Effect>)
        ensures
            final(self)@ == old(self)@.halted().session,
            effects_view(out@) == old(self)@.halted().effects,
    {
        self.phase = Phase::Terminated;
        shutdown_tcp_server(&mut self.socket)
    }

    /// Takes what the observer's channel holds at the time `now`.
    pub fn on_inbox(&mut self, inbox: Inbox, now: u64) -> (out: Vec<Effect>)
        ensures
            final(self)@ == old(self)@.inbox(inbox, now).session,
            effects_view(out@) == old(self)@.inbox(inbox, now).effects,
    {
        let mut out = no_effects();
        match self.phase {
            Phase::Terminated => {
                return out;
            },
            _ => {},
        }
        match inbox {
            Inbox::Empty => out,
            Inbox::Disconnected => self.halt(),
            Inbox::Message(FromGuiToServer::Shutdown()) => self.halt(),
            Inbox::Message(FromGuiToServer::TryConnectMumble()) => match self.phase {
                Phase::AwaitingLink => self.try_connect_mumble(),
                _ => out,
            },
            Inbox::Message(FromGuiToServer::UseSocketServer()) => match self.phase {
                Phase::AwaitingMethodChoice => {
                    let effects = self.socket.listen(self.ip_addr.as_str(), self.port);
                    self.phase = Phase::Serving;
                    effects
                },
                _ => out,
            },
            Inbox::Message(FromGuiToServer::UseManiaPlanetTelemetry()) => match self.phase {
                Phase::AwaitingMethodChoice => {
                    self.poll = PollState::new(now);
                    self.phase = Phase::Polling;
                    out
                },
                _ => out,
            },
        }
    }

    /// The observer no longer takes what is forwarded to it: the session ends.
    pub fn observer_gone(&mut self) -> (out: Vec<Effect>)
        ensures
            final(self)@ == old(self)@.inbox(Inbox::Disconnected, 0).session,
            effects_view(out@) == old(self)@.inbox(Inbox::Disconnected, 0).effects,
    {
        self.on_inbox(Inbox::Disconnected, 0)
    }

    /// Handles a peer that was accepted on the socket.
    pub fn on_accepted(&self, peer: u64, addr: &str) -> (out: Vec<Effect>)
        ensures
            effects_view(out@) == self@.accepted(peer, addr@).effects,
    {
        match self.phase {
            Phase::Serving => self.socket.on_accepted(&self.link, peer, addr),
            _ => no_effects(),
        }
    }

    /// Handles a frame that begins with the position tag.
    pub fn on_position_frame(&mut self, visible: bool, peer: u64, data: &[u8]) -> (out: Vec<Effect>)
        ensures
            final(self)@ == old(self)@.received(visible, peer, position_verdict(data@)).session,
            effects_view(out@) == old(self)@.received(visible, peer, position_verdict(data@)).effects,
    {
        if self.is_serving() {
            let out = self.socket.on_position_frame(&mut self.link, visible, peer, data);
            assert(self@ =~= old(self)@.received(visible, peer, position_verdict(data@)).session);
            out
        } else {
            no_effects()
        }
    }

    /// Handles a control frame, of which `text` is the message as received and
    /// `parsed` what the JSON parser made of it.
    pub fn on_control_frame(
        &mut self,
        visible: bool,
        peer: u64,
        text: &str,
        parsed: Result<FromTM, String>,
    ) -> (out: Vec<Effect>)
        ensures
            final(self)@ == old(self)@.received(
                visible,
                peer,
                control_verdict(text@, parsed_view(parsed)),
            ).session,
            effects_view(out@) == old(self)@.received(
                visible,
                peer,
                control_verdict(text@, parsed_view(parsed)),
            ).effects,
    {
        if self.is_serving() {
            let ghost verdict = control_verdict(text@, parsed_view(parsed));
            let out = self.socket.on_control_frame(&mut self.link, visible, peer, text, parsed);
            assert(self@ =~= old(self)@.received(visible, peer, verdict).session);
            out
        } else {
            no_effects()
        }
    }

    /// Handles the loss of the peer at `addr`.
    pub fn on_disconnected(&mut self, addr: &str) -> (out: Vec<Effect>)
        ensures
            final(self)@ == old(self)@.peer_lost(addr@).session,
            effects_view(out@) == old(self)@.peer_lost(addr@).effects,
    {
        if self.is_serving() {
            let out = self.socket.on_disconnected(&mut self.link, addr);
            assert(self@ =~= old(self)@.peer_lost(addr@).session);
            out
        } else {
            no_effects()
        }
    }

    /// Handles a snapshot of the telemetry taken at `now`.
    pub fn on_snapshot(&mut self, t: &STelemetry, now: u64, converted: MPos) -> (out: Vec<Effect>)
        ensures
            final(self)@ == old(self)@.snapshot(*t, now, converted).session,
            effects_view(out@) == old(self)@.snapshot(*t, now, converted).effects,
    {
        if self.is_polling() {
            let out = self.poll.poll(&mut self.link, t, now, converted);
            assert(self@ =~= old(self)@.snapshot(*t, now, converted).session);
            out
        } else {
            no_effects()
        }
    }

    /// Takes note that the telemetry could not be read. There is nothing for
    /// the runner to do but to stop polling.
    pub fn on_telemetry_error(&mut self)
        ensures
            final(self)@ == old(self)@.telemetry_lost().session,
    {
        match self.phase {
            Phase::Polling => {
                self.phase = Phase::Terminated;
            },
            _ => {},
        }
    }
}

} // verus!
