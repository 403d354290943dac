//! The socket pipeline: what each event on the listening socket does to the
//! shared player and server context, to the link, and to the observer.
//!
//! The sockets are run outside this library. For every event the pipeline
//! returns the effects to perform, in order.

use vstd::prelude::*;
use vstd::string::*;
use crate::codec::{
    decode_control, decoded_view, parsed_view, control_verdict, position_verdict, read_pos_msg,
    DecodeError, DecodeErrorView,
};
use crate::event::{
    effects_view, emit, no_effects, Effect, EffectView, FromTM, FromTMView, ToGUI, ToGUIView, ToTM,
    ToTMView,
};
use crate::identity::{
    context_chars, format_context, format_identity_counted, identity_chars,
    obfs_uid_or_svr_login, obfuscated,
};
use crate::link::{LinkSession, LinkView};
use crate::position::MPos;
use crate::text::{decimal, push_decimal};

verus! {

/// The port to listen on where none is given.
pub const DEFAULT_PORT: u16 = 46323;

/// The address to bind where none is given.
pub open spec fn default_ip() -> Seq<char> {
    "127.0.0.1"@
}

/// The team of a player who is on no server.
pub open spec fn no_team() -> Seq<char> {
    "All"@
}

/// The address that is bound for the wish `ip_addr`.
pub open spec fn bind_ip(ip_addr: Seq<char>) -> Seq<char> {
    if ip_addr.len() == 0 {
        default_ip()
    } else {
        ip_addr
    }
}

/// The port that is bound for the wish `port`.
pub open spec fn bind_port(port: u16) -> u16 {
    if port == 0 {
        DEFAULT_PORT
    } else {
        port
    }
}

/// The state of the socket pipeline.
pub struct SocketPipeline {
    version: String,
    player_name: String,
    player_login: String,
    server_login: String,
    server_shown: String,
    server_team: String,
    last_endpoint: Option<u64>,
    listening: bool,
}

/// What a `SocketPipeline` holds.
#[verifier::ext_equal]
pub struct SocketView {
    /// The version that a new peer is told.
    pub version: Seq<char>,
    pub player_name: Seq<char>,
    pub player_login: Seq<char>,
    /// The server's identifier as the peer sent it.
    pub server_login: Seq<char>,
    /// The server's identifier as it is shown in the context.
    pub server_shown: Seq<char>,
    pub server_team: Seq<char>,
    /// The peer that sent the last frame.
    pub last_endpoint: Option<u64>,
    /// Whether the listener is open.
    pub listening: bool,
}

/// Where a change of the listener leaves the pipeline, and what is to be done.
#[verifier::ext_equal]
pub struct SocketChange {
    pub socket: SocketView,
    pub effects: Seq<EffectView>,
}

/// Where one event leaves the pipeline and the link, and what is to be done.
#[verifier::ext_equal]
pub struct SocketStep {
    pub socket: SocketView,
    pub link: LinkView,
    pub effects: Seq<EffectView>,
}

impl View for SocketPipeline {
    type V = SocketView;

    closed spec fn view(&self) -> SocketView {
        SocketView {
            version: self.version@,
            player_name: self.player_name@,
            player_login: self.player_login@,
            server_login: self.server_login@,
            server_shown: self.server_shown@,
            server_team: self.server_team@,
            last_endpoint: self.last_endpoint,
            listening: self.listening,
        }
    }
}

/// The identifier of the server that `event` names, as it is to be shown;
/// nothing for an event that names none.
pub open spec fn shown_of(event: FromTMView) -> Seq<char> {
    match event {
        FromTMView::ServerDetails(server, team) => obfuscated(server),
        _ => Seq::empty(),
    }
}

/// The forward of `event`, if the window is shown.
pub open spec fn forward_if(visible: bool, event: FromTMView) -> Seq<EffectView> {
    if visible {
        seq![EffectView::Forward(ToGUIView::FromTM(event))]
    } else {
        Seq::empty()
    }
}

impl SocketView {
    /// The pipeline before any event.
    pub open spec fn initial(version: Seq<char>) -> SocketView {
        SocketView {
            version,
            player_name: Seq::empty(),
            player_login: Seq::empty(),
            server_login: Seq::empty(),
            server_shown: Seq::empty(),
            server_team: Seq::empty(),
            last_endpoint: None,
            listening: false,
        }
    }

    /// The pipeline with the player on no server and in no team.
    pub open spec fn left(self) -> SocketView {
        SocketView {
            server_login: Seq::empty(),
            server_shown: Seq::empty(),
            server_team: no_team(),
            ..self
        }
    }

    /// The identity that is pushed next.
    pub open spec fn identity(self, link: LinkView) -> Seq<char> {
        identity_chars(self.player_name, self.player_login, link.nonce)
    }

    /// The context that is pushed next.
    pub open spec fn context(self) -> Seq<char> {
        context_chars(self.server_shown, self.server_team)
    }

    /// Opening the listener: it is bound, and the observer is told where.
    pub open spec fn listened(self, ip_addr: Seq<char>, port: u16) -> SocketChange {
        SocketChange {
            socket: SocketView { listening: true, ..self },
            effects: seq![
                EffectView::Listen {
                    address: bind_ip(ip_addr) + seq![':'] + decimal(bind_port(port) as nat),
                },
                EffectView::Forward(ToGUIView::ListeningOn(bind_ip(ip_addr), bind_port(port))),
            ],
        }
    }

    /// A push of identity and context into an open session.
    pub open spec fn pushed(self, link: LinkView) -> SocketStep {
        SocketStep {
            socket: self,
            link: link.identified(self.identity(link), self.context()),
            effects: seq![
                EffectView::LinkIdentify { identity: self.identity(link), context: self.context() },
            ],
        }
    }

    /// A peer was accepted: the observer hears of it, and the peer is told the
    /// version and whether the link is connected, in two messages.
    pub open spec fn accepted(self, link: LinkView, peer: u64, addr: Seq<char>) -> SocketStep {
        SocketStep {
            socket: self,
            link,
            effects: seq![
                EffectView::Forward(ToGUIView::FromTM(FromTMView::NetAccepted(addr))),
                EffectView::SendPeer {
                    peer,
                    message: ToTMView::LinkAppInfo { version: self.version, options: Seq::empty() },
                },
                EffectView::SendPeer { peer, message: ToTMView::ConnectedStatus(link.connected) },
            ],
        }
    }

    /// An event from the peer takes effect. `shown` is the identifier of the
    /// server that the event names, as it is to be shown.
    pub open spec fn applied(
        self,
        link: LinkView,
        visible: bool,
        peer: u64,
        event: FromTMView,
        shown: Seq<char>,
    ) -> SocketStep {
        match event {
            FromTMView::Positions { p, c } => SocketStep {
                socket: self,
                link,
                effects: seq![EffectView::LinkUpdate { player: p, camera: c }] + forward_if(
                    visible,
                    event,
                ),
            },
            FromTMView::PlayerDetails(name, login) => SocketStep {
                socket: SocketView { player_name: name, player_login: login, ..self },
                link,
                effects: forward_if(visible, event),
            },
            FromTMView::ServerDetails(server, team) => {
                let push = (SocketView {
                    server_login: server,
                    server_shown: shown,
                    server_team: team,
                    ..self
                }).pushed(link);
                SocketStep { effects: push.effects + forward_if(visible, event), ..push }
            },
            FromTMView::LeftServer => {
                let push = self.left().pushed(link);
                SocketStep { effects: push.effects + forward_if(visible, event), ..push }
            },
            FromTMView::Ping => {
                let push = self.pushed(link);
                SocketStep {
                    effects: seq![EffectView::SendPeer { peer, message: ToTMView::Ping }]
                        + push.effects + forward_if(visible, event),
                    ..push
                }
            },
            _ => SocketStep { socket: self, link, effects: Seq::empty() },
        }
    }

    /// A frame from `peer` was decoded: the peer is remembered; an event takes
    /// effect; an error is reported to the observer and changes nothing else.
    pub open spec fn received(
        self,
        link: LinkView,
        visible: bool,
        peer: u64,
        decoded: Result<FromTMView, DecodeErrorView>,
    ) -> SocketStep {
        let seen = SocketView { last_endpoint: Some(peer), ..self };
        match decoded {
            Ok(event) => seen.applied(link, visible, peer, event, shown_of(event)),
            Err(e) => SocketStep {
                socket: seen,
                link,
                effects: seq![EffectView::Forward(ToGUIView::ProtocolError(e.report()))],
            },
        }
    }

    /// The peer at `addr` is gone: the player is on no server and in no team,
    /// the link is told so, and the observer hears that the player left and
    /// then that the peer did.
    pub open spec fn disconnected(self, link: LinkView, addr: Seq<char>) -> SocketStep {
        let push = self.left().pushed(link);
        SocketStep {
            effects: push.effects + seq![
                EffectView::Forward(ToGUIView::FromTM(FromTMView::LeftServer)),
                EffectView::Forward(ToGUIView::FromTM(FromTMView::NetDisconnected(addr))),
            ],
            ..push
        }
    }

    /// The listener is closed. The peer that was heard last is told first.
    /// Closing what is closed does nothing.
    pub open spec fn stopped(self) -> SocketChange {
        if self.listening {
            SocketChange {
                socket: SocketView { listening: false, last_endpoint: None, ..self },
                effects: (match self.last_endpoint {
                    Some(peer) => seq![
                        EffectView::SendPeer { peer, message: ToTMView::ShutdownNow },
                    ],
                    None => Seq::empty(),
                }) + seq![EffectView::StopListener],
            }
        } else {
            SocketChange { socket: self, effects: Seq::empty() }
        }
    }
}

/// A position update reaches the link whether or not the window is shown; the
/// window decides only whether the observer sees it too.
pub proof fn lemma_positions_reach_link(
    s: SocketView,
    link: LinkView,
    visible: bool,
    peer: u64,
    p: MPos,
    c: MPos,
)
    ensures
        ({
            let step = s.received(link, visible, peer, Ok(FromTMView::Positions { p, c }));
            &&& step.effects.len() == (if visible {
                2nat
            } else {
                1nat
            })
            &&& step.effects[0] == (EffectView::LinkUpdate { player: p, camera: c })
            &&& visible ==> step.effects[1] == EffectView::Forward(
                ToGUIView::FromTM(FromTMView::Positions { p, c }),
            )
            &&& step.link == link
        }),
{
}

/// A frame that did not decode is reported to the observer and otherwise
/// ignored: the link and the shared context stay as they are, and so does the
/// listener.
pub proof fn lemma_errors_are_reported(
    s: SocketView,
    link: LinkView,
    visible: bool,
    peer: u64,
    e: DecodeErrorView,
)
    ensures
        ({
            let step = s.received(link, visible, peer, Err(e));
            &&& step.effects == seq![EffectView::Forward(ToGUIView::ProtocolError(e.report()))]
            &&& step.link == link
            &&& step.socket == (SocketView { last_endpoint: Some(peer), ..s })
        }),
{
}

/// The socket pipeline pushes identity and context on every `ServerDetails`,
/// `LeftServer` and `Ping`, however little time has passed, and on nothing else
/// that a peer sends.
pub proof fn lemma_socket_pushes(
    s: SocketView,
    link: LinkView,
    visible: bool,
    peer: u64,
    event: FromTMView,
    shown: Seq<char>,
)
    ensures
        ({
            let step = s.applied(link, visible, peer, event, shown);
            if event is ServerDetails || event is LeftServer || event is Ping {
                &&& step.link.nonce == link.nonce + 1
                &&& link.connected ==> step.link.identity == step.socket.identity(link)
                    && step.link.context == step.socket.context()
            } else {
                step.link == link
            }
        }),
{
}

/// The context never shows a server's identifier as the peer sent it: after
/// `ServerDetails` the link holds the tag, the obfuscated identifier and the
/// team.
pub proof fn lemma_context_hides_server(
    s: SocketView,
    link: LinkView,
    visible: bool,
    peer: u64,
    server: Seq<char>,
    team: Seq<char>,
)
    requires
        link.connected,
    ensures
        s.received(link, visible, peer, Ok(FromTMView::ServerDetails(server, team))).link.context
            == context_chars(obfuscated(server), team),
        s.received(link, visible, peer, Ok(FromTMView::ServerDetails(server, team))).effects[0] == (
        EffectView::LinkIdentify {
            identity: s.identity(link),
            context: context_chars(obfuscated(server), team),
        }),
{
}

/// Appends the forward of `event` if the window is shown.
fn emit_forward_if(out: &mut Vec<Effect>, visible: bool, event: FromTM)
    ensures
        effects_view(final(out)@) == effects_view(old(out)@) + forward_if(visible, event@),
{
    if visible {
        emit(out, Effect::Forward(ToGUI::FromTM(event)));
    }
    assert(effects_view(out@) =~= effects_view(old(out)@) + forward_if(visible, event@));
}

impl SocketPipeline {
    /// A pipeline that tells its peers the version `version`.
    pub fn new(version: &str) -> (r: Self)
        ensures
            r@ == SocketView::initial(version@),
    {
        SocketPipeline {
            version: String::from_str(version),
            player_name: String::new(),
            player_login: String::new(),
            server_login: String::new(),
            server_shown: String::new(),
            server_team: String::new(),
            last_endpoint: None,
            listening: false,
        }
    }

    pub fn is_listening(&self) -> (r: bool)
        ensures
            r == self@.listening,
    {
        self.listening
    }

    pub fn player_name(&self) -> (r: &String)
        ensures
            r@ == self@.player_name,
    {
        &self.player_name
    }

    pub fn player_login(&self) -> (r: &String)
        ensures
            r@ == self@.player_login,
    {
        &self.player_login
    }

    pub fn server_login(&self) -> (r: &String)
        ensures
            r@ == self@.server_login,
    {
        &self.server_login
    }

    /// The server's identifier as it is shown in the context.
    pub fn server_shown(&self) -> (r: &String)
        ensures
            r@ == self@.server_shown,
    {
        &self.server_shown
    }

    pub fn server_team(&self) -> (r: &String)
        ensures
            r@ == self@.server_team,
    {
        &self.server_team
    }

    /// Opens the listener on `ip_addr` and `port`; an empty address stands for
    /// `127.0.0.1` and port 0 for the default port.
    pub fn listen(&mut self, ip_addr: &str, port: u16) -> (out: Vec<Effect>)
        ensures
            final(self)@ == old(self)@.listened(ip_addr@, port).socket,
            effects_view(out@) == old(self)@.listened(ip_addr@, port).effects,
    {
        let ip = if ip_addr.is_empty() { "127.0.0.1" } else { ip_addr };
        let port = if port == 0 { DEFAULT_PORT } else { port };
        let mut address = String::from_str(ip);
        address.push(':');
        push_decimal(&mut address, port as u64);
        assert(ip@ == bind_ip(ip_addr@));
        assert(address@ =~= bind_ip(ip_addr@) + seq![':'] + decimal(port as nat));
        self.listening = true;
        let mut out = no_effects();
        emit(&mut out, Effect::Listen { address });
        emit(&mut out, Effect::Forward(ToGUI::ListeningOn(String::from_str(ip), port)));
        assert(effects_view(out@) =~= old(self)@.listened(ip_addr@, port).effects);
        out
    }

    /// Pushes identity and context as they now are.
    fn push_context(&self, link: &mut LinkSession, out: &mut Vec<Effect>)
        requires
            old(link)@.connected,
        ensures
            final(link)@ == self@.pushed(old(link)@).link,
            effects_view(final(out)@) == effects_view(old(out)@) + self@.pushed(old(link)@).effects,
    {
        let identity = format_identity_counted(
            self.player_name.as_str(),
            self.player_login.as_str(),
            link.nonce(),
        );
        let context = format_context(self.server_shown.as_str(), self.server_team.as_str());
        match link.set_identity_and_context(identity, context) {
            Some(effect) => {
                emit(out, effect);
            },
            None => {},
        }
        assert(effects_view(out@) =~= effects_view(old(out)@) + self@.pushed(old(link)@).effects);
    }

    /// Handles a peer that was accepted.
    pub fn on_accepted(&self, link: &LinkSession, peer: u64, addr: &str) -> (out: Vec<Effect>)
        ensures
            effects_view(out@) == self@.accepted(link@, peer, addr@).effects,
    {
        let mut out = no_effects();
        emit(&mut out, Effect::Forward(ToGUI::FromTM(FromTM::NetAccepted(String::from_str(addr)))));
        let options: Vec<(String, String)> = Vec::new();
        assert(options.deep_view() =~= Seq::empty());
        emit(
            &mut out,
            Effect::SendPeer {
                peer,
                message: ToTM::LinkAppInfo { version: self.version.clone(), options },
            },
        );
        emit(
            &mut out,
            Effect::SendPeer { peer, message: ToTM::ConnectedStatus(link.is_connected()) },
        );
        assert(effects_view(out@) =~= self@.accepted(link@, peer, addr@).effects);
        out
    }

    /// Lets an event from the peer take effect. `shown` is the identifier of the
    /// server that the event names, as it is to be shown.
    pub fn apply(
        &mut self,
        link: &mut LinkSession,
        visible: bool,
        peer: u64,
        event: FromTM,
        shown: &str,
    ) -> (out: Vec<Effect>)
        requires
            old(link)@.connected,
        ensures
            final(self)@ == old(self)@.applied(old(link)@, visible, peer, event@, shown@).socket,
            final(link)@ == old(self)@.applied(old(link)@, visible, peer, event@, shown@).link,
            effects_view(out@) == old(self)@.applied(old(link)@, visible, peer, event@, shown@).effects,
    {
        let ghost step = old(self)@.applied(old(link)@, visible, peer, event@, shown@);
        let mut out = no_effects();
        match &event {
            FromTM::Positions { p, c } => {
                emit(&mut out, Effect::LinkUpdate { player: *p, camera: *c });
            },
            FromTM::PlayerDetails(name, login) => {
                self.player_name = name.clone();
                self.player_login = login.clone();
            },
            FromTM::ServerDetails(server, team) => {
                self.server_login = server.clone();
                self.server_shown = String::from_str(shown);
                self.server_team = team.clone();
                self.push_context(link, &mut out);
            },
            FromTM::LeftServer() => {
                self.leave();
                self.push_context(link, &mut out);
            },
            FromTM::Ping() => {
                emit(&mut out, Effect::SendPeer { peer, message: ToTM::Ping() });
                self.push_context(link, &mut out);
            },
            _ => {
                return out;
            },
        }
        emit_forward_if(&mut out, visible, event);
        assert(effects_view(out@) =~= step.effects);
        out
    }

    /// Takes the player off the server and out of the team.
    fn leave(&mut self)
        ensures
            final(self)@ == old(self)@.left(),
    {
        self.server_login = String::new();
        self.server_shown = String::new();
        self.server_team = String::from_str("All");
    }

    /// Lets a decoded frame take effect.
    fn receive(
        &mut self,
        link: &mut LinkSession,
        visible: bool,
        peer: u64,
        decoded: Result<FromTM, DecodeError>,
    ) -> (out: Vec<Effect>)
        requires
            old(link)@.connected,
        ensures
            final(self)@ == old(self)@.received(old(link)@, visible, peer, decoded_view(decoded)).socket,
            final(link)@ == old(self)@.received(old(link)@, visible, peer, decoded_view(decoded)).link,
            effects_view(out@) == old(self)@.received(
                old(link)@,
                visible,
                peer,
                decoded_view(decoded),
            ).effects,
    {
        self.last_endpoint = Some(peer);
        match decoded {
            Ok(event) => {
                let shown = match &event {
                    FromTM::ServerDetails(server, _) => obfs_uid_or_svr_login(server.as_str()),
                    _ => String::new(),
                };
                self.apply(link, visible, peer, event, shown.as_str())
            },
            Err(e) => {
                let mut out = no_effects();
                emit(&mut out, Effect::Forward(ToGUI::ProtocolError(e.to_text())));
                out
            },
        }
    }

    /// Handles a frame that begins with the position tag.
    pub fn on_position_frame(
        &mut self,
        link: &mut LinkSession,
        visible: bool,
        peer: u64,
        data: &[u8],
    ) -> (out: Vec<Effect>)
        requires
            old(link)@.connected,
        ensures
            final(self)@ == old(self)@.received(old(link)@, visible, peer, position_verdict(data@)).socket,
            final(link)@ == old(self)@.received(old(link)@, visible, peer, position_verdict(data@)).link,
            effects_view(out@) == old(self)@.received(
                old(link)@,
                visible,
                peer,
                position_verdict(data@),
            ).effects,
    {
        let decoded = read_pos_msg(data);
        self.receive(link, visible, peer, decoded)
    }

    /// Handles a control frame, of which `text` is the message as received and
    /// `parsed` what the JSON parser made of it.
    pub fn on_control_frame(
        &mut self,
        link: &mut LinkSession,
        visible: bool,
        peer: u64,
        text: &str,
        parsed: Result<FromTM, String>,
    ) -> (out: Vec<Effect>)
        requires
            old(link)@.connected,
        ensures
            final(self)@ == old(self)@.received(
                old(link)@,
                visible,
                peer,
                control_verdict(text@, parsed_view(parsed)),
            ).socket,
            final(link)@ == old(self)@.received(
                old(link)@,
                visible,
                peer,
                control_verdict(text@, parsed_view(parsed)),
            ).link,
            effects_view(out@) == old(self)@.received(
                old(link)@,
                visible,
                peer,
                control_verdict(text@, parsed_view(parsed)),
            ).effects,
    {
        let decoded = decode_control(text, parsed);
        self.receive(link, visible, peer, decoded)
    }

    /// Handles the loss of the peer at `addr`.
    pub fn on_disconnected(&mut self, link: &mut LinkSession, addr: &str) -> (out: Vec<Effect>)
        requires
            old(link)@.connected,
        ensures
            final(self)@ == old(self)@.disconnected(old(link)@, addr@).socket,
            final(link)@ == old(self)@.disconnected(old(link)@, addr@).link,
            effects_view(out@) == old(self)@.disconnected(old(link)@, addr@).effects,
    {
        let mut out = no_effects();
        self.leave();
        self.push_context(link, &mut out);
        emit(&mut out, Effect::Forward(ToGUI::FromTM(FromTM::LeftServer())));
        emit(
            &mut out,
            Effect::Forward(ToGUI::FromTM(FromTM::NetDisconnected(String::from_str(addr)))),
        );
        assert(effects_view(out@) =~= old(self)@.disconnected(old(link)@, addr@).effects);
        out
    }
}

/// Closes the listener: the peer that was heard last is sent `ShutdownNow`,
/// then the listener is stopped. A second call does nothing.
pub fn shutdown_tcp_server(server: &mut SocketPipeline) -> (out: Vec<Effect>)
    ensures
        final(server)@ == old(server)@.stopped().socket,
        effects_view(out@) == old(server)@.stopped().effects,
{
    let mut out = no_effects();
    if server.listening {
        match server.last_endpoint {
            Some(peer) => {
                emit(&mut out, Effect::SendPeer { peer, message: ToTM::ShutdownNow {  } });
            },
            None => {},
        }
        server.last_endpoint = None;
        server.listening = false;
        emit(&mut out, Effect::StopListener);
    }
    assert(effects_view(out@) =~= old(server)@.stopped().effects);
    out
}

} // verus!
