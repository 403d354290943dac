//! The messages that travel between the game, the pipelines and the observer.

use vstd::prelude::*;
use crate::position::MPos;
use crate::mp_telemetry_data::STelemetry;

verus! {

/// An event that an ingestion pipeline produces. Addresses are carried as text.
#[derive(Debug, PartialEq, Eq)]
pub enum FromTM {
    NetConnected(String, bool),
    NetDisconnected(String),
    NetAccepted(String),
    Positions { p: MPos, c: MPos },
    PlayerDetails(String, String),
    ServerDetails(String, String),
    LeftServer(),
    Ping(),
}

/// What a `FromTM` holds, with each text as its characters.
#[verifier::ext_equal]
pub enum FromTMView {
    NetConnected(Seq<char>, bool),
    NetDisconnected(Seq<char>),
    NetAccepted(Seq<char>),
    Positions { p: MPos, c: MPos },
    PlayerDetails(Seq<char>, Seq<char>),
    ServerDetails(Seq<char>, Seq<char>),
    LeftServer,
    Ping,
}

impl View for FromTM {
    type V = FromTMView;

    open spec fn view(&self) -> FromTMView {
        match *self {
            FromTM::NetConnected(addr, ok) => FromTMView::NetConnected(addr@, ok),
            FromTM::NetDisconnected(addr) => FromTMView::NetDisconnected(addr@),
            FromTM::NetAccepted(addr) => FromTMView::NetAccepted(addr@),
            FromTM::Positions { p, c } => FromTMView::Positions { p, c },
            FromTM::PlayerDetails(name, login) => FromTMView::PlayerDetails(name@, login@),
            FromTM::ServerDetails(server, team) => FromTMView::ServerDetails(server@, team@),
            FromTM::LeftServer() => FromTMView::LeftServer,
            FromTM::Ping() => FromTMView::Ping,
        }
    }
}

impl Clone for FromTM {
    fn clone(&self) -> (r: Self)
        ensures
            r@ == self@,
    {
        match self {
            FromTM::NetConnected(addr, ok) => FromTM::NetConnected(addr.clone(), *ok),
            FromTM::NetDisconnected(addr) => FromTM::NetDisconnected(addr.clone()),
            FromTM::NetAccepted(addr) => FromTM::NetAccepted(addr.clone()),
            FromTM::Positions { p, c } => FromTM::Positions { p: *p, c: *c },
            FromTM::PlayerDetails(name, login) => FromTM::PlayerDetails(
                name.clone(),
                login.clone(),
            ),
            FromTM::ServerDetails(server, team) => FromTM::ServerDetails(
                server.clone(),
                team.clone(),
            ),
            FromTM::LeftServer() => FromTM::LeftServer(),
            FromTM::Ping() => FromTM::Ping(),
        }
    }
}

impl FromTM {
    /// The player's position, where the event is a position update.
    pub fn get_pos_p(&self) -> (r: Option<&MPos>)
        ensures
            match *self {
                FromTM::Positions { p, c } => r == Some(&p),
                _ => r is None,
            },
    {
        match self {
            FromTM::Positions { p, c: _ } => Some(p),
            _ => None,
        }
    }

    /// The camera's position, where the event is a position update.
    pub fn get_pos_c(&self) -> (r: Option<&MPos>)
        ensures
            match *self {
                FromTM::Positions { p, c } => r == Some(&c),
                _ => r is None,
            },
    {
        match self {
            FromTM::Positions { p: _, c } => Some(c),
            _ => None,
        }
    }
}

/// A control message for the game's side of the socket.
#[derive(Debug, PartialEq, Eq)]
pub enum ToTM {
    ConnectedStatus(bool),
    Ping(),
    LinkAppInfo { version: String, options: Vec<(String, String)> },
    ShutdownNow {  },
}

/// What a `ToTM` holds, with each text as its characters.
#[verifier::ext_equal]
pub enum ToTMView {
    ConnectedStatus(bool),
    Ping,
    LinkAppInfo { version: Seq<char>, options: Seq<(Seq<char>, Seq<char>)> },
    ShutdownNow,
}

impl View for ToTM {
    type V = ToTMView;

    open spec fn view(&self) -> ToTMView {
        match *self {
            ToTM::ConnectedStatus(ok) => ToTMView::ConnectedStatus(ok),
            ToTM::Ping() => ToTMView::Ping,
            ToTM::LinkAppInfo { version, options } => ToTMView::LinkAppInfo {
                version: version@,
                options: options.deep_view(),
            },
            ToTM::ShutdownNow {  } => ToTMView::ShutdownNow,
        }
    }
}

/// What the observer is told.
#[derive(Debug, PartialEq, Eq)]
pub enum ToGUI {
    IsConnected(bool),
    MumbleError(String),
    ListeningOn(String, u16),
    ProtocolError(String),
    FromTM(FromTM),
    Telemetry(STelemetry),
}

/// What a `ToGUI` holds, with each text as its characters.
#[verifier::ext_equal]
pub enum ToGUIView {
    IsConnected(bool),
    MumbleError(Seq<char>),
    ListeningOn(Seq<char>, u16),
    ProtocolError(Seq<char>),
    FromTM(FromTMView),
    Telemetry(STelemetry),
}

impl View for ToGUI {
    type V = ToGUIView;

    open spec fn view(&self) -> ToGUIView {
        match *self {
            ToGUI::IsConnected(ok) => ToGUIView::IsConnected(ok),
            ToGUI::MumbleError(text) => ToGUIView::MumbleError(text@),
            ToGUI::ListeningOn(ip, port) => ToGUIView::ListeningOn(ip@, port),
            ToGUI::ProtocolError(text) => ToGUIView::ProtocolError(text@),
            ToGUI::FromTM(event) => ToGUIView::FromTM(event@),
            ToGUI::Telemetry(snapshot) => ToGUIView::Telemetry(snapshot),
        }
    }
}

impl Clone for ToGUI {
    fn clone(&self) -> (r: Self)
        ensures
            r@ == self@,
    {
        match self {
            ToGUI::IsConnected(ok) => ToGUI::IsConnected(*ok),
            ToGUI::MumbleError(text) => ToGUI::MumbleError(text.clone()),
            ToGUI::ListeningOn(ip, port) => ToGUI::ListeningOn(ip.clone(), *port),
            ToGUI::ProtocolError(text) => ToGUI::ProtocolError(text.clone()),
            ToGUI::FromTM(event) => ToGUI::FromTM(event.clone()),
            ToGUI::Telemetry(snapshot) => ToGUI::Telemetry(*snapshot),
        }
    }
}

/// What the observer asks of the session.
#[derive(Clone, Copy, Debug, PartialEq, Eq)]
pub enum FromGuiToServer {
    TryConnectMumble(),
    UseManiaPlanetTelemetry(),
    UseSocketServer(),
    Shutdown(),
}

/// One thing for the runner to do. A pipeline decides; the runner acts, in the
/// order given, and stops at the first forward that the observer does not take.
#[derive(Debug, PartialEq, Eq)]
pub enum Effect {
    /// Open the link under this name and description, and report how it went.
    OpenLink { name: String, description: String },
    /// Push a pair of positions into the link.
    LinkUpdate { player: MPos, camera: MPos },
    /// Set identity and context of the link, both before any later update.
    LinkIdentify { identity: String, context: String },
    /// Send a control message to a peer.
    SendPeer { peer: u64, message: ToTM },
    /// Hand an event to the observer.
    Forward(ToGUI),
    /// Open the listener on this address.
    Listen { address: String },
    /// Close the listener and every socket.
    StopListener,
}

/// What an `Effect` holds, with each text as its characters.
#[verifier::ext_equal]
pub enum EffectView {
    OpenLink { name: Seq<char>, description: Seq<char> },
    LinkUpdate { player: MPos, camera: MPos },
    LinkIdentify { identity: Seq<char>, context: Seq<char> },
    SendPeer { peer: u64, message: ToTMView },
    Forward(ToGUIView),
    Listen { address: Seq<char> },
    StopListener,
}

impl View for Effect {
    type V = EffectView;

    open spec fn view(&self) -> EffectView {
        match *self {
            Effect::OpenLink { name, description } => EffectView::OpenLink {
                name: name@,
                description: description@,
            },
            Effect::LinkUpdate { player, camera } => EffectView::LinkUpdate { player, camera },
            Effect::LinkIdentify { identity, context } => EffectView::LinkIdentify {
                identity: identity@,
                context: context@,
            },
            Effect::SendPeer { peer, message } => EffectView::SendPeer { peer, message: message@ },
            Effect::Forward(event) => EffectView::Forward(event@),
            Effect::Listen { address } => EffectView::Listen { address: address@ },
            Effect::StopListener => EffectView::StopListener,
        }
    }
}

/// The effects of a list, each by its view.
pub open spec fn effects_view(effects: Seq<Effect>) -> Seq<EffectView> {
    effects.map_values(|e: Effect| e@)
}


/// An empty list of effects.
pub fn no_effects() -> (out: Vec<Effect>)
    ensures
        effects_view(out@) == Seq::<EffectView>::empty(),
{
    let out: Vec<Effect> = Vec::new();
    assert(effects_view(out@) =~= Seq::empty());
    out
}

/// Appends one effect.
pub fn emit(out: &mut Vec<Effect>, effect: Effect)
    ensures
        effects_view(final(out)@) == effects_view(old(out)@).push(effect@),
{
    out.push(effect);
    assert(effects_view(out@) =~= effects_view(old(out)@).push(effect@));
}

} // verus!
