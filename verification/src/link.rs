//! The link adapter: what is known of the one session with the
//! positional-audio link, and what may be asked of it.
//!
//! The link itself is opened and written outside this library. The adapter
//! decides what is to be done and keeps the record: whether a session is open,
//! the last error, the identity and context last set, and the update nonce.

use vstd::prelude::*;
use vstd::string::*;
use crate::event::{Effect, EffectView};
use crate::position::MPos;
use crate::text::Counter;

verus! {

/// Why a request to connect the link did not open a session.
#[derive(Debug, PartialEq, Eq)]
pub enum LinkConnectError {
    /// A session is open already; it stays in use.
    AlreadyConnected,
    /// Opening failed, for the reason given.
    Failed(String),
}

impl LinkConnectError {
    /// The error as the observer is told it.
    pub open spec fn report(self) -> Seq<char> {
        match self {
            LinkConnectError::AlreadyConnected => "Mumble already connected"@,
            LinkConnectError::Failed(reason) => reason@,
        }
    }

    /// The line of text that tells the observer of this error.
    pub fn to_text(&self) -> (r: String)
        ensures
            r@ == self.report(),
    {
        match self {
            LinkConnectError::AlreadyConnected => String::from_str("Mumble already connected"),
            LinkConnectError::Failed(reason) => reason.clone(),
        }
    }
}

/// The state of the link session.
pub struct LinkSession {
    connected: bool,
    last_error: String,
    identity: String,
    context: String,
    nonce: Counter,
}

/// What a `LinkSession` holds.
#[verifier::ext_equal]
pub struct LinkView {
    /// Whether a session is open.
    pub connected: bool,
    /// Why no session is open; empty while one is.
    pub last_error: Seq<char>,
    /// The identity last set in the open session.
    pub identity: Seq<char>,
    /// The context last set in the open session.
    pub context: Seq<char>,
    /// How often identity and context were pushed, over all sessions.
    pub nonce: nat,
}

impl View for LinkSession {
    type V = LinkView;

    closed spec fn view(&self) -> LinkView {
        LinkView {
            connected: self.connected,
            last_error: self.last_error@,
            identity: self.identity@,
            context: self.context@,
            nonce: self.nonce@,
        }
    }
}

impl LinkView {
    /// The adapter before anything was asked of it.
    pub open spec fn initial() -> LinkView {
        LinkView {
            connected: false,
            last_error: "Mumble not connected"@,
            identity: Seq::empty(),
            context: Seq::empty(),
            nonce: 0,
        }
    }

    /// The adapter after an attempt to open the link came back with `outcome`.
    /// An open session is left alone; a new one starts without identity or
    /// context; the nonce goes on counting.
    pub open spec fn opened(self, outcome: Result<(), Seq<char>>) -> LinkView {
        if self.connected {
            self
        } else {
            match outcome {
                Ok(_) => LinkView {
                    connected: true,
                    last_error: Seq::empty(),
                    identity: Seq::empty(),
                    context: Seq::empty(),
                    nonce: self.nonce,
                },
                Err(reason) => LinkView { connected: false, last_error: reason, ..self },
            }
        }
    }

    /// The adapter after identity and context were pushed: the nonce has
    /// grown by one, and an open session holds the new pair.
    pub open spec fn identified(self, identity: Seq<char>, context: Seq<char>) -> LinkView {
        if self.connected {
            LinkView { identity, context, nonce: self.nonce + 1, ..self }
        } else {
            LinkView { nonce: self.nonce + 1, ..self }
        }
    }

    /// What a position update asks of the runner: a push into an open session,
    /// nothing without one.
    pub open spec fn update_effect(self, player: MPos, camera: MPos) -> Option<EffectView> {
        if self.connected {
            Some(EffectView::LinkUpdate { player, camera })
        } else {
            None
        }
    }

    /// What a push of identity and context asks of the runner.
    pub open spec fn identify_effect(self, identity: Seq<char>, context: Seq<char>) -> Option<
        EffectView,
    > {
        if self.connected {
            Some(EffectView::LinkIdentify { identity, context })
        } else {
            None
        }
    }
}

/// An outcome of opening the link, with the reason as its characters.
pub open spec fn outcome_view(outcome: Result<(), String>) -> Result<(), Seq<char>> {
    match outcome {
        Ok(_) => Ok(()),
        Err(reason) => Err(reason@),
    }
}

/// An effect or none, by its view.
pub open spec fn optional_effect_view(e: Option<Effect>) -> Option<EffectView> {
    match e {
        Some(effect) => Some(effect@),
        None => None,
    }
}

impl LinkSession {
    /// An adapter without a session.
    pub fn new() -> (r: Self)
        ensures
            r@ == LinkView::initial(),
    {
        LinkSession {
            connected: false,
            last_error: String::from_str("Mumble not connected"),
            identity: String::new(),
            context: String::new(),
            nonce: Counter::new(),
        }
    }

    pub fn is_connected(&self) -> (r: bool)
        ensures
            r == self@.connected,
    {
        self.connected
    }

    /// How often identity and context were pushed.
    pub fn nonce(&self) -> (r: &Counter)
        ensures
            r@ == self@.nonce,
    {
        &self.nonce
    }

    /// The identity last set.
    pub fn identity(&self) -> (r: &String)
        ensures
            r@ == self@.identity,
    {
        &self.identity
    }

    /// The context last set.
    pub fn context(&self) -> (r: &String)
        ensures
            r@ == self@.context,
    {
        &self.context
    }

    /// Why no session is open.
    pub fn last_error(&self) -> (r: &String)
        ensures
            r@ == self@.last_error,
    {
        &self.last_error
    }

    /// Asks for a session. With one open already the answer is
    /// `AlreadyConnected`; else it is the request to open the link, whose
    /// outcome goes to `opened`.
    pub fn connect(&self, app_name: &str, app_description: &str) -> (r: Result<
        Effect,
        LinkConnectError,
    >)
        ensures
            self@.connected ==> r is Err && r->Err_0 is AlreadyConnected,
            !self@.connected ==> r is Ok && r->Ok_0@ == (EffectView::OpenLink {
                name: app_name@,
                description: app_description@,
            }),
    {
        if self.connected {
            Err(LinkConnectError::AlreadyConnected)
        } else {
            Ok(
                Effect::OpenLink {
                    name: String::from_str(app_name),
                    description: String::from_str(app_description),
                },
            )
        }
    }

    /// Records how the attempt to open the link went, and says whether a
    /// session is open now that was not before. With a session open already the
    /// outcome is dropped and that session stays.
    pub fn opened(&mut self, outcome: Result<(), String>) -> (r: Result<(), LinkConnectError>)
        ensures
            final(self)@ == old(self)@.opened(outcome_view(outcome)),
            old(self)@.connected ==> r is Err && r->Err_0 is AlreadyConnected,
            !old(self)@.connected && outcome is Ok ==> r is Ok,
            !old(self)@.connected && outcome is Err ==> r is Err && r->Err_0 is Failed
                && r->Err_0.report() == outcome->Err_0@,
    {
        if self.connected {
            return Err(LinkConnectError::AlreadyConnected);
        }
        match outcome {
            Ok(_) => {
                self.connected = true;
                self.last_error = String::new();
                self.identity = String::new();
                self.context = String::new();
                Ok(())
            },
            Err(reason) => {
                self.last_error = reason.clone();
                Err(LinkConnectError::Failed(reason))
            },
        }
    }

    /// Asks for a pair of positions to be pushed. Without a session nothing is
    /// asked and nothing is kept.
    pub fn update(&self, player: MPos, camera: MPos) -> (r: Option<Effect>)
        ensures
            optional_effect_view(r) == self@.update_effect(player, camera),
    {
        if self.connected {
            Some(Effect::LinkUpdate { player, camera })
        } else {
            None
        }
    }

    /// Asks for identity and context to be set, both at once, and counts the
    /// push.
    pub fn set_identity_and_context(&mut self, identity: String, context: String) -> (r: Option<
        Effect,
    >)
        ensures
            final(self)@ == old(self)@.identified(identity@, context@),
            optional_effect_view(r) == old(self)@.identify_effect(identity@, context@),
    {
        self.nonce = self.nonce.next();
        if self.connected {
            self.identity = identity.clone();
            self.context = context.clone();
            Some(Effect::LinkIdentify { identity, context })
        } else {
            None
        }
    }
}

} // verus!
