//! The polling pipeline: what one snapshot of the game's telemetry does to the
//! link and to the observer.
//!
//! The snapshot is taken outside this library, every 10 ms. The pipeline keeps
//! track of what it saw last, decides whether identity and context are due,
//! and whether the player's position can be trusted.

use vstd::prelude::*;
use vstd::string::*;
use vstd::utf8::{decode_utf8, valid_utf8};
use crate::event::{
    effects_view, emit, no_effects, Effect, EffectView, FromTM, FromTMView, ToGUI, ToGUIView,
};
use crate::identity::{
    context_chars, format_context, format_identity_counted, identity_chars,
    obfs_uid_or_svr_login, obfuscated,
};
use crate::link::{LinkSession, LinkView};
use crate::mp_telemetry_data::{c_str, AsCStrSlice, STelemetry};
use crate::position::{near_zero, position_near_zero, MPos};
use crate::tcp_server::no_team;

verus! {

/// Identity and context are pushed again once more than this many
/// milliseconds have passed since the last push.
pub const CONTEXT_INTERVAL_MS: u64 = 5000;

/// The game counts as silent once its update number has stood still for more
/// than this many milliseconds.
pub const UPDATE_TIMEOUT_MS: u64 = 2000;

/// The player's object counts as not simulated after more than this many
/// frames in a row without a new timestamp.
pub const STALE_FRAME_LIMIT: u64 = 10;

/// What the context of the link depends on.
#[derive(Debug, PartialEq, Eq)]
pub struct MPData {
    pub curr_map: String,
    pub is_local_player: bool,
    pub player_name: String,
    pub race_state: u32,
}

/// What an `MPData` holds, with each text as its characters.
#[verifier::ext_equal]
pub struct MPDataView {
    pub curr_map: Seq<char>,
    pub is_local_player: bool,
    pub player_name: Seq<char>,
    pub race_state: u32,
}

impl View for MPData {
    type V = MPDataView;

    open spec fn view(&self) -> MPDataView {
        MPDataView {
            curr_map: self.curr_map@,
            is_local_player: self.is_local_player,
            player_name: self.player_name@,
            race_state: self.race_state,
        }
    }
}

impl MPDataView {
    /// No map, no player, nothing running.
    pub open spec fn empty() -> MPDataView {
        MPDataView {
            curr_map: Seq::empty(),
            is_local_player: false,
            player_name: Seq::empty(),
            race_state: 0,
        }
    }
}

impl Default for MPData {
    fn default() -> (r: Self)
        ensures
            r@ == MPDataView::empty(),
    {
        MPData {
            curr_map: String::new(),
            is_local_player: false,
            player_name: String::new(),
            race_state: 0,
        }
    }
}

impl Clone for MPData {
    fn clone(&self) -> (r: Self)
        ensures
            r@ == self@,
    {
        MPData {
            curr_map: self.curr_map.clone(),
            is_local_player: self.is_local_player,
            player_name: self.player_name.clone(),
            race_state: self.race_state,
        }
    }
}

impl MPData {
    /// Whether two contexts hold the same.
    pub fn same(&self, other: &MPData) -> (r: bool)
        ensures
            r == (self@ == other@),
    {
        let r = self.curr_map == other.curr_map && self.is_local_player == other.is_local_player
            && self.player_name == other.player_name && self.race_state == other.race_state;
        assert(r == (self@ =~= other@));
        r
    }
}

/// The text that `String::from_utf8_lossy` makes of `bytes`: their characters
/// where they are UTF-8, with a replacement character for what is not.
pub uninterp spec fn utf8_lossy(bytes: Seq<u8>) -> Seq<char>;

/// Calls `String::from_utf8_lossy` of std, which takes any bytes and never
/// fails, and owns the result. Bytes that are UTF-8 come back as the text that
/// they encode.
#[verifier::external_body]
fn text_of(bytes: &[u8]) -> (r: String)
    ensures
        r@ == utf8_lossy(bytes@),
        valid_utf8(bytes@) ==> r@ == decode_utf8(bytes@),
{
    String::from_utf8_lossy(bytes).into_owned()
}

/// The context that a snapshot shows.
pub open spec fn context_of(t: STelemetry) -> MPDataView {
    MPDataView {
        curr_map: utf8_lossy(c_str(t.game.map_id@)),
        is_local_player: t.player.is_local_player > 0,
        player_name: utf8_lossy(c_str(t.player.user_name@)),
        race_state: t.race.state,
    }
}

/// Reads the context out of a snapshot. Each text ends at the first zero byte
/// of its field; where its bytes are UTF-8 it is the text that they encode, so
/// a field that begins with a zero byte gives the empty text.
pub fn read_context(t: &STelemetry) -> (r: MPData)
    ensures
        r@ == context_of(*t),
        valid_utf8(c_str(t.game.map_id@)) ==> r@.curr_map == decode_utf8(c_str(t.game.map_id@)),
        valid_utf8(c_str(t.player.user_name@)) ==> r@.player_name == decode_utf8(
            c_str(t.player.user_name@),
        ),
        t.game.map_id@[0] == 0 ==> r@.curr_map == Seq::<char>::empty(),
        t.player.user_name@[0] == 0 ==> r@.player_name == Seq::<char>::empty(),
{
    proof {
        assert(t.game.map_id@[0] == 0 ==> c_str(t.game.map_id@) =~= Seq::<u8>::empty());
        assert(t.player.user_name@[0] == 0 ==> c_str(t.player.user_name@) =~= Seq::<u8>::empty());
        assert(valid_utf8(Seq::<u8>::empty()));
        assert(decode_utf8(Seq::<u8>::empty()) =~= Seq::<char>::empty());
    }
    let map_id = t.game.map_id.as_cstr_vec();
    let user_name = t.player.user_name.as_cstr_vec();
    MPData {
        curr_map: text_of(map_id.as_slice()),
        is_local_player: t.player.is_local_player > 0,
        player_name: text_of(user_name.as_slice()),
        race_state: t.race.state,
    }
}

/// The milliseconds from `then` to `now`; none where `now` is the earlier.
pub open spec fn elapsed(now: u64, then: u64) -> int {
    if now >= then {
        now - then
    } else {
        0
    }
}

/// What the pipeline remembers from one snapshot to the next.
pub struct PollState {
    last_ctx: MPData,
    last_ctx_update: u64,
    last_update_nb_change: u64,
    last_update_nb: u32,
    last_obj_ts: u32,
    no_obj_frames: u64,
    no_updates: bool,
}

/// What a `PollState` holds. Times are in milliseconds on the runner's clock.
#[verifier::ext_equal]
pub struct PollView {
    /// The context of the last snapshot.
    pub last_ctx: MPDataView,
    /// When identity and context were last pushed.
    pub last_ctx_update: u64,
    /// When the update number last changed.
    pub last_update_nb_change: u64,
    pub last_update_nb: u32,
    /// The object's timestamp in the last frame.
    pub last_obj_ts: u32,
    /// The frames in a row in which the object's timestamp stood still.
    pub no_obj_frames: u64,
    /// Whether the game has gone silent.
    pub no_updates: bool,
}

/// Where one snapshot leaves the pipeline and the link, and what is to be done.
#[verifier::ext_equal]
pub struct PollStep {
    pub poll: PollView,
    pub link: LinkView,
    pub effects: Seq<EffectView>,
}

impl View for PollState {
    type V = PollView;

    closed spec fn view(&self) -> PollView {
        PollView {
            last_ctx: self.last_ctx@,
            last_ctx_update: self.last_ctx_update,
            last_update_nb_change: self.last_update_nb_change,
            last_update_nb: self.last_update_nb,
            last_obj_ts: self.last_obj_ts,
            no_obj_frames: self.no_obj_frames,
            no_updates: self.no_updates,
        }
    }
}

impl PollView {
    /// The pipeline as it starts at the time `now`.
    pub open spec fn initial(now: u64) -> PollView {
        PollView {
            last_ctx: MPDataView::empty(),
            last_ctx_update: now,
            last_update_nb_change: now,
            last_update_nb: 0,
            last_obj_ts: 0,
            no_obj_frames: 0,
            no_updates: false,
        }
    }

    /// The counters after the snapshot `t` was seen at `now`. A snapshot with a
    /// new update number is a frame: the game is not silent, and the frame
    /// either moves the object's timestamp, which ends the run of stale frames,
    /// or adds to the run. A snapshot with the old update number makes the game
    /// silent once the number has stood still for more than two seconds.
    pub open spec fn observed(self, t: STelemetry, now: u64) -> PollView {
        if self.last_update_nb != t.update_number {
            PollView {
                last_update_nb: t.update_number,
                last_update_nb_change: now,
                no_updates: false,
                last_obj_ts: t.object.timestamp,
                no_obj_frames: if self.last_obj_ts != t.object.timestamp {
                    0
                } else if self.no_obj_frames < u64::MAX {
                    (self.no_obj_frames + 1) as u64
                } else {
                    self.no_obj_frames
                },
                ..self
            }
        } else if elapsed(now, self.last_update_nb_change) > UPDATE_TIMEOUT_MS {
            PollView { no_updates: true, ..self }
        } else {
            self
        }
    }

    /// Whether identity and context are due: the context differs from the last
    /// one, or more than five seconds have passed since the last push.
    pub open spec fn push_due(self, ctx: MPDataView, now: u64) -> bool {
        ctx != self.last_ctx || elapsed(now, self.last_ctx_update) > CONTEXT_INTERVAL_MS
    }

    /// Whether the player is not in the world: the snapshot shows no local
    /// player, the game is silent, or the object has been stale for more than
    /// ten frames.
    pub open spec fn unspawned(self, ctx: MPDataView) -> bool {
        !ctx.is_local_player || self.no_updates || self.no_obj_frames > STALE_FRAME_LIMIT
    }

    /// The position that is pushed: the sentinel for a player who is not in the
    /// world, else the converted position seen from the link's side.
    pub open spec fn pushed_position(self, ctx: MPDataView, converted: MPos) -> MPos {
        if self.unspawned(ctx) {
            near_zero()
        } else {
            converted.mirrored()
        }
    }

    /// One snapshot taken at `now`, with `converted` the object's scaled
    /// translation and rotated axes.
    pub open spec fn polled(self, link: LinkView, t: STelemetry, now: u64, converted: MPos) -> PollStep {
        self.advanced(link, t, context_of(t), obfuscated(context_of(t).curr_map), now, converted)
    }

    /// One snapshot taken at `now`, of which `ctx` is the context and `shown`
    /// the map's identifier as it is to be shown. The snapshot goes to the
    /// observer; identity and context are pushed if they are due, and the
    /// observer hears of them; then the position is pushed and forwarded.
    pub open spec fn advanced(
        self,
        link: LinkView,
        t: STelemetry,
        ctx: MPDataView,
        shown: Seq<char>,
        now: u64,
        converted: MPos,
    ) -> PollStep {
        let seen = self.observed(t, now);
        let position = seen.pushed_position(ctx, converted);
        let positions = seq![
            EffectView::LinkUpdate { player: position, camera: position },
            EffectView::Forward(ToGUIView::FromTM(FromTMView::Positions { p: position, c: position })),
        ];
        let snapshot = seq![EffectView::Forward(ToGUIView::Telemetry(t))];
        if self.push_due(ctx, now) {
            let identity = identity_chars(ctx.player_name, ctx.player_name, link.nonce + 1);
            let context = context_chars(shown, no_team());
            PollStep {
                poll: PollView { last_ctx: ctx, last_ctx_update: now, ..seen },
                link: link.identified(identity, context),
                effects: snapshot + seq![
                    EffectView::LinkIdentify { identity, context },
                    EffectView::Forward(
                        ToGUIView::FromTM(FromTMView::PlayerDetails(ctx.player_name, ctx.player_name)),
                    ),
                    EffectView::Forward(
                        ToGUIView::FromTM(FromTMView::ServerDetails(ctx.curr_map, no_team())),
                    ),
                ] + positions,
            }
        } else {
            PollStep {
                poll: PollView { last_ctx: ctx, ..seen },
                link,
                effects: snapshot + positions,
            }
        }
    }
}

/// Whether an effect sets identity and context of the link.
pub open spec fn is_identify(e: EffectView) -> bool {
    e is LinkIdentify
}

/// The rate limit: a snapshot pushes identity and context exactly if the
/// context differs from that of the snapshot before, or more than five seconds
/// have passed since the last push. A snapshot that pushes does so once and
/// counts the push; one that does not leaves the link as it is.
pub proof fn lemma_push_iff_due(s: PollView, link: LinkView, t: STelemetry, now: u64, converted: MPos)
    ensures
        s.push_due(context_of(t), now) <==> exists|i: int|
            0 <= i < s.polled(link, t, now, converted).effects.len() && is_identify(
                #[trigger] s.polled(link, t, now, converted).effects[i],
            ),
        s.push_due(context_of(t), now) ==> s.polled(link, t, now, converted).link.nonce == link.nonce
            + 1 && s.polled(link, t, now, converted).poll.last_ctx_update == now,
        !s.push_due(context_of(t), now) ==> s.polled(link, t, now, converted).link == link && s.polled(
            link,
            t,
            now,
            converted,
        ).poll.last_ctx_update == s.last_ctx_update,
        forall|i: int, j: int|
            0 <= i < j < s.polled(link, t, now, converted).effects.len() ==> !(is_identify(
                #[trigger] s.polled(link, t, now, converted).effects[i],
            ) && is_identify(#[trigger] s.polled(link, t, now, converted).effects[j])),
{
    let step = s.polled(link, t, now, converted);
    if s.push_due(context_of(t), now) {
        assert(is_identify(step.effects[1]));
    }
}

/// Identity and context are set before the position of the same snapshot is
/// pushed.
pub proof fn lemma_identity_before_position(
    s: PollView,
    link: LinkView,
    t: STelemetry,
    now: u64,
    converted: MPos,
)
    ensures
        forall|i: int, j: int|
            0 <= i < s.polled(link, t, now, converted).effects.len() && 0 <= j < s.polled(
                link,
                t,
                now,
                converted,
            ).effects.len() && is_identify(#[trigger] s.polled(link, t, now, converted).effects[i])
                && (#[trigger] s.polled(link, t, now, converted).effects[j]) is LinkUpdate ==> i < j,
{
}

/// With the context as it was in the snapshot before, a push comes after more
/// than 5000 ms and not sooner.
pub proof fn lemma_heartbeat(s: PollView, t: STelemetry, now: u64)
    requires
        context_of(t) == s.last_ctx,
        now >= s.last_ctx_update,
    ensures
        s.push_due(context_of(t), now) <==> now - s.last_ctx_update > 5000,
{
}

/// A player who is not in the world is pushed as the sentinel, for player and
/// camera alike, whatever the snapshot says of the object: so it is for a
/// snapshot without a local player, for a silent game, and after more than ten
/// stale frames.
pub proof fn lemma_unspawned_is_sentinel(
    s: PollView,
    link: LinkView,
    t: STelemetry,
    now: u64,
    converted: MPos,
)
    requires
        !context_of(t).is_local_player || s.observed(t, now).no_updates || s.observed(
            t,
            now,
        ).no_obj_frames > STALE_FRAME_LIMIT,
    ensures
        ({
            let effects = s.polled(link, t, now, converted).effects;
            &&& effects.len() >= 2
            &&& effects[effects.len() - 2] == (EffectView::LinkUpdate {
                player: near_zero(),
                camera: near_zero(),
            })
            &&& effects[effects.len() - 1] == EffectView::Forward(
                ToGUIView::FromTM(FromTMView::Positions { p: near_zero(), c: near_zero() }),
            )
        }),
{
}

/// A player who is in the world is pushed where the object is, mirrored in Z
/// and the same for player and camera.
pub proof fn lemma_spawned_is_mirrored(
    s: PollView,
    link: LinkView,
    t: STelemetry,
    now: u64,
    converted: MPos,
)
    requires
        context_of(t).is_local_player,
        !s.observed(t, now).no_updates,
        s.observed(t, now).no_obj_frames <= STALE_FRAME_LIMIT,
    ensures
        ({
            let effects = s.polled(link, t, now, converted).effects;
            &&& effects.len() >= 2
            &&& effects[effects.len() - 2] == (EffectView::LinkUpdate {
                player: converted.mirrored(),
                camera: converted.mirrored(),
            })
        }),
{
}

/// Every snapshot goes to the observer first, as it is.
pub proof fn lemma_snapshot_is_forwarded(
    s: PollView,
    link: LinkView,
    t: STelemetry,
    now: u64,
    converted: MPos,
)
    ensures
        s.polled(link, t, now, converted).effects.len() > 0,
        s.polled(link, t, now, converted).effects[0] == EffectView::Forward(ToGUIView::Telemetry(t)),
{
}

impl PollState {
    /// The pipeline as it starts at the time `now`.
    pub fn new(now: u64) -> (r: Self)
        ensures
            r@ == PollView::initial(now),
    {
        PollState {
            last_ctx: MPData::default(),
            last_ctx_update: now,
            last_update_nb_change: now,
            last_update_nb: 0,
            last_obj_ts: 0,
            no_obj_frames: 0,
            no_updates: false,
        }
    }

    /// The context of the last snapshot.
    pub fn last_context(&self) -> (r: &MPData)
        ensures
            r@ == self@.last_ctx,
    {
        &self.last_ctx
    }

    /// Brings the counters up to date with the snapshot `t`.
    fn track(&mut self, t: &STelemetry, now: u64)
        ensures
            final(self)@ == old(self)@.observed(*t, now),
    {
        if self.last_update_nb != t.update_number {
            self.last_update_nb = t.update_number;
            self.last_update_nb_change = now;
            self.no_updates = false;
            let obj_updated = self.last_obj_ts != t.object.timestamp;
            self.last_obj_ts = t.object.timestamp;
            if !obj_updated {
                self.no_obj_frames = self.no_obj_frames.saturating_add(1);
            } else {
                self.no_obj_frames = 0;
            }
        } else if now >= self.last_update_nb_change && now - self.last_update_nb_change
            > UPDATE_TIMEOUT_MS && !self.no_updates {
            self.no_updates = true;
        }
    }

    /// Whether identity and context are due for the context `ctx` at `now`.
    pub fn should_push(&self, ctx: &MPData, now: u64) -> (r: bool)
        ensures
            r == self@.push_due(ctx@, now),
    {
        !ctx.same(&self.last_ctx) || (now >= self.last_ctx_update && now - self.last_ctx_update
            > CONTEXT_INTERVAL_MS)
    }

    /// Handles one snapshot taken at `now`. `converted` is the object's
    /// translation, scaled to the link's unit, with its forward and up axes
    /// turned by the object's rotation; the pipeline mirrors it and uses it for
    /// player and camera alike.
    pub fn poll(&mut self, link: &mut LinkSession, t: &STelemetry, now: u64, converted: MPos) -> (out:
        Vec<Effect>)
        requires
            old(link)@.connected,
        ensures
            final(self)@ == old(self)@.polled(old(link)@, *t, now, converted).poll,
            final(link)@ == old(self)@.polled(old(link)@, *t, now, converted).link,
            effects_view(out@) == old(self)@.polled(old(link)@, *t, now, converted).effects,
    {
        let ctx = read_context(t);
        let shown = obfs_uid_or_svr_login(ctx.curr_map.as_str());
        self.advance(link, t, ctx, shown.as_str(), now, converted)
    }

    /// Handles one snapshot taken at `now`, of which `ctx` is the context and
    /// `shown` the map's identifier as it is to be shown.
    pub fn advance(
        &mut self,
        link: &mut LinkSession,
        t: &STelemetry,
        ctx: MPData,
        shown: &str,
        now: u64,
        converted: MPos,
    ) -> (out: Vec<Effect>)
        requires
            old(link)@.connected,
        ensures
            final(self)@ == old(self)@.advanced(old(link)@, *t, ctx@, shown@, now, converted).poll,
            final(link)@ == old(self)@.advanced(old(link)@, *t, ctx@, shown@, now, converted).link,
            effects_view(out@) == old(self)@.advanced(
                old(link)@,
                *t,
                ctx@,
                shown@,
                now,
                converted,
            ).effects,
    {
        let ghost step = old(self)@.advanced(old(link)@, *t, ctx@, shown@, now, converted);
        let mut out = no_effects();
        emit(&mut out, Effect::Forward(ToGUI::Telemetry(*t)));
        let curr_ctx = ctx;
        let due = self.should_push(&curr_ctx, now);
        self.track(t, now);
        if due {
            let pushes = link.nonce().next();
            let identity = format_identity_counted(
                curr_ctx.player_name.as_str(),
                curr_ctx.player_name.as_str(),
                &pushes,
            );
            let context = format_context(shown, "All");
            match link.set_identity_and_context(identity, context) {
                Some(effect) => {
                    emit(&mut out, effect);
                },
                None => {},
            }
            emit(
                &mut out,
                Effect::Forward(
                    ToGUI::FromTM(
                        FromTM::PlayerDetails(
                            curr_ctx.player_name.clone(),
                            curr_ctx.player_name.clone(),
                        ),
                    ),
                ),
            );
            emit(
                &mut out,
                Effect::Forward(
                    ToGUI::FromTM(
                        FromTM::ServerDetails(curr_ctx.curr_map.clone(), String::from_str("All")),
                    ),
                ),
            );
            self.last_ctx_update = now;
        }
        let unspawned = !curr_ctx.is_local_player || self.no_updates || self.no_obj_frames
            > STALE_FRAME_LIMIT;
        let position = if unspawned { position_near_zero() } else { converted.mirror_z() };
        emit(&mut out, Effect::LinkUpdate { player: position, camera: position });
        emit(&mut out, Effect::Forward(ToGUI::FromTM(FromTM::Positions { p: position, c: position })));
        self.last_ctx = curr_ctx;
        assert(effects_view(out@) =~= step.effects);
        out
    }
}

} // verus!
