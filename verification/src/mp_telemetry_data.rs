//! The telemetry record that the game publishes, field by field.
//!
//! Numbers that the game stores as single-precision floats are kept as their
//! bit patterns; fixed-width text fields are kept as the bytes they are.

use vstd::prelude::*;
use vstd::array::*;
use vstd::slice::slice_subrange;
use vstd::string::*;
use crate::codec::{read_word, word_at};

verus! {

/// The record version that this library understands.
pub const MP_T_VERSION: u32 = 3;

/// A vector of three single-precision numbers, as bit patterns.
#[verifier::ext_equal]
#[derive(Clone, Copy, Debug, PartialEq, Eq)]
pub struct Vec3 {
    pub x: u32,
    pub y: u32,
    pub z: u32,
}

/// A rotation quaternion of four single-precision numbers, as bit patterns.
#[verifier::ext_equal]
#[derive(Clone, Copy, Debug, PartialEq, Eq)]
pub struct Quat {
    pub w: u32,
    pub x: u32,
    pub y: u32,
    pub z: u32,
}

#[verifier::ext_equal]
#[derive(Clone, Copy, Debug, PartialEq, Eq)]
pub struct SHeader {
    /// `"ManiaPlanet_Telemetry"`, padded with zero bytes.
    pub magic: [u8; 32],
    pub version: u32,
    /// The size of the whole record in bytes.
    pub size: u32,
}

#[verifier::ext_equal]
#[derive(Clone, Copy, Debug, PartialEq, Eq)]
pub struct SGameState {
    /// 0 starting, 1 menus, 2 running, 3 paused.
    pub state: u32,
    /// The player model, such as `StadiumCar`.
    pub gameplay_variant: [u8; 64],
    pub map_id: [u8; 64],
    pub map_name: [u8; 256],
    pub future: [u8; 128],
}

#[verifier::ext_equal]
#[derive(Clone, Copy, Debug, PartialEq, Eq)]
pub struct SRaceState {
    /// 0 before the start, 1 running, 2 finished.
    pub state: u32,
    pub time: u32,
    pub nb_respawns: u32,
    pub nb_checkpoints: u32,
    pub checkpoint_times: [u32; 125],
    pub nb_checkpoints_per_lap: u32,
    pub nb_laps_per_race: u32,
    pub timestamp: u32,
    /// When the state changes, or changed, to running.
    pub start_timestamp: u32,
    pub future: [u8; 16],
}

#[verifier::ext_equal]
#[derive(Clone, Copy, Debug, PartialEq, Eq)]
pub struct SObjectState {
    pub timestamp: u32,
    /// Changes whenever the object is moved other than continuously.
    pub discontinuity_count: u32,
    pub rotation: Quat,
    /// +x is left, +y is up, +z is front.
    pub translation: Vec3,
    pub velocity: Vec3,
    pub latest_stable_ground_contact_time: u32,
    pub future: [u8; 32],
}

#[verifier::ext_equal]
#[derive(Clone, Copy, Debug, PartialEq, Eq)]
pub struct SVehicleState {
    pub timestamp: u32,
    pub input_steer: u32,
    pub input_gas_pedal: u32,
    pub input_is_braking: u32,
    pub input_is_horn: u32,
    pub engine_rpm: u32,
    pub engine_cur_gear: i32,
    pub engine_turbo_ratio: u32,
    pub engine_freewheeling: u32,
    pub wheels_is_ground_contact: [u32; 4],
    pub wheels_is_slipping: [u32; 4],
    pub wheels_damper_len: [u32; 4],
    pub wheels_damper_range_min: u32,
    pub wheels_damper_range_max: u32,
    pub rumble_intensity: u32,
    /// Unsigned, in km/h.
    pub speed_meter: u32,
    pub is_in_water: u32,
    pub is_sparkling: u32,
    pub is_light_trails: u32,
    pub is_lights_on: u32,
    pub is_flying: u32,
    pub is_on_ice: u32,
    pub handicap: u32,
    pub boost_ratio: u32,
    pub future: [u8; 20],
}

#[verifier::ext_equal]
#[derive(Clone, Copy, Debug, PartialEq, Eq)]
pub struct SDeviceState {
    pub euler: Vec3,
    pub centered_yaw: u32,
    pub centered_altitude: u32,
    pub future: [u8; 32],
}

#[verifier::ext_equal]
#[derive(Clone, Copy, Debug, PartialEq, Eq)]
pub struct SPlayerState {
    /// Nonzero for the locally controlled player; zero for a spectated or
    /// replayed one.
    pub is_local_player: u32,
    pub trigram: [u8; 4],
    pub dossard_number: [u8; 4],
    pub hue: u32,
    pub user_name: [u8; 256],
    pub future: [u8; 28],
}

#[verifier::ext_equal]
#[derive(Clone, Copy, Debug, PartialEq, Eq)]
pub struct STelemetry {
    pub header: SHeader,
    pub update_number: u32,
    pub game: SGameState,
    pub race: SRaceState,
    pub object: SObjectState,
    pub vehicle: SVehicleState,
    pub device: SDeviceState,
    pub player: SPlayerState,
}


/// The number of bytes of `s` before its first zero byte; all of them where it
/// has none.
pub open spec fn c_str_len(s: Seq<u8>) -> nat
    decreases s.len(),
{
    if s.len() == 0 || s[0] == 0 {
        0
    } else {
        1 + c_str_len(s.drop_first())
    }
}

/// The bytes of `s` before its first zero byte.
pub open spec fn c_str(s: Seq<u8>) -> Seq<u8> {
    s.take(c_str_len(s) as int)
}

/// `c_str_len` is the place of the first zero byte: no byte before it is zero,
/// and it is the end of `s` or a zero byte.
pub proof fn lemma_c_str_len(s: Seq<u8>)
    ensures
        c_str_len(s) <= s.len(),
        forall|j: int| 0 <= j < c_str_len(s) ==> s[j] != 0,
        c_str_len(s) < s.len() ==> s[c_str_len(s) as int] == 0,
    decreases s.len(),
{
    if s.len() == 0 || s[0] == 0 {
    } else {
        let rest = s.drop_first();
        lemma_c_str_len(rest);
        assert forall|j: int| 0 <= j < c_str_len(s) implies s[j] != 0 by {
            if j > 0 {
                assert(s[j] == rest[j - 1]);
            }
        }
        if c_str_len(s) < s.len() {
            assert(s[c_str_len(s) as int] == rest[c_str_len(rest) as int]);
        }
    }
}

/// A place with a zero byte, or the end, before which no byte is zero, is
/// `c_str_len`.
pub proof fn lemma_c_str_len_is(s: Seq<u8>, n: int)
    requires
        0 <= n <= s.len(),
        forall|j: int| 0 <= j < n ==> s[j] != 0,
        n < s.len() ==> s[n] == 0,
    ensures
        c_str_len(s) == n,
    decreases s.len(),
{
    if s.len() == 0 || s[0] == 0 {
    } else {
        let rest = s.drop_first();
        assert forall|j: int| 0 <= j < n - 1 implies rest[j] != 0 by {
            assert(rest[j] == s[j + 1]);
        }
        if n < s.len() {
            assert(rest[n - 1] == s[n]);
        }
        lemma_c_str_len_is(rest, n - 1);
    }
}

/// A fixed-width field that holds a text which ends at the first zero byte.
pub trait AsCStrSlice {
    /// The bytes of the field.
    spec fn field_bytes(&self) -> Seq<u8>;

    /// The bytes of the text, without the zero byte and what follows it.
    fn as_cstr_vec(&self) -> (r: Vec<u8>)
        ensures
            r@ == c_str(self.field_bytes()),
    ;
}

impl<const N: usize> AsCStrSlice for [u8; N] {
    open spec fn field_bytes(&self) -> Seq<u8> {
        self@
    }

    fn as_cstr_vec(&self) -> (r: Vec<u8>) {
        let mut out: Vec<u8> = Vec::new();
        let mut i: usize = 0;
        while i < N && self[i] != 0
            invariant
                i <= N,
                N == self@.len(),
                out@ == self@.take(i as int),
                forall|j: int| 0 <= j < i ==> self@[j] != 0,
            decreases N - i,
        {
            out.push(self[i]);
            assert(out@ =~= self@.take(i as int + 1));
            i = i + 1;
        }
        proof {
            lemma_c_str_len_is(self@, i as int);
        }
        out
    }
}


/// The length of the header in bytes.
pub const HEADER_LEN: usize = 40;

/// The length of the whole record in bytes.
pub const TELEMETRY_LEN: usize = 1696;

/// Why no snapshot of the telemetry could be had.
#[derive(Debug, PartialEq, Eq)]
pub enum TelemetryReadError {
    /// The shared region could not be opened or mapped, for the reason given.
    Unavailable(String),
    /// The region is shorter than the record.
    Truncated,
    /// The record does not begin with `ManiaPlanet_Telemetry`.
    BadMagic,
    /// The record is of another version.
    BadVersion,
    /// The record says that it is of another size.
    BadSize,
}

impl TelemetryReadError {
    /// The error as the observer is told it.
    pub open spec fn report(self) -> Seq<char> {
        match self {
            TelemetryReadError::Unavailable(reason) => reason@,
            TelemetryReadError::Truncated => "the telemetry region is shorter than the record"@,
            TelemetryReadError::BadMagic => "the telemetry region does not hold a telemetry record"@,
            TelemetryReadError::BadVersion => "the telemetry record is of an unknown version"@,
            TelemetryReadError::BadSize => "the telemetry record is of an unknown size"@,
        }
    }

    /// The line of text that tells the observer of this error.
    pub fn to_text(&self) -> (r: String)
        ensures
            r@ == self.report(),
    {
        match self {
            TelemetryReadError::Unavailable(reason) => reason.clone(),
            TelemetryReadError::Truncated => String::from_str(
                "the telemetry region is shorter than the record",
            ),
            TelemetryReadError::BadMagic => String::from_str(
                "the telemetry region does not hold a telemetry record",
            ),
            TelemetryReadError::BadVersion => String::from_str(
                "the telemetry record is of an unknown version",
            ),
            TelemetryReadError::BadSize => String::from_str(
                "the telemetry record is of an unknown size",
            ),
        }
    }
}

/// The text with which every record begins, as bytes.
pub open spec fn telemetry_magic() -> Seq<u8> {
    "ManiaPlanet_Telemetry".spec_bytes()
}

/// Whether `v` holds the three numbers at `off`.
pub open spec fn is_vec3_at(v: Vec3, bytes: Seq<u8>, off: int) -> bool {
    &&& v.x == word_at(bytes, off)
    &&& v.y == word_at(bytes, off + 4)
    &&& v.z == word_at(bytes, off + 8)
}

/// Whether `q` holds the four numbers at `off`.
pub open spec fn is_quat_at(q: Quat, bytes: Seq<u8>, off: int) -> bool {
    &&& q.w == word_at(bytes, off)
    &&& q.x == word_at(bytes, off + 4)
    &&& q.y == word_at(bytes, off + 8)
    &&& q.z == word_at(bytes, off + 12)
}

/// Whether `a` holds the numbers that start at `off`, one after the other.
pub open spec fn is_words_at(a: Seq<u32>, bytes: Seq<u8>, off: int) -> bool {
    forall|i: int| 0 <= i < a.len() ==> #[trigger] a[i] == word_at(bytes, off + 4 * i)
}

/// Whether `h` is the header that starts at `off`.
pub open spec fn is_header_at(h: SHeader, bytes: Seq<u8>, off: int) -> bool {
    &&& h.magic@ == bytes.subrange(off, off + 32)
    &&& h.version == word_at(bytes, off + 32)
    &&& h.size == word_at(bytes, off + 36)
}

/// Whether `g` is the game state that starts at `off`.
pub open spec fn is_game_at(g: SGameState, bytes: Seq<u8>, off: int) -> bool {
    &&& g.state == word_at(bytes, off)
    &&& g.gameplay_variant@ == bytes.subrange(off + 4, off + 68)
    &&& g.map_id@ == bytes.subrange(off + 68, off + 132)
    &&& g.map_name@ == bytes.subrange(off + 132, off + 388)
    &&& g.future@ == bytes.subrange(off + 388, off + 516)
}

/// Whether `r` is the race state that starts at `off`.
pub open spec fn is_race_at(r: SRaceState, bytes: Seq<u8>, off: int) -> bool {
    &&& r.state == word_at(bytes, off)
    &&& r.time == word_at(bytes, off + 4)
    &&& r.nb_respawns == word_at(bytes, off + 8)
    &&& r.nb_checkpoints == word_at(bytes, off + 12)
    &&& is_words_at(r.checkpoint_times@, bytes, off + 16)
    &&& r.nb_checkpoints_per_lap == word_at(bytes, off + 516)
    &&& r.nb_laps_per_race == word_at(bytes, off + 520)
    &&& r.timestamp == word_at(bytes, off + 524)
    &&& r.start_timestamp == word_at(bytes, off + 528)
    &&& r.future@ == bytes.subrange(off + 532, off + 548)
}

/// Whether `o` is the object state that starts at `off`.
pub open spec fn is_object_at(o: SObjectState, bytes: Seq<u8>, off: int) -> bool {
    &&& o.timestamp == word_at(bytes, off)
    &&& o.discontinuity_count == word_at(bytes, off + 4)
    &&& is_quat_at(o.rotation, bytes, off + 8)
    &&& is_vec3_at(o.translation, bytes, off + 24)
    &&& is_vec3_at(o.velocity, bytes, off + 36)
    &&& o.latest_stable_ground_contact_time == word_at(bytes, off + 48)
    &&& o.future@ == bytes.subrange(off + 52, off + 84)
}

/// Whether `v` is the vehicle state that starts at `off`.
pub open spec fn is_vehicle_at(v: SVehicleState, bytes: Seq<u8>, off: int) -> bool {
    &&& v.timestamp == word_at(bytes, off)
    &&& v.input_steer == word_at(bytes, off + 4)
    &&& v.input_gas_pedal == word_at(bytes, off + 8)
    &&& v.input_is_braking == word_at(bytes, off + 12)
    &&& v.input_is_horn == word_at(bytes, off + 16)
    &&& v.engine_rpm == word_at(bytes, off + 20)
    &&& v.engine_cur_gear == word_at(bytes, off + 24) as i32
    &&& v.engine_turbo_ratio == word_at(bytes, off + 28)
    &&& v.engine_freewheeling == word_at(bytes, off + 32)
    &&& is_words_at(v.wheels_is_ground_contact@, bytes, off + 36)
    &&& is_words_at(v.wheels_is_slipping@, bytes, off + 52)
    &&& is_words_at(v.wheels_damper_len@, bytes, off + 68)
    &&& v.wheels_damper_range_min == word_at(bytes, off + 84)
    &&& v.wheels_damper_range_max == word_at(bytes, off + 88)
    &&& v.rumble_intensity == word_at(bytes, off + 92)
    &&& v.speed_meter == word_at(bytes, off + 96)
    &&& v.is_in_water == word_at(bytes, off + 100)
    &&& v.is_sparkling == word_at(bytes, off + 104)
    &&& v.is_light_trails == word_at(bytes, off + 108)
    &&& v.is_lights_on == word_at(bytes, off + 112)
    &&& v.is_flying == word_at(bytes, off + 116)
    &&& v.is_on_ice == word_at(bytes, off + 120)
    &&& v.handicap == word_at(bytes, off + 124)
    &&& v.boost_ratio == word_at(bytes, off + 128)
    &&& v.future@ == bytes.subrange(off + 132, off + 152)
}

/// Whether `d` is the device state that starts at `off`.
pub open spec fn is_device_at(d: SDeviceState, bytes: Seq<u8>, off: int) -> bool {
    &&& is_vec3_at(d.euler, bytes, off)
    &&& d.centered_yaw == word_at(bytes, off + 12)
    &&& d.centered_altitude == word_at(bytes, off + 16)
    &&& d.future@ == bytes.subrange(off + 20, off + 52)
}

/// Whether `p` is the player state that starts at `off`.
pub open spec fn is_player_at(p: SPlayerState, bytes: Seq<u8>, off: int) -> bool {
    &&& p.is_local_player == word_at(bytes, off)
    &&& p.trigram@ == bytes.subrange(off + 4, off + 8)
    &&& p.dossard_number@ == bytes.subrange(off + 8, off + 12)
    &&& p.hue == word_at(bytes, off + 12)
    &&& p.user_name@ == bytes.subrange(off + 16, off + 272)
    &&& p.future@ == bytes.subrange(off + 272, off + 300)
}

/// Whether `t` is the record that `bytes` begins with: every field is read
/// at its fixed place, numbers in little-endian order.
pub open spec fn is_telemetry_of(t: STelemetry, bytes: Seq<u8>) -> bool {
    &&& is_header_at(t.header, bytes, 0)
    &&& t.update_number == word_at(bytes, 40)
    &&& is_game_at(t.game, bytes, 44)
    &&& is_race_at(t.race, bytes, 560)
    &&& is_object_at(t.object, bytes, 1108)
    &&& is_vehicle_at(t.vehicle, bytes, 1192)
    &&& is_device_at(t.device, bytes, 1344)
    &&& is_player_at(t.player, bytes, 1396)
}

/// What is wrong with a region that holds `bytes`, if anything. The header is
/// judged first: its text, then its version, then its size; then the length of
/// the region.
pub open spec fn telemetry_fault(bytes: Seq<u8>) -> Option<TelemetryReadError> {
    if bytes.len() < HEADER_LEN {
        Some(TelemetryReadError::Truncated)
    } else if c_str(bytes.subrange(0, 32)) != telemetry_magic() {
        Some(TelemetryReadError::BadMagic)
    } else if word_at(bytes, 32) != MP_T_VERSION {
        Some(TelemetryReadError::BadVersion)
    } else if word_at(bytes, 36) != TELEMETRY_LEN {
        Some(TelemetryReadError::BadSize)
    } else if bytes.len() < TELEMETRY_LEN {
        Some(TelemetryReadError::Truncated)
    } else {
        None
    }
}

/// Copies the `N` bytes at `off`.
fn read_bytes<const N: usize>(data: &[u8], off: usize) -> (r: [u8; N])
    requires
        off + N <= data.len(),
    ensures
        r@ == data@.subrange(off as int, off + N),
{
    let mut out: [u8; N] = [0u8;N];
    let mut i: usize = 0;
    while i < N
        invariant
            i <= N,
            off + N <= data.len(),
            out@.len() == N,
            forall|j: int| 0 <= j < i ==> out@[j] == data@[off + j],
        decreases N - i,
    {
        out.set(i, data[off + i]);
        i = i + 1;
    }
    assert(out@ =~= data@.subrange(off as int, off + N));
    out
}

/// Reads the `N` numbers that start at `off`.
fn read_words<const N: usize>(data: &[u8], off: usize) -> (r: [u32; N])
    requires
        off + 4 * N <= data.len(),
    ensures
        is_words_at(r@, data@, off as int),
{
    let mut out: [u32; N] = [0u32;N];
    let mut i: usize = 0;
    while i < N
        invariant
            i <= N,
            off + 4 * N <= data.len(),
            out@.len() == N,
            forall|j: int| 0 <= j < i ==> #[trigger] out@[j] == word_at(data@, off + 4 * j),
        decreases N - i,
    {
        out.set(i, read_word(data, off + 4 * i));
        i = i + 1;
    }
    out
}

fn read_vec3(data: &[u8], off: usize) -> (r: Vec3)
    requires
        off + 12 <= data.len(),
    ensures
        is_vec3_at(r, data@, off as int),
{
    Vec3 { x: read_word(data, off), y: read_word(data, off + 4), z: read_word(data, off + 8) }
}

fn read_quat(data: &[u8], off: usize) -> (r: Quat)
    requires
        off + 16 <= data.len(),
    ensures
        is_quat_at(r, data@, off as int),
{
    Quat {
        w: read_word(data, off),
        x: read_word(data, off + 4),
        y: read_word(data, off + 8),
        z: read_word(data, off + 12),
    }
}

fn read_header(data: &[u8], off: usize) -> (r: SHeader)
    requires
        off + 40 <= data.len(),
    ensures
        is_header_at(r, data@, off as int),
{
    SHeader {
        magic: read_bytes::<32>(data, off),
        version: read_word(data, off + 32),
        size: read_word(data, off + 36),
    }
}

fn read_game(data: &[u8], off: usize) -> (r: SGameState)
    requires
        off + 516 <= data.len(),
    ensures
        is_game_at(r, data@, off as int),
{
    SGameState {
        state: read_word(data, off),
        gameplay_variant: read_bytes::<64>(data, off + 4),
        map_id: read_bytes::<64>(data, off + 68),
        map_name: read_bytes::<256>(data, off + 132),
        future: read_bytes::<128>(data, off + 388),
    }
}

fn read_race(data: &[u8], off: usize) -> (r: SRaceState)
    requires
        off + 548 <= data.len(),
    ensures
        is_race_at(r, data@, off as int),
{
    SRaceState {
        state: read_word(data, off),
        time: read_word(data, off + 4),
        nb_respawns: read_word(data, off + 8),
        nb_checkpoints: read_word(data, off + 12),
        checkpoint_times: read_words::<125>(data, off + 16),
        nb_checkpoints_per_lap: read_word(data, off + 516),
        nb_laps_per_race: read_word(data, off + 520),
        timestamp: read_word(data, off + 524),
        start_timestamp: read_word(data, off + 528),
        future: read_bytes::<16>(data, off + 532),
    }
}

fn read_object(data: &[u8], off: usize) -> (r: SObjectState)
    requires
        off + 84 <= data.len(),
    ensures
        is_object_at(r, data@, off as int),
{
    SObjectState {
        timestamp: read_word(data, off),
        discontinuity_count: read_word(data, off + 4),
        rotation: read_quat(data, off + 8),
        translation: read_vec3(data, off + 24),
        velocity: read_vec3(data, off + 36),
        latest_stable_ground_contact_time: read_word(data, off + 48),
        future: read_bytes::<32>(data, off + 52),
    }
}

fn read_vehicle(data: &[u8], off: usize) -> (r: SVehicleState)
    requires
        off + 152 <= data.len(),
    ensures
        is_vehicle_at(r, data@, off as int),
{
    SVehicleState {
        timestamp: read_word(data, off),
        input_steer: read_word(data, off + 4),
        input_gas_pedal: read_word(data, off + 8),
        input_is_braking: read_word(data, off + 12),
        input_is_horn: read_word(data, off + 16),
        engine_rpm: read_word(data, off + 20),
        engine_cur_gear: #[verifier::truncate]
        (read_word(data, off + 24) as i32),
        engine_turbo_ratio: read_word(data, off + 28),
        engine_freewheeling: read_word(data, off + 32),
        wheels_is_ground_contact: read_words::<4>(data, off + 36),
        wheels_is_slipping: read_words::<4>(data, off + 52),
        wheels_damper_len: read_words::<4>(data, off + 68),
        wheels_damper_range_min: read_word(data, off + 84),
        wheels_damper_range_max: read_word(data, off + 88),
        rumble_intensity: read_word(data, off + 92),
        speed_meter: read_word(data, off + 96),
        is_in_water: read_word(data, off + 100),
        is_sparkling: read_word(data, off + 104),
        is_light_trails: read_word(data, off + 108),
        is_lights_on: read_word(data, off + 112),
        is_flying: read_word(data, off + 116),
        is_on_ice: read_word(data, off + 120),
        handicap: read_word(data, off + 124),
        boost_ratio: read_word(data, off + 128),
        future: read_bytes::<20>(data, off + 132),
    }
}

fn read_device(data: &[u8], off: usize) -> (r: SDeviceState)
    requires
        off + 52 <= data.len(),
    ensures
        is_device_at(r, data@, off as int),
{
    SDeviceState {
        euler: read_vec3(data, off),
        centered_yaw: read_word(data, off + 12),
        centered_altitude: read_word(data, off + 16),
        future: read_bytes::<32>(data, off + 20),
    }
}

fn read_player(data: &[u8], off: usize) -> (r: SPlayerState)
    requires
        off + 300 <= data.len(),
    ensures
        is_player_at(r, data@, off as int),
{
    SPlayerState {
        is_local_player: read_word(data, off),
        trigram: read_bytes::<4>(data, off + 4),
        dossard_number: read_bytes::<4>(data, off + 8),
        hue: read_word(data, off + 12),
        user_name: read_bytes::<256>(data, off + 16),
        future: read_bytes::<28>(data, off + 272),
    }
}

/// Whether two slices hold the same bytes.
fn same_bytes(a: &[u8], b: &[u8]) -> (r: bool)
    ensures
        r == (a@ == b@),
{
    if a.len() != b.len() {
        return false;
    }
    let mut i: usize = 0;
    while i < a.len()
        invariant
            i <= a.len(),
            a.len() == b.len(),
            forall|j: int| 0 <= j < i ==> a@[j] == b@[j],
        decreases a.len() - i,
    {
        if a[i] != b[i] {
            return false;
        }
        i = i + 1;
    }
    assert(a@ =~= b@);
    true
}

/// Reads a snapshot out of a copy of the shared region. The header is checked
/// before the rest is trusted; bytes after the record are ignored.
pub fn read_telemetry(data: &[u8]) -> (r: Result<STelemetry, TelemetryReadError>)
    ensures
        match telemetry_fault(data@) {
            Some(fault) => r == Err::<STelemetry, TelemetryReadError>(fault),
            None => r is Ok && is_telemetry_of(r->Ok_0, data@),
        },
{
    if data.len() < HEADER_LEN {
        return Err(TelemetryReadError::Truncated);
    }
    let header = read_header(data, 0);
    let magic = header.magic.as_cstr_vec();
    if !same_bytes(magic.as_slice(), "ManiaPlanet_Telemetry".as_bytes()) {
        return Err(TelemetryReadError::BadMagic);
    }
    if header.version != MP_T_VERSION {
        return Err(TelemetryReadError::BadVersion);
    }
    if header.size != TELEMETRY_LEN as u32 {
        return Err(TelemetryReadError::BadSize);
    }
    if data.len() < TELEMETRY_LEN {
        return Err(TelemetryReadError::Truncated);
    }
    Ok(
        STelemetry {
            header,
            update_number: read_word(data, 40),
            game: read_game(data, 44),
            race: read_race(data, 560),
            object: read_object(data, 1108),
            vehicle: read_vehicle(data, 1192),
            device: read_device(data, 1344),
            player: read_player(data, 1396),
        },
    )
}

} // verus!
