use tm_mumble_link::event::{Effect, FromTM, ToGUI};
use tm_mumble_link::link::LinkSession;
use tm_mumble_link::maniaplanet_telemetry::{read_context, MPData, PollState};
use tm_mumble_link::mp_telemetry_data::{
    read_telemetry, AsCStrSlice, STelemetry, TelemetryReadError, HEADER_LEN, MP_T_VERSION,
    TELEMETRY_LEN,
};
use tm_mumble_link::position::{position_near_zero, MPos};

fn put_u32(region: &mut [u8], off: usize, v: u32) {
    region[off..off + 4].copy_from_slice(&v.to_le_bytes());
}

fn put_f32(region: &mut [u8], off: usize, v: f32) {
    region[off..off + 4].copy_from_slice(&v.to_le_bytes());
}

fn put_text(region: &mut [u8], off: usize, text: &[u8]) {
    region[off..off + text.len()].copy_from_slice(text);
}

fn region() -> Vec<u8> {
    let mut r = vec![0u8; 1696];
    put_text(&mut r, 0, b"ManiaPlanet_Telemetry");
    put_u32(&mut r, 32, 3);
    put_u32(&mut r, 36, 1696);
    r
}

fn snapshot(update: u32, object_ts: u32, local: bool, map: &[u8], name: &[u8]) -> STelemetry {
    let mut r = region();
    put_u32(&mut r, 40, update);
    put_text(&mut r, 112, map);
    put_u32(&mut r, 1108, object_ts);
    put_u32(&mut r, 1396, if local { 1 } else { 0 });
    put_text(&mut r, 1412, name);
    read_telemetry(&r).unwrap()
}

fn connected() -> LinkSession {
    let mut link = LinkSession::new();
    link.opened(Ok(())).unwrap();
    link
}

fn converted() -> MPos {
    MPos::new(
        [1.0f32.to_bits(), 2.0f32.to_bits(), 3.0f32.to_bits()],
        [0.0f32.to_bits(), 0.0f32.to_bits(), 1.0f32.to_bits()],
        [0.0f32.to_bits(), 1.0f32.to_bits(), 0.0f32.to_bits()],
    )
}

fn pushes(effects: &[Effect]) -> usize {
    effects.iter().filter(|e| matches!(e, Effect::LinkIdentify { .. })).count()
}

fn pushed_position(effects: &[Effect]) -> MPos {
    match &effects[effects.len() - 2] {
        Effect::LinkUpdate { player, camera } => {
            assert_eq!(player, camera);
            *player
        }
        other => panic!("no position update before the last effect: {:?}", other),
    }
}

#[test]
fn the_record_has_its_fixed_size() {
    assert_eq!(HEADER_LEN, 40);
    assert_eq!(TELEMETRY_LEN, 1696);
    assert_eq!(MP_T_VERSION, 3);
}

#[test]
fn a_text_field_ends_at_its_first_zero_byte() {
    assert_eq!([b'T', b'M', b'N', 0].as_cstr_vec(), b"TMN".to_vec());
    assert_eq!([b'0', b'1', 0, b'9'].as_cstr_vec(), b"01".to_vec());
    assert_eq!([0u8, 1, 2, 3].as_cstr_vec(), Vec::<u8>::new());
    assert_eq!([1u8, 2, 3, 4].as_cstr_vec(), vec![1, 2, 3, 4]);
    let mut name = [0u8; 256];
    name[..5].copy_from_slice(b"Alice");
    assert_eq!(name.as_cstr_vec(), b"Alice".to_vec());
    assert_eq!([7u8; 64].as_cstr_vec(), vec![7u8; 64]);
}

#[test]
fn every_field_is_read_at_its_place() {
    let mut r = region();
    put_u32(&mut r, 40, 77);
    put_u32(&mut r, 44, 2);
    put_text(&mut r, 48, b"StadiumCar");
    put_text(&mut r, 112, b"MapUid123");
    put_text(&mut r, 176, b"A map");
    put_u32(&mut r, 560, 1);
    put_u32(&mut r, 564, 12345);
    put_u32(&mut r, 572, 2);
    put_u32(&mut r, 576, 1000);
    put_u32(&mut r, 580, 2000);
    put_u32(&mut r, 576 + 4 * 124, 124_000);
    put_u32(&mut r, 1076, 5);
    put_u32(&mut r, 1080, 3);
    put_u32(&mut r, 1084, 600);
    put_u32(&mut r, 1088, 500);
    put_u32(&mut r, 1108, 4242);
    put_u32(&mut r, 1112, 9);
    put_f32(&mut r, 1116, 1.0);
    put_f32(&mut r, 1120, 0.25);
    put_f32(&mut r, 1124, 0.5);
    put_f32(&mut r, 1128, 0.75);
    put_f32(&mut r, 1132, 10.0);
    put_f32(&mut r, 1136, 20.0);
    put_f32(&mut r, 1140, 30.0);
    put_f32(&mut r, 1144, -1.0);
    put_u32(&mut r, 1156, 31);
    put_u32(&mut r, 1192, 4243);
    put_f32(&mut r, 1196, -0.5);
    put_u32(&mut r, 1216, (-1i32) as u32);
    put_u32(&mut r, 1228, 1);
    put_u32(&mut r, 1240, 1);
    put_u32(&mut r, 1244, 1);
    put_f32(&mut r, 1260, 0.125);
    put_u32(&mut r, 1288, 250);
    put_f32(&mut r, 1320, 1.0);
    put_f32(&mut r, 1344, 0.1);
    put_f32(&mut r, 1356, 0.2);
    put_f32(&mut r, 1360, 0.3);
    put_u32(&mut r, 1396, 1);
    put_text(&mut r, 1400, b"TMN");
    put_text(&mut r, 1404, b"01");
    put_f32(&mut r, 1408, 0.6);
    put_text(&mut r, 1412, b"Alice");
    r[1695] = 0xAB;
    let t = read_telemetry(&r).unwrap();
    assert_eq!(t.header.magic.as_cstr_vec(), b"ManiaPlanet_Telemetry".to_vec());
    assert_eq!(t.header.version, 3);
    assert_eq!(t.header.size, 1696);
    assert_eq!(t.update_number, 77);
    assert_eq!(t.game.state, 2);
    assert_eq!(t.game.gameplay_variant.as_cstr_vec(), b"StadiumCar".to_vec());
    assert_eq!(t.game.map_id.as_cstr_vec(), b"MapUid123".to_vec());
    assert_eq!(t.game.map_name.as_cstr_vec(), b"A map".to_vec());
    assert_eq!(t.race.state, 1);
    assert_eq!(t.race.time, 12345);
    assert_eq!(t.race.nb_checkpoints, 2);
    assert_eq!(t.race.checkpoint_times[0], 1000);
    assert_eq!(t.race.checkpoint_times[1], 2000);
    assert_eq!(t.race.checkpoint_times[124], 124_000);
    assert_eq!(t.race.nb_checkpoints_per_lap, 5);
    assert_eq!(t.race.nb_laps_per_race, 3);
    assert_eq!(t.race.timestamp, 600);
    assert_eq!(t.race.start_timestamp, 500);
    assert_eq!(t.object.timestamp, 4242);
    assert_eq!(t.object.discontinuity_count, 9);
    assert_eq!(f32::from_bits(t.object.rotation.w), 1.0);
    assert_eq!(f32::from_bits(t.object.rotation.x), 0.25);
    assert_eq!(f32::from_bits(t.object.rotation.y), 0.5);
    assert_eq!(f32::from_bits(t.object.rotation.z), 0.75);
    assert_eq!(f32::from_bits(t.object.translation.x), 10.0);
    assert_eq!(f32::from_bits(t.object.translation.y), 20.0);
    assert_eq!(f32::from_bits(t.object.translation.z), 30.0);
    assert_eq!(f32::from_bits(t.object.velocity.x), -1.0);
    assert_eq!(t.object.latest_stable_ground_contact_time, 31);
    assert_eq!(t.vehicle.timestamp, 4243);
    assert_eq!(f32::from_bits(t.vehicle.input_steer), -0.5);
    assert_eq!(t.vehicle.engine_cur_gear, -1);
    assert_eq!(t.vehicle.wheels_is_ground_contact, [1, 0, 0, 1]);
    assert_eq!(t.vehicle.wheels_is_slipping, [1, 0, 0, 0]);
    assert_eq!(f32::from_bits(t.vehicle.wheels_damper_len[0]), 0.125);
    assert_eq!(t.vehicle.speed_meter, 250);
    assert_eq!(f32::from_bits(t.vehicle.boost_ratio), 1.0);
    assert_eq!(f32::from_bits(t.device.euler.x), 0.1);
    assert_eq!(f32::from_bits(t.device.centered_yaw), 0.2);
    assert_eq!(f32::from_bits(t.device.centered_altitude), 0.3);
    assert_eq!(t.player.is_local_player, 1);
    assert_eq!(t.player.trigram.as_cstr_vec(), b"TMN".to_vec());
    assert_eq!(t.player.dossard_number.as_cstr_vec(), b"01".to_vec());
    assert_eq!(f32::from_bits(t.player.hue), 0.6);
    assert_eq!(t.player.user_name.as_cstr_vec(), b"Alice".to_vec());
    assert_eq!(t.player.future[27], 0xAB);
}

#[test]
fn bytes_after_the_record_are_ignored() {
    let mut r = region();
    put_u32(&mut r, 40, 5);
    let t = read_telemetry(&r).unwrap();
    r.extend_from_slice(&[9; 100]);
    assert_eq!(read_telemetry(&r), Ok(t));
}

#[test]
fn a_region_shorter_than_the_header_is_truncated() {
    let r = region();
    assert_eq!(read_telemetry(&[]), Err(TelemetryReadError::Truncated));
    assert_eq!(read_telemetry(&r[..39]), Err(TelemetryReadError::Truncated));
}

#[test]
fn a_region_shorter_than_the_record_is_truncated() {
    let r = region();
    assert_eq!(read_telemetry(&r[..40]), Err(TelemetryReadError::Truncated));
    assert_eq!(read_telemetry(&r[..1695]), Err(TelemetryReadError::Truncated));
    assert!(read_telemetry(&r[..1696]).is_ok());
}

#[test]
fn a_record_with_another_text_at_its_start_has_a_bad_magic() {
    let mut r = region();
    r[0] = b'm';
    assert_eq!(read_telemetry(&r), Err(TelemetryReadError::BadMagic));
    let mut r = region();
    r[21] = b'!';
    assert_eq!(read_telemetry(&r), Err(TelemetryReadError::BadMagic));
    let mut r = region();
    r[20] = 0;
    assert_eq!(read_telemetry(&r), Err(TelemetryReadError::BadMagic));
    assert_eq!(read_telemetry(&vec![0u8; 1696]), Err(TelemetryReadError::BadMagic));
}

#[test]
fn a_record_of_another_version_is_refused() {
    let mut r = region();
    put_u32(&mut r, 32, 2);
    assert_eq!(read_telemetry(&r), Err(TelemetryReadError::BadVersion));
}

#[test]
fn a_record_of_another_size_is_refused() {
    let mut r = region();
    put_u32(&mut r, 36, 1700);
    assert_eq!(read_telemetry(&r), Err(TelemetryReadError::BadSize));
}

#[test]
fn every_fault_has_its_text() {
    assert_eq!(TelemetryReadError::Unavailable("denied".to_string()).to_text(), "denied");
    assert_eq!(
        TelemetryReadError::Truncated.to_text(),
        "the telemetry region is shorter than the record"
    );
    assert_eq!(
        TelemetryReadError::BadMagic.to_text(),
        "the telemetry region does not hold a telemetry record"
    );
    assert_eq!(
        TelemetryReadError::BadVersion.to_text(),
        "the telemetry record is of an unknown version"
    );
    assert_eq!(TelemetryReadError::BadSize.to_text(), "the telemetry record is of an unknown size");
}

#[test]
fn the_header_is_judged_before_the_length() {
    let mut r = region();
    put_u32(&mut r, 32, 4);
    assert_eq!(read_telemetry(&r[..100]), Err(TelemetryReadError::BadVersion));
}

#[test]
fn the_context_is_read_out_of_the_snapshot() {
    let mut r = region();
    put_text(&mut r, 112, b"MapUid123");
    put_u32(&mut r, 560, 2);
    put_u32(&mut r, 1396, 7);
    put_text(&mut r, 1412, "Zoé".as_bytes());
    let ctx = read_context(&read_telemetry(&r).unwrap());
    assert_eq!(
        ctx,
        MPData {
            curr_map: "MapUid123".to_string(),
            is_local_player: true,
            player_name: "Zoé".to_string(),
            race_state: 2,
        }
    );
}

#[test]
fn bytes_that_are_no_text_are_replaced() {
    let t = snapshot(1, 1, false, &[b'a', 0xFF, b'b'], b"");
    let ctx = read_context(&t);
    assert_eq!(ctx.curr_map, "a\u{FFFD}b");
    assert_eq!(ctx.player_name, "");
    assert!(!ctx.is_local_player);
}

#[test]
fn the_default_context_is_empty() {
    let d = MPData::default();
    assert_eq!(
        d,
        MPData {
            curr_map: String::new(),
            is_local_player: false,
            player_name: String::new(),
            race_state: 0,
        }
    );
    assert!(d.same(&d.clone()));
    let other = MPData { race_state: 1, ..d.clone() };
    assert!(!d.same(&other));
    let named = MPData { player_name: "x".to_string(), ..d.clone() };
    assert!(!named.same(&d));
}

#[test]
fn the_first_snapshot_with_a_player_pushes_identity_and_context() {
    let mut poll = PollState::new(1000);
    let mut link = connected();
    let t = snapshot(1, 1, true, b"MapUid123", b"Alice");
    let effects = poll.poll(&mut link, &t, 1010, converted());
    let m = converted().mirror_z();
    assert_eq!(
        effects,
        vec![
            Effect::Forward(ToGUI::Telemetry(t)),
            Effect::LinkIdentify {
                identity: "Alice|Alice|1".to_string(),
                context: "TM|lhV9I33H70cYIbTUfa4kh|All".to_string(),
            },
            Effect::Forward(ToGUI::FromTM(FromTM::PlayerDetails(
                "Alice".to_string(),
                "Alice".to_string()
            ))),
            Effect::Forward(ToGUI::FromTM(FromTM::ServerDetails(
                "MapUid123".to_string(),
                "All".to_string()
            ))),
            Effect::LinkUpdate { player: m, camera: m },
            Effect::Forward(ToGUI::FromTM(FromTM::Positions { p: m, c: m })),
        ]
    );
    assert_eq!(link.nonce().to_text(), "1");
    assert_eq!(link.context(), "TM|lhV9I33H70cYIbTUfa4kh|All");
    assert_eq!(poll.last_context().player_name, "Alice");
}

#[test]
fn a_snapshot_advances_the_pipeline_with_the_context_it_is_given() {
    let mut poll = PollState::new(0);
    let mut link = connected();
    let t = snapshot(1, 1, true, b"ignored", b"ignored");
    let ctx = MPData {
        curr_map: "Map".to_string(),
        is_local_player: true,
        player_name: "Bob".to_string(),
        race_state: 1,
    };
    let effects = poll.advance(&mut link, &t, ctx.clone(), "shown", 10, converted());
    let m = converted().mirror_z();
    assert_eq!(
        effects,
        vec![
            Effect::Forward(ToGUI::Telemetry(t)),
            Effect::LinkIdentify {
                identity: "Bob|Bob|1".to_string(),
                context: "TM|shown|All".to_string(),
            },
            Effect::Forward(ToGUI::FromTM(FromTM::PlayerDetails(
                "Bob".to_string(),
                "Bob".to_string()
            ))),
            Effect::Forward(ToGUI::FromTM(FromTM::ServerDetails(
                "Map".to_string(),
                "All".to_string()
            ))),
            Effect::LinkUpdate { player: m, camera: m },
            Effect::Forward(ToGUI::FromTM(FromTM::Positions { p: m, c: m })),
        ]
    );
    assert!(poll.last_context().same(&ctx));
    let unspawned = MPData { is_local_player: false, ..ctx };
    let effects = poll.advance(&mut link, &t, unspawned, "shown", 20, converted());
    assert_eq!(pushes(&effects), 1);
    assert_eq!(pushed_position(&effects), position_near_zero());
}

#[test]
fn an_unchanged_context_is_pushed_again_after_five_seconds_only() {
    let mut poll = PollState::new(0);
    let mut link = connected();
    let mut update = 1;
    let t = snapshot(update, update, true, b"Map", b"Alice");
    assert_eq!(pushes(&poll.poll(&mut link, &t, 0, converted())), 1);
    for now in [10, 2500, 4900, 5000] {
        update += 1;
        let t = snapshot(update, update, true, b"Map", b"Alice");
        assert_eq!(pushes(&poll.poll(&mut link, &t, now, converted())), 0);
    }
    assert!(!poll.should_push(&poll.last_context().clone(), 4900));
    assert!(!poll.should_push(&poll.last_context().clone(), 5000));
    assert!(poll.should_push(&poll.last_context().clone(), 5001));
    assert!(poll.should_push(&poll.last_context().clone(), 5100));
    update += 1;
    let t = snapshot(update, update, true, b"Map", b"Alice");
    let effects = poll.poll(&mut link, &t, 5100, converted());
    assert_eq!(pushes(&effects), 1);
    assert_eq!(
        effects[1],
        Effect::LinkIdentify {
            identity: "Alice|Alice|2".to_string(),
            context: "TM|ZlrqwPDcVNPSH_if0q4nIb|All".to_string(),
        }
    );
    update += 1;
    let t = snapshot(update, update, true, b"Map", b"Alice");
    assert_eq!(pushes(&poll.poll(&mut link, &t, 10_000, converted())), 0);
    assert_eq!(pushes(&poll.poll(&mut link, &t, 10_101, converted())), 1);
    assert_eq!(link.nonce().to_text(), "3");
}

#[test]
fn a_changed_context_is_pushed_at_once() {
    let mut poll = PollState::new(0);
    let mut link = connected();
    let t = snapshot(1, 1, true, b"Map", b"Alice");
    assert_eq!(pushes(&poll.poll(&mut link, &t, 0, converted())), 1);
    let t = snapshot(2, 2, true, b"Other", b"Alice");
    assert_eq!(pushes(&poll.poll(&mut link, &t, 10, converted())), 1);
    let t = snapshot(3, 3, true, b"Other", b"Bob");
    assert_eq!(pushes(&poll.poll(&mut link, &t, 20, converted())), 1);
    let t = snapshot(4, 4, false, b"Other", b"Bob");
    assert_eq!(pushes(&poll.poll(&mut link, &t, 30, converted())), 1);
    let t = snapshot(5, 5, false, b"Other", b"Bob");
    assert_eq!(pushes(&poll.poll(&mut link, &t, 40, converted())), 0);
    assert_eq!(link.nonce().to_text(), "4");
}

#[test]
fn without_a_local_player_the_sentinel_is_pushed() {
    let mut poll = PollState::new(0);
    let mut link = connected();
    let mut r = region();
    put_u32(&mut r, 40, 1);
    put_u32(&mut r, 1108, 1);
    put_f32(&mut r, 1132, 123.0);
    put_f32(&mut r, 1136, -456.0);
    put_f32(&mut r, 1140, 789.0);
    let t = read_telemetry(&r).unwrap();
    let effects = poll.poll(&mut link, &t, 10, converted());
    assert_eq!(pushed_position(&effects), position_near_zero());
    assert_eq!(
        effects[effects.len() - 1],
        Effect::Forward(ToGUI::FromTM(FromTM::Positions {
            p: position_near_zero(),
            c: position_near_zero()
        }))
    );
    let other = MPos::example(99.0f32.to_bits());
    let effects = poll.poll(&mut link, &t, 20, other);
    assert_eq!(pushed_position(&effects), position_near_zero());
}

#[test]
fn a_local_player_is_pushed_mirrored() {
    let mut poll = PollState::new(0);
    let mut link = connected();
    let t = snapshot(1, 1, true, b"Map", b"Alice");
    let effects = poll.poll(&mut link, &t, 10, converted());
    let m = pushed_position(&effects);
    assert_eq!(
        [f32::from_bits(m.pos[0]), f32::from_bits(m.pos[1]), f32::from_bits(m.pos[2])],
        [1.0, 2.0, -3.0]
    );
    assert_eq!(f32::from_bits(m.dir[2]), -1.0);
    assert_eq!(f32::from_bits(m.up[1]), 1.0);
}

#[test]
fn more_than_ten_stale_frames_give_the_sentinel() {
    let mut poll = PollState::new(0);
    let mut link = connected();
    let t = snapshot(1, 50, true, b"Map", b"Alice");
    let effects = poll.poll(&mut link, &t, 0, converted());
    assert_eq!(pushed_position(&effects), converted().mirror_z());
    for n in 1..=10u32 {
        let t = snapshot(1 + n, 50, true, b"Map", b"Alice");
        let effects = poll.poll(&mut link, &t, 10 * n as u64, converted());
        assert_eq!(pushed_position(&effects), converted().mirror_z(), "stale frame {}", n);
    }
    let t = snapshot(12, 50, true, b"Map", b"Alice");
    let effects = poll.poll(&mut link, &t, 110, converted());
    assert_eq!(pushed_position(&effects), position_near_zero());
    let t = snapshot(13, 51, true, b"Map", b"Alice");
    let effects = poll.poll(&mut link, &t, 120, converted());
    assert_eq!(pushed_position(&effects), converted().mirror_z());
}

#[test]
fn a_game_silent_for_more_than_two_seconds_gives_the_sentinel() {
    let mut poll = PollState::new(0);
    let mut link = connected();
    let t = snapshot(1, 1, true, b"Map", b"Alice");
    assert_eq!(pushed_position(&poll.poll(&mut link, &t, 100, converted())), converted().mirror_z());
    assert_eq!(pushed_position(&poll.poll(&mut link, &t, 2100, converted())), converted().mirror_z());
    assert_eq!(pushed_position(&poll.poll(&mut link, &t, 2101, converted())), position_near_zero());
    assert_eq!(pushed_position(&poll.poll(&mut link, &t, 2200, converted())), position_near_zero());
    let t = snapshot(2, 2, true, b"Map", b"Alice");
    assert_eq!(pushed_position(&poll.poll(&mut link, &t, 2300, converted())), converted().mirror_z());
}

#[test]
fn every_snapshot_is_forwarded_first() {
    let mut poll = PollState::new(0);
    let mut link = connected();
    let t = snapshot(1, 1, false, b"", b"");
    let effects = poll.poll(&mut link, &t, 10, converted());
    assert_eq!(effects[0], Effect::Forward(ToGUI::Telemetry(t)));
    assert_eq!(effects.len(), 3);
}
