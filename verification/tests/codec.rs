use tm_mumble_link::codec::{
    decode_control, is_position_frame, read_pos_msg, read_vec3, read_word, write_pos_msg,
    DecodeError,
};
use tm_mumble_link::event::FromTM;
use tm_mumble_link::position::MPos;

fn frame_of(values: [f32; 18]) -> Vec<u8> {
    let mut data = vec![1u8];
    for v in values {
        data.extend_from_slice(&v.to_le_bytes());
    }
    data
}

fn numbered() -> [f32; 18] {
    let mut values = [0.0f32; 18];
    for (i, v) in values.iter_mut().enumerate() {
        *v = i as f32 * 1.5 - 7.25;
    }
    values
}

#[test]
fn a_word_is_read_in_little_endian_order() {
    assert_eq!(read_word(&[0x00, 0x00, 0x80, 0x3F], 0), 0x3F80_0000);
    assert_eq!(read_word(&[9, 0x0A, 0xD7, 0xA3, 0x3B], 1), 0x3BA3_D70A);
    assert_eq!(read_word(&[1, 2, 3, 4], 0), 0x0403_0201);
}

#[test]
fn three_words_are_read_one_after_the_other() {
    let data = [0xEE, 1, 0, 0, 0, 2, 0, 0, 0, 0, 0, 0, 0x80];
    assert_eq!(read_vec3(&data, 1), [1, 2, 0x8000_0000]);
}

#[test]
fn position_frame_decodes_to_its_eighteen_numbers() {
    let values = numbered();
    let event = read_pos_msg(&frame_of(values)).unwrap();
    let bits: Vec<u32> = values.iter().map(|v| v.to_bits()).collect();
    assert_eq!(
        event,
        FromTM::Positions {
            p: MPos::new([bits[0], bits[1], bits[2]], [bits[3], bits[4], bits[5]], [
                bits[6], bits[7], bits[8],
            ]),
            c: MPos::new([bits[9], bits[10], bits[11]], [bits[12], bits[13], bits[14]], [
                bits[15], bits[16], bits[17],
            ]),
        }
    );
    let p = event.get_pos_p().unwrap();
    assert_eq!(f32::from_bits(p.pos[0]), -7.25);
    assert_eq!(f32::from_bits(p.up[2]), 8.0 * 1.5 - 7.25);
    let c = event.get_pos_c().unwrap();
    assert_eq!(f32::from_bits(c.pos[0]), 9.0 * 1.5 - 7.25);
}

#[test]
fn decoding_then_encoding_gives_the_frame_back() {
    let mut values = numbered();
    values[3] = f32::NAN;
    values[4] = -0.0;
    values[5] = f32::INFINITY;
    values[6] = f32::MIN_POSITIVE / 2.0;
    let frame = frame_of(values);
    let event = read_pos_msg(&frame).unwrap();
    let again = write_pos_msg(event.get_pos_p().unwrap(), event.get_pos_c().unwrap());
    assert_eq!(again, frame);
}

#[test]
fn encoding_then_decoding_gives_the_positions_back() {
    let p = MPos::new([1, 2, 3], [4, 5, 6], [7, 8, 9]);
    let c = MPos::new([0xFFFF_FFFF, 0x8000_0000, 0x7FC0_0000], [10, 11, 12], [13, 14, 15]);
    let frame = write_pos_msg(&p, &c);
    assert_eq!(frame.len(), 73);
    assert_eq!(frame[0], 1);
    assert!(is_position_frame(&frame));
    assert_eq!(read_pos_msg(&frame), Ok(FromTM::Positions { p, c }));
}

#[test]
fn bytes_after_the_payload_are_ignored() {
    let mut frame = frame_of(numbered());
    let event = read_pos_msg(&frame).unwrap();
    frame.extend_from_slice(&[1, 2, 3]);
    assert_eq!(read_pos_msg(&frame).unwrap(), event);
}

#[test]
fn short_position_frames_are_malformed() {
    let frame = frame_of(numbered());
    for len in 0..73 {
        assert_eq!(read_pos_msg(&frame[..len]), Err(DecodeError::MalformedFrame));
    }
    assert!(read_pos_msg(&frame[..73]).is_ok());
}

#[test]
fn the_tag_decides_what_a_frame_is() {
    assert!(is_position_frame(&[1]));
    assert!(is_position_frame(&[1, 2, 3]));
    assert!(!is_position_frame(&[]));
    assert!(!is_position_frame(&[0]));
    assert!(!is_position_frame(b"{\"Ping\":[]}"));
}

#[test]
fn a_malformed_frame_is_reported_as_a_short_read() {
    assert_eq!(
        DecodeError::MalformedFrame.to_text(),
        "Error parsing position message: failed to fill whole buffer"
    );
}

#[test]
fn an_unparsed_control_message_is_a_protocol_error() {
    let r = decode_control("not json", Err("expected ident at line 1 column 2".to_string()));
    let e = r.unwrap_err();
    assert_eq!(
        e,
        DecodeError::ProtocolError {
            message: "Error parsing message: expected ident at line 1 column 2".to_string(),
            text: "not json".to_string(),
        }
    );
    assert_eq!(e.to_text(), "Error parsing message: expected ident at line 1 column 2");
}

#[test]
fn a_parsed_control_message_is_accepted() {
    let events = [
        FromTM::Ping(),
        FromTM::LeftServer(),
        FromTM::PlayerDetails("name".to_string(), "login".to_string()),
        FromTM::ServerDetails("srv".to_string(), "Red".to_string()),
        FromTM::Positions { p: MPos::example(1), c: MPos::example(2) },
    ];
    for event in events {
        assert_eq!(decode_control("{}", Ok(event.clone())), Ok(event));
    }
}

#[test]
fn a_lifecycle_event_from_the_wire_is_a_protocol_error() {
    let text = "{\"NetAccepted\":\"10.0.0.1:4000\"}";
    assert_eq!(
        decode_control(text, Ok(FromTM::NetAccepted("10.0.0.1:4000".to_string()))),
        Err(DecodeError::ProtocolError {
            message: "Unexpected message: NetAccepted(10.0.0.1:4000)".to_string(),
            text: text.to_string(),
        })
    );
    assert_eq!(
        decode_control("x", Ok(FromTM::NetDisconnected("[::1]:80".to_string()))),
        Err(DecodeError::ProtocolError {
            message: "Unexpected message: NetDisconnected([::1]:80)".to_string(),
            text: "x".to_string(),
        })
    );
    assert_eq!(
        decode_control("y", Ok(FromTM::NetConnected("1.2.3.4:5".to_string(), true))),
        Err(DecodeError::ProtocolError {
            message: "Unexpected message: NetConnected(1.2.3.4:5, true)".to_string(),
            text: "y".to_string(),
        })
    );
    assert_eq!(
        decode_control("z", Ok(FromTM::NetConnected("1.2.3.4:5".to_string(), false))),
        Err(DecodeError::ProtocolError {
            message: "Unexpected message: NetConnected(1.2.3.4:5, false)".to_string(),
            text: "z".to_string(),
        })
    );
}
