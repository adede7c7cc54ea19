use rfb::client_message::{
    decode_client_message, finish_message, is_pixel_format_truncated, ClientMessage, DecodeError,
    FinishError,
};
use rfb::encoding::Encoding;

#[test]
fn encoding_from_known_codes() {
    assert_eq!(Encoding::from(0u32), Encoding::Raw);
    assert_eq!(Encoding::from(1u32), Encoding::CopyRect);
    assert_eq!(Encoding::from(2u32), Encoding::RRE);
    assert_eq!(Encoding::from(5u32), Encoding::Hextile);
    assert_eq!(Encoding::from(15u32), Encoding::TRLE);
    assert_eq!(Encoding::from(16u32), Encoding::ZRLE);
}

#[test]
fn encoding_from_other_codes_is_custom() {
    assert_eq!(Encoding::from(3u32), Encoding::Custom(3));
    assert_eq!(Encoding::from(0xFFFF_FF10u32), Encoding::Custom(0xFFFF_FF10));
    assert_eq!(Encoding::from(0xFFFF_FF00u32), Encoding::Custom(0xFFFF_FF00));
}

#[test]
fn encoding_from_pseudo_codes() {
    assert_eq!(Encoding::from((-239i32) as u32), Encoding::CursorPseudoEncoding);
    assert_eq!(Encoding::from((-223i32) as u32), Encoding::DesktopSizePseudoEncoding);
}

#[test]
fn empty_buffer_is_incomplete() {
    assert_eq!(decode_client_message(&[]).err(), Some(DecodeError::Incomplete));
}

#[test]
fn set_pixel_format_is_read_and_dropped() {
    let mut data = vec![0u8; 20];
    data.extend_from_slice(&[4, 1]);
    let d = decode_client_message(&data).unwrap();
    assert!(d.message.is_none());
    assert_eq!(d.consumed, 20);
    assert!(!d.abort_if_undelivered);
    assert_eq!(decode_client_message(&data[..3]).err(), Some(DecodeError::Incomplete));
}

#[test]
fn truncated_pixel_format_is_detected() {
    assert!(is_pixel_format_truncated(&[0, 0, 0, 0]));
    assert!(is_pixel_format_truncated(&[0u8; 19]));
    assert!(!is_pixel_format_truncated(&[0u8; 20]));
    assert!(!is_pixel_format_truncated(&[0, 0, 0]));
    assert!(!is_pixel_format_truncated(&[3, 0, 0, 0, 0]));
}

#[test]
fn set_encodings_lists_each_code() {
    let data = [2u8, 0, 0, 4, 0, 0, 0, 0, 0, 0, 0, 16, 0xFF, 0xFF, 0xFF, 0x21, 0, 0, 0, 99, 9];
    let d = decode_client_message(&data).unwrap();
    assert_eq!(d.consumed, 20);
    assert!(d.abort_if_undelivered);
    assert_eq!(
        d.message,
        Some(ClientMessage::SetEncodings {
            encodings: vec![
                Encoding::Raw,
                Encoding::ZRLE,
                Encoding::DesktopSizePseudoEncoding,
                Encoding::Custom(99)
            ]
        })
    );
}

#[test]
fn set_encodings_waits_for_every_entry() {
    let data = [2u8, 0, 0, 2, 0, 0, 0, 0, 0, 0, 0];
    assert_eq!(decode_client_message(&data).err(), Some(DecodeError::Incomplete));
    assert_eq!(decode_client_message(&data[..3]).err(), Some(DecodeError::Incomplete));
}

#[test]
fn set_encodings_with_no_entry() {
    let d = decode_client_message(&[2u8, 0, 0, 0]).unwrap();
    assert_eq!(d.consumed, 4);
    assert_eq!(d.message, Some(ClientMessage::SetEncodings { encodings: vec![] }));
}

#[test]
fn framebuffer_update_request_fields_are_big_endian() {
    let data = [3u8, 1, 0x01, 0x02, 0x03, 0x04, 0x02, 0x80, 0x01, 0xE0];
    let d = decode_client_message(&data).unwrap();
    assert_eq!(d.consumed, 10);
    assert!(d.abort_if_undelivered);
    assert_eq!(
        d.message,
        Some(ClientMessage::FramebufferUpdateRequest {
            incremental: true,
            pos_x: 0x0102,
            pos_y: 0x0304,
            width: 640,
            height: 480,
        })
    );
    assert_eq!(decode_client_message(&data[..9]).err(), Some(DecodeError::Incomplete));
}

#[test]
fn incremental_flag_is_set_only_by_one() {
    let data = [3u8, 2, 0, 0, 0, 0, 0, 1, 0, 1];
    let d = decode_client_message(&data).unwrap();
    assert_eq!(
        d.message,
        Some(ClientMessage::FramebufferUpdateRequest {
            incremental: false,
            pos_x: 0,
            pos_y: 0,
            width: 1,
            height: 1,
        })
    );
}

#[test]
fn key_event_reads_flag_and_key() {
    let data = [4u8, 1, 0, 0, 0x00, 0x00, 0xFF, 0x0D];
    let d = decode_client_message(&data).unwrap();
    assert_eq!(d.consumed, 8);
    assert_eq!(d.message, Some(ClientMessage::KeyEvent { down_flag: true, key: 0xFF0D }));
    let up = [4u8, 0, 0, 0, 0x01, 0x02, 0x03, 0x04];
    let d = decode_client_message(&up).unwrap();
    assert_eq!(d.message, Some(ClientMessage::KeyEvent { down_flag: false, key: 0x0102_0304 }));
    assert_eq!(decode_client_message(&up[..7]).err(), Some(DecodeError::Incomplete));
}

#[test]
fn pointer_event_reads_position() {
    let data = [5u8, 7, 0x01, 0x2C, 0x00, 0xC8];
    let d = decode_client_message(&data).unwrap();
    assert_eq!(d.consumed, 6);
    assert_eq!(d.message, Some(ClientMessage::PointerEvent { pos_x: 300, pos_y: 200 }));
    assert_eq!(decode_client_message(&data[..5]).err(), Some(DecodeError::Incomplete));
}

#[test]
fn client_cut_text_takes_the_text() {
    let data = [6u8, 0, 0, 0, 0, 0, 0, 3, b'a', b'b', b'c', 4];
    let d = decode_client_message(&data).unwrap();
    assert_eq!(d.consumed, 11);
    assert!(!d.abort_if_undelivered);
    assert_eq!(d.message, Some(ClientMessage::ClientCutText));
    assert_eq!(decode_client_message(&data[..10]).err(), Some(DecodeError::Incomplete));
    assert_eq!(decode_client_message(&data[..7]).err(), Some(DecodeError::Incomplete));
}

#[test]
fn client_cut_text_with_huge_length_is_incomplete() {
    let data = [6u8, 0, 0, 0, 0xFF, 0xFF, 0xFF, 0xFF, 1, 2, 3];
    assert_eq!(decode_client_message(&data).err(), Some(DecodeError::Incomplete));
}

#[test]
fn unknown_type_occupies_nothing() {
    for t in [1u8, 7, 150, 255] {
        let d = decode_client_message(&[t, 1, 2]).unwrap();
        assert_eq!(d.message, Some(ClientMessage::Unknown));
        assert_eq!(d.consumed, 0);
        assert!(!d.abort_if_undelivered);
    }
}

#[test]
fn later_bytes_do_not_change_a_whole_message() {
    let first = [5u8, 0, 0, 10, 0, 20];
    let mut longer = first.to_vec();
    longer.extend_from_slice(&[4, 1, 0, 0, 0, 0, 0, 65]);
    let a = decode_client_message(&first).unwrap();
    let b = decode_client_message(&longer).unwrap();
    assert_eq!(a.message, b.message);
    assert_eq!(a.consumed, b.consumed);
}

#[test]
fn finish_takes_the_message_off() {
    let mut data = vec![5u8, 0, 0, 10, 0, 20, 4, 1];
    assert_eq!(finish_message(&mut data, 6, true, true), Ok(()));
    assert_eq!(data, vec![4u8, 1]);
}

#[test]
fn finish_keeps_an_undelivered_fatal_message() {
    let mut data = vec![5u8, 0, 0, 10, 0, 20, 4, 1];
    assert_eq!(finish_message(&mut data, 6, true, false), Err(FinishError::Undelivered));
    assert_eq!(data.len(), 8);
}

#[test]
fn finish_drops_an_undelivered_best_effort_message() {
    let mut data = vec![6u8, 0, 0, 0, 0, 0, 0, 0, 9];
    assert_eq!(finish_message(&mut data, 8, false, false), Ok(()));
    assert_eq!(data, vec![9u8]);
}

#[test]
fn buffer_of_two_messages_decodes_in_turn() {
    let mut data = vec![4u8, 1, 0, 0, 0, 0, 0, 0x61, 5, 0, 0, 1, 0, 2];
    let first = decode_client_message(&data).unwrap();
    assert_eq!(first.message, Some(ClientMessage::KeyEvent { down_flag: true, key: 0x61 }));
    finish_message(&mut data, first.consumed, first.abort_if_undelivered, true).unwrap();
    let second = decode_client_message(&data).unwrap();
    assert_eq!(second.message, Some(ClientMessage::PointerEvent { pos_x: 1, pos_y: 2 }));
    finish_message(&mut data, second.consumed, second.abort_if_undelivered, true).unwrap();
    assert!(data.is_empty());
    assert_eq!(decode_client_message(&data).err(), Some(DecodeError::Incomplete));
}
