use rfb::server_message::{
    challenge_message, framebuffer_update_message, protocol_version_message, security_ok_message,
    security_types_message, server_init_message, FILL_BYTE, FRAME_HEIGHT, FRAME_WIDTH,
};

#[test]
fn protocol_version_is_3_8() {
    assert_eq!(protocol_version_message(), b"RFB 003.008\n".to_vec());
}

#[test]
fn security_messages() {
    assert_eq!(security_types_message(), vec![2u8, 1, 2]);
    assert_eq!(security_ok_message(), vec![0u8, 0, 0, 0]);
    assert_eq!(challenge_message(), (1u8..=16).collect::<Vec<u8>>());
}

#[test]
fn server_init_announces_800_by_600_true_colour() {
    assert_eq!(
        server_init_message(),
        vec![
            0x03, 0x20, 0x02, 0x58, 32, 24, 0, 1, 0, 255, 0, 255, 0, 255, 16, 8, 0, 0, 0, 0, 0, 0,
            0, 0
        ]
    );
}

#[test]
fn incremental_update_has_no_rectangle() {
    assert_eq!(framebuffer_update_message(true), vec![0u8, 0, 0, 0]);
}

#[test]
fn full_update_carries_the_whole_grey_frame() {
    let m = framebuffer_update_message(false);
    assert_eq!(FRAME_WIDTH, 800);
    assert_eq!(FRAME_HEIGHT, 600);
    assert_eq!(m.len(), 16 + 800 * 600 * 4);
    assert_eq!(
        &m[..16],
        &[0u8, 0, 0, 1, 0, 0, 0, 0, 0x03, 0x20, 0x02, 0x58, 0, 0, 0, 0][..]
    );
    assert!(m[16..].iter().all(|&b| b == FILL_BYTE));
    assert_eq!(FILL_BYTE, 0xCC);
}
