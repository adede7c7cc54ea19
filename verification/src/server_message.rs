use crate::wire::be_bytes_u16;
use vstd::prelude::*;

verus! {

/// Width in pixels of the framebuffer announced to and sent to clients.
pub const FRAME_WIDTH: u16 = 800;

/// Height in pixels of the framebuffer announced to and sent to clients.
pub const FRAME_HEIGHT: u16 = 600;

/// Bytes per pixel of the framebuffer (32 bits per pixel).
pub const BYTES_PER_PIXEL: usize = 4;

/// The byte every pixel channel of the sent framebuffer holds: a plain grey.
pub const FILL_BYTE: u8 = 0xCC;

/// Number of bytes of pixel data in a full framebuffer update.
pub open spec fn frame_data_len() -> nat {
    (FRAME_WIDTH as nat) * (FRAME_HEIGHT as nat) * (BYTES_PER_PIXEL as nat)
}

/// "RFB 003.008\n": the protocol version the server offers.
pub open spec fn protocol_version_bytes() -> Seq<u8> {
    seq![0x52u8, 0x46, 0x42, 0x20, 0x30, 0x30, 0x33, 0x2e, 0x30, 0x30, 0x38, 0x0a]
}

/// Number of bytes of the client's reply to the protocol version.
pub const VERSION_REPLY_LEN: usize = 12;

/// The security types offered: a count of two, then None (1) and VNC
/// authentication (2).
pub open spec fn security_types_bytes() -> Seq<u8> {
    seq![2u8, 1, 2]
}

/// The SecurityResult that reports success: a big-endian zero.
pub open spec fn security_ok_bytes() -> Seq<u8> {
    seq![0u8, 0, 0, 0]
}

/// The fixed sixteen-byte challenge sent for VNC authentication.
pub open spec fn challenge_bytes() -> Seq<u8> {
    Seq::new(16, |i: int| (i + 1) as u8)
}

/// Number of bytes of the client's answer to the challenge.
pub const CHALLENGE_REPLY_LEN: usize = 16;

/// ServerInit: the framebuffer's width and height, then the pixel format (32
/// bits per pixel, depth 24, little-endian, true colour, 255 as the maximum of
/// each channel, red at shift 16, green at 8, blue at 0), three bytes of padding,
/// and an empty desktop name.
pub open spec fn server_init_bytes() -> Seq<u8> {
    be_bytes_u16(FRAME_WIDTH) + be_bytes_u16(FRAME_HEIGHT) + seq![
        32u8,
        24,
        0,
        1,
        0,
        255,
        0,
        255,
        0,
        255,
        16,
        8,
        0,
        0,
        0,
        0,
        0,
        0,
        0,
    ] + seq![0u8]
}

/// Head of a full FramebufferUpdate: message type 0, padding, one rectangle,
/// which sits at (0, 0), spans the whole framebuffer and uses the Raw encoding.
pub open spec fn full_update_head() -> Seq<u8> {
    seq![0u8, 0, 0, 1, 0, 0, 0, 0] + be_bytes_u16(FRAME_WIDTH) + be_bytes_u16(FRAME_HEIGHT) + seq![
        0u8,
        0,
        0,
        0,
    ]
}

/// The FramebufferUpdate the server sends: an incremental one carries no
/// rectangle; a full one carries the whole framebuffer filled with
/// [`FILL_BYTE`].
pub open spec fn framebuffer_update_bytes(incremental: bool) -> Seq<u8> {
    if incremental {
        seq![0u8, 0, 0, 0]
    } else {
        full_update_head() + Seq::new(frame_data_len(), |i: int| FILL_BYTE)
    }
}

/// The protocol version message.
pub fn protocol_version_message() -> (v: Vec<u8>)
    ensures
        v@ == protocol_version_bytes(),
{
    let v: Vec<u8> = vec![0x52u8, 0x46, 0x42, 0x20, 0x30, 0x30, 0x33, 0x2e, 0x30, 0x30, 0x38, 0x0a];
    assert(v@ =~= protocol_version_bytes());
    v
}

/// The list of security types offered.
pub fn security_types_message() -> (v: Vec<u8>)
    ensures
        v@ == security_types_bytes(),
{
    let v: Vec<u8> = vec![2u8, 1, 2];
    assert(v@ =~= security_types_bytes());
    v
}

/// The SecurityResult that reports success.
pub fn security_ok_message() -> (v: Vec<u8>)
    ensures
        v@ == security_ok_bytes(),
{
    let v: Vec<u8> = vec![0u8, 0, 0, 0];
    assert(v@ =~= security_ok_bytes());
    v
}

/// The VNC authentication challenge.
pub fn challenge_message() -> (v: Vec<u8>)
    ensures
        v@ == challenge_bytes(),
{
    let v: Vec<u8> = vec![
        0x01u8,
        0x02,
        0x03,
        0x04,
        0x05,
        0x06,
        0x07,
        0x08,
        0x09,
        0x0A,
        0x0B,
        0x0C,
        0x0D,
        0x0E,
        0x0F,
        0x10,
    ];
    assert(v@ =~= challenge_bytes());
    v
}

/// Appends the two big-endian bytes of `v` to `out`.
fn push_be_u16(out: &mut Vec<u8>, v: u16)
    ensures
        final(out)@ == old(out)@ + be_bytes_u16(v),
{
    out.push((v / 256) as u8);
    out.push((v % 256) as u8);
    assert(final(out)@ =~= old(out)@ + be_bytes_u16(v));
}

/// The ServerInit message.
pub fn server_init_message() -> (v: Vec<u8>)
    ensures
        v@ == server_init_bytes(),
{
    let mut v: Vec<u8> = Vec::new();
    push_be_u16(&mut v, FRAME_WIDTH);
    push_be_u16(&mut v, FRAME_HEIGHT);
    let mut tail: Vec<u8> = vec![32u8, 24, 0, 1, 0, 255, 0, 255, 0, 255, 16, 8, 0, 0, 0, 0, 0, 0, 0, 0];
    v.append(&mut tail);
    assert(v@ =~= server_init_bytes());
    v
}

/// The FramebufferUpdate sent in answer to a request: see
/// [`framebuffer_update_bytes`].
pub fn framebuffer_update_message(incremental: bool) -> (v: Vec<u8>)
    ensures
        v@ == framebuffer_update_bytes(incremental),
        incremental ==> v@.len() == 4,
        !incremental ==> v@.len() == 16 + frame_data_len(),
{
    if incremental {
        let v: Vec<u8> = vec![0u8, 0, 0, 0];
        assert(v@ =~= framebuffer_update_bytes(true));
        return v;
    }
    let mut v: Vec<u8> = vec![0u8, 0, 0, 1, 0, 0, 0, 0];
    push_be_u16(&mut v, FRAME_WIDTH);
    push_be_u16(&mut v, FRAME_HEIGHT);
    let mut encoding: Vec<u8> = vec![0u8, 0, 0, 0];
    v.append(&mut encoding);
    assert(v@ =~= full_update_head());
    let data_len: usize = (FRAME_WIDTH as usize) * (FRAME_HEIGHT as usize) * BYTES_PER_PIXEL;
    assert(data_len == frame_data_len());
    let total: usize = 16 + data_len;
    let mut i: usize = 16;
    while i < total
        invariant
            16 <= i <= total,
            total == 16 + frame_data_len(),
            v@.len() == i,
            v@.subrange(0, 16) == full_update_head(),
            forall|j: int| 16 <= j < i ==> v@[j] == FILL_BYTE,
        decreases total - i,
    {
        v.push(FILL_BYTE);
        i += 1;
    }
    assert(v@ =~= framebuffer_update_bytes(false)) by {
        assert(v@ =~= v@.subrange(0, 16) + v@.subrange(16, total as int));
    }
    v
}


/// ServerInit announces an 800 by 600 framebuffer at 32 bits per pixel, depth
/// 24, true colour, with an empty name: 24 bytes in all.
pub proof fn lemma_server_init_layout()
    ensures
        server_init_bytes().len() == 24,
        server_init_bytes()[0] * 256 + server_init_bytes()[1] == 800,
        server_init_bytes()[2] * 256 + server_init_bytes()[3] == 600,
        server_init_bytes()[4] == 32,
        server_init_bytes()[5] == 24,
        server_init_bytes()[7] == 1,
        server_init_bytes()[20] == 0 && server_init_bytes()[21] == 0 && server_init_bytes()[22] == 0
            && server_init_bytes()[23] == 0,
{
}

/// A full framebuffer update carries one raw rectangle at (0, 0) of exactly the
/// size that ServerInit announces, followed by width times height pixels of
/// four bytes, each byte 0xCC; an incremental update carries no rectangle.
pub proof fn lemma_update_matches_server_init()
    ensures
        ({
            let full = framebuffer_update_bytes(false);
            let init = server_init_bytes();
            let width = init[0] * 256 + init[1];
            let height = init[2] * 256 + init[3];
            &&& full[0] == 0
            &&& full[2] * 256 + full[3] == 1
            &&& full[4] == 0 && full[5] == 0 && full[6] == 0 && full[7] == 0
            &&& full[8] * 256 + full[9] == width
            &&& full[10] * 256 + full[11] == height
            &&& full[12] == 0 && full[13] == 0 && full[14] == 0 && full[15] == 0
            &&& full.len() == 16 + width * height * 4
            &&& forall|i: int| 16 <= i < full.len() ==> #[trigger] full[i] == 0xCC
        }),
        framebuffer_update_bytes(true) =~= seq![0u8, 0, 0, 0],
{
    let full = framebuffer_update_bytes(false);
    assert(full_update_head().len() == 16);
    assert forall|i: int| 16 <= i < full.len() implies #[trigger] full[i] == 0xCC by {
        assert(full[i] == Seq::new(frame_data_len(), |j: int| FILL_BYTE)[i - 16]);
    }
}

} // verus!
