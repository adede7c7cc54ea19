use crate::encoding::{encoding_of, Encoding};
use crate::wire::{be_u16_at, be_u32_at, read_be_u16, read_be_u32};
use vstd::prelude::*;

verus! {

/// A message received from the client, as the session acts on it.
#[derive(Debug, PartialEq, Eq)]
pub enum ClientMessage {
    /// An unrecognised message type, or the end of the client's stream.
    Unknown,
    SetPixelFormat,
    SetEncodings { encodings: Vec<Encoding> },
    FramebufferUpdateRequest { incremental: bool, pos_x: u16, pos_y: u16, width: u16, height: u16 },
    KeyEvent { down_flag: bool, key: u32 },
    PointerEvent { pos_x: u16, pos_y: u16 },
    ClientCutText,
}

/// The mathematical value of a [`ClientMessage`].
pub enum MessageModel {
    Unknown,
    SetPixelFormat,
    SetEncodings(Seq<Encoding>),
    FramebufferUpdateRequest { incremental: bool, pos_x: u16, pos_y: u16, width: u16, height: u16 },
    KeyEvent { down_flag: bool, key: u32 },
    PointerEvent { pos_x: u16, pos_y: u16 },
    ClientCutText,
}

impl View for ClientMessage {
    type V = MessageModel;

    open spec fn view(&self) -> MessageModel {
        match self {
            ClientMessage::Unknown => MessageModel::Unknown,
            ClientMessage::SetPixelFormat => MessageModel::SetPixelFormat,
            ClientMessage::SetEncodings { encodings } => MessageModel::SetEncodings(encodings@),
            ClientMessage::FramebufferUpdateRequest { incremental, pos_x, pos_y, width, height } =>
                MessageModel::FramebufferUpdateRequest {
                incremental: *incremental,
                pos_x: *pos_x,
                pos_y: *pos_y,
                width: *width,
                height: *height,
            },
            ClientMessage::KeyEvent { down_flag, key } => MessageModel::KeyEvent {
                down_flag: *down_flag,
                key: *key,
            },
            ClientMessage::PointerEvent { pos_x, pos_y } => MessageModel::PointerEvent {
                pos_x: *pos_x,
                pos_y: *pos_y,
            },
            ClientMessage::ClientCutText => MessageModel::ClientCutText,
        }
    }
}

/// One message taken from the front of the receive buffer.
pub struct Decoded {
    /// What to hand on to the session; `None` for a message that is read and dropped.
    pub message: Option<ClientMessage>,
    /// How many bytes of the buffer the message occupies.
    pub consumed: usize,
    /// Whether a failure to hand the message on stops the decoding of the buffer.
    pub abort_if_undelivered: bool,
}

/// The mathematical value of a [`Decoded`].
pub struct DecodedModel {
    pub message: Option<MessageModel>,
    pub consumed: nat,
    pub abort_if_undelivered: bool,
}

impl View for Decoded {
    type V = DecodedModel;

    open spec fn view(&self) -> DecodedModel {
        DecodedModel {
            message: match self.message {
                Some(m) => Some(m@),
                None => None,
            },
            consumed: self.consumed as nat,
            abort_if_undelivered: self.abort_if_undelivered,
        }
    }
}

/// Why no message could be taken from the buffer.
#[derive(Debug, PartialEq, Eq)]
pub enum DecodeError {
    /// The buffer does not yet hold a whole message.
    Incomplete,
}

/// Why a decoded message was not taken off the buffer.
#[derive(Debug, PartialEq, Eq)]
pub enum FinishError {
    /// The message could not be handed on and its kind makes that fatal.
    Undelivered,
}

/// A decoded message of `consumed` bytes.
pub open spec fn decoded(message: Option<MessageModel>, consumed: int, abort: bool) -> Option<
    DecodedModel,
> {
    Some(DecodedModel { message, consumed: consumed as nat, abort_if_undelivered: abort })
}

/// The encodings listed by a SetEncodings message of `count` entries in `s`.
pub open spec fn encodings_in(s: Seq<u8>, count: int) -> Seq<Encoding> {
    Seq::new(count as nat, |i: int| encoding_of(be_u32_at(s, 4 + 4 * i) as u32))
}

/// A SetPixelFormat message whose four-byte head has arrived but not its
/// twenty-byte body: taking it off the buffer would run past the buffer's end.
pub open spec fn pixel_format_truncated(s: Seq<u8>) -> bool {
    s.len() >= 4 && s[0] == 0 && s.len() < 20
}

/// The message at the front of the byte sequence `s`, or `None` while `s`
/// holds only part of one.
///
/// The first byte gives the message type: 0 SetPixelFormat (20 bytes, read and
/// dropped), 2 SetEncodings (4 bytes, then four per encoding), 3
/// FramebufferUpdateRequest (10 bytes), 4 KeyEvent (8 bytes), 5 PointerEvent (6
/// bytes), 6 ClientCutText (8 bytes, then the text). Any other type is reported
/// as `Unknown` and occupies no bytes.
pub open spec fn decode_spec(s: Seq<u8>) -> Option<DecodedModel> {
    if s.len() == 0 {
        None
    } else if s[0] == 0 {
        if s.len() < 20 {
            None
        } else {
            decoded(None, 20, false)
        }
    } else if s[0] == 2 {
        if s.len() < 4 {
            None
        } else if s.len() < 4 + 4 * be_u16_at(s, 2) {
            None
        } else {
            decoded(
                Some(MessageModel::SetEncodings(encodings_in(s, be_u16_at(s, 2)))),
                4 + 4 * be_u16_at(s, 2),
                true,
            )
        }
    } else if s[0] == 3 {
        if s.len() < 10 {
            None
        } else {
            decoded(
                Some(
                    MessageModel::FramebufferUpdateRequest {
                        incremental: s[1] == 1,
                        pos_x: be_u16_at(s, 2) as u16,
                        pos_y: be_u16_at(s, 4) as u16,
                        width: be_u16_at(s, 6) as u16,
                        height: be_u16_at(s, 8) as u16,
                    },
                ),
                10,
                true,
            )
        }
    } else if s[0] == 4 {
        if s.len() < 8 {
            None
        } else {
            decoded(
                Some(MessageModel::KeyEvent { down_flag: s[1] == 1, key: be_u32_at(s, 4) as u32 }),
                8,
                true,
            )
        }
    } else if s[0] == 5 {
        if s.len() < 6 {
            None
        } else {
            decoded(
                Some(
                    MessageModel::PointerEvent {
                        pos_x: be_u16_at(s, 2) as u16,
                        pos_y: be_u16_at(s, 4) as u16,
                    },
                ),
                6,
                true,
            )
        }
    } else if s[0] == 6 {
        if s.len() < 8 {
            None
        } else if s.len() < 8 + be_u32_at(s, 4) {
            None
        } else {
            decoded(Some(MessageModel::ClientCutText), 8 + be_u32_at(s, 4), false)
        }
    } else {
        decoded(Some(MessageModel::Unknown), 0, false)
    }
}

/// Tells whether `data` starts with a SetPixelFormat message cut short after
/// its head, the one buffer that [`decode_client_message`] does not take.
pub fn is_pixel_format_truncated(data: &[u8]) -> (b: bool)
    ensures
        b == pixel_format_truncated(data@),
{
    data.len() >= 4 && data[0] == 0 && data.len() < 20
}

/// Takes the message at the front of `data`: `Ok` with the message and its
/// length exactly when `data` holds a whole one, `Err(Incomplete)` otherwise.
pub fn decode_client_message(data: &[u8]) -> (r: Result<Decoded, DecodeError>)
    requires
        !pixel_format_truncated(data@),
    ensures
        r matches Ok(d) ==> decode_spec(data@) == Some(d@) && d.consumed <= data@.len(),
        r is Err <==> decode_spec(data@) is None,
{
    let len = data.len();
    if len == 0 {
        return Err(DecodeError::Incomplete);
    }
    let msg_type = data[0];
    if msg_type == 0 {
        if len < 20 {
            return Err(DecodeError::Incomplete);
        }
        Ok(Decoded { message: None, consumed: 20, abort_if_undelivered: false })
    } else if msg_type == 2 {
        if len < 4 {
            return Err(DecodeError::Incomplete);
        }
        let count = read_be_u16(data, 2);
        let count: usize = count as usize;
        let need: usize = 4 + 4 * count;
        if len < need {
            return Err(DecodeError::Incomplete);
        }
        let mut encodings: Vec<Encoding> = Vec::new();
        let mut i: usize = 0;
        while i < count
            invariant
                count as int == be_u16_at(data@, 2),
                need == 4 + 4 * count,
                need <= data@.len(),
                i <= count,
                encodings@ =~= encodings_in(data@, i as int),
            decreases count - i,
        {
            let code = read_be_u32(data, 4 + 4 * i);
            encodings.push(Encoding::from(code));
            i += 1;
        }
        Ok(
            Decoded {
                message: Some(ClientMessage::SetEncodings { encodings }),
                consumed: need,
                abort_if_undelivered: true,
            },
        )
    } else if msg_type == 3 {
        if len < 10 {
            return Err(DecodeError::Incomplete);
        }
        let incremental = data[1] == 1;
        let pos_x = read_be_u16(data, 2);
        let pos_y = read_be_u16(data, 4);
        let width = read_be_u16(data, 6);
        let height = read_be_u16(data, 8);
        Ok(
            Decoded {
                message: Some(
                    ClientMessage::FramebufferUpdateRequest { incremental, pos_x, pos_y, width, height },
                ),
                consumed: 10,
                abort_if_undelivered: true,
            },
        )
    } else if msg_type == 4 {
        if len < 8 {
            return Err(DecodeError::Incomplete);
        }
        let down_flag = data[1] == 1;
        let key = read_be_u32(data, 4);
        Ok(
            Decoded {
                message: Some(ClientMessage::KeyEvent { down_flag, key }),
                consumed: 8,
                abort_if_undelivered: true,
            },
        )
    } else if msg_type == 5 {
        if len < 6 {
            return Err(DecodeError::Incomplete);
        }
        let pos_x = read_be_u16(data, 2);
        let pos_y = read_be_u16(data, 4);
        Ok(
            Decoded {
                message: Some(ClientMessage::PointerEvent { pos_x, pos_y }),
                consumed: 6,
                abort_if_undelivered: true,
            },
        )
    } else if msg_type == 6 {
        if len < 8 {
            return Err(DecodeError::Incomplete);
        }
        let text_len = read_be_u32(data, 4);
        if len - 8 < text_len as usize {
            return Err(DecodeError::Incomplete);
        }
        Ok(
            Decoded {
                message: Some(ClientMessage::ClientCutText),
                consumed: 8 + text_len as usize,
                abort_if_undelivered: false,
            },
        )
    } else {
        Ok(Decoded { message: Some(ClientMessage::Unknown), consumed: 0, abort_if_undelivered: false })
    }
}

/// Settles the message at the front of `data` once the attempt to hand it on is
/// over: when `delivered` is false and the message's kind makes that fatal, the
/// buffer is left as it is and `Err(Undelivered)` is returned; otherwise the
/// message's `consumed` bytes are taken off the front.
pub fn finish_message(
    data: &mut Vec<u8>,
    consumed: usize,
    abort_if_undelivered: bool,
    delivered: bool,
) -> (r: Result<(), FinishError>)
    requires
        consumed <= old(data)@.len(),
    ensures
        r is Err <==> abort_if_undelivered && !delivered,
        r is Err ==> final(data)@ == old(data)@,
        r is Ok ==> final(data)@ == old(data)@.skip(consumed as int),
{
    if abort_if_undelivered && !delivered {
        return Err(FinishError::Undelivered);
    }
    let rest = data.split_off(consumed);
    *data = rest;
    Ok(())
}

/// Decoding is incremental: once the front of a buffer holds a whole message,
/// bytes that arrive after it change neither that message nor its length.
pub proof fn lemma_decode_prefix_stable(s: Seq<u8>, t: Seq<u8>)
    requires
        decode_spec(s) is Some,
    ensures
        decode_spec(s + t) == decode_spec(s),
{
    let st = s + t;
    assert(st[0] == s[0]);
    if s.len() >= 2 {
        assert(st[1] == s[1]);
    }
    if s[0] == 2 {
        assert(be_u16_at(st, 2) == be_u16_at(s, 2));
        assert(encodings_in(st, be_u16_at(s, 2)) =~= encodings_in(s, be_u16_at(s, 2))) by {
            assert forall|i: int| 0 <= i < be_u16_at(s, 2) implies #[trigger] encodings_in(
                st,
                be_u16_at(s, 2),
            )[i] == encodings_in(s, be_u16_at(s, 2))[i] by {
                assert(st[4 + 4 * i] == s[4 + 4 * i]);
                assert(st[4 + 4 * i + 1] == s[4 + 4 * i + 1]);
                assert(st[4 + 4 * i + 2] == s[4 + 4 * i + 2]);
                assert(st[4 + 4 * i + 3] == s[4 + 4 * i + 3]);
            }
        }
    } else if s[0] == 3 {
        assert(be_u16_at(st, 2) == be_u16_at(s, 2));
        assert(be_u16_at(st, 4) == be_u16_at(s, 4));
        assert(be_u16_at(st, 6) == be_u16_at(s, 6));
        assert(be_u16_at(st, 8) == be_u16_at(s, 8));
    } else if s[0] == 4 || s[0] == 6 {
        assert(be_u32_at(st, 4) == be_u32_at(s, 4));
    } else if s[0] == 5 {
        assert(be_u16_at(st, 2) == be_u16_at(s, 2));
        assert(be_u16_at(st, 4) == be_u16_at(s, 4));
    }
}

/// A decoded message never claims more bytes than the buffer holds.
pub proof fn lemma_decode_within_buffer(s: Seq<u8>)
    requires
        decode_spec(s) is Some,
    ensures
        decode_spec(s).unwrap().consumed <= s.len(),
{
}


/// A FramebufferUpdateRequest is read field by field from its ten bytes: the
/// request is incremental exactly when byte 1 is 1, and x, y, width and height
/// are the big-endian pairs that follow; it occupies ten bytes and failing to
/// hand it on stops the decoding.
pub proof fn lemma_update_request_fields(s: Seq<u8>)
    requires
        s.len() >= 10,
        s[0] == 3,
    ensures
        decode_spec(s) == Some(
            DecodedModel {
                message: Some(
                    MessageModel::FramebufferUpdateRequest {
                        incremental: s[1] == 1,
                        pos_x: (s[2] * 256 + s[3]) as u16,
                        pos_y: (s[4] * 256 + s[5]) as u16,
                        width: (s[6] * 256 + s[7]) as u16,
                        height: (s[8] * 256 + s[9]) as u16,
                    },
                ),
                consumed: 10,
                abort_if_undelivered: true,
            },
        ),
        s[1] != 1 ==> (decode_spec(s).unwrap().message matches Some(
            MessageModel::FramebufferUpdateRequest { incremental, .. },
        ) && !incremental),
{
}

/// A KeyEvent is pressed exactly when byte 1 is 1, and its key is the
/// big-endian number in bytes 4 to 7; it occupies eight bytes.
pub proof fn lemma_key_event_fields(s: Seq<u8>)
    requires
        s.len() >= 8,
        s[0] == 4,
    ensures
        decode_spec(s) == Some(
            DecodedModel {
                message: Some(
                    MessageModel::KeyEvent {
                        down_flag: s[1] == 1,
                        key: (s[4] * 16777216 + s[5] * 65536 + s[6] * 256 + s[7]) as u32,
                    },
                ),
                consumed: 8,
                abort_if_undelivered: true,
            },
        ),
{
}

/// A PointerEvent carries the big-endian position in bytes 2 to 5 (the button
/// mask in byte 1 is not kept); it occupies six bytes.
pub proof fn lemma_pointer_event_fields(s: Seq<u8>)
    requires
        s.len() >= 6,
        s[0] == 5,
    ensures
        decode_spec(s) == Some(
            DecodedModel {
                message: Some(
                    MessageModel::PointerEvent {
                        pos_x: (s[2] * 256 + s[3]) as u16,
                        pos_y: (s[4] * 256 + s[5]) as u16,
                    },
                ),
                consumed: 6,
                abort_if_undelivered: true,
            },
        ),
{
}

/// A whole SetPixelFormat message is taken off, twenty bytes, and nothing is
/// handed on.
pub proof fn lemma_pixel_format_is_dropped(s: Seq<u8>)
    requires
        s.len() >= 20,
        s[0] == 0,
    ensures
        decode_spec(s) == Some(
            DecodedModel { message: None, consumed: 20, abort_if_undelivered: false },
        ),
{
}

/// A SetEncodings message of `n` entries, `n` being the big-endian pair in
/// bytes 2 and 3, lists for each entry the encoding of the big-endian code in
/// its four bytes, in order, and occupies 4 + 4n bytes; with fewer bytes it is
/// incomplete.
pub proof fn lemma_set_encodings_entries(s: Seq<u8>)
    requires
        s.len() >= 4,
        s[0] == 2,
    ensures
        s.len() < 4 + 4 * (s[2] * 256 + s[3]) ==> decode_spec(s) is None,
        s.len() >= 4 + 4 * (s[2] * 256 + s[3]) ==> decode_spec(s) == Some(
            DecodedModel {
                message: Some(
                    MessageModel::SetEncodings(
                        Seq::new(
                            (s[2] * 256 + s[3]) as nat,
                            |i: int|
                                encoding_of(
                                    (s[4 + 4 * i] * 16777216 + s[5 + 4 * i] * 65536 + s[6 + 4 * i]
                                        * 256 + s[7 + 4 * i]) as u32,
                                ),
                        ),
                    ),
                ),
                consumed: (4 + 4 * (s[2] * 256 + s[3])) as nat,
                abort_if_undelivered: true,
            },
        ),
{
    let n = s[2] * 256 + s[3];
    if s.len() >= 4 + 4 * n {
        assert(encodings_in(s, n) =~= Seq::new(
            n as nat,
            |i: int|
                encoding_of(
                    (s[4 + 4 * i] * 16777216 + s[5 + 4 * i] * 65536 + s[6 + 4 * i] * 256 + s[7 + 4
                        * i]) as u32,
                ),
        ));
    }
}

/// A ClientCutText message of text length `len`, the big-endian number in bytes
/// 4 to 7, occupies 8 + len bytes and is incomplete until they have all arrived;
/// failing to hand it on does not stop the decoding.
pub proof fn lemma_cut_text_length(s: Seq<u8>)
    requires
        s.len() >= 8,
        s[0] == 6,
    ensures
        ({
            let len = s[4] * 16777216 + s[5] * 65536 + s[6] * 256 + s[7];
            &&& s.len() < 8 + len ==> decode_spec(s) is None
            &&& s.len() >= 8 + len ==> decode_spec(s) == Some(
                DecodedModel {
                    message: Some(MessageModel::ClientCutText),
                    consumed: (8 + len) as nat,
                    abort_if_undelivered: false,
                },
            )
        }),
{
}

/// A message type outside 0, 2, 3, 4, 5 and 6 is reported as `Unknown`,
/// occupying nothing, whatever follows it.
pub proof fn lemma_unknown_types(s: Seq<u8>)
    requires
        s.len() >= 1,
        s[0] != 0 && s[0] != 2 && s[0] != 3 && s[0] != 4 && s[0] != 5 && s[0] != 6,
    ensures
        decode_spec(s) == Some(
            DecodedModel {
                message: Some(MessageModel::Unknown),
                consumed: 0,
                abort_if_undelivered: false,
            },
        ),
{
}

/// A buffer shorter than the fixed part of its message type is incomplete.
pub proof fn lemma_short_buffers_are_incomplete(s: Seq<u8>)
    ensures
        s.len() == 0 ==> decode_spec(s) is None,
        s.len() > 0 && s[0] == 0 && s.len() < 20 ==> decode_spec(s) is None,
        s.len() > 0 && s[0] == 2 && s.len() < 4 ==> decode_spec(s) is None,
        s.len() > 0 && s[0] == 3 && s.len() < 10 ==> decode_spec(s) is None,
        s.len() > 0 && s[0] == 4 && s.len() < 8 ==> decode_spec(s) is None,
        s.len() > 0 && s[0] == 5 && s.len() < 6 ==> decode_spec(s) is None,
        s.len() > 0 && s[0] == 6 && s.len() < 8 ==> decode_spec(s) is None,
{
}

} // verus!

