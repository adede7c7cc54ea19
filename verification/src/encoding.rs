use vstd::prelude::*;

verus! {

/// The pixel encodings a client may announce in a SetEncodings message, with
/// their wire codes: Raw 0, CopyRect 1, RRE 2, Hextile 5, TRLE 15, ZRLE 16, the
/// cursor pseudo-encoding -239 and the desktop-size pseudo-encoding -223 (as
/// signed 32-bit numbers); any other code is kept as `Custom`.
#[derive(Debug, Clone, Copy, PartialEq, Eq, Structural)]
pub enum Encoding {
    Raw,
    CopyRect,
    RRE,
    Hextile,
    TRLE,
    ZRLE,
    CursorPseudoEncoding,
    DesktopSizePseudoEncoding,
    Custom(u32),
}

/// The wire code of the cursor pseudo-encoding, -239 read as an unsigned number.
pub const CURSOR_PSEUDO_CODE: u32 = 0xFFFF_FF11;

/// The wire code of the desktop-size pseudo-encoding, -223 read as an unsigned number.
pub const DESKTOP_SIZE_PSEUDO_CODE: u32 = 0xFFFF_FF21;

/// The encoding that the wire code `value` stands for.
pub open spec fn encoding_of(value: u32) -> Encoding {
    if value == 0 {
        Encoding::Raw
    } else if value == 1 {
        Encoding::CopyRect
    } else if value == 2 {
        Encoding::RRE
    } else if value == 5 {
        Encoding::Hextile
    } else if value == 15 {
        Encoding::TRLE
    } else if value == 16 {
        Encoding::ZRLE
    } else if value == CURSOR_PSEUDO_CODE {
        Encoding::CursorPseudoEncoding
    } else if value == DESKTOP_SIZE_PSEUDO_CODE {
        Encoding::DesktopSizePseudoEncoding
    } else {
        Encoding::Custom(value)
    }
}

impl vstd::std_specs::convert::FromSpecImpl<u32> for Encoding {
    open spec fn obeys_from_spec() -> bool {
        true
    }

    open spec fn from_spec(value: u32) -> Encoding {
        encoding_of(value)
    }
}

impl From<u32> for Encoding {
    fn from(value: u32) -> (e: Encoding) {
        match value {
            0 => Encoding::Raw,
            1 => Encoding::CopyRect,
            2 => Encoding::RRE,
            5 => Encoding::Hextile,
            15 => Encoding::TRLE,
            16 => Encoding::ZRLE,
            CURSOR_PSEUDO_CODE => Encoding::CursorPseudoEncoding,
            DESKTOP_SIZE_PSEUDO_CODE => Encoding::DesktopSizePseudoEncoding,
            _ => Encoding::Custom(value),
        }
    }
}

/// Two different wire codes never decode to the same encoding.
pub proof fn lemma_encoding_of_injective(a: u32, b: u32)
    requires
        a != b,
    ensures
        encoding_of(a) != encoding_of(b),
{
}


/// The named encodings come from their own codes: 0 Raw, 1 CopyRect, 2 RRE,
/// 5 Hextile, 15 TRLE, 16 ZRLE, -239 the cursor and -223 the desktop-size
/// pseudo-encodings.
pub proof fn lemma_named_codes()
    ensures
        encoding_of(0) == Encoding::Raw,
        encoding_of(1) == Encoding::CopyRect,
        encoding_of(2) == Encoding::RRE,
        encoding_of(5) == Encoding::Hextile,
        encoding_of(15) == Encoding::TRLE,
        encoding_of(16) == Encoding::ZRLE,
        encoding_of(0xFFFF_FF11) == Encoding::CursorPseudoEncoding,
        encoding_of(0xFFFF_FF21) == Encoding::DesktopSizePseudoEncoding,
{
}

/// Every other code is kept as it is: its encoding is `Custom` of that very
/// code, and a `Custom` encoding always holds the code it came from.
pub proof fn lemma_other_codes_are_kept(value: u32)
    ensures
        value != 0 && value != 1 && value != 2 && value != 5 && value != 15 && value != 16 && value
            != 0xFFFF_FF11 && value != 0xFFFF_FF21 ==> encoding_of(value) == Encoding::Custom(value),
        encoding_of(value) matches Encoding::Custom(code) ==> code == value,
{
}

} // verus!
