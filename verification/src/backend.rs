use vstd::prelude::*;
use crate::decoder::{parse_ncurses_char, spec_decode, spec_le_bytes};
use crate::event::Event;
use crate::utf8::{read_char, spec_read};

verus! {

/// Whether a raw code opens a UTF-8 sequence rather than standing for a
/// key of its own.
pub open spec fn is_utf8_start(ch: i32) -> bool {
    32 <= ch && ch <= 255 && ch != 127
}

/// The fallback event for a code nothing else decodes: its four
/// little-endian bytes, kept for debuggability.
pub fn unknown_event(ch: i32) -> (r: Event)
    ensures
        r == ({
            let (b0, b1, b2, b3) = spec_le_bytes(ch);
            Event::Unknown(b0, b1, b2, b3)
        }),
{
    let u: u32 = ch as u32;
    Event::Unknown(
        (u & 0xFF) as u8,
        ((u >> 8) & 0xFF) as u8,
        ((u >> 16) & 0xFF) as u8,
        ((u >> 24) & 0xFF) as u8,
    )
}

/// Decodes one unit of input: the raw code the driver returned, plus
/// the continuation bytes that were read after it when the code opened
/// a UTF-8 sequence (`is_utf8_start`; their count is given by
/// `utf8::followup_len`). Total: malformed input becomes `Unknown`.
pub fn decode_input(ch: i32, followup: &Vec<u8>) -> (r: Event)
    ensures
        !is_utf8_start(ch) ==> r == spec_decode(ch),
        is_utf8_start(ch) ==> match spec_read(ch as u8, followup@) {
            Some(v) => r matches Event::Char(c) && c as u32 == v,
            None => r == ({
                let (b0, b1, b2, b3) = spec_le_bytes(ch);
                Event::Unknown(b0, b1, b2, b3)
            }),
        },
{
    if 32 <= ch && ch <= 255 && ch != 127 {
        match read_char(ch as u8, followup) {
            Some(c) => Event::Char(c),
            None => unknown_event(ch),
        }
    } else {
        parse_ncurses_char(ch)
    }
}

/// The driver read timeout that realizes a refresh rate: block forever
/// at rate zero, else wake after `1000 / fps` milliseconds.
pub fn refresh_timeout_ms(fps: u32) -> (r: i32)
    ensures
        fps == 0 ==> r == -1,
        fps != 0 ==> r as int == 1000 as int / fps as int,
{
    if fps == 0 {
        -1
    } else {
        (1000 / fps) as i32
    }
}

} // verus!
