use tui_core::backend::{decode_input, refresh_timeout_ms, unknown_event};
use tui_core::event::Event;
use tui_core::utf8::{followup_len, read_char};

#[test]
fn followup_length_per_lead_byte() {
    assert_eq!(followup_len(0x41), Some(0));
    assert_eq!(followup_len(0x7F), Some(0));
    assert_eq!(followup_len(0x80), None);
    assert_eq!(followup_len(0xBF), None);
    assert_eq!(followup_len(0xC3), Some(1));
    assert_eq!(followup_len(0xE2), Some(2));
    assert_eq!(followup_len(0xF0), Some(3));
    assert_eq!(followup_len(0xF8), Some(4));
    assert_eq!(followup_len(0xFC), Some(5));
    assert_eq!(followup_len(0xFE), None);
    assert_eq!(followup_len(0xFF), None);
}

#[test]
fn read_char_assembles_sequences() {
    assert_eq!(read_char(b'A', &vec![]), Some('A'));
    assert_eq!(read_char(0xC3, &vec![0xA9]), Some('\u{e9}'));
    assert_eq!(read_char(0xE2, &vec![0x82, 0xAC]), Some('\u{20ac}'));
    assert_eq!(read_char(0xF0, &vec![0x9F, 0x92, 0xA1]), Some('\u{1f4a1}'));
}

#[test]
fn read_char_rejects_malformed_sequences() {
    // Wrong number of continuation bytes.
    assert_eq!(read_char(0xC3, &vec![]), None);
    assert_eq!(read_char(0xC3, &vec![0xA9, 0xA9]), None);
    // A byte that is not a continuation byte.
    assert_eq!(read_char(0xC3, &vec![0x41]), None);
    assert_eq!(read_char(0xE2, &vec![0x82, 0xC0]), None);
    // A bare continuation byte cannot lead.
    assert_eq!(read_char(0x80, &vec![]), None);
    // A surrogate value is not a character.
    assert_eq!(read_char(0xED, &vec![0xA0, 0x80]), None);
    // Beyond the code space.
    assert_eq!(read_char(0xF7, &vec![0xBF, 0xBF, 0xBF]), None);
}

#[test]
fn decode_input_routes_utf8_and_codes() {
    assert_eq!(decode_input(65, &vec![]), Event::Char('A'));
    assert_eq!(decode_input(0xC3, &vec![0xA9]), Event::Char('\u{e9}'));
    assert_eq!(decode_input(-1, &vec![]), Event::Refresh);
    assert_eq!(decode_input(9, &vec![]), Event::Key(tui_core::event::Key::Tab));
    // A lead byte with its continuation missing falls back to Unknown.
    assert_eq!(decode_input(0xC3, &vec![]), Event::Unknown(0xC3, 0, 0, 0));
    assert_eq!(unknown_event(0xC3), Event::Unknown(0xC3, 0, 0, 0));
}

#[test]
fn refresh_rate_to_timeout() {
    assert_eq!(refresh_timeout_ms(0), -1);
    assert_eq!(refresh_timeout_ms(1), 1000);
    assert_eq!(refresh_timeout_ms(30), 33);
    assert_eq!(refresh_timeout_ms(1000), 1);
    assert_eq!(refresh_timeout_ms(3000), 0);
}
