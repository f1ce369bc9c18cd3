use tui_core::decoder::parse_ncurses_char;
use tui_core::event::{Event, Key};

#[test]
fn refresh_and_basic_keys() {
    assert_eq!(parse_ncurses_char(-1), Event::Refresh);
    assert_eq!(parse_ncurses_char(9), Event::Key(Key::Tab));
    assert_eq!(parse_ncurses_char(10), Event::Key(Key::Enter));
    assert_eq!(parse_ncurses_char(343), Event::Key(Key::Enter));
    assert_eq!(parse_ncurses_char(27), Event::Key(Key::Esc));
    assert_eq!(parse_ncurses_char(127), Event::Key(Key::Backspace));
    assert_eq!(parse_ncurses_char(263), Event::Key(Key::Backspace));
    assert_eq!(parse_ncurses_char(410), Event::WindowResize);
}

#[test]
fn ctrl_letters() {
    for code in 1..=25i32 {
        if code == 9 || code == 10 {
            continue;
        }
        let expected = (b'a' + (code - 1) as u8) as char;
        assert_eq!(parse_ncurses_char(code), Event::CtrlChar(expected));
    }
    assert_eq!(parse_ncurses_char(1), Event::CtrlChar('a'));
    assert_eq!(parse_ncurses_char(25), Event::CtrlChar('y'));
}

#[test]
fn named_navigation_keys() {
    assert_eq!(parse_ncurses_char(258), Event::Key(Key::Down));
    assert_eq!(parse_ncurses_char(259), Event::Key(Key::Up));
    assert_eq!(parse_ncurses_char(260), Event::Key(Key::Left));
    assert_eq!(parse_ncurses_char(261), Event::Key(Key::Right));
    assert_eq!(parse_ncurses_char(262), Event::Key(Key::Home));
    assert_eq!(parse_ncurses_char(330), Event::Key(Key::Del));
    assert_eq!(parse_ncurses_char(331), Event::Key(Key::Ins));
    assert_eq!(parse_ncurses_char(336), Event::Shift(Key::Down));
    assert_eq!(parse_ncurses_char(337), Event::Shift(Key::Up));
    assert_eq!(parse_ncurses_char(338), Event::Key(Key::PageDown));
    assert_eq!(parse_ncurses_char(339), Event::Key(Key::PageUp));
    assert_eq!(parse_ncurses_char(350), Event::Key(Key::NumpadCenter));
    assert_eq!(parse_ncurses_char(353), Event::Shift(Key::Tab));
    assert_eq!(parse_ncurses_char(360), Event::Key(Key::End));
    assert_eq!(parse_ncurses_char(383), Event::Shift(Key::Del));
    assert_eq!(parse_ncurses_char(386), Event::Shift(Key::End));
    assert_eq!(parse_ncurses_char(391), Event::Shift(Key::Home));
    assert_eq!(parse_ncurses_char(393), Event::Shift(Key::Left));
    assert_eq!(parse_ncurses_char(396), Event::Shift(Key::PageDown));
    assert_eq!(parse_ncurses_char(398), Event::Shift(Key::PageUp));
    assert_eq!(parse_ncurses_char(402), Event::Shift(Key::Right));
}

#[test]
fn decorated_extension_keys() {
    assert_eq!(parse_ncurses_char(520), Event::Alt(Key::Del));
    assert_eq!(parse_ncurses_char(521), Event::AltShift(Key::Del));
    assert_eq!(parse_ncurses_char(522), Event::Ctrl(Key::Del));
    assert_eq!(parse_ncurses_char(523), Event::CtrlShift(Key::Del));
    assert_eq!(parse_ncurses_char(526), Event::Alt(Key::Down));
    assert_eq!(parse_ncurses_char(530), Event::CtrlAlt(Key::Down));
    assert_eq!(parse_ncurses_char(546), Event::Alt(Key::Left));
    assert_eq!(parse_ncurses_char(549), Event::CtrlShift(Key::Left));
    assert_eq!(parse_ncurses_char(565), Event::CtrlAlt(Key::Right));
    assert_eq!(parse_ncurses_char(567), Event::Alt(Key::Up));
    assert_eq!(parse_ncurses_char(571), Event::CtrlAlt(Key::Up));
}

#[test]
fn function_keys() {
    assert_eq!(parse_ncurses_char(265), Event::Key(Key::F(1)));
    assert_eq!(parse_ncurses_char(276), Event::Key(Key::F(12)));
    assert_eq!(parse_ncurses_char(277), Event::Shift(Key::F(1)));
    assert_eq!(parse_ncurses_char(288), Event::Shift(Key::F(12)));
    assert_eq!(parse_ncurses_char(289), Event::Ctrl(Key::F(1)));
    assert_eq!(parse_ncurses_char(300), Event::Ctrl(Key::F(12)));
    assert_eq!(parse_ncurses_char(301), Event::CtrlShift(Key::F(1)));
    assert_eq!(parse_ncurses_char(312), Event::CtrlShift(Key::F(12)));
    assert_eq!(parse_ncurses_char(313), Event::Alt(Key::F(1)));
    assert_eq!(parse_ncurses_char(324), Event::Alt(Key::F(12)));
}

#[test]
fn unknown_codes_carry_le_bytes() {
    assert_eq!(parse_ncurses_char(600), Event::Unknown(0x58, 0x02, 0, 0));
    // Codes just outside the driver's table stay undecoded.
    assert_eq!(parse_ncurses_char(348), Event::Unknown(0x5C, 0x01, 0, 0));
    assert_eq!(parse_ncurses_char(394), Event::Unknown(0x8A, 0x01, 0, 0));
    assert_eq!(parse_ncurses_char(-2), Event::Unknown(0xFE, 0xFF, 0xFF, 0xFF));
    assert_eq!(parse_ncurses_char(0), Event::Unknown(0, 0, 0, 0));
    assert_eq!(
        parse_ncurses_char(i32::MAX),
        Event::Unknown(0xFF, 0xFF, 0xFF, 0x7F)
    );
}

#[test]
fn decoding_is_total_over_sampled_codes() {
    // Codes from -10^9 up to 4*10^9, wrapped into the i32 the driver
    // hands over; every one must decode to exactly one event.
    let mut code: i64 = -1_000_000_000;
    while code <= 4_000_000_000 {
        let ch = code as i32;
        let e = parse_ncurses_char(ch);
        // The vocabulary is closed: every result is one of its variants.
        match e {
            Event::Refresh
            | Event::WindowResize
            | Event::Char(_)
            | Event::CtrlChar(_)
            | Event::Key(_)
            | Event::Shift(_)
            | Event::Alt(_)
            | Event::AltShift(_)
            | Event::Ctrl(_)
            | Event::CtrlShift(_)
            | Event::CtrlAlt(_)
            | Event::Unknown(_, _, _, _) => {}
        }
        code += 999_983;
    }
}
