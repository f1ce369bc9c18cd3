use vstd::prelude::*;
use crate::event::{Event, Key};

verus! {

// Key codes reported by the curses driver. The values are the driver's
// wire protocol and are kept verbatim for compatibility.
pub const KEY_DOWN: i32 = 258;
pub const KEY_UP: i32 = 259;
pub const KEY_LEFT: i32 = 260;
pub const KEY_RIGHT: i32 = 261;
pub const KEY_HOME: i32 = 262;
pub const KEY_BACKSPACE: i32 = 263;
pub const KEY_F0: i32 = 264;
pub const KEY_F1: i32 = 265;
pub const KEY_F12: i32 = 276;
pub const KEY_DC: i32 = 330;
pub const KEY_IC: i32 = 331;
pub const KEY_SF: i32 = 336;
pub const KEY_SR: i32 = 337;
pub const KEY_NPAGE: i32 = 338;
pub const KEY_PPAGE: i32 = 339;
pub const KEY_ENTER: i32 = 343;
pub const KEY_B2: i32 = 350;
pub const KEY_BTAB: i32 = 353;
pub const KEY_END: i32 = 360;
pub const KEY_SDC: i32 = 383;
pub const KEY_SEND: i32 = 386;
pub const KEY_SHOME: i32 = 391;
pub const KEY_SLEFT: i32 = 393;
pub const KEY_SNEXT: i32 = 396;
pub const KEY_SPREVIOUS: i32 = 398;
pub const KEY_SRIGHT: i32 = 402;
pub const KEY_RESIZE: i32 = 410;

/// The four little-endian bytes of a raw code, for the fallback event.
pub open spec fn spec_le_bytes(ch: i32) -> (u8, u8, u8, u8) {
    let u = ch as u32;
    ((u & 0xFF) as u8, ((u >> 8) & 0xFF) as u8, ((u >> 16) & 0xFF) as u8, ((u >> 24) & 0xFF) as u8)
}

/// The decoding table: which event each raw code stands for.
///
/// Total over all of `i32`: every code yields exactly one event, and a
/// code that matches nothing becomes `Unknown`, never an error.
pub open spec fn spec_decode(ch: i32) -> Event {
    if ch == -1 { Event::Refresh }
    else if ch == 9 { Event::Key(Key::Tab) }
    else if ch == 10 || ch == KEY_ENTER { Event::Key(Key::Enter) }
    else if ch == 27 { Event::Key(Key::Esc) }
    else if ch == 127 || ch == KEY_BACKSPACE { Event::Key(Key::Backspace) }
    else if ch == KEY_RESIZE { Event::WindowResize }
    else if ch == 520 { Event::Alt(Key::Del) }
    else if ch == 521 { Event::AltShift(Key::Del) }
    else if ch == 522 { Event::Ctrl(Key::Del) }
    else if ch == 523 { Event::CtrlShift(Key::Del) }
    else if ch == 526 { Event::Alt(Key::Down) }
    else if ch == 527 { Event::AltShift(Key::Down) }
    else if ch == 528 { Event::Ctrl(Key::Down) }
    else if ch == 529 { Event::CtrlShift(Key::Down) }
    else if ch == 530 { Event::CtrlAlt(Key::Down) }
    else if ch == 531 { Event::Alt(Key::End) }
    else if ch == 532 { Event::AltShift(Key::End) }
    else if ch == 533 { Event::Ctrl(Key::End) }
    else if ch == 534 { Event::CtrlShift(Key::End) }
    else if ch == 535 { Event::CtrlAlt(Key::End) }
    else if ch == 536 { Event::Alt(Key::Home) }
    else if ch == 537 { Event::AltShift(Key::Home) }
    else if ch == 538 { Event::Ctrl(Key::Home) }
    else if ch == 539 { Event::CtrlShift(Key::Home) }
    else if ch == 540 { Event::CtrlAlt(Key::Home) }
    else if ch == 541 { Event::Alt(Key::Ins) }
    else if ch == 542 { Event::AltShift(Key::Ins) }
    else if ch == 543 { Event::Ctrl(Key::Ins) }
    else if ch == 545 { Event::CtrlAlt(Key::Ins) }
    else if ch == 546 { Event::Alt(Key::Left) }
    else if ch == 547 { Event::AltShift(Key::Left) }
    else if ch == 548 { Event::Ctrl(Key::Left) }
    else if ch == 549 { Event::CtrlShift(Key::Left) }
    else if ch == 550 { Event::CtrlAlt(Key::Left) }
    else if ch == 551 { Event::Alt(Key::PageDown) }
    else if ch == 552 { Event::AltShift(Key::PageDown) }
    else if ch == 553 { Event::Ctrl(Key::PageDown) }
    else if ch == 554 { Event::CtrlShift(Key::PageDown) }
    else if ch == 555 { Event::CtrlAlt(Key::PageDown) }
    else if ch == 556 { Event::Alt(Key::PageUp) }
    else if ch == 557 { Event::AltShift(Key::PageUp) }
    else if ch == 558 { Event::Ctrl(Key::PageUp) }
    else if ch == 559 { Event::CtrlShift(Key::PageUp) }
    else if ch == 560 { Event::CtrlAlt(Key::PageUp) }
    else if ch == 561 { Event::Alt(Key::Right) }
    else if ch == 562 { Event::AltShift(Key::Right) }
    else if ch == 563 { Event::Ctrl(Key::Right) }
    else if ch == 564 { Event::CtrlShift(Key::Right) }
    else if ch == 565 { Event::CtrlAlt(Key::Right) }
    else if ch == 567 { Event::Alt(Key::Up) }
    else if ch == 568 { Event::AltShift(Key::Up) }
    else if ch == 569 { Event::Ctrl(Key::Up) }
    else if ch == 570 { Event::CtrlShift(Key::Up) }
    else if ch == 571 { Event::CtrlAlt(Key::Up) }
    else if ch == KEY_B2 { Event::Key(Key::NumpadCenter) }
    else if ch == KEY_DC { Event::Key(Key::Del) }
    else if ch == KEY_IC { Event::Key(Key::Ins) }
    else if ch == KEY_BTAB { Event::Shift(Key::Tab) }
    else if ch == KEY_SLEFT { Event::Shift(Key::Left) }
    else if ch == KEY_SRIGHT { Event::Shift(Key::Right) }
    else if ch == KEY_LEFT { Event::Key(Key::Left) }
    else if ch == KEY_RIGHT { Event::Key(Key::Right) }
    else if ch == KEY_UP { Event::Key(Key::Up) }
    else if ch == KEY_DOWN { Event::Key(Key::Down) }
    else if ch == KEY_SR { Event::Shift(Key::Up) }
    else if ch == KEY_SF { Event::Shift(Key::Down) }
    else if ch == KEY_PPAGE { Event::Key(Key::PageUp) }
    else if ch == KEY_NPAGE { Event::Key(Key::PageDown) }
    else if ch == KEY_HOME { Event::Key(Key::Home) }
    else if ch == KEY_END { Event::Key(Key::End) }
    else if ch == KEY_SHOME { Event::Shift(Key::Home) }
    else if ch == KEY_SEND { Event::Shift(Key::End) }
    else if ch == KEY_SDC { Event::Shift(Key::Del) }
    else if ch == KEY_SNEXT { Event::Shift(Key::PageDown) }
    else if ch == KEY_SPREVIOUS { Event::Shift(Key::PageUp) }
    else if KEY_F1 <= ch && ch <= KEY_F12 { Event::Key(Key::F((ch - KEY_F0) as u8)) }
    else if 277 <= ch && ch <= 288 { Event::Shift(Key::F((ch - 276) as u8)) }
    else if 289 <= ch && ch <= 300 { Event::Ctrl(Key::F((ch - 288) as u8)) }
    else if 301 <= ch && ch <= 312 { Event::CtrlShift(Key::F((ch - 300) as u8)) }
    else if 313 <= ch && ch <= 324 { Event::Alt(Key::F((ch - 312) as u8)) }
    else if 1 <= ch && ch <= 25 { Event::CtrlChar((((ch - 1) + 97) as u8) as char) }
    else {
        let (b0, b1, b2, b3) = spec_le_bytes(ch);
        Event::Unknown(b0, b1, b2, b3)
    }
}

/// Turns one raw code from the curses driver into its event.
///
/// Never fails: anything outside the table becomes `Unknown` with the
/// code's four little-endian bytes.
pub fn parse_ncurses_char(ch: i32) -> (r: Event)
    ensures
        r == spec_decode(ch),
{
    if ch == -1 { Event::Refresh }
    else if ch == 9 { Event::Key(Key::Tab) }
    else if ch == 10 || ch == KEY_ENTER { Event::Key(Key::Enter) }
    else if ch == 27 { Event::Key(Key::Esc) }
    else if ch == 127 || ch == KEY_BACKSPACE { Event::Key(Key::Backspace) }
    else if ch == KEY_RESIZE { Event::WindowResize }
    else if ch == 520 { Event::Alt(Key::Del) }
    else if ch == 521 { Event::AltShift(Key::Del) }
    else if ch == 522 { Event::Ctrl(Key::Del) }
    else if ch == 523 { Event::CtrlShift(Key::Del) }
    else if ch == 526 { Event::Alt(Key::Down) }
    else if ch == 527 { Event::AltShift(Key::Down) }
    else if ch == 528 { Event::Ctrl(Key::Down) }
    else if ch == 529 { Event::CtrlShift(Key::Down) }
    else if ch == 530 { Event::CtrlAlt(Key::Down) }
    else if ch == 531 { Event::Alt(Key::End) }
    else if ch == 532 { Event::AltShift(Key::End) }
    else if ch == 533 { Event::Ctrl(Key::End) }
    else if ch == 534 { Event::CtrlShift(Key::End) }
    else if ch == 535 { Event::CtrlAlt(Key::End) }
    else if ch == 536 { Event::Alt(Key::Home) }
    else if ch == 537 { Event::AltShift(Key::Home) }
    else if ch == 538 { Event::Ctrl(Key::Home) }
    else if ch == 539 { Event::CtrlShift(Key::Home) }
    else if ch == 540 { Event::CtrlAlt(Key::Home) }
    else if ch == 541 { Event::Alt(Key::Ins) }
    else if ch == 542 { Event::AltShift(Key::Ins) }
    else if ch == 543 { Event::Ctrl(Key::Ins) }
    else if ch == 545 { Event::CtrlAlt(Key::Ins) }
    else if ch == 546 { Event::Alt(Key::Left) }
    else if ch == 547 { Event::AltShift(Key::Left) }
    else if ch == 548 { Event::Ctrl(Key::Left) }
    else if ch == 549 { Event::CtrlShift(Key::Left) }
    else if ch == 550 { Event::CtrlAlt(Key::Left) }
    else if ch == 551 { Event::Alt(Key::PageDown) }
    else if ch == 552 { Event::AltShift(Key::PageDown) }
    else if ch == 553 { Event::Ctrl(Key::PageDown) }
    else if ch == 554 { Event::CtrlShift(Key::PageDown) }
    else if ch == 555 { Event::CtrlAlt(Key::PageDown) }
    else if ch == 556 { Event::Alt(Key::PageUp) }
    else if ch == 557 { Event::AltShift(Key::PageUp) }
    else if ch == 558 { Event::Ctrl(Key::PageUp) }
    else if ch == 559 { Event::CtrlShift(Key::PageUp) }
    else if ch == 560 { Event::CtrlAlt(Key::PageUp) }
    else if ch == 561 { Event::Alt(Key::Right) }
    else if ch == 562 { Event::AltShift(Key::Right) }
    else if ch == 563 { Event::Ctrl(Key::Right) }
    else if ch == 564 { Event::CtrlShift(Key::Right) }
    else if ch == 565 { Event::CtrlAlt(Key::Right) }
    else if ch == 567 { Event::Alt(Key::Up) }
    else if ch == 568 { Event::AltShift(Key::Up) }
    else if ch == 569 { Event::Ctrl(Key::Up) }
    else if ch == 570 { Event::CtrlShift(Key::Up) }
    else if ch == 571 { Event::CtrlAlt(Key::Up) }
    else if ch == KEY_B2 { Event::Key(Key::NumpadCenter) }
    else if ch == KEY_DC { Event::Key(Key::Del) }
    else if ch == KEY_IC { Event::Key(Key::Ins) }
    else if ch == KEY_BTAB { Event::Shift(Key::Tab) }
    else if ch == KEY_SLEFT { Event::Shift(Key::Left) }
    else if ch == KEY_SRIGHT { Event::Shift(Key::Right) }
    else if ch == KEY_LEFT { Event::Key(Key::Left) }
    else if ch == KEY_RIGHT { Event::Key(Key::Right) }
    else if ch == KEY_UP { Event::Key(Key::Up) }
    else if ch == KEY_DOWN { Event::Key(Key::Down) }
    else if ch == KEY_SR { Event::Shift(Key::Up) }
    else if ch == KEY_SF { Event::Shift(Key::Down) }
    else if ch == KEY_PPAGE { Event::Key(Key::PageUp) }
    else if ch == KEY_NPAGE { Event::Key(Key::PageDown) }
    else if ch == KEY_HOME { Event::Key(Key::Home) }
    else if ch == KEY_END { Event::Key(Key::End) }
    else if ch == KEY_SHOME { Event::Shift(Key::Home) }
    else if ch == KEY_SEND { Event::Shift(Key::End) }
    else if ch == KEY_SDC { Event::Shift(Key::Del) }
    else if ch == KEY_SNEXT { Event::Shift(Key::PageDown) }
    else if ch == KEY_SPREVIOUS { Event::Shift(Key::PageUp) }
    else if KEY_F1 <= ch && ch <= KEY_F12 { Event::Key(Key::from_f((ch - KEY_F0) as u8)) }
    else if 277 <= ch && ch <= 288 { Event::Shift(Key::from_f((ch - 276) as u8)) }
    else if 289 <= ch && ch <= 300 { Event::Ctrl(Key::from_f((ch - 288) as u8)) }
    else if 301 <= ch && ch <= 312 { Event::CtrlShift(Key::from_f((ch - 300) as u8)) }
    else if 313 <= ch && ch <= 324 { Event::Alt(Key::from_f((ch - 312) as u8)) }
    else if 1 <= ch && ch <= 25 {
        let letter: u8 = ((ch - 1) + 97) as u8;
        Event::CtrlChar(letter as char)
    } else {
        let u: u32 = ch as u32;
        let b0: u8 = (u & 0xFF) as u8;
        let b1: u8 = ((u >> 8) & 0xFF) as u8;
        let b2: u8 = ((u >> 16) & 0xFF) as u8;
        let b3: u8 = ((u >> 24) & 0xFF) as u8;
        Event::Unknown(b0, b1, b2, b3)
    }
}

} // verus!
