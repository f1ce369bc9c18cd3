use tui_core::palette::{Define, Palette};
use tui_core::theme::{BaseColor, Color, ColorPair};

fn pair(n: u8) -> ColorPair {
    ColorPair::from_256colors(n, 0)
}

#[test]
fn slots_are_handed_out_in_order() {
    let mut p = Palette::new(8, pair(0));
    let (s1, d1) = p.get_or_create(pair(1));
    let (s2, d2) = p.get_or_create(pair(2));
    let (s3, d3) = p.get_or_create(pair(3));
    assert_eq!((s1, s2, s3), (1, 2, 3));
    assert_eq!(d1, Some(Define { slot: 1, pair: pair(1) }));
    assert_eq!(d2, Some(Define { slot: 2, pair: pair(2) }));
    assert_eq!(d3, Some(Define { slot: 3, pair: pair(3) }));
    assert_eq!(p.len(), 3);
}

#[test]
fn repeated_requests_are_memoized() {
    let mut p = Palette::new(8, pair(0));
    let (s1, d1) = p.get_or_create(pair(7));
    assert_eq!(s1, 1);
    assert!(d1.is_some());
    for _ in 0..5 {
        let (s, d) = p.get_or_create(pair(7));
        assert_eq!(s, s1);
        assert_eq!(d, None);
    }
    assert_eq!(p.len(), 1);
}

#[test]
fn capacity_is_never_exceeded_and_last_pair_stays() {
    let n: i32 = 4;
    let mut p = Palette::new(n, pair(0));
    for k in 1..=40u8 {
        let (slot, _) = p.get_or_create(pair(k));
        assert!(1 <= slot && slot as i32 <= n - 1);
        assert!((p.len() as i32) <= n - 1);
        // The most recently requested pair is present: asking again is
        // answered from the cache.
        let (again, define) = p.get_or_create(pair(k));
        assert_eq!(again, slot);
        assert_eq!(define, None);
    }
}

#[test]
fn full_cache_always_reclaims_the_highest_slot() {
    let n: i32 = 4;
    let mut p = Palette::new(n, pair(0));
    assert_eq!(p.get_or_create(pair(1)).0, 1);
    assert_eq!(p.get_or_create(pair(2)).0, 2);
    assert_eq!(p.get_or_create(pair(3)).0, 3);
    // Capacity reached: every new distinct pair lands in slot n - 1.
    let (s4, d4) = p.get_or_create(pair(4));
    assert_eq!(s4 as i32, n - 1);
    assert_eq!(d4, Some(Define { slot: 3, pair: pair(4) }));
    let (s5, d5) = p.get_or_create(pair(5));
    assert_eq!(s5 as i32, n - 1);
    assert!(d5.is_some());
    // The evicted pair was the holder of slot n - 1; re-requesting the
    // pair evicted before also lands in slot n - 1.
    let (s3b, d3b) = p.get_or_create(pair(4));
    assert_eq!(s3b as i32, n - 1);
    assert!(d3b.is_some());
    // Early slots were untouched throughout.
    assert_eq!(p.get_or_create(pair(1)), (1, None));
    assert_eq!(p.get_or_create(pair(2)), (2, None));
}

#[test]
fn set_colors_records_the_current_style() {
    let mut p = Palette::new(8, pair(0));
    assert_eq!(p.current_style(), pair(0));
    let (slot, define) = p.set_colors(pair(9));
    assert_eq!(slot, 1);
    assert!(define.is_some());
    assert_eq!(p.current_style(), pair(9));
}

#[test]
fn switch_to_skips_the_current_style() {
    let mut p = Palette::new(8, pair(0));
    assert_eq!(p.switch_to(pair(0)), None);
    let first = p.switch_to(pair(2));
    assert_eq!(first, Some((1, Some(Define { slot: 1, pair: pair(2) }))));
    assert_eq!(p.current_style(), pair(2));
    assert_eq!(p.switch_to(pair(2)), None);
    // Restoring the saved previous style is another switch.
    let back = p.switch_to(pair(0));
    assert_eq!(back, Some((2, Some(Define { slot: 2, pair: pair(0) }))));
}

#[test]
fn abstract_colors_compare_by_value() {
    let a = ColorPair::new(Color::Dark(BaseColor::Red), Color::TerminalDefault);
    let b = ColorPair::new(Color::Dark(BaseColor::Red), Color::TerminalDefault);
    let c = ColorPair::new(Color::Light(BaseColor::Red), Color::TerminalDefault);
    assert_eq!(a, b);
    assert_ne!(a, c);
    let mut p = Palette::new(8, a);
    let (s1, _) = p.get_or_create(a);
    let (s2, d2) = p.get_or_create(b);
    assert_eq!(s1, s2);
    assert_eq!(d2, None);
    assert_ne!(p.get_or_create(c).0, s1);
}
