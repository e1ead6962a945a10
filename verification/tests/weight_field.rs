use ekman::weight::{Weight, WeightField};

const SECOND: u64 = 1_000_000_000;

fn typed(text: &str) -> WeightField {
    let mut f = WeightField::new();
    for (i, ch) in text.chars().enumerate() {
        f.push_char(ch, 10 * SECOND + i as u64);
    }
    f
}

#[test]
fn typing_builds_a_number() {
    let f = typed("82.5");
    assert_eq!(f.buffer, "82.5");
    assert_eq!(f.value, Weight { milli: 82_500 });
    assert_eq!(f.last_input, Some(10 * SECOND + 3));
}

#[test]
fn a_buffer_reads_as_the_numeral_it_holds() {
    assert_eq!(Weight::parse("5").milli, 5_000);
    assert_eq!(Weight::parse("5.").milli, 5_000);
    assert_eq!(Weight::parse(".5").milli, 500);
    assert_eq!(Weight::parse("0").milli, 0);
    assert_eq!(Weight::parse("007").milli, 7_000);
    assert_eq!(Weight::parse("41.25").milli, 41_250);
    assert_eq!(Weight::parse("41.255").milli, 41_255);
    assert_eq!(Weight::parse("0.1239").milli, 123);
    assert_eq!(Weight::parse("1.000000000000000000000000009").milli, 1_000);
    assert_eq!(Weight::parse("4294967.295").milli, u32::MAX);
}

#[test]
fn what_is_no_numeral_reads_as_zero() {
    assert_eq!(Weight::parse("").milli, 0);
    assert_eq!(Weight::parse(".").milli, 0);
    assert_eq!(Weight::parse("1.2.3").milli, 0);
    assert_eq!(Weight::parse("..").milli, 0);
    assert_eq!(Weight::parse("12a").milli, 0);
    assert_eq!(Weight::parse("-5").milli, 0);
    assert_eq!(Weight::parse("1e3").milli, 0);
    assert_eq!(Weight::parse(" 5").milli, 0);
    assert_eq!(Weight::parse("５").milli, 0);
    assert_eq!(Weight::parse("4294967.296").milli, 0);
    assert_eq!(Weight::parse("99999999999999999999999999").milli, 0);
}

#[test]
fn a_weight_is_written_with_the_decimals_it_has() {
    assert_eq!(Weight { milli: 0 }.text(), "0.0");
    assert_eq!(Weight { milli: 100_000 }.text(), "100.0");
    assert_eq!(Weight { milli: 82_500 }.text(), "82.5");
    assert_eq!(Weight { milli: 41_250 }.text(), "41.25");
    assert_eq!(Weight { milli: 41_255 }.text(), "41.255");
    assert_eq!(Weight { milli: 5 }.text(), "0.005");
    assert_eq!(Weight { milli: 50 }.text(), "0.05");
    assert_eq!(Weight { milli: 1_010 }.text(), "1.01");
    assert_eq!(Weight { milli: u32::MAX }.text(), "4294967.295");
}

#[test]
fn reading_what_was_written_gives_the_weight_back() {
    for milli in [0, 1, 9, 10, 99, 100, 999, 1_000, 1_001, 82_500, 123_456, u32::MAX] {
        assert_eq!(Weight::parse(&Weight { milli }.text()).milli, milli);
    }
}

#[test]
fn other_characters_are_dropped() {
    let mut f = typed("12");
    f.push_char('x', 10 * SECOND + 5);
    f.push_char('-', 10 * SECOND + 6);
    f.push_char(' ', 10 * SECOND + 7);
    assert_eq!(f.buffer, "12");
    assert_eq!(f.value.milli, 12_000);
    assert_eq!(f.last_input, Some(10 * SECOND + 1));
}

#[test]
fn a_second_decimal_point_makes_the_buffer_unreadable() {
    let mut f = typed("1.2");
    assert_eq!(f.value.milli, 1_200);
    f.push_char('.', 10 * SECOND + 3);
    assert_eq!(f.buffer, "1.2.");
    assert_eq!(f.value.milli, 0);
    f.backspace();
    assert_eq!(f.buffer, "1.2");
    assert_eq!(f.value.milli, 1_200);
}

#[test]
fn backspace_until_empty_leaves_no_value() {
    let mut f = typed("82.5");
    f.backspace();
    assert_eq!((f.buffer.as_str(), f.value.milli), ("82.", 82_000));
    f.backspace();
    assert_eq!((f.buffer.as_str(), f.value.milli), ("82", 82_000));
    f.backspace();
    assert_eq!((f.buffer.as_str(), f.value.milli), ("8", 8_000));
    f.backspace();
    assert_eq!((f.buffer.as_str(), f.value.milli), ("", 0));
    assert!(f.is_unset());
    assert_eq!(f.display(), "__");
    f.backspace();
    assert_eq!((f.buffer.as_str(), f.value.milli), ("", 0));
}

#[test]
fn a_keystroke_after_the_window_starts_afresh() {
    let mut f = WeightField::new();
    f.push_char('8', 5 * SECOND);
    f.push_char('2', 6 * SECOND + 1);
    assert_eq!(f.buffer, "2");
    assert_eq!(f.value.milli, 2_000);
}

#[test]
fn a_keystroke_at_the_end_of_the_window_still_joins() {
    let mut f = WeightField::new();
    f.push_char('8', 5 * SECOND);
    f.push_char('2', 6 * SECOND);
    assert_eq!(f.buffer, "82");
    assert_eq!(f.value.milli, 82_000);
}

#[test]
fn a_clock_that_ran_backwards_does_not_clear_the_buffer() {
    let mut f = WeightField::new();
    f.push_char('8', 5 * SECOND);
    f.push_char('2', 3 * SECOND);
    assert_eq!(f.buffer, "82");
}

#[test]
fn the_first_keystroke_replaces_a_seeded_value() {
    let mut f = WeightField::seeded(Weight { milli: 60_000 });
    assert_eq!(f.buffer, "60.0");
    assert_eq!(f.last_input, None);
    f.push_char('7', 0);
    assert_eq!(f.buffer, "7");
    assert_eq!(f.value.milli, 7_000);
}

#[test]
fn bump_moves_the_value_and_rewrites_the_buffer() {
    let mut f = typed("80");
    f.bump(2_500);
    assert_eq!(f.buffer, "82.5");
    assert_eq!(f.value.milli, 82_500);
    assert_eq!(f.last_input, Some(10 * SECOND + 1));
    f.bump(-2_500);
    f.bump(-2_500);
    assert_eq!(f.buffer, "77.5");
    assert_eq!(f.value.milli, 77_500);
}

#[test]
fn bump_stops_at_zero_and_at_the_largest_value() {
    let mut f = typed("1");
    f.bump(-2_500);
    assert_eq!(f.buffer, "0.0");
    assert_eq!(f.value.milli, 0);
    assert!(!f.is_unset());
    let mut g = WeightField::showing(Weight { milli: u32::MAX - 1 });
    g.bump(2_500);
    assert_eq!(g.value.milli, u32::MAX);
    assert_eq!(g.buffer, "4294967.295");
}

#[test]
fn bump_of_an_unset_field_starts_from_zero() {
    let mut f = WeightField::new();
    f.bump(2_500);
    assert_eq!(f.buffer, "2.5");
    assert_eq!(f.value.milli, 2_500);
}

#[test]
fn a_seed_of_zero_leaves_the_field_unset() {
    let f = WeightField::seeded(Weight { milli: 0 });
    assert!(f.is_unset());
    assert_eq!(f.display(), "__");
    let g = WeightField::showing(Weight { milli: 0 });
    assert!(!g.is_unset());
    assert_eq!(g.display(), "0.0");
}

#[test]
fn saturating_add_signed_keeps_within_range() {
    assert_eq!(Weight { milli: 10 }.saturating_add_signed(-11).milli, 0);
    assert_eq!(Weight { milli: 10 }.saturating_add_signed(i32::MIN).milli, 0);
    assert_eq!(Weight { milli: u32::MAX }.saturating_add_signed(1).milli, u32::MAX);
    assert_eq!(Weight { milli: 10 }.saturating_add_signed(5).milli, 15);
}
