use bot_core::clock::{Clock, Duration, Instant};
use bot_core::geometry::{abs_diff, half_of, Point, Rect};
use bot_core::player::timeout::{next_timeout_lifecycle, Lifecycle, Timeout};
use bot_core::text::{
    chars_of, parse_number, split_pieces, to_decimal, to_hms, to_signed_decimal, to_two_digits,
};

#[test]
fn clock_moves_forward() {
    let clock = Clock::start();
    let first = clock.now();
    let mut later = clock.now();
    let mut spins = 0u64;
    while later.nanos == first.nanos && spins < 10_000_000 {
        later = clock.now();
        spins += 1;
    }
    assert!(later.nanos > first.nanos);
}

#[test]
fn instants_and_durations() {
    assert_eq!(Duration::from_millis(1500).nanos, 1_500_000_000);
    assert_eq!(Duration::from_millis(1999).as_secs(), 1);
    let early = Instant { nanos: 5 };
    let late = Instant { nanos: 12 };
    assert_eq!(early.after(Duration { nanos: 7 }), late);
    assert_eq!(late.saturating_duration_since(early), Duration { nanos: 7 });
    assert_eq!(early.saturating_duration_since(late), Duration { nanos: 0 });
}

#[test]
fn halves_round_towards_zero() {
    assert_eq!(half_of(7), 3);
    assert_eq!(half_of(-7), -3);
    assert_eq!(half_of(i32::MIN), i32::MIN / 2);
    assert_eq!(half_of(0), 0);
}

#[test]
fn distances() {
    assert_eq!(abs_diff(3, -4), 7);
    assert_eq!(abs_diff(i32::MIN, i32::MAX), u32::MAX);
}

#[test]
fn rectangles_contain_their_left_and_top_edges_only() {
    let rect = Rect::new(10, 20, 5, 4);
    assert!(rect.contains(Point::new(10, 20)));
    assert!(rect.contains(Point::new(14, 23)));
    assert!(!rect.contains(Point::new(15, 23)));
    assert!(!rect.contains(Point::new(14, 24)));
    assert!(!rect.contains(Point::new(9, 20)));
}

#[test]
fn rectangles_span_two_corners_in_any_order() {
    let rect = Rect::new(1, 2, 3, 5);
    assert_eq!(Rect::from_points(Point::new(1, 2), Point::new(4, 7)), rect);
    assert_eq!(Rect::from_points(Point::new(4, 7), Point::new(1, 2)), rect);
    assert_eq!(Rect::from_points(Point::new(1, 7), Point::new(4, 2)), rect);
}

#[test]
fn rectangles_overlap_where_they_share_pixels() {
    let rect = Rect::new(0, 0, 10, 10);
    assert!(rect.overlaps(Rect::new(9, 9, 1, 1)));
    assert!(!rect.overlaps(Rect::new(10, 0, 5, 5)));
    assert!(!rect.overlaps(Rect::new(2, 2, 0, 5)));
    assert!(rect.overlaps(Rect::new(-5, -5, 100, 100)));
    assert!(Rect::new(i32::MAX, 0, i32::MAX, 1).overlaps(Rect::new(i32::MAX, 0, 1, 1)));
}

#[test]
fn timeouts_start_count_and_end() {
    let mut timeout = Timeout::default();
    let mut updates = 0;
    let mut started = 0;
    loop {
        match next_timeout_lifecycle(timeout, 3) {
            Lifecycle::Started(next) => {
                started += 1;
                assert_eq!(next.current, 0);
                timeout = next;
            }
            Lifecycle::Updated(next) => {
                updates += 1;
                assert_eq!(next.current, updates);
                timeout = next;
            }
            Lifecycle::Ended => break,
        }
    }
    assert_eq!(started, 1);
    assert_eq!(updates, 3);
}

#[test]
fn timeout_that_ended_stays_ended() {
    let over = Timeout { current: 15, started: true };
    assert_eq!(next_timeout_lifecycle(over, 15), Lifecycle::Ended);
    assert_eq!(next_timeout_lifecycle(over, 15), Lifecycle::Ended);
}

#[test]
fn numbers_in_decimal() {
    assert_eq!(to_decimal(0), "0");
    assert_eq!(to_decimal(1234567890), "1234567890");
    assert_eq!(to_decimal(u128::MAX), u128::MAX.to_string());
    assert_eq!(to_two_digits(7), "07");
    assert_eq!(to_two_digits(123), "123");
    assert_eq!(to_signed_decimal(-12), "-12");
    assert_eq!(to_signed_decimal(i32::MIN), "-2147483648");
    assert_eq!(to_signed_decimal(0), "0");
    assert_eq!(to_hms(1, 2, 33), "01:02:33");
}

#[test]
fn pieces_between_separators() {
    let parts = split_pieces(&chars_of("a::b"), ':');
    assert_eq!(parts, vec![vec!['a'], vec![], vec!['b']]);
    assert_eq!(split_pieces(&chars_of(""), ':'), vec![Vec::<char>::new()]);
    assert_eq!(split_pieces(&chars_of(":"), ':'), vec![Vec::<char>::new(), Vec::new()]);
}

#[test]
fn parsing_numbers() {
    assert_eq!(parse_number(&chars_of("42")), Some(42));
    assert_eq!(parse_number(&chars_of("+42")), Some(42));
    assert_eq!(parse_number(&chars_of("007")), Some(7));
    assert_eq!(parse_number(&chars_of("18446744073709551615")), Some(u64::MAX));
    assert_eq!(parse_number(&chars_of("18446744073709551616")), None);
    assert_eq!(parse_number(&chars_of("")), None);
    assert_eq!(parse_number(&chars_of("+")), None);
    assert_eq!(parse_number(&chars_of("-1")), None);
    assert_eq!(parse_number(&chars_of("4 2")), None);
}
