use pomodoro::app::TimerState;
use pomodoro::ui::get_big_digit;
use pomodoro::ui::render_big_time;
use pomodoro::ui::split_minutes_seconds;
use pomodoro::ui::state_label;
use pomodoro::ui::CLOCK_ROW_WIDTH;
use pomodoro::ui::DIGIT_HEIGHT;

#[test]
fn big_digits_are_five_by_five() {
    for n in 0u8..=12 {
        let rows = get_big_digit(n);
        assert_eq!(rows.len(), DIGIT_HEIGHT);
        for row in rows {
            assert_eq!(row.chars().count(), 5);
        }
    }
}

#[test]
fn big_digits_above_nine_are_blank() {
    for row in get_big_digit(10) {
        assert!(row.chars().all(|c| c == ' '));
    }
}

#[test]
fn big_digits_differ_per_digit() {
    for a in 0u8..10 {
        for b in 0u8..10 {
            if a != b {
                assert_ne!(get_big_digit(a), get_big_digit(b));
            }
        }
    }
}

#[test]
fn clock_face_shape() {
    let lines = render_big_time(25, 0);
    assert_eq!(lines.len(), DIGIT_HEIGHT);
    for line in &lines {
        assert_eq!(line.chars().count(), CLOCK_ROW_WIDTH);
    }
}

#[test]
fn clock_face_shows_the_digits() {
    // 12:34 is made of the glyph rows of 1, 2, the colon, 3 and 4.
    let lines = render_big_time(12, 34);
    let d1 = get_big_digit(1);
    let d2 = get_big_digit(2);
    let colon = ["     ", "  █  ", "     ", "  █  ", "     "];
    let d3 = get_big_digit(3);
    let d4 = get_big_digit(4);
    for row in 0..DIGIT_HEIGHT {
        let want = format!(
            "{}  {}  {}  {}  {}  ",
            d1[row], d2[row], colon[row], d3[row], d4[row]
        );
        assert_eq!(lines[row], want);
    }
}

#[test]
fn clock_face_uses_low_minute_digits() {
    // Minutes above 99 show only their two low digits.
    let big = render_big_time(125, 7);
    let small = render_big_time(25, 7);
    assert_eq!(big, small);
}

#[test]
fn state_labels() {
    assert_eq!(state_label(TimerState::Running), "Running");
    assert_eq!(state_label(TimerState::Paused), "Paused");
    assert_eq!(state_label(TimerState::Stopped), "Stopped");
}

#[test]
fn split_remaining_time() {
    assert_eq!(split_minutes_seconds(1500), (25, 0));
    assert_eq!(split_minutes_seconds(1499), (24, 59));
    assert_eq!(split_minutes_seconds(0), (0, 0));
    assert_eq!(split_minutes_seconds(59), (0, 59));
    assert_eq!(split_minutes_seconds(600), (10, 0));
}
