use copywave::progress::{cycle_color, frame_plan, percent_color, percent_of,
    reporter_should_continue, tick_interval_ms, wave_color_index, GlowColor, ProgressState};
use copywave::textfmt::{counter_text, format_elapsed, u64_to_dec};

#[test]
fn percentage_is_completed_over_total() {
    assert_eq!(percent_of(0, 0), 0);
    assert_eq!(percent_of(0, 5), 0);
    assert_eq!(percent_of(1, 2), 50);
    assert_eq!(percent_of(2, 3), 66);
    assert_eq!(percent_of(7, 7), 100);
    assert_eq!(percent_of(usize::MAX - 1, usize::MAX), 99);
}

#[test]
fn percent_colors_follow_the_bands() {
    assert_eq!(percent_color(0), GlowColor::Red);
    assert_eq!(percent_color(20), GlowColor::Red);
    assert_eq!(percent_color(21), GlowColor::Yellow);
    assert_eq!(percent_color(40), GlowColor::Yellow);
    assert_eq!(percent_color(41), GlowColor::Green);
    assert_eq!(percent_color(60), GlowColor::Green);
    assert_eq!(percent_color(61), GlowColor::Cyan);
    assert_eq!(percent_color(80), GlowColor::Cyan);
    assert_eq!(percent_color(81), GlowColor::Magenta);
    assert_eq!(percent_color(100), GlowColor::Magenta);
    assert_eq!(percent_color(101), GlowColor::White);
}

#[test]
fn color_cycle_runs_through_six_colors() {
    assert_eq!(cycle_color(0), GlowColor::Red);
    assert_eq!(cycle_color(1), GlowColor::Yellow);
    assert_eq!(cycle_color(2), GlowColor::Green);
    assert_eq!(cycle_color(3), GlowColor::Cyan);
    assert_eq!(cycle_color(4), GlowColor::Blue);
    assert_eq!(cycle_color(5), GlowColor::Magenta);
}

#[test]
fn frame_choices_are_deterministic_in_the_frame_number() {
    let fp = frame_plan(0);
    assert_eq!(fp.spinner_index, 0);
    assert!(fp.bracket_open);
    assert_eq!(fp.bracket_color, 0);
    assert!(fp.rocket);

    let fp = frame_plan(17);
    assert_eq!(fp.spinner_index, 7);
    assert!(!fp.bracket_open);
    assert_eq!(fp.bracket_color, 5);
    assert!(!fp.rocket);

    let fp = frame_plan(25);
    assert_eq!(fp.spinner_index, 5);
    assert!(!fp.bracket_open);
    assert_eq!(fp.bracket_color, 1);
    assert!(fp.rocket);
}

#[test]
fn wave_color_shifts_per_cell_and_every_other_frame() {
    assert_eq!(wave_color_index(0, 0), 0);
    assert_eq!(wave_color_index(0, 7), 1);
    assert_eq!(wave_color_index(10, 3), 2);
}

#[test]
fn low_animation_uses_a_coarser_cadence() {
    assert_eq!(tick_interval_ms(false), 100);
    assert_eq!(tick_interval_ms(true), 200);
}

#[test]
fn reporter_stops_on_request_and_on_its_own_at_the_end() {
    assert!(reporter_should_continue(false, 0, 3));
    assert!(reporter_should_continue(false, 2, 3));
    assert!(!reporter_should_continue(true, 2, 3));
    assert!(!reporter_should_continue(false, 3, 3));
    assert!(!reporter_should_continue(false, 0, 0));
}

#[test]
fn progress_state_counts_one_increment_per_file() {
    let mut st = ProgressState::new(2);
    assert_eq!(st.completed(), 0);
    assert_eq!(st.total(), 2);
    assert_eq!(st.percent(), 0);
    st.increment();
    assert_eq!(st.completed(), 1);
    assert_eq!(st.percent(), 50);
    st.increment();
    assert_eq!(st.completed(), 2);
    assert_eq!(st.percent(), 100);
}

#[test]
fn numerals_render_most_significant_digit_first() {
    assert_eq!(u64_to_dec(0), "0");
    assert_eq!(u64_to_dec(7), "7");
    assert_eq!(u64_to_dec(42), "42");
    assert_eq!(u64_to_dec(1000), "1000");
    assert_eq!(u64_to_dec(18446744073709551615), "18446744073709551615");
}

#[test]
fn elapsed_time_shows_two_centisecond_digits() {
    assert_eq!(format_elapsed(0), "0.00");
    assert_eq!(format_elapsed(999), "0.99");
    assert_eq!(format_elapsed(1007), "1.00");
    assert_eq!(format_elapsed(12345), "12.34");
    assert_eq!(format_elapsed(12050), "12.05");
}

#[test]
fn counter_shows_completed_over_total() {
    assert_eq!(counter_text(3, 7), "3/7");
    assert_eq!(counter_text(0, 0), "0/0");
}
