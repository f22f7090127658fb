use clockdate::clock::{date_text, time_text, ClockSample};
use clockdate::layout::layout;
use clockdate::load_embedded_figlet_fonts;
use clockdate::render_figlet_text;
use clockdate::tick::{
    layout_plan, quit_requested, render_state_for, tick_due, tick_step, tick_timeout,
};
use clockdate::Config;
use clockdate::Rgb;

#[test]
fn time_text_is_zero_padded_24h() {
    assert_eq!(time_text(14, 5), "14:05");
    assert_eq!(time_text(0, 0), "00:00");
    assert_eq!(time_text(23, 59), "23:59");
    assert_eq!(time_text(9, 30), "09:30");
}

#[test]
fn date_text_is_zero_padded_with_four_digit_year() {
    assert_eq!(date_text(3, 11, 2024), "03.11.2024");
    assert_eq!(date_text(1, 1, 1), "01.01.0001");
    assert_eq!(date_text(31, 12, 999), "31.12.0999");
    assert_eq!(date_text(15, 6, 0), "15.06.0000");
    assert_eq!(date_text(15, 6, 12345), "15.06.12345");
}

#[test]
fn centering_example_matches_documented_value() {
    let placed = layout(133, 6, 133, 400, -65);
    assert_eq!(placed.time_x, 133);
    assert_eq!(placed.date_x, 133);
    assert_eq!(placed.time_y, 0);
    assert_eq!(placed.date_y, 6 - 65);
}

#[test]
fn centering_block_wider_than_canvas_goes_negative() {
    let placed = layout(500, 6, 10, 400, 0);
    assert_eq!(placed.time_x, -50);
    assert_eq!(placed.date_x, 195);
}

#[test]
fn end_to_end_default_configuration_scenario() {
    let (font_time, font_date) = load_embedded_figlet_fonts().unwrap();
    let cfg = Config::load_or_default(&vec![]);
    let sample = ClockSample { hour: 14, minute: 5, day: 3, month: 11, year: 2024 };
    let state = render_state_for(&font_time, &font_date, &sample);

    let expected_time = render_figlet_text(&font_time, "14:05");
    let expected_date = render_figlet_text(&font_date, "03.11.2024");
    assert_eq!(state.time_block.rows, expected_time.rows);
    assert_eq!(state.date_block.rows, expected_date.rows);

    let plan = layout_plan(&state, &cfg);
    assert_eq!(plan.date_y, state.time_block.rows.len() as i128 + (-65));
    assert_eq!(plan.time_y, 0);
    assert_eq!(plan.time_color, Rgb { r: 0, g: 0, b: 255 });
    assert_eq!(plan.date_color, Rgb { r: 64, g: 64, b: 64 });
    let w = 400i128;
    assert_eq!(plan.time_x, (w - state.time_block.width() as i128) / 2);
}

#[test]
fn tick_budget_and_due_flag() {
    assert_eq!(tick_timeout(0), 250);
    assert_eq!(tick_timeout(100), 150);
    assert_eq!(tick_timeout(249), 1);
    assert_eq!(tick_timeout(250), 0);
    assert_eq!(tick_timeout(1000), 0);
    assert!(!tick_due(0));
    assert!(!tick_due(249));
    assert!(tick_due(250));
    assert!(tick_due(251));
}

#[test]
fn tick_origin_resets_only_after_a_full_interval() {
    let (origin, fired) = tick_step(1000, 1100);
    assert!(!fired);
    assert_eq!(origin, 1000);
    let (origin, fired) = tick_step(1000, 1250);
    assert!(fired);
    assert_eq!(origin, 1250);
}

#[test]
fn only_q_quits() {
    assert!(quit_requested('q'));
    assert!(!quit_requested('Q'));
    assert!(!quit_requested(' '));
    assert!(!quit_requested('x'));
}

#[test]
fn consecutive_ticks_are_one_interval_apart() {
    let mut origin: u64 = 0;
    let mut now: u64 = 0;
    let mut last_fire: u64 = 0;
    let mut first = true;
    for _ in 0..10 {
        // A fast render leaves the whole budget to the wait.
        now += tick_timeout(now - origin);
        let (new_origin, fired) = tick_step(origin, now);
        assert!(fired);
        if !first {
            assert_eq!(now - last_fire, 250);
        }
        first = false;
        last_fire = now;
        origin = new_origin;
    }
}
