use valentine_card::app::{App, CurrentScreen, Heart, IntroScreenOptions, Key, Playground};
use valentine_card::ui::{
    backdrop_text, countdown, countdown_text, decimal_string, format_hms, padded_decimal,
    status_phrase,
};

fn fresh() -> App {
    App::new()
}

#[test]
fn new_initial_state() {
    let a = fresh();
    assert!(!a.exit);
    assert_eq!(a.current_screen, CurrentScreen::IntroScreen);
    assert_eq!(a.intro_screen, IntroScreenOptions::Screen1);
    assert_eq!(a.heart, Heart { x: 5, y: 5, radius: 1 });
    assert_eq!(a.playground, Playground { x: 0, y: 0, width: 200, height: 100 });
    assert_eq!(a.vx, 3);
    assert_eq!(a.vy, 3);
    assert_eq!(a.tick_count, 0);
    assert_eq!(a.offset, 0);
}

#[test]
fn defaults() {
    assert_eq!(CurrentScreen::default(), CurrentScreen::WillYouBeMyValentine);
    assert_eq!(IntroScreenOptions::default(), IntroScreenOptions::Screen1);
}

#[test]
fn pattern_offset_after_36_ticks() {
    let mut a = fresh();
    for _ in 0..36 {
        a.on_tick();
    }
    assert_eq!(a.tick_count, 36);
    assert_eq!(a.offset, 3);
}

#[test]
fn pattern_offset_tracks_tick_count() {
    let mut a = fresh();
    for _ in 0..100 {
        a.on_tick();
        assert_eq!(a.offset as u64, (a.tick_count / 12) % 4);
    }
}

#[test]
fn tick_moves_without_breach() {
    let mut a = fresh();
    a.heart = Heart { x: 10, y: 10, radius: 1 };
    a.playground = Playground { x: 0, y: 0, width: 20, height: 20 };
    a.vx = 3;
    a.vy = 0;
    a.on_tick();
    assert_eq!(a.heart.x, 13);
    assert_eq!(a.vx, 3);
}

#[test]
fn tick_reflects_horizontal() {
    let mut a = fresh();
    a.heart = Heart { x: 10, y: 10, radius: 1 };
    a.playground = Playground { x: 0, y: 0, width: 10, height: 20 };
    a.vx = 3;
    a.vy = 0;
    a.on_tick();
    assert_eq!(a.vx, -3);
    assert_eq!(a.heart.x, 7);
}

#[test]
fn tick_reflects_vertical_independently() {
    let mut a = fresh();
    a.heart = Heart { x: 10, y: 19, radius: 1 };
    a.playground = Playground { x: 0, y: 0, width: 20, height: 20 };
    a.vx = 2;
    a.vy = 5;
    a.on_tick();
    // y + radius == bottom edge: touching the edge is not yet a breach
    assert_eq!(a.vy, 5);
    assert_eq!(a.heart.y, 24);
    let mut b = fresh();
    b.heart = Heart { x: 10, y: 20, radius: 1 };
    b.playground = Playground { x: 0, y: 0, width: 20, height: 20 };
    b.vx = 2;
    b.vy = 5;
    b.on_tick();
    assert_eq!(b.vy, -5);
    assert_eq!(b.heart.y, 15);
    assert_eq!(b.vx, 2);
    assert_eq!(b.heart.x, 12);
}

#[test]
fn tick_reflects_both_axes() {
    let mut a = fresh();
    a.heart = Heart { x: 0, y: 0, radius: 1 };
    a.playground = Playground { x: 0, y: 0, width: 20, height: 20 };
    a.vx = 4;
    a.vy = 7;
    a.on_tick();
    assert_eq!(a.vx, -4);
    assert_eq!(a.vy, -7);
    assert_eq!(a.heart.x, -4);
    assert_eq!(a.heart.y, -7);
}

#[test]
fn speed_magnitude_is_preserved() {
    let mut a = fresh();
    for _ in 0..500 {
        a.on_tick();
        assert_eq!(a.vx.abs(), 3);
        assert_eq!(a.vy.abs(), 3);
    }
}

#[test]
fn intro_sequence_reaches_prompt() {
    let mut a = fresh();
    a.handle_key_event(Key::Other);
    assert_eq!(a.current_screen, CurrentScreen::IntroScreen);
    assert_eq!(a.intro_screen, IntroScreenOptions::Screen2);
    a.handle_key_event(Key::Char('x'));
    assert_eq!(a.intro_screen, IntroScreenOptions::Screen3);
    a.handle_key_event(Key::Other);
    assert_eq!(a.current_screen, CurrentScreen::WillYouBeMyValentine);
    assert_eq!(a.heart.x, 10);
    assert_eq!(a.heart.y, 10);
}

#[test]
fn yes_path_reaches_date_info() {
    let mut a = fresh();
    a.current_screen = CurrentScreen::WillYouBeMyValentine;
    a.handle_key_event(Key::Char('y'));
    assert_eq!(a.current_screen, CurrentScreen::YesValentine);
    a.handle_key_event(Key::Char('Y'));
    assert_eq!(a.current_screen, CurrentScreen::DateInfo);
    assert_eq!(a.heart.x, 10);
    a.handle_key_event(Key::Char('z'));
    assert_eq!(a.current_screen, CurrentScreen::DateInfo);
    assert!(!a.exit);
}

#[test]
fn decline_round_trip_returns_to_prompt() {
    let mut a = fresh();
    a.current_screen = CurrentScreen::WillYouBeMyValentine;
    a.handle_key_event(Key::Char('N'));
    assert_eq!(a.current_screen, CurrentScreen::NotValentine);
    a.handle_key_event(Key::Other);
    assert_eq!(a.current_screen, CurrentScreen::WillYouBeMyValentine);
    assert_eq!(a.heart.x, 10);
    assert_eq!(a.heart.y, 10);
}

#[test]
fn prompt_ignores_other_keys() {
    let mut a = fresh();
    a.current_screen = CurrentScreen::WillYouBeMyValentine;
    a.handle_key_event(Key::Char('x'));
    assert_eq!(a.current_screen, CurrentScreen::WillYouBeMyValentine);
    a.handle_key_event(Key::Other);
    assert_eq!(a.current_screen, CurrentScreen::WillYouBeMyValentine);
}

#[test]
fn accepted_ignores_other_keys_without_reposition() {
    let mut a = fresh();
    a.current_screen = CurrentScreen::YesValentine;
    let heart_before = a.heart;
    a.handle_key_event(Key::Char('x'));
    assert_eq!(a.current_screen, CurrentScreen::YesValentine);
    assert_eq!(a.heart, heart_before);
    a.handle_key_event(Key::Char('n'));
    assert_eq!(a.current_screen, CurrentScreen::WillYouBeMyValentine);
    assert_eq!(a.heart.x, 10);
}

#[test]
fn quit_sets_exit_from_every_state() {
    let screens = [
        (CurrentScreen::IntroScreen, IntroScreenOptions::Screen1),
        (CurrentScreen::IntroScreen, IntroScreenOptions::Screen2),
        (CurrentScreen::IntroScreen, IntroScreenOptions::Screen3),
        (CurrentScreen::WillYouBeMyValentine, IntroScreenOptions::Screen3),
        (CurrentScreen::NotValentine, IntroScreenOptions::Screen3),
        (CurrentScreen::YesValentine, IntroScreenOptions::Screen3),
        (CurrentScreen::DateInfo, IntroScreenOptions::Screen3),
    ];
    for (cur, intro) in screens {
        let mut a = fresh();
        a.current_screen = cur;
        a.intro_screen = intro;
        let heart_before = a.heart;
        a.handle_key_event(Key::Char('q'));
        assert!(a.exit);
        assert_eq!(a.current_screen, cur);
        assert_eq!(a.intro_screen, intro);
        assert_eq!(a.heart, heart_before);
    }
}

#[test]
fn countdown_is_zero_once_target_passed() {
    assert_eq!(countdown(100, 100), (0, 0, 0));
    assert_eq!(countdown(101, 100), (0, 0, 0));
    assert_eq!(countdown(i64::MAX, i64::MIN), (0, 0, 0));
    assert_eq!(countdown_text(100, 100), "00:00:00");
}

#[test]
fn countdown_exact_parts() {
    // 1 hour, 2 minutes, 5 seconds ahead
    assert_eq!(countdown(100, 100 + 3725), (1, 2, 5));
    // 26 hours ahead: hours are whole hours, not capped at 24
    assert_eq!(countdown(0, 26 * 3600 + 59), (26, 0, 59));
    assert_eq!(countdown_text(0, 26 * 3600 + 59), "26:00:59");
    // extremes of the clock range do not overflow
    assert_eq!(
        countdown(i64::MIN, i64::MAX).0 as u128,
        (u64::MAX as u128) / 3600
    );
}

#[test]
fn status_phrase_thresholds() {
    assert_eq!(status_phrase(-5), "Hurry up cracker!!!");
    assert_eq!(status_phrase(0), "Hurry up cracker!!!");
    assert_eq!(status_phrase(1), "");
    assert_eq!(status_phrase(2), "Date today!");
    assert_eq!(status_phrase(16), "Date today!");
    assert_eq!(status_phrase(17), "Happy Valentines Day!");
    assert_eq!(status_phrase(39), "Happy Valentines Day!");
    assert_eq!(status_phrase(40), "");
    assert_eq!(status_phrase(100), "");
}

#[test]
fn backdrop_text_matches_pattern() {
    assert_eq!(
        backdrop_text(0, true),
        "My Valentine My Lovely Lady My Love <3 ".repeat(500)
    );
    assert_eq!(backdrop_text(1, true), "My Lovely Lady My Love <3 ".repeat(500));
    assert_eq!(backdrop_text(2, true), "My Love <3 ".repeat(500));
    assert_eq!(backdrop_text(3, true), " <3 ".repeat(900));
    assert_eq!(
        backdrop_text(0, false),
        "My Valentine My Lovely Lady My Love <3 ".repeat(300)
    );
    assert_eq!(backdrop_text(1, false), "My Lovely Lady My Love <3 ".repeat(300));
    assert_eq!(backdrop_text(2, false), "My Love <3 ".repeat(300));
    assert_eq!(backdrop_text(3, false), " <3 ".repeat(500));
}

#[test]
fn decimal_formatting() {
    assert_eq!(decimal_string(0), "0");
    assert_eq!(decimal_string(7), "7");
    assert_eq!(decimal_string(42), "42");
    assert_eq!(decimal_string(1234567890), "1234567890");
    assert_eq!(padded_decimal(0), "00");
    assert_eq!(padded_decimal(9), "09");
    assert_eq!(padded_decimal(10), "10");
    assert_eq!(padded_decimal(123), "123");
    assert_eq!(format_hms(1, 2, 5), "01:02:05");
    assert_eq!(format_hms(123, 45, 6), "123:45:06");
    assert_eq!(format_hms(0, 0, 0), "00:00:00");
}
