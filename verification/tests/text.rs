use floating_windows::decimal::{push_decimal, push_digits};
use floating_windows::greeting::greet;
use floating_windows::host::{floating_panel_options, panel_announcement};
use floating_windows::ident::{fresh_window_id, window_id};

fn decimal(n: i64) -> String {
    let mut text = String::new();
    push_decimal(&mut text, n);
    text
}

#[test]
fn greet_wraps_the_name() {
    assert_eq!(greet("Ada"), "Hello, Ada! You've been greeted from Rust!");
    assert_eq!(greet(""), "Hello, ! You've been greeted from Rust!");
    assert_eq!(greet("{}"), "Hello, {}! You've been greeted from Rust!");
}

#[test]
fn decimal_of_small_numbers() {
    assert_eq!(decimal(0), "0");
    assert_eq!(decimal(7), "7");
    assert_eq!(decimal(9), "9");
    assert_eq!(decimal(10), "10");
    assert_eq!(decimal(1234567890), "1234567890");
    assert_eq!(decimal(-1), "-1");
    assert_eq!(decimal(-10), "-10");
    assert_eq!(decimal(-905), "-905");
}

#[test]
fn decimal_at_the_ends_of_the_range() {
    assert_eq!(decimal(i64::MAX), "9223372036854775807");
    assert_eq!(decimal(i64::MIN), "-9223372036854775808");
    assert_eq!(decimal(i64::MIN + 1), "-9223372036854775807");
}

#[test]
fn decimal_agrees_with_the_standard_formatting() {
    let mut n: i64 = 1;
    for _ in 0..62 {
        for probe in [n - 1, n, n + 1, -n, -n - 1, 1 - n] {
            assert_eq!(decimal(probe), format!("{}", probe));
        }
        n *= 2;
    }
}

#[test]
fn digits_go_behind_what_is_there() {
    let mut text = "x=".to_string();
    push_digits(&mut text, 1005);
    assert_eq!(text, "x=1005");
    push_digits(&mut text, 0);
    assert_eq!(text, "x=10050");
    push_digits(&mut text, u64::MAX);
    assert_eq!(text, "x=1005018446744073709551615");
    push_decimal(&mut text, -3);
    assert_eq!(text, "x=1005018446744073709551615-3");
}

#[test]
fn window_id_is_the_prefix_and_the_time() {
    assert_eq!(window_id(1_700_000_000_000), "floating-1700000000000");
    assert_eq!(window_id(0), "floating-0");
    assert_eq!(window_id(-1), "floating--1");
    assert_eq!(window_id(1_722_000_123_456), format!("floating-{}", 1_722_000_123_456_i64));
}

#[test]
fn fresh_window_id_is_made_from_its_time() {
    let (millis, id) = fresh_window_id();
    assert!(millis > 0);
    assert_eq!(id, format!("floating-{}", millis));
    let (later, _) = fresh_window_id();
    assert!(later > 0);
}

#[test]
fn panel_settings() {
    let options = floating_panel_options();
    assert_eq!(options.url, "index.html");
    assert_eq!(options.title, "Floating Panel");
    assert_eq!((options.width, options.height), (400, 300));
    assert_eq!((options.x, options.y), (100, 100));
    assert!(options.resizable);
    assert!(options.decorations);
    assert!(options.always_on_top);
    assert!(!options.skip_taskbar);
}

#[test]
fn panel_announcement_names_the_role() {
    let announcement = panel_announcement();
    assert_eq!(announcement.event, "window-type");
    assert_eq!(announcement.payload, "floating-panel");
}

#[test]
fn window_ids_differ_exactly_where_the_times_differ() {
    assert_eq!(window_id(1_700_000_000_000), window_id(1_700_000_000_000));
    assert_ne!(window_id(1_700_000_000_000), window_id(1_700_000_000_001));
    assert_ne!(window_id(1), window_id(-1));
    assert_ne!(window_id(1), window_id(10));
    assert_ne!(window_id(12), window_id(21));
}
