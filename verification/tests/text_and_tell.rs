use cynthiaweb::tell::{
    decimal_string, format_tell, horizline_of, rgb_text, style_text, tell_prints, CynthiaColors,
    CynthiaStyles,
};
use cynthiaweb::text::{concat2, concat3, replace_str, str_contains, str_eq, str_starts_with};
use cynthiaweb::config::Logging;

#[test]
fn replace_is_left_to_right_and_non_overlapping() {
    assert_eq!(replace_str("aaa", "aa", "b"), "ba");
    assert_eq!(replace_str("a-b-c", "-", "+"), "a+b+c");
    assert_eq!(replace_str("abc", "x", "y"), "abc");
    assert_eq!(replace_str("", "x", "y"), "");
}

#[test]
fn small_string_helpers() {
    assert!(str_eq("abc", "abc"));
    assert!(!str_eq("abc", "abd"));
    assert!(str_contains("hello world", "o w"));
    assert!(!str_contains("hello", "hello!"));
    assert!(str_contains("x", ""));
    assert!(str_starts_with("parse: x", "parse: "));
    assert!(!str_starts_with("pars", "parse"));
    assert_eq!(concat2("a", "b"), "ab");
    assert_eq!(concat3("a", "b", "c"), "abc");
}

#[test]
fn decimal_numbers() {
    assert_eq!(decimal_string(0), "0");
    assert_eq!(decimal_string(7), "7");
    assert_eq!(decimal_string(1200), "1200");
    assert_eq!(decimal_string(u64::MAX), "18446744073709551615");
}

#[test]
fn styles_wrap_in_sgr_codes() {
    assert_eq!("x".style_bold(), "\u{1b}[1mx\u{1b}[0m");
    assert_eq!("x".to_string().style_italic(), "\u{1b}[3mx\u{1b}[0m");
    assert_eq!("x".style_underline(), "\u{1b}[4mx\u{1b}[0m");
    assert_eq!("x".style_strikethrough(), "\u{1b}[9mx\u{1b}[0m");
    assert_eq!("x".style_dim(), "\u{1b}[2mx\u{1b}[0m");
    assert_eq!("x".style_blink(), "\u{1b}[5mx\u{1b}[0m");
    assert_eq!("x".style_reverse(), "\u{1b}[7mx\u{1b}[0m");
    assert_eq!("x".style_clear(), "\u{1b}[0mx\u{1b}[0m");
    assert_eq!(style_text("1", "y"), "\u{1b}[1my\u{1b}[0m");
}

#[test]
fn colors_are_24_bit_foregrounds() {
    assert_eq!("hi".by_rgb(1, 2, 3), "\x1b[38;2;1;2;3mhi\x1b[0m");
    assert_eq!(rgb_text("hi", 10, 20, 30), "\x1b[38;2;10;20;30mhi\x1b[0m");
    assert_eq!("ok".color_green(), "\x1b[38;2;0;255;0mok\x1b[0m");
    assert_eq!("ok".color_ok_green(), "\x1b[38;2;116;204;140mok\x1b[0m");
    assert_eq!("a".color_lime(), "\x1b[38;2;66;245;78ma\x1b[0m");
    assert_eq!("a".color_red(), "\x1b[38;2;255;0;0ma\x1b[0m");
    assert_eq!("a".color_error_red(), "\x1b[38;2;184;28;74ma\x1b[0m");
    assert_eq!("a".color_bright_red(), "\x1b[38;2;237;68;62ma\x1b[0m");
    assert_eq!("a".color_black(), "\x1b[38;2;41;40;40ma\x1b[0m");
    assert_eq!("a".color_bright_black(), "\x1b[38;2;0;0;0ma\x1b[0m");
    assert_eq!("a".color_white(), "\x1b[38;2;240;240;240ma\x1b[0m");
    assert_eq!("a".color_bright_white(), "\x1b[38;2;255;255;255ma\x1b[0m");
    assert_eq!("a".color_yellow(), "\x1b[38;2;243;201;35ma\x1b[0m");
    assert_eq!("a".color_bright_yellow(), "\x1b[38;2;255;234;150ma\x1b[0m");
    assert_eq!("a".color_cyan(), "\x1b[38;2;16;227;227ma\x1b[0m");
    assert_eq!("a".color_bright_cyan(), "\x1b[38;2;0;255;255ma\x1b[0m");
    assert_eq!("a".color_magenta(), "\x1b[38;2;255;0;255ma\x1b[0m");
    assert_eq!("a".color_pink(), "\x1b[38;2;243;154;245ma\x1b[0m");
    assert_eq!("a".color_blue(), "\x1b[38;2;0;0;255ma\x1b[0m");
    assert_eq!("a".color_lightblue(), "\x1b[38;2;145;220;255ma\x1b[0m");
    assert_eq!("a".color_orange(), "\x1b[38;2;255;165;0ma\x1b[0m");
    assert_eq!("a".color_bright_orange(), "\x1b[38;2;255;157;0ma\x1b[0m");
    assert_eq!("a".color_purple(), "\x1b[38;2;97;18;181ma\x1b[0m");
    assert_eq!("a".color_lilac(), "\x1b[38;2;200;162;200ma\x1b[0m");
    assert_eq!("a".to_string().color_lilac(), "a".color_lilac());
}

#[test]
fn told_messages_print_only_at_terminal_level_two() {
    assert!(tell_prints(&None));
    let at = |l: Option<u16>| Some(Logging { file_loglevel: None, term_loglevel: l, logfile: None });
    assert!(tell_prints(&at(None)));
    assert!(tell_prints(&at(Some(2))));
    assert!(!tell_prints(&at(Some(1))));
    assert!(!tell_prints(&at(Some(3))));
    assert!(!tell_prints(&at(Some(0))));
}

#[test]
fn told_line_layout() {
    assert_eq!(
        format_tell("12:00:01", "hello"),
        format!("12:00:01 {} hello", "[LOG] ".color_magenta())
    );
}

#[test]
fn horizontal_line_is_as_wide_as_asked() {
    assert_eq!(horizline_of(3), "───");
    assert_eq!(horizline_of(0), "");
}
