//! Gentle logging ("telling") and terminal styling: ANSI styles and 24-bit
//! colours around a piece of text, the decision whether a told message is
//! also printed, and the lines printed.

use vstd::prelude::*;
use vstd::string::*;
use crate::config::Logging;
use crate::text::{push_char, concat2};

verus! {

/// The ASCII digit for `d`.
pub open spec fn digit_char(d: int) -> char {
    (d + 48) as char
}

/// The decimal representation of `n`.
pub open spec fn decimal(n: nat) -> Seq<char>
    decreases n,
{
    if n < 10 {
        seq![digit_char(n as int)]
    } else {
        decimal(n / 10).push(digit_char((n % 10) as int))
    }
}

/// The decimal representation of `n`.
pub fn decimal_string(n: u64) -> (r: String)
    ensures
        r@ == decimal(n as nat),
    decreases n,
{
    let d = (n % 10) as u8;
    let c = (d + 48) as char;
    if n < 10 {
        let mut s = String::new();
        push_char(&mut s, c);
        assert(s@ =~= seq![digit_char(n as int)]);
        s
    } else {
        let mut s = decimal_string(n / 10);
        push_char(&mut s, c);
        s
    }
}

/// The escape that starts an SGR sequence, with its code.
pub open spec fn sgr(code: Seq<char>) -> Seq<char> {
    seq!['\u{1b}', '['] + code + seq!['m']
}

/// Text in an SGR style, reset afterwards.
pub open spec fn styled(code: Seq<char>, text: Seq<char>) -> Seq<char> {
    sgr(code) + text + sgr(seq!['0'])
}

/// Text in a 24-bit foreground colour, reset afterwards.
pub open spec fn colored(r: u32, g: u32, b: u32, text: Seq<char>) -> Seq<char> {
    styled(
        "38;2;"@ + decimal(r as nat) + ";"@ + decimal(g as nat) + ";"@ + decimal(b as nat),
        text,
    )
}

/// Wraps `text` in the SGR style `code`.
pub fn style_text(code: &str, text: &str) -> (r: String)
    ensures
        r@ == styled(code@, text@),
{
    let mut r = String::new();
    push_char(&mut r, '\u{1b}');
    push_char(&mut r, '[');
    r.append(code);
    push_char(&mut r, 'm');
    r.append(text);
    push_char(&mut r, '\u{1b}');
    push_char(&mut r, '[');
    push_char(&mut r, '0');
    push_char(&mut r, 'm');
    assert(r@ =~= styled(code@, text@));
    r
}

/// Wraps `text` in a 24-bit foreground colour.
pub fn rgb_text(text: &str, r: u32, g: u32, b: u32) -> (out: String)
    ensures
        out@ == colored(r, g, b, text@),
{
    let mut code = String::from_str("38;2;");
    let rs = decimal_string(r as u64);
    code.append(rs.as_str());
    code.append(";");
    let gs = decimal_string(g as u64);
    code.append(gs.as_str());
    code.append(";");
    let bs = decimal_string(b as u64);
    code.append(bs.as_str());
    style_text(code.as_str(), text)
}

/// Styles a message is shown in.
pub trait CynthiaStyles {
    fn style_bold(self) -> String;

    fn style_italic(self) -> String;

    fn style_underline(self) -> String;

    fn style_strikethrough(self) -> String;

    fn style_dim(self) -> String;

    fn style_blink(self) -> String;

    fn style_reverse(self) -> String;

    fn style_clear(self) -> String;
}

impl CynthiaStyles for &str {
    fn style_bold(self) -> (r: String)
        ensures
            r@ == styled("1"@, self@),
    {
        style_text("1", self)
    }

    fn style_italic(self) -> (r: String)
        ensures
            r@ == styled("3"@, self@),
    {
        style_text("3", self)
    }

    fn style_underline(self) -> (r: String)
        ensures
            r@ == styled("4"@, self@),
    {
        style_text("4", self)
    }

    fn style_strikethrough(self) -> (r: String)
        ensures
            r@ == styled("9"@, self@),
    {
        style_text("9", self)
    }

    fn style_dim(self) -> (r: String)
        ensures
            r@ == styled("2"@, self@),
    {
        style_text("2", self)
    }

    fn style_blink(self) -> (r: String)
        ensures
            r@ == styled("5"@, self@),
    {
        style_text("5", self)
    }

    fn style_reverse(self) -> (r: String)
        ensures
            r@ == styled("7"@, self@),
    {
        style_text("7", self)
    }

    fn style_clear(self) -> (r: String)
        ensures
            r@ == styled("0"@, self@),
    {
        style_text("0", self)
    }
}

impl CynthiaStyles for String {
    fn style_bold(self) -> (r: String)
        ensures
            r@ == styled("1"@, self@),
    {
        style_text("1", self.as_str())
    }

    fn style_italic(self) -> (r: String)
        ensures
            r@ == styled("3"@, self@),
    {
        style_text("3", self.as_str())
    }

    fn style_underline(self) -> (r: String)
        ensures
            r@ == styled("4"@, self@),
    {
        style_text("4", self.as_str())
    }

    fn style_strikethrough(self) -> (r: String)
        ensures
            r@ == styled("9"@, self@),
    {
        style_text("9", self.as_str())
    }

    fn style_dim(self) -> (r: String)
        ensures
            r@ == styled("2"@, self@),
    {
        style_text("2", self.as_str())
    }

    fn style_blink(self) -> (r: String)
        ensures
            r@ == styled("5"@, self@),
    {
        style_text("5", self.as_str())
    }

    fn style_reverse(self) -> (r: String)
        ensures
            r@ == styled("7"@, self@),
    {
        style_text("7", self.as_str())
    }

    fn style_clear(self) -> (r: String)
        ensures
            r@ == styled("0"@, self@),
    {
        style_text("0", self.as_str())
    }
}

/// Named 24-bit foreground colours for terminal text.
pub trait CynthiaColors {
    fn by_rgb(self, r: u32, g: u32, b: u32) -> String;

    fn color_green(self) -> String;

    fn color_ok_green(self) -> String;

    fn color_lime(self) -> String;

    fn color_red(self) -> String;

    fn color_error_red(self) -> String;

    fn color_bright_red(self) -> String;

    fn color_black(self) -> String;

    fn color_bright_black(self) -> String;

    fn color_white(self) -> String;

    fn color_bright_white(self) -> String;

    fn color_yellow(self) -> String;

    fn color_bright_yellow(self) -> String;

    fn color_cyan(self) -> String;

    fn color_bright_cyan(self) -> String;

    fn color_magenta(self) -> String;

    fn color_pink(self) -> String;

    fn color_blue(self) -> String;

    fn color_lightblue(self) -> String;

    fn color_orange(self) -> String;

    fn color_bright_orange(self) -> String;

    fn color_purple(self) -> String;

    fn color_lilac(self) -> String;
}

impl CynthiaColors for &str {
    fn by_rgb(self, r: u32, g: u32, b: u32) -> (out: String)
        ensures
            out@ == colored(r, g, b, self@),
    {
        rgb_text(self, r, g, b)
    }

    fn color_green(self) -> (out: String)
        ensures
            out@ == colored(0, 255, 0, self@),
    {
        rgb_text(self, 0, 255, 0)
    }

    fn color_ok_green(self) -> (out: String)
        ensures
            out@ == colored(116, 204, 140, self@),
    {
        rgb_text(self, 116, 204, 140)
    }

    fn color_lime(self) -> (out: String)
        ensures
            out@ == colored(66, 245, 78, self@),
    {
        rgb_text(self, 66, 245, 78)
    }

    fn color_red(self) -> (out: String)
        ensures
            out@ == colored(255, 0, 0, self@),
    {
        rgb_text(self, 255, 0, 0)
    }

    fn color_error_red(self) -> (out: String)
        ensures
            out@ == colored(184, 28, 74, self@),
    {
        rgb_text(self, 184, 28, 74)
    }

    fn color_bright_red(self) -> (out: String)
        ensures
            out@ == colored(237, 68, 62, self@),
    {
        rgb_text(self, 237, 68, 62)
    }

    fn color_black(self) -> (out: String)
        ensures
            out@ == colored(41, 40, 40, self@),
    {
        rgb_text(self, 41, 40, 40)
    }

    fn color_bright_black(self) -> (out: String)
        ensures
            out@ == colored(0, 0, 0, self@),
    {
        rgb_text(self, 0, 0, 0)
    }

    fn color_white(self) -> (out: String)
        ensures
            out@ == colored(240, 240, 240, self@),
    {
        rgb_text(self, 240, 240, 240)
    }

    fn color_bright_white(self) -> (out: String)
        ensures
            out@ == colored(255, 255, 255, self@),
    {
        rgb_text(self, 255, 255, 255)
    }

    fn color_yellow(self) -> (out: String)
        ensures
            out@ == colored(243, 201, 35, self@),
    {
        rgb_text(self, 243, 201, 35)
    }

    fn color_bright_yellow(self) -> (out: String)
        ensures
            out@ == colored(255, 234, 150, self@),
    {
        rgb_text(self, 255, 234, 150)
    }

    fn color_cyan(self) -> (out: String)
        ensures
            out@ == colored(16, 227, 227, self@),
    {
        rgb_text(self, 16, 227, 227)
    }

    fn color_bright_cyan(self) -> (out: String)
        ensures
            out@ == colored(0, 255, 255, self@),
    {
        rgb_text(self, 0, 255, 255)
    }

    fn color_magenta(self) -> (out: String)
        ensures
            out@ == colored(255, 0, 255, self@),
    {
        rgb_text(self, 255, 0, 255)
    }

    fn color_pink(self) -> (out: String)
        ensures
            out@ == colored(243, 154, 245, self@),
    {
        rgb_text(self, 243, 154, 245)
    }

    fn color_blue(self) -> (out: String)
        ensures
            out@ == colored(0, 0, 255, self@),
    {
        rgb_text(self, 0, 0, 255)
    }

    fn color_lightblue(self) -> (out: String)
        ensures
            out@ == colored(145, 220, 255, self@),
    {
        rgb_text(self, 145, 220, 255)
    }

    fn color_orange(self) -> (out: String)
        ensures
            out@ == colored(255, 165, 0, self@),
    {
        rgb_text(self, 255, 165, 0)
    }

    fn color_bright_orange(self) -> (out: String)
        ensures
            out@ == colored(255, 157, 0, self@),
    {
        rgb_text(self, 255, 157, 0)
    }

    fn color_purple(self) -> (out: String)
        ensures
            out@ == colored(97, 18, 181, self@),
    {
        rgb_text(self, 97, 18, 181)
    }

    fn color_lilac(self) -> (out: String)
        ensures
            out@ == colored(200, 162, 200, self@),
    {
        rgb_text(self, 200, 162, 200)
    }
}

impl CynthiaColors for String {
    fn by_rgb(self, r: u32, g: u32, b: u32) -> (out: String)
        ensures
            out@ == colored(r, g, b, self@),
    {
        rgb_text(self.as_str(), r, g, b)
    }

    fn color_green(self) -> (out: String)
        ensures
            out@ == colored(0, 255, 0, self@),
    {
        rgb_text(self.as_str(), 0, 255, 0)
    }

    fn color_ok_green(self) -> (out: String)
        ensures
            out@ == colored(116, 204, 140, self@),
    {
        rgb_text(self.as_str(), 116, 204, 140)
    }

    fn color_lime(self) -> (out: String)
        ensures
            out@ == colored(66, 245, 78, self@),
    {
        rgb_text(self.as_str(), 66, 245, 78)
    }

    fn color_red(self) -> (out: String)
        ensures
            out@ == colored(255, 0, 0, self@),
    {
        rgb_text(self.as_str(), 255, 0, 0)
    }

    fn color_error_red(self) -> (out: String)
        ensures
            out@ == colored(184, 28, 74, self@),
    {
        rgb_text(self.as_str(), 184, 28, 74)
    }

    fn color_bright_red(self) -> (out: String)
        ensures
            out@ == colored(237, 68, 62, self@),
    {
        rgb_text(self.as_str(), 237, 68, 62)
    }

    fn color_black(self) -> (out: String)
        ensures
            out@ == colored(41, 40, 40, self@),
    {
        rgb_text(self.as_str(), 41, 40, 40)
    }

    fn color_bright_black(self) -> (out: String)
        ensures
            out@ == colored(0, 0, 0, self@),
    {
        rgb_text(self.as_str(), 0, 0, 0)
    }

    fn color_white(self) -> (out: String)
        ensures
            out@ == colored(240, 240, 240, self@),
    {
        rgb_text(self.as_str(), 240, 240, 240)
    }

    fn color_bright_white(self) -> (out: String)
        ensures
            out@ == colored(255, 255, 255, self@),
    {
        rgb_text(self.as_str(), 255, 255, 255)
    }

    fn color_yellow(self) -> (out: String)
        ensures
            out@ == colored(243, 201, 35, self@),
    {
        rgb_text(self.as_str(), 243, 201, 35)
    }

    fn color_bright_yellow(self) -> (out: String)
        ensures
            out@ == colored(255, 234, 150, self@),
    {
        rgb_text(self.as_str(), 255, 234, 150)
    }

    fn color_cyan(self) -> (out: String)
        ensures
            out@ == colored(16, 227, 227, self@),
    {
        rgb_text(self.as_str(), 16, 227, 227)
    }

    fn color_bright_cyan(self) -> (out: String)
        ensures
            out@ == colored(0, 255, 255, self@),
    {
        rgb_text(self.as_str(), 0, 255, 255)
    }

    fn color_magenta(self) -> (out: String)
        ensures
            out@ == colored(255, 0, 255, self@),
    {
        rgb_text(self.as_str(), 255, 0, 255)
    }

    fn color_pink(self) -> (out: String)
        ensures
            out@ == colored(243, 154, 245, self@),
    {
        rgb_text(self.as_str(), 243, 154, 245)
    }

    fn color_blue(self) -> (out: String)
        ensures
            out@ == colored(0, 0, 255, self@),
    {
        rgb_text(self.as_str(), 0, 0, 255)
    }

    fn color_lightblue(self) -> (out: String)
        ensures
            out@ == colored(145, 220, 255, self@),
    {
        rgb_text(self.as_str(), 145, 220, 255)
    }

    fn color_orange(self) -> (out: String)
        ensures
            out@ == colored(255, 165, 0, self@),
    {
        rgb_text(self.as_str(), 255, 165, 0)
    }

    fn color_bright_orange(self) -> (out: String)
        ensures
            out@ == colored(255, 157, 0, self@),
    {
        rgb_text(self.as_str(), 255, 157, 0)
    }

    fn color_purple(self) -> (out: String)
        ensures
            out@ == colored(97, 18, 181, self@),
    {
        rgb_text(self.as_str(), 97, 18, 181)
    }

    fn color_lilac(self) -> (out: String)
        ensures
            out@ == colored(200, 162, 200, self@),
    {
        rgb_text(self.as_str(), 200, 162, 200)
    }
}

/// Whether a told message is also printed on the terminal (besides being
/// logged as info): always without a logging section or without a terminal
/// level; with a terminal level, only at level 2.
pub open spec fn tell_prints_spec(logs: Option<Logging>) -> bool {
    match logs {
        None => true,
        Some(l) => match l.term_loglevel {
            None => true,
            Some(s) => !(s >= 3 || s <= 1),
        },
    }
}

/// Whether a told message is also printed on the terminal.
pub fn tell_prints(logs: &Option<Logging>) -> (r: bool)
    ensures
        r == tell_prints_spec(*logs),
{
    match logs {
        None => true,
        Some(l) => match l.term_loglevel {
            None => true,
            Some(s) => !(s >= 3 || s <= 1),
        },
    }
}

/// The printed line of a told message: the time, a magenta `[LOG] ` tag and
/// the message, separated by spaces.
pub open spec fn tell_line(times: Seq<char>, msg: Seq<char>) -> Seq<char> {
    times + " "@ + colored(255, 0, 255, "[LOG] "@) + " "@ + msg
}

/// The printed line of a told message, for the time `times` (formatted
/// `hour:minute:second`).
pub fn format_tell(times: &str, msg: &str) -> (r: String)
    ensures
        r@ == tell_line(times@, msg@),
{
    let tag = "[LOG] ".color_magenta();
    let mut r = times.to_owned();
    r.append(" ");
    r.append(tag.as_str());
    r.append(" ");
    r.append(msg);
    r
}

/// A horizontal line of `cols` box-drawing characters, as wide as a terminal
/// of `cols` columns.
pub fn horizline_of(cols: u16) -> (r: String)
    ensures
        r@ == Seq::new(cols as nat, |i: int| '\u{2500}'),
{
    let mut r = String::new();
    let mut i: u16 = 0;
    while i < cols
        invariant
            i <= cols,
            r@ == Seq::new(i as nat, |k: int| '\u{2500}'),
        decreases cols - i,
    {
        push_char(&mut r, '\u{2500}');
        i = i + 1;
        assert(r@ =~= Seq::new(i as nat, |k: int| '\u{2500}'));
    }
    r
}

} // verus!
