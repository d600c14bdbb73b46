//! Reading the text of a JSON string literal back, as the JSON grammar
//! defines it (RFC 8259, section 7), and the law that what the page-meta
//! escaper writes reads back as the text it was given.

use vstd::prelude::*;
use vstd::string::*;
use crate::contentservers::{hex4, hex_digit, json_char, json_escaped};

verus! {

/// The value of a hexadecimal digit (either case), if it is one.
pub open spec fn hex_value(c: char) -> Option<int> {
    let n = c as u32;
    if 48 <= n <= 57 {
        Some(n - 48)
    } else if 65 <= n <= 70 {
        Some(n - 55)
    } else if 97 <= n <= 102 {
        Some(n - 87)
    } else {
        None
    }
}

/// The number written by four hexadecimal digits, if they are.
pub open spec fn hex4_value(d: Seq<char>) -> Option<int> {
    if d.len() == 4 && hex_value(d[0]) is Some && hex_value(d[1]) is Some && hex_value(d[2]) is Some
        && hex_value(d[3]) is Some {
        Some(
            hex_value(d[0])->0 * 4096 + hex_value(d[1])->0 * 256 + hex_value(d[2])->0 * 16
                + hex_value(d[3])->0,
        )
    } else {
        None
    }
}

/// `c` put in front of a read text, where there is one.
pub open spec fn prepend(c: char, r: Option<Seq<char>>) -> Option<Seq<char>> {
    match r {
        Some(d) => Some(seq![c] + d),
        None => None,
    }
}

/// The character a two-character escape `\e` stands for, if `e` is one.
pub open spec fn short_escape(e: char) -> Option<char> {
    if e == '"' {
        Some('"')
    } else if e == '\\' {
        Some('\\')
    } else if e == '/' {
        Some('/')
    } else if e == 'b' {
        Some('\x08')
    } else if e == 'f' {
        Some('\x0c')
    } else if e == 'n' {
        Some('\n')
    } else if e == 'r' {
        Some('\r')
    } else if e == 't' {
        Some('\t')
    } else {
        None
    }
}

/// The text that the inside of a JSON string literal stands for: unescaped
/// characters stand for themselves (a quote or a control character may not
/// stand unescaped), `\` and one of `"\/bfnrt` for the character it names,
/// `\u` and four hex digits for that code unit, a high surrogate taking the
/// low surrogate escaped right after it. `None` where `t` is not such text.
pub open spec fn json_unescape(t: Seq<char>) -> Option<Seq<char>>
    decreases t.len(),
{
    if t.len() == 0 {
        Some(Seq::empty())
    } else if t[0] == '\\' {
        if t.len() < 2 {
            None
        } else if short_escape(t[1]) is Some {
            prepend(short_escape(t[1])->0, json_unescape(t.skip(2)))
        } else if t[1] == 'u' && t.len() >= 6 && hex4_value(t.subrange(2, 6)) is Some {
            let u = hex4_value(t.subrange(2, 6))->0;
            if 0xD800 <= u < 0xDC00 {
                if t.len() >= 12 && t[6] == '\\' && t[7] == 'u' && hex4_value(t.subrange(8, 12)) is Some
                    && 0xDC00 <= hex4_value(t.subrange(8, 12))->0 < 0xE000 {
                    let l = hex4_value(t.subrange(8, 12))->0;
                    prepend(
                        ((0x10000 + (u - 0xD800) * 1024 + (l - 0xDC00)) as u32) as char,
                        json_unescape(t.skip(12)),
                    )
                } else {
                    None
                }
            } else if 0xDC00 <= u < 0xE000 {
                None
            } else {
                prepend((u as u32) as char, json_unescape(t.skip(6)))
            }
        } else {
            None
        }
    } else if t[0] == '"' || (t[0] as u32) < 0x20 {
        None
    } else {
        prepend(t[0], json_unescape(t.skip(1)))
    }
}

/// The text a JSON string literal stands for: the reading of what lies
/// between its quotes.
pub open spec fn json_string_value(lit: Seq<char>) -> Option<Seq<char>> {
    if lit.len() >= 2 && lit[0] == '"' && lit[lit.len() - 1] == '"' {
        json_unescape(lit.subrange(1, lit.len() - 1))
    } else {
        None
    }
}

proof fn lemma_hex_digit_value(d: int)
    requires
        0 <= d < 16,
    ensures
        hex_value(hex_digit(d)) == Some(d),
{
}

proof fn lemma_hex4_value(u: int)
    requires
        0 <= u < 65536,
    ensures
        hex4_value(hex4(u)) == Some(u),
{
    let a = u / 4096;
    let b = (u / 256) % 16;
    let c = (u / 16) % 16;
    let d = u % 16;
    assert(0 <= a < 16);
    assert(a % 16 == a);
    lemma_hex_digit_value(a);
    lemma_hex_digit_value(b);
    lemma_hex_digit_value(c);
    lemma_hex_digit_value(d);
    assert(u == a * 4096 + b * 256 + c * 16 + d) by (nonlinear_arith)
        requires
            0 <= u < 65536,
            a == u / 4096,
            b == (u / 256) % 16,
            c == (u / 16) % 16,
            d == u % 16,
    ;
}

/// The escaped form of `c` at the front of `rest` reads back as `c` in
/// front of what `rest` reads as (`c` not a backslash, which the escaper
/// writes as a lone backslash).
proof fn lemma_unescape_char(c: char, rest: Seq<char>)
    requires
        c != '\\',
    ensures
        json_unescape(json_char(c) + rest) == prepend(c, json_unescape(rest)),
{
    reveal_strlit("\\b");
    reveal_strlit("\\f");
    reveal_strlit("\\n");
    reveal_strlit("\\r");
    reveal_strlit("\\t");
    reveal_strlit("\\\"");
    reveal_strlit("\\u");
    vstd::utf8::char_is_scalar(c);
    let n = (c as u32) as int;
    let e = json_char(c);
    let t = e + rest;
    if c == '\x08' || c == '\x0c' || c == '\n' || c == '\r' || c == '\t' || c == '"' {
        assert(e.len() == 2);
        assert(t[0] == '\\');
        assert(t[1] == e[1]);
        assert(t.skip(2) =~= rest);
    } else if 0x21 <= n <= 0x7e {
        assert(e =~= seq![c]);
        assert(t.skip(1) =~= rest);
    } else if n < 0x10000 {
        assert(e =~= "\\u"@ + hex4(n));
        lemma_hex4_value(n);
        assert(t[0] == '\\');
        assert(t[1] == 'u');
        assert(t.subrange(2, 6) =~= hex4(n));
        assert(t.skip(6) =~= rest);
        vstd::utf8::char_u32_cast(c, c as u32);
    } else {
        let hi = 0xD800 + (n - 0x10000) / 1024;
        let lo = 0xDC00 + (n - 0x10000) % 1024;
        assert(0xD800 <= hi < 0xDC00);
        assert(0xDC00 <= lo < 0xE000);
        assert(e =~= "\\u"@ + hex4(hi) + "\\u"@ + hex4(lo));
        lemma_hex4_value(hi);
        lemma_hex4_value(lo);
        assert(t[0] == '\\');
        assert(t[1] == 'u');
        assert(t.subrange(2, 6) =~= hex4(hi));
        assert(t[6] == '\\');
        assert(t[7] == 'u');
        assert(t.subrange(8, 12) =~= hex4(lo));
        assert(t.skip(12) =~= rest);
        assert(0x10000 + (hi - 0xD800) * 1024 + (lo - 0xDC00) == n);
        vstd::utf8::char_u32_cast(c, c as u32);
    }
}

proof fn lemma_escaped_front(s: Seq<char>)
    requires
        s.len() > 0,
    ensures
        json_escaped(s) == json_char(s[0]) + json_escaped(s.skip(1)),
    decreases s.len(),
{
    if s.len() == 1 {
        assert(s.drop_last() =~= Seq::<char>::empty());
        assert(s.skip(1) =~= Seq::<char>::empty());
        assert(json_escaped(s.drop_last()) == Seq::<char>::empty());
        assert(json_char(s[0]) + Seq::<char>::empty() =~= json_char(s[0]));
    } else {
        lemma_escaped_front(s.drop_last());
        assert(s.drop_last().skip(1) =~= s.skip(1).drop_last());
        assert(s.skip(1).last() == s.last());
        assert(s.drop_last()[0] == s[0]);
        assert(json_char(s[0]) + json_escaped(s.skip(1).drop_last()) + json_char(s.last()) =~= json_char(
            s[0],
        ) + (json_escaped(s.skip(1).drop_last()) + json_char(s.last())));
    }
}

/// What the page-meta escaper writes reads back, through the JSON grammar,
/// as the text it was given, for every text without a backslash (the
/// escaper leaves a backslash as it is, which the grammar reads as the
/// start of an escape).
pub proof fn law_json_escape_reads_back(s: Seq<char>)
    requires
        !s.contains('\\'),
    ensures
        json_unescape(json_escaped(s)) == Some(s),
        json_string_value(seq!['"'] + json_escaped(s) + seq!['"']) == Some(s),
    decreases s.len(),
{
    if s.len() > 0 {
        assert(!s.skip(1).contains('\\')) by {
            if s.skip(1).contains('\\') {
                let i = choose|i: int| 0 <= i < s.skip(1).len() && s.skip(1)[i] == '\\';
                assert(s[i + 1] == '\\');
            }
        }
        assert(s[0] != '\\') by {
            if s[0] == '\\' {
                assert(s.contains('\\'));
            }
        }
        law_json_escape_reads_back(s.skip(1));
        lemma_escaped_front(s);
        lemma_unescape_char(s[0], json_escaped(s.skip(1)));
        assert(seq![s[0]] + s.skip(1) =~= s);
    } else {
        assert(json_escaped(s) == Seq::<char>::empty());
    }
    let lit = seq!['"'] + json_escaped(s) + seq!['"'];
    assert(lit.subrange(1, lit.len() - 1) =~= json_escaped(s));
}

} // verus!
