//! Text helpers shared by the wire codecs: decimal numbers, text inside a JSON string,
//! string comparison and substring search.

use vstd::prelude::*;
use vstd::string::*;
use vstd::utf8::*;

verus! {

// ------------------------------------------------------------------------------------------------
// Decimal digits

/// The character that stands for the digit `d`.
pub open spec fn digit_char(d: int) -> char {
    if d == 0 {
        '0'
    } else if d == 1 {
        '1'
    } else if d == 2 {
        '2'
    } else if d == 3 {
        '3'
    } else if d == 4 {
        '4'
    } else if d == 5 {
        '5'
    } else if d == 6 {
        '6'
    } else if d == 7 {
        '7'
    } else if d == 8 {
        '8'
    } else {
        '9'
    }
}

/// Whether `c` is one of the ten ASCII digits.
pub open spec fn is_digit(c: char) -> bool {
    c == '0' || c == '1' || c == '2' || c == '3' || c == '4' || c == '5' || c == '6' || c == '7'
        || c == '8' || c == '9'
}

/// The number that the digit `c` stands for (0 for any other character).
pub open spec fn digit_value(c: char) -> nat {
    if c == '1' {
        1
    } else if c == '2' {
        2
    } else if c == '3' {
        3
    } else if c == '4' {
        4
    } else if c == '5' {
        5
    } else if c == '6' {
        6
    } else if c == '7' {
        7
    } else if c == '8' {
        8
    } else if c == '9' {
        9
    } else {
        0
    }
}

/// The decimal digits of `n`, most significant first, without leading zeros.
pub open spec fn decimal_digits(n: nat) -> Seq<char>
    decreases n,
{
    if n < 10 {
        seq![digit_char(n as int)]
    } else {
        decimal_digits(n / 10).push(digit_char((n % 10) as int))
    }
}

/// The decimal text of the integer `n`: a minus sign for a negative number, then its digits.
pub open spec fn decimal_text(n: int) -> Seq<char> {
    if n < 0 {
        seq!['-'] + decimal_digits((-n) as nat)
    } else {
        decimal_digits(n as nat)
    }
}

/// Whether `s` is a non-empty run of ASCII digits.
pub open spec fn is_digits(s: Seq<char>) -> bool {
    s.len() > 0 && forall|i: int| 0 <= i < s.len() ==> is_digit(#[trigger] s[i])
}

/// The number that a run of digits denotes, read in base ten.
pub open spec fn digits_value(s: Seq<char>) -> nat
    decreases s.len(),
{
    if s.len() == 0 {
        0
    } else {
        10 * digits_value(s.drop_last()) + digit_value(s.last())
    }
}

/// What reading `s` as a `u8` gives: an optional `+`, one or more digits and nothing else,
/// the whole denoting at most 255.
pub open spec fn parse_u8_text(s: Seq<char>) -> Option<u8> {
    let digits = if s.len() > 0 && s[0] == '+' {
        s.drop_first()
    } else {
        s
    };
    if is_digits(digits) && digits_value(digits) <= 255 {
        Some(digits_value(digits) as u8)
    } else {
        None
    }
}

/// The digits of a number are digits, and denote that number.
pub proof fn lemma_decimal_digits_value(n: nat)
    ensures
        is_digits(decimal_digits(n)),
        digits_value(decimal_digits(n)) == n,
        decimal_digits(n)[0] != '+',
    decreases n,
{
    if n < 10 {
        let s = decimal_digits(n);
        assert(s.drop_last() =~= Seq::<char>::empty());
        assert(digits_value(s.drop_last()) == 0);
        assert(s.last() == digit_char(n as int));
    } else {
        lemma_decimal_digits_value(n / 10);
        let head = decimal_digits(n / 10);
        let s = decimal_digits(n);
        assert(s == head.push(digit_char((n % 10) as int)));
        assert(s.drop_last() =~= head);
        assert(s.last() == digit_char((n % 10) as int));
        assert(s[0] == head[0]);
        assert forall|i: int| 0 <= i < s.len() implies is_digit(#[trigger] s[i]) by {
            if i < head.len() {
                assert(s[i] == head[i]);
            }
        }
    }
}

/// Reading back the decimal text of a `u8` gives that number.
pub proof fn lemma_parse_decimal_u8(n: u8)
    ensures
        parse_u8_text(decimal_text(n as int)) == Some(n),
{
    lemma_decimal_digits_value(n as nat);
}

/// A longer run of digits denotes no smaller a number than its beginning.
proof fn lemma_digits_value_grows(s: Seq<char>, k: int)
    requires
        0 <= k <= s.len(),
    ensures
        digits_value(s.subrange(0, k)) <= digits_value(s),
    decreases s.len(),
{
    if k < s.len() {
        lemma_digits_value_grows(s.drop_last(), k);
        assert(s.drop_last().subrange(0, k) =~= s.subrange(0, k));
    } else {
        assert(s.subrange(0, k) =~= s);
    }
}

/// The number that the digit `c` stands for, if `c` is a digit.
fn digit_of(c: char) -> (digit: Option<u8>)
    ensures
        match digit {
            Some(d) => is_digit(c) && d == digit_value(c),
            None => !is_digit(c),
        },
{
    if c == '0' {
        Some(0)
    } else if c == '1' {
        Some(1)
    } else if c == '2' {
        Some(2)
    } else if c == '3' {
        Some(3)
    } else if c == '4' {
        Some(4)
    } else if c == '5' {
        Some(5)
    } else if c == '6' {
        Some(6)
    } else if c == '7' {
        Some(7)
    } else if c == '8' {
        Some(8)
    } else if c == '9' {
        Some(9)
    } else {
        None
    }
}

/// Reads `s` as a `u8`: an optional `+`, then one or more decimal digits and nothing else,
/// the whole denoting at most 255.
pub fn parse_u8(s: &str) -> (parsed: Option<u8>)
    ensures
        parsed == parse_u8_text(s@),
{
    let chars: Vec<char> = chars_of(s);
    let n: usize = chars.len();
    let start: usize = if n > 0 && chars[0] == '+' {
        1
    } else {
        0
    };
    let ghost digits = chars@.subrange(start as int, n as int);
    proof {
        if start == 1 {
            assert(digits =~= s@.drop_first());
        } else {
            assert(digits =~= s@);
        }
    }
    if start == n {
        return None;
    }
    let mut value: u16 = 0;
    let mut i: usize = start;
    while i < n
        invariant
            chars@ == s@,
            n == chars@.len(),
            start <= i <= n,
            digits == chars@.subrange(start as int, n as int),
            digits == if s@.len() > 0 && s@[0] == '+' {
                s@.drop_first()
            } else {
                s@
            },
            forall|k: int| 0 <= k < i - start ==> is_digit(#[trigger] digits[k]),
            value as nat == digits_value(digits.subrange(0, i - start)),
            value <= 255,
        decreases n - i,
    {
        let ghost taken = digits.subrange(0, i - start + 1);
        proof {
            assert(taken.drop_last() =~= digits.subrange(0, i - start));
            assert(taken.last() == chars@[i as int]);
            assert(digits[i - start] == chars@[i as int]);
        }
        match digit_of(chars[i]) {
            None => {
                return None;
            },
            Some(d) => {
                let next: u16 = value * 10 + d as u16;
                assert(next as nat == digits_value(taken));
                if next > 255 {
                    proof {
                        lemma_digits_value_grows(digits, i - start + 1);
                    }
                    return None;
                }
                value = next;
            },
        }
        i = i + 1;
    }
    proof {
        assert(digits.subrange(0, n - start) =~= digits);
    }
    Some(value as u8)
}

/// The decimal digits of `n`, as a text.
fn digits_string(n: u128) -> (text: String)
    ensures
        text@ == decimal_digits(n as nat),
{
    let mut rest: u128 = n;
    let mut text: String = String::new();
    while rest >= 10
        invariant
            decimal_digits(n as nat) =~= decimal_digits(rest as nat) + text@,
        decreases rest,
    {
        let digit: u32 = (rest % 10) as u32;
        let ghost behind = text@;
        let ghost head = decimal_digits((rest / 10) as nat);
        text = String::from_str(hex_digit_text(digit)).concat(text.as_str());
        proof {
            assert(decimal_digits(rest as nat) == head.push(digit_char((rest % 10) as int)));
            assert(head.push(digit_char((rest % 10) as int)) + behind =~= head + text@);
        }
        rest = rest / 10;
    }
    String::from_str(hex_digit_text(rest as u32)).concat(text.as_str())
}

/// The decimal text of `n`: a minus sign for a negative number, then its digits, without
/// leading zeros.
pub fn decimal_string(n: i128) -> (text: String)
    ensures
        text@ == decimal_text(n as int),
{
    if n < 0 {
        let magnitude: u128 = ((-(n + 1)) as u128) + 1;
        proof {
            reveal_strlit("-");
        }
        let text = String::from_str("-").concat(digits_string(magnitude).as_str());
        assert(text@ =~= decimal_text(n as int));
        text
    } else {
        digits_string(n as u128)
    }
}

// ------------------------------------------------------------------------------------------------
// Text inside a JSON string

/// The character that stands for `d` as a hexadecimal digit, in lower case.
pub open spec fn hex_digit(d: int) -> char {
    if d < 10 {
        digit_char(d)
    } else if d == 10 {
        'a'
    } else if d == 11 {
        'b'
    } else if d == 12 {
        'c'
    } else if d == 13 {
        'd'
    } else if d == 14 {
        'e'
    } else {
        'f'
    }
}

/// Whether `c` cannot stand for itself inside a JSON string: the quotation mark, the
/// backslash and the control characters below the space.
pub open spec fn needs_escape(c: char) -> bool {
    c == '"' || c == '\\' || (c as u32) < 0x20
}

/// How `c` is written inside a JSON string: a quotation mark and a backslash behind a
/// backslash, a control character as `\u00` and its two hexadecimal digits, and every
/// other character as itself.
pub open spec fn escaped_char(c: char) -> Seq<char> {
    if c == '"' {
        seq!['\\', '"']
    } else if c == '\\' {
        seq!['\\', '\\']
    } else if (c as u32) < 0x20 {
        seq![
            '\\',
            'u',
            '0',
            '0',
            hex_digit((c as u32) as int / 16),
            hex_digit((c as u32) as int % 16),
        ]
    } else {
        seq![c]
    }
}

/// How the text `s` is written inside a JSON string: each of its characters as
/// `escaped_char` says, in order.
pub open spec fn json_escape(s: Seq<char>) -> Seq<char>
    decreases s.len(),
{
    if s.len() == 0 {
        Seq::empty()
    } else {
        json_escape(s.drop_last()) + escaped_char(s.last())
    }
}

/// The number that the hexadecimal digit `c` stands for, if `c` is one, in lower case.
pub open spec fn hex_value(c: char) -> Option<int> {
    if is_digit(c) {
        Some(digit_value(c) as int)
    } else if c == 'a' {
        Some(10)
    } else if c == 'b' {
        Some(11)
    } else if c == 'c' {
        Some(12)
    } else if c == 'd' {
        Some(13)
    } else if c == 'e' {
        Some(14)
    } else if c == 'f' {
        Some(15)
    } else {
        None
    }
}

/// The character with the code `code`.
pub open spec fn char_of_code(code: int) -> char {
    (code as u32) as char
}

/// The text that a reader of JSON finds inside a string whose content is written as `t`:
/// a character behind a backslash stands for itself where it is a quotation mark or a
/// backslash, `\u00` and two hexadecimal digits stand for the control character with that
/// code, and every other character but a bare quotation mark, backslash or control
/// character stands for itself. `None` where `t` is no such content.
pub open spec fn json_unescape(t: Seq<char>) -> Option<Seq<char>>
    decreases t.len(),
{
    if t.len() == 0 {
        Some(Seq::empty())
    } else if t[0] == '\\' {
        if t.len() >= 2 && (t[1] == '"' || t[1] == '\\') {
            match json_unescape(t.skip(2)) {
                Some(rest) => Some(seq![t[1]] + rest),
                None => None,
            }
        } else if t.len() >= 6 && t[1] == 'u' && t[2] == '0' && t[3] == '0' && hex_value(t[4])
            is Some && hex_value(t[5]) is Some && 16 * hex_value(t[4])->Some_0 + hex_value(
            t[5],
        )->Some_0 < 0x20 {
            match json_unescape(t.skip(6)) {
                Some(rest) => Some(
                    seq![char_of_code(16 * hex_value(t[4])->Some_0 + hex_value(t[5])->Some_0)]
                        + rest,
                ),
                None => None,
            }
        } else {
            None
        }
    } else if needs_escape(t[0]) {
        None
    } else {
        match json_unescape(t.skip(1)) {
            Some(rest) => Some(seq![t[0]] + rest),
            None => None,
        }
    }
}

/// Two texts, one behind the other, are written as the one and then the other.
pub proof fn lemma_escape_is_character_wise(a: Seq<char>, b: Seq<char>)
    ensures
        json_escape(a + b) == json_escape(a) + json_escape(b),
    decreases b.len(),
{
    if b.len() == 0 {
        assert(a + b =~= a);
        assert(json_escape(a) + json_escape(b) =~= json_escape(a));
    } else {
        lemma_escape_is_character_wise(a, b.drop_last());
        assert((a + b).drop_last() =~= a + b.drop_last());
        assert((a + b).last() == b.last());
        assert(json_escape(a) + json_escape(b.drop_last()) + escaped_char(b.last())
            =~= json_escape(a) + (json_escape(b.drop_last()) + escaped_char(b.last())));
    }
}

/// A hexadecimal digit stands for the number that it was written for.
pub proof fn lemma_hex_digit_value(d: int)
    requires
        0 <= d < 16,
    ensures
        hex_value(hex_digit(d)) == Some(d),
{
}

/// What is written inside a JSON string reads back as the text that was written: whatever
/// a text holds, a reader of JSON finds that text, the whole of it and nothing else.
pub proof fn lemma_escaped_text_reads_back(s: Seq<char>)
    ensures
        json_unescape(json_escape(s)) == Some(s),
    decreases s.len(),
{
    if s.len() == 0 {
        assert(json_escape(s) =~= Seq::<char>::empty());
    } else {
        let c = s[0];
        let tail = s.skip(1);
        let written = json_escape(s);
        let rest = json_escape(tail);
        assert(s =~= seq![c] + tail);
        lemma_escape_is_character_wise(seq![c], tail);
        assert(json_escape(seq![c]) =~= escaped_char(c)) by {
            assert(seq![c].drop_last() =~= Seq::<char>::empty());
            assert(json_escape(Seq::<char>::empty()) =~= Seq::<char>::empty());
        }
        assert(written == escaped_char(c) + rest);
        lemma_escaped_text_reads_back(tail);
        if c == '"' || c == '\\' {
            assert(written[0] == '\\');
            assert(written[1] == c);
            assert(written.skip(2) =~= rest);
            assert(seq![c] + tail =~= s);
        } else if (c as u32) < 0x20 {
            let high = (c as u32) as int / 16;
            let low = (c as u32) as int % 16;
            lemma_hex_digit_value(high);
            lemma_hex_digit_value(low);
            assert(written[0] == '\\');
            assert(written[1] == 'u');
            assert(written[2] == '0');
            assert(written[3] == '0');
            assert(written[4] == hex_digit(high));
            assert(written[5] == hex_digit(low));
            assert(written.skip(6) =~= rest);
            assert(16 * high + low == (c as u32) as int);
            char_u32_cast(c, c as u32);
            assert((16 * high + low) as u32 == c as u32);
            assert(char_of_code(16 * high + low) == c);
            assert(seq![c] + tail =~= s);
        } else {
            assert(written[0] == c);
            assert(written.skip(1) =~= rest);
            assert(seq![c] + tail =~= s);
        }
    }
}

/// A text without a quotation mark, a backslash or a control character is written inside
/// a JSON string as it stands.
pub proof fn lemma_plain_text_is_not_escaped(s: Seq<char>)
    requires
        forall|i: int| 0 <= i < s.len() ==> !needs_escape(#[trigger] s[i]),
    ensures
        json_escape(s) == s,
    decreases s.len(),
{
    if s.len() > 0 {
        let head = s.drop_last();
        assert forall|i: int| 0 <= i < head.len() implies !needs_escape(#[trigger] head[i]) by {
            assert(head[i] == s[i]);
        }
        lemma_plain_text_is_not_escaped(head);
        assert(!needs_escape(s[s.len() - 1]));
        assert(head + seq![s.last()] =~= s);
    }
}

/// The hexadecimal digit `d` as a text.
fn hex_digit_text(d: u32) -> (text: &'static str)
    requires
        d < 16,
    ensures
        text@ == seq![hex_digit(d as int)],
{
    proof {
        reveal_strlit("0");
        reveal_strlit("1");
        reveal_strlit("2");
        reveal_strlit("3");
        reveal_strlit("4");
        reveal_strlit("5");
        reveal_strlit("6");
        reveal_strlit("7");
        reveal_strlit("8");
        reveal_strlit("9");
        reveal_strlit("a");
        reveal_strlit("b");
        reveal_strlit("c");
        reveal_strlit("d");
        reveal_strlit("e");
        reveal_strlit("f");
    }
    let text: &'static str = if d == 0 {
        "0"
    } else if d == 1 {
        "1"
    } else if d == 2 {
        "2"
    } else if d == 3 {
        "3"
    } else if d == 4 {
        "4"
    } else if d == 5 {
        "5"
    } else if d == 6 {
        "6"
    } else if d == 7 {
        "7"
    } else if d == 8 {
        "8"
    } else if d == 9 {
        "9"
    } else if d == 10 {
        "a"
    } else if d == 11 {
        "b"
    } else if d == 12 {
        "c"
    } else if d == 13 {
        "d"
    } else if d == 14 {
        "e"
    } else {
        "f"
    };
    assert(text@ =~= seq![hex_digit(d as int)]);
    text
}

/// `text` as it is written inside a JSON string.
pub fn json_escaped(text: &str) -> (escaped: String)
    ensures
        escaped@ == json_escape(text@),
{
    let n: usize = text.unicode_len();
    let mut escaped: String = String::new();
    let mut i: usize = 0;
    while i < n
        invariant
            n == text@.len(),
            i <= n,
            escaped@ == json_escape(text@.subrange(0, i as int)),
        decreases n - i,
    {
        let c: char = text.get_char(i);
        let code: u32 = c as u32;
        proof {
            reveal_strlit("\\\"");
            reveal_strlit("\\\\");
            reveal_strlit("\\u00");
            let taken = text@.subrange(0, i + 1);
            assert(taken.drop_last() =~= text@.subrange(0, i as int));
            assert(taken.last() == c);
        }
        if c == '"' {
            escaped.append("\\\"");
            assert(escaped@ =~= json_escape(text@.subrange(0, i as int)) + escaped_char(c));
        } else if c == '\\' {
            escaped.append("\\\\");
            assert(escaped@ =~= json_escape(text@.subrange(0, i as int)) + escaped_char(c));
        } else if code < 0x20 {
            escaped.append("\\u00");
            escaped.append(hex_digit_text(code / 16));
            escaped.append(hex_digit_text(code % 16));
            assert(escaped@ =~= json_escape(text@.subrange(0, i as int)) + escaped_char(c));
        } else {
            escaped.append(text.substring_char(i, i + 1));
            assert(text@.subrange(i as int, i + 1) =~= seq![c]);
        }
        i = i + 1;
    }
    assert(text@.subrange(0, n as int) =~= text@);
    escaped
}

// ------------------------------------------------------------------------------------------------
// Comparison and search

/// `a` followed by `b`.
pub fn joined(a: &str, b: &str) -> (text: String)
    ensures
        text@ == a@ + b@,
{
    String::from_str(a).concat(b)
}

/// A copy of a text that may be absent.
pub fn duplicate_text(text: &Option<String>) -> (copy: Option<String>)
    ensures
        copy == *text,
{
    match text {
        Some(t) => Some(t.clone()),
        None => None,
    }
}

/// Whether two strings hold the same characters.
pub fn str_eq(a: &str, b: &str) -> (same: bool)
    ensures
        same == (a@ == b@),
{
    let x: &[u8] = a.as_bytes();
    let y: &[u8] = b.as_bytes();
    proof {
        // Two texts with the same bytes are the same text.
        encode_utf8_decode_utf8(a@);
        encode_utf8_decode_utf8(b@);
    }
    let n: usize = x.len();
    if n != y.len() {
        return false;
    }
    let mut i: usize = 0;
    while i < n
        invariant
            x@ == encode_utf8(a@),
            y@ == encode_utf8(b@),
            n == x@.len(),
            n == y@.len(),
            i <= n,
            forall|k: int| 0 <= k < i ==> x@[k] == y@[k],
        decreases n - i,
    {
        if x[i] != y[i] {
            return false;
        }
        i = i + 1;
    }
    assert(x@ =~= y@);
    true
}

/// The characters of `s`, in order.
pub fn chars_of(s: &str) -> (chars: Vec<char>)
    ensures
        chars@ == s@,
{
    let mut chars: Vec<char> = Vec::new();
    for c in it: s.chars()
        invariant
            it.seq() == s@,
            chars@ == s@.subrange(0, it.index() as int),
    {
        chars.push(c);
        assert(chars@ =~= s@.subrange(0, it.index() + 1));
    }
    assert(chars@ =~= s@);
    chars
}

/// Whether `pattern` occurs in `text` at position `at`.
pub open spec fn occurs_at(text: Seq<char>, pattern: Seq<char>, at: int) -> bool {
    0 <= at && at + pattern.len() <= text.len() && text.subrange(at, at + pattern.len())
        == pattern
}

/// Whether `pattern` occurs somewhere in `text`.
pub open spec fn contains_text(text: Seq<char>, pattern: Seq<char>) -> bool {
    exists|at: int| occurs_at(text, pattern, at)
}

/// Whether `pattern` stands in `text` at position `at`.
fn matches_at(text: &Vec<char>, pattern: &Vec<char>, at: usize) -> (found: bool)
    requires
        at + pattern@.len() <= text@.len(),
    ensures
        found == occurs_at(text@, pattern@, at as int),
{
    let n: usize = text.len();
    let m: usize = pattern.len();
    let mut j: usize = 0;
    while j < m
        invariant
            n == text@.len(),
            m == pattern@.len(),
            j <= m,
            at + m <= n,
            forall|k: int| 0 <= k < j ==> text@[at + k] == pattern@[k],
        decreases m - j,
    {
        if text[at + j] != pattern[j] {
            proof {
                let window = text@.subrange(at as int, at + m);
                assert(window[j as int] == text@[at + j]);
            }
            return false;
        }
        j = j + 1;
    }
    assert(text@.subrange(at as int, at + m) =~= pattern@);
    true
}

/// Whether `pattern` occurs somewhere in `text`.
pub fn contains(text: &str, pattern: &str) -> (found: bool)
    ensures
        found == contains_text(text@, pattern@),
{
    let t: Vec<char> = chars_of(text);
    let p: Vec<char> = chars_of(pattern);
    if p.len() > t.len() {
        return false;
    }
    let last: usize = t.len() - p.len();
    let mut at: usize = 0;
    while at < last
        invariant
            t@ == text@,
            p@ == pattern@,
            last == t@.len() - p@.len(),
            at <= last,
            forall|k: int| 0 <= k < at ==> !occurs_at(t@, p@, k),
        decreases last - at,
    {
        if matches_at(&t, &p, at) {
            return true;
        }
        at = at + 1;
    }
    matches_at(&t, &p, last)
}

} // verus!
