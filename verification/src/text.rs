//! Character-level facts about the text the library inspects, and the string
//! operations of `std` it relies on, each stated over `Seq<char>`.
use vstd::prelude::*;
use vstd::utf8::*;
use vstd::string::StringExecFns;
use vstd::string::StrSliceExecFns;

verus! {

/// The Unicode `White_Space` property (PropList.txt), which `char::is_whitespace`
/// and `str::trim` go by.
pub open spec fn is_white_space(c: char) -> bool {
    let u = c as u32;
    ||| 0x9 <= u <= 0xd
    ||| u == 0x20
    ||| u == 0x85
    ||| u == 0xa0
    ||| u == 0x1680
    ||| 0x2000 <= u <= 0x200a
    ||| u == 0x2028
    ||| u == 0x2029
    ||| u == 0x202f
    ||| u == 0x205f
    ||| u == 0x3000
}

/// `t` with its leading white space removed.
pub open spec fn trim_start_ws(t: Seq<char>) -> Seq<char>
    decreases t.len(),
{
    if t.len() > 0 && is_white_space(t[0]) {
        trim_start_ws(t.drop_first())
    } else {
        t
    }
}

/// `t` with its trailing white space removed.
pub open spec fn trim_end_ws(t: Seq<char>) -> Seq<char>
    decreases t.len(),
{
    if t.len() > 0 && is_white_space(t.last()) {
        trim_end_ws(t.drop_last())
    } else {
        t
    }
}

/// `t` with leading and trailing white space removed.
pub open spec fn trim_ws(t: Seq<char>) -> Seq<char> {
    trim_end_ws(trim_start_ws(t))
}

/// True when every character of `t` is white space (so `t` trims to nothing).
pub open spec fn is_blank(t: Seq<char>) -> bool {
    forall|i: int| 0 <= i < t.len() ==> is_white_space(#[trigger] t[i])
}

/// `t` with every trailing carriage return and line feed removed.
pub open spec fn trim_end_crlf(t: Seq<char>) -> Seq<char>
    decreases t.len(),
{
    if t.len() > 0 && (t.last() == '\r' || t.last() == '\n') {
        trim_end_crlf(t.drop_last())
    } else {
        t
    }
}

/// The index of the first `c` in `t` at or after `from`, or `t.len()` when there is none.
pub open spec fn index_of_from(t: Seq<char>, c: char, from: int) -> int
    decreases t.len() - from,
{
    if from >= t.len() {
        t.len() as int
    } else if t[from] == c {
        from
    } else {
        index_of_from(t, c, from + 1)
    }
}

/// What `str::split_once(c)` gives: the text before and after the first `c`.
pub open spec fn split_once_spec(t: Seq<char>, c: char) -> Option<(Seq<char>, Seq<char>)> {
    let i = index_of_from(t, c, 0);
    if i < t.len() {
        Some((t.take(i), t.skip(i + 1)))
    } else {
        None
    }
}

/// ASCII lower-casing of one character (`char::to_ascii_lowercase`).
pub open spec fn ascii_lower(c: char) -> char {
    if 'A' <= c <= 'Z' {
        ((c as u32) + 32) as char
    } else {
        c
    }
}

/// ASCII case-insensitive equality (`str::eq_ignore_ascii_case`).
pub open spec fn eq_ignore_ascii_case_spec(a: Seq<char>, b: Seq<char>) -> bool {
    &&& a.len() == b.len()
    &&& forall|i: int| 0 <= i < a.len() ==> ascii_lower(#[trigger] a[i]) == ascii_lower(b[i])
}

pub open spec fn is_ascii_digit(c: char) -> bool {
    '0' <= c <= '9'
}

pub open spec fn digit_value(c: char) -> nat {
    ((c as u32) - ('0' as u32)) as nat
}

/// The value of a string of decimal digits, most significant first.
pub open spec fn decimal_value(t: Seq<char>) -> nat
    decreases t.len(),
{
    if t.len() == 0 {
        0
    } else {
        decimal_value(t.drop_last()) * 10 + digit_value(t.last())
    }
}

/// The digits that follow an optional leading `+`.
pub open spec fn unsigned_digits(t: Seq<char>) -> Seq<char> {
    if t.len() > 0 && t[0] == '+' {
        t.drop_first()
    } else {
        t
    }
}

/// True when `t` is what `usize::from_str` accepts: an optional `+`, then one
/// or more ASCII digits whose value fits in a `usize`.
pub open spec fn parses_as_usize(t: Seq<char>) -> bool {
    let d = unsigned_digits(t);
    &&& d.len() > 0
    &&& forall|i: int| 0 <= i < d.len() ==> is_ascii_digit(#[trigger] d[i])
    &&& decimal_value(d) <= usize::MAX
}

/// The character of a decimal digit.
pub open spec fn digit_char(d: nat) -> char {
    (('0' as u32) + d) as char
}

/// The shortest decimal spelling of `n`.
pub open spec fn decimal_digits(n: nat) -> Seq<char>
    decreases n,
{
    if n < 10 {
        seq![digit_char(n)]
    } else {
        decimal_digits(n / 10).push(digit_char(n % 10))
    }
}

/// The bytes of an ASCII character sequence.
pub open spec fn ascii_bytes(t: Seq<char>) -> Seq<u8> {
    t.map_values(|c: char| c as u8)
}

/// `std::str::from_utf8`: the bytes as text when they are well-formed UTF-8,
/// else the library's rendering of the `Utf8Error`.
#[verifier::external_body]
pub(crate) fn utf8_text(bytes: &[u8]) -> (r: Result<&str, String>)
    ensures
        r is Ok <==> valid_utf8(bytes@),
        r matches Ok(t) ==> t@ == decode_utf8(bytes@),
{
    std::str::from_utf8(bytes).map_err(|error| error.to_string())
}

/// `text` with every trailing carriage return and line feed removed, as
/// `str::trim_end_matches(['\r', '\n'])` gives it.
pub(crate) fn trim_line_end(text: &str) -> (r: &str)
    ensures
        r@ == trim_end_crlf(text@),
{
    let n = text.unicode_len();
    let mut end: usize = n;
    let mut done = false;
    assert(text@.take(n as int) =~= text@);
    while !done && end > 0
        invariant
            end <= n,
            n == text@.len(),
            trim_end_crlf(text@) == trim_end_crlf(text@.take(end as int)),
            done ==> end > 0 && text@[end - 1] != '\r' && text@[end - 1] != '\n',
        decreases end + (if done { 0int } else { 1int }),
    {
        let c = text.get_char(end - 1);
        if c == '\r' || c == '\n' {
            assert(text@.take(end as int).drop_last() =~= text@.take(end - 1));
            end = end - 1;
        } else {
            done = true;
        }
    }
    assert(text@.subrange(0, end as int) =~= text@.take(end as int));
    text.substring_char(0, end)
}

/// The text before and after the first `:` of `text`, as
/// `str::split_once(':')` gives them.
pub(crate) fn split_at_colon(text: &str) -> (r: Option<(&str, &str)>)
    ensures
        match r {
            Some((a, b)) => split_once_spec(text@, ':') == Some((a@, b@)),
            None => split_once_spec(text@, ':') is None,
        },
{
    let n = text.unicode_len();
    let mut i: usize = 0;
    let mut found = false;
    while !found && i < n
        invariant
            i <= n,
            n == text@.len(),
            index_of_from(text@, ':', 0) == index_of_from(text@, ':', i as int),
            found ==> i < n && text@[i as int] == ':',
        decreases n - i + (if found { 0int } else { 1int }),
    {
        if text.get_char(i) == ':' {
            found = true;
        } else {
            i = i + 1;
        }
    }
    if found {
        let before = text.substring_char(0, i);
        let after = text.substring_char(i + 1, n);
        assert(before@ =~= text@.take(i as int));
        assert(after@ =~= text@.skip(i + 1));
        Some((before, after))
    } else {
        None
    }
}

/// Whether `x` and `y` are the same character once ASCII letters are
/// lower-cased.
fn same_ignoring_ascii_case(x: char, y: char) -> (r: bool)
    ensures
        r == (ascii_lower(x) == ascii_lower(y)),
{
    let u = x as u32;
    let v = y as u32;
    let lu: u32 = if 65 <= u && u <= 90 {
        u + 32
    } else {
        u
    };
    let lv: u32 = if 65 <= v && v <= 90 {
        v + 32
    } else {
        v
    };
    proof {
        assert(ascii_lower(x) as u32 == lu);
        assert(ascii_lower(y) as u32 == lv);
    }
    lu == lv
}

/// Whether `a` and `b` are the same text once ASCII letters are
/// lower-cased, as `str::eq_ignore_ascii_case` decides.
pub(crate) fn eq_ignore_ascii_case(a: &str, b: &str) -> (r: bool)
    ensures
        r == eq_ignore_ascii_case_spec(a@, b@),
{
    let n = a.unicode_len();
    if n != b.unicode_len() {
        return false;
    }
    let mut i: usize = 0;
    while i < n
        invariant
            i <= n,
            n == a@.len(),
            n == b@.len(),
            forall|j: int| 0 <= j < i ==> ascii_lower(#[trigger] a@[j]) == ascii_lower(b@[j]),
        decreases n - i,
    {
        if !same_ignoring_ascii_case(a.get_char(i), b.get_char(i)) {
            return false;
        }
        i = i + 1;
    }
    true
}

/// `text` with leading and trailing Unicode white space removed, as
/// `str::trim` gives it.
pub(crate) fn trim(text: &str) -> (r: &str)
    ensures
        r@ == trim_ws(text@),
{
    let n = text.unicode_len();
    let mut start: usize = 0;
    let mut done = false;
    assert(text@.skip(0) =~= text@);
    while !done && start < n
        invariant
            start <= n,
            n == text@.len(),
            trim_start_ws(text@) == trim_start_ws(text@.skip(start as int)),
            done ==> start < n && !is_white_space(text@[start as int]),
        decreases n - start + (if done { 0int } else { 1int }),
    {
        if char_is_whitespace(text.get_char(start)) {
            assert(text@.skip(start as int).drop_first() =~= text@.skip(start + 1));
            start = start + 1;
        } else {
            done = true;
        }
    }
    let ghost rest = text@.skip(start as int);
    assert(trim_start_ws(rest) == rest);
    let mut end: usize = n;
    let mut stop = false;
    assert(rest =~= text@.subrange(start as int, n as int));
    while !stop && end > start
        invariant
            start <= end <= n,
            n == text@.len(),
            trim_end_ws(rest) == trim_end_ws(text@.subrange(start as int, end as int)),
            stop ==> end > start && !is_white_space(text@[end - 1]),
        decreases end + (if stop { 0int } else { 1int }),
    {
        if char_is_whitespace(text.get_char(end - 1)) {
            assert(text@.subrange(start as int, end as int).drop_last() =~= text@.subrange(start as int, end - 1));
            end = end - 1;
        } else {
            stop = true;
        }
    }
    proof {
        let kept = text@.subrange(start as int, end as int);
        if stop {
            assert(kept.last() == text@[end - 1]);
        }
        assert(trim_end_ws(kept) == kept);
    }
    text.substring_char(start, end)
}

/// `str::parse::<usize>`, with the error rendered as text.
#[verifier::external_body]
pub(crate) fn parse_usize(text: &str) -> (r: Result<usize, String>)
    ensures
        r is Ok <==> parses_as_usize(text@),
        r matches Ok(n) ==> n == decimal_value(unsigned_digits(text@)),
{
    text.parse::<usize>().map_err(|error| error.to_string())
}

/// Whether `c` is Unicode white space, as `char::is_whitespace` decides.
pub(crate) fn char_is_whitespace(c: char) -> (r: bool)
    ensures
        r == is_white_space(c),
{
    let u = c as u32;
    (0x9 <= u && u <= 0xd) || u == 0x20 || u == 0x85 || u == 0xa0 || u == 0x1680 || (0x2000 <= u && u <= 0x200a)
        || u == 0x2028 || u == 0x2029 || u == 0x202f || u == 0x205f || u == 0x3000
}

/// Whether `a` and `b` hold the same text.
pub(crate) fn str_eq(a: &str, b: &str) -> (r: bool)
    ensures
        r == (a@ == b@),
{
    let n = a.unicode_len();
    if n != b.unicode_len() {
        return false;
    }
    let mut i: usize = 0;
    while i < n
        invariant
            i <= n,
            n == a@.len(),
            n == b@.len(),
            forall|j: int| 0 <= j < i ==> a@[j] == b@[j],
        decreases n - i,
    {
        if a.get_char(i) != b.get_char(i) {
            return false;
        }
        i = i + 1;
    }
    assert(a@ =~= b@);
    true
}

/// True when every character of `text` is white space, i.e. when
/// `text.trim().is_empty()`.
pub fn text_is_blank(text: &str) -> (r: bool)
    ensures
        r == is_blank(text@),
{
    let mut blank = true;
    for c in it: text.chars()
        invariant
            it.seq() == text@,
            blank <==> (forall|j: int| 0 <= j < it.index() ==> is_white_space(#[trigger] text@[j])),
    {
        if !char_is_whitespace(c) {
            blank = false;
        }
    }
    blank
}

/// Appends the ASCII bytes of `n`'s decimal spelling to `out`.
pub fn push_decimal(out: &mut Vec<u8>, n: usize)
    ensures
        final(out)@ == old(out)@ + ascii_bytes(decimal_digits(n as nat)),
    decreases n,
{
    if n >= 10 {
        push_decimal(out, n / 10);
    }
    let d: u8 = (n % 10) as u8;
    let byte: u8 = 48u8 + d;
    out.push(byte);
    proof {
        let digits = decimal_digits(n as nat);
        let last = digit_char((n % 10) as nat);
        assert((last as u32) == 48 + d as u32);
        assert(last as u8 == byte);
        let prefix = if n >= 10 { decimal_digits((n / 10) as nat) } else { Seq::<char>::empty() };
        assert(digits =~= prefix.push(last));
        assert(ascii_bytes(digits) =~= ascii_bytes(prefix).push(byte));
    }
}

/// The decimal spelling of `n`, with a leading `-` when it is negative.
pub open spec fn signed_digits(n: int) -> Seq<char> {
    if n < 0 {
        seq!['-'] + decimal_digits((-n) as nat)
    } else {
        decimal_digits(n as nat)
    }
}

/// The text of one decimal digit.
fn digit_text(d: u64) -> (r: &'static str)
    requires
        d < 10,
    ensures
        r@ == seq![digit_char(d as nat)],
{
    proof {
        let c = digit_char(d as nat);
        vstd::utf8::char_u32_cast(c, c as u32);
    }
    match d {
        0 => {
            proof {
                reveal_strlit("0");
                vstd::utf8::char_u32_cast('0', '0' as u32);
            }
            "0"
        },
        1 => {
            proof {
                reveal_strlit("1");
                vstd::utf8::char_u32_cast('1', '1' as u32);
            }
            "1"
        },
        2 => {
            proof {
                reveal_strlit("2");
                vstd::utf8::char_u32_cast('2', '2' as u32);
            }
            "2"
        },
        3 => {
            proof {
                reveal_strlit("3");
                vstd::utf8::char_u32_cast('3', '3' as u32);
            }
            "3"
        },
        4 => {
            proof {
                reveal_strlit("4");
                vstd::utf8::char_u32_cast('4', '4' as u32);
            }
            "4"
        },
        5 => {
            proof {
                reveal_strlit("5");
                vstd::utf8::char_u32_cast('5', '5' as u32);
            }
            "5"
        },
        6 => {
            proof {
                reveal_strlit("6");
                vstd::utf8::char_u32_cast('6', '6' as u32);
            }
            "6"
        },
        7 => {
            proof {
                reveal_strlit("7");
                vstd::utf8::char_u32_cast('7', '7' as u32);
            }
            "7"
        },
        8 => {
            proof {
                reveal_strlit("8");
                vstd::utf8::char_u32_cast('8', '8' as u32);
            }
            "8"
        },
        _ => {
            proof {
                reveal_strlit("9");
                vstd::utf8::char_u32_cast('9', '9' as u32);
            }
            "9"
        },
    }
}

/// Appends the decimal spelling of `n` to `out`.
pub fn append_decimal(out: &mut String, n: u64)
    ensures
        final(out)@ == old(out)@ + decimal_digits(n as nat),
    decreases n,
{
    if n >= 10 {
        append_decimal(out, n / 10);
    }
    out.append(digit_text(n % 10));
    proof {
        let prefix = if n >= 10 { decimal_digits((n / 10) as nat) } else { Seq::<char>::empty() };
        assert(decimal_digits(n as nat) =~= prefix.push(digit_char((n % 10) as nat)));
    }
}

/// Appends the decimal spelling of `n` to `out`, with a leading `-` when it
/// is negative.
pub fn append_signed(out: &mut String, n: i64)
    ensures
        final(out)@ == old(out)@ + signed_digits(n as int),
{
    if n < 0 {
        out.append("-");
        proof {
            reveal_strlit("-");
        }
        let magnitude: u64 = (0i128 - (n as i128)) as u64;
        append_decimal(out, magnitude);
    } else {
        append_decimal(out, n as u64);
    }
}

/// The digits after the decimal point of `f` thousandths (`0 < f < 1000`),
/// without trailing zeros: `5` for 500, `25` for 250, `125` for 125.
pub open spec fn thousandths_digits(f: nat) -> Seq<char> {
    if f % 100 == 0 {
        seq![digit_char(f / 100)]
    } else if f % 10 == 0 {
        seq![digit_char(f / 100), digit_char((f / 10) % 10)]
    } else {
        seq![digit_char(f / 100), digit_char((f / 10) % 10), digit_char(f % 10)]
    }
}

/// How `std::time::Duration`'s `Debug` renders `ms` milliseconds: `0ns` for
/// nothing, whole milliseconds below a second as `250ms`, and longer
/// durations in seconds with the fraction's trailing zeros left out, as
/// `10s` or `1.5s`.
pub open spec fn duration_debug_text(ms: u64) -> Seq<char> {
    if ms == 0 {
        "0ns"@
    } else if ms < 1000 {
        decimal_digits(ms as nat) + "ms"@
    } else if ms % 1000 == 0 {
        decimal_digits((ms / 1000) as nat) + "s"@
    } else {
        decimal_digits((ms / 1000) as nat) + "."@ + thousandths_digits((ms % 1000) as nat) + "s"@
    }
}

/// The text of a duration of `ms` milliseconds, as `std::time::Duration`'s
/// `Debug` gives it.
pub(crate) fn duration_text(ms: u64) -> (r: String)
    ensures
        r@ == duration_debug_text(ms),
{
    proof {
        reveal_strlit("0ns");
        reveal_strlit("ms");
        reveal_strlit("s");
        reveal_strlit(".");
    }
    if ms == 0 {
        return "0ns".to_string();
    }
    let mut text = String::new();
    if ms < 1000 {
        append_decimal(&mut text, ms);
        text.append("ms");
        return text;
    }
    append_decimal(&mut text, ms / 1000);
    let f = ms % 1000;
    if f != 0 {
        text.append(".");
        text.append(digit_text(f / 100));
        if f % 100 != 0 {
            text.append(digit_text((f / 10) % 10));
            if f % 10 != 0 {
                text.append(digit_text(f % 10));
            }
        }
    }
    text.append("s");
    text
}

/// `prefix` followed by `rest`.
pub fn joined(prefix: &str, rest: &str) -> (r: String)
    ensures
        r@ == prefix@ + rest@,
{
    let mut text = prefix.to_string();
    text.append(rest);
    text
}

/// Text is blank exactly when trimming its white space leaves nothing; in
/// particular the empty text is blank.
pub proof fn blank_is_what_trims_to_nothing(t: Seq<char>)
    ensures
        is_blank(t) <==> trim_ws(t).len() == 0,
        is_blank(Seq::<char>::empty()),
{
    lemma_trim_start_empty(t);
    let rest = trim_start_ws(t);
    if rest.len() > 0 {
        lemma_trim_start_first(t);
        lemma_trim_end_keeps_first(rest);
    }
}

/// Trimming the leading white space leaves nothing exactly when every
/// character is white space.
proof fn lemma_trim_start_empty(t: Seq<char>)
    ensures
        trim_start_ws(t).len() == 0 <==> is_blank(t),
    decreases t.len(),
{
    if t.len() > 0 {
        lemma_trim_start_empty(t.drop_first());
        if is_white_space(t[0]) {
            assert forall|i: int| 0 <= i < t.len() && is_blank(t.drop_first()) implies is_white_space(#[trigger] t[i]) by {
                if i > 0 {
                    assert(t[i] == t.drop_first()[i - 1]);
                }
            }
            if is_blank(t) {
                assert forall|i: int| 0 <= i < t.drop_first().len() implies is_white_space(#[trigger] t.drop_first()[i]) by {
                    assert(t.drop_first()[i] == t[i + 1]);
                }
            }
        } else {
            assert(!is_white_space(t[0]));
        }
    }
}

/// What is left after trimming the leading white space starts with a
/// character that is not white space.
proof fn lemma_trim_start_first(t: Seq<char>)
    requires
        trim_start_ws(t).len() > 0,
    ensures
        !is_white_space(trim_start_ws(t)[0]),
    decreases t.len(),
{
    if t.len() > 0 && is_white_space(t[0]) {
        lemma_trim_start_first(t.drop_first());
    }
}

/// Trimming trailing white space keeps a first character that is not white
/// space.
proof fn lemma_trim_end_keeps_first(t: Seq<char>)
    requires
        t.len() > 0,
        !is_white_space(t[0]),
    ensures
        trim_end_ws(t).len() > 0,
    decreases t.len(),
{
    if is_white_space(t.last()) {
        assert(t.len() > 1);
        assert(t.drop_last()[0] == t[0]);
        lemma_trim_end_keeps_first(t.drop_last());
    }
}

} // verus!
