//! Text helpers: trimming, prefixes, decimal numbers, and the printed forms taken from std.

use vstd::prelude::*;
use vstd::string::*;
use vstd::utf8::{decode_utf8, valid_utf8};

verus! {

/// The characters with Unicode's `White_Space` property.
pub open spec fn white_space(c: char) -> bool {
    let u = c as u32;
    ||| 0x9 <= u <= 0xd
    ||| u == 0x20
    ||| u == 0x85
    ||| u == 0xa0
    ||| u == 0x1680
    ||| 0x2000 <= u <= 0x200a
    ||| u == 0x2028
    ||| u == 0x2029
    ||| u == 0x202f
    ||| u == 0x205f
    ||| u == 0x3000
}

/// `s` without its leading white space.
pub open spec fn trimmed_start(s: Seq<char>) -> Seq<char>
    decreases s.len(),
{
    if s.len() > 0 && white_space(s.first()) {
        trimmed_start(s.drop_first())
    } else {
        s
    }
}

/// `s` without its trailing white space.
pub open spec fn trimmed_end(s: Seq<char>) -> Seq<char>
    decreases s.len(),
{
    if s.len() > 0 && white_space(s.last()) {
        trimmed_end(s.drop_last())
    } else {
        s
    }
}

/// `s` without its leading and trailing white space.
pub open spec fn trimmed(s: Seq<char>) -> Seq<char> {
    trimmed_end(trimmed_start(s))
}

/// What follows `prefix` in `s`, where `s` begins with it.
pub open spec fn after_prefix(s: Seq<char>, prefix: Seq<char>) -> Option<Seq<char>> {
    if prefix.is_prefix_of(s) {
        Some(s.skip(prefix.len() as int))
    } else {
        None
    }
}

/// Tells whether `c` is white space.
pub fn is_white_space(c: char) -> (r: bool)
    ensures
        r == white_space(c),
{
    let u: u32 = c as u32;
    (0x9 <= u && u <= 0xd) || u == 0x20 || u == 0x85 || u == 0xa0 || u == 0x1680 || (0x2000 <= u
        && u <= 0x200a) || u == 0x2028 || u == 0x2029 || u == 0x202f || u == 0x205f || u == 0x3000
}

/// Removes leading white space.
pub fn trim_start(s: &str) -> (r: &str)
    ensures
        r@ == trimmed_start(s@),
{
    let n: usize = s.unicode_len();
    let mut a: usize = 0;
    assert(s@.skip(0) == s@);
    while a < n && is_white_space(s.get_char(a))
        invariant
            n == s@.len(),
            a <= n,
            trimmed_start(s@.skip(a as int)) == trimmed_start(s@),
        decreases n - a,
    {
        assert(s@.skip(a as int).first() == s@[a as int]);
        assert(s@.skip(a as int).drop_first() == s@.skip(a + 1));
        a = a + 1;
    }
    assert(a < n ==> s@.skip(a as int).first() == s@[a as int]);
    assert(s@.subrange(a as int, n as int) == s@.skip(a as int));
    s.substring_char(a, n)
}

/// Removes leading and trailing white space.
pub fn trim(s: &str) -> (r: &str)
    ensures
        r@ == trimmed(s@),
{
    let s: &str = trim_start(s);
    let n: usize = s.unicode_len();
    let mut b: usize = n;
    assert(s@.take(n as int) == s@);
    while b > 0 && is_white_space(s.get_char(b - 1))
        invariant
            n == s@.len(),
            b <= n,
            trimmed_end(s@.take(b as int)) == trimmed_end(s@),
        decreases b,
    {
        assert(s@.take(b as int).last() == s@[b - 1]);
        assert(s@.take(b as int).drop_last() == s@.take(b - 1));
        b = b - 1;
    }
    assert(b > 0 ==> s@.take(b as int).last() == s@[b - 1]);
    assert(s@.subrange(0, b as int) == s@.take(b as int));
    s.substring_char(0, b)
}

/// Hands out what follows `prefix`, where `s` begins with it.
pub fn strip_prefix<'a>(s: &'a str, prefix: &str) -> (r: Option<&'a str>)
    ensures
        match after_prefix(s@, prefix@) {
            Some(rest) => r matches Some(t) && t@ == rest,
            None => r is None,
        },
{
    let n: usize = s.unicode_len();
    let m: usize = prefix.unicode_len();
    if m > n {
        return None;
    }
    let mut i: usize = 0;
    while i < m
        invariant
            n == s@.len(),
            m == prefix@.len(),
            i <= m <= n,
            forall|j: int| 0 <= j < i ==> s@[j] == prefix@[j],
        decreases m - i,
    {
        if s.get_char(i) != prefix.get_char(i) {
            assert(!(prefix@ == s@.subrange(0, m as int))) by {
                assert(s@.subrange(0, m as int)[i as int] == s@[i as int]);
            }
            return None;
        }
        i = i + 1;
    }
    assert(prefix@ == s@.subrange(0, m as int));
    assert(s@.subrange(m as int, n as int) == s@.skip(m as int));
    Some(s.substring_char(m, n))
}

/// Tells whether two texts hold the same characters.
pub fn same_text(a: &str, b: &str) -> (r: bool)
    ensures
        r == (a@ == b@),
{
    match strip_prefix(a, b) {
        Some(rest) => {
            proof {
                if rest@.len() == 0 {
                    assert(a@ == a@.subrange(0, b@.len() as int));
                }
            }
            rest.is_empty()
        },
        None => {
            proof {
                if a@ == b@ {
                    assert(a@.subrange(0, b@.len() as int) == a@);
                }
            }
            false
        },
    }
}

/// The ten decimal digits, in order.
pub open spec fn digits() -> Seq<char> {
    seq!['0', '1', '2', '3', '4', '5', '6', '7', '8', '9']
}

/// `n` in decimal, without leading zeros.
pub open spec fn decimal(n: nat) -> Seq<char>
    decreases n,
{
    if n < 10 {
        seq![digits()[n as int]]
    } else {
        decimal(n / 10).push(digits()[(n % 10) as int])
    }
}

/// `i` in decimal, with a minus sign where it is negative.
pub open spec fn signed_decimal(i: int) -> Seq<char> {
    if i < 0 {
        "-"@ + decimal((-i) as nat)
    } else {
        decimal(i as nat)
    }
}

/// `true` or `false`.
pub open spec fn truth(b: bool) -> Seq<char> {
    if b {
        "true"@
    } else {
        "false"@
    }
}

/// The views of a sequence of texts.
pub open spec fn texts(items: Seq<String>) -> Seq<Seq<char>> {
    items.map_values(|s: String| s@)
}

/// The view of an optional text.
pub open spec fn opt_text(t: Option<String>) -> Option<Seq<char>> {
    match t {
        Some(s) => Some(s@),
        None => None,
    }
}

/// The view of an optional borrowed text.
pub open spec fn opt_str(t: Option<&str>) -> Option<Seq<char>> {
    match t {
        Some(s) => Some(s@),
        None => None,
    }
}

/// A copy of a list of texts.
pub(crate) fn clone_texts(items: &Vec<String>) -> (r: Vec<String>)
    ensures
        texts(r@) == texts(items@),
{
    let r = items.clone();
    assert(texts(r@) =~= texts(items@));
    r
}

/// A copy of an optional text.
pub(crate) fn clone_opt_text(t: &Option<String>) -> (r: Option<String>)
    ensures
        opt_text(r) == opt_text(*t),
{
    match t {
        Some(s) => Some(s.clone()),
        None => None,
    }
}

/// The quoted items, separated by a comma and a blank.
pub open spec fn quoted_items(items: Seq<Seq<char>>) -> Seq<char>
    decreases items.len(),
{
    if items.len() == 0 {
        Seq::empty()
    } else if items.len() == 1 {
        quoted(items[0])
    } else {
        quoted_items(items.drop_last()) + ", "@ + quoted(items.last())
    }
}

/// The quoted items in square brackets.
pub open spec fn quoted_list(items: Seq<Seq<char>>) -> Seq<char> {
    "["@ + quoted_items(items) + "]"@
}

/// `None`, or `Some` around the quoted text.
pub open spec fn quoted_option(t: Option<Seq<char>>) -> Seq<char> {
    match t {
        Some(s) => "Some("@ + quoted(s) + ")"@,
        None => "None"@,
    }
}

/// `None`, or `Some` around the number.
pub open spec fn number_option(n: Option<i32>) -> Seq<char> {
    match n {
        Some(i) => "Some("@ + signed_decimal(i as int) + ")"@,
        None => "None"@,
    }
}

/// The text itself, or `<none>`.
pub open spec fn text_or_none(t: Option<Seq<char>>) -> Seq<char> {
    match t {
        Some(s) => s,
        None => "<none>"@,
    }
}

/// What std's `{:?}` prints of a string: the text in double quotes, with escapes.
pub uninterp spec fn quoted(s: Seq<char>) -> Seq<char>;

/// What std's `{:?}` prints of a `Duration` of so many seconds and nanoseconds.
pub uninterp spec fn duration_form(secs: u64, nanos: u32) -> Seq<char>;

/// What std's `String::from_utf8_lossy` makes of a byte sequence.
pub uninterp spec fn lossy_text(bytes: Seq<u8>) -> Seq<char>;

/// Calls std's `Debug` formatting of `str` through `format!`. The contract claims only that the
/// result is a function of the text; how characters are escaped is left unsaid.
#[verifier::external_body]
pub(crate) fn quote(s: &str) -> (r: String)
    ensures
        r@ == quoted(s@),
{
    format!("{:?}", s)
}

/// Calls std's `Debug` formatting of `Duration` through `format!`. The contract claims only that
/// the result is a function of the seconds and nanoseconds; the unit that std picks and the
/// digits it prints are left unsaid. `Duration::new` panics where a carry out of the
/// nanoseconds overflows the seconds, so a full second of nanoseconds is ruled out.
#[verifier::external_body]
pub(crate) fn show_duration(secs: u64, nanos: u32) -> (r: String)
    requires
        nanos < 1_000_000_000,
    ensures
        r@ == duration_form(secs, nanos),
{
    format!("{:?}", std::time::Duration::new(secs, nanos))
}

/// The character that stands for bytes which are no text.
pub const REPLACEMENT: char = '\u{fffd}';

/// Calls std's `String::from_utf8_lossy`. The contract claims that the result is a function of
/// the bytes, that bytes which are valid UTF-8 come back as the text they encode, that others
/// come back with a replacement character in them, and that bytes which begin with valid UTF-8
/// come back as the text of that beginning followed by what becomes of the rest; how many
/// replacement characters stand for invalid bytes is left unsaid.
#[verifier::external_body]
pub(crate) fn from_utf8_lossy(bytes: &[u8]) -> (r: String)
    ensures
        r@ == lossy_text(bytes@),
        valid_utf8(bytes@) ==> r@ == decode_utf8(bytes@),
        !valid_utf8(bytes@) ==> r@.contains(REPLACEMENT),
        forall|n: int|
            0 <= n <= bytes@.len() && #[trigger] valid_utf8(bytes@.take(n)) ==> r@ == decode_utf8(
                bytes@.take(n),
            ) + lossy_text(bytes@.skip(n)),
{
    String::from_utf8_lossy(bytes).into_owned()
}

/// The digit `d` as a text of one character.
fn digit_text(d: u64) -> (r: &'static str)
    requires
        d < 10,
    ensures
        r@ == seq![digits()[d as int]],
{
    proof {
        reveal_strlit("0");
        reveal_strlit("1");
        reveal_strlit("2");
        reveal_strlit("3");
        reveal_strlit("4");
        reveal_strlit("5");
        reveal_strlit("6");
        reveal_strlit("7");
        reveal_strlit("8");
        reveal_strlit("9");
    }
    match d {
        0 => "0",
        1 => "1",
        2 => "2",
        3 => "3",
        4 => "4",
        5 => "5",
        6 => "6",
        7 => "7",
        8 => "8",
        _ => "9",
    }
}

/// Writes `n` in decimal.
pub fn decimal_text(n: u64) -> (r: String)
    ensures
        r@ == decimal(n as nat),
    decreases n,
{
    if n < 10 {
        String::from_str(digit_text(n))
    } else {
        let mut r = decimal_text(n / 10);
        r.append(digit_text(n % 10));
        r
    }
}

/// Writes `i` in decimal, with a minus sign where it is negative.
pub fn signed_decimal_text(i: i32) -> (r: String)
    ensures
        r@ == signed_decimal(i as int),
{
    let wide: i64 = i as i64;
    if wide < 0 {
        let mut r = String::from_str("-");
        r.append(decimal_text((-wide) as u64).as_str());
        r
    } else {
        decimal_text(wide as u64)
    }
}

/// Writes a truth value.
pub fn truth_text(b: bool) -> (r: &'static str)
    ensures
        r@ == truth(b),
{
    if b {
        "true"
    } else {
        "false"
    }
}

/// Writes the items quoted, separated by commas, in square brackets.
pub fn quoted_list_text(items: &Vec<String>) -> (r: String)
    ensures
        r@ == quoted_list(texts(items@)),
{
    let ghost all = texts(items@);
    let mut r = String::from_str("[");
    let mut i: usize = 0;
    assert(all.take(0).len() == 0);
    assert(r@ == "["@ + quoted_items(all.take(0)));
    while i < items.len()
        invariant
            all == texts(items@),
            i <= items.len(),
            r@ == "["@ + quoted_items(all.take(i as int)),
        decreases items.len() - i,
    {
        let ghost before = all.take(i as int);
        let ghost after = all.take(i + 1);
        assert(after.drop_last() == before);
        assert(after.last() == items@[i as int]@);
        if i > 0 {
            r.append(", ");
        }
        r.append(quote(items[i].as_str()).as_str());
        assert(r@ == "["@ + quoted_items(after));
        i = i + 1;
    }
    assert(all.take(items.len() as int) == all);
    r.append("]");
    r
}

/// Writes an optional text quoted.
pub fn quoted_option_text(t: &Option<String>) -> (r: String)
    ensures
        r@ == quoted_option(opt_text(*t)),
{
    match t {
        Some(s) => {
            let mut r = String::from_str("Some(");
            r.append(quote(s.as_str()).as_str());
            r.append(")");
            r
        },
        None => String::from_str("None"),
    }
}

/// Writes an optional number.
pub fn number_option_text(n: Option<i32>) -> (r: String)
    ensures
        r@ == number_option(n),
{
    match n {
        Some(i) => {
            let mut r = String::from_str("Some(");
            r.append(signed_decimal_text(i).as_str());
            r.append(")");
            r
        },
        None => String::from_str("None"),
    }
}

/// Hands out the text itself, or `<none>`.
pub fn text_or_none_text(t: &Option<String>) -> (r: &str)
    ensures
        r@ == text_or_none(opt_text(*t)),
{
    match t {
        Some(s) => s.as_str(),
        None => "<none>",
    }
}

} // verus!
