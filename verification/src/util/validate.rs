use vstd::prelude::*;

verus! {

pub open spec fn is_digit(c: char) -> bool {
    '0' <= c <= '9'
}

/// The value of a decimal digit.
pub open spec fn digit_value(c: char) -> nat {
    (c as u32 - '0' as u32) as nat
}

/// The value of a sequence of decimal digits, most significant first.
pub open spec fn digits_value(s: Seq<char>) -> nat
    decreases s.len(),
{
    if s.len() == 0 {
        0
    } else {
        digits_value(s.drop_last()) * 10 + digit_value(s.last())
    }
}

/// The digits of an unsigned number: the text after an optional leading '+'.
pub open spec fn unsigned_digits(s: Seq<char>) -> Seq<char> {
    if s.len() > 0 && s[0] == '+' {
        s.drop_first()
    } else {
        s
    }
}

/// `s` is the text of an unsigned number of at most `max`, as `str::parse` reads it: an
/// optional '+' followed by at least one decimal digit and nothing else.
pub open spec fn parses_unsigned(s: Seq<char>, max: nat) -> bool {
    let digits = unsigned_digits(s);
    &&& digits.len() > 0
    &&& forall|i: int| 0 <= i < digits.len() ==> is_digit(#[trigger] digits[i])
    &&& digits_value(digits) <= max
}

/// Whitespace as `char::is_whitespace` has it (the Unicode `White_Space` property).
pub open spec fn is_whitespace(c: char) -> bool {
    c == ' ' || ('\t' <= c <= '\r') || c == '\u{85}' || c == '\u{a0}' || c == '\u{1680}' || (
    '\u{2000}' <= c <= '\u{200a}') || c == '\u{2028}' || c == '\u{2029}' || c == '\u{202f}' || c
        == '\u{205f}' || c == '\u{3000}'
}

pub open spec fn trim_start(s: Seq<char>) -> Seq<char>
    decreases s.len(),
{
    if s.len() > 0 && is_whitespace(s[0]) {
        trim_start(s.drop_first())
    } else {
        s
    }
}

pub open spec fn trim_end(s: Seq<char>) -> Seq<char>
    decreases s.len(),
{
    if s.len() > 0 && is_whitespace(s.last()) {
        trim_end(s.drop_last())
    } else {
        s
    }
}

/// `s` without leading and trailing whitespace, as `str::trim` gives it.
pub open spec fn trimmed(s: Seq<char>) -> Seq<char> {
    trim_end(trim_start(s))
}

/// The digits of a signed number: the text after an optional leading sign.
pub open spec fn signed_digits(s: Seq<char>) -> Seq<char> {
    if s.len() > 0 && (s[0] == '+' || s[0] == '-') {
        s.drop_first()
    } else {
        s
    }
}

/// `s` is the text of an `i32` as `str::parse` reads it: an optional sign followed by at
/// least one decimal digit, within the range of `i32`.
pub open spec fn parses_i32(s: Seq<char>) -> bool {
    let negative = s.len() > 0 && s[0] == '-';
    &&& signed_digits(s).len() > 0
    &&& forall|i: int| 0 <= i < signed_digits(s).len() ==> is_digit(#[trigger] signed_digits(s)[i])
    &&& digits_value(signed_digits(s)) <= if negative {
        0x8000_0000nat
    } else {
        0x7fff_ffffnat
    }
}

/// `prefix` is a prefix of `s`.
pub open spec fn starts_with(s: Seq<char>, prefix: Seq<char>) -> bool {
    prefix.len() <= s.len() && s.subrange(0, prefix.len() as int) == prefix
}

proof fn lemma_digits_value_grows(s: Seq<char>, c: char)
    requires
        is_digit(c),
    ensures
        digits_value(s.push(c)) >= digits_value(s),
        digits_value(s.push(c)) == digits_value(s) * 10 + digit_value(c),
{
    assert(s.push(c).drop_last() =~= s);
}

/// The number that `s` is the text of, when it is the text of an unsigned number of at
/// most `max`.
pub fn parse_unsigned(s: &str, max: u64) -> (r: Option<u64>)
    requires
        max <= u32::MAX,
    ensures
        r is Some <==> parses_unsigned(s@, max as nat),
        r matches Some(v) ==> v == digits_value(unsigned_digits(s@)),
{
    let len = s.unicode_len();
    let mut start: usize = 0;
    if len > 0 && s.get_char(0) == '+' {
        start = 1;
    }
    let ghost digits = unsigned_digits(s@);
    assert(digits =~= s@.subrange(start as int, len as int));
    if start == len {
        return None;
    }
    let mut value: u64 = 0;
    let mut too_large = false;
    let mut i = start;
    while i < len
        invariant
            len == s@.len(),
            start <= i <= len,
            start < len,
            digits =~= s@.subrange(start as int, len as int),
            digits == unsigned_digits(s@),
            forall|j: int| start <= j < i ==> is_digit(#[trigger] s@[j]),
            max <= u32::MAX,
            value <= max,
            !too_large ==> value == digits_value(s@.subrange(start as int, i as int)),
            too_large ==> digits_value(s@.subrange(start as int, i as int)) > max,
        decreases len - i,
    {
        let c = s.get_char(i);
        if !('0' <= c && c <= '9') {
            assert(digits[i - start] == s@[i as int]);
            assert(!is_digit(digits[i - start]));
            return None;
        }
        let d = (c as u32 - '0' as u32) as u64;
        proof {
            lemma_digits_value_grows(s@.subrange(start as int, i as int), c);
            assert(s@.subrange(start as int, i as int).push(c) =~= s@.subrange(
                start as int,
                i + 1,
            ));
        }
        if !too_large {
            if value * 10 + d > max {
                too_large = true;
            } else {
                value = value * 10 + d;
            }
        }
        i = i + 1;
    }
    assert(s@.subrange(start as int, len as int) =~= digits);
    if too_large {
        None
    } else {
        Some(value)
    }
}

/// Whether a character is whitespace (see `is_whitespace`).
fn is_whitespace_char(c: char) -> (b: bool)
    ensures
        b == is_whitespace(c),
{
    c == ' ' || ('\t' <= c && c <= '\r') || c == '\u{85}' || c == '\u{a0}' || c == '\u{1680}' || (
    '\u{2000}' <= c && c <= '\u{200a}') || c == '\u{2028}' || c == '\u{2029}' || c == '\u{202f}'
        || c == '\u{205f}' || c == '\u{3000}'
}

/// `s` without leading and trailing whitespace, as `str::trim` gives it.
pub fn trim(s: &str) -> (r: &str)
    ensures
        r@ == trimmed(s@),
{
    let len = s.unicode_len();
    let mut start: usize = 0;
    assert(s@.subrange(0, len as int) =~= s@);
    while start < len && is_whitespace_char(s.get_char(start))
        invariant
            len == s@.len(),
            0 <= start <= len,
            trim_start(s@) == trim_start(s@.subrange(start as int, len as int)),
        decreases len - start,
    {
        assert(s@.subrange(start as int, len as int).drop_first() =~= s@.subrange(
            start + 1,
            len as int,
        ));
        start = start + 1;
    }
    let ghost head = s@.subrange(start as int, len as int);
    assert(trim_start(s@) == head);
    let mut end: usize = len;
    while end > start && is_whitespace_char(s.get_char(end - 1))
        invariant
            len == s@.len(),
            0 <= start <= end <= len,
            head == s@.subrange(start as int, len as int),
            trim_end(head) == trim_end(s@.subrange(start as int, end as int)),
        decreases end - start,
    {
        assert(s@.subrange(start as int, end as int).drop_last() =~= s@.subrange(
            start as int,
            end - 1,
        ));
        end = end - 1;
    }
    s.substring_char(start, end)
}

/// Whether `s` is the text of an `i32` (see `parses_i32`).
pub fn parses_i32_check(s: &str) -> (b: bool)
    ensures
        b == parses_i32(s@),
{
    let len = s.unicode_len();
    if len > 0 && s.get_char(0) == '-' {
        let rest = s.substring_char(1, len);
        assert(rest@ =~= s@.drop_first());
        if len > 1 && s.get_char(1) == '+' {
            assert(signed_digits(s@) == s@.drop_first());
            assert(!is_digit(signed_digits(s@)[0]));
            return false;
        }
        assert(unsigned_digits(rest@) == rest@);
        assert(signed_digits(s@) == rest@);
        let b = parse_unsigned(rest, 0x8000_0000).is_some();
        assert(b == parses_unsigned(rest@, 0x8000_0000nat));
        b
    } else {
        let b = parse_unsigned(s, 0x7fff_ffff).is_some();
        assert(b == parses_unsigned(s@, 0x7fff_ffffnat));
        assert(unsigned_digits(s@) == signed_digits(s@));
        b
    }
}

/// Whether `s` begins with `prefix`.
fn starts_with_exec(s: &str, prefix: &str) -> (r: bool)
    ensures
        r == starts_with(s@, prefix@),
{
    let len = s.unicode_len();
    let prefix_len = prefix.unicode_len();
    if prefix_len > len {
        return false;
    }
    let mut i: usize = 0;
    while i < prefix_len
        invariant
            len == s@.len(),
            prefix_len == prefix@.len(),
            prefix_len <= len,
            i <= prefix_len,
            forall|j: int| 0 <= j < i ==> s@[j] == prefix@[j],
        decreases prefix_len - i,
    {
        if s.get_char(i) != prefix.get_char(i) {
            assert(s@.subrange(0, prefix_len as int)[i as int] != prefix@[i as int]);
            return false;
        }
        i = i + 1;
    }
    assert(s@.subrange(0, prefix_len as int) =~= prefix@);
    true
}

/// Validate a string is convertible to u32
pub fn is_u32(v: String) -> (r: Result<(), String>)
    ensures
        r is Ok <==> parses_unsigned(v@, u32::MAX as nat),
        r matches Err(e) ==> e@ == "not a number"@,
{
    if parse_unsigned(v.as_str(), u32::MAX as u64).is_some() {
        return Ok(());
    }
    Err("not a number".to_owned())
}

/// Validate a string is convertible to u16 in range
pub fn is_u16_range(v: String) -> (r: Result<(), String>)
    ensures
        r is Ok <==> parses_unsigned(v@, u16::MAX as nat),
        r matches Err(e) ==> e@ == "not a number in the range 0-65535"@,
{
    if parse_unsigned(v.as_str(), u16::MAX as u64).is_some() {
        return Ok(());
    }
    Err("not a number in the range 0-65535".to_owned())
}

/// Validate a string begins with the scheme of an HTTP or HTTPS URL.
pub fn is_url_http_https(v: String) -> (r: Result<(), String>)
    ensures
        r is Ok <==> starts_with(v@, "http://"@) || starts_with(v@, "https://"@),
        r matches Err(e) ==> e@ == "missing http:// or https://"@,
{
    if starts_with_exec(v.as_str(), "http://") || starts_with_exec(v.as_str(), "https://") {
        return Ok(());
    }
    Err("missing http:// or https://".to_owned())
}

/// Every number up to `u16::MAX` that validates as a `u16` also validates as a `u32`.
pub proof fn law_u16_range_is_u32(s: Seq<char>)
    ensures
        parses_unsigned(s, u16::MAX as nat) ==> parses_unsigned(s, u32::MAX as nat),
{
}

} // verus!
