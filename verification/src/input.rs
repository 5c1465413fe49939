//! Reading the birth data of a request: decimal numbers in Rust's integer syntax, dates
//! written `YYYY-MM-DD` and times written `HH:MM` (or just `HH`).
use vstd::prelude::*;
use crate::daily::date_text;
use crate::text::{decimal, digit_char, padded_int};

verus! {

/// Whether `c` is an ASCII decimal digit.
pub open spec fn is_digit(c: char) -> bool {
    '0' <= c && c <= '9'
}

/// Value of a decimal digit character.
pub open spec fn digit_value(c: char) -> int {
    (c as u32) as int - 48
}

/// Value of a run of decimal digits, most significant first.
pub open spec fn digits_value(s: Seq<char>) -> int
    decreases s.len(),
{
    if s.len() == 0 {
        0
    } else {
        10 * digits_value(s.drop_last()) + digit_value(s.last())
    }
}

/// Whether every character of `s` is a decimal digit.
pub open spec fn all_digits(s: Seq<char>) -> bool {
    forall|i: int| 0 <= i < s.len() ==> #[trigger] is_digit(s[i])
}

/// Whether the text starts with a sign: `+`, or also `-` for a signed type.
pub open spec fn has_sign(s: Seq<char>, signed: bool) -> bool {
    s.len() > 0 && (s[0] == '+' || (signed && s[0] == '-'))
}

/// The digits of a number text: the text without its sign.
pub open spec fn digits_part(s: Seq<char>, signed: bool) -> Seq<char> {
    if has_sign(s, signed) {
        s.drop_first()
    } else {
        s
    }
}

/// The value of an integer written as Rust's `str::parse` reads it: an optional sign (`-`
/// only for a signed type), then one or more ASCII digits and nothing else. `None` for any
/// other text.
pub open spec fn number_value(s: Seq<char>, signed: bool) -> Option<int> {
    let d = digits_part(s, signed);
    if d.len() > 0 && all_digits(d) {
        if signed && s[0] == '-' {
            Some(-digits_value(d))
        } else {
            Some(digits_value(d))
        }
    } else {
        None
    }
}

/// `str::parse::<u32>`: the value when the text is a number that fits.
pub open spec fn parse_u32_spec(s: Seq<char>) -> Option<u32> {
    match number_value(s, false) {
        Some(v) => if 0 <= v <= u32::MAX {
            Some(v as u32)
        } else {
            None
        },
        None => None,
    }
}

/// `str::parse::<i32>`: the value when the text is a number that fits.
pub open spec fn parse_i32_spec(s: Seq<char>) -> Option<i32> {
    match number_value(s, true) {
        Some(v) => if i32::MIN <= v <= i32::MAX {
            Some(v as i32)
        } else {
            None
        },
        None => None,
    }
}

/// A prefix of a run of digits is worth no more than the whole run, and nothing negative.
proof fn lemma_digits_prefix(s: Seq<char>, k: int)
    requires
        all_digits(s),
        0 <= k <= s.len(),
    ensures
        0 <= digits_value(s.subrange(0, k)) <= digits_value(s),
    decreases s.len(),
{
    if k < s.len() {
        let t = s.drop_last();
        assert(all_digits(t)) by {
            assert forall|i: int| 0 <= i < t.len() implies #[trigger] is_digit(t[i]) by {
                assert(is_digit(s[i]));
            }
        }
        lemma_digits_prefix(t, k);
        assert(t.subrange(0, k) =~= s.subrange(0, k));
        lemma_digits_prefix(t, t.len() as int);
        assert(t.subrange(0, t.len() as int) =~= t);
        assert(is_digit(s[s.len() - 1]));
    } else {
        assert(s.subrange(0, k) =~= s);
        if s.len() > 0 {
            let t = s.drop_last();
            assert(all_digits(t)) by {
                assert forall|i: int| 0 <= i < t.len() implies #[trigger] is_digit(t[i]) by {
                    assert(is_digit(s[i]));
                }
            }
            lemma_digits_prefix(t, t.len() as int);
            assert(t.subrange(0, t.len() as int) =~= t);
            assert(is_digit(s[s.len() - 1]));
        }
    }
}

/// The number that `s` holds when it lies in `lo..=hi`.
fn parse_in_range(s: &str, signed: bool, lo: i64, hi: i64) -> (r: Option<i64>)
    requires
        -0x1_0000_0000 <= lo <= 0 <= hi <= 0x1_0000_0000,
    ensures
        r == (match number_value(s@, signed) {
            Some(v) => if lo <= v <= hi {
                Some(v as i64)
            } else {
                None
            },
            None => None,
        }),
{
    let n = s.unicode_len();
    if n == 0 {
        return None;
    }
    let first = s.get_char(0);
    let neg = signed && first == '-';
    let start: usize = if first == '+' || neg {
        1
    } else {
        0
    };
    let ghost d = digits_part(s@, signed);
    assert(d =~= s@.subrange(start as int, n as int));
    if start == n {
        return None;
    }
    let limit: i64 = if neg {
        -lo
    } else {
        hi
    };
    let mut acc: i64 = 0;
    let mut i: usize = start;
    while i < n
        invariant
            start <= i <= n,
            start < n,
            n == s@.len(),
            d == digits_part(s@, signed),
            d =~= s@.subrange(start as int, n as int),
            neg == (signed && s@[0] == '-'),
            -0x1_0000_0000 <= lo <= 0 <= hi <= 0x1_0000_0000,
            limit == (if neg { -lo } else { hi as int }),
            0 <= limit <= 0x1_0000_0000,
            0 <= acc <= limit,
            acc == digits_value(s@.subrange(start as int, i as int)),
            all_digits(s@.subrange(start as int, i as int)),
        decreases n - i,
    {
        let c = s.get_char(i);
        let prefix = Ghost(s@.subrange(start as int, i as int));
        let longer = Ghost(s@.subrange(start as int, i + 1));
        assert(longer@.drop_last() =~= prefix@);
        assert(longer@.last() == c);
        if !('0' <= c && c <= '9') {
            assert(!is_digit(d[i - start]));
            return None;
        }
        let next = acc * 10 + ((c as u32) - 48) as i64;
        assert(next == digits_value(longer@));
        assert(all_digits(longer@)) by {
            assert forall|k: int| 0 <= k < longer@.len() implies #[trigger] is_digit(longer@[k]) by {
                if k < prefix@.len() {
                    assert(is_digit(prefix@[k]));
                }
            }
        }
        if next > limit {
            proof {
                if all_digits(d) {
                    lemma_digits_prefix(d, (i + 1 - start) as int);
                    assert(d.subrange(0, (i + 1 - start) as int) =~= longer@);
                }
            }
            return None;
        }
        acc = next;
        i += 1;
    }
    assert(s@.subrange(start as int, n as int) =~= d);
    if neg {
        Some(-acc)
    } else {
        Some(acc)
    }
}

/// `str::parse::<u32>` of the text.
pub fn parse_u32(s: &str) -> (r: Option<u32>)
    ensures
        r == parse_u32_spec(s@),
{
    match parse_in_range(s, false, 0, 0xffff_ffff) {
        Some(v) => Some(v as u32),
        None => None,
    }
}

/// `str::parse::<i32>` of the text.
pub fn parse_i32(s: &str) -> (r: Option<i32>)
    ensures
        r == parse_i32_spec(s@),
{
    match parse_in_range(s, true, -0x8000_0000, 0x7fff_ffff) {
        Some(v) => Some(v as i32),
        None => None,
    }
}

/// Position of the first `c` in `s` at or after `from`, or the length of `s` when there is
/// none.
pub open spec fn find_from(s: Seq<char>, c: char, from: int) -> int
    decreases s.len() - from,
{
    if from >= s.len() {
        s.len() as int
    } else if s[from] == c {
        from
    } else {
        find_from(s, c, from + 1)
    }
}

/// Position of the first `c` in `s` at or after `from`, or the length of `s`.
fn find_char(s: &str, c: char, from: usize) -> (r: usize)
    requires
        from <= s@.len(),
    ensures
        r == find_from(s@, c, from as int),
        from <= r <= s@.len(),
{
    let n = s.unicode_len();
    let mut i = from;
    while i < n
        invariant
            from <= i <= n,
            n == s@.len(),
            find_from(s@, c, from as int) == find_from(s@, c, i as int),
        decreases n - i,
    {
        if s.get_char(i) == c {
            return i;
        }
        i += 1;
    }
    i
}

/// The three fields of a text split at `-`, when there are exactly three.
pub open spec fn dash_fields(s: Seq<char>) -> Option<(Seq<char>, Seq<char>, Seq<char>)> {
    let i = find_from(s, '-', 0);
    let j = find_from(s, '-', i + 1);
    let k = find_from(s, '-', j + 1);
    if i < s.len() && j < s.len() && k == s.len() {
        Some((s.subrange(0, i), s.subrange(i + 1, j), s.subrange(j + 1, s.len() as int)))
    } else {
        None
    }
}

/// A date written `YYYY-MM-DD`: three fields split at `-`, a year that parses as `i32` and
/// a month and a day that parse as `u32`.
pub open spec fn birth_date_spec(s: Seq<char>) -> Option<(i32, u32, u32)> {
    match dash_fields(s) {
        Some(f) => match (parse_i32_spec(f.0), parse_u32_spec(f.1), parse_u32_spec(f.2)) {
            (Some(y), Some(m), Some(d)) => Some((y, m, d)),
            _ => None,
        },
        None => None,
    }
}

/// The hour of a time written `HH:MM` or `HH`: the number before the first `:`.
pub open spec fn birth_hour_spec(t: Seq<char>) -> Option<u32> {
    parse_u32_spec(t.subrange(0, find_from(t, ':', 0)))
}

/// The view of an optional text.
pub open spec fn text_view(o: Option<&str>) -> Option<Seq<char>> {
    match o {
        Some(s) => Some(s@),
        None => None,
    }
}

/// The hour read from an optional time text: present only for a non-empty text whose hour
/// parses.
pub open spec fn given_hour(time: Option<Seq<char>>) -> Option<u32> {
    match time {
        Some(t) => if t.len() > 0 {
            birth_hour_spec(t)
        } else {
            None
        },
        None => None,
    }
}

/// Birth data of a request as (year, month, day, hour, whether a time was given): the date
/// must read as `YYYY-MM-DD`; the hour is noon when the time is missing, empty or unreadable.
pub open spec fn birth_data_spec(date: Option<Seq<char>>, time: Option<Seq<char>>) -> Option<
    (i32, u32, u32, u32, bool),
> {
    match date {
        Some(ds) => match birth_date_spec(ds) {
            Some(ymd) => {
                let h = given_hour(time);
                Some(
                    (
                        ymd.0,
                        ymd.1,
                        ymd.2,
                        match h {
                            Some(x) => x,
                            None => 12u32,
                        },
                        h is Some,
                    ),
                )
            },
            None => None,
        },
        None => None,
    }
}

/// A date written `YYYY-MM-DD`.
pub fn parse_birth_date(s: &str) -> (r: Option<(i32, u32, u32)>)
    ensures
        r == birth_date_spec(s@),
{
    let n = s.unicode_len();
    let i = find_char(s, '-', 0);
    if i == n {
        return None;
    }
    let j = find_char(s, '-', i + 1);
    if j == n {
        return None;
    }
    let k = find_char(s, '-', j + 1);
    if k != n {
        return None;
    }
    let year = parse_i32(s.substring_char(0, i));
    let month = parse_u32(s.substring_char(i + 1, j));
    let day = parse_u32(s.substring_char(j + 1, n));
    match (year, month, day) {
        (Some(y), Some(m), Some(d)) => Some((y, m, d)),
        _ => None,
    }
}

/// The hour of a time written `HH:MM` or `HH`.
pub fn parse_birth_hour(t: &str) -> (r: Option<u32>)
    ensures
        r == birth_hour_spec(t@),
{
    let e = find_char(t, ':', 0);
    parse_u32(t.substring_char(0, e))
}

/// Birth data of a request as (year, month, day, hour, whether a time was given); `None`
/// when the date is missing or does not read as `YYYY-MM-DD`. A missing, empty or
/// unreadable time gives noon.
pub fn parse_birth_data(birth_date: Option<&str>, birth_time: Option<&str>) -> (r: Option<
    (i32, u32, u32, u32, bool),
>)
    ensures
        r == birth_data_spec(text_view(birth_date), text_view(birth_time)),
{
    let ymd = match birth_date {
        Some(s) => parse_birth_date(s),
        None => {
            return None;
        },
    };
    let (y, m, d) = match ymd {
        Some(t) => t,
        None => {
            return None;
        },
    };
    let h = match birth_time {
        Some(t) => if t.unicode_len() > 0 {
            parse_birth_hour(t)
        } else {
            None
        },
        None => None,
    };
    let hour = match h {
        Some(x) => x,
        None => 12,
    };
    Some((y, m, d, hour, h.is_some()))
}

/// A decimal digit character is a digit of that value.
proof fn lemma_digit_char(d: nat)
    requires
        d < 10,
    ensures
        is_digit(digit_char(d)),
        digit_value(digit_char(d)) == d,
{
}

/// The decimal text of a number is a non-empty run of digits worth the number.
proof fn lemma_decimal_digits(n: nat)
    ensures
        decimal(n).len() > 0,
        all_digits(decimal(n)),
        digits_value(decimal(n)) == n,
    decreases n,
{
    let s = decimal(n);
    if n < 10 {
        lemma_digit_char(n);
        assert(s.drop_last() =~= Seq::<char>::empty());
        assert(digits_value(s) == 10 * digits_value(s.drop_last()) + digit_value(s.last()));
    } else {
        lemma_decimal_digits(n / 10);
        lemma_digit_char(n % 10);
        assert(s.drop_last() =~= decimal(n / 10));
        assert(s.last() == digit_char(n % 10));
        assert(digits_value(s) == 10 * digits_value(s.drop_last()) + digit_value(s.last()));
        assert(10 * (n / 10) + n % 10 == n);
        assert forall|i: int| 0 <= i < s.len() implies #[trigger] is_digit(s[i]) by {
            if i < s.len() - 1 {
                assert(s[i] == decimal(n / 10)[i]);
            }
        }
    }
}

/// Zeros are worth nothing.
proof fn lemma_zeros_value(z: Seq<char>)
    requires
        forall|i: int| 0 <= i < z.len() ==> z[i] == '0',
    ensures
        digits_value(z) == 0,
    decreases z.len(),
{
    if z.len() > 0 {
        lemma_zeros_value(z.drop_last());
    }
}

/// Leading zeros do not change the value of a run of digits.
proof fn lemma_zero_prefix(z: Seq<char>, b: Seq<char>)
    requires
        forall|i: int| 0 <= i < z.len() ==> z[i] == '0',
    ensures
        digits_value(z + b) == digits_value(b),
    decreases b.len(),
{
    if b.len() == 0 {
        assert(z + b =~= z);
        lemma_zeros_value(z);
    } else {
        lemma_zero_prefix(z, b.drop_last());
        assert((z + b).drop_last() =~= z + b.drop_last());
    }
}

/// A number of no sign, zero-padded, is a non-empty run of digits worth the number.
proof fn lemma_padded_digits(n: int, width: nat)
    requires
        n >= 0,
    ensures
        padded_int(n, width).len() > 0,
        all_digits(padded_int(n, width)),
        digits_value(padded_int(n, width)) == n,
{
    let digits = decimal(n as nat);
    lemma_decimal_digits(n as nat);
    let used = digits.len();
    let fill: nat = if used < width { (width - used) as nat } else { 0 };
    let z = Seq::new(fill, |i: int| '0');
    let s = padded_int(n, width);
    assert(s =~= z + digits);
    lemma_zero_prefix(z, digits);
    assert forall|i: int| 0 <= i < s.len() implies #[trigger] is_digit(s[i]) by {
        if i < z.len() {
            assert(s[i] == '0');
        } else {
            assert(s[i] == digits[i - z.len()]);
        }
    }
}

/// The first `c` at or after `from` is at `k` when none comes before it.
proof fn lemma_find_at(s: Seq<char>, c: char, from: int, k: int)
    requires
        0 <= from <= k <= s.len(),
        k < s.len() ==> s[k] == c,
        forall|i: int| from <= i < k ==> s[i] != c,
    ensures
        find_from(s, c, from) == k,
    decreases k - from,
{
    if from < k {
        lemma_find_at(s, c, from + 1, k);
    }
}

/// A run of digits reads as its value, when that fits.
proof fn lemma_digits_parse(s: Seq<char>)
    requires
        s.len() > 0,
        all_digits(s),
    ensures
        number_value(s, true) == Some(digits_value(s)),
        number_value(s, false) == Some(digits_value(s)),
{
    assert(is_digit(s[0]));
}

/// A date written `YYYY-MM-DD` with zero-padded fields, as the daily fortune writes its date,
/// reads back as the same year, month and day, for every year from 0 on.
pub proof fn lemma_date_text_reads_back(y: int, m: int, d: int)
    requires
        0 <= y <= i32::MAX,
        0 <= m <= u32::MAX,
        0 <= d <= u32::MAX,
    ensures
        birth_date_spec(date_text(y, m, d)) == Some((y as i32, m as u32, d as u32)),
{
    reveal_strlit("-");
    let a = padded_int(y, 4);
    let b = padded_int(m, 2);
    let c = padded_int(d, 2);
    lemma_padded_digits(y, 4);
    lemma_padded_digits(m, 2);
    lemma_padded_digits(d, 2);
    let s = date_text(y, m, d);
    assert(s =~= a + seq!['-'] + b + seq!['-'] + c);
    let i = a.len() as int;
    let j = i + 1 + b.len();
    assert(s[i] == '-');
    assert(s[j] == '-');
    assert forall|k: int| 0 <= k < i implies s[k] != '-' by {
        assert(s[k] == a[k] && is_digit(a[k]));
    }
    assert forall|k: int| i + 1 <= k < j implies s[k] != '-' by {
        assert(s[k] == b[k - i - 1] && is_digit(b[k - i - 1]));
    }
    assert forall|k: int| j + 1 <= k < s.len() implies s[k] != '-' by {
        assert(s[k] == c[k - j - 1] && is_digit(c[k - j - 1]));
    }
    lemma_find_at(s, '-', 0, i);
    lemma_find_at(s, '-', i + 1, j);
    lemma_find_at(s, '-', j + 1, s.len() as int);
    assert(s.subrange(0, i) =~= a);
    assert(s.subrange(i + 1, j) =~= b);
    assert(s.subrange(j + 1, s.len() as int) =~= c);
    lemma_digits_parse(a);
    lemma_digits_parse(b);
    lemma_digits_parse(c);
}

} // verus!
