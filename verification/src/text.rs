//! Decimal rendering of numbers and joining of text pieces.
use vstd::prelude::*;

verus! {

/// The character of a decimal digit.
pub open spec fn digit_char(d: nat) -> char {
    if d == 0 {
        '0'
    } else if d == 1 {
        '1'
    } else if d == 2 {
        '2'
    } else if d == 3 {
        '3'
    } else if d == 4 {
        '4'
    } else if d == 5 {
        '5'
    } else if d == 6 {
        '6'
    } else if d == 7 {
        '7'
    } else if d == 8 {
        '8'
    } else {
        '9'
    }
}

/// Decimal digits of `n`, most significant first, without leading zeros.
pub open spec fn decimal(n: nat) -> Seq<char>
    decreases n,
{
    if n < 10 {
        seq![digit_char(n)]
    } else {
        decimal(n / 10) + seq![digit_char(n % 10)]
    }
}

/// Absolute value.
pub open spec fn abs(n: int) -> nat {
    if n < 0 {
        (-n) as nat
    } else {
        n as nat
    }
}

/// Decimal text of a signed number: a minus sign before the digits of a negative one.
pub open spec fn int_text(n: int) -> Seq<char> {
    if n < 0 {
        seq!['-'] + decimal(abs(n))
    } else {
        decimal(abs(n))
    }
}

/// Decimal text of `n` zero-padded to `width` characters, the sign (if any) first and
/// counted in the width.
pub open spec fn padded_int(n: int, width: nat) -> Seq<char> {
    let sign: Seq<char> = if n < 0 { seq!['-'] } else { seq![] };
    let digits = decimal(abs(n));
    let used = sign.len() + digits.len();
    let fill: nat = if used < width { (width - used) as nat } else { 0 };
    sign + Seq::new(fill, |i: int| '0') + digits
}

/// The pieces joined, with `sep` between consecutive pieces.
pub open spec fn joined(pieces: Seq<Seq<char>>, sep: Seq<char>) -> Seq<char>
    decreases pieces.len(),
{
    if pieces.len() == 0 {
        seq![]
    } else if pieces.len() == 1 {
        pieces[0]
    } else {
        joined(pieces.drop_last(), sep) + sep + pieces.last()
    }
}

fn digit_str(d: u64) -> (s: &'static str)
    requires
        d < 10,
    ensures
        s@ == seq![digit_char(d as nat)],
{
    proof {
        reveal_strlit("0");
        reveal_strlit("1");
        reveal_strlit("2");
        reveal_strlit("3");
        reveal_strlit("4");
        reveal_strlit("5");
        reveal_strlit("6");
        reveal_strlit("7");
        reveal_strlit("8");
        reveal_strlit("9");
    }
    if d == 0 {
        "0"
    } else if d == 1 {
        "1"
    } else if d == 2 {
        "2"
    } else if d == 3 {
        "3"
    } else if d == 4 {
        "4"
    } else if d == 5 {
        "5"
    } else if d == 6 {
        "6"
    } else if d == 7 {
        "7"
    } else if d == 8 {
        "8"
    } else {
        "9"
    }
}

/// Appends the decimal digits of `n`.
pub fn push_decimal(s: &mut String, n: u64)
    ensures
        final(s)@ == old(s)@ + decimal(n as nat),
    decreases n,
{
    if n >= 10 {
        push_decimal(s, n / 10);
    }
    s.append(digit_str(n % 10));
    proof {
        if n >= 10 {
            assert(old(s)@ + decimal(n as nat) =~= old(s)@ + decimal((n / 10) as nat) + seq![
                digit_char((n % 10) as nat),
            ]);
        }
    }
}

/// Appends the decimal text of a signed number.
pub fn push_int(s: &mut String, n: i64)
    ensures
        final(s)@ == old(s)@ + int_text(n as int),
{
    if n < 0 {
        s.append("-");
        proof {
            reveal_strlit("-");
        }
        let m: u64 = (0i128 - n as i128) as u64;
        push_decimal(s, m);
        assert(final(s)@ =~= old(s)@ + int_text(n as int));
    } else {
        push_decimal(s, n as u64);
    }
}

/// Number of decimal digits of `n`.
fn decimal_len(n: u64) -> (l: usize)
    ensures
        l == decimal(n as nat).len(),
        1 <= l <= 20,
    decreases n,
{
    proof {
        lemma_decimal_len(n as nat);
    }
    if n < 10 {
        1
    } else {
        decimal_len(n / 10) + 1
    }
}

proof fn lemma_decimal_len(n: nat)
    ensures
        1 <= decimal(n).len(),
        n <= 0xffff_ffff_ffff_ffffnat ==> decimal(n).len() <= 20,
{
    if n <= 0xffff_ffff_ffff_ffffnat {
        assert(pow10(20) == 100_000_000_000_000_000_000nat) by {
            reveal_with_fuel(pow10, 21);
        }
        lemma_decimal_len_general(n, 20);
    }
    lemma_decimal_len_pos(n);
}

proof fn lemma_decimal_len_pos(n: nat)
    ensures
        1 <= decimal(n).len(),
    decreases n,
{
    if n >= 10 {
        lemma_decimal_len_pos(n / 10);
    }
}

proof fn lemma_decimal_len_general(n: nat, k: nat)
    requires
        k >= 1,
        n < pow10(k),
    ensures
        decimal(n).len() <= k,
    decreases n,
{
    if n >= 10 {
        assert(k >= 2) by {
            if k == 1 {
                assert(pow10(1) == 10) by {
                    reveal_with_fuel(pow10, 2);
                }
            }
        }
        lemma_pow10_div(n, (k - 1) as nat);
        lemma_decimal_len_general(n / 10, (k - 1) as nat);
    }
}

/// Ten to the power `k`.
pub open spec fn pow10(k: nat) -> nat
    decreases k,
{
    if k == 0 {
        1
    } else {
        10 * pow10((k - 1) as nat)
    }
}

proof fn lemma_pow10_div(n: nat, k: nat)
    requires
        n < pow10(k + 1),
    ensures
        n / 10 < pow10(k),
{
    assert(pow10(k + 1) == 10 * pow10(k));
}

/// Appends `n` zero-padded to `width` characters (sign first, counted in the width).
pub fn push_padded(s: &mut String, n: i64, width: usize)
    ensures
        final(s)@ == old(s)@ + padded_int(n as int, width as nat),
{
    let neg = n < 0;
    let m: u64 = if neg {
        (0i128 - n as i128) as u64
    } else {
        n as u64
    };
    let digits = decimal_len(m);
    let used: usize = if neg {
        digits + 1
    } else {
        digits
    };
    if neg {
        s.append("-");
        proof {
            reveal_strlit("-");
        }
    }
    let ghost before_fill = s@;
    let fill: usize = if used < width {
        width - used
    } else {
        0
    };
    let mut i: usize = 0;
    while i < fill
        invariant
            i <= fill,
            s@ == before_fill + Seq::new(i as nat, |k: int| '0'),
        decreases fill - i,
    {
        s.append("0");
        proof {
            reveal_strlit("0");
        }
        i += 1;
        assert(s@ =~= before_fill + Seq::new(i as nat, |k: int| '0'));
    }
    push_decimal(s, m);
    proof {
        let sign: Seq<char> = if n < 0 { seq!['-'] } else { seq![] };
        assert(before_fill =~= old(s)@ + sign);
        assert(m as nat == abs(n as int));
        assert(final(s)@ =~= old(s)@ + padded_int(n as int, width as nat));
    }
}

/// Views of a sequence of strings.
pub open spec fn string_views(v: Seq<String>) -> Seq<Seq<char>> {
    v.map_values(|p: String| p@)
}

/// Views of a sequence of string slices.
pub open spec fn str_views(v: Seq<&str>) -> Seq<Seq<char>> {
    v.map_values(|p: &str| p@)
}

/// The text pieces joined with `sep` between them.
pub fn join(pieces: &Vec<String>, sep: &str) -> (r: String)
    ensures
        r@ == joined(string_views(pieces@), sep@),
{
    let ghost views = string_views(pieces@);
    let mut r = String::new();
    let mut i: usize = 0;
    while i < pieces.len()
        invariant
            i <= pieces.len(),
            views == string_views(pieces@),
            r@ == joined(views.take(i as int), sep@),
        decreases pieces.len() - i,
    {
        if i > 0 {
            r.append(sep);
        }
        r.append(pieces[i].as_str());
        proof {
            assert(views.take(i + 1).drop_last() =~= views.take(i as int));
            if i == 0 {
                assert(r@ =~= views.take(1)[0]);
            }
        }
        i += 1;
    }
    assert(views.take(pieces.len() as int) =~= views);
    r
}

/// The text pieces joined with `sep` between them.
pub fn join_strs(pieces: &Vec<&str>, sep: &str) -> (r: String)
    ensures
        r@ == joined(str_views(pieces@), sep@),
{
    let ghost views = str_views(pieces@);
    let mut r = String::new();
    let mut i: usize = 0;
    while i < pieces.len()
        invariant
            i <= pieces.len(),
            views == str_views(pieces@),
            r@ == joined(views.take(i as int), sep@),
        decreases pieces.len() - i,
    {
        if i > 0 {
            r.append(sep);
        }
        r.append(pieces[i]);
        proof {
            assert(views.take(i + 1).drop_last() =~= views.take(i as int));
            if i == 0 {
                assert(r@ =~= views.take(1)[0]);
            }
        }
        i += 1;
    }
    assert(views.take(pieces.len() as int) =~= views);
    r
}

} // verus!
