//! Helpers on text: comparison, numbers in decimal, padding.
use vstd::prelude::*;
use vstd::string::StringExecFns;

verus! {

/// The characters of each text of `v`.
pub open spec fn texts(v: Seq<String>) -> Seq<Seq<char>> {
    Seq::new(v.len(), |i: int| v[i]@)
}

/// The upper-case form of a text, as `to_uppercase` of the standard library's
/// strings gives it.
pub uninterp spec fn uppercase(s: Seq<char>) -> Seq<char>;

/// The upper-case form of a text: a call of `str::to_uppercase`, whose result
/// depends on the text alone.
#[verifier::external_body]
pub(crate) fn upper(s: &str) -> (up: String)
    ensures
        up@ == uppercase(s@),
{
    s.to_uppercase()
}

/// Whether two texts hold the same characters.
pub fn same(a: &str, b: &str) -> (equal: bool)
    ensures
        equal == (a@ == b@),
{
    let left: String = a.to_owned();
    let right: String = b.to_owned();
    left == right
}

/// The character of a decimal digit.
pub open spec fn digit(d: nat) -> char {
    if d == 0 {
        '0'
    } else if d == 1 {
        '1'
    } else if d == 2 {
        '2'
    } else if d == 3 {
        '3'
    } else if d == 4 {
        '4'
    } else if d == 5 {
        '5'
    } else if d == 6 {
        '6'
    } else if d == 7 {
        '7'
    } else if d == 8 {
        '8'
    } else {
        '9'
    }
}

/// The decimal digits of `n`, without leading zeros.
pub open spec fn digits(n: nat) -> Seq<char>
    decreases n,
{
    if n < 10 {
        seq![digit(n)]
    } else {
        digits(n / 10).push(digit(n % 10))
    }
}

/// `text` behind as many copies of `fill` as bring it to `width` characters.
pub open spec fn filled(text: Seq<char>, width: nat, fill: char) -> Seq<char> {
    if text.len() >= width {
        text
    } else {
        Seq::new((width - text.len()) as nat, |i: int| fill) + text
    }
}

/// The text of one decimal digit.
fn digit_text(d: u128) -> (text: &'static str)
    requires
        d < 10,
    ensures
        text@ == seq![digit(d as nat)],
{
    proof {
        reveal_strlit("0");
        reveal_strlit("1");
        reveal_strlit("2");
        reveal_strlit("3");
        reveal_strlit("4");
        reveal_strlit("5");
        reveal_strlit("6");
        reveal_strlit("7");
        reveal_strlit("8");
        reveal_strlit("9");
    }
    let text: &'static str = if d == 0 {
        "0"
    } else if d == 1 {
        "1"
    } else if d == 2 {
        "2"
    } else if d == 3 {
        "3"
    } else if d == 4 {
        "4"
    } else if d == 5 {
        "5"
    } else if d == 6 {
        "6"
    } else if d == 7 {
        "7"
    } else if d == 8 {
        "8"
    } else {
        "9"
    };
    assert(text@ =~= seq![digit(d as nat)]);
    text
}

/// `n` in decimal.
pub fn decimal(n: u128) -> (text: String)
    ensures
        text@ == digits(n as nat),
    decreases n,
{
    if n < 10 {
        String::from_str(digit_text(n))
    } else {
        let mut text: String = decimal(n / 10);
        text.append(digit_text(n % 10));
        assert(text@ =~= digits(n as nat));
        text
    }
}

/// `text`, filled on the left with spaces (or with zeros, where `zeros`) up
/// to `width` characters.
pub fn pad_left(text: &str, width: usize, zeros: bool) -> (padded: String)
    ensures
        padded@ == filled(text@, width as nat, if zeros { '0' } else { ' ' }),
{
    proof {
        reveal_strlit("0");
        reveal_strlit(" ");
    }
    let fill: &'static str = if zeros { "0" } else { " " };
    let ghost c: char = if zeros { '0' } else { ' ' };
    let len: usize = text.unicode_len();
    let mut padded: String = String::new();
    assert(padded@ =~= Seq::new(0, |j: int| c));
    let mut i: usize = len;
    while i < width
        invariant
            len <= i,
            len == text@.len(),
            fill@ == seq![c],
            len < width ==> i <= width,
            len >= width ==> i == len,
            padded@ == Seq::new((i - len) as nat, |j: int| c),
        decreases width - i,
    {
        padded.append(fill);
        i += 1;
        assert(padded@ =~= Seq::new((i - len) as nat, |j: int| c));
    }
    padded.append(text);
    assert(padded@ =~= filled(text@, width as nat, c));
    padded
}

/// The first place at or behind `from` where `t` has the character `c`; the
/// length of `t` where it has none.
pub open spec fn place_of(t: Seq<char>, c: char, from: int) -> int
    decreases t.len() - from,
{
    if from >= t.len() {
        t.len() as int
    } else if from >= 0 && t[from] == c {
        from
    } else {
        place_of(t, c, from + 1)
    }
}

/// The number in exponent form `t`, with a sign and two digits at least
/// behind its `e`: `1.5e-5` becomes `1.5e-05`, and `2e10` becomes `2e+10`. A
/// text without `e` stays as it is.
pub open spec fn exponent_form(t: Seq<char>) -> Seq<char> {
    let at = place_of(t, 'e', 0);
    if at >= t.len() {
        t
    } else {
        let mantissa = t.take(at);
        let exponent = t.skip(at + 1);
        if exponent.len() > 0 && exponent[0] == '-' {
            let size = exponent.skip(place_of_other(exponent, '-', 0));
            mantissa + (if size.len() == 1 {
                "e-0"@
            } else {
                "e-"@
            }) + size
        } else {
            mantissa + (if exponent.len() == 1 {
                "e+0"@
            } else {
                "e+"@
            }) + exponent
        }
    }
}

/// The first place at or behind `from` where `t` has another character than
/// `c`; the length of `t` where it has none.
pub open spec fn place_of_other(t: Seq<char>, c: char, from: int) -> int
    decreases t.len() - from,
{
    if from >= t.len() {
        t.len() as int
    } else if from >= 0 && t[from] != c {
        from
    } else {
        place_of_other(t, c, from + 1)
    }
}

/// Finds the first place where `t` has (or, with `other`, has not) the
/// character `c`.
fn find(t: &str, c: char, other: bool) -> (at: usize)
    ensures
        at <= t@.len(),
        at == (if other {
            place_of_other(t@, c, 0)
        } else {
            place_of(t@, c, 0)
        }),
{
    let len: usize = t.unicode_len();
    let mut i: usize = 0;
    while i < len
        invariant
            i <= len,
            len == t@.len(),
            !other ==> place_of(t@, c, 0) == place_of(t@, c, i as int),
            other ==> place_of_other(t@, c, 0) == place_of_other(t@, c, i as int),
        decreases len - i,
    {
        let here: char = t.get_char(i);
        if (here == c) != other {
            return i;
        }
        i += 1;
    }
    len
}

/// The number in exponent form `t`, with a sign and two digits at least
/// behind its `e`.
pub fn exponent_text(t: &str) -> (text: String)
    ensures
        text@ == exponent_form(t@),
{
    let len: usize = t.unicode_len();
    let at: usize = find(t, 'e', false);
    if at >= len {
        return String::from_str(t);
    }
    let mut text: String = String::from_str(t.substring_char(0, at));
    let exponent: &str = t.substring_char(at + 1, len);
    proof {
        assert(t@.subrange(0, at as int) =~= t@.take(at as int));
        assert(t@.subrange(at as int + 1, len as int) =~= t@.skip(at as int + 1));
    }
    let size: usize = exponent.unicode_len();
    if size > 0 && exponent.get_char(0) == '-' {
        let from: usize = find(exponent, '-', true);
        let digits: &str = exponent.substring_char(from, size);
        proof {
            assert(exponent@.subrange(from as int, size as int) =~= exponent@.skip(from as int));
        }
        text.append(if size - from == 1 { "e-0" } else { "e-" });
        text.append(digits);
    } else {
        text.append(if size == 1 { "e+0" } else { "e+" });
        text.append(exponent);
    }
    text
}

/// The digits behind the point with which a number is written to `sig`
/// significant digits (to one, where `sig` is none): zero is written with
/// one less than `sig`, and any other number with as many less as its
/// magnitude has digits before the point, `whole` being the power of ten of
/// its magnitude, cut to a whole number, and with one more where its
/// magnitude is under one.
pub open spec fn decimals(sig: usize, whole: i64, under_one: bool, zero: bool) -> int {
    let most = if sig < 1 {
        0
    } else {
        sig - 1
    };
    if zero {
        most
    } else {
        (if most <= whole {
            0
        } else {
            most - whole
        }) + (if under_one {
            1int
        } else {
            0int
        })
    }
}

/// The digits behind the point with which a number is written.
pub fn precision(sig: usize, whole: i64, under_one: bool, zero: bool) -> (prc: u128)
    ensures
        prc == decimals(sig, whole, under_one, zero),
{
    let most: i128 = if sig < 1 { 0 } else { (sig - 1) as i128 };
    if zero {
        return most as u128;
    }
    let behind: i128 = if most <= (whole as i128) { 0 } else { most - (whole as i128) };
    (behind + if under_one { 1 } else { 0 }) as u128
}

} // verus!
