use vstd::prelude::*;

verus! {

/// The character of the decimal digit `d`.
pub open spec fn digit_char(d: nat) -> char {
    if d == 0 { '0' }
    else if d == 1 { '1' }
    else if d == 2 { '2' }
    else if d == 3 { '3' }
    else if d == 4 { '4' }
    else if d == 5 { '5' }
    else if d == 6 { '6' }
    else if d == 7 { '7' }
    else if d == 8 { '8' }
    else { '9' }
}

/// The decimal notation of `n`: its digits, most significant first, with no leading zeros.
pub open spec fn decimal_digits(n: nat) -> Seq<char>
    decreases n,
{
    if n < 10 {
        seq![digit_char(n)]
    } else {
        decimal_digits(n / 10).push(digit_char(n % 10))
    }
}

fn digit_str(d: u128) -> (s: &'static str)
    requires
        d < 10,
    ensures
        s@ == seq![digit_char(d as nat)],
{
    if d == 0 {
        proof { reveal_strlit("0"); }
        "0"
    } else if d == 1 {
        proof { reveal_strlit("1"); }
        "1"
    } else if d == 2 {
        proof { reveal_strlit("2"); }
        "2"
    } else if d == 3 {
        proof { reveal_strlit("3"); }
        "3"
    } else if d == 4 {
        proof { reveal_strlit("4"); }
        "4"
    } else if d == 5 {
        proof { reveal_strlit("5"); }
        "5"
    } else if d == 6 {
        proof { reveal_strlit("6"); }
        "6"
    } else if d == 7 {
        proof { reveal_strlit("7"); }
        "7"
    } else if d == 8 {
        proof { reveal_strlit("8"); }
        "8"
    } else {
        proof { reveal_strlit("9"); }
        "9"
    }
}

/// Appends the decimal notation of `n` to `s`.
pub fn push_decimal(s: &mut String, n: u128)
    ensures
        final(s)@ == old(s)@ + decimal_digits(n as nat),
    decreases n,
{
    if n >= 10 {
        push_decimal(s, n / 10);
    }
    s.append(digit_str(n % 10));
    proof {
        assert(n >= 10 ==> (n / 10) as nat == (n as nat) / 10);
    }
}

/// The decimal notation of `n`, as `n.to_string()` writes it.
pub fn u128_to_string(n: u128) -> (s: String)
    ensures
        s@ == decimal_digits(n as nat),
{
    let mut s = String::new();
    push_decimal(&mut s, n);
    s
}

/// Whether `c` is one of the ten decimal digits.
pub open spec fn is_digit(c: char) -> bool {
    c == '0' || c == '1' || c == '2' || c == '3' || c == '4' || c == '5' || c == '6' || c == '7'
        || c == '8' || c == '9'
}

/// The value of the decimal digit `c`.
pub open spec fn digit_value(c: char) -> nat {
    if c == '1' { 1 }
    else if c == '2' { 2 }
    else if c == '3' { 3 }
    else if c == '4' { 4 }
    else if c == '5' { 5 }
    else if c == '6' { 6 }
    else if c == '7' { 7 }
    else if c == '8' { 8 }
    else if c == '9' { 9 }
    else { 0 }
}

/// The number that a string of decimal digits writes.
pub open spec fn digits_value(s: Seq<char>) -> nat
    decreases s.len(),
{
    if s.len() == 0 { 0 } else { digits_value(s.drop_last()) * 10 + digit_value(s.last()) }
}

/// Reading back the decimal notation of `n` gives `n`; the notation is made of
/// digits only, and is never empty.
pub proof fn decimal_digits_read_back(n: nat)
    ensures
        digits_value(decimal_digits(n)) == n,
        decimal_digits(n).len() > 0,
        forall|i: int| 0 <= i < decimal_digits(n).len() ==> is_digit(#[trigger] decimal_digits(n)[i]),
    decreases n,
{
    if n < 10 {
        assert(decimal_digits(n).drop_last() =~= Seq::<char>::empty());
        assert(digits_value(Seq::<char>::empty()) == 0);
        assert(digit_value(digit_char(n)) == n);
        assert(decimal_digits(n).last() == digit_char(n));
    } else {
        decimal_digits_read_back(n / 10);
        let d = decimal_digits(n / 10);
        assert(decimal_digits(n).drop_last() =~= d);
        assert(digit_value(digit_char(n % 10)) == n % 10);
        assert(is_digit(digit_char(n % 10)));
        assert(decimal_digits(n).last() == digit_char(n % 10));
        assert(digits_value(decimal_digits(n)) == digits_value(d) * 10 + n % 10);
        assert forall|i: int| 0 <= i < decimal_digits(n).len() implies is_digit(#[trigger] decimal_digits(n)[i]) by {
            if i < d.len() {
                assert(decimal_digits(n)[i] == d[i]);
            }
        }
    }
}

/// Different numbers have different decimal notations.
pub proof fn decimal_digits_injective(m: nat, n: nat)
    requires
        decimal_digits(m) == decimal_digits(n),
    ensures
        m == n,
{
    decimal_digits_read_back(m);
    decimal_digits_read_back(n);
}

/// A decimal notation followed by text that starts with a non-digit can be split
/// in one way only.
pub proof fn digits_then_separator(a: nat, c: nat, q1: Seq<char>, q2: Seq<char>)
    requires
        decimal_digits(a) + q1 == decimal_digits(c) + q2,
        q1.len() > 0,
        q2.len() > 0,
        !is_digit(q1[0]),
        !is_digit(q2[0]),
    ensures
        a == c,
        q1 == q2,
{
    decimal_digits_read_back(a);
    decimal_digits_read_back(c);
    let da = decimal_digits(a);
    let dc = decimal_digits(c);
    let s = da + q1;
    if da.len() < dc.len() {
        assert(s[da.len() as int] == q1[0]);
        assert((dc + q2)[da.len() as int] == dc[da.len() as int]);
        assert(false);
    } else if dc.len() < da.len() {
        assert((dc + q2)[dc.len() as int] == q2[0]);
        assert(s[dc.len() as int] == da[dc.len() as int]);
        assert(false);
    }
    assert(da =~= s.subrange(0, da.len() as int));
    assert(dc =~= (dc + q2).subrange(0, dc.len() as int));
    decimal_digits_injective(a, c);
    assert(q1 =~= s.subrange(da.len() as int, s.len() as int));
    assert(q2 =~= (dc + q2).subrange(dc.len() as int, s.len() as int));
}

} // verus!
