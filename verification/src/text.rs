use vstd::prelude::*;

verus! {

/// The character of the decimal digit `d` (for `0 <= d < 10`).
pub open spec fn digit_char(d: int) -> char {
    if d == 0 { '0' }
    else if d == 1 { '1' }
    else if d == 2 { '2' }
    else if d == 3 { '3' }
    else if d == 4 { '4' }
    else if d == 5 { '5' }
    else if d == 6 { '6' }
    else if d == 7 { '7' }
    else if d == 8 { '8' }
    else { '9' }
}

/// The decimal digits of `n`, most significant first, without leading zeros.
pub open spec fn decimal_digits(n: nat) -> Seq<char>
    decreases n,
{
    if n < 10 {
        seq![digit_char(n as int)]
    } else {
        decimal_digits(n / 10).push(digit_char((n % 10) as int))
    }
}

/// The decimal text of the integer `n`, as `{}` prints it.
pub open spec fn decimal(n: int) -> Seq<char> {
    if n < 0 {
        seq!['-'] + decimal_digits((-n) as nat)
    } else {
        decimal_digits(n as nat)
    }
}

/// Whether `c` is one of the characters `0` to `9`.
pub open spec fn is_digit(c: char) -> bool {
    48 <= (c as int) <= 57
}

/// The value of the digit character `c`.
pub open spec fn digit_value(c: char) -> int {
    (c as int) - 48
}

/// The number that the digit string `s` denotes in base ten.
pub open spec fn read_unsigned(s: Seq<char>) -> int
    decreases s.len(),
{
    if s.len() == 0 {
        0
    } else {
        read_unsigned(s.drop_last()) * 10 + digit_value(s.last())
    }
}

/// The number that `s` denotes: a digit string, with a leading `-` for a
/// negative number.
pub open spec fn read_signed(s: Seq<char>) -> int {
    if s.len() > 0 && s[0] == '-' {
        -read_unsigned(s.drop_first())
    } else {
        read_unsigned(s)
    }
}

proof fn lemma_digit_char_value(d: int)
    requires
        0 <= d < 10,
    ensures
        digit_value(digit_char(d)) == d,
        is_digit(digit_char(d)),
        d > 0 ==> digit_char(d) != '0',
{
    assert(('0' as int) == 48 && ('1' as int) == 49 && ('2' as int) == 50 && ('3' as int) == 51
        && ('4' as int) == 52 && ('5' as int) == 53 && ('6' as int) == 54 && ('7' as int) == 55
        && ('8' as int) == 56 && ('9' as int) == 57);
}

proof fn lemma_digits_read_back(n: nat)
    ensures
        decimal_digits(n).len() > 0,
        forall|i: int| 0 <= i < decimal_digits(n).len() ==> is_digit(#[trigger] decimal_digits(n)[i]),
        read_unsigned(decimal_digits(n)) == n,
        n > 0 ==> decimal_digits(n)[0] != '0',
        n < 10 <==> decimal_digits(n).len() == 1,
    decreases n,
{
    let d = decimal_digits(n);
    lemma_digit_char_value((n % 10) as int);
    if n < 10 {
        assert(d.drop_last() =~= Seq::<char>::empty());
        assert(read_unsigned(Seq::<char>::empty()) == 0);
        assert(d.last() == digit_char((n % 10) as int));
    } else {
        lemma_digits_read_back(n / 10);
        let q = decimal_digits(n / 10);
        assert(d.drop_last() =~= q);
        assert(d[0] == q[0]);
        assert((n / 10) * 10 + n % 10 == n) by (nonlinear_arith);
        assert(d.last() == digit_char((n % 10) as int));
        assert(read_unsigned(d) == read_unsigned(q) * 10 + digit_value(digit_char((n % 10) as int)));
        assert forall|i: int| 0 <= i < d.len() implies is_digit(#[trigger] d[i]) by {
            if i < q.len() {
                assert(d[i] == q[i]);
            }
        }
    }
}

/// The decimal text of a number is the standard base-ten text: a `-` for
/// a negative number, then digits only, with no leading zero (`0` alone
/// for zero), and reading it back gives the number.
pub proof fn law_decimal_is_base_ten(n: int)
    ensures
        read_signed(decimal(n)) == n,
        n >= 0 ==> decimal(n).len() > 0 && forall|i: int|
            0 <= i < decimal(n).len() ==> is_digit(#[trigger] decimal(n)[i]),
        n < 0 ==> decimal(n).len() > 1 && decimal(n)[0] == '-' && forall|i: int|
            1 <= i < decimal(n).len() ==> is_digit(#[trigger] decimal(n)[i]),
        n > 0 ==> decimal(n)[0] != '0',
        n < 0 ==> decimal(n)[1] != '0',
        n == 0 ==> decimal(n) == seq!['0'],
        -10 < n < 10 ==> decimal(n).len() == (if n < 0 { 2int } else { 1int }),
{
    if n < 0 {
        let m = (-n) as nat;
        lemma_digits_read_back(m);
        let d = decimal_digits(m);
        assert(decimal(n) =~= seq!['-'] + d);
        assert(decimal(n).drop_first() =~= d);
        assert forall|i: int| 1 <= i < decimal(n).len() implies is_digit(#[trigger] decimal(n)[i]) by {
            assert(decimal(n)[i] == d[i - 1]);
        }
        assert(decimal(n)[1] == d[0]);
    } else {
        lemma_digits_read_back(n as nat);
        let d = decimal_digits(n as nat);
        assert(is_digit(d[0]));
        assert(d[0] != '-');
    }
}

/// Different numbers have different decimal texts.
pub proof fn law_decimal_distinguishes_numbers(a: int, b: int)
    requires
        a != b,
    ensures
        decimal(a) != decimal(b),
{
    law_decimal_is_base_ten(a);
    law_decimal_is_base_ten(b);
}

fn digit_str(d: u32) -> (s: &'static str)
    requires
        d < 10,
    ensures
        s@ == seq![digit_char(d as int)],
{
    if d == 0 { proof { reveal_strlit("0"); } "0" }
    else if d == 1 { proof { reveal_strlit("1"); } "1" }
    else if d == 2 { proof { reveal_strlit("2"); } "2" }
    else if d == 3 { proof { reveal_strlit("3"); } "3" }
    else if d == 4 { proof { reveal_strlit("4"); } "4" }
    else if d == 5 { proof { reveal_strlit("5"); } "5" }
    else if d == 6 { proof { reveal_strlit("6"); } "6" }
    else if d == 7 { proof { reveal_strlit("7"); } "7" }
    else if d == 8 { proof { reveal_strlit("8"); } "8" }
    else { proof { reveal_strlit("9"); } "9" }
}

fn append_decimal_digits(out: &mut String, n: u32)
    ensures
        final(out)@ == old(out)@ + decimal_digits(n as nat),
    decreases n,
{
    if n >= 10 {
        append_decimal_digits(out, n / 10);
        out.append(digit_str(n % 10));
        proof {
            assert(old(out)@ + decimal_digits((n / 10) as nat) + seq![digit_char((n % 10) as int)]
                =~= old(out)@ + decimal_digits(n as nat));
        }
    } else {
        out.append(digit_str(n));
    }
}

/// Appends the decimal text of `n` to `out`.
pub fn append_decimal(out: &mut String, n: i32)
    ensures
        final(out)@ == old(out)@ + decimal(n as int),
{
    if n < 0 {
        proof { reveal_strlit("-"); }
        out.append("-");
        let magnitude: i64 = 0 - (n as i64);
        append_decimal_digits(out, magnitude as u32);
        proof {
            assert(old(out)@ + seq!['-'] + decimal_digits((-n) as nat)
                =~= old(out)@ + decimal(n as int));
        }
    } else {
        append_decimal_digits(out, n as u32);
    }
}

/// The decimal text of `n`.
pub fn decimal_string(n: i32) -> (r: String)
    ensures
        r@ == decimal(n as int),
{
    let mut s = String::new();
    append_decimal(&mut s, n);
    proof { assert(Seq::<char>::empty() + decimal(n as int) =~= decimal(n as int)); }
    s
}

} // verus!
