use vstd::prelude::*;
use vstd::string::*;
use crate::error::IntFault;

verus! {

pub open spec fn is_digit(c: char) -> bool {
    '0' <= c && c <= '9'
}

pub open spec fn digit_value(c: char) -> nat {
    (c as int - '0' as int) as nat
}

pub open spec fn digit_char(d: nat) -> char
    recommends
        d < 10,
{
    ((d + '0' as int) as u32) as char
}

/// The number that a string of decimal digits denotes.
pub open spec fn decimal_value(s: Seq<char>) -> nat
    decreases s.len(),
{
    if s.len() == 0 {
        0
    } else {
        decimal_value(s.drop_last()) * 10 + digit_value(s.last())
    }
}

/// How many digits the string starts with.
pub open spec fn leading_digits(s: Seq<char>) -> nat
    decreases s.len(),
{
    if s.len() > 0 && is_digit(s[0]) {
        1 + leading_digits(s.drop_first())
    } else {
        0
    }
}

/// The digits of an unsigned number, once an optional leading `+` is dropped.
pub open spec fn unsigned_body(s: Seq<char>) -> Seq<char> {
    if s.len() > 0 && s[0] == '+' {
        s.drop_first()
    } else {
        s
    }
}

/// Reading a `u32` written in decimal, with an optional `+` in front. Digits
/// are read from the left; the first digit that would carry the value past
/// `u32::MAX` is an overflow, and the first character that is no digit is an
/// invalid digit, whichever comes first.
pub open spec fn parse_u32_spec(s: Seq<char>) -> Result<u32, IntFault> {
    let b = unsigned_body(s);
    if s.len() == 0 {
        Err(IntFault::Empty)
    } else if b.len() == 0 {
        Err(IntFault::InvalidDigit)
    } else if decimal_value(b.subrange(0, leading_digits(b) as int)) > u32::MAX {
        Err(IntFault::PosOverflow)
    } else if leading_digits(b) < b.len() {
        Err(IntFault::InvalidDigit)
    } else {
        Ok(decimal_value(b) as u32)
    }
}

/// The shortest decimal writing of `n`.
pub open spec fn decimal_digits(n: nat) -> Seq<char>
    decreases n,
{
    if n < 10 {
        seq![digit_char(n)]
    } else {
        decimal_digits(n / 10) + seq![digit_char(n % 10)]
    }
}

proof fn lemma_leading_digits(b: Seq<char>, m: int)
    requires
        0 <= m <= b.len(),
        forall|j: int| 0 <= j < m ==> is_digit(#[trigger] b[j]),
        m == b.len() || !is_digit(b[m]),
    ensures
        leading_digits(b) == m,
    decreases m,
{
    if m > 0 {
        lemma_leading_digits(b.drop_first(), m - 1);
    }
}

proof fn lemma_prefix_step(b: Seq<char>, i: int)
    requires
        0 <= i < b.len(),
    ensures
        decimal_value(b.subrange(0, i + 1)) == decimal_value(b.subrange(0, i)) * 10
            + digit_value(b[i]),
{
    assert(b.subrange(0, i + 1).drop_last() =~= b.subrange(0, i));
}

proof fn lemma_prefix_grows(b: Seq<char>, i: int, j: int)
    requires
        0 <= i <= j <= b.len(),
    ensures
        decimal_value(b.subrange(0, i)) <= decimal_value(b.subrange(0, j)),
    decreases j - i,
{
    if i < j {
        lemma_prefix_grows(b, i, j - 1);
        lemma_prefix_step(b, j - 1);
    }
}

/// Reads a `u32` written in decimal, as `str::parse::<u32>` does.
pub fn parse_u32(s: &str) -> (r: Result<u32, IntFault>)
    ensures
        r == parse_u32_spec(s@),
{
    let n = s.unicode_len();
    if n == 0 {
        return Err(IntFault::Empty);
    }
    let mut start: usize = 0;
    if s.get_char(0) == '+' {
        if n == 1 {
            return Err(IntFault::InvalidDigit);
        }
        start = 1;
    }
    let ghost b = unsigned_body(s@);
    assert(b =~= s@.subrange(start as int, n as int));
    let mut acc: u32 = 0;
    let mut i: usize = start;
    while i < n
        invariant
            start <= i <= n,
            n == s@.len(),
            b == unsigned_body(s@),
            start == s@.len() - b.len(),
            b =~= s@.subrange(start as int, n as int),
            forall|j: int| 0 <= j < i - start ==> is_digit(#[trigger] b[j]),
            acc == decimal_value(b.subrange(0, i - start)),
        decreases n - i,
    {
        let c = s.get_char(i);
        let k: usize = i - start;
        assert(c == b[k as int]);
        if !('0' <= c && c <= '9') {
            proof {
                lemma_leading_digits(b, k as int);
                assert(b.len() > 0);
                assert(decimal_value(b.subrange(0, leading_digits(b) as int)) == acc);
            }
            return Err(IntFault::InvalidDigit);
        }
        let d: u32 = (c as u32) - ('0' as u32);
        proof {
            lemma_prefix_step(b, k as int);
        }
        if acc > 429496729 || (acc == 429496729 && d > 5) {
            proof {
                let m = leading_digits(b);
                assert forall|j: int| 0 <= j < k + 1 implies is_digit(#[trigger] b[j]) by {}
                lemma_leading_digits_at_least(b, k + 1);
                lemma_prefix_grows(b, k + 1, m as int);
            }
            return Err(IntFault::PosOverflow);
        }
        acc = acc * 10 + d;
        i = i + 1;
    }
    proof {
        lemma_leading_digits(b, b.len() as int);
        assert(b.subrange(0, b.len() as int) =~= b);
    }
    Ok(acc)
}

proof fn lemma_leading_digits_at_least(b: Seq<char>, m: int)
    requires
        0 <= m <= b.len(),
        forall|j: int| 0 <= j < m ==> is_digit(#[trigger] b[j]),
    ensures
        m <= leading_digits(b) <= b.len(),
    decreases m,
{
    lemma_leading_digits_bound(b);
    if m > 0 {
        lemma_leading_digits_at_least(b.drop_first(), m - 1);
    }
}

proof fn lemma_leading_digits_bound(b: Seq<char>)
    ensures
        leading_digits(b) <= b.len(),
    decreases b.len(),
{
    if b.len() > 0 {
        lemma_leading_digits_bound(b.drop_first());
    }
}

/// The one-character literal for a digit.
fn digit_text(d: u32) -> (r: &'static str)
    requires
        d < 10,
    ensures
        r@ == seq![digit_char(d as nat)],
{
    proof {
        reveal_strlit("0");
        reveal_strlit("1");
        reveal_strlit("2");
        reveal_strlit("3");
        reveal_strlit("4");
        reveal_strlit("5");
        reveal_strlit("6");
        reveal_strlit("7");
        reveal_strlit("8");
        reveal_strlit("9");
    }
    let r = match d {
        0 => "0",
        1 => "1",
        2 => "2",
        3 => "3",
        4 => "4",
        5 => "5",
        6 => "6",
        7 => "7",
        8 => "8",
        _ => "9",
    };
    assert(r@ =~= seq![digit_char(d as nat)]);
    r
}

fn append_decimal(out: &mut String, n: u32)
    ensures
        final(out)@ == old(out)@ + decimal_digits(n as nat),
    decreases n,
{
    if n >= 10 {
        append_decimal(out, n / 10);
    }
    out.append(digit_text(n % 10));
    proof {
        if n >= 10 {
            assert(decimal_digits(n as nat) == decimal_digits((n / 10) as nat) + seq![
                digit_char((n % 10) as nat),
            ]);
        }
    }
    assert(final(out)@ =~= old(out)@ + decimal_digits(n as nat));
}

/// Writes `n` in decimal, as `u32::to_string` does.
pub fn decimal_text(n: u32) -> (r: String)
    ensures
        r@ == decimal_digits(n as nat),
{
    let mut out = String::new();
    append_decimal(&mut out, n);
    assert(out@ =~= decimal_digits(n as nat));
    out
}

proof fn lemma_digit_char(d: nat)
    requires
        d < 10,
    ensures
        is_digit(digit_char(d)),
        digit_value(digit_char(d)) == d,
{
}

proof fn lemma_digits_of(n: nat)
    ensures
        decimal_digits(n).len() > 0,
        forall|j: int| 0 <= j < decimal_digits(n).len() ==> is_digit(#[trigger] decimal_digits(n)[j]),
        decimal_value(decimal_digits(n)) == n,
    decreases n,
{
    if n >= 10 {
        lemma_digits_of(n / 10);
        let s = decimal_digits(n);
        assert(s.drop_last() =~= decimal_digits(n / 10));
        lemma_digit_char(n % 10);
        assert(n == (n / 10) * 10 + n % 10);
        assert(s.last() == digit_char(n % 10));
        assert(decimal_value(s) == decimal_value(decimal_digits(n / 10)) * 10 + digit_value(
            digit_char(n % 10),
        ));
        assert forall|j: int| 0 <= j < s.len() implies is_digit(#[trigger] s[j]) by {
            if j < s.len() - 1 {
                assert(s[j] == decimal_digits(n / 10)[j]);
            }
        }
    } else {
        assert(decimal_digits(n).drop_last() =~= Seq::<char>::empty());
        lemma_digit_char(n);
        assert(decimal_value(Seq::<char>::empty()) == 0);
        assert(decimal_value(decimal_digits(n)) == digit_value(digit_char(n)));
    }
}

/// Reading back what `decimal_text` wrote gives the number that was written.
pub proof fn lemma_decimal_round_trip(n: u32)
    ensures
        parse_u32_spec(decimal_digits(n as nat)) == Ok::<u32, IntFault>(n),
{
    let s = decimal_digits(n as nat);
    lemma_digits_of(n as nat);
    assert(is_digit(s[0]));
    assert(unsigned_body(s) == s);
    lemma_leading_digits(s, s.len() as int);
    assert(s.subrange(0, s.len() as int) =~= s);
}

} // verus!
