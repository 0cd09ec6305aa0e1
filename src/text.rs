use vstd::prelude::*;
use vstd::string::*;

verus! {

/// The decimal digit for a value below ten.
pub open spec fn digit_char(d: nat) -> char {
    if d == 0 { '0' } else if d == 1 { '1' } else if d == 2 { '2' } else if d == 3 { '3' }
    else if d == 4 { '4' } else if d == 5 { '5' } else if d == 6 { '6' } else if d == 7 { '7' }
    else if d == 8 { '8' } else { '9' }
}

/// The decimal digits of a natural number, without leading zeros.
pub open spec fn digits(n: nat) -> Seq<char>
    decreases n,
{
    if n < 10 {
        seq![digit_char(n)]
    } else {
        digits(n / 10).push(digit_char(n % 10))
    }
}

/// The decimal representation of an integer, with a leading minus sign when negative.
pub open spec fn decimal(n: int) -> Seq<char> {
    if n < 0 {
        seq!['-'] + digits((-n) as nat)
    } else {
        digits(n as nat)
    }
}

fn digit_text(d: u64) -> (r: &'static str)
    requires
        d < 10,
    ensures
        r@ == seq![digit_char(d as nat)],
{
    proof {
        reveal_strlit("0");
        reveal_strlit("1");
        reveal_strlit("2");
        reveal_strlit("3");
        reveal_strlit("4");
        reveal_strlit("5");
        reveal_strlit("6");
        reveal_strlit("7");
        reveal_strlit("8");
        reveal_strlit("9");
    }
    let r = if d == 0 { "0" } else if d == 1 { "1" } else if d == 2 { "2" } else if d == 3 { "3" }
        else if d == 4 { "4" } else if d == 5 { "5" } else if d == 6 { "6" } else if d == 7 { "7" }
        else if d == 8 { "8" } else { "9" };
    assert(r@ =~= seq![digit_char(d as nat)]);
    r
}

/// The decimal representation of an integer.
pub fn decimal_string(n: i64) -> (r: String)
    ensures
        r@ == decimal(n as int),
{
    let negative = n < 0;
    let mut m: u64 = if negative { (0 - (n as i128)) as u64 } else { n as u64 };
    let ghost orig: nat = m as nat;
    assert(orig == if negative { -(n as int) } else { n as int });
    let mut out = String::new();
    while m >= 10
        invariant
            digits(orig) == digits(m as nat) + out@,
        decreases m,
    {
        let d = m % 10;
        let piece = digit_text(d);
        let ghost before = out@;
        out = join2(piece, out.as_str());
        proof {
            let q = (m / 10) as nat;
            assert(digits(m as nat) == digits(q).push(digit_char(d as nat)));
            assert(digits(q).push(digit_char(d as nat)) + before =~= digits(q) + out@);
        }
        m = m / 10;
    }
    let first = digit_text(m);
    out = join2(first, out.as_str());
    assert(digits(orig) =~= out@);
    if negative {
        out = join2("-", out.as_str());
        proof {
            reveal_strlit("-");
        }
        assert(out@ =~= decimal(n as int));
    }
    out
}

/// A string with each apostrophe doubled, as SQL writes one inside a literal.
pub open spec fn escape_quotes(s: Seq<char>) -> Seq<char>
    decreases s.len(),
{
    if s.len() == 0 {
        Seq::empty()
    } else if s.last() == '\'' {
        escape_quotes(s.drop_last()) + seq!['\'', '\'']
    } else {
        escape_quotes(s.drop_last()).push(s.last())
    }
}

/// Doubles each apostrophe of `s`.
pub fn escape_sql_quotes(s: &str) -> (r: String)
    ensures
        r@ == escape_quotes(s@),
{
    let n = s.unicode_len();
    let mut out = String::new();
    let mut i: usize = 0;
    while i < n
        invariant
            n == s@.len(),
            i <= n,
            out@ == escape_quotes(s@.take(i as int)),
        decreases n - i,
    {
        let piece = s.substring_char(i, i + 1);
        let c = s.get_char(i);
        proof {
            assert(s@.take(i + 1).drop_last() =~= s@.take(i as int));
            assert(s@.take(i + 1).last() == c);
            assert(piece@ =~= seq![c]);
        }
        if c == '\'' {
            out.append(piece);
            out.append(piece);
            assert(out@ =~= escape_quotes(s@.take(i + 1)));
        } else {
            out.append(piece);
            assert(out@ =~= escape_quotes(s@.take(i + 1)));
        }
        i = i + 1;
    }
    assert(s@.take(n as int) =~= s@);
    out
}

/// Concatenates two string slices.
pub fn join2(a: &str, b: &str) -> (r: String)
    ensures
        r@ == a@ + b@,
{
    let mut r = String::from_str(a);
    r.append(b);
    r
}

/// Concatenates three string slices.
pub fn join3(a: &str, b: &str, c: &str) -> (r: String)
    ensures
        r@ == a@ + b@ + c@,
{
    let mut r = String::from_str(a);
    r.append(b);
    r.append(c);
    r
}

} // verus!
