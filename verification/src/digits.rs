//! Decimal rendering of integers, the character-level base of every
//! formatted name and summary line in the library.

use vstd::prelude::*;

verus! {

/// The decimal digit character for a value below ten.
pub open spec fn digit_char(d: int) -> char {
    if d == 0 {
        '0'
    } else if d == 1 {
        '1'
    } else if d == 2 {
        '2'
    } else if d == 3 {
        '3'
    } else if d == 4 {
        '4'
    } else if d == 5 {
        '5'
    } else if d == 6 {
        '6'
    } else if d == 7 {
        '7'
    } else if d == 8 {
        '8'
    } else {
        '9'
    }
}

/// Decimal digits of `n`, most significant first, without leading zeroes.
pub open spec fn dec_spec(n: nat) -> Seq<char>
    decreases n,
{
    if n < 10 {
        seq![digit_char(n as int)]
    } else {
        dec_spec(n / 10).push(digit_char((n % 10) as int))
    }
}

/// Two decimal digits, zero-padded.
pub open spec fn dec2_spec(n: nat) -> Seq<char> {
    seq![digit_char(n as int / 10), digit_char(n as int % 10)]
}

/// Four decimal digits, zero-padded.
pub open spec fn dec4_spec(n: nat) -> Seq<char> {
    dec2_spec(n / 100) + dec2_spec(n % 100)
}

fn digit_str(d: u64) -> (r: &'static str)
    requires
        d < 10,
    ensures
        r@ =~= seq![digit_char(d as int)],
{
    let s: &'static str = match d {
        0 => "0",
        1 => "1",
        2 => "2",
        3 => "3",
        4 => "4",
        5 => "5",
        6 => "6",
        7 => "7",
        8 => "8",
        _ => "9",
    };
    proof {
        reveal_strlit("0");
        reveal_strlit("1");
        reveal_strlit("2");
        reveal_strlit("3");
        reveal_strlit("4");
        reveal_strlit("5");
        reveal_strlit("6");
        reveal_strlit("7");
        reveal_strlit("8");
        reveal_strlit("9");
    }
    s
}

/// Render `n` in decimal without leading zeroes.
pub fn dec_string(n: u64) -> (r: String)
    ensures
        r@ == dec_spec(n as nat),
    decreases n,
{
    if n < 10 {
        let r = digit_str(n).to_owned();
        proof {
            assert(r@ =~= dec_spec(n as nat));
        }
        r
    } else {
        proof {
            assert(n / 10 < n) by (nonlinear_arith)
                requires
                    n >= 10,
            ;
        }
        let mut s = dec_string(n / 10);
        s.append(digit_str(n % 10));
        proof {
            assert(s@ =~= dec_spec(n as nat));
        }
        s
    }
}

/// Render `n` as two zero-padded decimal digits.
pub fn dec2(n: u64) -> (r: String)
    requires
        n < 100,
    ensures
        r@ == dec2_spec(n as nat),
{
    let mut s = digit_str(n / 10).to_owned();
    s.append(digit_str(n % 10));
    proof {
        assert(s@ =~= dec2_spec(n as nat));
    }
    s
}

/// Render `n` as four zero-padded decimal digits.
pub fn dec4(n: u64) -> (r: String)
    requires
        n < 10000,
    ensures
        r@ == dec4_spec(n as nat),
{
    proof {
        assert(n / 100 < 100) by (nonlinear_arith)
            requires
                n < 10000,
        ;
    }
    let hi = dec2(n / 100);
    let lo = dec2(n % 100);
    let r = hi.concat(lo.as_str());
    r
}

/// Strict lexicographic order on character sequences, by character
/// code: the order file names sort in.
pub open spec fn lex_lt(a: Seq<char>, b: Seq<char>) -> bool
    decreases a.len(),
{
    if b.len() == 0 {
        false
    } else if a.len() == 0 {
        true
    } else if a[0] != b[0] {
        (a[0] as int) < (b[0] as int)
    } else {
        lex_lt(a.drop_first(), b.drop_first())
    }
}

/// A shared prefix never decides the order.
pub proof fn lemma_lex_same_prefix(p: Seq<char>, a: Seq<char>, b: Seq<char>)
    requires
        lex_lt(a, b),
    ensures
        lex_lt(p + a, p + b),
    decreases p.len(),
{
    if p.len() == 0 {
        assert(p + a =~= a);
        assert(p + b =~= b);
    } else {
        lemma_lex_same_prefix(p.drop_first(), a, b);
        assert((p + a).drop_first() =~= p.drop_first() + a);
        assert((p + b).drop_first() =~= p.drop_first() + b);
    }
}

/// Two equally long pieces that already compare strictly keep their
/// order whatever follows each.
pub proof fn lemma_lex_eqlen_extend(a: Seq<char>, b: Seq<char>, t1: Seq<char>, t2: Seq<char>)
    requires
        a.len() == b.len(),
        lex_lt(a, b),
    ensures
        lex_lt(a + t1, b + t2),
    decreases a.len(),
{
    if a.len() == 0 {
        assert(false);
    } else if a[0] != b[0] {
        assert((a + t1)[0] == a[0]);
        assert((b + t2)[0] == b[0]);
    } else {
        lemma_lex_eqlen_extend(a.drop_first(), b.drop_first(), t1, t2);
        assert((a + t1).drop_first() =~= a.drop_first() + t1);
        assert((b + t2).drop_first() =~= b.drop_first() + t2);
    }
}

/// Digit characters order as the digits do.
pub proof fn lemma_digit_char_monotone(x: int, y: int)
    requires
        0 <= x < y < 10,
    ensures
        (digit_char(x) as int) < (digit_char(y) as int),
{
}

/// The two-digit rendering orders as the values do.
pub proof fn lemma_dec2_monotone(x: nat, y: nat)
    requires
        x < y < 100,
    ensures
        lex_lt(dec2_spec(x), dec2_spec(y)),
{
    let a = dec2_spec(x);
    let b = dec2_spec(y);
    if x / 10 < y / 10 {
        lemma_digit_char_monotone(x as int / 10, y as int / 10);
        assert(a[0] != b[0]);
    } else {
        assert(x / 10 == y / 10);
        assert(x % 10 < y % 10);
        lemma_digit_char_monotone(x as int % 10, y as int % 10);
        assert(a[0] == b[0]);
        assert(a.drop_first() =~= seq![digit_char(x as int % 10)]);
        assert(b.drop_first() =~= seq![digit_char(y as int % 10)]);
        assert(lex_lt(a.drop_first(), b.drop_first()));
    }
}

/// The four-digit rendering orders as the values do.
pub proof fn lemma_dec4_monotone(x: nat, y: nat)
    requires
        x < y < 10000,
    ensures
        lex_lt(dec4_spec(x), dec4_spec(y)),
{
    assert(x / 100 <= y / 100) by (nonlinear_arith)
        requires
            x < y,
    ;
    if x / 100 < y / 100 {
        assert(y / 100 < 100) by (nonlinear_arith)
            requires
                y < 10000,
        ;
        lemma_dec2_monotone(x / 100, y / 100);
        lemma_lex_eqlen_extend(
            dec2_spec(x / 100),
            dec2_spec(y / 100),
            dec2_spec(x % 100),
            dec2_spec(y % 100),
        );
    } else {
        assert(x % 100 < y % 100);
        lemma_dec2_monotone(x % 100, y % 100);
        lemma_lex_same_prefix(dec2_spec(x / 100), dec2_spec(x % 100), dec2_spec(y % 100));
    }
}

/// Distinct digits render as distinct characters.
pub proof fn lemma_digit_char_injective(a: int, b: int)
    requires
        0 <= a < 10,
        0 <= b < 10,
        digit_char(a) == digit_char(b),
    ensures
        a == b,
{
}

/// The two-digit rendering determines the value.
pub proof fn lemma_dec2_injective(a: nat, b: nat)
    requires
        a < 100,
        b < 100,
        dec2_spec(a) == dec2_spec(b),
    ensures
        a == b,
{
    assert(dec2_spec(a)[0] == dec2_spec(b)[0]);
    assert(dec2_spec(a)[1] == dec2_spec(b)[1]);
    lemma_digit_char_injective(a as int / 10, b as int / 10);
    lemma_digit_char_injective(a as int % 10, b as int % 10);
}

/// The four-digit rendering determines the value.
pub proof fn lemma_dec4_injective(a: nat, b: nat)
    requires
        a < 10000,
        b < 10000,
        dec4_spec(a) == dec4_spec(b),
    ensures
        a == b,
{
    assert(dec2_spec(a / 100) =~= dec4_spec(a).subrange(0, 2));
    assert(dec2_spec(a % 100) =~= dec4_spec(a).subrange(2, 4));
    assert(dec2_spec(b / 100) =~= dec4_spec(b).subrange(0, 2));
    assert(dec2_spec(b % 100) =~= dec4_spec(b).subrange(2, 4));
    lemma_dec2_injective(a / 100, b / 100);
    lemma_dec2_injective(a % 100, b % 100);
}

} // verus!
