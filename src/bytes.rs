//! Byte counts as people read them: `0 B`, `1.50 KiB`, `3.00 GiB`.

use vstd::prelude::*;
use vstd::string::*;

verus! {

/// `1024` to the power `k`.
pub open spec fn pow1024(k: nat) -> nat
    decreases k,
{
    if k == 0 {
        1
    } else {
        1024 * pow1024((k - 1) as nat)
    }
}

/// The largest unit, counted in powers of 1024 up to the fourth, in which
/// `b` bytes make at least one whole unit (the byte itself for less than 1024).
pub open spec fn unit_of(b: nat) -> nat {
    if b >= pow1024(4) {
        4
    } else if b >= pow1024(3) {
        3
    } else if b >= pow1024(2) {
        2
    } else if b >= pow1024(1) {
        1
    } else {
        0
    }
}

/// The symbol of the unit `k`.
pub open spec fn unit_symbol(k: nat) -> Seq<char> {
    if k == 4 {
        "TiB"@
    } else if k == 3 {
        "GiB"@
    } else if k == 2 {
        "MiB"@
    } else if k == 1 {
        "KiB"@
    } else {
        "B"@
    }
}

/// `b / d` in hundredths, rounded to the nearest, ties to the even neighbour.
pub open spec fn hundredths(b: nat, d: nat) -> nat
    recommends
        d > 0,
{
    let q = (b * 100) / d;
    let r = (b * 100) % d;
    if 2 * r > d || (2 * r == d && q % 2 == 1) {
        q + 1
    } else {
        q
    }
}

/// The decimal digit `d`.
pub open spec fn digit(d: nat) -> char {
    ((d % 10) + 48) as char
}

/// `n` in decimal, without leading zeros.
pub open spec fn decimal(n: nat) -> Seq<char>
    decreases n,
{
    if n < 10 {
        seq![digit(n)]
    } else {
        decimal(n / 10).push(digit(n % 10))
    }
}

/// A count of hundredths written with two decimal places.
pub open spec fn two_places(h: nat) -> Seq<char> {
    decimal(h / 100) + seq!['.', digit((h / 10) % 10), digit(h % 10)]
}

/// How `b` bytes are written: whole bytes below 1024, else the value in the
/// largest unit that it reaches, rounded to two decimal places, then the unit.
pub open spec fn bytes_text(b: nat) -> Seq<char> {
    let k = unit_of(b);
    if k == 0 {
        decimal(b) + seq![' '] + unit_symbol(0)
    } else {
        two_places(hundredths(b, pow1024(k))) + seq![' '] + unit_symbol(k)
    }
}

/// The unit chosen for a non-empty count is the largest one that the count
/// reaches: it holds at least one of it, and less than one of the next.
pub proof fn lemma_unit_is_largest(b: nat)
    requires
        b > 0,
    ensures
        unit_of(b) <= 4,
        pow1024(unit_of(b)) <= b,
        unit_of(b) < 4 ==> b < pow1024(unit_of(b) + 1),
{
    reveal_with_fuel(pow1024, 5);
}

fn digit_str(d: u64) -> (r: &'static str)
    requires
        d < 10,
    ensures
        r@ == seq![digit(d as nat)],
{
    proof {
        reveal_strlit("0");
        reveal_strlit("1");
        reveal_strlit("2");
        reveal_strlit("3");
        reveal_strlit("4");
        reveal_strlit("5");
        reveal_strlit("6");
        reveal_strlit("7");
        reveal_strlit("8");
        reveal_strlit("9");
    }
    let r = if d == 0 {
        "0"
    } else if d == 1 {
        "1"
    } else if d == 2 {
        "2"
    } else if d == 3 {
        "3"
    } else if d == 4 {
        "4"
    } else if d == 5 {
        "5"
    } else if d == 6 {
        "6"
    } else if d == 7 {
        "7"
    } else if d == 8 {
        "8"
    } else {
        "9"
    };
    assert(r@ =~= seq![digit(d as nat)]);
    r
}

fn push_decimal(s: &mut String, n: u64)
    ensures
        final(s)@ == old(s)@ + decimal(n as nat),
    decreases n,
{
    if n >= 10 {
        push_decimal(s, n / 10);
    }
    s.append(digit_str(n % 10));
    assert(final(s)@ =~= old(s)@ + decimal(n as nat));
}

fn unit_str(k: u64) -> (r: &'static str)
    ensures
        r@ == unit_symbol(k as nat),
{
    if k == 4 {
        "TiB"
    } else if k == 3 {
        "GiB"
    } else if k == 2 {
        "MiB"
    } else if k == 1 {
        "KiB"
    } else {
        "B"
    }
}

proof fn lemma_hundredths(b: nat, d: nat, q: nat, r: nat, e: nat, f: nat)
    requires
        d > 0,
        b == q * d + r,
        r < d,
        e == (r * 100) / d,
        f == (r * 100) % d,
    ensures
        (b * 100) / d == q * 100 + e,
        (b * 100) % d == f,
{
    vstd::arithmetic::div_mod::lemma_fundamental_div_mod(r as int * 100, d as int);
    assert(b * 100 == (q * 100 + e) * d + f) by (nonlinear_arith)
        requires
            b == q * d + r,
            r * 100 == d * e + f,
    ;
    vstd::arithmetic::div_mod::lemma_fundamental_div_mod_converse(
        b as int * 100,
        d as int,
        (q * 100 + e) as int,
        f as int,
    );
}

/// Writes `bytes` for humans: below 1024 as whole bytes (`"0 B"`), else in
/// the largest of KiB, MiB, GiB and TiB that it reaches, rounded to two
/// decimal places (`"1.50 KiB"`).
pub fn format_bytes(bytes: u64) -> (r: String)
    ensures
        r@ == bytes_text(bytes as nat),
{
    proof {
        reveal_with_fuel(pow1024, 5);
    }
    let k: u64 = if bytes >= 1099511627776 {
        4
    } else if bytes >= 1073741824 {
        3
    } else if bytes >= 1048576 {
        2
    } else if bytes >= 1024 {
        1
    } else {
        0
    };
    let mut s = String::new();
    if k == 0 {
        push_decimal(&mut s, bytes);
        s.append(" ");
        s.append(unit_str(0));
        proof {
            reveal_strlit(" ");
        }
        assert(s@ =~= bytes_text(bytes as nat));
        return s;
    }
    let d: u64 = if k == 4 {
        1099511627776
    } else if k == 3 {
        1073741824
    } else if k == 2 {
        1048576
    } else {
        1024
    };
    assert(d as nat == pow1024(k as nat));
    let q = bytes / d;
    let rem = bytes % d;
    proof {
        vstd::arithmetic::div_mod::lemma_div_is_ordered_by_denominator(
            bytes as int,
            1024,
            d as int,
        );
        vstd::arithmetic::div_mod::lemma_div_is_ordered(
            bytes as int,
            0xffff_ffff_ffff_ffff,
            1024,
        );
    }
    assert(q <= 18014398509481983);
    let e = rem * 100 / d;
    let f = rem * 100 % d;
    assert(e < 100) by (nonlinear_arith)
        requires
            e == (rem as int * 100) / (d as int),
            rem < d,
            d > 0,
    ;
    proof {
        lemma_hundredths(bytes as nat, d as nat, q as nat, rem as nat, e as nat, f as nat);
    }
    let base = q * 100 + e;
    let h = if 2 * f > d || (2 * f == d && base % 2 == 1) {
        base + 1
    } else {
        base
    };
    assert(h as nat == hundredths(bytes as nat, d as nat));
    push_decimal(&mut s, h / 100);
    s.append(".");
    s.append(digit_str((h / 10) % 10));
    s.append(digit_str(h % 10));
    s.append(" ");
    s.append(unit_str(k));
    proof {
        reveal_strlit(".");
        reveal_strlit(" ");
    }
    assert(s@ =~= bytes_text(bytes as nat));
    s
}

} // verus!
