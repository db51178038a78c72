//! Human-readable byte sizes ("5.0 MB"), computed exactly in integers with
//! the result that `f64` arithmetic and `{:.1}` formatting give.
use vstd::prelude::*;
use crate::text::{from_chars, push_str_chars};

verus! {

/// `2^e`.
pub open spec fn two_pow(e: nat) -> nat
    decreases e,
{
    if e == 0 {
        1
    } else {
        2 * two_pow((e - 1) as nat)
    }
}

/// The number of binary digits of `n` (0 for 0).
pub open spec fn bit_len(n: nat) -> nat
    decreases n,
{
    if n == 0 {
        0
    } else {
        1 + bit_len(n / 2)
    }
}

/// `num / den` rounded to the nearest integer, ties to even.
pub open spec fn round_half_even(num: nat, den: nat) -> nat {
    let q = num / den;
    let r = num % den;
    if 2 * r > den || (2 * r == den && q % 2 == 1) {
        q + 1
    } else {
        q
    }
}

/// The value of `n as f64`: `n` rounded to 53 significant bits, ties to even.
pub open spec fn to_f64(n: nat) -> nat {
    if n < two_pow(53) {
        n
    } else {
        let p = two_pow((bit_len(n) - 53) as nat);
        round_half_even(n, p) * p
    }
}

/// The unit index for a value: the largest `k <= 4` with `v >= 1024^k`.
pub open spec fn unit_of(v: nat) -> nat {
    if v >= 1099511627776 {
        4
    } else if v >= 1073741824 {
        3
    } else if v >= 1048576 {
        2
    } else if v >= 1024 {
        1
    } else {
        0
    }
}

/// `1024^k` for the unit indices.
pub open spec fn unit_scale(k: nat) -> nat {
    if k == 4 {
        1099511627776
    } else if k == 3 {
        1073741824
    } else if k == 2 {
        1048576
    } else if k == 1 {
        1024
    } else {
        1
    }
}

pub open spec fn unit_name(k: nat) -> Seq<char> {
    if k == 4 {
        "TB"@
    } else if k == 3 {
        "GB"@
    } else if k == 2 {
        "MB"@
    } else if k == 1 {
        "KB"@
    } else {
        "B"@
    }
}

/// The decimal digit for `d < 10`.
pub open spec fn digit_char(d: nat) -> char {
    if d == 0 {
        '0'
    } else if d == 1 {
        '1'
    } else if d == 2 {
        '2'
    } else if d == 3 {
        '3'
    } else if d == 4 {
        '4'
    } else if d == 5 {
        '5'
    } else if d == 6 {
        '6'
    } else if d == 7 {
        '7'
    } else if d == 8 {
        '8'
    } else {
        '9'
    }
}

/// The decimal representation of `n`, without leading zeros.
pub open spec fn decimal(n: nat) -> Seq<char>
    decreases n,
{
    if n < 10 {
        seq![digit_char(n)]
    } else {
        decimal(n / 10).push(digit_char(n % 10))
    }
}

/// `format_bytes`: bytes below 1024 as `"{n} B"`; larger sizes divided by the
/// largest power of 1024 they reach (up to TB) and shown with one decimal.
pub open spec fn spec_format_bytes(bytes: nat) -> Seq<char> {
    let v = to_f64(bytes);
    let k = unit_of(v);
    if k == 0 {
        decimal(bytes) + " "@ + unit_name(0)
    } else {
        let t = round_half_even(v * 10, unit_scale(k));
        decimal(t / 10) + seq!['.', digit_char(t % 10)] + " "@ + unit_name(k)
    }
}

fn digit_of(d: u64) -> (c: char)
    requires
        d < 10,
    ensures
        c == digit_char(d as nat),
{
    if d == 0 {
        '0'
    } else if d == 1 {
        '1'
    } else if d == 2 {
        '2'
    } else if d == 3 {
        '3'
    } else if d == 4 {
        '4'
    } else if d == 5 {
        '5'
    } else if d == 6 {
        '6'
    } else if d == 7 {
        '7'
    } else if d == 8 {
        '8'
    } else {
        '9'
    }
}

/// The decimal digits of `n`.
pub fn decimal_chars(n: u64) -> (r: Vec<char>)
    ensures
        r@ == decimal(n as nat),
    decreases n,
{
    if n < 10 {
        let v = vec![digit_of(n)];
        assert(v@ =~= seq![digit_char(n as nat)]);
        v
    } else {
        let mut v = decimal_chars(n / 10);
        v.push(digit_of(n % 10));
        v
    }
}

proof fn lemma_two_pow_values()
    ensures
        two_pow(11) == 2048,
        two_pow(53) == 0x20_0000_0000_0000,
        two_pow(64) == 0x1_0000_0000_0000_0000,
{
    reveal_with_fuel(two_pow, 65);
}

proof fn lemma_two_pow_positive(e: nat)
    ensures
        two_pow(e) >= 1,
    decreases e,
{
    if e > 0 {
        lemma_two_pow_positive((e - 1) as nat);
    }
}

proof fn lemma_two_pow_monotone(a: nat, b: nat)
    requires
        a <= b,
    ensures
        two_pow(a) <= two_pow(b),
    decreases b,
{
    if a < b {
        lemma_two_pow_monotone(a, (b - 1) as nat);
        lemma_two_pow_positive((b - 1) as nat);
    }
}

/// `n >= 2^k` exactly when `n` has more than `k` binary digits.
proof fn lemma_bit_len_bounds(n: nat, k: nat)
    ensures
        n >= two_pow(k) <==> bit_len(n) >= k + 1,
    decreases n,
{
    if n == 0 {
        lemma_two_pow_positive(k);
    } else if k == 0 {
    } else {
        lemma_bit_len_bounds(n / 2, (k - 1) as nat);
    }
}

fn bit_length(n: u64) -> (r: u64)
    ensures
        r == bit_len(n as nat),
        r <= 64,
{
    let mut m = n;
    let mut k: u64 = 0;
    proof {
        lemma_bit_len_bounds(n as nat, 64);
        lemma_two_pow_values();
    }
    while m > 0
        invariant
            bit_len(n as nat) == k + bit_len(m as nat),
            bit_len(n as nat) <= 64,
        decreases m,
    {
        k = k + 1;
        m = m / 2;
    }
    k
}

fn two_pow_exec(e: u64) -> (r: u128)
    requires
        e <= 64,
    ensures
        r == two_pow(e as nat),
{
    let mut p: u128 = 1;
    let mut i: u64 = 0;
    while i < e
        invariant
            i <= e <= 64,
            p == two_pow(i as nat),
        decreases e - i,
    {
        proof {
            lemma_two_pow_monotone(i as nat, 64);
        lemma_two_pow_values();
        }
        p = p * 2;
        i = i + 1;
    }
    p
}

fn round_half_even_exec(num: u128, den: u128) -> (r: u128)
    requires
        den > 0,
        den <= 0x1_0000_0000_0000_0000,
        num < 0x8000_0000_0000_0000_0000_0000_0000_0000u128,
    ensures
        r == round_half_even(num as nat, den as nat),
{
    let q = num / den;
    let r = num % den;
    assert(r < den);
    proof {
        assert(q <= num) by (nonlinear_arith)
            requires
                den > 0,
                q == num / den,
        ;
    }
    if 2 * r > den || (2 * r == den && q % 2 == 1) {
        q + 1
    } else {
        q
    }
}

/// The value that `n as f64` holds.
fn f64_value(n: u64) -> (r: u128)
    ensures
        r == to_f64(n as nat),
        r <= 0x1_0000_0000_0000_0000 + 2048,
{
    proof {
        lemma_two_pow_values();
    }
    if n < 0x20_0000_0000_0000 {
        return n as u128;
    }
    let bl = bit_length(n);
    proof {
        lemma_bit_len_bounds(n as nat, 53);
    }
    let e = bl - 53;
    let p = two_pow_exec(e);
    proof {
        lemma_two_pow_monotone(e as nat, 11);
        lemma_two_pow_values();
        lemma_two_pow_positive(e as nat);
    }
    let q = round_half_even_exec(n as u128, p);
    proof {
        let nn = n as int;
        let pp = p as int;
        vstd::arithmetic::div_mod::lemma_fundamental_div_mod(nn, pp);
        assert(q <= nn / pp + 1);
        assert((nn / pp) * pp <= nn) by (nonlinear_arith)
            requires
                pp > 0,
                nn >= 0,
                nn == pp * (nn / pp) + nn % pp,
                nn % pp >= 0,
        ;
        assert(q * pp <= nn + pp) by (nonlinear_arith)
            requires
                q <= nn / pp + 1,
                (nn / pp) * pp <= nn,
                pp > 0,
        ;
    }
    q * p
}

/// A byte count in the largest unit it reaches, up to TB: `"512 B"`,
/// `"1.0 MB"`, `"5.0 GB"`, with one decimal rounded half to even, as `f64`
/// division and `{:.1}` formatting produce it.
pub fn format_bytes(bytes: u64) -> (r: String)
    ensures
        r@ == spec_format_bytes(bytes as nat),
{
    proof {
        reveal_strlit(" ");
    }
    let v = f64_value(bytes);
    let k: u64 = if v >= 1099511627776 {
        4
    } else if v >= 1073741824 {
        3
    } else if v >= 1048576 {
        2
    } else if v >= 1024 {
        1
    } else {
        0
    };
    let mut out: Vec<char>;
    if k == 0 {
        out = decimal_chars(bytes);
        push_str_chars(&mut out, " ");
        push_str_chars(&mut out, "B");
        assert(out@ =~= spec_format_bytes(bytes as nat));
    } else {
        let scale: u128 = if k == 4 {
            1099511627776
        } else if k == 3 {
            1073741824
        } else if k == 2 {
            1048576
        } else {
            1024
        };
        let num = v * 10;
        let t = round_half_even_exec(num, scale);
        proof {
            let q = (num as int) / (scale as int);
            vstd::arithmetic::div_mod::lemma_fundamental_div_mod(num as int, scale as int);
            assert(q * 1024 <= num) by (nonlinear_arith)
                requires
                    scale >= 1024,
                    q >= 0,
                    num as int == scale * q + (num as int) % (scale as int),
                    (num as int) % (scale as int) >= 0,
            ;
            assert(t <= q + 1);
        }
        out = decimal_chars((t / 10) as u64);
        out.push('.');
        out.push(digit_of((t % 10) as u64));
        push_str_chars(&mut out, " ");
        if k == 4 {
            push_str_chars(&mut out, "TB");
        } else if k == 3 {
            push_str_chars(&mut out, "GB");
        } else if k == 2 {
            push_str_chars(&mut out, "MB");
        } else {
            push_str_chars(&mut out, "KB");
        }
        assert(out@ =~= spec_format_bytes(bytes as nat));
    }
    from_chars(&out)
}

} // verus!
