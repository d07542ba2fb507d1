//! Decimal numerals.
//!
//! Everything the code generator prints is ultimately a decimal numeral, so
//! this module fixes what a numeral is (`dec_str`) and proves renderers for
//! numbers held either in a machine word or in a little-endian digit vector.
//! The digit-vector form exists because a single-precision value scaled to a
//! fixed number of fractional digits can need far more than 64 bits.

use vstd::prelude::*;
use vstd::arithmetic::power::pow;
use vstd::arithmetic::power::lemma_pow0;
use vstd::arithmetic::power::lemma_pow1;
use vstd::arithmetic::power::lemma_pow_adds;
use vstd::arithmetic::power::lemma_pow_positive;
use vstd::arithmetic::div_mod::lemma_fundamental_div_mod;
use vstd::arithmetic::div_mod::lemma_fundamental_div_mod_converse;

verus! {

/// `10^e`, as a mathematical integer.
pub open spec fn pow10(e: nat) -> nat {
    pow(10, e) as nat
}

pub proof fn lemma_pow10_pos(e: nat)
    ensures
        pow10(e) > 0,
{
    lemma_pow_positive(10, e);
}

pub proof fn lemma_pow10_zero()
    ensures
        pow10(0) == 1,
{
    lemma_pow0(10);
}

pub proof fn lemma_pow10_unfold(e: nat)
    ensures
        pow10(e + 1) == 10 * pow10(e),
{
    lemma_pow1(10);
    lemma_pow_adds(10, e, 1);
    lemma_pow_positive(10, e);
}

/// The character for one decimal digit.
pub open spec fn digit_char(d: nat) -> char {
    if d == 0 { '0' }
    else if d == 1 { '1' }
    else if d == 2 { '2' }
    else if d == 3 { '3' }
    else if d == 4 { '4' }
    else if d == 5 { '5' }
    else if d == 6 { '6' }
    else if d == 7 { '7' }
    else if d == 8 { '8' }
    else if d == 9 { '9' }
    else { '?' }
}

/// The decimal numeral of `n`: most significant digit first, no sign, no
/// leading zeros (and exactly "0" for zero).
pub open spec fn dec_str(n: nat) -> Seq<char>
    decreases n,
{
    if n < 10 {
        seq![digit_char(n)]
    } else {
        dec_str(n / 10).push(digit_char(n % 10))
    }
}

pub proof fn lemma_dec_str_small(n: nat)
    requires
        n < 10,
    ensures
        dec_str(n) == seq![digit_char(n)],
{
    reveal_with_fuel(dec_str, 1);
}

pub proof fn lemma_dec_str_step(n: nat)
    requires
        n >= 10,
    ensures
        dec_str(n) == dec_str(n / 10).push(digit_char(n % 10)),
{
    reveal_with_fuel(dec_str, 1);
}

/// Every entry of `ds` is a decimal digit.
pub open spec fn digits_ok(ds: Seq<u8>) -> bool {
    forall|i: int| 0 <= i < ds.len() ==> ds[i] < 10
}

/// The number a little-endian digit sequence stands for.
pub open spec fn digits_val(ds: Seq<u8>) -> nat
    decreases ds.len(),
{
    if ds.len() == 0 {
        0
    } else {
        (ds[0] + 10 * digits_val(ds.drop_first())) as nat
    }
}

pub proof fn lemma_digits_val_nil(ds: Seq<u8>)
    requires
        ds.len() == 0,
    ensures
        digits_val(ds) == 0,
{
    reveal_with_fuel(digits_val, 1);
}

pub proof fn lemma_digits_val_cons(ds: Seq<u8>)
    requires
        ds.len() > 0,
    ensures
        digits_val(ds) == ds[0] + 10 * digits_val(ds.drop_first()),
{
    reveal_with_fuel(digits_val, 1);
}

/// The characters of a little-endian digit sequence, printed most
/// significant digit first.
pub open spec fn digits_chars(ds: Seq<u8>) -> Seq<char> {
    Seq::new(ds.len(), |i: int| digit_char(ds[ds.len() - 1 - i] as nat))
}

proof fn lemma_digits_val_push(ds: Seq<u8>, d: u8)
    ensures
        digits_val(ds.push(d)) == digits_val(ds) + d * pow10(ds.len()),
    decreases ds.len(),
{
    if ds.len() == 0 {
        assert(ds.push(d).drop_first() =~= Seq::<u8>::empty());
        lemma_digits_val_cons(ds.push(d));
        lemma_digits_val_nil(ds);
        lemma_digits_val_nil(ds.push(d).drop_first());
        lemma_pow10_zero();
    } else {
        assert(ds.push(d).drop_first() =~= ds.drop_first().push(d));
        lemma_digits_val_push(ds.drop_first(), d);
        lemma_pow10_unfold((ds.len() - 1) as nat);
        lemma_digits_val_cons(ds);
        lemma_digits_val_cons(ds.push(d));
        assert(digits_val(ds.push(d)) == ds[0] + 10 * digits_val(ds.drop_first().push(d)));
        assert(10 * (digits_val(ds.drop_first()) + d * pow10((ds.len() - 1) as nat))
            == 10 * digits_val(ds.drop_first()) + d * (10 * pow10((ds.len() - 1) as nat)))
            by (nonlinear_arith);
    }
}

proof fn lemma_digits_val_pos(ds: Seq<u8>)
    requires
        ds.len() > 0,
        ds.last() != 0,
    ensures
        digits_val(ds) > 0,
    decreases ds.len(),
{
    lemma_digits_val_cons(ds);
    if ds.len() == 1 {
        lemma_digits_val_nil(ds.drop_first());
    } else {
        lemma_digits_val_pos(ds.drop_first());
    }
}

proof fn lemma_digits_dec_str(ds: Seq<u8>)
    requires
        digits_ok(ds),
        ds.len() > 0,
        ds.last() != 0,
    ensures
        digits_chars(ds) == dec_str(digits_val(ds)),
    decreases ds.len(),
{
    lemma_digits_val_cons(ds);
    if ds.len() == 1 {
        lemma_digits_val_nil(ds.drop_first());
        assert(digits_val(ds) == ds[0]);
        lemma_dec_str_small(ds[0] as nat);
        assert(digits_chars(ds) =~= seq![digit_char(ds[0] as nat)]);
    } else {
        let rest = ds.drop_first();
        lemma_digits_dec_str(rest);
        lemma_digits_val_pos(rest);
        let v = digits_val(ds);
        assert(v == ds[0] + 10 * digits_val(rest));
        lemma_fundamental_div_mod_converse(v as int, 10, digits_val(rest) as int, ds[0] as int);
        assert(v / 10 == digits_val(rest) && v % 10 == ds[0]);
        assert(v >= 10);
        lemma_dec_str_step(v);
        assert(dec_str(v) == dec_str(digits_val(rest)).push(digit_char(ds[0] as nat)));
        assert(digits_chars(ds) =~= digits_chars(rest).push(digit_char(ds[0] as nat)));
    }
}

/// The one-character string for a decimal digit.
pub fn digit_str(d: u8) -> (r: &'static str)
    requires
        d < 10,
    ensures
        r@ == seq![digit_char(d as nat)],
{
    proof {
        reveal_strlit("0");
        reveal_strlit("1");
        reveal_strlit("2");
        reveal_strlit("3");
        reveal_strlit("4");
        reveal_strlit("5");
        reveal_strlit("6");
        reveal_strlit("7");
        reveal_strlit("8");
        reveal_strlit("9");
    }
    let r = match d {
        0 => "0",
        1 => "1",
        2 => "2",
        3 => "3",
        4 => "4",
        5 => "5",
        6 => "6",
        7 => "7",
        8 => "8",
        _ => "9",
    };
    proof {
        assert(r@ =~= seq![digit_char(d as nat)]);
    }
    r
}

/// The little-endian decimal digits of `n`.
pub fn u64_to_digits(n: u64) -> (r: Vec<u8>)
    ensures
        digits_ok(r@),
        digits_val(r@) == n,
        r@.len() >= 1,
        n > 0 ==> r@.last() != 0,
{
    let mut ds: Vec<u8> = Vec::new();
    let mut cur = n;
    proof {
        lemma_pow10_zero();
        lemma_digits_val_nil(ds@);
    }
    while cur >= 10
        invariant
            digits_ok(ds@),
            n == digits_val(ds@) + cur * pow10(ds@.len()),
            n > 0 ==> cur > 0,
        decreases cur,
    {
        let d = (cur % 10) as u8;
        let ghost len0 = ds@.len();
        proof {
            lemma_fundamental_div_mod(cur as int, 10);
            lemma_digits_val_push(ds@, d);
            lemma_pow10_unfold(len0);
            assert((d + 10 * (cur / 10)) * pow10(len0)
                == d * pow10(len0) + (cur / 10) * (10 * pow10(len0))) by (nonlinear_arith);
        }
        ds.push(d);
        cur = cur / 10;
    }
    let d = cur as u8;
    proof {
        lemma_digits_val_push(ds@, d);
        lemma_pow10_pos(ds@.len());
    }
    ds.push(d);
    ds
}

/// Prints a digit vector, most significant digit first.
pub fn render_digits(ds: &Vec<u8>) -> (r: String)
    requires
        digits_ok(ds@),
        ds@.len() > 0,
        ds@.last() != 0,
    ensures
        r@ == dec_str(digits_val(ds@)),
{
    let mut s = String::new();
    let mut i = ds.len();
    while i > 0
        invariant
            i <= ds@.len(),
            digits_ok(ds@),
            s@ =~= digits_chars(ds@).take(ds@.len() - i),
        decreases i,
    {
        i = i - 1;
        let c = digit_str(ds[i]);
        s.append(c);
        proof {
            let full = digits_chars(ds@);
            assert(full[ds@.len() - 1 - i as int] == digit_char(ds@[i as int] as nat));
            assert(s@ =~= full.take(ds@.len() - i));
        }
    }
    proof {
        assert(digits_chars(ds@).take(ds@.len() as int) =~= digits_chars(ds@));
        lemma_digits_dec_str(ds@);
    }
    s
}

/// The decimal numeral of a machine word.
pub fn u64_to_dec_string(n: u64) -> (r: String)
    ensures
        r@ == dec_str(n as nat),
{
    if n == 0 {
        let r = String::from_str("0");
        proof {
            reveal_strlit("0");
            lemma_dec_str_small(0);
            assert(r@ =~= dec_str(0));
        }
        r
    } else {
        let ds = u64_to_digits(n);
        render_digits(&ds)
    }
}

/// Doubles the number held in a little-endian digit vector.
pub fn double_digits(ds: &mut Vec<u8>)
    requires
        digits_ok(old(ds)@),
        old(ds)@.len() > 0,
        old(ds)@.last() != 0,
    ensures
        digits_ok(final(ds)@),
        final(ds)@.len() > 0,
        final(ds)@.last() != 0,
        digits_val(final(ds)@) == 2 * digits_val(old(ds)@),
{
    let ghost orig = ds@;
    let len = ds.len();
    let mut carry: u8 = 0;
    let mut i: usize = 0;
    proof {
        lemma_pow10_zero();
        lemma_digits_val_nil(orig.take(0));
        lemma_digits_val_nil(ds@.take(0));
    }
    while i < len
        invariant
            len == orig.len(),
            ds@.len() == len,
            i <= len,
            carry <= 1,
            digits_ok(orig),
            digits_ok(ds@.take(i as int)),
            forall|j: int| i <= j < len ==> ds@[j] == orig[j],
            2 * digits_val(orig.take(i as int))
                == digits_val(ds@.take(i as int)) + carry * pow10(i as nat),
            orig.last() != 0,
            i == len ==> (carry == 1 || ds@[i - 1] != 0),
        decreases len - i,
    {
        let d = ds[i];
        proof {
            assert(ds@[i as int] == orig[i as int]);
        }
        let t = 2 * d + carry;
        let dnew = t % 10;
        let cnew = t / 10;
        let ghost pre = ds@;
        ds.set(i, dnew);
        proof {
            let it = i as int;
            assert(pre[it] == orig[it]);
            assert(orig.take(it + 1) =~= orig.take(it).push(orig[it]));
            assert(ds@.take(it + 1) =~= pre.take(it).push(dnew));
            assert(pre.take(it) =~= ds@.take(it));
            lemma_digits_val_push(orig.take(it), orig[it]);
            lemma_digits_val_push(pre.take(it), dnew);
            lemma_pow10_unfold(i as nat);
            lemma_fundamental_div_mod(t as int, 10);
            assert(2 * (digits_val(orig.take(it)) + orig[it] * pow10(i as nat))
                == 2 * digits_val(orig.take(it)) + (2 * orig[it]) * pow10(i as nat))
                by (nonlinear_arith);
            assert((dnew + 10 * cnew) * pow10(i as nat)
                == dnew * pow10(i as nat) + cnew * (10 * pow10(i as nat)))
                by (nonlinear_arith);
            assert(((2 * orig[it]) + carry) * pow10(i as nat)
                == (2 * orig[it]) * pow10(i as nat) + carry * pow10(i as nat))
                by (nonlinear_arith);
            assert(t == dnew + 10 * cnew);
            assert(t == 2 * orig[it] + carry);
            assert(2 * digits_val(orig.take(it + 1))
                == digits_val(ds@.take(it + 1)) + cnew * pow10((i + 1) as nat));
            if i + 1 == len && cnew == 0 {
                assert(orig[it] >= 1);
                assert(dnew == t);
            }
        }
        i = i + 1;
        carry = cnew;
    }
    proof {
        assert(orig.take(len as int) =~= orig);
        assert(ds@.take(len as int) =~= ds@);
    }
    if carry > 0 {
        proof {
            lemma_digits_val_push(ds@, carry);
        }
        ds.push(carry);
    } else {
        proof {
            lemma_pow10_pos(len as nat);
            assert(digits_val(ds@) == 2 * digits_val(orig));
        }
    }
}

} // verus!
