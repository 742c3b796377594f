//! Converting a human token amount to base units of the token.
use vstd::prelude::*;
use vstd::utf8::is_ascii_chars;
use vstd::string::StringSliceAdditionalSpecFns;
use crate::index::{digit_value, digits_value, is_digit};

verus! {

broadcast use vstd::string::group_string_axioms, vstd::utf8::group_utf8_lib;

/// The longest amount text, other than plain decimal text, that is converted.
pub const MAX_AMOUNT_CHARS: usize = 40;

/// The most decimals a token may have for amounts other than plain decimal
/// text to be converted.
pub const MAX_DECIMALS: u8 = 36;

/// Ten to the power `n`.
pub open spec fn pow10(n: nat) -> nat
    decreases n,
{
    if n == 0 {
        1
    } else {
        10 * pow10((n - 1) as nat)
    }
}

/// Two to the power 256: the bound of ethers' 256-bit integers.
pub open spec fn u256_bound() -> int {
    115792089237316195423570985008687907853269984665640564039457584007913129639936int
}

/// Plain decimal text: digits, with at most one `.` among them.
pub open spec fn is_plain_amount(a: Seq<char>) -> bool {
    forall|i: int|
        0 <= i < a.len() ==> is_digit(#[trigger] a[i]) || (a[i] == '.' && forall|j: int|
            0 <= j < a.len() && j != i ==> a[j] != '.')
}

/// Where the `.` of an amount stands, or its length when it has none.
pub open spec fn dot_index(a: Seq<char>) -> int {
    if exists|i: int| 0 <= i < a.len() && a[i] == '.' {
        choose|i: int| 0 <= i < a.len() && a[i] == '.'
    } else {
        a.len() as int
    }
}

/// The number of fraction digits of an amount.
pub open spec fn frac_len(a: Seq<char>) -> nat {
    if dot_index(a) < a.len() {
        (a.len() - dot_index(a) - 1) as nat
    } else {
        0
    }
}

/// The digits of an amount, without its `.`.
pub open spec fn digits_of(a: Seq<char>) -> Seq<char>
    decreases a.len(),
{
    if a.len() == 0 {
        a
    } else if a.last() == '.' {
        digits_of(a.drop_last())
    } else {
        digits_of(a.drop_last()).push(a.last())
    }
}

/// What `parse_units` gives for plain decimal text: the amount times ten to
/// the `decimals`, fraction digits beyond `decimals` cut off, when it fits
/// in `u128`. A scale of 10^78 or more does not fit its 256 bits.
pub open spec fn plain_units(a: Seq<char>, decimals: u8) -> Option<u128> {
    let d = digits_of(a);
    let f = frac_len(a);
    let v: int = if f > decimals {
        digits_value(d.subrange(0, d.len() - (f - decimals))) as int
    } else if decimals - f >= 78 {
        u128::MAX + 1
    } else {
        digits_value(d) * pow10((decimals - f) as nat) as int
    };
    if v <= u128::MAX {
        Some(v as u128)
    } else {
        None
    }
}

/// What ethers' `parse_units` gives for an amount scaled to a token's
/// decimals, when it is a non-negative number that fits in `u128`; `None`
/// otherwise.
pub uninterp spec fn base_units_of(amount: Seq<char>, decimals: u8) -> Option<u128>;

/// Relies on `ethers::utils::parse_units`: for plain decimal text, the
/// amount times ten to the `decimals`, extra fraction digits cut off. The
/// precondition keeps its slicing on character boundaries and its final
/// 256-bit product from overflowing, where it panics.
#[verifier::external_body]
fn parse_base_units(amount: &str, decimals: u8) -> (r: Option<u128>)
    requires
        is_ascii_chars(amount@),
        (amount@.len() <= MAX_AMOUNT_CHARS && decimals <= MAX_DECIMALS) || (is_plain_amount(
            amount@,
        ) && (frac_len(amount@) > decimals || decimals - frac_len(amount@) >= 78 || digits_value(
            digits_of(amount@),
        ) * pow10((decimals - frac_len(amount@)) as nat) <= u128::MAX)),
    ensures
        r == base_units_of(amount@, decimals),
        is_plain_amount(amount@) ==> r == plain_units(amount@, decimals),
{
    match ethers::utils::parse_units(amount, decimals as u32) {
        Ok(ethers::utils::ParseUnits::U256(v)) => u128::try_from(v).ok(),
        _ => None,
    }
}

/// The base units of an amount of a token with the given decimals, or `None`
/// where the amount is not a non-negative decimal number that fits.
pub open spec fn amount_in_of(amount: Seq<char>, decimals: u8) -> Option<u128> {
    if is_plain_amount(amount) {
        plain_units(amount, decimals)
    } else if is_ascii_chars(amount) && amount.len() <= MAX_AMOUNT_CHARS && decimals
        <= MAX_DECIMALS {
        base_units_of(amount, decimals)
    } else {
        None
    }
}

proof fn lemma_pow10_positive(n: nat)
    ensures
        pow10(n) >= 1,
    decreases n,
{
    if n > 0 {
        lemma_pow10_positive((n - 1) as nat);
    }
}

/// Converts a human amount to base units of a token with the given decimals.
pub fn parse_amount(amount: &str, decimals: u8) -> (r: Option<u128>)
    ensures
        r == amount_in_of(amount@, decimals),
{
    let ghost a = amount@;
    if !amount.is_ascii() {
        proof {
            let i = choose|i: int| 0 <= i < a.len() && !('\0' <= #[trigger] a[i] <= '\u{7f}');
            assert(!is_plain_amount(a)) by {
                assert(!is_digit(a[i]) && a[i] != '.');
            }
        }
        return None;
    }
    let bytes = amount.as_bytes();
    let n = bytes.len();
    assert(bytes@.len() == a.len());
    // Check for plain text and find the dot.
    let mut dot: usize = n;
    let mut plain = true;
    let mut i: usize = 0;
    while i < n
        invariant
            a == amount@,
            is_ascii_chars(a),
            bytes@ == amount.spec_bytes(),
            n == a.len(),
            i <= n,
            dot == n || (dot < i && a[dot as int] == '.'),
            plain ==> forall|j: int| 0 <= j < i ==> is_digit(#[trigger] a[j]) || j == dot,
            plain ==> forall|j: int| 0 <= j < i && a[j] == '.' ==> j == dot,
            !plain ==> !is_plain_amount(a),
        decreases n - i,
    {
        let b = bytes[i];
        assert(b == a[i as int] as u8);
        if plain {
            if b == 46 {
                assert(a[i as int] == '.');
                if dot < n {
                    assert(!is_plain_amount(a)) by {
                        assert(a[dot as int] == '.' && dot != i);
                        assert(!is_digit(a[i as int]));
                    }
                    plain = false;
                } else {
                    dot = i;
                }
            } else if b < 48 || b > 57 {
                assert(!is_digit(a[i as int]) && a[i as int] != '.');
                plain = false;
            } else {
                assert(is_digit(a[i as int]));
            }
        }
        i = i + 1;
    }
    if !plain {
        if amount.unicode_len() <= MAX_AMOUNT_CHARS && decimals <= MAX_DECIMALS {
            return parse_base_units(amount, decimals);
        }
        return None;
    }
    assert(is_plain_amount(a));
    proof {
        if dot < n {
            assert(dot_index(a) == dot);
        } else {
            assert(!exists|j: int| 0 <= j < a.len() && a[j] == '.');
        }
    }
    let frac: usize = if dot < n { n - dot - 1 } else { 0 };
    assert(frac == frac_len(a));
    if frac > decimals as usize {
        return parse_base_units(amount, decimals);
    }
    let scale: usize = decimals as usize - frac;
    if scale >= 78 {
        return parse_base_units(amount, decimals);
    }
    // The digits' value, noting when it passes u128::MAX.
    let mut acc: u128 = 0;
    let mut big = false;
    let mut k: usize = 0;
    assert(a.subrange(0, 0) =~= Seq::<char>::empty());
    while k < n
        invariant
            a == amount@,
            is_ascii_chars(a),
            is_plain_amount(a),
            bytes@ == amount.spec_bytes(),
            n == a.len(),
            k <= n,
            big ==> digits_value(digits_of(a.subrange(0, k as int))) > u128::MAX,
            !big ==> acc == digits_value(digits_of(a.subrange(0, k as int))),
        decreases n - k,
    {
        let b = bytes[k];
        assert(b == a[k as int] as u8);
        let ghost pre = a.subrange(0, k as int);
        let ghost next = a.subrange(0, k as int + 1);
        assert(next.drop_last() =~= pre);
        assert(next.last() == a[k as int]);
        if b != 46 {
            assert(a[k as int] != '.');
            assert(is_digit(a[k as int]));
            assert(digits_of(next) == digits_of(pre).push(a[k as int]));
            assert(digits_of(next).drop_last() =~= digits_of(pre));
            assert(digits_value(digits_of(next)) == digits_value(digits_of(pre)) * 10
                + digit_value(a[k as int]));
            let d = (b - 48) as u128;
            assert(digit_value(a[k as int]) == d);
            if !big {
                match acc.checked_mul(10) {
                    Some(m) => match m.checked_add(d) {
                        Some(v) => {
                            acc = v;
                        },
                        None => {
                            big = true;
                        },
                    },
                    None => {
                        big = true;
                    },
                }
            }
        } else {
            assert(digits_of(next) == digits_of(pre));
        }
        k = k + 1;
    }
    assert(a.subrange(0, n as int) =~= a);
    proof {
        lemma_pow10_positive(scale as nat);
    }
    if big {
        assert(digits_value(digits_of(a)) * pow10(scale as nat) >= digits_value(digits_of(a)))
            by (nonlinear_arith)
            requires
                pow10(scale as nat) >= 1,
        ;
        return None;
    }
    // Scale by ten, `scale` times, noting when it passes u128::MAX.
    let mut prod: u128 = acc;
    let mut t: usize = 0;
    assert(pow10(0) == 1);
    while t < scale
        invariant
            t <= scale,
            prod == acc * pow10(t as nat),
            a == amount@,
            is_plain_amount(a),
            acc == digits_value(digits_of(a)),
            frac_len(a) <= decimals,
            scale == decimals - frac_len(a),
            scale < 78,
        decreases scale - t,
    {
        match prod.checked_mul(10) {
            Some(p) => {
                prod = p;
                assert(acc * pow10((t + 1) as nat) == acc * pow10(t as nat) * 10)
                    by (nonlinear_arith)
                    requires
                        pow10((t + 1) as nat) == 10 * pow10(t as nat),
                ;
            },
            None => {
                proof {
                    lemma_scale_grows(acc as int, t as nat, scale as nat);
                }
                return None;
            },
        }
        t = t + 1;
    }
    parse_base_units(amount, decimals)
}


/// Scaling further by ten never makes a product smaller.
proof fn lemma_scale_grows(x: int, t: nat, s: nat)
    requires
        x >= 0,
        t < s,
        x * pow10(t) * 10 > u128::MAX,
    ensures
        x * pow10(s) > u128::MAX,
    decreases s - t,
{
    assert(pow10(t + 1) == 10 * pow10(t));
    assert(x * pow10(t + 1) == x * pow10(t) * 10) by (nonlinear_arith)
        requires
            pow10(t + 1) == 10 * pow10(t),
    ;
    if t + 1 < s {
        lemma_pow10_positive(t + 1);
        assert(x * pow10(t + 1) * 10 >= x * pow10(t + 1)) by (nonlinear_arith)
            requires
                x >= 0,
                pow10(t + 1) >= 1,
        ;
        lemma_scale_grows(x, t + 1, s);
    }
}

} // verus!
