//! The history index: one row per submitted blob, pairing an address with the
//! height the blob was included at. Heights are stored as decimal text.
use vstd::prelude::*;
use vstd::utf8::is_ascii_chars;
use vstd::string::StringSliceAdditionalSpecFns;
use crate::encoding::{lower_of, lowercase};

verus! {

broadcast use vstd::string::group_string_axioms, vstd::utf8::group_utf8_lib;

/// The tables of the history index.
#[derive(Debug, Clone, Copy, PartialEq, Eq, Structural)]
pub enum Table {
    W3Transaction,
}

impl Table {
    /// The table's name in the store.
    pub fn map_table(&self) -> (r: String)
        ensures
            r@ == "w3_transaction"@,
    {
        match self {
            Table::W3Transaction => String::from_str("w3_transaction"),
        }
    }
}

/// One row of the history index.
#[derive(Debug, Clone, PartialEq, Eq)]
pub struct W3Transaction {
    pub w3_height: String,
    pub w3_address: String,
}

/// The digit character of a number below ten.
pub open spec fn digit_char(d: nat) -> char {
    if d == 0 { '0' }
    else if d == 1 { '1' }
    else if d == 2 { '2' }
    else if d == 3 { '3' }
    else if d == 4 { '4' }
    else if d == 5 { '5' }
    else if d == 6 { '6' }
    else if d == 7 { '7' }
    else if d == 8 { '8' }
    else { '9' }
}

pub open spec fn is_digit(c: char) -> bool {
    '0' <= c <= '9'
}

/// The value of a digit character.
pub open spec fn digit_value(c: char) -> nat {
    (c as u32 - '0' as u32) as nat
}

/// The decimal text of a number, without leading zeros.
pub open spec fn decimal_chars(n: nat) -> Seq<char>
    decreases n,
{
    if n < 10 {
        seq![digit_char(n)]
    } else {
        decimal_chars(n / 10).push(digit_char(n % 10))
    }
}

/// The value of a text of digits.
pub open spec fn digits_value(s: Seq<char>) -> nat
    decreases s.len(),
{
    if s.len() == 0 {
        0
    } else {
        digits_value(s.drop_last()) * 10 + digit_value(s.last())
    }
}

/// The height that a stored text denotes: a non-empty run of decimal digits
/// whose value fits in `u64`.
pub open spec fn height_of_text(s: Seq<char>) -> Option<u64> {
    if s.len() > 0 && (forall|i: int| 0 <= i < s.len() ==> is_digit(#[trigger] s[i]))
        && digits_value(s) <= u64::MAX {
        Some(digits_value(s) as u64)
    } else {
        None
    }
}

/// Relies on `u64`'s `Display` through `to_string`: its decimal digits,
/// without sign or leading zeros.
#[verifier::external_body]
fn decimal_text(n: u64) -> (r: String)
    ensures
        r@ == decimal_chars(n as nat),
{
    n.to_string()
}

proof fn lemma_digits_monotone(s: Seq<char>, k: int)
    requires
        0 <= k <= s.len(),
        forall|i: int| 0 <= i < s.len() ==> is_digit(#[trigger] s[i]),
    ensures
        digits_value(s.subrange(0, k)) <= digits_value(s),
    decreases s.len() - k,
{
    if k < s.len() {
        lemma_digits_monotone(s, k + 1);
        assert(s.subrange(0, k + 1).drop_last() =~= s.subrange(0, k));
    } else {
        assert(s.subrange(0, k) =~= s);
    }
}

/// Reads a stored height back: `None` unless the text is a run of decimal
/// digits whose value fits in `u64`.
pub fn parse_height(text: &str) -> (r: Option<u64>)
    ensures
        r == height_of_text(text@),
{
    if !text.is_ascii() {
        proof {
            let i = choose|i: int|
                0 <= i < text@.len() && !('\0' <= #[trigger] text@[i] <= '\u{7f}');
            assert(!is_digit(text@[i]));
        }
        return None;
    }
    let bytes = text.as_bytes();
    let ghost s = text@;
    assert(bytes@.len() == s.len());
    if bytes.len() == 0 {
        return None;
    }
    let mut acc: u64 = 0;
    let mut i: usize = 0;
    while i < bytes.len()
        invariant
            s == text@,
            is_ascii_chars(s),
            bytes@ == text.spec_bytes(),
            bytes@.len() == s.len(),
            i <= s.len(),
            forall|j: int| 0 <= j < i ==> is_digit(#[trigger] s[j]),
            acc == digits_value(s.subrange(0, i as int)),
        decreases s.len() - i,
    {
        let b = bytes[i];
        assert(b == s[i as int] as u8);
        if b < 48 || b > 57 {
            assert(!is_digit(s[i as int]));
            return None;
        }
        assert(is_digit(s[i as int]));
        assert(s.subrange(0, i as int + 1).drop_last() =~= s.subrange(0, i as int));
        assert(digit_value(s[i as int]) == b - 48);
        let next = match acc.checked_mul(10) {
            Some(m) => m.checked_add((b - 48) as u64),
            None => None,
        };
        match next {
            Some(v) => {
                acc = v;
            },
            None => {
                proof {
                    let k = i as int + 1;
                    if forall|j: int| 0 <= j < s.len() ==> is_digit(#[trigger] s[j]) {
                        lemma_digits_monotone(s, k);
                    }
                }
                return None;
            },
        }
        i = i + 1;
    }
    assert(s.subrange(0, s.len() as int) =~= s);
    Some(acc)
}

/// A stored height reads back as the height that was stored.
pub proof fn lemma_height_round_trip(n: u64)
    ensures
        height_of_text(decimal_chars(n as nat)) == Some(n),
{
    lemma_decimal_digits(n as nat);
}

proof fn lemma_digit_char(d: nat)
    requires
        d < 10,
    ensures
        is_digit(digit_char(d)),
        digit_value(digit_char(d)) == d,
{
    assert('0' as u32 == 48);
    assert('9' as u32 == 57);
    if d == 0 { assert('0' as u32 == 48); }
    else if d == 1 { assert('1' as u32 == 49); }
    else if d == 2 { assert('2' as u32 == 50); }
    else if d == 3 { assert('3' as u32 == 51); }
    else if d == 4 { assert('4' as u32 == 52); }
    else if d == 5 { assert('5' as u32 == 53); }
    else if d == 6 { assert('6' as u32 == 54); }
    else if d == 7 { assert('7' as u32 == 55); }
    else if d == 8 { assert('8' as u32 == 56); }
    else { assert('9' as u32 == 57); }
}

proof fn lemma_decimal_digits(n: nat)
    ensures
        digits_value(decimal_chars(n)) == n,
        decimal_chars(n).len() > 0,
        forall|i: int| 0 <= i < decimal_chars(n).len() ==> is_digit(#[trigger] decimal_chars(n)[i]),
    decreases n,
{
    lemma_digit_char(n % 10);
    if n >= 10 {
        lemma_decimal_digits(n / 10);
        let s = decimal_chars(n);
        assert(s.drop_last() =~= decimal_chars(n / 10));
        assert(n == (n / 10) * 10 + n % 10);
        assert(digits_value(s) == digits_value(decimal_chars(n / 10)) * 10 + digit_value(
            digit_char(n % 10),
        ));
    } else {
        assert(decimal_chars(n).drop_last() =~= Seq::<char>::empty());
        assert(digits_value(decimal_chars(n)) == digits_value(Seq::<char>::empty()) * 10
            + digit_value(digit_char(n)));
    }
}

impl W3Transaction {
    /// The row that records `height` for `address`; the address is stored in
    /// lower case, so that lookups do not depend on its case.
    pub fn new(height: u64, address: &str) -> (r: W3Transaction)
        ensures
            r.w3_height@ == decimal_chars(height as nat),
            r.w3_address@ == lower_of(address@),
    {
        W3Transaction { w3_height: decimal_text(height), w3_address: lowercase(address) }
    }
}

/// The heights of index rows, in order, or `None` where a row's height text is
/// not a stored height.
pub open spec fn heights_of_rows(rows: Seq<W3Transaction>) -> Option<Seq<u64>>
    decreases rows.len(),
{
    if rows.len() == 0 {
        Some(Seq::empty())
    } else {
        match (heights_of_rows(rows.drop_last()), height_of_text(rows.last().w3_height@)) {
            (Some(hs), Some(h)) => Some(hs.push(h)),
            _ => None,
        }
    }
}

proof fn lemma_rows_fail_on_prefix(rows: Seq<W3Transaction>, k: int)
    requires
        0 <= k <= rows.len(),
        heights_of_rows(rows.subrange(0, k)) is None,
    ensures
        heights_of_rows(rows) is None,
    decreases rows.len() - k,
{
    if k < rows.len() {
        assert(rows.subrange(0, k + 1).drop_last() =~= rows.subrange(0, k));
        lemma_rows_fail_on_prefix(rows, k + 1);
    } else {
        assert(rows.subrange(0, k) =~= rows);
    }
}

/// Reads the heights of index rows, in order.
pub fn heights_of(rows: &Vec<W3Transaction>) -> (r: Option<Vec<u64>>)
    ensures
        match r {
            Some(v) => heights_of_rows(rows@) == Some(v@),
            None => heights_of_rows(rows@) is None,
        },
{
    let mut out: Vec<u64> = Vec::new();
    let mut i: usize = 0;
    assert(rows@.subrange(0, 0) =~= Seq::<W3Transaction>::empty());
    assert(out@ =~= Seq::<u64>::empty());
    while i < rows.len()
        invariant
            i <= rows@.len(),
            heights_of_rows(rows@.subrange(0, i as int)) == Some(out@),
        decreases rows@.len() - i,
    {
        assert(rows@.subrange(0, i as int + 1).drop_last() =~= rows@.subrange(0, i as int));
        match parse_height(rows[i].w3_height.as_str()) {
            Some(h) => out.push(h),
            None => {
                proof {
                    lemma_rows_fail_on_prefix(rows@, i as int + 1);
                }
                return None;
            },
        }
        i = i + 1;
    }
    assert(rows@.subrange(0, rows@.len() as int) =~= rows@);
    Some(out)
}

} // verus!
