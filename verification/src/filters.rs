//! Character-admission rules for the input buffers, and the verified
//! parsers that turn admitted buffers into numbers.
//!
//! A filter is applied before a character reaches a buffer; a rejected
//! character leaves the buffer unchanged and is not an error.

use vstd::prelude::*;
use crate::common::{Bank, PaymentData};

verus! {

/// Which characters an input buffer refuses while it is being edited.
#[derive(Debug, Clone, Copy, PartialEq, Eq, Structural)]
pub enum InputBlacklist {
    /// Every character is admitted.
    NoFilter,
    /// Digits, and at most one '.' with at most two digits after it.
    Money,
    /// Letters and space.
    Alphabetic,
    /// Everything but space.
    NoSpace,
    /// Digits only.
    Numeric,
}

/// The ten ASCII digits.  The Money and Numeric filters admit exactly
/// these on purpose: the buffers they guard feed the base-ten parsers
/// below, which read exactly these digits, so any other numeric character
/// is rejected at the filter instead of failing later.
pub open spec fn is_digit_char(c: char) -> bool {
    48 <= c as u32 && c as u32 <= 57
}

/// The ASCII letters: the part of the Alphabetic classification a few
/// lines can state.
pub open spec fn is_alpha_char(c: char) -> bool {
    (65 <= c as u32 && c as u32 <= 90) || (97 <= c as u32 && c as u32 <= 122)
}

/// Whether std's `char::is_alphabetic` accepts the character — the full
/// Unicode Alphabetic property, a function of the character alone.
pub uninterp spec fn alpha_of(c: char) -> bool;

/// Relies on std's `char::is_alphabetic`: a pure classification of the
/// character, documented to hold of every ASCII letter.
#[verifier::external_body]
fn char_is_alphabetic(c: char) -> (r: bool)
    ensures
        r == alpha_of(c),
        is_alpha_char(c) ==> r,
{
    c.is_alphabetic()
}

pub open spec fn all_digits(s: Seq<char>) -> bool {
    forall|i: int| 0 <= i < s.len() ==> is_digit_char(s[i])
}

/// A further digit may join a money buffer only while every '.' in it has
/// fewer than two characters behind it.
pub open spec fn money_digit_ok(buf: Seq<char>) -> bool {
    forall|i: int| 0 <= i < buf.len() && buf[i] == '.' ==> buf.len() - 1 - i < 2
}

/// The money filter on the buffer currently in edit mode: a '.' only into a
/// buffer with no '.', a digit only while fewer than two digits follow the
/// '.', nothing else at all.
pub open spec fn money_admits(buf: Seq<char>, c: char) -> bool {
    if c == '.' {
        !buf.contains('.')
    } else if is_digit_char(c) {
        money_digit_ok(buf)
    } else {
        false
    }
}

/// What each filter admits, given the buffer being edited.  Letters are
/// the Unicode Alphabetic property; digits are the ASCII digits (see
/// `is_digit_char`).
pub open spec fn admits_spec(buf: Seq<char>, c: char, filter: InputBlacklist) -> bool {
    match filter {
        InputBlacklist::NoFilter => true,
        InputBlacklist::Money => money_admits(buf, c),
        InputBlacklist::Alphabetic => alpha_of(c) || c == ' ',
        InputBlacklist::NoSpace => c != ' ',
        InputBlacklist::Numeric => is_digit_char(c),
    }
}

pub fn is_digit(c: char) -> (r: bool)
    ensures
        r == is_digit_char(c),
{
    let u = c as u32;
    48 <= u && u <= 57
}

fn contains_dot(buf: &Vec<char>) -> (r: bool)
    ensures
        r == buf@.contains('.'),
{
    let mut i: usize = 0;
    while i < buf.len()
        invariant
            0 <= i <= buf@.len(),
            forall|j: int| 0 <= j < i ==> buf@[j] != '.',
        decreases buf@.len() - i,
    {
        if buf[i] == '.' {
            proof {
                assert(buf@[i as int] == '.');
            }
            return true;
        }
        i += 1;
    }
    false
}

fn money_digit_room(buf: &Vec<char>) -> (r: bool)
    ensures
        r == money_digit_ok(buf@),
{
    let mut i: usize = 0;
    while i < buf.len()
        invariant
            0 <= i <= buf@.len(),
            forall|j: int| 0 <= j < i && buf@[j] == '.' ==> buf@.len() - 1 - j < 2,
        decreases buf@.len() - i,
    {
        if buf[i] == '.' && buf.len() - 1 - i >= 2 {
            return false;
        }
        i += 1;
    }
    true
}

/// Whether `filter` lets `c` through into the buffer `buf`.
pub fn admits(buf: &Vec<char>, c: char, filter: InputBlacklist) -> (r: bool)
    ensures
        r == admits_spec(buf@, c, filter),
{
    match filter {
        InputBlacklist::NoFilter => true,
        InputBlacklist::Money => {
            if c == '.' {
                !contains_dot(buf)
            } else if is_digit(c) {
                money_digit_room(buf)
            } else {
                false
            }
        },
        InputBlacklist::Alphabetic => char_is_alphabetic(c) || c == ' ',
        InputBlacklist::NoSpace => c != ' ',
        InputBlacklist::Numeric => is_digit(c),
    }
}

/// Numeric value of a digit character.
pub open spec fn digit_val(c: char) -> int {
    c as u32 - 48
}

/// Value of a digit string read in base ten.
pub open spec fn dec_value(s: Seq<char>) -> int
    decreases s.len(),
{
    if s.len() == 0 {
        0
    } else {
        dec_value(s.drop_last()) * 10 + digit_val(s.last())
    }
}

pub open spec fn pow10(n: nat) -> int
    decreases n,
{
    if n == 0 {
        1
    } else {
        10 * pow10((n - 1) as nat)
    }
}

pub proof fn lemma_pow10_mono(a: nat, b: nat)
    requires
        a <= b,
    ensures
        1 <= pow10(a) <= pow10(b),
    decreases b,
{
    if b > 0 {
        if a == b {
            lemma_pow10_mono((a - 1) as nat, (b - 1) as nat);
        } else {
            lemma_pow10_mono(a, (b - 1) as nat);
        }
    }
}

pub proof fn lemma_pow10_18()
    ensures
        pow10(16) == 0x2386f26fc10000,
        pow10(18) == 0xde0b6b3a7640000,
{
    reveal_with_fuel(pow10, 19);
}

/// A digit string of n digits names a value below ten to the n.
pub proof fn lemma_dec_value_bound(s: Seq<char>)
    requires
        all_digits(s),
    ensures
        0 <= dec_value(s) < pow10(s.len()),
    decreases s.len(),
{
    if s.len() > 0 {
        assert(all_digits(s.drop_last()));
        lemma_dec_value_bound(s.drop_last());
    }
}

/// Reads the digits of `buf[start..end]` as a base-ten number.  Succeeds
/// exactly on one to eighteen digits — eighteen digits always fit an `i64`,
/// and no id or typed amount is longer.
pub fn parse_digits(buf: &Vec<char>, start: usize, end: usize) -> (r: Option<i64>)
    requires
        start <= end <= buf@.len(),
    ensures
        (r is Some <==> {
            let s = buf@.subrange(start as int, end as int);
            all_digits(s) && 1 <= s.len() <= 18
        }),
        (r matches Some(v) ==> v == dec_value(buf@.subrange(start as int, end as int))),
{
    let ghost s = buf@.subrange(start as int, end as int);
    let len = end - start;
    if len == 0 || len > 18 {
        return None;
    }
    let mut acc: i64 = 0;
    let mut i = start;
    while i < end
        invariant
            start <= i <= end,
            end <= buf@.len(),
            1 <= end - start <= 18,
            s == buf@.subrange(start as int, end as int),
            all_digits(s.subrange(0, i - start)),
            acc == dec_value(s.subrange(0, i - start)),
            0 <= acc < pow10((i - start) as nat),
        decreases end - i,
    {
        let c = buf[i];
        if !is_digit(c) {
            proof {
                assert(s[i - start] == buf@[i as int]);
            }
            return None;
        }
        let d = (c as u32 - 48) as i64;
        proof {
            lemma_pow10_mono((i - start) as nat, 17);
            lemma_pow10_18();
            reveal_with_fuel(pow10, 19);
            let pre = s.subrange(0, i - start);
            let post = s.subrange(0, i - start + 1);
            assert(post.drop_last() =~= pre);
            assert(post.last() == buf@[i as int]);
        }
        acc = acc * 10 + d;
        i += 1;
    }
    proof {
        assert(s.subrange(0, (end - start) as int) =~= s);
    }
    Some(acc)
}

/// Reads a whole buffer as a base-ten `i64`.
pub fn parse_i64(buf: &Vec<char>) -> (r: Option<i64>)
    ensures
        (r is Some <==> all_digits(buf@) && 1 <= buf@.len() <= 18),
        (r matches Some(v) ==> v == dec_value(buf@)),
{
    proof {
        assert(buf@.subrange(0, buf@.len() as int) =~= buf@);
    }
    parse_digits(buf, 0, buf.len())
}

/// Reads a whole buffer as a base-ten `i32`.
pub fn parse_i32(buf: &Vec<char>) -> (r: Option<i32>)
    ensures
        (r is Some <==> all_digits(buf@) && 1 <= buf@.len() <= 18 && dec_value(buf@)
            <= i32::MAX),
        (r matches Some(v) ==> v == dec_value(buf@)),
{
    match parse_i64(buf) {
        Some(v) => {
            proof {
                lemma_dec_value_bound(buf@);
            }
            if v <= i32::MAX as i64 {
                Some(v as i32)
            } else {
                None
            }
        },
        None => None,
    }
}

/// Index of the first '.' of `s`, or its length if it has none.
pub open spec fn first_dot(s: Seq<char>) -> int
    decreases s.len(),
{
    if s.len() == 0 {
        0
    } else if s[0] == '.' {
        0
    } else {
        1 + first_dot(s.drop_first())
    }
}

pub proof fn lemma_first_dot_at(s: Seq<char>, i: int)
    requires
        0 <= i <= s.len(),
        forall|j: int| 0 <= j < i ==> s[j] != '.',
        i < s.len() ==> s[i] == '.',
    ensures
        first_dot(s) == i,
    decreases i,
{
    if s.len() > 0 {
        if i > 0 {
            lemma_first_dot_at(s.drop_first(), i - 1);
        }
    }
}

/// Integer part of a money buffer: what stands before the first '.'.
pub open spec fn money_int_part(s: Seq<char>) -> Seq<char> {
    s.subrange(0, first_dot(s))
}

/// Fractional part of a money buffer: what stands behind the first '.'.
pub open spec fn money_frac_part(s: Seq<char>) -> Seq<char> {
    if first_dot(s) < s.len() {
        s.subrange(first_dot(s) + 1, s.len() as int)
    } else {
        Seq::empty()
    }
}

/// A buffer names an amount of money when both parts are digits, at most
/// two of them after the '.', at least one digit stands somewhere, and the
/// integer part keeps the amount within range (sixteen digits).
pub open spec fn money_valid(s: Seq<char>) -> bool {
    &&& all_digits(money_int_part(s))
    &&& all_digits(money_frac_part(s))
    &&& money_frac_part(s).len() <= 2
    &&& money_int_part(s).len() + money_frac_part(s).len() >= 1
    &&& money_int_part(s).len() <= 16
}

/// How many cents one unit of the fractional part is worth, by its width.
pub open spec fn frac_scale(n: nat) -> int {
    if n == 0 {
        100
    } else if n == 1 {
        10
    } else {
        1
    }
}

/// The amount a money buffer names, in cents.
pub open spec fn money_value_cents(s: Seq<char>) -> int {
    dec_value(money_int_part(s)) * 100 + dec_value(money_frac_part(s)) * frac_scale(
        money_frac_part(s).len(),
    )
}

/// Reads a money buffer — digits with at most one '.' and at most two
/// digits after it — as an amount in cents.
pub fn parse_money_cents(buf: &Vec<char>) -> (r: Option<u64>)
    ensures
        (r is Some <==> money_valid(buf@)),
        (r matches Some(v) ==> v == money_value_cents(buf@)),
{
    let len = buf.len();
    let mut i: usize = 0;
    while i < len && buf[i] != '.'
        invariant
            0 <= i <= len,
            len == buf@.len(),
            forall|j: int| 0 <= j < i ==> buf@[j] != '.',
        decreases len - i,
    {
        i += 1;
    }
    let dot = i;
    proof {
        lemma_first_dot_at(buf@, dot as int);
    }
    let ghost int_part = money_int_part(buf@);
    let ghost frac_part = money_frac_part(buf@);

    if dot > 16 {
        // Either the integer part is too long, or — with no '.' at all —
        // the whole buffer is one long integer part.
        return None;
    }
    let int_val: i64 = if dot == 0 {
        proof {
            assert(int_part =~= Seq::<char>::empty());
        }
        0
    } else {
        match parse_digits(buf, 0, dot) {
            Some(v) => v,
            None => {
                return None;
            },
        }
    };

    let frac_len: usize = if dot < len {
        len - dot - 1
    } else {
        0
    };
    if frac_len > 2 {
        return None;
    }
    let frac_val: i64 = if dot < len && frac_len > 0 {
        match parse_digits(buf, dot + 1, len) {
            Some(v) => v,
            None => {
                return None;
            },
        }
    } else {
        proof {
            if dot < len {
                assert(frac_part =~= buf@.subrange(dot + 1, len as int));
            }
        }
        0
    };
    if dot == 0 && frac_len == 0 {
        // "." alone, or an empty buffer: no digit anywhere.
        return None;
    }

    proof {
        assert(all_digits(int_part)) by {
            if dot > 0 {
                assert(int_part =~= buf@.subrange(0, dot as int));
            }
        }
        assert(all_digits(frac_part)) by {
            if dot < len && frac_len > 0 {
                assert(frac_part =~= buf@.subrange(dot as int + 1, len as int));
            }
        }
        lemma_dec_value_bound(int_part);
        lemma_dec_value_bound(frac_part);
        lemma_pow10_mono(int_part.len(), 16);
        lemma_pow10_mono(frac_part.len(), 2);
        lemma_pow10_18();
        reveal_with_fuel(pow10, 19);
    }
    let scale: i64 = if frac_len == 0 {
        100
    } else if frac_len == 1 {
        10
    } else {
        1
    };
    Some((int_val * 100 + frac_val * scale) as u64)
}

impl PaymentData {
    /// Builds a payment draft from the typed amount, once the caller has
    /// gathered a transaction id and a bank choice.  Fails exactly when the
    /// buffer names no amount.
    pub fn from_input(amount: &Vec<char>, transaction_id: String, bank: Bank) -> (r: Option<
        PaymentData,
    >)
        ensures
            (r is Some <==> money_valid(amount@)),
            (r matches Some(p) ==> {
                &&& p.amount_cents == money_value_cents(amount@)
                &&& p.transaction_id == transaction_id
                &&& p.bank == bank
            }),
    {
        match parse_money_cents(amount) {
            Some(cents) => Some(PaymentData { amount_cents: cents, transaction_id, bank }),
            None => None,
        }
    }
}

} // verus!
