//! Small text helpers: exact comparison, and reading and writing unsigned
//! decimal numbers, the number syntax that durations on the wire use.

use vstd::prelude::*;

use vstd::string::StrSliceExecFns;
use vstd::string::StringExecFns;

verus! {

/// Whether two text fragments hold the same characters.
pub fn str_eq(a: &str, b: &str) -> (r: bool)
    ensures
        r == (a@ == b@),
{
    let owned_a: String = a.to_owned();
    let owned_b: String = b.to_owned();
    owned_a == owned_b
}

/// Whether `c` is a decimal digit.
pub open spec fn is_decimal_digit(c: char) -> bool {
    '0' <= c && c <= '9'
}

/// The value of one decimal digit.
pub open spec fn digit_value(c: char) -> int {
    c as int - '0' as int
}

/// Whether `s` consists of decimal digits only.
pub open spec fn all_decimal_digits(s: Seq<char>) -> bool {
    forall|i: int| 0 <= i < s.len() ==> is_decimal_digit(#[trigger] s[i])
}

/// The number that a sequence of decimal digits denotes, most significant
/// digit first; the empty sequence denotes 0.
pub open spec fn decimal_value(s: Seq<char>) -> int
    decreases s.len(),
{
    if s.len() == 0 {
        0
    } else {
        decimal_value(s.drop_last()) * 10 + digit_value(s.last())
    }
}

/// The canonical decimal digits of `n`: no leading zero except for 0 itself.
pub open spec fn decimal_digits_of(n: int) -> Seq<char>
    decreases n,
{
    if n <= 9 {
        seq![decimal_digit_of(n)]
    } else {
        decimal_digits_of(n / 10).push(decimal_digit_of(n % 10))
    }
}

/// The digit character for a value below ten.
pub open spec fn decimal_digit_of(d: int) -> char {
    if d == 0 {
        '0'
    } else if d == 1 {
        '1'
    } else if d == 2 {
        '2'
    } else if d == 3 {
        '3'
    } else if d == 4 {
        '4'
    } else if d == 5 {
        '5'
    } else if d == 6 {
        '6'
    } else if d == 7 {
        '7'
    } else if d == 8 {
        '8'
    } else {
        '9'
    }
}

/// A digit sequence denotes a value no smaller than any of its prefixes:
/// the digits after a prefix only scale its value up and add digits on.
pub proof fn lemma_decimal_prefix_le(s: Seq<char>, k: int)
    requires
        all_decimal_digits(s),
        0 <= k <= s.len(),
    ensures
        0 <= decimal_value(s.subrange(0, k)) <= decimal_value(s),
    decreases s.len() - k,
{
    lemma_decimal_value_nonneg(s.subrange(0, k));
    if k < s.len() {
        lemma_decimal_prefix_le(s, k + 1);
        assert(s.subrange(0, k + 1).drop_last() =~= s.subrange(0, k));
        assert(is_decimal_digit(s.subrange(0, k + 1).last()));
        lemma_decimal_value_nonneg(s.subrange(0, k + 1));
    } else {
        assert(s.subrange(0, k) =~= s);
    }
}

/// A digit sequence never denotes a negative value.
pub proof fn lemma_decimal_value_nonneg(s: Seq<char>)
    requires
        all_decimal_digits(s),
    ensures
        decimal_value(s) >= 0,
    decreases s.len(),
{
    if s.len() > 0 {
        assert(all_decimal_digits(s.drop_last()));
        lemma_decimal_value_nonneg(s.drop_last());
        assert(is_decimal_digit(s.last()));
    }
}

/// Read an unsigned decimal number, the whole of `s`. `None` when `s` is
/// empty, holds any character but a digit, or denotes more than `u64::MAX`.
pub fn parse_u64_decimal(s: &str) -> (r: Option<u64>)
    ensures
        (match r {
            Some(n) => s@.len() > 0 && all_decimal_digits(s@) && decimal_value(s@) == n,
            None => s@.len() == 0 || !all_decimal_digits(s@) || decimal_value(s@) > u64::MAX,
        }),
{
    let len = s.unicode_len();
    if len == 0 {
        return None;
    }
    let mut acc: u64 = 0;
    let mut i: usize = 0;
    while i < len
        invariant
            0 <= i <= len,
            len == s@.len(),
            all_decimal_digits(s@.subrange(0, i as int)),
            acc == decimal_value(s@.subrange(0, i as int)),
        decreases len - i,
    {
        let c = s.get_char(i);
        if c < '0' || c > '9' {
            assert(!is_decimal_digit(s@[i as int]));
            return None;
        }
        let d: u64 = (c as u32 - '0' as u32) as u64;
        proof {
            assert(s@.subrange(0, i + 1).drop_last() =~= s@.subrange(0, i as int));
        }
        let scaled = match acc.checked_mul(10) {
            Some(v) => v,
            None => {
                proof {
                    overflow_means_too_large(s@, i as int, (acc * 10 + d) as int);
                }
                return None;
            },
        };
        acc = match scaled.checked_add(d) {
            Some(v) => v,
            None => {
                proof {
                    overflow_means_too_large(s@, i as int, (acc * 10 + d) as int);
                }
                return None;
            },
        };
        i = i + 1;
    }
    proof {
        assert(s@.subrange(0, len as int) =~= s@);
    }
    Some(acc)
}

/// When the digits up to and past position `i` already denote more than
/// `u64::MAX`, so does the whole sequence, or a later character is no digit.
proof fn overflow_means_too_large(s: Seq<char>, i: int, prefix_value: int)
    requires
        0 <= i < s.len(),
        is_decimal_digit(s[i]),
        decimal_value(s.subrange(0, i + 1)) == prefix_value,
        prefix_value > u64::MAX,
    ensures
        !all_decimal_digits(s) || decimal_value(s) > u64::MAX,
{
    if all_decimal_digits(s) {
        lemma_decimal_prefix_le(s, i + 1);
    }
}

/// Write `n` in decimal.
pub fn u64_to_decimal(n: u64) -> (r: String)
    ensures
        r@ == decimal_digits_of(n as int),
    decreases n,
{
    if n <= 9 {
        decimal_digit_str(n)
    } else {
        let mut prefix = u64_to_decimal(n / 10);
        let last = decimal_digit_str(n % 10);
        prefix.append(last.as_str());
        proof {
            assert(decimal_digits_of(n as int / 10) + seq![decimal_digit_of(n as int % 10)]
                =~= decimal_digits_of(n as int / 10).push(decimal_digit_of(n as int % 10)));
        }
        prefix
    }
}

/// The single digit of a value below ten, as text.
fn decimal_digit_str(d: u64) -> (r: String)
    requires
        d <= 9,
    ensures
        r@ == seq![decimal_digit_of(d as int)],
{
    proof {
        reveal_strlit("0");
        reveal_strlit("1");
        reveal_strlit("2");
        reveal_strlit("3");
        reveal_strlit("4");
        reveal_strlit("5");
        reveal_strlit("6");
        reveal_strlit("7");
        reveal_strlit("8");
        reveal_strlit("9");
    }
    let text = if d == 0 {
        "0"
    } else if d == 1 {
        "1"
    } else if d == 2 {
        "2"
    } else if d == 3 {
        "3"
    } else if d == 4 {
        "4"
    } else if d == 5 {
        "5"
    } else if d == 6 {
        "6"
    } else if d == 7 {
        "7"
    } else if d == 8 {
        "8"
    } else {
        "9"
    };
    proof {
        assert(text@ =~= seq![decimal_digit_of(d as int)]);
    }
    text.to_owned()
}

/// Writing a number and reading it back gives the number again.
pub proof fn lemma_decimal_round_trip(n: int)
    requires
        n >= 0,
    ensures
        all_decimal_digits(decimal_digits_of(n)),
        decimal_value(decimal_digits_of(n)) == n,
        decimal_digits_of(n).len() >= 1,
    decreases n,
{
    if n <= 9 {
        assert(decimal_value(seq![decimal_digit_of(n)].drop_last()) == 0);
    } else {
        lemma_decimal_round_trip(n / 10);
        let whole = decimal_digits_of(n / 10).push(decimal_digit_of(n % 10));
        assert(whole.drop_last() =~= decimal_digits_of(n / 10));
        assert(digit_value(decimal_digit_of(n % 10)) == n % 10);
    }
}

} // verus!
