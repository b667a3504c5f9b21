use vstd::prelude::*;
use vstd::string::*;

verus! {

/// The character for a single decimal digit.
pub open spec fn digit_char(d: nat) -> char {
    if d == 0 {
        '0'
    } else if d == 1 {
        '1'
    } else if d == 2 {
        '2'
    } else if d == 3 {
        '3'
    } else if d == 4 {
        '4'
    } else if d == 5 {
        '5'
    } else if d == 6 {
        '6'
    } else if d == 7 {
        '7'
    } else if d == 8 {
        '8'
    } else {
        '9'
    }
}

pub open spec fn is_digit(c: char) -> bool {
    c == '0' || c == '1' || c == '2' || c == '3' || c == '4' || c == '5' || c == '6' || c == '7'
        || c == '8' || c == '9'
}

/// The numeric value of a digit character (0 for anything else).
pub open spec fn digit_val(c: char) -> nat {
    if c == '1' {
        1
    } else if c == '2' {
        2
    } else if c == '3' {
        3
    } else if c == '4' {
        4
    } else if c == '5' {
        5
    } else if c == '6' {
        6
    } else if c == '7' {
        7
    } else if c == '8' {
        8
    } else if c == '9' {
        9
    } else {
        0
    }
}

/// Decimal rendering of a natural number, most significant digit first,
/// without leading zeros.
pub open spec fn dec_str(n: nat) -> Seq<char>
    decreases n,
{
    if n < 10 {
        seq![digit_char(n)]
    } else {
        dec_str(n / 10).push(digit_char(n % 10))
    }
}

pub open spec fn all_digits(s: Seq<char>) -> bool {
    forall|i: int| 0 <= i < s.len() ==> is_digit(#[trigger] s[i])
}

/// Numeric value of a digit string, most significant digit first.
pub open spec fn dec_val(s: Seq<char>) -> nat
    decreases s.len(),
{
    if s.len() == 0 {
        0
    } else {
        dec_val(s.drop_last()) * 10 + digit_val(s.last())
    }
}

pub open spec fn spec_parse_u64(s: Seq<char>) -> Option<u64> {
    if s.len() > 0 && all_digits(s) && dec_val(s) <= u64::MAX {
        Some(dec_val(s) as u64)
    } else {
        None
    }
}

/// A decimal rendering consists of digits only, and at least one of them.
pub proof fn lemma_dec_str_digits(n: nat)
    ensures
        all_digits(dec_str(n)),
        dec_str(n).len() >= 1,
    decreases n,
{
    if n >= 10 {
        lemma_dec_str_digits(n / 10);
        assert forall|i: int| 0 <= i < dec_str(n).len() implies is_digit(#[trigger] dec_str(n)[i]) by {
            if i < dec_str(n).len() - 1 {
                assert(dec_str(n)[i] == dec_str(n / 10)[i]);
            }
        }
    }
}

/// Rendering then reading a number gives the number back.
pub proof fn lemma_dec_val_dec_str(n: nat)
    ensures
        dec_val(dec_str(n)) == n,
    decreases n,
{
    if n < 10 {
        assert(dec_str(n).drop_last() =~= Seq::<char>::empty());
        assert(dec_str(n).last() == digit_char(n));
        assert(digit_val(digit_char(n)) == n);
        assert(dec_val(Seq::<char>::empty()) == 0);
        assert(dec_val(dec_str(n)) == dec_val(dec_str(n).drop_last()) * 10 + digit_val(
            dec_str(n).last(),
        ));
    } else {
        lemma_dec_val_dec_str(n / 10);
        assert(dec_str(n).drop_last() =~= dec_str(n / 10));
        assert(dec_str(n).last() == digit_char(n % 10));
        assert(digit_val(digit_char(n % 10)) == n % 10);
        assert(dec_val(dec_str(n)) == dec_val(dec_str(n).drop_last()) * 10 + digit_val(
            dec_str(n).last(),
        ));
        assert(n == (n / 10) * 10 + n % 10);
    }
}

/// Reading a prefix never gives a larger value than reading the whole string.
pub proof fn lemma_dec_val_take_le(s: Seq<char>, i: int)
    requires
        0 <= i <= s.len(),
    ensures
        dec_val(s.take(i)) <= dec_val(s),
    decreases s.len(),
{
    if i < s.len() {
        assert(s.take(i) =~= s.drop_last().take(i));
        lemma_dec_val_take_le(s.drop_last(), i);
    } else {
        assert(s.take(i) =~= s);
    }
}

/// A number between 100000 and 999999 renders as exactly six digits.
pub proof fn lemma_dec_str_len6(n: nat)
    requires
        100000 <= n <= 999999,
    ensures
        dec_str(n).len() == 6,
{
    let n1 = n / 10;
    let n2 = n1 / 10;
    let n3 = n2 / 10;
    let n4 = n3 / 10;
    let n5 = n4 / 10;
    assert(10000 <= n1 <= 99999);
    assert(1000 <= n2 <= 9999);
    assert(100 <= n3 <= 999);
    assert(10 <= n4 <= 99);
    assert(1 <= n5 <= 9);
    assert(dec_str(n5).len() == 1);
    assert(dec_str(n4).len() == 2);
    assert(dec_str(n3).len() == 3);
    assert(dec_str(n2).len() == 4);
    assert(dec_str(n1).len() == 5);
}

fn digit_to_str(d: u64) -> (r: &'static str)
    requires
        d < 10,
    ensures
        r@ =~= seq![digit_char(d as nat)],
{
    let r: &'static str = if d == 0 {
        "0"
    } else if d == 1 {
        "1"
    } else if d == 2 {
        "2"
    } else if d == 3 {
        "3"
    } else if d == 4 {
        "4"
    } else if d == 5 {
        "5"
    } else if d == 6 {
        "6"
    } else if d == 7 {
        "7"
    } else if d == 8 {
        "8"
    } else {
        "9"
    };
    proof {
        reveal_strlit("0");
        reveal_strlit("1");
        reveal_strlit("2");
        reveal_strlit("3");
        reveal_strlit("4");
        reveal_strlit("5");
        reveal_strlit("6");
        reveal_strlit("7");
        reveal_strlit("8");
        reveal_strlit("9");
    }
    r
}

/// Decimal rendering of a `u64`.
pub fn render_u64(n: u64) -> (r: String)
    ensures
        r@ == dec_str(n as nat),
    decreases n,
{
    if n < 10 {
        let s = String::from_str(digit_to_str(n));
        proof {
            assert(s@ =~= dec_str(n as nat));
        }
        s
    } else {
        let mut s = render_u64(n / 10);
        s.append(digit_to_str(n % 10));
        proof {
            assert(s@ =~= dec_str((n / 10) as nat).push(digit_char((n % 10) as nat)));
        }
        s
    }
}

fn char_digit_val(c: char) -> (r: Option<u64>)
    ensures
        match r {
            Some(v) => is_digit(c) && v == digit_val(c),
            None => !is_digit(c),
        },
{
    if c == '0' {
        Some(0)
    } else if c == '1' {
        Some(1)
    } else if c == '2' {
        Some(2)
    } else if c == '3' {
        Some(3)
    } else if c == '4' {
        Some(4)
    } else if c == '5' {
        Some(5)
    } else if c == '6' {
        Some(6)
    } else if c == '7' {
        Some(7)
    } else if c == '8' {
        Some(8)
    } else if c == '9' {
        Some(9)
    } else {
        None
    }
}

/// Whether every character of the string is a decimal digit.
pub fn str_all_digits(s: &str) -> (r: bool)
    ensures
        r == all_digits(s@),
{
    let len = s.unicode_len();
    let mut i: usize = 0;
    while i < len
        invariant
            0 <= i <= len,
            len == s@.len(),
            forall|j: int| 0 <= j < i ==> is_digit(#[trigger] s@[j]),
        decreases len - i,
    {
        match char_digit_val(s.get_char(i)) {
            None => {
                proof {
                    assert(!is_digit(s@[i as int]));
                }
                return false;
            },
            Some(_) => {},
        }
        i = i + 1;
    }
    true
}

/// Reads a whole string as a decimal `u64`; `None` on an empty string, a
/// non-digit character, or a value over `u64::MAX`.
pub fn parse_u64(s: &str) -> (r: Option<u64>)
    ensures
        r == spec_parse_u64(s@),
{
    let len = s.unicode_len();
    if len == 0 {
        return None;
    }
    let mut i: usize = 0;
    let mut acc: u64 = 0;
    while i < len
        invariant
            0 <= i <= len,
            len == s@.len(),
            all_digits(s@.take(i as int)),
            acc == dec_val(s@.take(i as int)),
        decreases len - i,
    {
        let c = s.get_char(i);
        match char_digit_val(c) {
            None => {
                proof {
                    assert(s@[i as int] == c);
                    assert(!all_digits(s@));
                }
                return None;
            },
            Some(d) => {
                proof {
                    assert(s@.take(i as int + 1).drop_last() =~= s@.take(i as int));
                    assert(s@.take(i as int + 1).last() == c);
                    assert(dec_val(s@.take(i as int + 1)) == acc * 10 + digit_val(c));
                }
                if acc > (u64::MAX - d) / 10 {
                    proof {
                        let m: nat = (u64::MAX - d) as nat;
                        assert(m == (m / 10) * 10 + m % 10);
                        assert(acc * 10 >= (m / 10) * 10 + 10);
                        assert(acc * 10 + d > u64::MAX);
                        lemma_dec_val_take_le(s@, i as int + 1);
                    }
                    return None;
                }
                proof {
                    let m: nat = (u64::MAX - d) as nat;
                    assert(m == (m / 10) * 10 + m % 10);
                    assert(acc * 10 <= (m / 10) * 10);
                    assert(acc * 10 + d <= u64::MAX);
                }
                acc = acc * 10 + d;
                i = i + 1;
                proof {
                    assert(all_digits(s@.take(i as int))) by {
                        assert(forall|j: int|
                            0 <= j < i - 1 ==> #[trigger] s@.take(i as int)[j] == s@.take(
                                i as int - 1,
                            )[j]);
                        assert(s@.take(i as int)[i - 1] == c);
                    }
                }
            },
        }
    }
    proof {
        assert(s@.take(len as int) =~= s@);
    }
    Some(acc)
}

} // verus!
