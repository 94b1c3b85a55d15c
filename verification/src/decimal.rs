//! Decimal text of integers, as `Display` writes them and `str::parse` reads them.
use crate::text::{bar, bar_free, push_char};
use vstd::prelude::*;

verus! {

pub open spec fn is_digit(c: char) -> bool {
    '0' <= c <= '9'
}

pub open spec fn all_digits(s: Seq<char>) -> bool {
    forall|i: int| 0 <= i < s.len() ==> is_digit(#[trigger] s[i])
}

/// The value of a run of decimal digits.
pub open spec fn digits_value(s: Seq<char>) -> int
    decreases s.len(),
{
    if s.len() == 0 {
        0
    } else {
        10 * digits_value(s.drop_last()) + (s.last() as int - '0' as int)
    }
}

/// The value `str::parse` reads from a text for a signed integer type before its range is
/// checked: an optional `+` or `-` followed by at least one decimal digit.
pub open spec fn signed_value(s: Seq<char>) -> Option<int> {
    if s.len() > 0 && (s[0] == '-' || s[0] == '+') {
        let ds = s.drop_first();
        if ds.len() > 0 && all_digits(ds) {
            Some(if s[0] == '-' { -digits_value(ds) } else { digits_value(ds) })
        } else {
            None
        }
    } else if s.len() > 0 && all_digits(s) {
        Some(digits_value(s))
    } else {
        None
    }
}

/// What `str::parse::<i16>` returns for a text, `None` standing for its error.
pub open spec fn parse_i16_text(s: Seq<char>) -> Option<i16> {
    match signed_value(s) {
        Some(v) => if i16::MIN <= v <= i16::MAX {
            Some(v as i16)
        } else {
            None
        },
        None => None,
    }
}

/// The value `str::parse` reads from a text for an unsigned integer type before its range
/// is checked: an optional `+` followed by at least one decimal digit.
pub open spec fn unsigned_value(s: Seq<char>) -> Option<int> {
    if s.len() > 0 && s[0] == '+' {
        let ds = s.drop_first();
        if ds.len() > 0 && all_digits(ds) {
            Some(digits_value(ds))
        } else {
            None
        }
    } else if s.len() > 0 && all_digits(s) {
        Some(digits_value(s))
    } else {
        None
    }
}

/// What `str::parse::<u8>` returns for a text, `None` standing for its error.
pub open spec fn parse_u8_text(s: Seq<char>) -> Option<u8> {
    match unsigned_value(s) {
        Some(v) => if v <= u8::MAX {
            Some(v as u8)
        } else {
            None
        },
        None => None,
    }
}

/// What `str::parse::<u64>` returns for a text, `None` standing for its error.
pub open spec fn parse_u64_text(s: Seq<char>) -> Option<u64> {
    match unsigned_value(s) {
        Some(v) => if v <= u64::MAX {
            Some(v as u64)
        } else {
            None
        },
        None => None,
    }
}

/// The digit character of a value below ten.
pub open spec fn digit_char(d: nat) -> char {
    (d + 48) as char
}

/// The decimal digits of a natural number, without leading zeros.
pub open spec fn decimal_digits(n: nat) -> Seq<char>
    decreases n,
{
    if n < 10 {
        seq![digit_char(n)]
    } else {
        decimal_digits(n / 10).push(digit_char(n % 10))
    }
}

/// The text `Display` writes for an `i16`.
pub open spec fn i16_text(p: i16) -> Seq<char> {
    if p < 0 {
        seq!['-'] + decimal_digits((-p) as nat)
    } else {
        decimal_digits(p as nat)
    }
}

pub proof fn lemma_decimal_digits(n: nat)
    ensures
        decimal_digits(n).len() > 0,
        all_digits(decimal_digits(n)),
        digits_value(decimal_digits(n)) == n,
    decreases n,
{
    let d = decimal_digits(n);
    if n < 10 {
        assert(d.drop_last() =~= Seq::<char>::empty());
        assert(digit_char(n) as int == n + 48);
        assert(digits_value(d.drop_last()) == 0);
        assert(d.last() == digit_char(n));
    } else {
        lemma_decimal_digits(n / 10);
        assert(d.drop_last() =~= decimal_digits(n / 10));
        assert(digit_char(n % 10) as int == n % 10 + 48);
        assert(d.last() == digit_char(n % 10));
        assert(n == 10 * (n / 10) + n % 10);
        assert forall|i: int| 0 <= i < d.len() implies is_digit(#[trigger] d[i]) by {
            if i < d.len() - 1 {
                assert(d[i] == decimal_digits(n / 10)[i]);
            }
        }
    }
}

/// No decimal text holds a `'|'`.
pub proof fn lemma_digits_bar_free(s: Seq<char>)
    requires
        all_digits(s),
    ensures
        bar_free(s),
{
    if s.contains(bar()) {
        let k = choose|k: int| 0 <= k < s.len() && s[k] == bar();
        assert(is_digit(s[k]));
    }
}

/// Reading the text of an `i16` gives the number back.
pub proof fn lemma_i16_text_roundtrip(p: i16)
    ensures
        parse_i16_text(i16_text(p)) == Some(p),
        bar_free(i16_text(p)),
{
    let t = i16_text(p);
    if p < 0 {
        let m = (-p) as nat;
        lemma_decimal_digits(m);
        assert(t.drop_first() =~= decimal_digits(m));
        assert(t[0] == '-');
        lemma_digits_bar_free(decimal_digits(m));
        assert(bar_free(t)) by {
            if t.contains(bar()) {
                let k = choose|k: int| 0 <= k < t.len() && t[k] == bar();
                if k > 0 {
                    assert(t[k] == decimal_digits(m)[k - 1]);
                }
            }
        }
    } else {
        lemma_decimal_digits(p as nat);
        lemma_digits_bar_free(t);
        assert(is_digit(t[0]));
    }
}

/// Appends the decimal digits of `n`.
pub fn push_decimal(s: &mut String, n: u64)
    ensures
        final(s)@ == old(s)@ + decimal_digits(n as nat),
    decreases n,
{
    if n >= 10 {
        push_decimal(s, n / 10);
    }
    let d = (n % 10) as u8;
    let c = (d + 48) as char;
    proof {
        assert(c == digit_char((n % 10) as nat));
    }
    push_char(s, c);
    proof {
        if n >= 10 {
            assert(old(s)@ + decimal_digits((n / 10) as nat) + seq![c] =~= old(s)@ + decimal_digits(n as nat));
        } else {
            assert(old(s)@.push(c) =~= old(s)@ + decimal_digits(n as nat));
        }
    }
}

/// The text `Display` writes for an `i16`.
pub fn i16_to_text(p: i16) -> (res: String)
    ensures
        res@ == i16_text(p),
{
    let mut s = String::new();
    if p < 0 {
        push_char(&mut s, '-');
        let m = (0i32 - p as i32) as u64;
        push_decimal(&mut s, m);
        proof {
            assert(s@ =~= i16_text(p));
        }
    } else {
        push_decimal(&mut s, p as u64);
        proof {
            assert(s@ =~= i16_text(p));
        }
    }
    s
}

/// The text `Display` writes for an `i64`.
pub open spec fn i64_text(p: i64) -> Seq<char> {
    if p < 0 {
        seq!['-'] + decimal_digits((-p) as nat)
    } else {
        decimal_digits(p as nat)
    }
}

/// The text `Display` writes for an `i64`.
pub fn i64_to_text(p: i64) -> (res: String)
    ensures
        res@ == i64_text(p),
{
    let mut s = String::new();
    if p < 0 {
        push_char(&mut s, '-');
        let m: u64 = if p == i64::MIN {
            9223372036854775808u64
        } else {
            (0i64 - p) as u64
        };
        push_decimal(&mut s, m);
        proof {
            assert(s@ =~= i64_text(p));
        }
    } else {
        push_decimal(&mut s, p as u64);
        proof {
            assert(s@ =~= i64_text(p));
        }
    }
    s
}

/// The text `Display` writes for a `u8`.
pub fn u8_to_text(p: u8) -> (res: String)
    ensures
        res@ == decimal_digits(p as nat),
{
    let mut s = String::new();
    push_decimal(&mut s, p as u64);
    proof {
        assert(s@ =~= decimal_digits(p as nat));
    }
    s
}

/// Digits values only grow as digits are added.
pub proof fn lemma_digits_value_prefix(s: Seq<char>, j: int)
    requires
        all_digits(s),
        0 <= j <= s.len(),
    ensures
        0 <= digits_value(s.take(j)) <= digits_value(s),
    decreases s.len(),
{
    if s.len() == 0 {
        assert(s.take(j) =~= s);
    } else if j == s.len() {
        assert(s.take(j) =~= s);
        lemma_digits_value_nonneg(s);
    } else {
        assert(all_digits(s.drop_last())) by {
            assert forall|i: int| 0 <= i < s.drop_last().len() implies is_digit(#[trigger] s.drop_last()[i]) by {
                assert(s.drop_last()[i] == s[i]);
            }
        }
        lemma_digits_value_prefix(s.drop_last(), j);
        assert(s.drop_last().take(j) =~= s.take(j));
        assert(is_digit(s[s.len() - 1]));
        lemma_digits_value_nonneg(s.drop_last());
    }
}

pub proof fn lemma_digits_value_nonneg(s: Seq<char>)
    requires
        all_digits(s),
    ensures
        digits_value(s) >= 0,
    decreases s.len(),
{
    if s.len() > 0 {
        assert(all_digits(s.drop_last())) by {
            assert forall|i: int| 0 <= i < s.drop_last().len() implies is_digit(#[trigger] s.drop_last()[i]) by {
                assert(s.drop_last()[i] == s[i]);
            }
        }
        lemma_digits_value_nonneg(s.drop_last());
        assert(is_digit(s[s.len() - 1]));
    }
}

/// Reads an `i16` as `str::parse::<i16>` does; `None` stands for its error.
pub fn parse_i16(s: &str) -> (res: Option<i16>)
    ensures
        res == parse_i16_text(s@),
{
    let n = s.unicode_len();
    if n == 0 {
        return None;
    }
    let first = s.get_char(0);
    let negative = first == '-';
    let start: usize = if first == '-' || first == '+' {
        1
    } else {
        0
    };
    if start == n {
        return None;
    }
    let ghost ds = s@.subrange(start as int, n as int);
    proof {
        if start == 1 {
            assert(ds =~= s@.drop_first());
        } else {
            assert(ds =~= s@);
        }
    }
    let mut value: u32 = 0;
    let mut i: usize = start;
    while i < n
        invariant
            n == s@.len(),
            n > 0,
            start <= i <= n,
            start == (if s@[0] == '-' || s@[0] == '+' { 1usize } else { 0usize }),
            negative == (s@[0] == '-'),
            start < n,
            ds == s@.subrange(start as int, n as int),
            start == 1 ==> ds == s@.drop_first(),
            start == 0 ==> ds == s@,
            all_digits(ds.take(i - start)),
            value == digits_value(ds.take(i - start)),
            value <= 32768,
        decreases n - i,
    {
        let c = s.get_char(i);
        proof {
            assert(c == ds[i - start]);
            assert(ds.take(i - start + 1).drop_last() =~= ds.take(i - start));
            assert(ds.take(i - start + 1).last() == c);
        }
        if !('0' <= c && c <= '9') {
            proof {
                assert(!all_digits(ds)) by {
                    assert(!is_digit(ds[i - start]));
                }
            }
            return None;
        }
        let d = (c as u32) - 48;
        let next = value * 10 + d;
        if next > 32768 {
            proof {
                assert(all_digits(ds.take(i - start + 1))) by {
                    assert forall|k: int| 0 <= k < ds.take(i - start + 1).len() implies is_digit(
                        #[trigger] ds.take(i - start + 1)[k],
                    ) by {
                        if k < i - start {
                            assert(ds.take(i - start + 1)[k] == ds.take(i - start)[k]);
                        }
                    }
                }
                if all_digits(ds) {
                    lemma_digits_value_prefix(ds, i - start + 1);
                }
            }
            return None;
        }
        value = next;
        i = i + 1;
        proof {
            assert(all_digits(ds.take(i - start))) by {
                assert forall|k: int| 0 <= k < ds.take(i - start).len() implies is_digit(
                    #[trigger] ds.take(i - start)[k],
                ) by {
                    if k < i - start - 1 {
                        assert(ds.take(i - start)[k] == ds.take(i - start - 1)[k]);
                    }
                }
            }
        }
    }
    proof {
        assert(ds.take(n - start) =~= ds);
    }
    if negative {
        let v: i32 = 0i32 - value as i32;
        if v < -32768 {
            None
        } else {
            Some(v as i16)
        }
    } else {
        if value > 32767 {
            None
        } else {
            Some(value as i16)
        }
    }
}

/// Reads a `u8` as `str::parse::<u8>` does; `None` stands for its error.
pub fn parse_u8(s: &str) -> (res: Option<u8>)
    ensures
        res == parse_u8_text(s@),
{
    let n = s.unicode_len();
    if n == 0 {
        return None;
    }
    let start: usize = if s.get_char(0) == '+' {
        1
    } else {
        0
    };
    if start == n {
        return None;
    }
    let ghost ds = s@.subrange(start as int, n as int);
    proof {
        if start == 1 {
            assert(ds =~= s@.drop_first());
        } else {
            assert(ds =~= s@);
        }
    }
    let mut value: u32 = 0;
    let mut i: usize = start;
    while i < n
        invariant
            n == s@.len(),
            start <= i <= n,
            start == (if s@[0] == '+' { 1usize } else { 0usize }),
            start < n,
            ds == s@.subrange(start as int, n as int),
            start == 1 ==> ds == s@.drop_first(),
            start == 0 ==> ds == s@,
            all_digits(ds.take(i - start)),
            value == digits_value(ds.take(i - start)),
            value <= 255,
        decreases n - i,
    {
        let c = s.get_char(i);
        proof {
            assert(c == ds[i - start]);
            assert(ds.take(i - start + 1).drop_last() =~= ds.take(i - start));
            assert(ds.take(i - start + 1).last() == c);
        }
        if !('0' <= c && c <= '9') {
            proof {
                assert(!all_digits(ds)) by {
                    assert(!is_digit(ds[i - start]));
                }
            }
            return None;
        }
        let d = (c as u32) - 48;
        let next = value * 10 + d;
        if next > 255 {
            proof {
                assert(all_digits(ds.take(i - start + 1))) by {
                    assert forall|k: int| 0 <= k < ds.take(i - start + 1).len() implies is_digit(
                        #[trigger] ds.take(i - start + 1)[k],
                    ) by {
                        if k < i - start {
                            assert(ds.take(i - start + 1)[k] == ds.take(i - start)[k]);
                        }
                    }
                }
                if all_digits(ds) {
                    lemma_digits_value_prefix(ds, i - start + 1);
                }
            }
            return None;
        }
        value = next;
        i = i + 1;
        proof {
            assert(all_digits(ds.take(i - start))) by {
                assert forall|k: int| 0 <= k < ds.take(i - start).len() implies is_digit(
                    #[trigger] ds.take(i - start)[k],
                ) by {
                    if k < i - start - 1 {
                        assert(ds.take(i - start)[k] == ds.take(i - start - 1)[k]);
                    }
                }
            }
        }
    }
    proof {
        assert(ds.take(n - start) =~= ds);
    }
    Some(value as u8)
}

/// Reading the decimal text of a `u8` gives the number back: the priority an orchestrator
/// writes is the priority a node reads.
pub proof fn law_u8_text_roundtrip(p: u8)
    ensures
        parse_u8_text(decimal_digits(p as nat)) == Some(p),
{
    lemma_decimal_digits(p as nat);
    let t = decimal_digits(p as nat);
    assert(is_digit(t[0]));
}

/// Reads a `u64` as `str::parse::<u64>` does; `None` stands for its error.
pub fn parse_u64(s: &str) -> (res: Option<u64>)
    ensures
        res == parse_u64_text(s@),
{
    let n = s.unicode_len();
    if n == 0 {
        return None;
    }
    let start: usize = if s.get_char(0) == '+' {
        1
    } else {
        0
    };
    if start == n {
        return None;
    }
    let ghost ds = s@.subrange(start as int, n as int);
    proof {
        if start == 1 {
            assert(ds =~= s@.drop_first());
        } else {
            assert(ds =~= s@);
        }
    }
    let mut value: u64 = 0;
    let mut i: usize = start;
    while i < n
        invariant
            n == s@.len(),
            start <= i <= n,
            start == (if s@[0] == '+' { 1usize } else { 0usize }),
            start < n,
            ds == s@.subrange(start as int, n as int),
            start == 1 ==> ds == s@.drop_first(),
            start == 0 ==> ds == s@,
            all_digits(ds.take(i - start)),
            value == digits_value(ds.take(i - start)),
        decreases n - i,
    {
        let c = s.get_char(i);
        proof {
            assert(c == ds[i - start]);
            assert(ds.take(i - start + 1).drop_last() =~= ds.take(i - start));
            assert(ds.take(i - start + 1).last() == c);
        }
        if !('0' <= c && c <= '9') {
            proof {
                assert(!all_digits(ds)) by {
                    assert(!is_digit(ds[i - start]));
                }
            }
            return None;
        }
        let d = (c as u64) - 48;
        if value > 1844674407370955161 || (value == 1844674407370955161 && d > 5) {
            proof {
                assert(value * 10 + d > u64::MAX) by (nonlinear_arith)
                    requires
                        value > 1844674407370955161 || (value == 1844674407370955161 && d > 5),
                        d >= 0,
                ;
                assert(all_digits(ds.take(i - start + 1))) by {
                    assert forall|k: int| 0 <= k < ds.take(i - start + 1).len() implies is_digit(
                        #[trigger] ds.take(i - start + 1)[k],
                    ) by {
                        if k < i - start {
                            assert(ds.take(i - start + 1)[k] == ds.take(i - start)[k]);
                        }
                    }
                }
                if all_digits(ds) {
                    lemma_digits_value_prefix(ds, i - start + 1);
                }
            }
            return None;
        }
        proof {
            assert(value * 10 + d <= u64::MAX) by (nonlinear_arith)
                requires
                    !(value > 1844674407370955161 || (value == 1844674407370955161 && d > 5)),
                    d <= 9,
            ;
        }
        value = value * 10 + d;
        i = i + 1;
        proof {
            assert(all_digits(ds.take(i - start))) by {
                assert forall|k: int| 0 <= k < ds.take(i - start).len() implies is_digit(
                    #[trigger] ds.take(i - start)[k],
                ) by {
                    if k < i - start - 1 {
                        assert(ds.take(i - start)[k] == ds.take(i - start - 1)[k]);
                    }
                }
            }
        }
    }
    proof {
        assert(ds.take(n - start) =~= ds);
    }
    Some(value)
}

/// Reading the decimal text of a `u64` gives the number back.
pub proof fn law_u64_text_roundtrip(p: u64)
    ensures
        parse_u64_text(decimal_digits(p as nat)) == Some(p),
{
    lemma_decimal_digits(p as nat);
    let t = decimal_digits(p as nat);
    assert(is_digit(t[0]));
}

} // verus!
