//! Numbers written in decimal: rendering and reading.

use vstd::prelude::*;

verus! {

/// The character for the digit `d`.
pub open spec fn digit_char(d: nat) -> char
    recommends
        d < 10,
{
    if d == 0 {
        '0'
    } else if d == 1 {
        '1'
    } else if d == 2 {
        '2'
    } else if d == 3 {
        '3'
    } else if d == 4 {
        '4'
    } else if d == 5 {
        '5'
    } else if d == 6 {
        '6'
    } else if d == 7 {
        '7'
    } else if d == 8 {
        '8'
    } else {
        '9'
    }
}

/// `n` written in decimal, without leading zeros.
pub open spec fn decimal_digits(n: nat) -> Seq<char>
    decreases n,
{
    if n < 10 {
        seq![digit_char(n)]
    } else {
        decimal_digits(n / 10).push(digit_char(n % 10))
    }
}

/// The digit that `c` stands for, where `c` is one of `0` to `9`.
pub open spec fn digit_value(c: char) -> Option<nat> {
    if '0' <= c <= '9' {
        Some((c as u32 - '0' as u32) as nat)
    } else {
        None
    }
}

/// Whether `s` is made of the characters `0` to `9` only.
pub open spec fn all_digits(s: Seq<char>) -> bool {
    forall|i: int| 0 <= i < s.len() ==> digit_value(#[trigger] s[i]) is Some
}

/// The number that the digits `s` write in decimal; leading zeros count for
/// nothing.
pub open spec fn decimal_value(s: Seq<char>) -> nat
    recommends
        all_digits(s),
    decreases s.len(),
{
    if s.len() == 0 {
        0
    } else {
        decimal_value(s.drop_last()) * 10 + digit_value(s.last()).unwrap_or(0)
    }
}

/// `s` without the one `+` that may stand before the digits.
pub open spec fn unsigned_part(s: Seq<char>) -> Seq<char> {
    if s.len() > 0 && s.first() == '+' {
        s.drop_first()
    } else {
        s
    }
}

/// The number that `s` writes: an optional `+`, then one digit or more, the
/// whole no greater than `u32::MAX`. Every other text writes no number.
pub open spec fn parsed_u32(s: Seq<char>) -> Option<u32> {
    let digits = unsigned_part(s);
    if digits.len() > 0 && all_digits(digits) && decimal_value(digits) <= u32::MAX {
        Some(decimal_value(digits) as u32)
    } else {
        None
    }
}

/// The one-character text for the digit `d`.
fn digit_str(d: u32) -> (r: &'static str)
    requires
        d < 10,
    ensures
        r@ == seq![digit_char(d as nat)],
{
    proof {
        reveal_strlit("0");
        reveal_strlit("1");
        reveal_strlit("2");
        reveal_strlit("3");
        reveal_strlit("4");
        reveal_strlit("5");
        reveal_strlit("6");
        reveal_strlit("7");
        reveal_strlit("8");
        reveal_strlit("9");
    }
    let r = if d == 0 {
        "0"
    } else if d == 1 {
        "1"
    } else if d == 2 {
        "2"
    } else if d == 3 {
        "3"
    } else if d == 4 {
        "4"
    } else if d == 5 {
        "5"
    } else if d == 6 {
        "6"
    } else if d == 7 {
        "7"
    } else if d == 8 {
        "8"
    } else {
        "9"
    };
    assert(r@ =~= seq![digit_char(d as nat)]);
    r
}

/// Writes `n` in decimal.
pub fn render_decimal(n: u32) -> (r: String)
    ensures
        r@ == decimal_digits(n as nat),
    decreases n,
{
    if n < 10 {
        String::from_str(digit_str(n))
    } else {
        let mut out = render_decimal(n / 10);
        out.append(digit_str(n % 10));
        assert(out@ =~= decimal_digits((n / 10) as nat).push(digit_char((n % 10) as nat)));
        out
    }
}

/// Appending a digit to a run of digits multiplies its value by ten and adds
/// the digit; appending anything else ends the run.
proof fn lemma_digits_push(s: Seq<char>, c: char)
    ensures
        all_digits(s.push(c)) <==> all_digits(s) && digit_value(c) is Some,
        decimal_value(s.push(c)) == decimal_value(s) * 10 + digit_value(c).unwrap_or(0),
{
    let t = s.push(c);
    assert(t.drop_last() == s);
    assert(t.last() == c);
    if all_digits(t) {
        assert(t[s.len() as int] == c);
        assert forall|i: int| 0 <= i < s.len() implies digit_value(#[trigger] s[i]) is Some by {
            assert(t[i] == s[i]);
        }
    }
    if all_digits(s) && digit_value(c) is Some {
        assert forall|i: int| 0 <= i < t.len() implies digit_value(#[trigger] t[i]) is Some by {
            if i < s.len() {
                assert(t[i] == s[i]);
            }
        }
    }
}

/// The digits that write a number are digits, and write that number.
proof fn lemma_digits_write_their_number(n: nat)
    ensures
        decimal_digits(n).len() > 0,
        all_digits(decimal_digits(n)),
        decimal_value(decimal_digits(n)) == n,
    decreases n,
{
    if n < 10 {
        let only = Seq::<char>::empty().push(digit_char(n));
        assert(decimal_digits(n) =~= only);
        lemma_digits_push(Seq::<char>::empty(), digit_char(n));
    } else {
        lemma_digits_write_their_number(n / 10);
        lemma_digits_push(decimal_digits(n / 10), digit_char(n % 10));
    }
}

/// Reading gives back the number that rendering wrote.
pub proof fn lemma_parse_reads_what_render_wrote(n: u32)
    ensures
        parsed_u32(decimal_digits(n as nat)) == Some(n),
{
    let digits = decimal_digits(n as nat);
    lemma_digits_write_their_number(n as nat);
    assert(digit_value(digits[0]) is Some);
    assert(unsigned_part(digits) == digits);
}

/// Reads a `u32` written in decimal, as `str::parse` does: an optional `+`,
/// then digits. `None` where `s` writes no number or one too large.
pub fn parse_u32(s: &str) -> (r: Option<u32>)
    ensures
        r == parsed_u32(s@),
{
    let ghost digits = unsigned_part(s@);
    let ghost skipped: int = s@.len() - digits.len();
    let mut seen: usize = 0;
    let mut value: u32 = 0;
    // `ok` falls once a character is no digit or the value has outgrown `u32`.
    let mut ok = true;
    let mut first = true;
    let n = s.unicode_len();
    for c in it: s.chars()
        invariant
            it.seq() == s@,
            n == s@.len(),
            digits == unsigned_part(s@),
            skipped == s@.len() - digits.len(),
            first == (it.index() == 0),
            0 <= seen <= it.index(),
            !first ==> seen == it.index() - skipped,
            first ==> seen == 0,
            ok ==> all_digits(digits.take(seen as int)) && value == decimal_value(
                digits.take(seen as int),
            ),
            !ok ==> !all_digits(digits) || decimal_value(digits) > u32::MAX,
    {
        let ghost i = it.index();
        if first && c == '+' {
            first = false;
            assert(digits.take(0) =~= Seq::<char>::empty());
        } else {
            first = false;
            proof {
                assert(digits[seen as int] == c);
                assert(digits.take(seen + 1) == digits.take(seen as int).push(c));
                lemma_digits_push(digits.take(seen as int), c);
            }
            if ok {
                if '0' <= c && c <= '9' {
                    let d: u32 = c as u32 - '0' as u32;
                    match value.checked_mul(10) {
                        Some(tens) => match tens.checked_add(d) {
                            Some(v) => {
                                value = v;
                            },
                            None => {
                                ok = false;
                            },
                        },
                        None => {
                            ok = false;
                        },
                    }
                    proof {
                        if !ok {
                            lemma_value_grows(digits, seen + 1);
                        }
                    }
                } else {
                    ok = false;
                    assert(!all_digits(digits));
                }
            }
            seen = seen + 1;
        }
    }
    proof {
        assert(digits.take(digits.len() as int) == digits);
    }
    if ok && seen > 0 {
        Some(value)
    } else {
        None
    }
}

/// A run of digits writes at least what any of its prefixes writes.
proof fn lemma_value_grows(s: Seq<char>, k: int)
    requires
        0 <= k <= s.len(),
    ensures
        decimal_value(s.take(k)) <= decimal_value(s),
    decreases s.len() - k,
{
    if k == s.len() {
        assert(s.take(k) == s);
    } else {
        lemma_value_grows(s.drop_last(), k);
        assert(s.drop_last().take(k) == s.take(k));
    }
}

} // verus!
