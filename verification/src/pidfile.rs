//! The process id recorded in a service's pid file: the file's text,
//! trimmed, read as a signed decimal `i32` (optional `+` or `-`, then one or
//! more ASCII digits, in range), as `str::parse::<i32>` reads it.

use crate::setup::{trim_bounds, trimmed};
use vstd::prelude::*;
use crate::discovery::is_whitespace;
use crate::setup::{trim_end_at, trim_start_at};
use vstd::string::StringExecFns;

verus! {

pub open spec fn is_ascii_digit(c: char) -> bool {
    '0' <= c && c <= '9'
}

pub open spec fn all_digits(s: Seq<char>) -> bool {
    forall|i: int| 0 <= i < s.len() ==> #[trigger] is_ascii_digit(s[i])
}

/// The value of a string of decimal digits, most significant first.
pub open spec fn decimal_value(s: Seq<char>) -> int
    decreases s.len(),
{
    if s.len() == 0 {
        0
    } else {
        decimal_value(s.drop_last()) * 10 + (s.last() as int - '0' as int)
    }
}

/// The value of a signed decimal numeral: an optional sign, then at least
/// one digit; `None` for any other text.
pub open spec fn signed_decimal(s: Seq<char>) -> Option<int> {
    if s.len() > 0 && (s[0] == '-' || s[0] == '+') {
        let body = s.drop_first();
        if body.len() > 0 && all_digits(body) {
            Some(
                if s[0] == '-' {
                    -decimal_value(body)
                } else {
                    decimal_value(body)
                },
            )
        } else {
            None
        }
    } else if s.len() > 0 && all_digits(s) {
        Some(decimal_value(s))
    } else {
        None
    }
}

/// The process id a pid file holding `text` names, if any.
pub open spec fn pid_of(text: Seq<char>) -> Option<i32> {
    match signed_decimal(trimmed(text)) {
        Some(v) => if i32::MIN <= v && v <= i32::MAX {
            Some(v as i32)
        } else {
            None
        },
        None => None,
    }
}

/// Appending a digit multiplies the value by ten and adds the digit.
proof fn lemma_decimal_push(s: Seq<char>, c: char)
    ensures
        decimal_value(s.push(c)) == decimal_value(s) * 10 + (c as int - '0' as int),
{
    assert(s.push(c).drop_last() =~= s);
}

/// A string of digits has a value of at least zero.
proof fn lemma_decimal_nonneg(s: Seq<char>)
    requires
        all_digits(s),
    ensures
        decimal_value(s) >= 0,
    decreases s.len(),
{
    if s.len() > 0 {
        assert(is_ascii_digit(s[s.len() - 1]));
        assert(all_digits(s.drop_last())) by {
            assert forall|i: int| 0 <= i < s.drop_last().len() implies #[trigger] is_ascii_digit(
                s.drop_last()[i],
            ) by {
                assert(is_ascii_digit(s[i]));
            }
        }
        lemma_decimal_nonneg(s.drop_last());
    }
}

/// The process id named by a pid file's text: the text trimmed and read as
/// a signed decimal `i32`; `None` where it is no such numeral or out of
/// range.
pub fn pid_in_file(text: &str) -> (r: Option<i32>)
    ensures
        r == pid_of(text@),
{
    let n = text.unicode_len();
    let (a, b) = trim_bounds(text, n);
    proof {
        assert(text@.take(n as int) =~= text@);
    }
    let ghost u = text@.subrange(a as int, b as int);
    assert(u == trimmed(text@));
    if a >= b {
        return None;
    }
    let first = text.get_char(a);
    let signed = first == '-' || first == '+';
    let start = if signed {
        a + 1
    } else {
        a
    };
    let ghost body = text@.subrange(start as int, b as int);
    assert(signed ==> body =~= u.drop_first());
    assert(!signed ==> body =~= u);
    if start >= b {
        return None;
    }
    let mut i = start;
    let mut acc: u64 = 0;
    let mut big = false;
    while i < b
        invariant
            a <= start < b <= text@.len(),
            start <= i <= b,
            u == trimmed(text@),
            u == text@.subrange(a as int, b as int),
            body == text@.subrange(start as int, b as int),
            first == u[0],
            signed == (first == '-' || first == '+'),
            start == if signed { a + 1 } else { a as int },
            signed ==> body =~= u.drop_first(),
            !signed ==> body =~= u,
            all_digits(text@.subrange(start as int, i as int)),
            !big ==> acc == decimal_value(text@.subrange(start as int, i as int)),
            !big ==> acc <= 2147483648,
            big ==> decimal_value(text@.subrange(start as int, i as int)) > 2147483648,
        decreases b - i,
    {
        let ghost prev = text@.subrange(start as int, i as int);
        let c = text.get_char(i);
        if !('0' <= c && c <= '9') {
            assert(!all_digits(body)) by {
                assert(body[i - start] == c);
                assert(!is_ascii_digit(body[i - start]));
            }
            return None;
        }
        assert(text@.subrange(start as int, i + 1) =~= prev.push(c));
        proof {
            lemma_decimal_push(prev, c);
            lemma_decimal_nonneg(prev);
        }
        let d = (c as u32 - '0' as u32) as u64;
        if !big {
            acc = acc * 10 + d;
            if acc > 2147483648 {
                big = true;
            }
        }
        i = i + 1;
        assert(all_digits(text@.subrange(start as int, i as int))) by {
            assert forall|k: int| 0 <= k < i - start implies #[trigger] is_ascii_digit(
                text@.subrange(start as int, i as int)[k],
            ) by {
                if k < i - 1 - start {
                    assert(text@.subrange(start as int, i as int)[k] == prev[k]);
                    assert(is_ascii_digit(prev[k]));
                }
            }
        }
    }
    assert(text@.subrange(start as int, i as int) =~= body);
    if big {
        return None;
    }
    if signed && first == '-' {
        let v = 0i64 - acc as i64;
        if v < -2147483648 {
            None
        } else {
            Some(v as i32)
        }
    } else {
        if acc > 2147483647 {
            None
        } else {
            Some(acc as i32)
        }
    }
}

/// The character of decimal digit `d`.
pub open spec fn digit_char(d: int) -> char {
    (d + '0' as int) as char
}

/// The decimal numeral of `n`: its digits, most significant first, with no
/// leading zero (`"0"` for zero), as `u32::to_string` writes it.
pub open spec fn decimal_text(n: nat) -> Seq<char>
    decreases n,
{
    if n < 10 {
        seq![digit_char(n as int)]
    } else {
        decimal_text(n / 10).push(digit_char((n % 10) as int))
    }
}

/// The one-character text of decimal digit `d`.
fn digit_text(d: u32) -> (r: &'static str)
    requires
        d < 10,
    ensures
        r@ == seq![digit_char(d as int)],
{
    proof {
        reveal_strlit("0");
        reveal_strlit("1");
        reveal_strlit("2");
        reveal_strlit("3");
        reveal_strlit("4");
        reveal_strlit("5");
        reveal_strlit("6");
        reveal_strlit("7");
        reveal_strlit("8");
        reveal_strlit("9");
    }
    let r = match d {
        0 => "0",
        1 => "1",
        2 => "2",
        3 => "3",
        4 => "4",
        5 => "5",
        6 => "6",
        7 => "7",
        8 => "8",
        _ => "9",
    };
    assert(r@ =~= seq![digit_char(d as int)]);
    r
}

/// Appends the decimal numeral of `n` to `out`.
fn append_decimal(n: u32, out: &mut String)
    ensures
        final(out)@ == old(out)@ + decimal_text(n as nat),
    decreases n,
{
    if n >= 10 {
        append_decimal(n / 10, out);
    }
    out.append(digit_text(n % 10));
    assert(final(out)@ =~= old(out)@ + decimal_text(n as nat)) by {
        if n >= 10 {
            assert(decimal_text(n as nat) == decimal_text((n / 10) as nat).push(digit_char((n % 10) as int)));
        }
    }
}

/// The text a service's pid file holds for process `pid`: its decimal
/// numeral.
pub fn pid_file_text(pid: u32) -> (r: String)
    ensures
        r@ == decimal_text(pid as nat),
{
    let mut out = String::new();
    append_decimal(pid, &mut out);
    assert(out@ =~= decimal_text(pid as nat));
    out
}

/// A decimal numeral is a non-empty string of digits whose value is the
/// number.
proof fn lemma_decimal_text(n: nat)
    ensures
        decimal_text(n).len() >= 1,
        all_digits(decimal_text(n)),
        decimal_value(decimal_text(n)) == n,
    decreases n,
{
    if n >= 10 {
        lemma_decimal_text(n / 10);
        let s = decimal_text(n / 10);
        let c = digit_char((n % 10) as int);
        assert(c as int == n % 10 + '0' as int);
        assert(n == (n / 10) * 10 + n % 10);
        assert(decimal_text(n) == s.push(c));
        lemma_decimal_push(s, c);
        assert(all_digits(s.push(c))) by {
            assert forall|i: int| 0 <= i < s.push(c).len() implies #[trigger] is_ascii_digit(
                s.push(c)[i],
            ) by {
                if i < s.len() {
                    assert(is_ascii_digit(s[i]));
                }
            }
        }
    } else {
        assert(digit_char(n as int) as int == n + '0' as int);
        assert(decimal_text(n).drop_last() =~= Seq::<char>::empty());
        assert(decimal_value(Seq::<char>::empty()) == 0);
    }
}

/// What `start` writes to the pid file, `stop` and `status` read back: the
/// pid file text of every process id up to `i32::MAX` names that process id.
pub proof fn lemma_pid_file_roundtrip(pid: u32)
    requires
        pid <= i32::MAX,
    ensures
        pid_of(decimal_text(pid as nat)) == Some(pid as i32),
{
    let s = decimal_text(pid as nat);
    lemma_decimal_text(pid as nat);
    assert(is_ascii_digit(s[0]));
    assert(is_ascii_digit(s[s.len() - 1]));
    assert(trim_start_at(s, 0) == 0);
    assert(trim_end_at(s, 0, s.len() as int) == s.len());
    assert(trimmed(s) =~= s);
}

} // verus!
