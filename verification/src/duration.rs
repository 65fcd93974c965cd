use vstd::prelude::*;

use crate::errors::CmdError;

verus! {

/// An ASCII decimal digit.
pub open spec fn is_digit(b: u8) -> bool {
    48 <= b && b <= 57
}

/// The numeric value of an ASCII decimal digit.
pub open spec fn digit_val(b: u8) -> nat {
    (b - 48) as nat
}

pub open spec fn all_digits(s: Seq<u8>) -> bool {
    forall|i: int| 0 <= i < s.len() ==> is_digit(#[trigger] s[i])
}

/// The value of a run of decimal digits, most significant first.
pub open spec fn digits_value(s: Seq<u8>) -> nat
    decreases s.len(),
{
    if s.len() == 0 {
        0
    } else {
        digits_value(s.drop_last()) * 10 + digit_val(s.last())
    }
}

/// The bytes before the first '.' (the whole input if there is none).
pub open spec fn before_dot(s: Seq<u8>) -> Seq<u8>
    decreases s.len(),
{
    if s.len() == 0 {
        Seq::empty()
    } else if s[0] == 46 {
        Seq::empty()
    } else {
        seq![s[0]] + before_dot(s.drop_first())
    }
}

/// What the media tool's duration output parses to: the digits before the
/// first decimal point, read as a whole number of seconds (truncation, not
/// rounding). Anything else, an empty integer part, or a value over u64::MAX
/// does not parse.
pub open spec fn spec_parse_duration(s: Seq<u8>) -> Option<u64> {
    let p = before_dot(s);
    if p.len() > 0 && all_digits(p) && digits_value(p) <= u64::MAX {
        Some(digits_value(p) as u64)
    } else {
        None
    }
}

proof fn lemma_before_dot_take(s: Seq<u8>, d: int)
    requires
        0 <= d <= s.len(),
        forall|j: int| 0 <= j < d ==> s[j] != 46,
        d < s.len() ==> s[d] == 46,
    ensures
        before_dot(s) == s.take(d),
    decreases d,
{
    if d == 0 {
        assert(before_dot(s) =~= s.take(0));
    } else {
        assert(s[0] != 46);
        lemma_before_dot_take(s.drop_first(), d - 1);
        assert(before_dot(s) == seq![s[0]] + before_dot(s.drop_first()));
        assert(seq![s[0]] + s.drop_first().take(d - 1) =~= s.take(d));
    }
}

proof fn lemma_digits_value_step(s: Seq<u8>, j: int)
    requires
        0 <= j < s.len(),
    ensures
        digits_value(s.take(j + 1)) == digits_value(s.take(j)) * 10 + digit_val(s[j]),
{
    assert(s.take(j + 1).drop_last() =~= s.take(j));
    assert(s.take(j + 1).last() == s[j]);
}

proof fn lemma_digits_value_take_le(s: Seq<u8>, j: int)
    requires
        0 <= j <= s.len(),
    ensures
        digits_value(s.take(j)) <= digits_value(s),
    decreases s.len() - j,
{
    if j == s.len() {
        assert(s.take(j) =~= s);
    } else {
        lemma_digits_value_take_le(s, j + 1);
        lemma_digits_value_step(s, j);
    }
}

/// Parse the media tool's duration output: the digits before the first
/// decimal point, truncated to whole seconds.
pub fn parse_duration(out: &[u8]) -> (r: Result<u64, CmdError>)
    ensures
        match spec_parse_duration(out@) {
            Some(v) => r == Ok::<u64, CmdError>(v),
            None => r matches Err(e) && e is MediaTool,
        },
{
    let n = out.len();
    let mut d: usize = 0;
    while d < n && out[d] != 46
        invariant
            d <= n,
            n == out@.len(),
            forall|j: int| 0 <= j < d ==> out@[j] != 46,
        decreases n - d,
    {
        d += 1;
    }
    proof {
        lemma_before_dot_take(out@, d as int);
    }
    let ghost p = out@.take(d as int);
    if d == 0 {
        return Err(CmdError::MediaTool(String::from_str("Could not parse duration output")));
    }
    let mut acc: u64 = 0;
    let mut j: usize = 0;
    while j < d
        invariant
            j <= d,
            d <= n,
            n == out@.len(),
            p == out@.take(d as int),
            p == before_dot(out@),
            p.len() == d,
            forall|k: int| 0 <= k < j ==> is_digit(#[trigger] out@[k]),
            acc == digits_value(out@.take(j as int)),
            digits_value(out@.take(j as int)) <= u64::MAX,
        decreases d - j,
    {
        let b = out[j];
        if !(48 <= b && b <= 57) {
            proof {
                assert(p[j as int] == out@[j as int]);
                assert(!is_digit(p[j as int]));
            }
            return Err(CmdError::MediaTool(String::from_str("Could not parse duration output")));
        }
        let dv: u64 = (b - 48) as u64;
        proof {
            lemma_digits_value_step(out@, j as int);
        }
        let stepped: u64 = match acc.checked_mul(10) {
            Some(m) => match m.checked_add(dv) {
                Some(a) => a,
                None => {
                    proof {
                        assert(p.take(j + 1 as int) =~= out@.take(j + 1 as int));
                        lemma_digits_value_take_le(p, j + 1 as int);
                    }
                    return Err(CmdError::MediaTool(
                        String::from_str("Could not parse duration output"),
                    ));
                },
            },
            None => {
                proof {
                    assert(p.take(j + 1 as int) =~= out@.take(j + 1 as int));
                    lemma_digits_value_take_le(p, j + 1 as int);
                }
                return Err(CmdError::MediaTool(
                    String::from_str("Could not parse duration output"),
                ));
            },
        };
        acc = stepped;
        j += 1;
    }
    proof {
        assert(forall|i: int| 0 <= i < p.len() ==> is_digit(#[trigger] p[i]) && p[i] == out@[i]);
        assert(all_digits(p));
        assert(out@.take(d as int) == p);
    }
    Ok(acc)
}

} // verus!
