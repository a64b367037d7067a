use vstd::prelude::*;
use vstd::string::StrSliceExecFns;

verus! {

/// Which character classes a password may draw from, and how long it is.
#[derive(Clone, Copy, Debug, PartialEq, Eq, Structural)]
pub struct PassSpec {
    pub symbols: bool,
    pub numbers: bool,
    pub upper: bool,
    pub lower: bool,
    pub length: u32,
}

/// The length used whenever the caller gives none, or one that does not parse.
pub const DEFAULT_LENGTH: u32 = 12;

/// A specification is valid when at least one character class is enabled.
pub open spec fn spec_valid(ps: PassSpec) -> bool {
    ps.symbols || ps.numbers || ps.upper || ps.lower
}

/// The specification built from the four class switches and a length:
/// with no class selected, every class is enabled instead.
pub open spec fn spec_from_flags(
    symbols: bool,
    numbers: bool,
    upper: bool,
    lower: bool,
    length: u32,
) -> PassSpec {
    if !symbols && !numbers && !upper && !lower {
        PassSpec { symbols: true, numbers: true, upper: true, lower: true, length }
    } else {
        PassSpec { symbols, numbers, upper, lower, length }
    }
}

/// An ASCII decimal digit.
pub open spec fn is_digit(c: char) -> bool {
    48 <= c as int <= 57
}

/// The numeric value of one decimal digit character.
pub open spec fn digit_val(c: char) -> int {
    c as int - 48
}

pub open spec fn all_digits(s: Seq<char>) -> bool {
    forall|i: int| 0 <= i < s.len() ==> is_digit(#[trigger] s[i])
}

/// The value of a sequence of decimal digit characters, most significant first.
pub open spec fn digits_val(s: Seq<char>) -> int
    decreases s.len(),
{
    if s.len() == 0 {
        0
    } else {
        digits_val(s.drop_last()) * 10 + digit_val(s.last())
    }
}

/// What `str::parse::<u32>` yields on this character sequence: an optional
/// leading '+', then at least one decimal digit, and a value that fits in
/// `u32`; anything else fails.
pub open spec fn parse_u32_spec(s: Seq<char>) -> Option<u32> {
    let digits = if s.len() > 0 && s[0] == '+' {
        s.subrange(1, s.len() as int)
    } else {
        s
    };
    if digits.len() > 0 && all_digits(digits) && digits_val(digits) <= u32::MAX {
        Some(digits_val(digits) as u32)
    } else {
        None
    }
}

/// The length taken from an optional command-line value: an absent or
/// unparseable value falls back to the default.
pub open spec fn spec_parsed_length(arg: Option<&str>) -> u32 {
    match arg {
        None => DEFAULT_LENGTH,
        Some(s) => match parse_u32_spec(s@) {
            Some(v) => v,
            None => DEFAULT_LENGTH,
        },
    }
}

proof fn lemma_digits_val_nonneg(s: Seq<char>)
    requires
        all_digits(s),
    ensures
        digits_val(s) >= 0,
    decreases s.len(),
{
    if s.len() > 0 {
        assert(all_digits(s.drop_last()));
        lemma_digits_val_nonneg(s.drop_last());
    }
}

proof fn lemma_digits_val_extend(s: Seq<char>, i: int)
    requires
        0 <= i < s.len(),
    ensures
        digits_val(s.subrange(0, i + 1)) == digits_val(s.subrange(0, i)) * 10 + digit_val(s[i]),
{
    assert(s.subrange(0, i + 1).drop_last() =~= s.subrange(0, i));
    assert(s.subrange(0, i + 1).last() == s[i]);
}

proof fn lemma_digits_val_prefix_le(s: Seq<char>, i: int)
    requires
        all_digits(s),
        0 <= i <= s.len(),
    ensures
        digits_val(s.subrange(0, i)) <= digits_val(s),
    decreases s.len() - i,
{
    if i == s.len() {
        assert(s.subrange(0, i) =~= s);
    } else {
        lemma_digits_val_extend(s, i);
        assert(all_digits(s.subrange(0, i)));
        lemma_digits_val_nonneg(s.subrange(0, i));
        lemma_digits_val_prefix_le(s, i + 1);
    }
}

/// Parses an unsigned decimal number the way `str::parse::<u32>` does:
/// an optional leading '+', then at least one digit, rejecting anything
/// else and any value that does not fit in `u32`.
pub fn parse_u32(s: &str) -> (r: Option<u32>)
    ensures
        r == parse_u32_spec(s@),
{
    let n = s.unicode_len();
    let start: usize = if n > 0 && s.get_char(0) == '+' {
        1
    } else {
        0
    };
    let ghost digits = s@.subrange(start as int, n as int);
    proof {
        assert(s@.subrange(0, n as int) =~= s@);
    }
    if start == n {
        return None;
    }
    let mut val: u64 = 0;
    let mut i: usize = start;
    while i < n
        invariant
            start <= i <= n,
            n == s@.len(),
            start == 0 || start == 1,
            start == 1 <==> (s@.len() > 0 && s@[0] == '+'),
            digits == s@.subrange(start as int, n as int),
            all_digits(digits.subrange(0, i - start)),
            val == digits_val(digits.subrange(0, i - start)),
            val <= u32::MAX,
        decreases n - i,
    {
        let c = s.get_char(i);
        let code = c as u32;
        if code < 48 || code > 57 {
            proof {
                assert(digits[i - start] == s@[i as int]);
                assert(!is_digit(digits[i - start]));
            }
            return None;
        }
        let d = (code - 48) as u64;
        proof {
            lemma_digits_val_extend(digits, i - start);
            assert(digits[i - start] == s@[i as int]);
        }
        val = val * 10 + d;
        let ghost grown = digits.subrange(0, i + 1 - start);
        proof {
            assert(all_digits(grown));
            assert(val == digits_val(grown));
        }
        if val > 0xFFFF_FFFF {
            proof {
                assert(s@.subrange(0, s@.len() as int) =~= s@);
                if all_digits(digits) {
                    lemma_digits_val_prefix_le(digits, i + 1 - start);
                }
            }
            return None;
        }
        i = i + 1;
    }
    proof {
        assert(digits.subrange(0, n - start) =~= digits);
    }
    Some(val as u32)
}

/// Builds the password specification from the command-line inputs: the four
/// class switches and the raw text of the length option, if one was given.
/// With no class selected every class is enabled; a missing or unparseable
/// length falls back to the default of 12.
pub fn generate_pass_spec(
    symbols: bool,
    numbers: bool,
    upper: bool,
    lower: bool,
    length_arg: Option<&str>,
) -> (r: PassSpec)
    ensures
        r == spec_from_flags(symbols, numbers, upper, lower, spec_parsed_length(length_arg)),
        spec_valid(r),
{
    let length = match length_arg {
        None => DEFAULT_LENGTH,
        Some(s) => match parse_u32(s) {
            Some(v) => v,
            None => DEFAULT_LENGTH,
        },
    };
    if !symbols && !numbers && !upper && !lower {
        PassSpec { symbols: true, numbers: true, upper: true, lower: true, length }
    } else {
        PassSpec { symbols, numbers, upper, lower, length }
    }
}

} // verus!
