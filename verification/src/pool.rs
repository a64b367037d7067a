use vstd::prelude::*;

use crate::options::PassSpec;
use crate::options::spec_from_flags;
use crate::options::spec_valid;

verus! {

/// The ASCII characters whose codes run from `lo` to `hi`, both included.
pub open spec fn char_range(lo: u8, hi: u8) -> Seq<char> {
    if lo <= hi {
        Seq::new((hi - lo + 1) as nat, |i: int| (lo + i) as char)
    } else {
        Seq::empty()
    }
}

/// The punctuation characters: the printable ASCII characters from '!'
/// through '~' that are neither digits nor letters.
pub open spec fn symbol_chars() -> Seq<char> {
    char_range(0x21, 0x2f) + char_range(0x3a, 0x40) + char_range(0x5b, 0x60) + char_range(
        0x7b,
        0x7e,
    )
}

/// The ten decimal digit characters.
pub open spec fn number_chars() -> Seq<char> {
    char_range(0x30, 0x39)
}

/// The 26 uppercase ASCII letters.
pub open spec fn upper_chars() -> Seq<char> {
    char_range(0x41, 0x5a)
}

/// The 26 lowercase ASCII letters.
pub open spec fn lower_chars() -> Seq<char> {
    char_range(0x61, 0x7a)
}

/// The character pool of a specification: the enabled classes, concatenated
/// in the fixed order symbols, numbers, upper, lower. It depends on the four
/// class switches alone.
pub open spec fn pool_of(ps: PassSpec) -> Seq<char> {
    (if ps.symbols {
        symbol_chars()
    } else {
        Seq::empty()
    }) + (if ps.numbers {
        number_chars()
    } else {
        Seq::empty()
    }) + (if ps.upper {
        upper_chars()
    } else {
        Seq::empty()
    }) + (if ps.lower {
        lower_chars()
    } else {
        Seq::empty()
    })
}

/// Appends the ASCII characters with codes `lo` through `hi` to the pool.
fn push_char_range(pool: &mut Vec<char>, lo: u8, hi: u8)
    requires
        lo <= hi,
        hi <= 0x7e,
    ensures
        final(pool)@ == old(pool)@ + char_range(lo, hi),
{
    let mut code: u8 = lo;
    while code <= hi
        invariant
            lo <= code <= hi + 1,
            hi <= 0x7e,
            pool@ =~= old(pool)@ + char_range(lo, hi).subrange(0, code - lo),
        decreases hi + 1 - code,
    {
        pool.push(code as char);
        proof {
            assert(char_range(lo, hi).subrange(0, code + 1 - lo) =~= char_range(lo, hi).subrange(
                0,
                code - lo,
            ).push((lo + (code - lo)) as char));
        }
        code = code + 1;
    }
    proof {
        assert(char_range(lo, hi).subrange(0, code - lo) =~= char_range(lo, hi));
    }
}

/// Builds the concrete character pool of a specification: each enabled
/// class's characters, in the fixed order symbols, numbers, upper, lower.
pub fn generate_char_pool(ps: &PassSpec) -> (pool: Vec<char>)
    ensures
        pool@ == pool_of(*ps),
{
    let mut pool: Vec<char> = Vec::new();

    if ps.symbols {
        push_char_range(&mut pool, 0x21, 0x2f);
        push_char_range(&mut pool, 0x3a, 0x40);
        push_char_range(&mut pool, 0x5b, 0x60);
        push_char_range(&mut pool, 0x7b, 0x7e);
    }
    if ps.numbers {
        push_char_range(&mut pool, 0x30, 0x39);
    }
    if ps.upper {
        push_char_range(&mut pool, 0x41, 0x5a);
    }
    if ps.lower {
        push_char_range(&mut pool, 0x61, 0x7a);
    }
    proof {
        assert(pool@ =~= pool_of(*ps));
    }
    pool
}

/// A valid specification always yields characters to draw from.
pub proof fn lemma_valid_pool_nonempty(ps: PassSpec)
    requires
        spec_valid(ps),
    ensures
        pool_of(ps).len() > 0,
{
}

/// The fallback invariant: a specification built with no class selected
/// carries the very pool of one built with every class selected.
pub proof fn lemma_pool_fallback(length: u32)
    ensures
        pool_of(spec_from_flags(false, false, false, false, length)) == pool_of(
            spec_from_flags(true, true, true, true, length),
        ),
{
}

/// With every class selected the pool holds 94 characters: the printable
/// ASCII characters other than the space.
pub proof fn lemma_full_pool_len(ps: PassSpec)
    requires
        ps.symbols,
        ps.numbers,
        ps.upper,
        ps.lower,
    ensures
        pool_of(ps).len() == 94,
{
}

/// The pool is a pure function of the four class switches: two
/// specifications with the same switches have the identical pool,
/// whatever their lengths.
pub proof fn lemma_pool_depends_only_on_flags(a: PassSpec, b: PassSpec)
    requires
        a.symbols == b.symbols,
        a.numbers == b.numbers,
        a.upper == b.upper,
        a.lower == b.lower,
    ensures
        pool_of(a) == pool_of(b),
{
}

} // verus!
