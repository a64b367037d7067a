use vstd::prelude::*;

use rand::Rng;

use crate::options::PassSpec;
use crate::options::spec_valid;
use crate::pool::generate_char_pool;
use crate::pool::lemma_valid_pool_nonempty;
use crate::pool::pool_of;

verus! {

/// The thread-local random number generator of the rand crate. It is opaque
/// here: values of it are only created outside the library and passed in.
#[verifier::external_type_specification]
#[verifier::external_body]
pub struct ExThreadRng(rand::rngs::ThreadRng);

/// Relies on rand's `Rng::gen_range` over `0..n`: it panics on an empty
/// range and otherwise returns a value of the range, so the index is below
/// `n`. Nothing more is assumed: the draw is random.
#[verifier::external_body]
fn pick_index(rng: &mut rand::rngs::ThreadRng, n: usize) -> (r: usize)
    requires
        n > 0,
    ensures
        r < n,
{
    rng.gen_range(0..n)
}

/// Relies on std's `String::push`: it appends exactly the given character.
#[verifier::external_body]
fn push_char(s: &mut String, c: char)
    ensures
        final(s)@ == old(s)@.push(c),
{
    s.push(c);
}

/// Draws a password of exactly `ps.length` characters, each taken
/// independently from the character pool of the specification; every
/// character of the result belongs to that pool.
pub fn generate_pass(ps: &PassSpec, rng: &mut rand::rngs::ThreadRng) -> (pass: String)
    requires
        spec_valid(*ps),
    ensures
        pass@.len() == ps.length,
        forall|i: int| 0 <= i < pass@.len() ==> pool_of(*ps).contains(#[trigger] pass@[i]),
{
    let pool = generate_char_pool(ps);
    proof {
        lemma_valid_pool_nonempty(*ps);
    }
    let mut pass = String::new();
    let mut i: u32 = 0;
    while i < ps.length
        invariant
            i <= ps.length,
            pool@ == pool_of(*ps),
            pool@.len() > 0,
            pass@.len() == i,
            forall|j: int| 0 <= j < pass@.len() ==> pool_of(*ps).contains(#[trigger] pass@[j]),
        decreases ps.length - i,
    {
        let idx = pick_index(rng, pool.len());
        let c = pool[idx];
        push_char(&mut pass, c);
        i = i + 1;
    }
    pass
}

} // verus!
