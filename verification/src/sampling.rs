//! Drawing random positions and reading the characters that stand there.
//!
//! The randomness comes from the `rand` crate. What is assumed of it is stated
//! on the three items at the top of this file and on `String::push`; all
//! else here is proved.

use rand::rngs::ThreadRng;
use rand::Rng;
use vstd::prelude::*;

verus! {

/// `rand::rngs::ThreadRng`, the handle to a thread's own generator. Its
/// state is hidden: no contract speaks of what it holds.
#[verifier::external_type_specification]
#[verifier::external_body]
pub struct ExThreadRng(ThreadRng);

/// `rand::thread_rng` hands out the calling thread's generator, seeded by the
/// operating system on first use. Nothing is claimed of the handle. The call
/// takes no input that could be ruled out: it panics only if the operating
/// system cannot supply a seed.
pub assume_specification[ rand::thread_rng ]() -> ThreadRng;

/// `String::push` appends the given character to the end of the string and
/// leaves what was there before in place.
pub assume_specification[ String::push ](s: &mut String, ch: char)
    ensures
        final(s)@ == old(s)@.push(ch),
;

/// `Rng::gen_range` on the half-open range `0..bound`, with the thread's
/// generator. An empty range makes the call panic, so `bound` must be
/// positive. The value drawn lies in the range; which value it is, and what
/// becomes of the generator, is left open. As with `rand::thread_rng`, the
/// call panics if the operating system fails to reseed the generator.
#[verifier::external_body]
fn random_index(rng: &mut ThreadRng, bound: usize) -> (index: usize)
    requires
        bound > 0,
    ensures
        index < bound,
{
    rng.gen_range(0..bound)
}

/// Whether every entry of `indices` is a position below `bound`.
pub open spec fn all_below(indices: Seq<usize>, bound: nat) -> bool {
    forall|i: int| 0 <= i < indices.len() ==> #[trigger] indices[i] < bound
}

/// The characters of `charset` found at `indices`, in the order of `indices`.
pub open spec fn selection(charset: Seq<char>, indices: Seq<usize>) -> Seq<char> {
    Seq::new(indices.len(), |i: int| charset[indices[i] as int])
}

/// Draws `count` positions below `bound` from the thread's random generator,
/// one after the other. There is no position below zero, so `bound` must be
/// positive wherever a position is asked for.
pub fn draw_indices(count: usize, bound: usize) -> (indices: Vec<usize>)
    requires
        count > 0 ==> bound > 0,
    ensures
        indices@.len() == count,
        all_below(indices@, bound as nat),
{
    let mut rng = rand::thread_rng();
    let mut indices: Vec<usize> = Vec::new();
    while indices.len() < count
        invariant
            count > 0 ==> bound > 0,
            indices@.len() <= count,
            all_below(indices@, bound as nat),
        decreases count - indices@.len(),
    {
        let index = random_index(&mut rng, bound);
        indices.push(index);
    }
    indices
}

/// Reads off the characters of `charset` at the given positions, which count
/// characters, not bytes. Each position must lie inside `charset`.
pub fn select_chars(charset: &str, indices: &[usize]) -> (selected: String)
    requires
        all_below(indices@, charset@.len()),
    ensures
        selected@ == selection(charset@, indices@),
{
    let mut selected = String::new();
    let mut i: usize = 0;
    while i < indices.len()
        invariant
            i <= indices@.len(),
            all_below(indices@, charset@.len()),
            selected@ == selection(charset@, indices@.take(i as int)),
        decreases indices@.len() - i,
    {
        let c = charset.get_char(indices[i]);
        selected.push(c);
        i += 1;
        assert(selected@ =~= selection(charset@, indices@.take(i as int)));
    }
    assert(indices@.take(i as int) =~= indices@);
    selected
}

} // verus!
