//! Passwords picked from a pool of characters.
use vstd::prelude::*;
use rand::rngs::ThreadRng;
use crate::random::gen_index;

verus! {

/// Why no password could be made.
#[derive(Clone, Copy, Debug, PartialEq, Eq, Structural)]
pub enum SampleError {
    /// A character was asked of a pool that does not hold it: always so when
    /// the pool is empty and the length is not zero.
    Fatal,
}

/// Whether every index lies below `bound`.
pub open spec fn within(indices: Seq<usize>, bound: nat) -> bool {
    forall|i: int| 0 <= i < indices.len() ==> (#[trigger] indices[i]) < bound
}

/// Whether every character of `password` occurs in `pool`.
pub open spec fn drawn_from(pool: Seq<char>, password: Seq<char>) -> bool {
    forall|i: int| 0 <= i < password.len() ==> pool.contains(#[trigger] password[i])
}

/// The characters that `indices` point at in `pool`, in the order of the indices.
pub open spec fn selection(pool: Seq<char>, indices: Seq<usize>) -> Seq<char> {
    Seq::new(indices.len(), |i: int| pool[indices[i] as int])
}

/// Draws `count` indices below `bound`, each by its own call of the
/// generator. With nothing to choose from and something asked for, it fails.
pub fn draw_indices(rng: &mut ThreadRng, bound: usize, count: usize) -> (drawn: Result<
    Vec<usize>,
    SampleError,
>)
    ensures
        drawn is Ok <==> (count == 0 || bound > 0),
        drawn matches Ok(indices) ==> indices@.len() == count && within(indices@, bound as nat),
        drawn is Err ==> drawn == Err::<Vec<usize>, SampleError>(SampleError::Fatal),
{
    let mut indices: Vec<usize> = Vec::new();
    if count == 0 {
        return Ok(indices);
    }
    if bound == 0 {
        return Err(SampleError::Fatal);
    }
    for n in 0..count
        invariant
            bound > 0,
            indices@.len() == n,
            within(indices@, bound as nat),
    {
        let index = gen_index(rng, bound);
        indices.push(index);
    }
    Ok(indices)
}

/// Picks from `pool` the character at each index, in order. An index that
/// the pool does not reach is fatal.
pub fn select(pool: &Vec<char>, indices: &Vec<usize>) -> (picked: Result<String, SampleError>)
    ensures
        picked is Ok <==> within(indices@, pool@.len()),
        picked matches Ok(password) ==> password@ == selection(pool@, indices@),
        picked is Err ==> picked == Err::<String, SampleError>(SampleError::Fatal),
{
    let mut password = String::new();
    for n in 0..indices.len()
        invariant
            password@ == selection(pool@, indices@.take(n as int)),
            within(indices@.take(n as int), pool@.len()),
    {
        let index = indices[n];
        if index >= pool.len() {
            return Err(SampleError::Fatal);
        }
        password.push(pool[index]);
        assert(indices@.take(n + 1) == indices@.take(n as int).push(index));
        assert(password@ =~= selection(pool@, indices@.take(n + 1)));
    }
    assert(indices@.take(indices@.len() as int) == indices@);
    Ok(password)
}

/// Draws a password of `length` characters from `pool`, each position by its
/// own call of the generator. An empty pool can give only the empty password.
pub fn sample(pool: &Vec<char>, length: usize, rng: &mut ThreadRng) -> (password: Result<
    String,
    SampleError,
>)
    ensures
        password is Ok <==> (length == 0 || pool@.len() > 0),
        password matches Ok(p) ==> p@.len() == length && drawn_from(pool@, p@),
        length == 0 ==> (password matches Ok(p) && p@ == Seq::<char>::empty()),
        password is Err ==> password == Err::<String, SampleError>(SampleError::Fatal),
{
    match draw_indices(rng, pool.len(), length) {
        Ok(indices) => {
            proof {
                lemma_selection_drawn_from(pool@, indices@);
            }
            select(pool, &indices)
        },
        Err(e) => Err(e),
    }
}

/// What in-range indices select from a pool has one character for each index,
/// and each of them occurs in the pool.
pub proof fn lemma_selection_drawn_from(pool: Seq<char>, indices: Seq<usize>)
    requires
        within(indices, pool.len()),
    ensures
        selection(pool, indices).len() == indices.len(),
        drawn_from(pool, selection(pool, indices)),
{
    let picked = selection(pool, indices);
    assert forall|i: int| 0 <= i < picked.len() implies pool.contains(#[trigger] picked[i]) by {
        assert(pool[indices[i] as int] == picked[i]);
    }
}

} // verus!
