//! Conversions between the engine's values and what crosses a C boundary:
//! token ids as C `int`s, counts as C `int`s, token lists in caller-owned
//! buffers.

use vstd::prelude::*;

verus! {

/// The C `int` that carries a token id: the same 32 bits read as signed.
pub open spec fn c_int_of_rank(rank: u32) -> i32 {
    if rank <= i32::MAX {
        rank as i32
    } else {
        (rank - 0x1_0000_0000) as i32
    }
}

/// The token id that a C `int` carries: the same 32 bits read as unsigned.
pub open spec fn rank_of_c_int(id: i32) -> u32 {
    if id >= 0 {
        id as u32
    } else {
        (id + 0x1_0000_0000) as u32
    }
}

/// The C `int` that reports a count: its low 32 bits read as signed. It is the
/// count itself as long as the count fits.
pub open spec fn c_int_of_count(count: nat) -> i32 {
    c_int_of_rank((count % 0x1_0000_0000) as u32)
}

/// Puts a token id into a C `int`.
pub fn rank_to_c_int(rank: u32) -> (id: i32)
    ensures
        id == c_int_of_rank(rank),
{
    assert(rank as i32 == (if rank <= 0x7fff_ffffu32 {
        rank as int
    } else {
        rank as int - 0x1_0000_0000
    })) by (bit_vector);
    #[verifier::truncate]
    (rank as i32)
}

/// Takes a token id out of a C `int`.
pub fn c_int_to_rank(id: i32) -> (rank: u32)
    ensures
        rank == rank_of_c_int(id),
{
    assert(id as u32 == (if id >= 0i32 {
        id as int
    } else {
        id as int + 0x1_0000_0000
    })) by (bit_vector);
    #[verifier::truncate]
    (id as u32)
}

/// Puts a count into a C `int`.
pub fn count_to_c_int(count: usize) -> (n: i32)
    ensures
        n == c_int_of_count(count as nat),
        count <= i32::MAX ==> n == count,
{
    let low: u64 = (count as u64) % 0x1_0000_0000;
    rank_to_c_int(low as u32)
}

/// The token ids that a list of C `int`s carries.
pub open spec fn ranks_of(ids: Seq<i32>) -> Seq<u32> {
    Seq::new(ids.len(), |i: int| rank_of_c_int(ids[i]))
}

/// The C `int`s that carry a list of token ids.
pub open spec fn c_ints_of(tokens: Seq<u32>) -> Seq<i32> {
    Seq::new(tokens.len(), |i: int| c_int_of_rank(tokens[i]))
}

/// A buffer after a token list was written to its front: as many tokens as
/// fit, in order, and the rest of the buffer as it was.
pub open spec fn filled(buffer: Seq<i32>, tokens: Seq<u32>) -> Seq<i32> {
    Seq::new(
        buffer.len(),
        |i: int| if i < tokens.len() { c_int_of_rank(tokens[i]) } else { buffer[i] },
    )
}

/// Reads token ids out of a caller's array of C `int`s.
pub fn to_ranks(ids: &[i32]) -> (tokens: Vec<u32>)
    ensures
        tokens@ == ranks_of(ids@),
{
    let mut tokens: Vec<u32> = Vec::with_capacity(ids.len());
    let mut i: usize = 0;
    while i < ids.len()
        invariant
            i <= ids.len(),
            tokens@.len() == i,
            forall|j: int| 0 <= j < i ==> tokens@[j] == rank_of_c_int(ids@[j]),
        decreases ids.len() - i,
    {
        tokens.push(c_int_to_rank(ids[i]));
        i += 1;
    }
    tokens
}

/// Writes a token list to the front of a caller's buffer and reports how many
/// tokens there are. The count is that of the whole list, also where the
/// buffer is too short to hold it.
pub fn write_tokens(tokens: &[u32], buffer: &mut [i32]) -> (count: i32)
    ensures
        final(buffer)@ == filled(old(buffer)@, tokens@),
        count == c_int_of_count(tokens@.len()),
{
    let n: usize = if tokens.len() < buffer.len() { tokens.len() } else { buffer.len() };
    let mut i: usize = 0;
    while i < n
        invariant
            n <= tokens.len(),
            n <= buffer.len(),
            i <= n,
            buffer@.len() == old(buffer)@.len(),
            forall|j: int| 0 <= j < i ==> buffer@[j] == c_int_of_rank(tokens@[j]),
            forall|j: int| i <= j < buffer@.len() ==> buffer@[j] == old(buffer)@[j],
        decreases n - i,
    {
        buffer[i] = rank_to_c_int(tokens[i]);
        i += 1;
    }
    count_to_c_int(tokens.len())
}

} // verus!
