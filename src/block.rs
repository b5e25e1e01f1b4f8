//! The quarter round and the 64-byte block function.

use vstd::prelude::*;
use crate::bytes::u32_to_le;
use crate::model::{wadd, block_bytes, block_words, le_bytes, quarter_round, rotl, rounds};

verus! {

/// Rotates `x` left by `n` bits.
fn rotate(x: u32, n: u32) -> (r: u32)
    requires
        0 < n < 32,
    ensures
        r == rotl(x, n),
{
    (x << n) | (x >> (32 - n))
}

/// Adds two words modulo 2^32.
pub(crate) fn add32(x: u32, y: u32) -> (r: u32)
    ensures
        r == wadd(x, y),
{
    x.wrapping_add(y)
}

/// Applies one quarter round to the words of `state` at `a`, `b`, `c`, `d`.
pub fn quarterround(state: &mut [u32; 16], a: usize, b: usize, c: usize, d: usize)
    requires
        a < 16,
        b < 16,
        c < 16,
        d < 16,
        a != b && a != c && a != d && b != c && b != d && c != d,
    ensures
        final(state)@ == quarter_round(old(state)@, a as int, b as int, c as int, d as int),
{
    state[a] = add32(state[a], state[b]);
    state[d] = rotate(state[d] ^ state[a], 16);
    state[c] = add32(state[c], state[d]);
    state[b] = rotate(state[b] ^ state[c], 12);
    state[a] = add32(state[a], state[b]);
    state[d] = rotate(state[d] ^ state[a], 8);
    state[c] = add32(state[c], state[d]);
    state[b] = rotate(state[b] ^ state[c], 7);
}

/// Appends the 64 keystream bytes of the block for `state` to `keystream`.
/// `state` itself is left as it was.
pub fn chacha20_block(state: [u32; 16], keystream: &mut Vec<u8>)
    ensures
        final(keystream)@ == old(keystream)@ + block_bytes(state@),
{
    let mut working_state: [u32; 16] = state;
    for i in 0..10
        invariant
            working_state@ == rounds(state@, i as nat),
    {
        // Column round
        quarterround(&mut working_state, 0, 4, 8, 12);
        quarterround(&mut working_state, 1, 5, 9, 13);
        quarterround(&mut working_state, 2, 6, 10, 14);
        quarterround(&mut working_state, 3, 7, 11, 15);
        // Diagonal round
        quarterround(&mut working_state, 0, 5, 10, 15);
        quarterround(&mut working_state, 1, 6, 11, 12);
        quarterround(&mut working_state, 2, 7, 8, 13);
        quarterround(&mut working_state, 3, 4, 9, 14);
    }
    let ghost start = keystream@;
    let ghost words = block_words(state@);
    for idx in 0..16
        invariant
            working_state@ == rounds(state@, 10),
            words == block_words(state@),
            keystream@ == start + Seq::new(4 * idx as nat, |j: int| le_bytes(words[j / 4])[j % 4]),
    {
        let new_value: u32 = add32(state[idx], working_state[idx]);
        let b = u32_to_le(new_value);
        keystream.push(b[0]);
        keystream.push(b[1]);
        keystream.push(b[2]);
        keystream.push(b[3]);
        assert(keystream@ =~= start + Seq::new(
            4 * (idx + 1) as nat,
            |j: int| le_bytes(words[j / 4])[j % 4],
        ));
    }
    assert(keystream@ =~= start + block_bytes(state@));
}

} // verus!
