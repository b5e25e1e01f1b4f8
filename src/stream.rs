//! The stream cipher: counter-mode keystream generation and the XOR pass.

use vstd::prelude::*;
use crate::block::{add32, chacha20_block};
use crate::model::{apply_keystream, block_input, counter_at, keystream_byte, wadd};

verus! {

/// Bytes of keystream that one block yields.
pub const CHACHA20_BLOCK_SIZE: usize = 64;

proof fn lemma_next_counter(counter: u32, k: nat)
    ensures
        counter_at(counter, k + 1) == wadd(counter_at(counter, k), 1),
{
    vstd::arithmetic::div_mod::lemma_add_mod_noop(counter as int + k, 1, 0x1_0000_0000);
    vstd::arithmetic::div_mod::lemma_small_mod(1, 0x1_0000_0000);
}

/// Encrypts or decrypts `data` in place: XORs it with the keystream of `key`
/// and `nonce` whose first block has counter `counter`. The counter of later
/// blocks wraps around past 2^32 - 1. Applying it twice with the same key,
/// counter and nonce gives back the original bytes.
pub fn chacha20(key: [u32; 8], counter: u32, nonce: [u32; 3], data: &mut Vec<u8>)
    ensures
        final(data)@ == apply_keystream(key, counter, nonce, old(data)@),
{
    let mut state: [u32; 16] = [
        0x61707865, 0x3320646e, 0x79622d32, 0x6b206574,
        key[0], key[1], key[2], key[3],
        key[4], key[5], key[6], key[7],
        counter, nonce[0], nonce[1], nonce[2],
    ];
    assert(state@ =~= block_input(key, counter_at(counter, 0), nonce));
    let len = data.len();
    let n_blocks: usize = len / CHACHA20_BLOCK_SIZE + if len % CHACHA20_BLOCK_SIZE == 0 {
        0
    } else {
        1
    };
    let mut keystream: Vec<u8> = Vec::new();
    for k in 0..n_blocks
        invariant
            state@ == block_input(key, counter_at(counter, k as nat), nonce),
            keystream@.len() == 64 * k,
            forall|i: int|
                0 <= i < 64 * k ==> keystream@[i] == keystream_byte(key, counter, nonce, i as nat),
    {
        let ghost before = keystream@;
        chacha20_block(state, &mut keystream);
        assert forall|i: int| 0 <= i < 64 * (k + 1) implies keystream@[i] == keystream_byte(
            key,
            counter,
            nonce,
            i as nat,
        ) by {
            if i >= 64 * k {
                assert(i / 64 == k as int);
                assert(i % 64 == i - 64 * k);
            }
        }
        state[12] = add32(state[12], 1);
        proof {
            lemma_next_counter(counter, k as nat);
        }
        assert(state@ =~= block_input(key, counter_at(counter, (k + 1) as nat), nonce));
    }
    let ghost original = data@;
    for i in 0..len
        invariant
            len == original.len(),
            len <= keystream@.len(),
            data@.len() == len,
            forall|j: int|
                0 <= j < keystream@.len() ==> keystream@[j] == keystream_byte(key, counter, nonce, j as nat),
            forall|j: int| 0 <= j < i ==> data@[j] == original[j] ^ keystream_byte(key, counter, nonce, j as nat),
            forall|j: int| i <= j < len ==> data@[j] == original[j],
    {
        let x: u8 = data[i] ^ keystream[i];
        data.set(i, x);
    }
    assert(data@ =~= apply_keystream(key, counter, nonce, original));
}

} // verus!
