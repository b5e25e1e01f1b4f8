//! Laws of the cipher, stated over the model that the executable functions
//! are verified against.

use vstd::prelude::*;
use crate::model::{apply_keystream, block_bytes, block_input, counter_at, keystream_byte};

verus! {

/// Applying the keystream twice with the same key, counter and nonce gives
/// back the original bytes: decryption is encryption.
pub proof fn lemma_round_trip(key: [u32; 8], counter: u32, nonce: [u32; 3], data: Seq<u8>)
    ensures
        apply_keystream(key, counter, nonce, apply_keystream(key, counter, nonce, data)) == data,
{
    let once = apply_keystream(key, counter, nonce, data);
    let twice = apply_keystream(key, counter, nonce, once);
    assert forall|i: int| 0 <= i < data.len() implies twice[i] == data[i] by {
        let x = data[i];
        let k = keystream_byte(key, counter, nonce, i as nat);
        assert((x ^ k) ^ k == x) by (bit_vector);
    }
    assert(twice =~= data);
}

/// An empty buffer stays empty.
pub proof fn lemma_empty(key: [u32; 8], counter: u32, nonce: [u32; 3])
    ensures
        apply_keystream(key, counter, nonce, Seq::empty()) == Seq::<u8>::empty(),
{
    assert(apply_keystream(key, counter, nonce, Seq::empty()) =~= Seq::<u8>::empty());
}

/// The output depends on the key, counter, nonce and data alone: equal inputs
/// give equal outputs, and the output has the length of the data.
pub proof fn lemma_deterministic(
    key: [u32; 8],
    counter: u32,
    nonce: [u32; 3],
    data1: Seq<u8>,
    data2: Seq<u8>,
)
    requires
        data1 == data2,
    ensures
        apply_keystream(key, counter, nonce, data1) == apply_keystream(key, counter, nonce, data2),
        apply_keystream(key, counter, nonce, data1).len() == data1.len(),
{
}

/// Byte `r` of block `j` of the keystream that starts at `counter` is byte
/// `r` of the block for counter `counter + j` (modulo 2^32): a block depends
/// on the key, the nonce and its own counter only.
pub proof fn lemma_block_independence(key: [u32; 8], counter: u32, nonce: [u32; 3], j: nat, r: nat)
    requires
        r < 64,
    ensures
        keystream_byte(key, counter, nonce, 64 * j + r) == block_bytes(
            block_input(key, counter_at(counter, j), nonce),
        )[r as int],
        keystream_byte(key, counter, nonce, 64 * j + r) == keystream_byte(
            key,
            counter_at(counter, j),
            nonce,
            r,
        ),
{
    vstd::arithmetic::div_mod::lemma_fundamental_div_mod_converse(
        (64 * j + r) as int,
        64,
        j as int,
        r as int,
    );
    vstd::arithmetic::div_mod::lemma_basic_div_specific_divisor(64);
    vstd::arithmetic::div_mod::lemma_small_mod(r, 64);
}

/// The counter that is `j + i` blocks on from `counter` is `i` blocks on from
/// the counter `j` blocks on.
pub proof fn lemma_counter_steps(counter: u32, j: nat, i: nat)
    ensures
        counter_at(counter, j + i) == counter_at(counter_at(counter, j), i),
{
    let m: int = 0x1_0000_0000;
    let start = counter_at(counter, j) as int;
    vstd::arithmetic::div_mod::lemma_add_mod_noop(counter as int + j, i as int, m);
    vstd::arithmetic::div_mod::lemma_add_mod_noop(start, i as int, m);
    vstd::arithmetic::div_mod::lemma_mod_twice(counter as int + j, m);
}

/// Encrypting a buffer and keeping the part from block `j` on is the same as
/// encrypting that part alone, starting at counter `counter + j`.
pub proof fn lemma_suffix_from_block(
    key: [u32; 8],
    counter: u32,
    nonce: [u32; 3],
    data: Seq<u8>,
    j: nat,
)
    requires
        64 * j <= data.len(),
    ensures
        apply_keystream(key, counter, nonce, data).subrange(64 * j as int, data.len() as int)
            == apply_keystream(
            key,
            counter_at(counter, j),
            nonce,
            data.subrange(64 * j as int, data.len() as int),
        ),
{
    let lhs = apply_keystream(key, counter, nonce, data).subrange(64 * j as int, data.len() as int);
    let rhs = apply_keystream(
        key,
        counter_at(counter, j),
        nonce,
        data.subrange(64 * j as int, data.len() as int),
    );
    assert forall|i: int| 0 <= i < lhs.len() implies lhs[i] == rhs[i] by {
        let q = (i / 64) as nat;
        let r = (i % 64) as nat;
        vstd::arithmetic::div_mod::lemma_fundamental_div_mod(i, 64);
        lemma_block_independence(key, counter, nonce, j + q, r);
        lemma_block_independence(key, counter_at(counter, j), nonce, q, r);
        lemma_counter_steps(counter, j, q);
        assert(64 * j + i == 64 * (j + q) + r);
    }
    assert(lhs =~= rhs);
}

} // verus!
