//! The mathematical model of the cipher: words, the quarter round, the
//! block function and the keystream, as spec functions.

use vstd::prelude::*;

verus! {

/// Addition modulo 2^32.
pub open spec fn wadd(x: u32, y: u32) -> u32 {
    ((x as int + y as int) % 0x1_0000_0000) as u32
}

/// Left rotation of a 32-bit word by `n` bits, for `0 < n < 32`.
pub open spec fn rotl(x: u32, n: u32) -> u32 {
    (x << n) | (x >> (32 - n) as u32)
}

/// One quarter round on the words at `a`, `b`, `c`, `d` of `s`: the
/// add-rotate-xor sequence, with rotations by 16, 12, 8 and 7.
pub open spec fn quarter_round(s: Seq<u32>, a: int, b: int, c: int, d: int) -> Seq<u32> {
    let s = s.update(a, wadd(s[a], s[b]));
    let s = s.update(d, rotl(s[d] ^ s[a], 16));
    let s = s.update(c, wadd(s[c], s[d]));
    let s = s.update(b, rotl(s[b] ^ s[c], 12));
    let s = s.update(a, wadd(s[a], s[b]));
    let s = s.update(d, rotl(s[d] ^ s[a], 8));
    let s = s.update(c, wadd(s[c], s[d]));
    let s = s.update(b, rotl(s[b] ^ s[c], 7));
    s
}

/// The little-endian bytes of a word, least significant first.
pub open spec fn le_bytes(x: u32) -> Seq<u8> {
    seq![
        (x & 0xff) as u8,
        ((x >> 8) & 0xff) as u8,
        ((x >> 16) & 0xff) as u8,
        ((x >> 24) & 0xff) as u8,
    ]
}

/// One double round: the four column quarter rounds, then the four diagonal
/// ones, in this order.
pub open spec fn double_round(s: Seq<u32>) -> Seq<u32> {
    let s = quarter_round(s, 0, 4, 8, 12);
    let s = quarter_round(s, 1, 5, 9, 13);
    let s = quarter_round(s, 2, 6, 10, 14);
    let s = quarter_round(s, 3, 7, 11, 15);
    let s = quarter_round(s, 0, 5, 10, 15);
    let s = quarter_round(s, 1, 6, 11, 12);
    let s = quarter_round(s, 2, 7, 8, 13);
    let s = quarter_round(s, 3, 4, 9, 14);
    s
}

/// `n` double rounds applied to `s`.
pub open spec fn rounds(s: Seq<u32>, n: nat) -> Seq<u32>
    decreases n,
{
    if n == 0 {
        s
    } else {
        double_round(rounds(s, (n - 1) as nat))
    }
}

/// The 16 output words of the block function: the state after ten double
/// rounds, with the input state added word by word.
pub open spec fn block_words(s: Seq<u32>) -> Seq<u32> {
    Seq::new(16, |i: int| wadd(s[i], rounds(s, 10)[i]))
}

/// The 64 keystream bytes of one block: its words serialised little-endian in
/// index order.
pub open spec fn block_bytes(s: Seq<u32>) -> Seq<u8> {
    Seq::new(64, |j: int| le_bytes(block_words(s)[j / 4])[j % 4])
}

/// The state for one block: the constant "expand 32-byte k" as four
/// little-endian words, the eight key words, the block counter and the three
/// nonce words.
pub open spec fn block_input(key: [u32; 8], counter: u32, nonce: [u32; 3]) -> Seq<u32> {
    seq![
        0x61707865u32, 0x3320646eu32, 0x79622d32u32, 0x6b206574u32,
        key[0], key[1], key[2], key[3],
        key[4], key[5], key[6], key[7],
        counter, nonce[0], nonce[1], nonce[2],
    ]
}

/// The counter of the block `i` places after the one with `counter`, with
/// wrap-around past 2^32 - 1.
pub open spec fn counter_at(counter: u32, i: nat) -> u32 {
    ((counter as int + i) % 0x1_0000_0000) as u32
}

/// Byte `i` of the keystream that starts at block `counter`: byte `i % 64`
/// of block `i / 64`, whose counter is `counter + i / 64` modulo 2^32.
pub open spec fn keystream_byte(key: [u32; 8], counter: u32, nonce: [u32; 3], i: nat) -> u8 {
    block_bytes(block_input(key, counter_at(counter, i / 64), nonce))[(i % 64) as int]
}

/// `data` XORed byte by byte with the keystream; the keystream past the end
/// of `data` is unused.
pub open spec fn apply_keystream(key: [u32; 8], counter: u32, nonce: [u32; 3], data: Seq<u8>) -> Seq<u8> {
    Seq::new(data.len(), |i: int| data[i] ^ keystream_byte(key, counter, nonce, i as nat))
}

} // verus!
