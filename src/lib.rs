//! The ChaCha20 stream cipher: a 256-bit key, a 96-bit nonce and a 32-bit
//! block counter expand into a keystream that is XORed into a byte buffer.
//!
//! Every executable function here is verified against the mathematical model
//! in [`model`]; the laws that the cipher obeys are proved in [`laws`].

pub mod model;
mod bytes;
pub mod block;
pub mod stream;
pub mod laws;

pub use block::{chacha20_block, quarterround};
pub use stream::{chacha20, CHACHA20_BLOCK_SIZE};
