//! Image decoding: a program image is a byte stream of little-endian
//! 16-bit words; word `i` occupies bytes `2*i` (low) and `2*i + 1`
//! (high).

use vstd::prelude::*;

verus! {

/// Decode a little-endian byte stream (of even length) into the word
/// sequence it denotes.
pub fn words_from_le_bytes(bytes: &Vec<u8>) -> (words: Vec<u16>)
    requires
        bytes@.len() % 2 == 0,
    ensures
        words@.len() == bytes@.len() / 2,
        forall|i: int|
            0 <= i < words@.len() ==> words@[i] == bytes@[2 * i] + 256 * bytes@[2 * i + 1],
{
    let n: usize = bytes.len() / 2;
    let mut words: Vec<u16> = Vec::new();
    let mut i: usize = 0;
    while i < n
        invariant
            i <= n,
            n == bytes@.len() / 2,
            bytes@.len() <= usize::MAX,
            bytes@.len() % 2 == 0,
            words@.len() == i,
            forall|j: int|
                0 <= j < i ==> words@[j] == bytes@[2 * j] + 256 * bytes@[2 * j + 1],
        decreases n - i,
    {
        let lo: u16 = bytes[2 * i] as u16;
        let hi: u16 = bytes[2 * i + 1] as u16;
        words.push(lo + 256 * hi);
        i = i + 1;
    }
    words
}

} // verus!
