//! Turning a program image (little-endian 16-bit words) into words.
use vstd::prelude::*;

verus! {

/// Number of words of memory, and so the largest program that fits.
pub const MEM_SIZE: usize = 32768;

/// Why a program image or a word sequence cannot be loaded.
#[derive(Clone, Copy, Debug, PartialEq, Eq, Structural)]
pub enum FormatError {
    /// The byte stream has an odd number of bytes.
    OddLength,
    /// The program has more words than memory holds.
    TooLarge,
}

/// The word made of a low byte `lo` and a high byte `hi`.
pub open spec fn word_of(lo: u8, hi: u8) -> u16 {
    (hi as int * 256 + lo as int) as u16
}

/// The words of a byte sequence of even length, two bytes per word, low byte first.
pub open spec fn words_of(bytes: Seq<u8>) -> Seq<u16> {
    Seq::new(bytes.len() / 2, |i: int| word_of(bytes[2 * i], bytes[2 * i + 1]))
}

/// Decodes a program image into words.
///
/// Fails with `OddLength` if the byte count is odd, and otherwise with
/// `TooLarge` if the image holds more words than memory.
pub fn decode_program(bytes: &[u8]) -> (r: Result<Vec<u16>, FormatError>)
    ensures
        bytes@.len() % 2 == 1 <==> r == Err::<Vec<u16>, FormatError>(FormatError::OddLength),
        (bytes@.len() % 2 == 0 && bytes@.len() / 2 > MEM_SIZE) <==> r
            == Err::<Vec<u16>, FormatError>(FormatError::TooLarge),
        r matches Ok(w) ==> w@ == words_of(bytes@),
{
    let n: usize = bytes.len();
    if n % 2 == 1 {
        return Err(FormatError::OddLength);
    }
    if n / 2 > MEM_SIZE {
        return Err(FormatError::TooLarge);
    }
    let mut words: Vec<u16> = Vec::new();
    let mut i: usize = 0;
    while i < n / 2
        invariant
            n == bytes@.len(),
            n % 2 == 0,
            i <= n / 2,
            words@.len() == i,
            forall|j: int| 0 <= j < i ==> words@[j] == word_of(bytes@[2 * j], bytes@[2 * j + 1]),
        decreases n / 2 - i,
    {
        let lo = bytes[2 * i];
        let hi = bytes[2 * i + 1];
        let w: u16 = (hi as u16) * 256 + (lo as u16);
        words.push(w);
        i = i + 1;
    }
    assert(words@ =~= words_of(bytes@));
    Ok(words)
}

} // verus!
