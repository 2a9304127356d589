//! The source of random bytes.

use vstd::prelude::*;

verus! {

/// Draws the next number from the process-wide pseudo-random generator of
/// `macroquad` (`macroquad::rand::rand`). The generator hands out numbers
/// from 0 to `u32::MAX`; nothing more is claimed of the number drawn: it
/// depends on the generator's seed and on every earlier draw.
#[verifier::external_body]
fn random_word() -> (word: u32) {
    macroquad::rand::rand()
}

/// A random byte: the low eight bits of the next random number.
pub(crate) fn random_byte() -> (byte: u8) {
    let word: u32 = random_word();
    assert(word & 0xff < 0x100) by (bit_vector);
    (word & 0xff) as u8
}

} // verus!
