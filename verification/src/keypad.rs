//! The sixteen-key pad. The host reads the physical keys and hands their
//! state to the machine: one flag for each key, set while the key is held.

use vstd::prelude::*;

verus! {

/// The number of keys.
pub const KEY_COUNT: usize = 16;

/// Whether the key that a register value selects is held. The low four bits
/// of the value select the key.
pub open spec fn key_held(keys: Seq<bool>, value: u8) -> bool {
    keys[value as int % (KEY_COUNT as int)]
}

/// The lowest key from `from` upwards that is held, if there is one.
pub open spec fn lowest_held_from(keys: Seq<bool>, from: int) -> Option<u8>
    decreases KEY_COUNT - from,
{
    if from < 0 || from >= KEY_COUNT {
        None
    } else if keys[from] {
        Some(from as u8)
    } else {
        lowest_held_from(keys, from + 1)
    }
}

/// The lowest key that is held, if any key is.
pub open spec fn lowest_held(keys: Seq<bool>) -> Option<u8> {
    lowest_held_from(keys, 0)
}

/// Tells whether the key that a register value selects is held.
pub fn is_held(keys: &[bool; 16], value: u8) -> (held: bool)
    ensures
        held == key_held(keys@, value),
{
    keys[(value % 16) as usize]
}

/// Finds the lowest key that is held.
pub fn first_held(keys: &[bool; 16]) -> (found: Option<u8>)
    ensures
        found == lowest_held(keys@),
{
    let mut k: u8 = 0;
    while k < 16
        invariant
            k <= 16,
            lowest_held(keys@) == lowest_held_from(keys@, k as int),
        decreases 16 - k,
    {
        if keys[k as usize] {
            return Some(k);
        }
        k += 1;
    }
    None
}

/// What the lowest held key is: it is held, and no key below it is. Where no
/// key is found, none is held.
pub proof fn lemma_lowest_held(keys: Seq<bool>, from: int)
    requires
        0 <= from <= KEY_COUNT,
    ensures
        match lowest_held_from(keys, from) {
            Some(k) => from <= k < KEY_COUNT && keys[k as int] && forall|j: int|
                from <= j < k ==> !keys[j],
            None => forall|j: int| from <= j < KEY_COUNT ==> !keys[j],
        },
    decreases KEY_COUNT - from,
{
    if from < KEY_COUNT && !keys[from] {
        lemma_lowest_held(keys, from + 1);
    }
}

} // verus!
