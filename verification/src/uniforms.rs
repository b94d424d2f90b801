//! The integer part of the values handed to the shader.

use crate::settings::{UserSettings, UserSettingsView};
use vstd::prelude::*;

verus! {

/// The bit of the flag word that says whether a Julia set is drawn.
pub const JULIA_SET_BIT: u32 = 1;

/// The bit for smooth colouring.
pub const SMOOTHEN_BIT: u32 = 2;

/// The bit for a black interior.
pub const INTERNAL_BLACK_BIT: u32 = 4;

/// The bit for adding `c` to the initial value.
pub const INITIAL_C_BIT: u32 = 8;

/// `bit` where the switch is on, zero where it is off.
pub open spec fn switch_bit(on: bool, bit: u32) -> int {
    if on {
        bit as int
    } else {
        0
    }
}

/// The flag word of the settings: one bit for each switch, from the lowest
/// up the Julia set, smoothing, the black interior and the added `c`.
pub open spec fn flag_word(settings: UserSettingsView) -> int {
    switch_bit(settings.julia_set, JULIA_SET_BIT) + switch_bit(settings.smoothen, SMOOTHEN_BIT)
        + switch_bit(settings.internal_black, INTERNAL_BLACK_BIT) + switch_bit(
        settings.initial_c,
        INITIAL_C_BIT,
    )
}

fn bit(on: bool) -> (r: u32)
    ensures
        r == switch_bit(on, 1),
{
    if on {
        1
    } else {
        0
    }
}

/// The flag word that the shader reads its switches from.
pub fn uniform_flags(settings: &UserSettings) -> (r: u32)
    ensures
        r == flag_word(settings@),
        (r & JULIA_SET_BIT != 0) == settings.julia_set,
        (r & SMOOTHEN_BIT != 0) == settings.smoothen,
        (r & INTERNAL_BLACK_BIT != 0) == settings.internal_black,
        (r & INITIAL_C_BIT != 0) == settings.initial_c,
{
    let a = bit(settings.initial_c);
    let b = bit(settings.internal_black);
    let c = bit(settings.smoothen);
    let d = bit(settings.julia_set);
    let r = a << 3 | b << 2 | c << 1 | d;
    assert(r == 8 * a + 4 * b + 2 * c + d && (r & 1 != 0) == (d == 1) && (r & 2 != 0) == (c == 1)
        && (r & 4 != 0) == (b == 1) && (r & 8 != 0) == (a == 1)) by (bit_vector)
        requires
            r == a << 3 | b << 2 | c << 1 | d,
            a <= 1,
            b <= 1,
            c <= 1,
            d <= 1,
    ;
    r
}

} // verus!
