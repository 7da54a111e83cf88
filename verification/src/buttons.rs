use vstd::prelude::*;
use crate::types::MouseButton;
use vstd::arithmetic::power2::pow2;
use vstd::bits::{lemma_u16_pow2_no_overflow, lemma_u16_shl_is_mul};

verus! {

/// The button that a DOM `button` value names: 0 left, 1 middle, 2 right,
/// 3 back, 4 forward, any larger value another button; -1 (and any other
/// negative value) names none.
pub open spec fn mouse_button_of(raw: i16) -> Option<MouseButton> {
    if raw == 0 {
        Some(MouseButton::Left)
    } else if raw == 1 {
        Some(MouseButton::Middle)
    } else if raw == 2 {
        Some(MouseButton::Right)
    } else if raw == 3 {
        Some(MouseButton::Back)
    } else if raw == 4 {
        Some(MouseButton::Forward)
    } else if raw > 4 {
        Some(MouseButton::Other(raw as u16))
    } else {
        None
    }
}

/// Decodes a DOM `button` value.
pub fn mouse_button(raw: i16) -> (r: Option<MouseButton>)
    ensures
        r == mouse_button_of(raw),
{
    if raw == 0 {
        Some(MouseButton::Left)
    } else if raw == 1 {
        Some(MouseButton::Middle)
    } else if raw == 2 {
        Some(MouseButton::Right)
    } else if raw == 3 {
        Some(MouseButton::Back)
    } else if raw == 4 {
        Some(MouseButton::Forward)
    } else if raw > 4 {
        Some(MouseButton::Other(raw as u16))
    } else {
        None
    }
}

/// The numeric id of a button: left 0, right 1, middle 2, back 3,
/// forward 4, another button its own number.
pub open spec fn button_id_of(b: MouseButton) -> u16 {
    match b {
        MouseButton::Left => 0,
        MouseButton::Right => 1,
        MouseButton::Middle => 2,
        MouseButton::Back => 3,
        MouseButton::Forward => 4,
        MouseButton::Other(n) => n,
    }
}

impl MouseButton {
    /// The numeric id of the button (see `button_id_of`).
    pub fn to_id(&self) -> (r: u16)
        ensures
            r == button_id_of(*self),
    {
        match self {
            MouseButton::Left => 0,
            MouseButton::Right => 1,
            MouseButton::Middle => 2,
            MouseButton::Back => 3,
            MouseButton::Forward => 4,
            MouseButton::Other(n) => *n,
        }
    }
}

/// The bit of number `n` in the DOM `buttons` mask: `2` to the power `n`
/// for `n` below 16, none (0) above.
pub open spec fn bit_of(n: u16) -> nat {
    if n < 16 {
        pow2(n as nat)
    } else {
        0
    }
}

/// The bit of number `n` in the DOM `buttons` mask (see `bit_of`).
pub fn bit(n: u16) -> (r: u16)
    ensures
        r == bit_of(n),
{
    if n < 16 {
        proof {
            lemma_u16_pow2_no_overflow(n as nat);
            lemma_u16_shl_is_mul(1u16, n);
        }
        1u16 << n
    } else {
        0
    }
}

/// The bit of a button in the DOM `buttons` mask: the bit of its numeric
/// id, so left 1, right 2, middle 4, back 8, forward 16, button number `n`
/// (below 16) `2` to the power `n`; a button numbered 16 or more has none.
pub open spec fn button_flag_of(b: MouseButton) -> nat {
    bit_of(button_id_of(b))
}

/// Whether the `buttons` mask holds the button down: the button has a bit
/// and that bit is set.
pub open spec fn is_held(buttons: u16, b: MouseButton) -> bool {
    button_flag_of(b) != 0 && (buttons as nat / button_flag_of(b)) % 2 == 1
}

/// Whether the `buttons` mask holds the button down (see `is_held`).
pub fn button_held(buttons: u16, b: MouseButton) -> (r: bool)
    ensures
        r == is_held(buttons, b),
{
    let flag = bit(b.to_id());
    flag != 0 && (buttons / flag) % 2 == 1
}

} // verus!
