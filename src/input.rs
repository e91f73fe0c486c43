//! The per-frame control word and its decoding.
//!
//! Layout: bit 0 Up, bit 1 Down, bit 2 Left, bit 3 Right, bit 4 Action; a
//! signed 16-bit mouse delta may be packed into bits 16 to 31.
use vstd::prelude::*;

verus! {

pub const INPUT_UP: u32 = 1;
pub const INPUT_DOWN: u32 = 2;
pub const INPUT_LEFT: u32 = 4;
pub const INPUT_RIGHT: u32 = 8;
pub const INPUT_ACTION: u32 = 16;

/// The combined control bits of the current frame.
#[derive(Clone, Copy, Debug, PartialEq, Eq, Structural)]
pub struct InputBits {
    pub bits: u32,
}

/// Whether any bit of `mask` is set in `bits`.
pub open spec fn has_bit(bits: u32, mask: u32) -> bool {
    bits & mask != 0
}

/// -1, 0 or 1 from a pair of opposing controls.
pub open spec fn axis(negative: bool, positive: bool) -> int {
    (if positive { 1int } else { 0int }) - (if negative { 1int } else { 0int })
}

/// The signed value of the upper half of the word read as a two's complement `i16`.
pub open spec fn spec_mouse_delta(bits: u32) -> int {
    let hi = bits as int / 65536;
    if hi < 32768 { hi } else { hi - 65536 }
}

/// Down minus Up: 1 moves down, -1 moves up, 0 holds (also when both are set).
pub fn vertical_direction(bits: u32) -> (r: i32)
    ensures
        r == axis(has_bit(bits, INPUT_UP), has_bit(bits, INPUT_DOWN)),
{
    let up: i32 = if bits & INPUT_UP != 0 { 1 } else { 0 };
    let down: i32 = if bits & INPUT_DOWN != 0 { 1 } else { 0 };
    down - up
}

/// Right minus Left: 1 moves right, -1 moves left, 0 holds.
pub fn horizontal_direction(bits: u32) -> (r: i32)
    ensures
        r == axis(has_bit(bits, INPUT_LEFT), has_bit(bits, INPUT_RIGHT)),
{
    let left: i32 = if bits & INPUT_LEFT != 0 { 1 } else { 0 };
    let right: i32 = if bits & INPUT_RIGHT != 0 { 1 } else { 0 };
    right - left
}

/// Whether the Action control is held.
pub fn action_pressed(bits: u32) -> (r: bool)
    ensures
        r == has_bit(bits, INPUT_ACTION),
{
    bits & INPUT_ACTION != 0
}

/// The mouse delta packed into bits 16 to 31.
pub fn mouse_delta(bits: u32) -> (r: i16)
    ensures
        r == spec_mouse_delta(bits),
{
    let hi: u32 = bits >> 16;
    assert(hi == bits as int / 65536) by (bit_vector)
        requires
            hi == bits >> 16,
    ;
    if hi < 32768 {
        hi as i16
    } else {
        (hi as i32 - 65536) as i16
    }
}

/// How the player steers a horizontal paddle in one frame.
#[derive(Clone, Copy, Debug, PartialEq, Eq, Structural)]
pub enum PaddleControl {
    /// Move by the mouse delta (before sensitivity scaling).
    Mouse(i16),
    /// Move at constant speed in this direction (-1, 0 or 1).
    Keys(i32),
}

/// A non-zero mouse delta wins over the Left/Right keys.
pub fn paddle_control(bits: u32) -> (r: PaddleControl)
    ensures
        spec_mouse_delta(bits) != 0 ==> r == PaddleControl::Mouse(spec_mouse_delta(bits) as i16),
        spec_mouse_delta(bits) == 0 ==> r == PaddleControl::Keys(
            axis(has_bit(bits, INPUT_LEFT), has_bit(bits, INPUT_RIGHT)) as i32,
        ),
{
    let delta = mouse_delta(bits);
    if delta != 0 {
        PaddleControl::Mouse(delta)
    } else {
        PaddleControl::Keys(horizontal_direction(bits))
    }
}

} // verus!
