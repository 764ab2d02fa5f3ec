//! Arithmetic for the host side: the timing of a swipe, pointer coordinates
//! on the absolute scale and in a window, and the channel order of captured
//! pixels.

use vstd::prelude::*;

verus! {

/// The larger of two numbers.
pub open spec fn larger(a: int, b: int) -> int {
    if a >= b {
        a
    } else {
        b
    }
}

/// The number of moves that a swipe of `duration_ms` milliseconds is made
/// of: one for every ten milliseconds, and fifty at least.
pub open spec fn steps_of(duration_ms: u32) -> int {
    larger(50, duration_ms as int / 10)
}

/// The pause after each move of a swipe, in milliseconds: the duration
/// shared out among the moves, and five at least.
pub open spec fn step_delay_of(duration_ms: u32) -> int {
    larger(duration_ms as int / steps_of(duration_ms), 5)
}

/// The number of moves of a swipe.
pub fn swipe_steps(duration_ms: u32) -> (steps: u32)
    ensures
        steps == steps_of(duration_ms),
        steps >= 50,
{
    let tenth: u32 = duration_ms / 10;
    if tenth > 50 {
        tenth
    } else {
        50
    }
}

/// The pause after each move of a swipe, in milliseconds.
pub fn swipe_step_delay(duration_ms: u32) -> (delay_ms: u32)
    ensures
        delay_ms == step_delay_of(duration_ms),
        delay_ms >= 5,
{
    let share: u32 = duration_ms / swipe_steps(duration_ms);
    if share > 5 {
        share
    } else {
        5
    }
}

/// The quotient of two numbers, rounded towards zero: the quotient of their
/// sizes, with the sign of the fraction.
pub open spec fn quotient(a: int, b: int) -> int
    recommends
        b != 0,
{
    let size_a = if a >= 0 {
        a
    } else {
        -a
    };
    let size_b = if b >= 0 {
        b
    } else {
        -b
    };
    if (a >= 0) == (b >= 0) {
        size_a / size_b
    } else {
        -(size_a / size_b)
    }
}

/// A screen coordinate on the scale from 0 to 65535 that the windowing
/// system takes pointer positions in: `position * 65535 / extent`, rounded
/// towards zero. `extent` is the width or the height of the screen in
/// pixels; the product has to fit in an `i32`.
pub fn to_absolute(position: i32, extent: i32) -> (absolute: i32)
    requires
        extent != 0,
        i32::MIN <= position * 65535 <= i32::MAX,
    ensures
        absolute == quotient(position * 65535, extent as int),
{
    let scaled: i32 = position * 65535;
    assert(scaled > i32::MIN) by {
        assert(position >= -32768);
    }
    if extent > 0 {
        scaled / extent
    } else if extent == i32::MIN {
        0
    } else {
        let size: i32 = -extent;
        let towards_zero: i32 = scaled / size;
        assert(-2147483647 <= towards_zero <= 2147483647) by (nonlinear_arith)
            requires
                size > 0,
                -2147483647 <= scaled <= 2147483647,
                towards_zero == if scaled >= 0 {
                    scaled as int / size as int
                } else {
                    -((-scaled) as int / size as int)
                },
        ;
        -towards_zero
    }
}

/// What a watcher of the pointer prints when it looks again.
#[derive(Debug, Clone, Copy, PartialEq, Eq, Structural)]
pub enum PointerLine {
    /// The position: the pointer is over the window.
    Position,
    /// That the pointer is outside: it has just left the window.
    Outside,
    /// Nothing: the pointer was outside and still is.
    Nothing,
}

/// What to print for a pointer that is or is not over the window now, and
/// was or was not when it was looked at last.
pub open spec fn pointer_line_of(inside: bool, was_inside: bool) -> PointerLine {
    if inside {
        PointerLine::Position
    } else if was_inside {
        PointerLine::Outside
    } else {
        PointerLine::Nothing
    }
}

/// Looks at the pointer again: says what to print, and whether the pointer
/// is over the window, to be handed in at the next look.
pub fn watch_pointer(x: i32, y: i32, width: i32, height: i32, was_inside: bool) -> (look: (
    PointerLine,
    bool,
))
    ensures
        look.1 == (0 <= x < width && 0 <= y < height),
        look.0 == pointer_line_of(look.1, was_inside),
{
    let inside = is_inside(x, y, width, height);
    if inside {
        (PointerLine::Position, true)
    } else if was_inside {
        (PointerLine::Outside, false)
    } else {
        (PointerLine::Nothing, false)
    }
}

/// Whether a position lies in an area of this width and height whose corner
/// is the origin.
pub fn is_inside(x: i32, y: i32, width: i32, height: i32) -> (inside: bool)
    ensures
        inside == (0 <= x < width && 0 <= y < height),
{
    x >= 0 && y >= 0 && x < width && y < height
}

/// The bytes of pixels of four channels with the first and the third channel
/// of every pixel exchanged: blue, green, red, alpha becomes red, green, blue,
/// alpha, and the other way round. Bytes behind the last whole pixel stay.
pub open spec fn red_blue_swapped(data: Seq<u8>) -> Seq<u8> {
    Seq::new(
        data.len(),
        |i: int|
            if i - i % 4 + 3 >= data.len() {
                data[i]
            } else if i % 4 == 0 {
                data[i + 2]
            } else if i % 4 == 2 {
                data[i - 2]
            } else {
                data[i]
            },
    )
}

/// Exchanges the first and the third channel of every pixel in place.
pub fn swap_red_blue(data: &mut Vec<u8>)
    ensures
        final(data)@ == red_blue_swapped(old(data)@),
{
    let len: usize = data.len();
    let mut at: usize = 0;
    while len - at >= 4
        invariant
            at <= len,
            at % 4 == 0,
            data@.len() == len,
            len == old(data)@.len(),
            forall|i: int| 0 <= i < at ==> data@[i] == red_blue_swapped(old(data)@)[i],
            forall|i: int| at <= i < len ==> data@[i] == old(data)@[i],
        decreases len - at,
    {
        let blue: u8 = data[at];
        let red: u8 = data[at + 2];
        data.set(at, red);
        data.set(at + 2, blue);
        at += 4;
    }
    assert(data@ =~= red_blue_swapped(old(data)@));
}

} // verus!
