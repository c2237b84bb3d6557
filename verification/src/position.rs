//! Canvas coordinates.

use vstd::prelude::*;

verus! {

/// A point on the canvas.
#[derive(Debug, Clone, Copy, PartialEq, Eq, Structural)]
pub struct Position {
    pub x: u32,
    pub y: u32,
}

impl Position {
    /// The point reached from `self` by moving `rhs.x` to the right and
    /// `rhs.y` down, each coordinate counted modulo 2^32.
    pub open spec fn translated(self, rhs: Position) -> Position {
        Position {
            x: ((self.x + rhs.x) % 0x1_0000_0000) as u32,
            y: ((self.y + rhs.y) % 0x1_0000_0000) as u32,
        }
    }

    /// Translates `self` by the offset `rhs`.
    ///
    /// The sum is not guarded: a coordinate that passes `u32::MAX` wraps
    /// around. Callers choose offsets that keep the result meaningful.
    pub fn add(self, rhs: Position) -> (sum: Position)
        ensures
            sum == self.translated(rhs),
            self.x + rhs.x <= u32::MAX ==> sum.x == self.x + rhs.x,
            self.y + rhs.y <= u32::MAX ==> sum.y == self.y + rhs.y,
    {
        Position { x: self.x.wrapping_add(rhs.x), y: self.y.wrapping_add(rhs.y) }
    }
}

/// Translating by the origin changes nothing, and the order of two points
/// does not matter.
pub proof fn lemma_translation_laws(a: Position, b: Position)
    ensures
        a.translated(Position { x: 0, y: 0 }) == a,
        a.translated(b) == b.translated(a),
{
}

} // verus!
