//! Cell coordinates, the four cardinal headings, and the segment textures
//! derived from the turn a body segment represents.

use vstd::prelude::*;

verus! {

/// A cell coordinate on the board: 0-indexed `(x, y)` with `x` growing to the
/// right and `y` growing downward.
#[derive(Clone, Copy, PartialEq, Eq, Structural, Debug)]
pub struct Point(pub u32, pub u32);

/// One of the four cardinal headings a snake can move in.
#[derive(Clone, Copy, PartialEq, Eq, Structural, Debug)]
pub enum SnakeDirection {
    Up,
    Down,
    Left,
    Right,
}

/// The glyph class of one body segment: straight (vertical or horizontal) or
/// one of the four corner shapes, named after the two directions the corner
/// connects.
#[derive(Clone, Copy, PartialEq, Eq, Structural, Debug)]
pub enum SnakeTexture {
    Horizontal,
    Vertical,
    DownAndLeft,
    UpAndLeft,
    DownAndRight,
    UpAndRight,
}

impl SnakeDirection {
    /// The exact reverse of this heading. Up/Down and Left/Right are the
    /// opposite pairs.
    pub open spec fn opposite_spec(self) -> SnakeDirection {
        match self {
            SnakeDirection::Up => SnakeDirection::Down,
            SnakeDirection::Down => SnakeDirection::Up,
            SnakeDirection::Left => SnakeDirection::Right,
            SnakeDirection::Right => SnakeDirection::Left,
        }
    }

    /// The opposite pairs are Up/Down and Left/Right: reversing twice gives
    /// the heading back, and no heading is its own reverse.
    pub proof fn lemma_opposite_pairs()
        ensures
            forall|d: SnakeDirection| (#[trigger] d.opposite_spec()).opposite_spec() == d,
            forall|d: SnakeDirection| #[trigger] d.opposite_spec() != d,
    {
        assert forall|d: SnakeDirection| (#[trigger] d.opposite_spec()).opposite_spec() == d by {
            match d {
                SnakeDirection::Up => {},
                SnakeDirection::Down => {},
                SnakeDirection::Left => {},
                SnakeDirection::Right => {},
            }
        }
        assert forall|d: SnakeDirection| #[trigger] d.opposite_spec() != d by {
            match d {
                SnakeDirection::Up => {},
                SnakeDirection::Down => {},
                SnakeDirection::Left => {},
                SnakeDirection::Right => {},
            }
        }
    }

    /// A requested heading is a valid move exactly when it is not the exact
    /// reverse of this one.
    pub fn is_valid_move(&self, rhs: &Self) -> (r: bool)
        ensures
            r == (*rhs != self.opposite_spec()),
    {
        *rhs != match self {
            SnakeDirection::Up => SnakeDirection::Down,
            SnakeDirection::Down => SnakeDirection::Up,
            SnakeDirection::Left => SnakeDirection::Right,
            SnakeDirection::Right => SnakeDirection::Left,
        }
    }

    /// The texture of a segment whose incoming direction is `self` and whose
    /// outgoing direction is `next`. The four reversal pairs never occur under
    /// the movement invariant, so their value is left unspecified.
    pub open spec fn texture_spec(self, next: SnakeDirection) -> SnakeTexture {
        match (self, next) {
            (SnakeDirection::Up, SnakeDirection::Left) => SnakeTexture::UpAndLeft,
            (SnakeDirection::Right, SnakeDirection::Down) => SnakeTexture::UpAndLeft,
            (SnakeDirection::Down, SnakeDirection::Left) => SnakeTexture::UpAndRight,
            (SnakeDirection::Right, SnakeDirection::Up) => SnakeTexture::UpAndRight,
            (SnakeDirection::Up, SnakeDirection::Right) => SnakeTexture::DownAndLeft,
            (SnakeDirection::Left, SnakeDirection::Down) => SnakeTexture::DownAndLeft,
            (SnakeDirection::Down, SnakeDirection::Right) => SnakeTexture::DownAndRight,
            (SnakeDirection::Left, SnakeDirection::Up) => SnakeTexture::DownAndRight,
            (SnakeDirection::Up, SnakeDirection::Up) => SnakeTexture::Vertical,
            (SnakeDirection::Down, SnakeDirection::Down) => SnakeTexture::Vertical,
            (SnakeDirection::Left, SnakeDirection::Left) => SnakeTexture::Horizontal,
            (SnakeDirection::Right, SnakeDirection::Right) => SnakeTexture::Horizontal,
            _ => arbitrary(),
        }
    }

    /// The texture for the turn from heading `self` into heading `next`.
    /// Reversal pairs are ruled out by the movement invariant.
    pub fn get_texture(&self, next: &Self) -> (r: SnakeTexture)
        requires
            *next != self.opposite_spec(),
        ensures
            r == self.texture_spec(*next),
    {
        match (self, next) {
            (SnakeDirection::Up, SnakeDirection::Left)
            | (SnakeDirection::Right, SnakeDirection::Down) => SnakeTexture::UpAndLeft,
            (SnakeDirection::Down, SnakeDirection::Left)
            | (SnakeDirection::Right, SnakeDirection::Up) => SnakeTexture::UpAndRight,
            (SnakeDirection::Up, SnakeDirection::Right)
            | (SnakeDirection::Left, SnakeDirection::Down) => SnakeTexture::DownAndLeft,
            (SnakeDirection::Down, SnakeDirection::Right)
            | (SnakeDirection::Left, SnakeDirection::Up) => SnakeTexture::DownAndRight,
            (SnakeDirection::Up, SnakeDirection::Up)
            | (SnakeDirection::Down, SnakeDirection::Down) => SnakeTexture::Vertical,
            (SnakeDirection::Left, SnakeDirection::Left)
            | (SnakeDirection::Right, SnakeDirection::Right) => SnakeTexture::Horizontal,
            (SnakeDirection::Up, SnakeDirection::Down)
            | (SnakeDirection::Right, SnakeDirection::Left)
            | (SnakeDirection::Down, SnakeDirection::Up)
            | (SnakeDirection::Left, SnakeDirection::Right) => unreached(),
        }
    }
}

impl SnakeTexture {
    /// The box-drawing glyph that displays this texture.
    pub open spec fn char_spec(self) -> char {
        match self {
            SnakeTexture::Horizontal => '\u{2501}',
            SnakeTexture::Vertical => '\u{2503}',
            SnakeTexture::DownAndLeft => '\u{250F}',
            SnakeTexture::UpAndLeft => '\u{2513}',
            SnakeTexture::DownAndRight => '\u{2517}',
            SnakeTexture::UpAndRight => '\u{251B}',
        }
    }

    /// The display glyph for this segment texture.
    pub fn to_char(self) -> (c: char)
        ensures
            c == self.char_spec(),
    {
        match self {
            SnakeTexture::Horizontal => '\u{2501}',
            SnakeTexture::Vertical => '\u{2503}',
            SnakeTexture::DownAndLeft => '\u{250F}',
            SnakeTexture::UpAndLeft => '\u{2513}',
            SnakeTexture::DownAndRight => '\u{2517}',
            SnakeTexture::UpAndRight => '\u{251B}',
        }
    }
}

} // verus!
