//! The snake itself: its ordered body of textured segments, heading and
//! buffered direction requests, movement with optional wrap-around, growth on
//! food, and collision checks.

use std::collections::VecDeque;
use vstd::prelude::*;

use crate::geometry::{Point, SnakeDirection, SnakeTexture};

verus! {

/// One coordinate step forward with wrap-around: `constraint` is the
/// exclusive bound of the axis.
pub open spec fn wrap_inc_spec(u: int, constraint: int) -> int {
    if u + 1 == constraint {
        0
    } else {
        u + 1
    }
}

/// One coordinate step backward with wrap-around.
pub open spec fn wrap_dec_spec(u: int, constraint: int) -> int {
    if u == 0 {
        constraint - 1
    } else {
        u - 1
    }
}

/// Increment a coordinate along an axis of length `constraint`, wrapping to 0
/// at the far edge; `wrapped` is set (and never cleared) when the step wraps.
pub fn wrap_inc(u: u32, constraint: u32, wrapped: &mut bool) -> (r: u32)
    requires
        u < constraint,
    ensures
        r == wrap_inc_spec(u as int, constraint as int),
        r < constraint,
        *final(wrapped) == (*old(wrapped) || u + 1 == constraint),
{
    if u + 1 == constraint {
        *wrapped = true;
        0
    } else {
        u + 1
    }
}

/// Decrement a coordinate along an axis of length `constraint`, wrapping to
/// the far edge at 0; `wrapped` is set (and never cleared) when the step wraps.
pub fn wrap_dec(u: u32, constraint: u32, wrapped: &mut bool) -> (r: u32)
    requires
        u < constraint,
    ensures
        r == wrap_dec_spec(u as int, constraint as int),
        r < constraint,
        *final(wrapped) == (*old(wrapped) || u == 0),
{
    if u == 0 {
        *wrapped = true;
        constraint - 1
    } else {
        u - 1
    }
}

/// The coordinate one cell ahead of `p` in direction `d` on a `w` by `h`
/// board, wrapping at the edges.
pub open spec fn step_point(p: Point, d: SnakeDirection, w: u32, h: u32) -> Point {
    match d {
        SnakeDirection::Down => Point(p.0, wrap_inc_spec(p.1 as int, h as int) as u32),
        SnakeDirection::Up => Point(p.0, wrap_dec_spec(p.1 as int, h as int) as u32),
        SnakeDirection::Left => Point(wrap_dec_spec(p.0 as int, w as int) as u32, p.1),
        SnakeDirection::Right => Point(wrap_inc_spec(p.0 as int, w as int) as u32, p.1),
    }
}

/// Whether the step from `p` in direction `d` crosses an edge of a `w` by `h`
/// board.
pub open spec fn step_wraps(p: Point, d: SnakeDirection, w: u32, h: u32) -> bool {
    match d {
        SnakeDirection::Down => p.1 + 1 == h,
        SnakeDirection::Up => p.1 == 0,
        SnakeDirection::Left => p.0 == 0,
        SnakeDirection::Right => p.0 + 1 == w,
    }
}

/// Wrap semantics at the top edge: a step Up from the top row of any board
/// lands on the bottom row, and such a step counts as a wrap (so a move
/// making it sets the snake's wrapped flag).
pub proof fn lemma_wrap_up_from_top(x: u32, w: u32, h: u32)
    requires
        x < w,
        h >= 1,
    ensures
        step_point(Point(x, 0), SnakeDirection::Up, w, h) == Point(x, (h - 1) as u32),
        step_wraps(Point(x, 0), SnakeDirection::Up, w, h),
{
}

/// The texture of a segment that has been pushed as the head this tick:
/// straight, aligned with the heading.
pub open spec fn axis_texture(d: SnakeDirection) -> SnakeTexture {
    match d {
        SnakeDirection::Up | SnakeDirection::Down => SnakeTexture::Vertical,
        SnakeDirection::Left | SnakeDirection::Right => SnakeTexture::Horizontal,
    }
}

/// `k` is the first position of `p` in `s`.
pub open spec fn is_first_index_of(s: Seq<Point>, p: Point, k: int) -> bool {
    &&& 0 <= k < s.len()
    &&& s[k] == p
    &&& forall|j: int| 0 <= j < k ==> s[j] != p
}

/// The fixed 4-segment vertical starting body at the left column, head at
/// `(0, 3)`, tail at `(0, 0)`.
pub open spec fn initial_body() -> Seq<(Point, SnakeTexture)> {
    seq![
        (Point(0, 3), SnakeTexture::Vertical),
        (Point(0, 2), SnakeTexture::Vertical),
        (Point(0, 1), SnakeTexture::Vertical),
        (Point(0, 0), SnakeTexture::Vertical),
    ]
}

/// The body after one move in heading `d`, where `pd` was the previous
/// heading: the head steps one cell (wrapping at the board edges), the old
/// head's texture is fixed up to reflect the turn, and the tail is kept
/// exactly when the snake grew.
pub open spec fn moved_body(
    body: Seq<(Point, SnakeTexture)>,
    d: SnakeDirection,
    pd: SnakeDirection,
    w: u32,
    h: u32,
    grew: bool,
) -> Seq<(Point, SnakeTexture)> {
    let nh = step_point(body[0].0, d, w, h);
    let grown = seq![(nh, axis_texture(d))] + body.update(0, (body[0].0, pd.texture_spec(d)));
    if grew {
        grown
    } else {
        grown.drop_last()
    }
}

/// The snake: a front-to-back sequence of textured segments (front is the
/// head), the buffered heading for the next move, the heading of the last
/// move, and a sticky flag recording whether any move has wrapped.
pub struct Snake {
    pub points: VecDeque<(Point, SnakeTexture)>,
    pub direction: SnakeDirection,
    pub prev_direction: SnakeDirection,
    pub wrapped: bool,
}

impl Snake {
    /// The coordinates of the body, head first.
    pub open spec fn coords(self) -> Seq<Point> {
        self.points@.map(|i: int, s: (Point, SnakeTexture)| s.0)
    }

    /// The head coordinate.
    pub open spec fn head(self) -> Point {
        self.points@[0].0
    }

    /// Well-formedness: the body is never empty, and the buffered heading is
    /// never the exact reverse of the heading last moved in.
    pub open spec fn wf(self) -> bool {
        &&& self.points@.len() >= 1
        &&& self.direction != self.prev_direction.opposite_spec()
    }

    /// Every segment lies on the `w` by `h` board.
    pub open spec fn in_bounds(self, w: u32, h: u32) -> bool {
        forall|i: int|
            0 <= i < self.points@.len() ==> (#[trigger] self.points@[i]).0.0 < w
                && self.points@[i].0.1 < h
    }

    /// A fresh snake: the fixed 4-segment vertical body, heading Down.
    pub fn new() -> (s: Snake)
        ensures
            s.points@ == initial_body(),
            s.direction == SnakeDirection::Down,
            s.prev_direction == SnakeDirection::Down,
            !s.wrapped,
            s.wf(),
    {
        let mut me = Snake {
            points: VecDeque::new(),
            direction: SnakeDirection::Down,
            prev_direction: SnakeDirection::Down,
            wrapped: false,
        };
        me.points.push_front((Point(0, 0), SnakeTexture::Vertical));
        me.points.push_front((Point(0, 1), SnakeTexture::Vertical));
        me.points.push_front((Point(0, 2), SnakeTexture::Vertical));
        me.points.push_front((Point(0, 3), SnakeTexture::Vertical));
        proof {
            assert(me.points@ =~= initial_body());
        }
        me
    }

    /// Request a new heading for the next move. The request is validated at
    /// input time against the heading the snake last moved in: a request for
    /// the exact reverse is rejected and leaves the buffered heading
    /// unchanged; any other request is buffered and accepted.
    pub fn request_direction(&mut self, direction: SnakeDirection) -> (accepted: bool)
        ensures
            accepted == (direction != old(self).prev_direction.opposite_spec()),
            accepted ==> final(self).direction == direction,
            !accepted ==> final(self).direction == old(self).direction,
            final(self).prev_direction == old(self).prev_direction,
            final(self).points == old(self).points,
            final(self).wrapped == old(self).wrapped,
            old(self).wf() ==> final(self).wf(),
    {
        if self.prev_direction.is_valid_move(&direction) {
            self.direction = direction;
            true
        } else {
            false
        }
    }

    /// Buffer a new heading, silently ignoring a request for the exact
    /// reverse of the heading last moved in.
    pub fn change_direction(&mut self, direction: SnakeDirection)
        ensures
            direction != old(self).prev_direction.opposite_spec() ==> final(self).direction
                == direction,
            direction == old(self).prev_direction.opposite_spec() ==> final(self).direction == old(
                self,
            ).direction,
            final(self).prev_direction == old(self).prev_direction,
            final(self).points == old(self).points,
            final(self).wrapped == old(self).wrapped,
            old(self).wf() ==> final(self).wf(),
    {
        let _ = self.request_direction(direction);
    }

    /// The number of body segments.
    pub fn length(&self) -> (n: usize)
        ensures
            n == self.points@.len(),
    {
        self.points.len()
    }

    /// Whether some body segment sits on `p`.
    pub fn occupies(&self, p: Point) -> (r: bool)
        ensures
            r == self.coords().contains(p),
    {
        let n = self.points.len();
        let mut i: usize = 0;
        while i < n
            invariant
                n == self.points@.len(),
                i <= n,
                forall|j: int| 0 <= j < i ==> (#[trigger] self.points@[j]).0 != p,
            decreases n - i,
        {
            if self.points[i].0 == p {
                proof {
                    assert(self.coords()[i as int] == p);
                }
                return true;
            }
            i += 1;
        }
        proof {
            assert(forall|k: int|
                0 <= k < self.coords().len() ==> #[trigger] self.coords()[k] == self.points@[k].0);
        }
        false
    }

    /// Whether the last move crossed a board edge (sticky: stays set once any
    /// move has wrapped).
    pub fn detect_wrapping(&self) -> (r: bool)
        ensures
            r == self.wrapped,
    {
        self.wrapped
    }

    /// Whether the head coordinate reappears anywhere else in the body.
    pub open spec fn hits_self(self) -> bool {
        exists|i: int| 1 <= i < self.points@.len() && (#[trigger] self.points@[i]).0 == self.head()
    }

    /// Compare the head against every other segment of the body; true exactly
    /// when the head has re-entered an occupied cell.
    pub fn detect_self_collision(&self) -> (r: bool)
        requires
            self.points@.len() >= 1,
        ensures
            r == self.hits_self(),
    {
        let head = self.points[0].0;
        let n = self.points.len();
        let mut i: usize = 1;
        while i < n
            invariant
                n == self.points@.len(),
                1 <= i <= n,
                head == self.head(),
                forall|j: int| 1 <= j < i ==> (#[trigger] self.points@[j]).0 != head,
            decreases n - i,
        {
            if self.points[i].0 == head {
                return true;
            }
            i += 1;
        }
        false
    }

    /// Remove the first food entry the head sits on, if any; true exactly
    /// when one was removed. All other food entries are left unchanged.
    pub fn detect_food_collision(&self, food: &mut Vec<Point>) -> (r: bool)
        requires
            self.points@.len() >= 1,
        ensures
            r == old(food)@.contains(self.head()),
            !r ==> final(food)@ == old(food)@,
            r ==> (exists|k: int|
                is_first_index_of(old(food)@, self.head(), k) && final(food)@ == old(food)@.remove(k)),
    {
        let head = self.points[0].0;
        let n = food.len();
        let mut i: usize = 0;
        while i < n
            invariant
                n == food@.len(),
                food@ == old(food)@,
                i <= n,
                head == self.head(),
                forall|j: int| 0 <= j < i ==> food@[j] != head,
            decreases n - i,
        {
            if food[i] == head {
                food.remove(i);
                proof {
                    assert(is_first_index_of(old(food)@, self.head(), i as int));
                }
                return true;
            }
            i += 1;
        }
        false
    }

    /// One atomic move on a board of `constraints = (width, height)`: the
    /// head advances one cell in the buffered heading (wrapping at the edges
    /// and recording the wrap in the sticky flag), the old head's texture is
    /// fixed up to reflect the turn, and the tail is removed unless the new
    /// head landed on a food entry, which is then consumed and the snake
    /// grows by one segment.
    pub fn make_move(&mut self, constraints: (u32, u32), food: &mut Vec<Point>)
        requires
            old(self).wf(),
            old(self).head().0 < constraints.0,
            old(self).head().1 < constraints.1,
        ensures
            final(self).wf(),
            final(self).direction == old(self).direction,
            final(self).prev_direction == old(self).direction,
            final(self).wrapped == (old(self).wrapped || step_wraps(
                old(self).head(),
                old(self).direction,
                constraints.0,
                constraints.1,
            )),
            final(self).head() == step_point(
                old(self).head(),
                old(self).direction,
                constraints.0,
                constraints.1,
            ),
            final(self).points@ == moved_body(
                old(self).points@,
                old(self).direction,
                old(self).prev_direction,
                constraints.0,
                constraints.1,
                old(food)@.contains(final(self).head()),
            ),
            old(food)@.contains(final(self).head()) ==> final(self).points@.len() == old(
                self,
            ).points@.len() + 1 && (exists|k: int|
                is_first_index_of(old(food)@, final(self).head(), k) && final(food)@ == old(
                    food,
                )@.remove(k)),
            !old(food)@.contains(final(self).head()) ==> final(self).points@.len() == old(
                self,
            ).points@.len() && final(food)@ == old(food)@,
            old(self).in_bounds(constraints.0, constraints.1) ==> final(self).in_bounds(
                constraints.0,
                constraints.1,
            ),
    {
        let head_seg = self.points[0];
        let mut x = head_seg.0.0;
        let mut y = head_seg.0.1;
        match self.direction {
            SnakeDirection::Down => {
                y = wrap_inc(y, constraints.1, &mut self.wrapped);
            },
            SnakeDirection::Up => {
                y = wrap_dec(y, constraints.1, &mut self.wrapped);
            },
            SnakeDirection::Left => {
                x = wrap_dec(x, constraints.0, &mut self.wrapped);
            },
            SnakeDirection::Right => {
                x = wrap_inc(x, constraints.0, &mut self.wrapped);
            },
        }
        let new_texture = match self.direction {
            SnakeDirection::Down | SnakeDirection::Up => SnakeTexture::Vertical,
            SnakeDirection::Left | SnakeDirection::Right => SnakeTexture::Horizontal,
        };
        let turn_texture = self.prev_direction.get_texture(&self.direction);
        let _ = self.points.pop_front();
        self.points.push_front((head_seg.0, turn_texture));
        self.points.push_front((Point(x, y), new_texture));
        self.prev_direction = self.direction;
        proof {
            let gold = old(self).points@;
            let fixed = (gold[0].0, old(self).prev_direction.texture_spec(old(self).direction));
            assert(gold.update(0, fixed) =~= seq![fixed] + gold.subrange(1, gold.len() as int));
            assert(self.points@ == seq![
                (Point(x, y), axis_texture(old(self).direction)),
            ] + gold.update(0, fixed));
        }
        if !self.detect_food_collision(food) {
            let _ = self.points.pop_back();
        }
        proof {
            if old(self).in_bounds(constraints.0, constraints.1) {
                let gold = old(self).points@;
                assert forall|i: int| 0 <= i < self.points@.len() implies (
                #[trigger] self.points@[i]).0.0 < constraints.0 && self.points@[i].0.1
                    < constraints.1 by {
                    if i >= 1 {
                        assert(self.points@[i].0 == gold[i - 1].0);
                    }
                }
            }
        }
    }
}

} // verus!

