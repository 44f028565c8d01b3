//! The board: dimensions, the wrap-allowed flag, the snake and the food list,
//! the food placement policy, and the per-tick update that drives the game.

use rand::Rng;
use vstd::prelude::*;

use crate::buffer::{blank_cells, drawn_food, drawn_segments, frame_lines, join_lines, Buffer};
use crate::geometry::{Point, SnakeDirection};
use crate::snake::{
    is_first_index_of, moved_body, step_point, step_wraps, Snake, initial_body,
};

verus! {

/// How one tick ended: the game goes on, the player lost (self-collision or a
/// forbidden wrap), or the player won (the snake fills the board).
#[derive(Clone, Copy, PartialEq, Eq, Structural, Debug)]
pub enum TickOutcome {
    Continue,
    Loss,
    Win,
}

/// The cell with row-major index `j` on a board `w` cells wide.
pub open spec fn cell_point(j: int, w: int) -> Point {
    Point((j % w) as u32, (j / w) as u32)
}

/// The heading a tick moves in: a requested direction is taken unless it is
/// the exact reverse of the heading last moved in, in which case the
/// previously buffered heading stands.
pub open spec fn effective_heading(s: Snake, input: Option<SnakeDirection>) -> SnakeDirection {
    match input {
        Some(d) => if d != s.prev_direction.opposite_spec() {
            d
        } else {
            s.direction
        },
        None => s.direction,
    }
}

/// Relies on rand's `Rng::gen_range` over the range `0..n`, driven by the
/// thread-local generator: it panics only on an empty range and returns a
/// value of the range. Nothing more is assumed of the sample.
#[verifier::external_body]
fn random_below(n: u32) -> (r: u32)
    requires
        n >= 1,
    ensures
        r < n,
{
    rand::thread_rng().gen_range(0..n)
}

/// The board: its dimensions and wrap flag, the snake, the active food
/// cells, and the counter that paces the extra-food policy.
pub struct Field {
    pub size_x: u32,
    pub size_y: u32,
    pub snake: Snake,
    pub food: Vec<Point>,
    pub wraps: bool,
    pub ticks_since_extra_food: u64,
    pub food_interval: u64,
}

impl Field {
    /// Every food entry lies on the board.
    pub open spec fn food_in_bounds(self) -> bool {
        forall|i: int|
            0 <= i < self.food@.len() ==> (#[trigger] self.food@[i]).0 < self.size_x
                && self.food@[i].1 < self.size_y
    }

    /// The snake occupies every cell of the board.
    pub open spec fn board_full(self) -> bool {
        forall|p: Point|
            p.0 < self.size_x && p.1 < self.size_y ==> self.snake.coords().contains(p)
    }

    /// Well-formedness: positive dimensions whose product fits a `u32`, a
    /// well-formed snake on the board, food on the board, and a paced
    /// extra-food counter.
    pub open spec fn wf(self) -> bool {
        &&& self.size_x >= 1
        &&& self.size_y >= 1
        &&& self.size_x * self.size_y <= u32::MAX
        &&& self.snake.wf()
        &&& self.snake.in_bounds(self.size_x, self.size_y)
        &&& self.food_in_bounds()
        &&& self.food_interval >= 1
        &&& self.ticks_since_extra_food < self.food_interval
    }

    /// A fresh board with a fresh snake, no food yet, and the extra-food
    /// pacing counter at zero. The board must be tall enough for the fixed
    /// starting body.
    pub fn new(size_x: u32, size_y: u32, wraps: bool, food_interval: u64) -> (f: Field)
        requires
            size_x >= 1,
            size_y >= 4,
            size_x * size_y <= u32::MAX,
            food_interval >= 1,
        ensures
            f.wf(),
            f.size_x == size_x,
            f.size_y == size_y,
            f.wraps == wraps,
            f.food_interval == food_interval,
            f.ticks_since_extra_food == 0,
            f.snake.points@ == initial_body(),
            f.snake.direction == SnakeDirection::Down,
            f.snake.prev_direction == SnakeDirection::Down,
            !f.snake.wrapped,
            f.food@ == Seq::<Point>::empty(),
    {
        let f = Field {
            size_x,
            size_y,
            snake: Snake::new(),
            food: Vec::new(),
            wraps,
            ticks_since_extra_food: 0,
            food_interval,
        };
        proof {
            assert forall|i: int|
                0 <= i < f.snake.points@.len() implies (#[trigger] f.snake.points@[i]).0.0 < size_x
                && f.snake.points@[i].0.1 < size_y by {
                assert(f.snake.points@ == initial_body());
            }
        }
        f
    }

    /// Add a food entry by hand; rejected (and the board unchanged) when the
    /// coordinate is off the board.
    pub fn add_food(&mut self, p: Point) -> (added: bool)
        requires
            old(self).wf(),
        ensures
            final(self).wf(),
            added == (p.0 < old(self).size_x && p.1 < old(self).size_y),
            added ==> final(self).food@ == old(self).food@.push(p),
            !added ==> final(self).food@ == old(self).food@,
            final(self).snake == old(self).snake,
            final(self).size_x == old(self).size_x,
            final(self).size_y == old(self).size_y,
            final(self).wraps == old(self).wraps,
            final(self).food_interval == old(self).food_interval,
            final(self).ticks_since_extra_food == old(self).ticks_since_extra_food,
    {
        if p.0 < self.size_x && p.1 < self.size_y {
            self.food.push(p);
            true
        } else {
            false
        }
    }

    /// Pick a board cell for new food, never one the snake occupies: a
    /// uniformly sampled cell when it is free, otherwise the first free cell
    /// in row-major order. `None` exactly when the snake covers the whole
    /// board.
    pub fn find_place_for_food(&self) -> (r: Option<Point>)
        requires
            self.size_x >= 1,
            self.size_y >= 1,
            self.size_x * self.size_y <= u32::MAX,
        ensures
            match r {
                Some(p) => p.0 < self.size_x && p.1 < self.size_y
                    && !self.snake.coords().contains(p),
                None => self.board_full(),
            },
    {
        let rx = random_below(self.size_x);
        let ry = random_below(self.size_y);
        let p = Point(rx, ry);
        if !self.snake.occupies(p) {
            return Some(p);
        }
        let total = self.size_x * self.size_y;
        let mut j: u32 = 0;
        while j < total
            invariant
                total == self.size_x * self.size_y,
                self.size_x >= 1,
                j <= total,
                forall|j2: int|
                    0 <= j2 < j ==> self.snake.coords().contains(
                        #[trigger] cell_point(j2, self.size_x as int),
                    ),
            decreases total - j,
        {
            let qx = j % self.size_x;
            let qy = j / self.size_x;
            let q = Point(qx, qy);
            proof {
                assert(q == cell_point(j as int, self.size_x as int));
            }
            if !self.snake.occupies(q) {
                proof {
                    assert(qy < self.size_y) by {
                        vstd::arithmetic::div_mod::lemma_multiply_divide_lt(
                            j as int,
                            self.size_x as int,
                            self.size_y as int,
                        );
                    }
                }
                return Some(q);
            }
            j += 1;
        }
        proof {
            assert forall|pt: Point|
                pt.0 < self.size_x && pt.1 < self.size_y implies self.snake.coords().contains(
                pt,
            ) by {
                let w = self.size_x as int;
                let idx = pt.1 as int * w + pt.0 as int;
                assert(0 <= idx < total as int) by {
                    vstd::arithmetic::mul::lemma_mul_inequality(
                        pt.1 as int,
                        self.size_y as int - 1,
                        w,
                    );
                    assert((self.size_y as int - 1) * w == self.size_y as int * w - w) by (
                    nonlinear_arith);
                    assert(self.size_y as int * w == total as int) by (nonlinear_arith)
                        requires total == self.size_x * self.size_y, w == self.size_x as int;
                }
                vstd::arithmetic::div_mod::lemma_fundamental_div_mod_converse(
                    idx,
                    w,
                    pt.1 as int,
                    pt.0 as int,
                );
                assert(cell_point(idx, w) == pt);
                assert(self.snake.coords().contains(cell_point(idx, w)));
            }
        }
        None
    }

    /// One simulation step. The requested direction (if any) is buffered,
    /// validated against the heading last moved in; the snake advances one
    /// cell, consuming food it lands on; the food policy refills an empty
    /// food list and adds one extra entry every `food_interval` ticks, never
    /// on a snake cell; then the terminal conditions are evaluated in order:
    /// self-collision loses, a wrap with wrap-around disabled loses, and a
    /// snake that fills the board wins.
    pub fn tick(&mut self, input: Option<SnakeDirection>) -> (outcome: TickOutcome)
        requires
            old(self).wf(),
        ensures
            final(self).wf(),
            final(self).size_x == old(self).size_x,
            final(self).size_y == old(self).size_y,
            final(self).wraps == old(self).wraps,
            final(self).food_interval == old(self).food_interval,
            final(self).ticks_since_extra_food == (if old(self).ticks_since_extra_food + 1 == old(
                self,
            ).food_interval {
                0int
            } else {
                old(self).ticks_since_extra_food + 1
            }),
            ({
                let d = effective_heading(old(self).snake, input);
                let nh = step_point(
                    old(self).snake.head(),
                    d,
                    old(self).size_x,
                    old(self).size_y,
                );
                let grew = old(self).food@.contains(nh);
                &&& final(self).snake.direction == d
                &&& final(self).snake.prev_direction == d
                &&& final(self).snake.points@ == moved_body(
                    old(self).snake.points@,
                    d,
                    old(self).snake.prev_direction,
                    old(self).size_x,
                    old(self).size_y,
                    grew,
                )
                &&& final(self).snake.wrapped == (old(self).snake.wrapped || step_wraps(
                    old(self).snake.head(),
                    d,
                    old(self).size_x,
                    old(self).size_y,
                ))
            }),
            ({
                let d = effective_heading(old(self).snake, input);
                let nh = step_point(
                    old(self).snake.head(),
                    d,
                    old(self).size_x,
                    old(self).size_y,
                );
                let base_len = if old(self).food@.contains(nh) {
                    old(self).food@.len() - 1
                } else {
                    old(self).food@.len() as int
                };
                let interval_hit = old(self).ticks_since_extra_food + 1 == old(
                    self,
                ).food_interval;
                let placed = (if base_len == 0 && !final(self).board_full() {
                    1int
                } else {
                    0int
                }) + (if interval_hit && !final(self).board_full() {
                    1int
                } else {
                    0int
                });
                &&& final(self).food@.len() == base_len + placed
                &&& (old(self).food@.contains(nh) ==> exists|k: int|
                    is_first_index_of(old(self).food@, nh, k) && old(self).food@.remove(k)
                        == final(self).food@.take(base_len))
                &&& (!old(self).food@.contains(nh) ==> old(self).food@
                    == final(self).food@.take(base_len))
                &&& forall|i: int|
                    base_len <= i < final(self).food@.len()
                        ==> ((#[trigger] final(self).food@[i]).0 < old(self).size_x
                        && final(self).food@[i].1 < old(self).size_y
                        && !final(self).snake.coords().contains(final(self).food@[i]))
            }),
            ({
                let lost = final(self).snake.hits_self() || (final(self).snake.wrapped
                    && !old(self).wraps);
                let won = !lost && final(self).snake.points@.len() == old(self).size_x * old(
                    self,
                ).size_y;
                &&& (outcome == TickOutcome::Loss) == lost
                &&& (outcome == TickOutcome::Win) == won
                &&& (outcome == TickOutcome::Continue) == (!lost && !won)
            }),
    {
        if let Some(d) = input {
            self.snake.change_direction(d);
        }
        proof {
            assert(old(self).snake.in_bounds(old(self).size_x, old(self).size_y));
            assert(old(self).snake.points@[0] == self.snake.points@[0]);
        }
        self.snake.make_move((self.size_x, self.size_y), &mut self.food);
        proof {
            let basef = self.food@;
            assert forall|i: int|
                0 <= i < basef.len() implies (#[trigger] basef[i]).0 < self.size_x && basef[i].1
                < self.size_y by {
                if old(self).food@.contains(self.snake.head()) {
                    let k = choose|k: int|
                        is_first_index_of(old(self).food@, self.snake.head(), k) && basef == old(
                            self,
                        ).food@.remove(k);
                    assert(basef == old(self).food@.remove(k));
                    if i < k {
                        assert(basef[i] == old(self).food@[i]);
                    } else {
                        assert(basef[i] == old(self).food@[i + 1]);
                    }
                }
            }
        }
        let ghost food_base = self.food@;
        if self.food.len() == 0 {
            match self.find_place_for_food() {
                Some(p) => { self.food.push(p) },
                None => {},
            }
        }
        let interval_hit = self.ticks_since_extra_food + 1 == self.food_interval;
        if interval_hit {
            self.ticks_since_extra_food = 0;
            match self.find_place_for_food() {
                Some(p) => { self.food.push(p) },
                None => {},
            }
        } else {
            self.ticks_since_extra_food = self.ticks_since_extra_food + 1;
        }
        proof {
            assert(self.food@.take(food_base.len() as int) =~= food_base);
        }
        let lost = self.snake.detect_self_collision() || (!self.wraps
            && self.snake.detect_wrapping());
        if lost {
            TickOutcome::Loss
        } else if self.snake.length() == (self.size_x as usize) * (self.size_y as usize) {
            TickOutcome::Win
        } else {
            TickOutcome::Continue
        }
    }

    /// The display cells of the board: a blank grid with the food drawn
    /// first and the snake drawn over it, so the snake glyph wins on any
    /// overlap.
    pub open spec fn rendered_cells(self) -> Seq<char> {
        drawn_segments(
            drawn_food(
                blank_cells((self.size_x * self.size_y) as nat),
                self.size_x as int,
                self.food@,
            ),
            self.size_x as int,
            self.snake.points@,
        )
    }

    /// Rasterize the board into a boxed text frame: food first, then the
    /// snake, then the grid serialized with a rectangular border.
    pub fn render(&self) -> (r: String)
        requires
            self.wf(),
        ensures
            r@ == join_lines(
                frame_lines(
                    self.rendered_cells(),
                    self.size_x as int,
                    self.size_y as int,
                    true,
                ),
            ),
    {
        let b = Buffer::new(self.size_x, self.size_y);
        let b = b.draw_food(&self.food);
        let b = b.draw_snake(&self.snake.points);
        b.render(true)
    }
}

} // verus!
