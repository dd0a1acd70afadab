//! The chain: a head cell and the ordered cells that follow it.

use vstd::prelude::*;
use crate::direction::Direction;
use crate::geometry::{Cell, Color, Point, UNIT};

verus! {

/// Base speed of the chain, in arena units per second.
pub const SPEED: u32 = 400;

/// Factor by which a boost multiplies the base speed.
pub const SPEED_FACTOR: u32 = 2;

/// Side of every cell of the chain.
pub const SEG_SIZE: i64 = 40 * UNIT;

/// Distance from the corner of a chain cell to its middle, on each axis.
pub const SEG_ORIGIN: i64 = 20 * UNIT;

/// Where the head starts: the middle of an arena of 1366 by 768 units.
pub const STARTING_POS: (i64, i64) = (683 * UNIT, 384 * UNIT);

/// Colour of the head.
pub const HEAD_COLOR: Color = Color::Blue;

/// Colour of the cells that follow the head.
pub const TAIL_COLOR: Color = Color::Green;

/// Number of cells that one growth step appends.
pub const GROWTH: usize = 8;

/// The cell of the chain that is positioned by its centre at `position`.
pub open spec fn segment_at(position: Point, color: Color) -> Cell {
    Cell { position, origin: Point { x: SEG_ORIGIN, y: SEG_ORIGIN }, side: SEG_SIZE, color }
}

/// The time that a step covers: a negative reading counts as no time at all.
pub open spec fn elapsed(dt: int) -> int {
    if dt < 0 {
        0
    } else {
        dt
    }
}

/// The chain as plain values: where the head is, where the cells behind it
/// are (nearest to the head first), where it is heading and how fast.
pub struct SnakeView {
    pub head: Point,
    pub body: Seq<Point>,
    pub direction: Direction,
    pub speed: int,
}

impl SnakeView {
    /// A chain always has at least one cell behind its head.
    pub open spec fn valid(self) -> bool {
        self.body.len() >= 1
    }

    /// The chain as it is first made.
    pub open spec fn initial() -> SnakeView {
        let start = Point { x: STARTING_POS.0, y: STARTING_POS.1 };
        SnakeView { head: start, body: seq![start], direction: Direction::Left, speed: SPEED as int }
    }

    /// The chain after a request to head towards `requested`: a request to
    /// turn straight back is ignored, any other is followed.
    pub open spec fn turned(self, requested: Direction) -> SnakeView {
        if requested == self.direction.reversed() {
            self
        } else {
            SnakeView { direction: requested, ..self }
        }
    }

    /// The chain with another speed.
    pub open spec fn at_speed(self, speed: int) -> SnakeView {
        SnakeView { speed, ..self }
    }

    /// The distance that the head covers in `dt` microseconds: speed times
    /// time.
    pub open spec fn reach(self, dt: int) -> int {
        self.speed * elapsed(dt)
    }

    /// The x coordinate that the head reaches after `dt` microseconds.
    pub open spec fn next_x(self, dt: int) -> int {
        match self.direction {
            Direction::Left => self.head.x - self.reach(dt),
            Direction::Right => self.head.x + self.reach(dt),
            _ => self.head.x as int,
        }
    }

    /// The y coordinate that the head reaches after `dt` microseconds.
    pub open spec fn next_y(self, dt: int) -> int {
        match self.direction {
            Direction::Up => self.head.y - self.reach(dt),
            Direction::Down => self.head.y + self.reach(dt),
            _ => self.head.y as int,
        }
    }

    /// Whether the place that the head reaches after `dt` microseconds can
    /// be written down as a `Point`.
    pub open spec fn can_move(self, dt: int) -> bool {
        &&& i64::MIN <= self.next_x(dt) <= i64::MAX
        &&& i64::MIN <= self.next_y(dt) <= i64::MAX
    }

    /// The chain after `dt` microseconds: the head has gone on along its
    /// heading, the first cell behind it stands where the head stood and
    /// every other cell where the cell before it stood.
    pub open spec fn moved(self, dt: int) -> SnakeView {
        SnakeView {
            head: Point { x: self.next_x(dt) as i64, y: self.next_y(dt) as i64 },
            body: seq![self.head] + self.body.drop_last(),
            ..self
        }
    }

    /// The chain after one growth step: `GROWTH` more cells, all of them
    /// where the last cell is.
    pub open spec fn grown(self) -> SnakeView {
        SnakeView {
            body: self.body + Seq::new(GROWTH as nat, |i: int| self.body.last()),
            ..self
        }
    }

    /// The chain after one step for each entry of `steps`, taken in order.
    pub open spec fn after_moves(self, steps: Seq<int>) -> SnakeView
        decreases steps.len(),
    {
        if steps.len() == 0 {
            self
        } else {
            self.after_moves(steps.drop_last()).moved(steps.last())
        }
    }

    /// The head as a cell.
    pub open spec fn head_cell(self) -> Cell {
        segment_at(self.head, HEAD_COLOR)
    }

    /// The cells behind the head, nearest to the head first.
    pub open spec fn body_cells(self) -> Seq<Cell> {
        self.body.map_values(|p: Point| segment_at(p, TAIL_COLOR))
    }

    /// Every cell of the chain in the order in which it is painted: the head
    /// first, then the cells behind it.
    pub open spec fn cells(self) -> Seq<Cell> {
        seq![self.head_cell()] + self.body_cells()
    }
}

/// The chain.
pub struct Snake {
    head: Cell,
    tail: Vec<Cell>,
    direction: Direction,
    current_speed: u32,
}

impl View for Snake {
    type V = SnakeView;

    closed spec fn view(&self) -> SnakeView {
        SnakeView {
            head: self.head.position,
            body: self.tail@.map_values(|c: Cell| c.position),
            direction: self.direction,
            speed: self.current_speed as int,
        }
    }
}

impl Snake {
    /// Every cell has the shape and colour of its place in the chain, so the
    /// positions alone say what the chain is.
    pub closed spec fn uniform(&self) -> bool {
        &&& self.head == segment_at(self.head.position, HEAD_COLOR)
        &&& forall|i: int|
            0 <= i < self.tail@.len() ==> #[trigger] self.tail@[i] == segment_at(
                self.tail@[i].position,
                TAIL_COLOR,
            )
    }

    /// What holds of every chain that this module hands out.
    pub open spec fn wf(&self) -> bool {
        &&& self@.valid()
        &&& self.uniform()
        &&& 0 <= self@.speed <= u32::MAX
    }

    /// Makes a cell of the body, centred at `last_tail_pos`.
    pub fn build_seg(last_tail_pos: Point) -> (seg: Cell)
        ensures
            seg == segment_at(last_tail_pos, TAIL_COLOR),
    {
        Cell {
            position: last_tail_pos,
            origin: Point { x: SEG_ORIGIN, y: SEG_ORIGIN },
            side: SEG_SIZE,
            color: TAIL_COLOR,
        }
    }

    /// Makes the chain of a new game: the head at the starting position, one
    /// cell behind it at the same place, heading left at the base speed.
    pub fn new() -> (snake: Snake)
        ensures
            snake.wf(),
            snake@ == SnakeView::initial(),
    {
        let start = Point { x: STARTING_POS.0, y: STARTING_POS.1 };
        let head = Cell {
            position: start,
            origin: Point { x: SEG_ORIGIN, y: SEG_ORIGIN },
            side: SEG_SIZE,
            color: HEAD_COLOR,
        };
        let mut tail: Vec<Cell> = Vec::new();
        tail.push(Self::build_seg(head.position));
        let snake = Snake { head, tail, direction: Direction::Left, current_speed: SPEED };
        assert(snake@.body =~= seq![start]);
        snake
    }

    /// Asks the chain to head towards `requested`. A request to turn straight
    /// back is ignored; any other heading replaces the current one.
    pub fn set_direction(&mut self, requested: Direction)
        requires
            old(self).wf(),
        ensures
            final(self).wf(),
            final(self)@ == old(self)@.turned(requested),
            requested == old(self)@.direction.reversed()
                ==> final(self)@.direction == old(self)@.direction,
            requested != old(self)@.direction.reversed() ==> final(self)@.direction == requested,
    {
        if requested != self.direction.opposite() {
            self.direction = requested;
        }
    }

    /// Tells whether the head can go on for `dt` microseconds without leaving
    /// the range of coordinates.
    pub fn can_move(&self, dt: i64) -> (fits: bool)
        ensures
            fits == self@.can_move(dt as int),
    {
        let (x, y) = self.target(dt);
        i64::MIN as i128 <= x && x <= i64::MAX as i128 && i64::MIN as i128 <= y && y
            <= i64::MAX as i128
    }

    /// Where the head stands after `dt` microseconds, computed wide enough
    /// that nothing is lost.
    fn target(&self, dt: i64) -> (to: (i128, i128))
        ensures
            to.0 == self@.next_x(dt as int),
            to.1 == self@.next_y(dt as int),
    {
        let (vx, vy) = self.direction.velocity(self.current_speed);
        let t: i64 = if dt < 0 {
            0
        } else {
            dt
        };
        proof {
            let speed = self.current_speed as int;
            assert(0 <= speed * t <= 0x1_0000_0000 * 0x8000_0000_0000_0000) by (nonlinear_arith)
                requires
                    0 <= speed <= 0x1_0000_0000,
                    0 <= t <= 0x8000_0000_0000_0000,
            ;
            assert(vx * t == self.direction.dx() * (speed * t)) by (nonlinear_arith)
                requires
                    vx == self.direction.dx() * speed,
            ;
            assert(vy * t == self.direction.dy() * (speed * t)) by (nonlinear_arith)
                requires
                    vy == self.direction.dy() * speed,
            ;
        }
        let x: i128 = self.head.position.x as i128 + (vx as i128) * (t as i128);
        let y: i128 = self.head.position.y as i128 + (vy as i128) * (t as i128);
        (x, y)
    }

    /// Advances the chain by `dt` microseconds. Every cell behind the head
    /// takes the place of the one before it, the first takes the place of
    /// the head, and the head goes on along its heading by speed times
    /// time. A negative `dt` counts as zero.
    ///
    /// The place that the head reaches must be a `Point`; `can_move` tells
    /// whether it is.
    pub fn move_(&mut self, dt: i64)
        requires
            old(self).wf(),
            old(self)@.can_move(dt as int),
        ensures
            final(self).wf(),
            final(self)@ == old(self)@.moved(dt as int),
            final(self)@.body.len() == old(self)@.body.len(),
            final(self)@.body[0] == old(self)@.head,
            forall|i: int|
                1 <= i < final(self)@.body.len() ==> final(self)@.body[i] == old(self)@.body[i - 1],
            final(self)@.head.x == old(self)@.next_x(dt as int),
            final(self)@.head.y == old(self)@.next_y(dt as int),
    {
        let (x, y) = self.target(dt);
        let ghost before = self.tail@;
        let n = self.tail.len();
        let mut i: usize = n - 1;
        while i >= 1
            invariant
                n == before.len(),
                self.tail@.len() == n,
                i < n,
                self.head == old(self).head,
                self.direction == old(self).direction,
                self.current_speed == old(self).current_speed,
                forall|j: int| 0 <= j <= i ==> #[trigger] self.tail@[j] == before[j],
                forall|j: int| i < j < n ==> #[trigger] self.tail@[j] == before[j - 1],
                forall|j: int|
                    0 <= j < n ==> #[trigger] before[j] == segment_at(
                        before[j].position,
                        TAIL_COLOR,
                    ),
            decreases i,
        {
            let next_pos = self.tail[i - 1].position;
            let mut seg = self.tail[i];
            seg.position = next_pos;
            self.tail.set(i, seg);
            i -= 1;
        }
        let mut first = self.tail[0];
        first.position = self.head.position;
        self.tail.set(0, first);
        self.head.position = Point { x: x as i64, y: y as i64 };
        proof {
            assert(self@.body =~= old(self)@.moved(dt as int).body);
        }
    }

    /// Lengthens the chain by `GROWTH` cells, each placed where the last cell
    /// stands.
    pub fn grow(&mut self)
        requires
            old(self).wf(),
        ensures
            final(self).wf(),
            final(self)@ == old(self)@.grown(),
            final(self)@.body.len() == old(self)@.body.len() + GROWTH,
            forall|i: int|
                0 <= i < old(self)@.body.len() ==> final(self)@.body[i] == old(self)@.body[i],
            forall|i: int|
                old(self)@.body.len() <= i < final(self)@.body.len() ==> final(self)@.body[i]
                    == old(self)@.body.last(),
    {
        let ghost before = self.tail@;
        let mut k: usize = 0;
        while k < GROWTH
            invariant
                k <= GROWTH,
                before.len() >= 1,
                self.head == old(self).head,
                self.direction == old(self).direction,
                self.current_speed == old(self).current_speed,
                self.tail@.len() == before.len() + k,
                forall|j: int| 0 <= j < before.len() ==> #[trigger] self.tail@[j] == before[j],
                forall|j: int|
                    before.len() <= j < self.tail@.len() ==> #[trigger] self.tail@[j]
                        == before.last(),
                before.last() == segment_at(before.last().position, TAIL_COLOR),
            decreases GROWTH - k,
        {
            let back_pos = self.tail[self.tail.len() - 1].position;
            self.tail.push(Self::build_seg(back_pos));
            k += 1;
        }
        proof {
            assert(self@.body =~= old(self)@.grown().body);
        }
    }

    /// Tests whether the box of the head overlaps the box of `obj`. Boxes
    /// that only touch do not overlap.
    pub fn intersect(&self, obj: &Cell) -> (hit: bool)
        requires
            self.wf(),
        ensures
            hit == self@.head_cell().overlaps(*obj),
    {
        self.head.intersects(obj)
    }

    /// The centre of the head.
    pub fn position(&self) -> (p: Point)
        ensures
            p == self@.head,
    {
        self.head.position
    }

    /// Lists the cells to paint, in painting order: the head, then the cells
    /// behind it from the nearest to the last.
    pub fn draw(&self) -> (cells: Vec<Cell>)
        requires
            self.wf(),
        ensures
            cells@ == self@.cells(),
    {
        let mut cells: Vec<Cell> = Vec::new();
        cells.push(self.head);
        let mut i: usize = 0;
        while i < self.tail.len()
            invariant
                i <= self.tail@.len(),
                cells@.len() == i + 1,
                cells@[0] == self.head,
                forall|j: int| 1 <= j <= i ==> #[trigger] cells@[j] == self.tail@[j - 1],
            decreases self.tail@.len() - i,
        {
            cells.push(self.tail[i]);
            i += 1;
        }
        proof {
            assert(cells@ =~= self@.cells());
        }
        cells
    }

    /// The head.
    pub fn head(&self) -> (cell: Cell)
        requires
            self.wf(),
        ensures
            cell == self@.head_cell(),
    {
        self.head
    }

    /// The cells behind the head, nearest to the head first.
    pub fn tail(&self) -> (cells: &Vec<Cell>)
        requires
            self.wf(),
        ensures
            cells@ == self@.body_cells(),
    {
        proof {
            assert(self.tail@ =~= self@.body_cells());
        }
        &self.tail
    }

    /// The number of cells behind the head.
    pub fn len(&self) -> (n: usize)
        ensures
            n == self@.body.len(),
    {
        self.tail.len()
    }

    /// The current heading.
    pub fn direction(&self) -> (d: Direction)
        ensures
            d == self@.direction,
    {
        self.direction
    }

    /// The current speed, in arena units per second.
    pub fn current_speed(&self) -> (speed: u32)
        ensures
            speed == self@.speed,
    {
        self.current_speed
    }

    /// Sets the speed, in arena units per second.
    pub fn set_speed(&mut self, speed: u32)
        requires
            old(self).wf(),
        ensures
            final(self).wf(),
            final(self)@ == old(self)@.at_speed(speed as int),
    {
        self.current_speed = speed;
    }
}

/// The head moves by its velocity times the time: along the axis of its
/// heading by speed times time, towards the side that the heading points
/// to, and not at all along the other axis.
pub proof fn head_moves_by_velocity_times_time(snake: SnakeView, dt: int)
    ensures
        snake.next_x(dt) == snake.head.x + snake.direction.dx() * snake.speed * elapsed(dt),
        snake.next_y(dt) == snake.head.y + snake.direction.dy() * snake.speed * elapsed(dt),
        snake.direction.dx() == 0 || snake.direction.dy() == 0,
        dt <= 0 ==> snake.next_x(dt) == snake.head.x && snake.next_y(dt) == snake.head.y,
{
    let reach = snake.speed * elapsed(dt);
    assert(snake.direction.dx() * snake.speed * elapsed(dt) == snake.direction.dx() * reach)
        by (nonlinear_arith)
        requires
            reach == snake.speed * elapsed(dt),
    ;
    assert(snake.direction.dy() * snake.speed * elapsed(dt) == snake.direction.dy() * reach)
        by (nonlinear_arith)
        requires
            reach == snake.speed * elapsed(dt),
    ;
}

/// A step leaves no gap in the chain: afterwards the first cell stands where
/// the head stood before, every other cell stands where the cell before it
/// stood, and the chain is as long as it was. This holds of every chain, for
/// every span of time.
pub proof fn step_leaves_no_gap(snake: SnakeView, dt: int)
    requires
        snake.valid(),
    ensures
        snake.moved(dt).valid(),
        snake.moved(dt).body.len() == snake.body.len(),
        snake.moved(dt).body[0] == snake.head,
        forall|i: int| 1 <= i < snake.body.len() ==> snake.moved(dt).body[i] == snake.body[i - 1],
        snake.moved(dt).direction == snake.direction,
        snake.moved(dt).speed == snake.speed,
{
}

/// Any number of steps keeps the chain valid and as long as it was.
pub proof fn steps_keep_the_length(snake: SnakeView, steps: Seq<int>)
    requires
        snake.valid(),
    ensures
        snake.after_moves(steps).valid(),
        snake.after_moves(steps).body.len() == snake.body.len(),
    decreases steps.len(),
{
    if steps.len() > 0 {
        steps_keep_the_length(snake, steps.drop_last());
        step_leaves_no_gap(snake.after_moves(steps.drop_last()), steps.last());
    }
}

/// The chain follows the path of its head. After a run of steps, the cell at
/// index `i` stands where the head stood `i + 1` steps ago; a cell that the
/// run was too short to bring onto that path stands where the cell
/// `steps.len()` places before it stood at the start.
pub proof fn body_follows_the_head(snake: SnakeView, steps: Seq<int>, i: int)
    requires
        snake.valid(),
        0 <= i < snake.body.len(),
    ensures
        i < steps.len() ==> snake.after_moves(steps).body[i] == snake.after_moves(
            steps.subrange(0, steps.len() - 1 - i),
        ).head,
        i >= steps.len() ==> snake.after_moves(steps).body[i] == snake.body[i - steps.len()],
    decreases steps.len(),
{
    if steps.len() > 0 {
        let earlier = steps.drop_last();
        let prev = snake.after_moves(earlier);
        steps_keep_the_length(snake, earlier);
        step_leaves_no_gap(prev, steps.last());
        if i == 0 {
            assert(steps.subrange(0, steps.len() - 1) =~= earlier);
        } else {
            body_follows_the_head(snake, earlier, i - 1);
            if i < steps.len() {
                assert(earlier.subrange(0, earlier.len() - 1 - (i - 1)) =~= steps.subrange(
                    0,
                    steps.len() - 1 - i,
                ));
            }
        }
    }
}

/// A request to turn straight back never changes the heading; a request for
/// any other heading always makes it the heading. Nothing else changes.
pub proof fn turning_back_is_refused(snake: SnakeView, requested: Direction)
    ensures
        requested == snake.direction.reversed() ==> snake.turned(requested) == snake,
        requested != snake.direction.reversed() ==> snake.turned(requested).direction == requested,
        snake.turned(requested).head == snake.head,
        snake.turned(requested).body == snake.body,
        snake.turned(requested).speed == snake.speed,
{
}

/// Growing lengthens the chain by exactly `GROWTH` cells. The cells that
/// were there stay as they are, and every new cell stands where the last
/// cell stood.
pub proof fn growth_appends_at_the_end(snake: SnakeView)
    requires
        snake.valid(),
    ensures
        snake.grown().valid(),
        snake.grown().body.len() == snake.body.len() + GROWTH,
        forall|i: int| 0 <= i < snake.body.len() ==> snake.grown().body[i] == snake.body[i],
        forall|i: int|
            snake.body.len() <= i < snake.grown().body.len() ==> snake.grown().body[i]
                == snake.body.last(),
        snake.grown().head == snake.head,
        snake.grown().direction == snake.direction,
        snake.grown().speed == snake.speed,
{
}

} // verus!
