//! One frame of the game: input, movement, collisions and food.

use vstd::prelude::*;
use crate::direction::Direction;
use crate::food::{food, food_at, get_food_pos, in_food_zone};
use crate::geometry::{Cell, Point, UNIT};
use crate::snake::{Snake, SnakeView, GROWTH, SPEED, SPEED_FACTOR};

verus! {

/// Number of cells next to the head that are never tested against it: they
/// lie so close behind the head that their boxes always overlap its box.
pub const SKIPPED_SEGMENTS: usize = 16;

/// The keys that the game tells apart.
#[derive(Clone, Copy, Debug, PartialEq, Eq, Structural)]
pub enum Key {
    Escape,
    J,
    L,
    H,
    K,
    Other,
}

/// A key that went down, and whether shift was held with it.
#[derive(Clone, Copy, Debug, PartialEq, Eq, Structural)]
pub struct KeyPress {
    pub code: Key,
    pub shift: bool,
}

/// How a frame ended.
#[derive(Clone, Copy, Debug, PartialEq, Eq, Structural)]
pub enum Outcome {
    /// The game goes on.
    Continue,
    /// The player asked to close the game and nothing was hit.
    Closed,
    /// The head left the arena.
    Boundary,
    /// The head ran into the chain.
    Itself,
}

impl Outcome {
    /// Whether the game is over for good: the head left the arena or ran
    /// into the chain, or the player asked to close.
    pub open spec fn is_final(self) -> bool {
        self != Outcome::Continue
    }

    /// What is reported of a frame that ended in a crash.
    pub open spec fn cause(self) -> Option<Seq<char>> {
        match self {
            Outcome::Boundary => Some("You crashed with the boundaries"@),
            Outcome::Itself => Some("You crashed with yourself"@),
            _ => None,
        }
    }

    /// Tells whether the loop of frames ends here.
    pub fn ends_game(self) -> (over: bool)
        ensures
            over == self.is_final(),
    {
        match self {
            Outcome::Continue => false,
            _ => true,
        }
    }

    /// The line to report when the frame ended in a crash.
    pub fn report(self) -> (line: Option<&'static str>)
        ensures
            line is Some == self.cause() is Some,
            line matches Some(text) ==> Some(text@) == self.cause(),
    {
        match self {
            Outcome::Boundary => Some("You crashed with the boundaries"),
            Outcome::Itself => Some("You crashed with yourself"),
            _ => None,
        }
    }
}

/// The heading that a key asks for, if it asks for one.
pub open spec fn requested_direction(code: Key) -> Option<Direction> {
    match code {
        Key::J => Some(Direction::Down),
        Key::L => Some(Direction::Right),
        Key::H => Some(Direction::Left),
        Key::K => Some(Direction::Up),
        _ => None,
    }
}

/// Whether the event asks to close the game.
pub open spec fn wants_close(event: Option<KeyPress>) -> bool {
    event matches Some(press) && press.code == Key::Escape
}

/// Whether `(x, y)` lies outside an arena of `width` by `height` units. The
/// arena reaches from zero to its width and height, both ends included.
pub open spec fn outside_arena(x: int, y: int, width: int, height: int) -> bool {
    x < 0 || x > width * UNIT || y < 0 || y > height * UNIT
}

/// Whether the head overlaps a cell of the chain beyond the first
/// `SKIPPED_SEGMENTS`.
pub open spec fn hits_itself(snake: SnakeView) -> bool {
    exists|i: int|
        SKIPPED_SEGMENTS <= i < snake.body.len() && snake.head_cell().overlaps(
            #[trigger] snake.body_cells()[i],
        )
}

/// Tests whether `position` lies outside an arena of `width` by `height`
/// units. A position on the edge is inside.
pub fn out_of_bounds(position: Point, width: u32, height: u32) -> (out: bool)
    ensures
        out == outside_arena(position.x as int, position.y as int, width as int, height as int),
        out == (position.x < 0 || position.x > width * UNIT || position.y < 0 || position.y
            > height * UNIT),
{
    position.x < 0 || position.x > (width as i64) * UNIT || position.y < 0 || position.y > (
    height as i64) * UNIT
}

/// Tests whether the head overlaps any cell of the chain beyond the first
/// `SKIPPED_SEGMENTS`. A chain that has no cell beyond them never does.
pub fn crashed_into_itself(snake: &Snake) -> (hit: bool)
    requires
        snake.wf(),
    ensures
        hit == hits_itself(snake@),
        snake@.body.len() <= SKIPPED_SEGMENTS ==> !hit,
{
    let tail = snake.tail();
    let mut i: usize = tail.len();
    while i > SKIPPED_SEGMENTS
        invariant
            i <= tail@.len(),
            snake.wf(),
            tail@ == snake@.body_cells(),
            forall|j: int| i <= j < tail@.len() ==> !snake@.head_cell().overlaps(#[trigger] tail@[j]),
        decreases i,
    {
        i -= 1;
        if snake.intersect(&tail[i]) {
            return true;
        }
    }
    false
}

/// The game as plain values: the chain, the corner of the food, and whether
/// the last key press came with shift.
pub struct GameView {
    pub snake: SnakeView,
    pub food: Point,
    pub shift: bool,
}

impl GameView {
    /// The game after an input event. A key press sets the shift flag and, if
    /// the key asks for a heading, asks the chain to turn. No event changes
    /// nothing.
    pub open spec fn after_key(self, event: Option<KeyPress>) -> GameView {
        match event {
            Some(press) => GameView {
                snake: match requested_direction(press.code) {
                    Some(d) => self.snake.turned(d),
                    None => self.snake,
                },
                shift: press.shift,
                ..self
            },
            None => self,
        }
    }

    /// The speed of a frame: the base speed, times the boost factor while
    /// the shift flag is set. The flag is that of the last key press, so a
    /// boost lasts through frames without input until a key goes down
    /// without shift.
    pub open spec fn frame_speed(self) -> int {
        if self.shift {
            SPEED * SPEED_FACTOR
        } else {
            SPEED as int
        }
    }

    /// The chain as it sets out in a frame: turned as the event asks, at the
    /// speed of the frame.
    pub open spec fn setting_out(self, event: Option<KeyPress>) -> SnakeView {
        self.after_key(event).snake.at_speed(self.after_key(event).frame_speed())
    }

    /// Whether the head overlaps the food.
    pub open spec fn eats(self) -> bool {
        self.snake.head_cell().overlaps(food_at(self.food))
    }

    /// The game after the food check: if the head overlaps the food, the food
    /// goes to `spot` and the chain grows; otherwise nothing changes.
    pub open spec fn fed(self, spot: Point) -> GameView {
        if self.eats() {
            GameView { snake: self.snake.grown(), food: spot, ..self }
        } else {
            self
        }
    }

    /// How a frame ends. Leaving the arena comes first, then running into the
    /// chain, then a request to close.
    pub open spec fn frame_outcome(
        self,
        event: Option<KeyPress>,
        dt: int,
        width: int,
        height: int,
    ) -> Outcome {
        let snake = self.setting_out(event);
        if outside_arena(snake.next_x(dt), snake.next_y(dt), width, height) {
            Outcome::Boundary
        } else if hits_itself(snake.moved(dt)) {
            Outcome::Itself
        } else if wants_close(event) {
            Outcome::Closed
        } else {
            Outcome::Continue
        }
    }

    /// The game after input, movement and the two collision tests of a
    /// frame. The chain moves at the speed of the frame; unless the head
    /// left the arena, the speed then falls back to the base speed. A step
    /// that would take the head out of the range of coordinates is not
    /// taken: the chain stays where it is.
    pub open spec fn after_step(
        self,
        event: Option<KeyPress>,
        dt: int,
        width: int,
        height: int,
    ) -> GameView {
        let keyed = self.after_key(event);
        let snake = self.setting_out(event);
        if !snake.can_move(dt) {
            GameView { snake, ..keyed }
        } else if outside_arena(snake.next_x(dt), snake.next_y(dt), width, height) {
            GameView { snake: snake.moved(dt), ..keyed }
        } else {
            GameView { snake: snake.moved(dt).at_speed(SPEED as int), ..keyed }
        }
    }

    /// Whether the frame comes to its food check with the head over the
    /// food.
    pub open spec fn bites(self, event: Option<KeyPress>, dt: int, width: int, height: int) -> bool {
        &&& self.frame_outcome(event, dt, width, height) != Outcome::Boundary
        &&& self.after_step(event, dt, width, height).eats()
    }

    /// The game after a whole frame in which new food would appear at
    /// `spot`. A frame in which the head left the arena ends before the food
    /// check.
    pub open spec fn after_frame(
        self,
        event: Option<KeyPress>,
        dt: int,
        width: int,
        height: int,
        spot: Point,
    ) -> GameView {
        if self.frame_outcome(event, dt, width, height) == Outcome::Boundary {
            self.after_step(event, dt, width, height)
        } else {
            self.after_step(event, dt, width, height).fed(spot)
        }
    }
}

/// The state of a game between two frames.
pub struct Game {
    snake: Snake,
    food: Cell,
    shift_pressed: bool,
}

impl View for Game {
    type V = GameView;

    closed spec fn view(&self) -> GameView {
        GameView { snake: self.snake@, food: self.food.position, shift: self.shift_pressed }
    }
}

impl Game {
    /// What holds of every game that this module hands out.
    pub closed spec fn wf(&self) -> bool {
        &&& self.snake.wf()
        &&& self.food == food_at(self.food.position)
    }

    /// Starts a game with the food at `spot`.
    pub fn with_food(spot: Point) -> (game: Game)
        ensures
            game.wf(),
            game@ == (GameView { snake: SnakeView::initial(), food: spot, shift: false }),
    {
        Game { snake: Snake::new(), food: food(spot), shift_pressed: false }
    }

    /// Starts a game with the food at a random place of the food zone.
    pub fn new() -> (game: Game)
        ensures
            game.wf(),
            game@ == (GameView { snake: SnakeView::initial(), food: game@.food, shift: false }),
            in_food_zone(game@.food),
    {
        Game::with_food(get_food_pos())
    }

    /// The chain.
    pub fn snake(&self) -> (snake: &Snake)
        requires
            self.wf(),
        ensures
            snake.wf(),
            snake@ == self@.snake,
    {
        &self.snake
    }

    /// The food.
    pub fn food(&self) -> (cell: Cell)
        requires
            self.wf(),
        ensures
            cell == food_at(self@.food),
    {
        self.food
    }

    /// Whether the last key press came with shift.
    pub fn shift_pressed(&self) -> (shift: bool)
        ensures
            shift == self@.shift,
    {
        self.shift_pressed
    }

    /// Lists the cells to paint, in painting order: the chain from the head
    /// on, then the food.
    pub fn scene(&self) -> (cells: Vec<Cell>)
        requires
            self.wf(),
        ensures
            cells@ == self@.snake.cells().push(food_at(self@.food)),
    {
        let mut cells = self.snake.draw();
        cells.push(self.food);
        cells
    }

    /// Takes in the input of a frame and tells whether it asks to close the
    /// game.
    pub fn handle_key(&mut self, event: Option<KeyPress>) -> (close: bool)
        requires
            old(self).wf(),
        ensures
            final(self).wf(),
            final(self)@ == old(self)@.after_key(event),
            close == wants_close(event),
    {
        match event {
            Some(press) => {
                self.shift_pressed = press.shift;
                match press.code {
                    Key::Escape => true,
                    Key::J => {
                        self.snake.set_direction(Direction::Down);
                        false
                    },
                    Key::L => {
                        self.snake.set_direction(Direction::Right);
                        false
                    },
                    Key::H => {
                        self.snake.set_direction(Direction::Left);
                        false
                    },
                    Key::K => {
                        self.snake.set_direction(Direction::Up);
                        false
                    },
                    Key::Other => false,
                }
            },
            None => false,
        }
    }

    /// Runs a frame up to the food check: input, speed, movement, the test
    /// against the arena and the test against the chain itself.
    pub fn step(&mut self, event: Option<KeyPress>, dt: i64, width: u32, height: u32) -> (outcome:
        Outcome)
        requires
            old(self).wf(),
        ensures
            final(self).wf(),
            outcome == old(self)@.frame_outcome(event, dt as int, width as int, height as int),
            final(self)@ == old(self)@.after_step(event, dt as int, width as int, height as int),
    {
        let close = self.handle_key(event);
        if self.shift_pressed {
            self.snake.set_speed(SPEED * SPEED_FACTOR);
        } else {
            self.snake.set_speed(SPEED);
        }
        if !self.snake.can_move(dt) {
            return Outcome::Boundary;
        }
        self.snake.move_(dt);
        if out_of_bounds(self.snake.position(), width, height) {
            return Outcome::Boundary;
        }
        let crashed = crashed_into_itself(&self.snake);
        self.snake.set_speed(SPEED);
        if crashed {
            Outcome::Itself
        } else if close {
            Outcome::Closed
        } else {
            Outcome::Continue
        }
    }

    /// The food check with the place of the next food given: if the head
    /// overlaps the food, the food goes to `spot` and the chain grows.
    pub fn food_check_with(&mut self, spot: Point) -> (eaten: bool)
        requires
            old(self).wf(),
        ensures
            final(self).wf(),
            eaten == old(self)@.eats(),
            final(self)@ == old(self)@.fed(spot),
    {
        if self.snake.intersect(&self.food) {
            self.food.position = spot;
            self.snake.grow();
            true
        } else {
            false
        }
    }

    /// The food check: if the head overlaps the food, the food goes to a
    /// random place of the food zone and the chain grows by `GROWTH` cells;
    /// otherwise nothing changes.
    pub fn food_check(&mut self) -> (eaten: bool)
        requires
            old(self).wf(),
        ensures
            final(self).wf(),
            eaten == old(self)@.eats(),
            final(self)@ == old(self)@.fed(final(self)@.food),
            eaten ==> in_food_zone(final(self)@.food),
            eaten ==> final(self)@.snake.body.len() == old(self)@.snake.body.len() + GROWTH,
            !eaten ==> final(self)@ == old(self)@,
    {
        if self.snake.intersect(&self.food) {
            self.food_check_with(get_food_pos())
        } else {
            false
        }
    }

    /// Runs a whole frame in which new food would appear at `spot`.
    pub fn frame_with(
        &mut self,
        event: Option<KeyPress>,
        dt: i64,
        width: u32,
        height: u32,
        spot: Point,
    ) -> (outcome: Outcome)
        requires
            old(self).wf(),
        ensures
            final(self).wf(),
            outcome == old(self)@.frame_outcome(event, dt as int, width as int, height as int),
            final(self)@ == old(self)@.after_frame(
                event,
                dt as int,
                width as int,
                height as int,
                spot,
            ),
    {
        let outcome = self.step(event, dt, width, height);
        if outcome != Outcome::Boundary {
            self.food_check_with(spot);
        }
        outcome
    }

    /// Runs a whole frame. New food appears at a random place of the food
    /// zone.
    pub fn frame(&mut self, event: Option<KeyPress>, dt: i64, width: u32, height: u32) -> (outcome:
        Outcome)
        requires
            old(self).wf(),
        ensures
            final(self).wf(),
            outcome == old(self)@.frame_outcome(event, dt as int, width as int, height as int),
            final(self)@ == old(self)@.after_frame(
                event,
                dt as int,
                width as int,
                height as int,
                final(self)@.food,
            ),
            old(self)@.bites(event, dt as int, width as int, height as int) ==> in_food_zone(
                final(self)@.food,
            ),
            old(self)@.bites(event, dt as int, width as int, height as int)
                ==> final(self)@.snake.body.len() == old(self)@.snake.body.len() + GROWTH,
    {
        let outcome = self.step(event, dt, width, height);
        if outcome != Outcome::Boundary {
            self.food_check();
        }
        outcome
    }
}

/// The arena includes its edges: a head exactly at zero or exactly at the
/// width or height is inside, one step beyond either is outside.
pub proof fn arena_includes_its_edges(width: int, height: int)
    requires
        0 <= width,
        0 <= height,
    ensures
        !outside_arena(0, 0, width, height),
        !outside_arena(width * UNIT, height * UNIT, width, height),
        outside_arena(-1, 0, width, height),
        outside_arena(0, -1, width, height),
        outside_arena(width * UNIT + 1, 0, width, height),
        outside_arena(0, height * UNIT + 1, width, height),
{
}

/// A frame ends with the head outside the arena exactly when the place that
/// the head moves to has a coordinate below zero or beyond the width or
/// height of the arena.
pub proof fn leaving_the_arena_ends_the_frame(
    game: GameView,
    event: Option<KeyPress>,
    dt: int,
    width: int,
    height: int,
)
    ensures
        game.frame_outcome(event, dt, width, height) == Outcome::Boundary <==> {
            let snake = game.setting_out(event);
            ||| snake.next_x(dt) < 0
            ||| snake.next_x(dt) > width * UNIT
            ||| snake.next_y(dt) < 0
            ||| snake.next_y(dt) > height * UNIT
        },
{
}

/// A chain of at most `SKIPPED_SEGMENTS` cells never runs into itself,
/// wherever its head and its cells are.
pub proof fn short_chain_never_hits_itself(snake: SnakeView)
    requires
        snake.body.len() <= SKIPPED_SEGMENTS,
    ensures
        !hits_itself(snake),
{
}

/// A frame that starts with at most `SKIPPED_SEGMENTS` cells behind the head
/// never ends with the head in the chain.
pub proof fn short_chain_survives_the_frame(
    game: GameView,
    event: Option<KeyPress>,
    dt: int,
    width: int,
    height: int,
)
    requires
        game.snake.valid(),
        game.snake.body.len() <= SKIPPED_SEGMENTS,
    ensures
        game.frame_outcome(event, dt, width, height) != Outcome::Itself,
{
    let snake = game.setting_out(event);
    assert(snake.body == game.snake.body);
    assert(snake.moved(dt).body.len() == snake.body.len());
}

/// When the head is over the food at the food check of a frame, the frame
/// ends with the food at the new place and with `GROWTH` more cells in the
/// chain. Otherwise the frame leaves the food and the length as they were.
pub proof fn eating_moves_the_food_and_grows_the_chain(
    game: GameView,
    event: Option<KeyPress>,
    dt: int,
    width: int,
    height: int,
    spot: Point,
)
    requires
        game.snake.valid(),
    ensures
        game.bites(event, dt, width, height) ==> {
            &&& game.after_frame(event, dt, width, height, spot).food == spot
            &&& game.after_frame(event, dt, width, height, spot).snake.body.len()
                == game.snake.body.len() + GROWTH
        },
        !game.bites(event, dt, width, height) ==> {
            &&& game.after_frame(event, dt, width, height, spot).food == game.food
            &&& game.after_frame(event, dt, width, height, spot).snake.body.len()
                == game.snake.body.len()
        },
{
    let snake = game.setting_out(event);
    assert(snake.body == game.snake.body);
    assert(snake.moved(dt).body.len() == snake.body.len());
}

} // verus!
