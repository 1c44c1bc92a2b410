//! One session of the game: the board, the snake, the food, score and speed.

use vstd::prelude::*;
use crate::command::{Action, Command, Event, Key, KeyPress};
use crate::direction::Direction;
use crate::point::Point;
use crate::random::draw_between;
use crate::rules::{
    advanced_is_wf, initial_is_wf, interval_at, level_follows_score, points_per_level,
    points_per_level_is_positive, GameState, INITIAL_LENGTH, MAX_INTERVAL, MAX_SPEED,
    MIN_INTERVAL, MIN_SIDE,
};
use crate::snake::Snake;

verus! {

/// How many cells are drawn at random for new food before the board is
/// searched cell by cell.
pub const FOOD_DRAWS: u32 = 1000;

/// A session. Its view is the state that the rules speak of.
#[derive(Debug)]
pub struct Game {
    width: u16,
    height: u16,
    food: Option<Point>,
    snake: Snake,
    speed: u16,
    score: u64,
    course: Direction,
    over: bool,
}

impl View for Game {
    type V = GameState;

    closed spec fn view(&self) -> GameState {
        GameState {
            width: self.width as int,
            height: self.height as int,
            body: self.snake@,
            heading: self.snake.heading(),
            course: self.course,
            food: self.food,
            score: self.score as int,
            speed: self.speed as int,
            over: self.over,
        }
    }
}

impl Game {
    /// The session is in a state that the rules allow.
    pub open spec fn wf(&self) -> bool {
        self@.wf()
    }

    /// Begins a session on a board of `width` columns and `height` rows:
    /// the snake lies in the middle with a heading drawn at random, and food
    /// lies on a cell drawn at random among those that the snake leaves
    /// free. Each side of the board has to be at least `MIN_SIDE` long, so
    /// that the snake fits whichever heading is drawn.
    pub fn new(width: u16, height: u16) -> (game: Game)
        requires
            width >= MIN_SIDE,
            height >= MIN_SIDE,
        ensures
            game.wf(),
            game@.fed_from(GameState::initial(width as int, height as int, game@.heading)),
            game@.food matches Some(p) && game@.free(p),
    {
        let heading = Direction::from_index(draw_between(0, 4));
        let mut game = Game::with_heading(width, height, heading);
        game.place_food();
        proof {
            initial_is_wf(width as int, height as int, heading);
        }
        game
    }

    /// The session that begins with the given heading, before food is laid
    /// out.
    pub fn with_heading(width: u16, height: u16, heading: Direction) -> (game: Game)
        requires
            width >= MIN_SIDE,
            height >= MIN_SIDE,
        ensures
            game.wf(),
            game@ == GameState::initial(width as int, height as int, heading),
    {
        proof {
            initial_is_wf(width as int, height as int, heading);
        }
        let snake = Snake::new(Point::new(width / 2, height / 2), INITIAL_LENGTH, heading);
        Game { width, height, food: None, snake, speed: 0, score: 0, course: heading, over: false }
    }

    /// Takes one event of the session and says what to do next.
    ///
    /// A command is taken first: quitting ends the session at once, and a
    /// turn is taken unless it keeps or reverses the direction of the last
    /// step. While the tick has time left, nothing else happens. Once it has
    /// ended, the snake advances, and where it has eaten, food is laid out
    /// on a free cell drawn at random. A session that is over stays as it
    /// is.
    pub fn run(&mut self, event: Event) -> (action: Action)
        requires
            old(self).wf(),
        ensures
            final(self).wf(),
            old(self)@.eats_on(event) ==> final(self)@.fed_from(old(self)@.after_event(event)),
            !old(self)@.eats_on(event) ==> final(self)@ == old(self)@.after_event(event),
            final(self)@.food matches Some(p) ==> final(self)@.free(p),
            action == old(self)@.answer(event),
    {
        if self.over {
            return Action::Stop;
        }
        match event.command {
            Some(Command::Quit) => {
                self.over = true;
                return Action::Stop;
            },
            Some(Command::Turn(towards)) => {
                self.turn(towards);
            },
            None => {},
        }
        let interval = self.calculate_interval();
        if event.elapsed < interval {
            return Action::Wait(interval - event.elapsed);
        }
        let ate = self.advance();
        if self.over {
            return Action::Stop;
        }
        if ate {
            self.place_food();
        }
        Action::Draw(self.calculate_interval())
    }

    /// Takes a request to turn towards `towards`, and tells whether the
    /// heading is now `towards` on its account. A request that keeps or
    /// reverses the direction of the snake's last step is passed over, and
    /// so is any request once the session is over.
    pub fn turn(&mut self, towards: Direction) -> (taken: bool)
        requires
            old(self).wf(),
        ensures
            final(self).wf(),
            taken == old(self)@.allows_turn(towards),
            final(self)@ == old(self)@.turned(towards),
    {
        if !self.over && towards != self.course && towards != self.course.opposite() {
            self.snake.set_direction(towards);
            true
        } else {
            false
        }
    }

    /// Makes the step that ends a tick, and tells whether the snake has
    /// eaten. A snake with a wall or its own body ahead stays where it is,
    /// and the session is over. Otherwise it moves one cell ahead; onto food
    /// it grows, the food is gone until it is laid out anew, the score rises
    /// by one and the speed follows.
    pub fn advance(&mut self) -> (ate: bool)
        requires
            old(self).wf(),
        ensures
            final(self).wf(),
            final(self)@ == old(self)@.advanced(),
            ate == (!old(self)@.over && !old(self)@.blocked() && old(self)@.food_ahead()),
    {
        if self.over {
            return false;
        }
        if self.has_collided_with_wall() || self.has_bitten_itself() {
            self.over = true;
            return false;
        }
        proof {
            advanced_is_wf(self@);
            level_follows_score(self@);
        }
        let heading = self.snake.direction();
        let next = self.snake.head_point().translate(heading, 1);
        let per_level = self.points_per_level();
        let ate = match self.food {
            Some(food) => food == next,
            None => false,
        };
        if ate {
            self.snake.grow();
            proof {
                self.snake.length_is_bounded();
            }
            self.food = None;
            self.score = self.score + 1;
            if self.score % per_level == 0 && self.speed < MAX_SPEED {
                self.speed = self.speed + 1;
            }
        } else {
            self.snake.slither();
        }
        self.course = heading;
        ate
    }

    /// Lays out food on a free cell: a cell of the board is drawn at random
    /// until one is free, at most `FOOD_DRAWS` times, and after that the
    /// first free cell is taken. With no free cell left there is no food.
    pub fn place_food(&mut self)
        requires
            old(self).wf(),
        ensures
            final(self).wf(),
            final(self)@.fed_from(old(self)@),
            final(self)@.food matches Some(p) ==> final(self)@.free(p),
            final(self)@.food is None <==> old(self)@.saturated(),
    {
        let mut draws: u32 = 0;
        while draws < FOOD_DRAWS
            invariant
                draws <= FOOD_DRAWS,
                self.wf(),
                self@ == old(self)@,
            decreases FOOD_DRAWS - draws,
        {
            let x = draw_between(0, self.width);
            let y = draw_between(0, self.height);
            if self.place_food_at(Point::new(x, y)) {
                return;
            }
            draws = draws + 1;
        }
        self.food = self.first_free_cell();
    }

    /// Lays the food on `candidate` if that is a cell of the board that the
    /// snake does not cover, and tells whether it did. Food that lay
    /// elsewhere is gone then; otherwise nothing changes.
    pub fn place_food_at(&mut self, candidate: Point) -> (placed: bool)
        requires
            old(self).wf(),
        ensures
            final(self).wf(),
            placed == old(self)@.free(candidate),
            placed ==> final(self)@ == old(self)@.with_food(Some(candidate)),
            !placed ==> final(self)@ == old(self)@,
    {
        if candidate.x < self.width && candidate.y < self.height && !self.snake.contains_point(
            &candidate,
        ) {
            self.food = Some(candidate);
            true
        } else {
            false
        }
    }

    /// Returns the first free cell, reading the board row by row from the
    /// top and each row from the left, or nothing when the snake covers the
    /// board.
    pub fn first_free_cell(&self) -> (found: Option<Point>)
        requires
            self.wf(),
        ensures
            match found {
                Some(p) => {
                    &&& self@.free(p)
                    &&& forall|q: Point| #[trigger]
                        self@.free(q) ==> p.y < q.y || (p.y == q.y && p.x <= q.x)
                },
                None => self@.saturated(),
            },
    {
        let mut y: u16 = 0;
        while y < self.height
            invariant
                y <= self.height,
                forall|q: Point| q.y < y ==> !#[trigger] self@.free(q),
            decreases self.height - y,
        {
            let mut x: u16 = 0;
            while x < self.width
                invariant
                    x <= self.width,
                    y < self.height,
                    forall|q: Point| q.y < y ==> !#[trigger] self@.free(q),
                    forall|q: Point| q.y == y && q.x < x ==> !#[trigger] self@.free(q),
                decreases self.width - x,
            {
                let p = Point::new(x, y);
                if !self.snake.contains_point(&p) {
                    return Some(p);
                }
                x = x + 1;
            }
            y = y + 1;
        }
        None
    }

    /// Returns the length of the current tick in milliseconds: `MAX_INTERVAL`
    /// at speed level 0, and one step shorter with each level, down to
    /// `MIN_INTERVAL` at level `MAX_SPEED`.
    pub fn calculate_interval(&self) -> (millis: u64)
        ensures
            millis == self@.interval(),
    {
        Game::interval_for(self.speed)
    }

    /// Returns the length of a tick at a speed level, in milliseconds. A
    /// level above `MAX_SPEED` counts as `MAX_SPEED`.
    pub fn interval_for(speed: u16) -> (millis: u64)
        ensures
            millis == interval_at(speed as int),
            MIN_INTERVAL <= millis <= MAX_INTERVAL,
    {
        let level = if speed > MAX_SPEED {
            MAX_SPEED
        } else {
            speed
        };
        let step = (MAX_INTERVAL - MIN_INTERVAL) / MAX_SPEED;
        assert(step == 25);
        (MIN_INTERVAL + step * (MAX_SPEED - level)) as u64
    }

    /// Returns the command that a key press stands for, if there was a key
    /// press and it stands for one: `q`, `Q` and escape quit; `c` and `C`
    /// quit when control, and control alone, is held; an arrow key turns
    /// towards its direction.
    pub fn get_command(&self, key_event: Option<KeyPress>) -> (command: Option<Command>)
        ensures
            command == match key_event {
                Some(press) => press.command(),
                None => None,
            },
    {
        let press = match key_event {
            Some(press) => press,
            None => {
                return None;
            },
        };
        match press.key {
            Key::Char(c) => {
                if c == 'q' || c == 'Q' {
                    Some(Command::Quit)
                } else if c == 'c' || c == 'C' {
                    let held = press.modifiers;
                    if held.control && !held.shift && !held.alt && !held.other {
                        Some(Command::Quit)
                    } else {
                        None
                    }
                } else {
                    None
                }
            },
            Key::Esc => Some(Command::Quit),
            Key::Up => Some(Command::Turn(Direction::Up)),
            Key::Right => Some(Command::Turn(Direction::Right)),
            Key::Down => Some(Command::Turn(Direction::Down)),
            Key::Left => Some(Command::Turn(Direction::Left)),
            Key::Other => None,
        }
    }

    /// Tells whether one step ahead would leave the board.
    pub fn has_collided_with_wall(&self) -> (collided: bool)
        requires
            self.wf(),
        ensures
            collided == self@.wall_ahead(),
    {
        let head_point = self.snake.head_point();
        proof {
            assert(self@.on_board(self@.body[0]));
        }
        match self.snake.direction() {
            Direction::Up => head_point.y == 0,
            Direction::Right => head_point.x >= self.width - 1,
            Direction::Down => head_point.y >= self.height - 1,
            Direction::Left => head_point.x == 0,
        }
    }

    /// Tells whether one step ahead would run into the snake's own body.
    /// Neither the head counts nor the tail, whose cell the step gives up.
    pub fn has_bitten_itself(&self) -> (bitten: bool)
        requires
            self.wf(),
        ensures
            bitten == self@.bites_itself(),
    {
        if self.has_collided_with_wall() {
            proof {
                // Every segment lies on the board, and the cell ahead does not.
                assert forall|i: int| 0 <= i < self@.body.len() implies !(
                #[trigger] self@.body[i]).is_at(self@.ahead_x(), self@.ahead_y()) by {
                    assert(self@.on_board(self@.body[i]));
                }
            }
            return false;
        }
        let next_head_point = self.snake.head_point().translate(self.snake.direction(), 1);
        let body = self.snake.body_points();
        let tail = body.len() - 1;
        let mut i: usize = 1;
        while i < tail
            invariant
                1 <= i <= tail == body@.len() - 1,
                body@ == self@.body,
                next_head_point.is_at(self@.ahead_x(), self@.ahead_y()),
                forall|k: int|
                    1 <= k < i ==> !(#[trigger] body@[k]).is_at(self@.ahead_x(), self@.ahead_y()),
            decreases tail - i,
        {
            if body[i] == next_head_point {
                return true;
            }
            i = i + 1;
        }
        false
    }

    /// Returns the number of columns of the board.
    pub fn width(&self) -> (width: u16)
        ensures
            width == self@.width,
    {
        self.width
    }

    /// Returns the number of rows of the board.
    pub fn height(&self) -> (height: u16)
        ensures
            height == self@.height,
    {
        self.height
    }

    /// Returns the cell that holds the food, if there is food.
    pub fn food(&self) -> (food: Option<Point>)
        ensures
            food == self@.food,
    {
        self.food
    }

    /// Returns the snake.
    pub fn snake(&self) -> (snake: &Snake)
        ensures
            snake@ == self@.body,
            snake.heading() == self@.heading,
    {
        &self.snake
    }

    /// Returns the direction of the snake's last step, by which requests
    /// to turn are judged. Before the first step it is the heading with which
    /// the session began.
    pub fn course(&self) -> (course: Direction)
        ensures
            course == self@.course,
    {
        self.course
    }

    /// Returns the speed level.
    pub fn speed(&self) -> (speed: u16)
        ensures
            speed == self@.speed,
    {
        self.speed
    }

    /// Returns the number of pieces of food eaten.
    pub fn score(&self) -> (score: u64)
        ensures
            score == self@.score,
    {
        self.score
    }

    /// Tells whether the session has ended.
    pub fn is_over(&self) -> (over: bool)
        ensures
            over == self@.over,
    {
        self.over
    }

    /// Returns the score that earns one speed level on this board: the
    /// number of its cells divided by `MAX_SPEED`, rounded down.
    pub fn points_per_level(&self) -> (points: u64)
        requires
            self.wf(),
        ensures
            points == points_per_level(self@.width, self@.height),
            points >= 1,
    {
        proof {
            points_per_level_is_positive(self@.width, self@.height);
            assert(self.width * self.height <= 65535 * 65535) by (nonlinear_arith)
                requires
                    0 <= self.width <= 65535,
                    0 <= self.height <= 65535,
            ;
        }
        (self.width as u64 * self.height as u64) / (MAX_SPEED as u64)
    }
}

} // verus!
