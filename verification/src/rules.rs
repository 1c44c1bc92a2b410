//! The rules of a session as mathematics: the state of a game, the steps
//! that lead from one state to the next, and what always holds of them.

use vstd::prelude::*;
use crate::command::{Action, Command, Event};
use crate::direction::Direction;
use crate::point::Point;
use crate::snake::{connected, grown, linked, slithered, straight};

verus! {

/// Milliseconds per tick at speed level 0.
pub const MAX_INTERVAL: u16 = 700;

/// Milliseconds per tick at the highest speed level.
pub const MIN_INTERVAL: u16 = 200;

/// The highest speed level.
pub const MAX_SPEED: u16 = 20;

/// Length of the snake when a session begins.
pub const INITIAL_LENGTH: u16 = 3;

/// The shortest side of a board on which the initial snake fits whatever
/// its heading.
pub const MIN_SIDE: u16 = 5;

/// Milliseconds by which one speed level shortens the tick.
pub open spec fn interval_step() -> int {
    (MAX_INTERVAL - MIN_INTERVAL) / (MAX_SPEED as int)
}

/// Milliseconds per tick at a speed level. Levels beyond either end count as
/// that end.
pub open spec fn interval_at(speed: int) -> int {
    let level = if speed < 0 {
        0
    } else if speed > MAX_SPEED {
        MAX_SPEED as int
    } else {
        speed
    };
    MIN_INTERVAL + interval_step() * (MAX_SPEED - level)
}

/// The score that earns one speed level on a board of the given size.
pub open spec fn points_per_level(width: int, height: int) -> int {
    (width * height) / (MAX_SPEED as int)
}

/// The speed level that a score has earned on a board of the given size.
pub open spec fn speed_at(score: int, width: int, height: int) -> int {
    let levels = score / points_per_level(width, height);
    if levels > MAX_SPEED {
        MAX_SPEED as int
    } else {
        levels
    }
}

/// The cell at which a session's snake begins: the middle of the board.
pub open spec fn center(width: int, height: int) -> Point {
    Point { x: (width / 2) as u16, y: (height / 2) as u16 }
}

/// The state of a session.
pub struct GameState {
    /// Number of columns of the board.
    pub width: int,
    /// Number of rows of the board.
    pub height: int,
    /// The snake's body, head first.
    pub body: Seq<Point>,
    /// The direction of the snake's next step.
    pub heading: Direction,
    /// The direction of the snake's last step.
    pub course: Direction,
    /// The cell that holds the food, if there is food.
    pub food: Option<Point>,
    /// Pieces of food eaten.
    pub score: int,
    /// The speed level.
    pub speed: int,
    /// Whether the session has ended.
    pub over: bool,
}

impl GameState {
    /// The state in which a session begins, but for the food: a straight
    /// snake of `INITIAL_LENGTH` cells with its head at the center.
    pub open spec fn initial(width: int, height: int, heading: Direction) -> GameState {
        GameState {
            width,
            height,
            body: straight(center(width, height), INITIAL_LENGTH as nat, heading),
            heading,
            course: heading,
            food: None,
            score: 0,
            speed: 0,
            over: false,
        }
    }

    pub open spec fn head(self) -> Point {
        self.body[0]
    }

    /// Whether `p` is a cell of the board.
    pub open spec fn on_board(self, p: Point) -> bool {
        p.x < self.width && p.y < self.height
    }

    /// Whether `p` is a cell of the board that the snake does not cover.
    pub open spec fn free(self, p: Point) -> bool {
        self.on_board(p) && !self.body.contains(p)
    }

    /// Whether the snake covers the whole board.
    pub open spec fn saturated(self) -> bool {
        forall|p: Point| !#[trigger] self.free(p)
    }

    /// Column of the cell in front of the head.
    pub open spec fn ahead_x(self) -> int {
        self.head().shifted_x(self.heading, 1)
    }

    /// Row of the cell in front of the head.
    pub open spec fn ahead_y(self) -> int {
        self.head().shifted_y(self.heading, 1)
    }

    /// The cell in front of the head. Meaningful where no wall is ahead.
    pub open spec fn next_head(self) -> Point {
        self.head().translated(self.heading, 1)
    }

    /// Whether one step ahead would leave the board.
    pub open spec fn wall_ahead(self) -> bool {
        !(0 <= self.ahead_x() < self.width && 0 <= self.ahead_y() < self.height)
    }

    /// Whether one step ahead would run into the body. The head does not
    /// count, and neither does the tail, whose cell is given up by the step.
    pub open spec fn bites_itself(self) -> bool {
        exists|i: int|
            1 <= i < self.body.len() - 1 && (#[trigger] self.body[i]).is_at(
                self.ahead_x(),
                self.ahead_y(),
            )
    }

    /// Whether one step ahead would end the session.
    pub open spec fn blocked(self) -> bool {
        self.wall_ahead() || self.bites_itself()
    }

    /// Whether the food lies in front of the head.
    pub open spec fn food_ahead(self) -> bool {
        !self.wall_ahead() && self.food == Some(self.next_head())
    }

    /// Milliseconds per tick at the current speed.
    pub open spec fn interval(self) -> int {
        interval_at(self.speed)
    }

    /// The speed level once the score has risen to `score`: one more than
    /// before whenever the score reaches a multiple of the points per level,
    /// until the highest level is reached.
    pub open spec fn level_after(self, score: int) -> int {
        if score % points_per_level(self.width, self.height) == 0 && self.speed < MAX_SPEED {
            self.speed + 1
        } else {
            self.speed
        }
    }

    /// Whether a turn towards `towards` is taken: the session goes on, and
    /// the snake neither keeps nor reverses the direction of its last step.
    pub open spec fn allows_turn(self, towards: Direction) -> bool {
        !self.over && towards != self.course && towards != self.course.opposite()
    }

    /// The state after a request to turn towards `towards`.
    pub open spec fn turned(self, towards: Direction) -> GameState {
        if self.allows_turn(towards) {
            self.with_heading(towards)
        } else {
            self
        }
    }

    /// The same state with the session ended.
    pub open spec fn ended(self) -> GameState {
        GameState { over: true, ..self }
    }

    /// The same state with `heading` for its heading.
    pub open spec fn with_heading(self, heading: Direction) -> GameState {
        GameState { heading, ..self }
    }

    /// The same state with `food` for its food.
    pub open spec fn with_food(self, food: Option<Point>) -> GameState {
        GameState { food, ..self }
    }

    /// The state after the step that ends a tick, before new food is laid
    /// out. A session that is over stays as it is. A snake that is blocked
    /// does not move, and the session ends. Otherwise the snake steps ahead;
    /// onto food it grows by one cell, and the food is gone, the score is
    /// one higher and the speed follows.
    pub open spec fn advanced(self) -> GameState {
        if self.over {
            self
        } else if self.blocked() {
            self.ended()
        } else if self.food_ahead() {
            GameState {
                body: grown(self.body, self.heading),
                course: self.heading,
                food: None,
                score: self.score + 1,
                speed: self.level_after(self.score + 1),
                ..self
            }
        } else {
            GameState {
                body: slithered(self.body, self.heading),
                course: self.heading,
                ..self
            }
        }
    }

    /// Whether this state is `before` with food laid out anew: nothing but
    /// the food differs, the food lies on a cell that was free, and there is
    /// none only if no cell was free.
    pub open spec fn fed_from(self, before: GameState) -> bool {
        &&& self == before.with_food(self.food)
        &&& match self.food {
            Some(p) => before.free(p),
            None => before.saturated(),
        }
    }

    /// The state after a command, or none, has arrived.
    pub open spec fn heard(self, command: Option<Command>) -> GameState {
        match command {
            Some(Command::Quit) => self.ended(),
            Some(Command::Turn(towards)) => self.turned(towards),
            None => self,
        }
    }

    /// Whether the tick has ended once `elapsed` milliseconds have passed.
    pub open spec fn tick_due(self, elapsed: int) -> bool {
        elapsed >= self.interval()
    }

    /// The state after an event, before new food is laid out: the command is
    /// taken first, and the snake advances if the session goes on and the
    /// tick has ended.
    pub open spec fn after_event(self, event: Event) -> GameState {
        let heard = self.heard(event.command);
        if self.over {
            self
        } else if heard.over || !heard.tick_due(event.elapsed as int) {
            heard
        } else {
            heard.advanced()
        }
    }

    /// Whether the snake eats on an event, so that food is laid out anew.
    pub open spec fn eats_on(self, event: Event) -> bool {
        let heard = self.heard(event.command);
        &&& !heard.over
        &&& heard.tick_due(event.elapsed as int)
        &&& !heard.blocked()
        &&& heard.food_ahead()
    }

    /// What the driver has to do after an event: stop once the session is
    /// over; draw and wait a whole tick after the snake has moved; otherwise
    /// wait for the rest of the tick.
    pub open spec fn answer(self, event: Event) -> Action {
        let heard = self.heard(event.command);
        let next = self.after_event(event);
        if next.over {
            Action::Stop
        } else if heard.tick_due(event.elapsed as int) {
            Action::Draw(next.interval() as u64)
        } else {
            Action::Wait((heard.interval() - event.elapsed) as u64)
        }
    }

    /// What holds of every state of a session.
    pub open spec fn wf(self) -> bool {
        &&& MIN_SIDE <= self.width <= u16::MAX
        &&& MIN_SIDE <= self.height <= u16::MAX
        &&& self.score >= 0
        &&& self.body.len() == INITIAL_LENGTH + self.score
        &&& forall|i: int| 0 <= i < self.body.len() ==> self.on_board(#[trigger] self.body[i])
        &&& self.body.no_duplicates()
        &&& connected(self.body)
        &&& self.body[1].can_translate(self.course, 1)
        &&& self.body[0] == self.body[1].translated(self.course, 1)
        &&& self.heading != self.course.opposite()
        &&& self.speed == speed_at(self.score, self.width, self.height)
        &&& match self.food {
            Some(p) => self.free(p),
            None => true,
        }
    }
}

/// One speed level is worth 25 milliseconds, the slowest tick takes
/// `MAX_INTERVAL` and the fastest `MIN_INTERVAL`, and every level below the
/// highest has a strictly longer tick than the level above it.
pub proof fn interval_falls_with_speed(speed: int)
    ensures
        interval_step() == 25,
        interval_at(0) == MAX_INTERVAL,
        interval_at(MAX_SPEED as int) == MIN_INTERVAL,
        MIN_INTERVAL <= interval_at(speed) <= MAX_INTERVAL,
        0 <= speed < MAX_SPEED ==> interval_at(speed + 1) < interval_at(speed),
{
}

/// On a board that a session can have, at least one point earns a level.
pub proof fn points_per_level_is_positive(width: int, height: int)
    requires
        MIN_SIDE <= width,
        MIN_SIDE <= height,
    ensures
        points_per_level(width, height) >= 1,
{
    assert(width * height >= 25) by (nonlinear_arith)
        requires
            width >= 5,
            height >= 5,
    ;
}

/// A session begins in a state of which all that holds of every state
/// holds, and its top left cell is free, so that food can be laid out.
pub proof fn initial_is_wf(width: int, height: int, heading: Direction)
    requires
        MIN_SIDE <= width <= u16::MAX,
        MIN_SIDE <= height <= u16::MAX,
    ensures
        GameState::initial(width, height, heading).wf(),
        GameState::initial(width, height, heading).free(Point { x: 0, y: 0 }),
        !GameState::initial(width, height, heading).saturated(),
{
    let s = GameState::initial(width, height, heading);
    let c = center(width, height);
    let back = heading.opposite();
    assert(2 <= c.x && c.x + 2 < width);
    assert(2 <= c.y && c.y + 2 < height);
    assert(s.body.len() == 3);
    assert(s.body[0] == c.translated(back, 0));
    assert(s.body[1] == c.translated(back, 1));
    assert(s.body[2] == c.translated(back, 2));
    assert forall|i: int| 0 <= i < s.body.len() - 1 implies #[trigger] linked(s.body, i) by {}
    points_per_level_is_positive(width, height);
    assert(0int / points_per_level(width, height) == 0) by (nonlinear_arith)
        requires
            points_per_level(width, height) >= 1,
    ;
    assert(s.free(Point { x: 0, y: 0 }));
}

/// A request to turn leaves a state one that a session can have. While the
/// session goes on, a turn to either side of the last step is taken, and a
/// request to reverse the last step or to keep its direction changes
/// nothing; whatever was requested, the heading never reverses the last
/// step.
pub proof fn turned_is_wf(s: GameState, towards: Direction)
    requires
        s.wf(),
    ensures
        s.turned(towards).wf(),
        s.turned(towards).heading != s.course.opposite(),
        s.turned(s.course.opposite()) == s,
        s.turned(s.course) == s,
        !s.over && towards != s.course && towards != s.course.opposite() ==> s.turned(
            towards,
        ).heading == towards,
        s.turned(towards) == s.with_heading(s.turned(towards).heading),
{
}

/// The speed level of a session lies between 0 and `MAX_SPEED`, and its
/// tick between `MIN_INTERVAL` and `MAX_INTERVAL`.
pub proof fn speed_stays_within_levels(s: GameState)
    requires
        s.wf(),
    ensures
        0 <= s.speed <= MAX_SPEED,
        MIN_INTERVAL <= s.interval() <= MAX_INTERVAL,
{
    let p = points_per_level(s.width, s.height);
    points_per_level_is_positive(s.width, s.height);
    vstd::arithmetic::div_mod::lemma_div_pos_is_pos(s.score, p);
    interval_falls_with_speed(s.speed);
}

/// On a board that a session can have, the speed level is 0 for every score
/// below the points per level, and 1 as soon as the score reaches them.
pub proof fn first_level_comes_at_the_threshold(score: int, width: int, height: int)
    requires
        MIN_SIDE <= width,
        MIN_SIDE <= height,
        0 <= score <= points_per_level(width, height),
    ensures
        score < points_per_level(width, height) ==> speed_at(score, width, height) == 0,
        score == points_per_level(width, height) ==> speed_at(score, width, height) == 1,
{
    let p = points_per_level(width, height);
    points_per_level_is_positive(width, height);
    if score < p {
        vstd::arithmetic::div_mod::lemma_basic_div(score, p);
    } else {
        vstd::arithmetic::div_mod::lemma_div_basics(p);
    }
}

/// When the score rises by one, the speed level goes up by one if the new
/// score is a multiple of the points per level and the highest level is not
/// reached, and stays otherwise. Either way it is the number of whole levels
/// that the new score has earned, capped at `MAX_SPEED`.
pub proof fn level_follows_score(s: GameState)
    requires
        s.wf(),
    ensures
        s.level_after(s.score + 1) == speed_at(s.score + 1, s.width, s.height),
        s.speed <= s.level_after(s.score + 1) <= s.speed + 1,
{
    let p = points_per_level(s.width, s.height);
    points_per_level_is_positive(s.width, s.height);
    let n = s.score;
    vstd::arithmetic::div_mod::lemma_fundamental_div_mod(n, p);
    vstd::arithmetic::div_mod::lemma_fundamental_div_mod(n + 1, p);
    vstd::arithmetic::div_mod::lemma_mod_bound(n, p);
    vstd::arithmetic::div_mod::lemma_mod_bound(n + 1, p);
    let q = n / p;
    let q1 = (n + 1) / p;
    assert(q1 == q || q1 == q + 1) by (nonlinear_arith)
        requires
            p >= 1,
            n == p * q + n % p,
            n + 1 == p * q1 + (n + 1) % p,
            0 <= n % p < p,
            0 <= (n + 1) % p < p,
    ;
    assert((n + 1) % p == 0 <==> q1 == q + 1) by (nonlinear_arith)
        requires
            p >= 1,
            n == p * q + n % p,
            n + 1 == p * q1 + (n + 1) % p,
            0 <= n % p < p,
            0 <= (n + 1) % p < p,
            q1 == q || q1 == q + 1,
    ;
}

/// A new head in front of a body: where the body lies on the board in one
/// piece and covers no cell twice, and the new head is a cell of the board
/// next to the old head that the body does not cover, all that holds of the
/// longer body too.
proof fn headed_body_is_sound(s: GameState, rest: Seq<Point>, next: Point)
    requires
        rest.len() >= 1,
        forall|i: int| 0 <= i < rest.len() ==> s.on_board(#[trigger] rest[i]),
        rest.no_duplicates(),
        connected(rest),
        s.on_board(next),
        next.touches(rest[0]),
        !rest.contains(next),
    ensures
        forall|i: int|
            0 <= i < (seq![next] + rest).len() ==> s.on_board(#[trigger] (seq![next] + rest)[i]),
        (seq![next] + rest).no_duplicates(),
        connected(seq![next] + rest),
{
    let body = seq![next] + rest;
    assert forall|i: int| 0 < i < body.len() implies body[i] == rest[i - 1] by {}
    assert forall|i: int| 0 <= i < body.len() - 1 implies #[trigger] linked(body, i) by {
        if i > 0 {
            assert(linked(rest, i - 1));
        }
    }
}

/// The step that ends a tick leaves a state one that a session can have:
/// the snake stays on the board, in one piece and clear of itself and of
/// the food, and score, length and speed stay in step.
pub proof fn advanced_is_wf(s: GameState)
    requires
        s.wf(),
    ensures
        s.advanced().wf(),
        s.advanced().score >= s.score,
        s.advanced().speed >= s.speed,
        s.over ==> s.advanced() == s,
{
    if !s.over && !s.blocked() {
        let t = s.advanced();
        let next = s.next_head();
        let kept = s.body.drop_last();
        assert(s.on_board(s.body[0]));
        assert(next.is_at(s.ahead_x(), s.ahead_y()));
        assert forall|i: int| 0 <= i < kept.len() implies kept[i] != next by {
            if i >= 1 {
                assert(!s.body[i].is_at(s.ahead_x(), s.ahead_y()));
            }
        }
        assert(connected(kept)) by {
            assert forall|i: int| 0 <= i < kept.len() - 1 implies #[trigger] linked(kept, i) by {
                assert(linked(s.body, i));
            }
        }
        if s.food_ahead() {
            headed_body_is_sound(s, s.body, next);
            level_follows_score(s);
        } else {
            headed_body_is_sound(s, kept, next);
            assert(t.body[1] == s.body[0]);
            if let Some(p) = s.food {
                assert forall|i: int| 0 <= i < t.body.len() implies t.body[i] != p by {
                    if i > 0 {
                        assert(t.body[i] == s.body[i - 1]);
                    }
                }
            }
        }
    }
}

/// Laying out food leaves a state one that a session can have, and the food
/// lies on no cell of the snake.
pub proof fn fed_is_wf(before: GameState, after: GameState)
    requires
        before.wf(),
        after.fed_from(before),
    ensures
        after.wf(),
        after.food matches Some(p) ==> !after.body.contains(p) && after.on_board(p),
{
}

/// Whatever the event, the state after it is one that a session can have,
/// a session that is over stays over and unchanged, and neither the score
/// nor the speed falls.
pub proof fn after_event_is_wf(s: GameState, event: Event)
    requires
        s.wf(),
    ensures
        s.after_event(event).wf(),
        s.over ==> s.after_event(event) == s && s.answer(event) == Action::Stop,
        s.after_event(event).score >= s.score,
        s.after_event(event).speed >= s.speed,
{
    let heard = s.heard(event.command);
    match event.command {
        Some(Command::Turn(towards)) => {
            turned_is_wf(s, towards);
        },
        _ => {},
    }
    advanced_is_wf(heard);
}

/// With the snake heading right, the wall is ahead when the head is in the
/// last column and not when it is in the column before.
pub proof fn right_wall_is_one_column_away(s: GameState)
    requires
        s.wf(),
        s.heading == Direction::Right,
    ensures
        s.head().x == s.width - 1 ==> s.wall_ahead(),
        s.head().x == s.width - 2 ==> !s.wall_ahead(),
{
    assert(s.on_board(s.body[0]));
}

/// The snake never steps back onto its neck: the cell ahead is not the
/// segment behind the head.
pub proof fn neck_is_never_ahead(s: GameState)
    requires
        s.wf(),
    ensures
        !s.body[1].is_at(s.ahead_x(), s.ahead_y()),
{
}

/// Where segment `i` of the snake lies on the cell ahead, the snake bites
/// itself if and only if that segment is neither the head nor the tail. A
/// step onto the cell of the tail, which the tail gives up with that very
/// step, is no bite.
pub proof fn only_inner_segments_bite(s: GameState, i: int)
    requires
        s.wf(),
        0 <= i < s.body.len(),
        s.body[i].is_at(s.ahead_x(), s.ahead_y()),
    ensures
        s.bites_itself() <==> 1 <= i < s.body.len() - 1,
        i == s.body.len() - 1 ==> !s.bites_itself(),
        i != 0,
{
    if s.bites_itself() {
        let j = choose|j: int|
            1 <= j < s.body.len() - 1 && (#[trigger] s.body[j]).is_at(s.ahead_x(), s.ahead_y());
        assert(s.body[j] == s.body[i]);
    }
}

/// When a step onto food brings the score to a multiple of the points per
/// level and the highest level is not reached, the speed rises by exactly
/// one level and the tick becomes strictly shorter; otherwise both stay.
pub proof fn speed_rises_at_threshold(s: GameState)
    requires
        s.wf(),
        !s.over,
        !s.blocked(),
        s.food_ahead(),
    ensures
        s.advanced().score == s.score + 1,
        (s.score + 1) % points_per_level(s.width, s.height) == 0 && s.speed < MAX_SPEED ==> {
            &&& s.advanced().speed == s.speed + 1
            &&& s.advanced().interval() < s.interval()
        },
        !((s.score + 1) % points_per_level(s.width, s.height) == 0 && s.speed < MAX_SPEED) ==> {
            &&& s.advanced().speed == s.speed
            &&& s.advanced().interval() == s.interval()
        },
        s.advanced().speed == MAX_SPEED ==> s.advanced().interval() == MIN_INTERVAL,
{
    level_follows_score(s);
    speed_stays_within_levels(s);
    interval_falls_with_speed(s.speed);
}

} // verus!
