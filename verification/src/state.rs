//! The tick-driven state machine: it owns the actor, the food cell, the
//! score and the game-over menu, consumes abstract input commands, and
//! turns each tick into a state transition plus an ordered list of
//! render instructions for the external terminal renderer.

use vstd::prelude::*;
use crate::geometry::Direction;
use crate::geometry::Vector2D;
use crate::geometry::step;
use crate::history::eviction_of_push;
use crate::history::index_after_push;
use crate::history::order_after_push;
use crate::rng::random_position;
use crate::snake::AdvanceOutcome;
use crate::snake::Snake;

verus! {

/// An abstract input command, decoupled from physical keys.
#[derive(Debug, Clone, Copy, PartialEq, Eq, Structural)]
pub enum Command {
    MoveNorth,
    MoveEast,
    MoveSouth,
    MoveWest,
    Confirm,
    Abort,
}

/// The game-over menu's two options; selection clamps at either end.
#[derive(Debug, Clone, Copy, PartialEq, Eq, Structural)]
pub enum MenuSelection {
    Restart,
    Exit,
}

/// What the loop should do after a command was applied.
#[derive(Debug, Clone, Copy, PartialEq, Eq, Structural)]
pub enum CommandOutcome {
    /// Keep running.
    Continue,
    /// A fresh round begins: the screen should be cleared.
    Restarted,
    /// Leave the loop.
    Exit,
}

/// A glyph the renderer can place on a single cell.
#[derive(Debug, Clone, Copy, PartialEq, Eq, Structural)]
pub enum Glyph {
    /// The actor's head.
    Head,
    /// The food cell.
    Food,
    /// The cell the actor died on.
    Fatal,
}

/// A line of text the renderer can place; the renderer owns the glyphs
/// and strings themselves.
#[derive(Debug, Clone, Copy, PartialEq, Eq, Structural)]
pub enum Label {
    /// The score line, `Score: ` followed by the decimal score.
    Score(u32),
    /// The game-over title, 9 characters.
    GameOverTitle,
    /// The restart option of the menu.
    RestartOption,
    /// The exit option of the menu.
    ExitOption,
}

/// One render instruction handed to the external renderer.
#[derive(Debug, Clone, Copy, PartialEq, Eq, Structural)]
pub enum Draw {
    /// Erase the glyph on a cell.
    ClearCell(Vector2D),
    /// Place a glyph on a cell.
    PutGlyph(Vector2D, Glyph),
    /// Place a line of text starting at a cell.
    PutText(Vector2D, Label),
    /// Show the cursor on a cell, highlighting the menu selection.
    ShowCursor(Vector2D),
    /// Sound the terminal bell.
    Alert,
}

/// The heading that a steering request leaves the actor with: the
/// request is taken unless it would reverse the current heading into
/// the immediately preceding body segment.
pub open spec fn steered(current: Direction, requested: Direction) -> Direction {
    if current.spec_is_opposite(requested) {
        current
    } else {
        requested
    }
}

/// While playing, a steering command opposite to the current heading is
/// rejected and the heading stays exactly as it was.
pub proof fn lemma_no_reversal(current: Direction, requested: Direction)
    requires
        current.spec_is_opposite(requested),
    ensures
        steered(current, requested) == current,
{
}

/// How many decimal digits the score prints with.
pub open spec fn spec_decimal_digits(n: u32) -> u16 {
    if n < 10 {
        1
    } else if n < 100 {
        2
    } else if n < 1000 {
        3
    } else if n < 10000 {
        4
    } else if n < 100000 {
        5
    } else if n < 1000000 {
        6
    } else if n < 10000000 {
        7
    } else if n < 100000000 {
        8
    } else if n < 1000000000 {
        9
    } else {
        10
    }
}

/// Computes how many decimal digits `n` prints with.
pub fn decimal_digits(n: u32) -> (d: u16)
    ensures
        d == spec_decimal_digits(n),
{
    if n < 10 {
        1
    } else if n < 100 {
        2
    } else if n < 1000 {
        3
    } else if n < 10000 {
        4
    } else if n < 100000 {
        5
    } else if n < 1000000 {
        6
    } else if n < 10000000 {
        7
    } else if n < 100000000 {
        8
    } else if n < 1000000000 {
        9
    } else {
        10
    }
}

/// The printed length of the score line: `Score: ` and the digits.
pub open spec fn score_label_len(score: u32) -> u16 {
    (7 + spec_decimal_digits(score)) as u16
}

/// Where the score line starts so that it ends at the top row's right
/// edge; a grid too narrow for it pins the line to the left edge.
pub open spec fn score_anchor(width: u16, score: u32) -> Vector2D {
    Vector2D {
        x: if width >= score_label_len(score) {
            (width - score_label_len(score)) as u16
        } else {
            0u16
        },
        y: 0u16,
    }
}

/// Computes where the score line starts.
pub fn score_position(width: u16, score: u32) -> (p: Vector2D)
    ensures
        p == score_anchor(width, score),
{
    let len: u16 = 7 + decimal_digits(score);
    Vector2D { x: if width >= len { width - len } else { 0 }, y: 0 }
}

/// Where the game-over title starts: centered for the 9-character
/// title, clamped to the grid's origin on a grid too small for it.
pub open spec fn menu_origin(width: u16, height: u16) -> Vector2D {
    let gx = if width >= 9 {
        (((width - 9) as int) / 2) as u16
    } else {
        0u16
    };
    let cx = if gx >= 1 {
        (gx - 1) as u16
    } else {
        0u16
    };
    let hy = ((height as int) / 2) as u16;
    let cy = if hy >= 1 {
        (hy - 1) as u16
    } else {
        0u16
    };
    Vector2D { x: cx, y: cy }
}

/// The instructions of one game-over frame: the centered title, the two
/// menu lines below it, and the cursor beside the selected one.
pub open spec fn menu_draws(width: u16, height: u16, selection: MenuSelection) -> Seq<Draw> {
    let o = menu_origin(width, height);
    let cursor_x = if o.x >= 1 {
        (o.x - 1) as u16
    } else {
        0u16
    };
    let sel_y = if selection is Restart {
        (o.y + 4) as u16
    } else {
        (o.y + 5) as u16
    };
    seq![
        Draw::PutText(o, Label::GameOverTitle),
        Draw::PutText((Vector2D { x: o.x, y: (o.y + 4) as u16 }), Label::RestartOption),
        Draw::PutText((Vector2D { x: o.x, y: (o.y + 5) as u16 }), Label::ExitOption),
        Draw::ShowCursor((Vector2D { x: cursor_x, y: sel_y })),
    ]
}

/// Renders one game-over frame.
pub fn menu_render(width: u16, height: u16, selection: MenuSelection) -> (v: Vec<Draw>)
    ensures
        v@ == menu_draws(width, height, selection),
{
    let gx: u16 = if width >= 9 {
        (width - 9) / 2
    } else {
        0
    };
    let cx: u16 = if gx >= 1 {
        gx - 1
    } else {
        0
    };
    let hy: u16 = height / 2;
    let cy: u16 = if hy >= 1 {
        hy - 1
    } else {
        0
    };
    let cursor_x: u16 = if cx >= 1 {
        cx - 1
    } else {
        0
    };
    let sel_y: u16 = match selection {
        MenuSelection::Restart => cy + 4,
        MenuSelection::Exit => cy + 5,
    };
    let mut v: Vec<Draw> = Vec::new();
    v.push(Draw::PutText(Vector2D { x: cx, y: cy }, Label::GameOverTitle));
    v.push(Draw::PutText(Vector2D { x: cx, y: cy + 4 }, Label::RestartOption));
    v.push(Draw::PutText(Vector2D { x: cx, y: cy + 5 }, Label::ExitOption));
    v.push(Draw::ShowCursor(Vector2D { x: cursor_x, y: sel_y }));
    proof {
        assert(v@ =~= menu_draws(width, height, selection));
    }
    v
}

/// The instructions of a collision frame: the bell, then the fatal cell
/// marked where the head froze.
pub open spec fn collision_draws(fatal: Vector2D) -> Seq<Draw> {
    seq![Draw::Alert, Draw::PutGlyph(fatal, Glyph::Fatal)]
}

/// The instructions of an ordinary movement frame: erase the evicted
/// trailing cell if there was one, then the right-aligned score line,
/// the head, and the food.
pub open spec fn moved_draws(
    width: u16,
    evicted: Option<Vector2D>,
    score: u32,
    head: Vector2D,
    food: Vector2D,
) -> Seq<Draw> {
    let base = seq![
        Draw::PutText(score_anchor(width, score), Label::Score(score)),
        Draw::PutGlyph(head, Glyph::Head),
        Draw::PutGlyph(food, Glyph::Food),
    ];
    match evicted {
        Some(t) => seq![Draw::ClearCell(t)] + base,
        None => base,
    }
}

/// The whole game: the fixed grid bounds, the running score, whether
/// the round has ended, the menu selection shown then, the actor, and
/// the food cell.
#[derive(Debug)]
pub struct GameState {
    /// The grid's column count, fixed for the process lifetime.
    pub width: u16,
    /// The grid's row count, fixed for the process lifetime.
    pub height: u16,
    /// How many food cells the actor has eaten this round.
    pub score: u32,
    /// Whether the actor has collided and the menu is shown.
    pub is_game_over: bool,
    /// The menu option the cursor sits on while the menu is shown.
    pub current_selection: MenuSelection,
    /// The actor.
    pub snake: Snake,
    /// The cell the food currently sits on.
    pub food: Vector2D,
}

/// Everything of `pre` is kept in `post` except the actor's heading,
/// which becomes `d`.
pub open spec fn same_but_direction(pre: GameState, post: GameState, d: Direction) -> bool {
    &&& post.snake.direction == d
    &&& post.snake.size == pre.snake.size
    &&& post.snake.position == pre.snake.position
    &&& post.snake.history == pre.snake.history
    &&& post.width == pre.width
    &&& post.height == pre.height
    &&& post.score == pre.score
    &&& post.is_game_over == pre.is_game_over
    &&& post.current_selection == pre.current_selection
    &&& post.food == pre.food
}

/// Everything of `pre` is kept in `post` except the menu selection,
/// which becomes `sel`.
pub open spec fn same_but_selection(pre: GameState, post: GameState, sel: MenuSelection) -> bool {
    &&& post.current_selection == sel
    &&& post.snake == pre.snake
    &&& post.width == pre.width
    &&& post.height == pre.height
    &&& post.score == pre.score
    &&& post.is_game_over == pre.is_game_over
    &&& post.food == pre.food
}

/// `post` is a fresh round on `pre`'s grid: zero score, a newborn actor
/// at the origin heading East with an empty tracker of capacity one,
/// the menu back on its first option, and some in-bounds food cell.
pub open spec fn fresh_round(pre: GameState, post: GameState) -> bool {
    &&& post.width == pre.width
    &&& post.height == pre.height
    &&& post.score == 0
    &&& !post.is_game_over
    &&& post.current_selection is Restart
    &&& post.snake.size == 1
    &&& post.snake.position == (Vector2D { x: 0, y: 0 })
    &&& post.snake.direction is East
    &&& post.snake.history.order() == Seq::<Vector2D>::empty()
    &&& post.snake.history.index() == Set::<Vector2D>::empty()
    &&& post.snake.history.capacity() == 1
    &&& post.food.in_bounds(pre.width, pre.height)
}

/// What one command does to the state and what the loop learns from it.
/// Steering while playing goes through `steered`; while the menu is
/// shown, North and South move the selection (clamping at either end),
/// East and West are ignored, Confirm acts on the selection, and Abort
/// always ends the loop.
pub open spec fn command_transition(
    pre: GameState,
    post: GameState,
    cmd: Command,
    outcome: CommandOutcome,
) -> bool {
    match cmd {
        Command::MoveNorth => outcome is Continue && (if !pre.is_game_over {
            same_but_direction(pre, post, steered(pre.snake.direction, Direction::North))
        } else {
            same_but_selection(pre, post, MenuSelection::Restart)
        }),
        Command::MoveSouth => outcome is Continue && (if !pre.is_game_over {
            same_but_direction(pre, post, steered(pre.snake.direction, Direction::South))
        } else {
            same_but_selection(pre, post, MenuSelection::Exit)
        }),
        Command::MoveEast => outcome is Continue && (if !pre.is_game_over {
            same_but_direction(pre, post, steered(pre.snake.direction, Direction::East))
        } else {
            post == pre
        }),
        Command::MoveWest => outcome is Continue && (if !pre.is_game_over {
            same_but_direction(pre, post, steered(pre.snake.direction, Direction::West))
        } else {
            post == pre
        }),
        Command::Confirm => if pre.is_game_over && pre.current_selection is Exit {
            outcome is Exit && post == pre
        } else if pre.is_game_over && pre.current_selection is Restart {
            outcome is Restarted && fresh_round(pre, post)
        } else {
            outcome is Continue && post == pre
        },
        Command::Abort => outcome is Exit && post == pre,
    }
}

/// What one playing tick does to the state, given the food cell that
/// would be placed next were the current one eaten. The old head is
/// recorded in the tracker, the head steps once with toroidal wrap, and
/// then: a head on a tracked cell ends the round with the menu on its
/// first option; a head on the food scores, grows the actor (widening
/// the tracker before the next push could evict) and places the new
/// food; any other head just moves.
pub open spec fn tick_moves_to(pre: GameState, post: GameState, next_food: Vector2D) -> bool {
    let cap = pre.snake.history.capacity();
    let pushed_order = order_after_push(pre.snake.history.order(), cap, pre.snake.position);
    let pushed_index = index_after_push(
        pre.snake.history.index(),
        pre.snake.history.order(),
        cap,
        pre.snake.position,
    );
    let new_head = step(pre.snake.position, pre.snake.direction, pre.width, pre.height);
    &&& post.width == pre.width
    &&& post.height == pre.height
    &&& post.snake.position == new_head
    &&& post.snake.direction == pre.snake.direction
    &&& post.snake.history.order() == pushed_order
    &&& post.snake.history.index() == pushed_index
    &&& if pushed_index.contains(new_head) {
        &&& post.is_game_over
        &&& post.current_selection is Restart
        &&& post.score == pre.score
        &&& post.food == pre.food
        &&& post.snake.size == pre.snake.size
        &&& post.snake.history.capacity() == cap
    } else if new_head == pre.food {
        &&& !post.is_game_over
        &&& post.current_selection == pre.current_selection
        &&& post.score == pre.score + 1
        &&& post.food == next_food
        &&& post.snake.size == pre.snake.size + 1
        &&& post.snake.history.capacity() == cap + 1
    } else {
        &&& !post.is_game_over
        &&& post.current_selection == pre.current_selection
        &&& post.score == pre.score
        &&& post.food == pre.food
        &&& post.snake.size == pre.snake.size
        &&& post.snake.history.capacity() == cap
    }
}

/// The render instructions of one playing tick.
pub open spec fn spec_tick_draws(pre: GameState, next_food: Vector2D) -> Seq<Draw> {
    let cap = pre.snake.history.capacity();
    let pushed_index = index_after_push(
        pre.snake.history.index(),
        pre.snake.history.order(),
        cap,
        pre.snake.position,
    );
    let new_head = step(pre.snake.position, pre.snake.direction, pre.width, pre.height);
    let evicted = eviction_of_push(pre.snake.history.order(), cap);
    if pushed_index.contains(new_head) {
        collision_draws(new_head)
    } else if new_head == pre.food {
        moved_draws(pre.width, evicted, (pre.score + 1) as u32, new_head, next_food)
    } else {
        moved_draws(pre.width, evicted, pre.score, new_head, pre.food)
    }
}

impl GameState {
    /// The state machine's invariant: a non-degenerate grid, a
    /// well-formed actor, and the head and food on the grid.
    pub open spec fn well_formed(self) -> bool {
        &&& self.width > 0
        &&& self.height > 0
        &&& self.snake.well_formed()
        &&& self.snake.position.in_bounds(self.width, self.height)
        &&& self.food.in_bounds(self.width, self.height)
    }

    /// The initial state on a `width` x `height` grid: zero score, a
    /// newborn actor, the round running, and the food on `food`.
    pub fn new(width: u16, height: u16, food: Vector2D) -> (s: GameState)
        requires
            width > 0,
            height > 0,
            food.in_bounds(width, height),
        ensures
            s.well_formed(),
            s.width == width,
            s.height == height,
            s.score == 0,
            !s.is_game_over,
            s.current_selection is Restart,
            s.food == food,
            s.snake.size == 1,
            s.snake.position == (Vector2D { x: 0, y: 0 }),
            s.snake.direction is East,
            s.snake.history.order() == Seq::<Vector2D>::empty(),
            s.snake.history.index() == Set::<Vector2D>::empty(),
            s.snake.history.capacity() == 1,
    {
        GameState {
            width,
            height,
            score: 0,
            is_game_over: false,
            current_selection: MenuSelection::Restart,
            snake: Snake::default(),
            food,
        }
    }

    /// Applies one drained input command: steering while playing, menu
    /// navigation and confirmation while the round is over, and the
    /// unconditional abort. A confirmed restart places fresh random
    /// food.
    pub fn handle_command(&mut self, cmd: Command) -> (outcome: CommandOutcome)
        requires
            old(self).well_formed(),
        ensures
            final(self).well_formed(),
            command_transition(*old(self), *final(self), cmd, outcome),
    {
        match cmd {
            Command::Abort => CommandOutcome::Exit,
            Command::MoveNorth => {
                if !self.is_game_over {
                    if !self.snake.direction.is_opposite(Direction::North) {
                        self.snake.direction = Direction::North;
                    }
                } else {
                    self.current_selection = MenuSelection::Restart;
                }
                CommandOutcome::Continue
            },
            Command::MoveSouth => {
                if !self.is_game_over {
                    if !self.snake.direction.is_opposite(Direction::South) {
                        self.snake.direction = Direction::South;
                    }
                } else {
                    self.current_selection = MenuSelection::Exit;
                }
                CommandOutcome::Continue
            },
            Command::MoveEast => {
                if !self.is_game_over {
                    if !self.snake.direction.is_opposite(Direction::East) {
                        self.snake.direction = Direction::East;
                    }
                }
                CommandOutcome::Continue
            },
            Command::MoveWest => {
                if !self.is_game_over {
                    if !self.snake.direction.is_opposite(Direction::West) {
                        self.snake.direction = Direction::West;
                    }
                }
                CommandOutcome::Continue
            },
            Command::Confirm => {
                if self.is_game_over {
                    match self.current_selection {
                        MenuSelection::Exit => CommandOutcome::Exit,
                        MenuSelection::Restart => {
                            let food = random_position(self.width, self.height);
                            self.score = 0;
                            self.is_game_over = false;
                            self.current_selection = MenuSelection::Restart;
                            self.snake = Snake::default();
                            self.food = food;
                            CommandOutcome::Restarted
                        },
                    }
                } else {
                    CommandOutcome::Continue
                }
            },
        }
    }

    /// One tick, with the food cell that will be placed should the
    /// current one be eaten handed in. While the round is over the
    /// state is untouched and the menu frame is rendered; otherwise the
    /// actor advances as `tick_moves_to` says and the matching frame is
    /// rendered.
    pub fn tick_with_food(&mut self, next_food: Vector2D) -> (draws: Vec<Draw>)
        requires
            old(self).well_formed(),
            next_food.in_bounds(old(self).width, old(self).height),
            old(self).score < 0xFFFFFFFFu32,
            old(self).snake.size < 0xFFFFu16,
        ensures
            final(self).well_formed(),
            old(self).is_game_over ==> *final(self) == *old(self) && draws@ == menu_draws(
                old(self).width,
                old(self).height,
                old(self).current_selection,
            ),
            !old(self).is_game_over ==> tick_moves_to(*old(self), *final(self), next_food)
                && draws@ == spec_tick_draws(*old(self), next_food),
    {
        let ghost pre = *self;
        if self.is_game_over {
            return menu_render(self.width, self.height, self.current_selection);
        }
        let outcome = self.snake.advance(self.width, self.height);
        let mut draws: Vec<Draw> = Vec::new();
        match outcome {
            AdvanceOutcome::Collision => {
                self.is_game_over = true;
                self.current_selection = MenuSelection::Restart;
                draws.push(Draw::Alert);
                draws.push(Draw::PutGlyph(self.snake.position, Glyph::Fatal));
                proof {
                    assert(draws@ =~= spec_tick_draws(pre, next_food));
                }
            },
            AdvanceOutcome::Moved { evicted } => {
                if self.snake.position == self.food {
                    self.score = self.score + 1;
                    self.snake.grow();
                    self.food = next_food;
                }
                if let Some(t) = evicted {
                    draws.push(Draw::ClearCell(t));
                }
                let anchor = score_position(self.width, self.score);
                draws.push(Draw::PutText(anchor, Label::Score(self.score)));
                draws.push(Draw::PutGlyph(self.snake.position, Glyph::Head));
                draws.push(Draw::PutGlyph(self.food, Glyph::Food));
                proof {
                    assert(draws@ =~= spec_tick_draws(pre, next_food));
                }
            },
        }
        draws
    }

    /// One tick with the next food cell drawn from the random source:
    /// the same transition as `tick_with_food` for some in-bounds cell.
    pub fn tick(&mut self) -> (draws: Vec<Draw>)
        requires
            old(self).well_formed(),
            old(self).score < 0xFFFFFFFFu32,
            old(self).snake.size < 0xFFFFu16,
        ensures
            final(self).well_formed(),
            final(self).width == old(self).width,
            final(self).height == old(self).height,
            old(self).is_game_over ==> *final(self) == *old(self) && draws@ == menu_draws(
                old(self).width,
                old(self).height,
                old(self).current_selection,
            ),
            !old(self).is_game_over ==> (exists|f: Vector2D|
                #![auto]
                f.in_bounds(old(self).width, old(self).height) && tick_moves_to(
                    *old(self),
                    *final(self),
                    f,
                ) && draws@ == spec_tick_draws(*old(self), f)),
    {
        let ghost pre = *self;
        let f = random_position(self.width, self.height);
        let draws = self.tick_with_food(f);
        proof {
            if !pre.is_game_over {
                assert(f.in_bounds(pre.width, pre.height) && tick_moves_to(pre, *self, f)
                    && draws@ == spec_tick_draws(pre, f));
            }
        }
        draws
    }
}

} // verus!
