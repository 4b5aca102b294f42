use snake_game::geometry::Direction;
use snake_game::geometry::Vector2D;
use snake_game::history::History;
use snake_game::rng::random_position;
use snake_game::snake::Snake;
use snake_game::state::decimal_digits;
use snake_game::state::menu_render;
use snake_game::state::score_position;
use snake_game::state::Command;
use snake_game::state::CommandOutcome;
use snake_game::state::Draw;
use snake_game::state::GameState;
use snake_game::state::Glyph;
use snake_game::state::Label;
use snake_game::state::MenuSelection;

fn cell(x: u16, y: u16) -> Vector2D {
    Vector2D { x, y }
}

#[test]
fn reversal_commands_are_rejected_while_playing() {
    let mut s = GameState::new(10, 10, cell(5, 5));
    assert_eq!(s.snake.direction, Direction::East);
    // West is the reverse of East: rejected, heading unchanged.
    assert_eq!(s.handle_command(Command::MoveWest), CommandOutcome::Continue);
    assert_eq!(s.snake.direction, Direction::East);
    // North is fine.
    assert_eq!(s.handle_command(Command::MoveNorth), CommandOutcome::Continue);
    assert_eq!(s.snake.direction, Direction::North);
    // South is now the reverse: rejected, heading remains North.
    assert_eq!(s.handle_command(Command::MoveSouth), CommandOutcome::Continue);
    assert_eq!(s.snake.direction, Direction::North);
    // A quarter turn is fine again.
    assert_eq!(s.handle_command(Command::MoveWest), CommandOutcome::Continue);
    assert_eq!(s.snake.direction, Direction::West);
    assert_eq!(s.handle_command(Command::MoveEast), CommandOutcome::Continue);
    assert_eq!(s.snake.direction, Direction::West);
}

#[test]
fn menu_selection_moves_and_clamps() {
    let mut s = GameState::new(10, 10, cell(5, 5));
    s.is_game_over = true;
    assert_eq!(s.current_selection, MenuSelection::Restart);
    assert_eq!(s.handle_command(Command::MoveSouth), CommandOutcome::Continue);
    assert_eq!(s.current_selection, MenuSelection::Exit);
    // Only two options and no wraparound: a further South stays on Exit.
    assert_eq!(s.handle_command(Command::MoveSouth), CommandOutcome::Continue);
    assert_eq!(s.current_selection, MenuSelection::Exit);
    assert_eq!(s.handle_command(Command::MoveNorth), CommandOutcome::Continue);
    assert_eq!(s.current_selection, MenuSelection::Restart);
    assert_eq!(s.handle_command(Command::MoveNorth), CommandOutcome::Continue);
    assert_eq!(s.current_selection, MenuSelection::Restart);
    // East and West do not touch the menu.
    assert_eq!(s.handle_command(Command::MoveEast), CommandOutcome::Continue);
    assert_eq!(s.handle_command(Command::MoveWest), CommandOutcome::Continue);
    assert_eq!(s.current_selection, MenuSelection::Restart);
}

#[test]
fn abort_exits_from_any_state() {
    let mut playing = GameState::new(10, 10, cell(5, 5));
    assert_eq!(playing.handle_command(Command::Abort), CommandOutcome::Exit);
    let mut over = GameState::new(10, 10, cell(5, 5));
    over.is_game_over = true;
    assert_eq!(over.handle_command(Command::Abort), CommandOutcome::Exit);
}

#[test]
fn confirm_acts_only_on_the_menu() {
    let mut s = GameState::new(10, 10, cell(5, 5));
    // While playing, Confirm does nothing.
    assert_eq!(s.handle_command(Command::Confirm), CommandOutcome::Continue);
    assert_eq!(s.score, 0);
    assert!(!s.is_game_over);
    s.is_game_over = true;
    s.current_selection = MenuSelection::Exit;
    assert_eq!(s.handle_command(Command::Confirm), CommandOutcome::Exit);
}

#[test]
fn confirm_on_restart_resets_the_round() {
    let mut s = GameState::new(10, 10, cell(5, 5));
    s.score = 7;
    s.is_game_over = true;
    s.snake.position = cell(4, 4);
    assert_eq!(s.handle_command(Command::Confirm), CommandOutcome::Restarted);
    assert_eq!(s.score, 0);
    assert!(!s.is_game_over);
    assert_eq!(s.current_selection, MenuSelection::Restart);
    assert_eq!(s.snake.size, 1);
    assert_eq!(s.snake.position, cell(0, 0));
    assert_eq!(s.snake.direction, Direction::East);
    assert!(s.food.x < 10 && s.food.y < 10);
}

#[test]
fn growth_scenario_scores_grows_and_keeps_the_old_head() {
    // Food sits on the actor's next head cell.
    let mut s = GameState::new(10, 10, cell(1, 0));
    let draws = s.tick_with_food(cell(5, 5));
    assert_eq!(s.score, 1);
    assert_eq!(s.snake.size, 2);
    assert!(!s.is_game_over);
    assert_eq!(s.snake.position, cell(1, 0));
    assert_eq!(s.food, cell(5, 5));
    // The previous head is still tracked: capacity grew before the next
    // push could have evicted it.
    assert!(s.snake.history.contains(&cell(0, 0)));
    // Capacity is now 2, observable by eviction timing.
    assert_eq!(s.snake.history.push(cell(9, 9)), None);
    assert_eq!(s.snake.history.push(cell(8, 8)), Some(cell(0, 0)));
    // The frame: score line, head, food; nothing was evicted yet.
    assert_eq!(
        draws,
        vec![
            Draw::PutText(cell(2, 0), Label::Score(1)),
            Draw::PutGlyph(cell(1, 0), Glyph::Head),
            Draw::PutGlyph(cell(5, 5), Glyph::Food),
        ]
    );
}

#[test]
fn plain_move_renders_score_head_and_food() {
    let mut s = GameState::new(10, 10, cell(5, 5));
    let first = s.tick_with_food(cell(7, 7));
    assert_eq!(s.score, 0);
    assert_eq!(s.food, cell(5, 5));
    assert_eq!(
        first,
        vec![
            Draw::PutText(cell(2, 0), Label::Score(0)),
            Draw::PutGlyph(cell(1, 0), Glyph::Head),
            Draw::PutGlyph(cell(5, 5), Glyph::Food),
        ]
    );
    // The second tick evicts the origin from the size-1 body and the
    // frame starts by erasing it.
    let second = s.tick_with_food(cell(7, 7));
    assert_eq!(
        second,
        vec![
            Draw::ClearCell(cell(0, 0)),
            Draw::PutText(cell(2, 0), Label::Score(0)),
            Draw::PutGlyph(cell(2, 0), Glyph::Head),
            Draw::PutGlyph(cell(5, 5), Glyph::Food),
        ]
    );
}

#[test]
fn collision_tick_rings_the_bell_and_marks_the_fatal_cell() {
    let mut history = History::new(3);
    history.push(cell(2, 2));
    history.push(cell(3, 2));
    history.push(cell(3, 3));
    let snake = Snake { size: 3, position: cell(2, 3), direction: Direction::East, history };
    let mut s = GameState {
        width: 10,
        height: 10,
        score: 2,
        is_game_over: false,
        current_selection: MenuSelection::Exit,
        snake,
        food: cell(9, 9),
    };
    let draws = s.tick_with_food(cell(7, 7));
    assert!(s.is_game_over);
    assert_eq!(s.current_selection, MenuSelection::Restart);
    assert_eq!(s.score, 2);
    assert_eq!(draws, vec![Draw::Alert, Draw::PutGlyph(cell(3, 3), Glyph::Fatal)]);
}

#[test]
fn game_over_tick_renders_the_menu_and_keeps_the_state() {
    let mut s = GameState::new(30, 10, cell(5, 5));
    s.is_game_over = true;
    s.score = 4;
    let draws = s.tick_with_food(cell(7, 7));
    assert!(s.is_game_over);
    assert_eq!(s.score, 4);
    assert_eq!(s.food, cell(5, 5));
    assert_eq!(
        draws,
        vec![
            Draw::PutText(cell(9, 4), Label::GameOverTitle),
            Draw::PutText(cell(9, 8), Label::RestartOption),
            Draw::PutText(cell(9, 9), Label::ExitOption),
            Draw::ShowCursor(cell(8, 8)),
        ]
    );
    s.current_selection = MenuSelection::Exit;
    let again = s.tick_with_food(cell(7, 7));
    assert_eq!(again[3], Draw::ShowCursor(cell(8, 9)));
}

#[test]
fn menu_render_clamps_on_a_tiny_grid() {
    let draws = menu_render(5, 1, MenuSelection::Restart);
    assert_eq!(
        draws,
        vec![
            Draw::PutText(cell(0, 0), Label::GameOverTitle),
            Draw::PutText(cell(0, 4), Label::RestartOption),
            Draw::PutText(cell(0, 5), Label::ExitOption),
            Draw::ShowCursor(cell(0, 4)),
        ]
    );
}

#[test]
fn tick_with_random_food_moves_like_any_tick() {
    let mut s = GameState::new(10, 10, cell(5, 5));
    let draws = s.tick();
    assert!(!s.is_game_over);
    assert_eq!(s.snake.position, cell(1, 0));
    assert_eq!(s.score, 0);
    // No food was eaten, so the food cell is untouched.
    assert_eq!(s.food, cell(5, 5));
    assert_eq!(draws.len(), 3);
}

#[test]
fn decimal_digit_counts_are_exact() {
    assert_eq!(decimal_digits(0), 1);
    assert_eq!(decimal_digits(9), 1);
    assert_eq!(decimal_digits(10), 2);
    assert_eq!(decimal_digits(99), 2);
    assert_eq!(decimal_digits(100), 3);
    assert_eq!(decimal_digits(1_000_000_000), 10);
    assert_eq!(decimal_digits(u32::MAX), 10);
}

#[test]
fn score_line_is_right_aligned() {
    // "Score: 0" is 8 characters wide.
    assert_eq!(score_position(80, 0), cell(72, 0));
    assert_eq!(score_position(80, 12), cell(71, 0));
    // A grid narrower than the line pins it to the left edge.
    assert_eq!(score_position(5, 0), cell(0, 0));
}

#[test]
fn random_position_is_always_in_bounds() {
    // On a one-cell grid the only possible sample is the origin: this
    // fails if the sampler ever hands its bound back.
    for _ in 0..32 {
        assert_eq!(random_position(1, 1), cell(0, 0));
    }
    for _ in 0..64 {
        let p = random_position(3, 2);
        assert!(p.x < 3 && p.y < 2);
    }
}
