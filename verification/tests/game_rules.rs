use life_war::Action;
use life_war::ActionError;
use life_war::Cell;
use life_war::EvolutionStats;
use life_war::Game;
use life_war::GameConfig;
use life_war::GameError;
use life_war::GamePhase;
use life_war::GameStatus;
use life_war::Player;
use life_war::Point;
use life_war::MAX_BOARD_SIZE;
use life_war::MIN_BOARD_SIZE;

fn place(x: u8, y: u8, color: Player) -> Action {
    Action::Place { point: Point::new(x, y), color }
}

fn game_of(size: u8) -> Game {
    Game::new(GameConfig::new(size).unwrap())
}

fn play(game: &mut Game, actions: &[Action]) {
    for action in actions {
        game.apply(*action).unwrap();
    }
}

#[test]
fn config_accepts_odd_sizes_in_range() {
    assert_eq!(MIN_BOARD_SIZE, 5);
    assert_eq!(MAX_BOARD_SIZE, 31);
    for size in [5u8, 7, 15, 29, 31] {
        assert_eq!(GameConfig::new(size), Ok(GameConfig { size }));
    }
}

#[test]
fn config_refuses_even_or_out_of_range_sizes() {
    for size in [0u8, 1, 3, 4, 6, 16, 30, 32, 33, 255] {
        assert_eq!(GameConfig::new(size), Err(GameError::InvalidSize(size)));
    }
}

#[test]
fn default_config_and_game_use_fifteen() {
    assert_eq!(GameConfig::default(), GameConfig { size: 15 });
    let game = Game::default();
    assert_eq!(game.size(), 15);
    assert_eq!(game.board().len(), 225);
}

#[test]
fn new_game_starts_empty_in_layout_with_black() {
    let game = game_of(5);
    assert_eq!(game.size(), 5);
    assert_eq!(game.board().len(), 25);
    assert!(game.board().iter().all(|cell| *cell == Cell::Empty));
    assert_eq!(game.phase(), GamePhase::Layout);
    assert_eq!(game.current_player(), Player::Black);
    assert_eq!(game.consecutive_passes(), 0);
    assert_eq!(game.generation(), 0);
    assert_eq!(game.status(), GameStatus::Playing);
    assert_eq!(game.counts(), (0, 0));
}

#[test]
fn players_and_cells_correspond() {
    assert_eq!(Player::Black.other(), Player::White);
    assert_eq!(Player::White.other(), Player::Black);
    assert_eq!(Player::Black.cell(), Cell::Black);
    assert_eq!(Player::White.cell(), Cell::White);
    assert_eq!(Cell::Black.player(), Some(Player::Black));
    assert_eq!(Cell::White.player(), Some(Player::White));
    assert_eq!(Cell::Empty.player(), None);
    assert_eq!(Cell::default(), Cell::Empty);
    for player in [Player::Black, Player::White] {
        assert_eq!(player.other().other(), player);
        assert_eq!(player.cell().player(), Some(player));
    }
}

#[test]
fn cell_reads_points_and_rejects_points_off_the_board() {
    let mut game = game_of(5);
    play(&mut game, &[place(3, 1, Player::Black)]);
    assert_eq!(game.cell(Point::new(3, 1)), Some(Cell::Black));
    assert_eq!(game.cell(Point::new(1, 3)), Some(Cell::Empty));
    assert_eq!(game.cell(Point::new(5, 0)), None);
    assert_eq!(game.cell(Point::new(0, 5)), None);
    assert_eq!(game.board()[1 * 5 + 3], Cell::Black);
}

#[test]
fn layout_placement_switches_player_and_keeps_generation() {
    let mut game = game_of(5);
    let result = game.apply(place(0, 0, Player::Black)).unwrap();
    assert_eq!(result.action, place(0, 0, Player::Black));
    assert_eq!(result.phase_before, GamePhase::Layout);
    assert_eq!(result.phase_after, GamePhase::Layout);
    assert_eq!(result.generation, 0);
    assert_eq!(result.evolution, None);
    assert_eq!(result.status, GameStatus::Playing);
    assert_eq!(game.current_player(), Player::White);
    assert_eq!(game.counts(), (1, 0));
}

#[test]
fn layout_regions_share_the_middle_row() {
    let game = game_of(5);
    assert!(game.can_place(Point::new(2, 0), Player::Black));
    assert!(game.can_place(Point::new(2, 2), Player::Black));
    assert!(!game.can_place(Point::new(2, 3), Player::Black));
    let mut game = game_of(5);
    assert_eq!(game.apply(place(2, 3, Player::Black)), Err(ActionError::OutsidePlayerRegion(Point::new(2, 3))));
    play(&mut game, &[place(0, 0, Player::Black)]);
    assert!(game.can_place(Point::new(2, 2), Player::White));
    assert!(game.can_place(Point::new(2, 4), Player::White));
    assert!(!game.can_place(Point::new(2, 1), Player::White));
    assert_eq!(game.apply(place(2, 1, Player::White)), Err(ActionError::OutsidePlayerRegion(Point::new(2, 1))));
}

#[test]
fn refused_actions_leave_the_game_unchanged() {
    let mut game = game_of(5);
    play(&mut game, &[place(1, 1, Player::Black)]);
    let before = game.clone();
    assert_eq!(game.apply(place(1, 3, Player::Black)), Err(ActionError::WrongLayoutColor));
    assert_eq!(game.apply(place(5, 4, Player::White)), Err(ActionError::PointOutOfBounds(Point::new(5, 4))));
    assert_eq!(game.apply(place(4, 5, Player::White)), Err(ActionError::PointOutOfBounds(Point::new(4, 5))));
    assert_eq!(game.apply(place(1, 1, Player::White)), Err(ActionError::PointOccupied(Point::new(1, 1))));
    assert_eq!(game, before);
}

#[test]
fn can_place_agrees_with_apply() {
    let mut game = game_of(7);
    play(&mut game, &[place(3, 3, Player::Black), place(3, 4, Player::White)]);
    for y in 0..8u8 {
        for x in 0..8u8 {
            for color in [Player::Black, Player::White] {
                let mut copy = game.clone();
                assert_eq!(game.can_place(Point::new(x, y), color), copy.apply(place(x, y, color)).is_ok());
            }
        }
    }
}

#[test]
fn one_pass_hands_over_two_passes_start_action() {
    let mut game = game_of(5);
    play(&mut game, &[place(0, 0, Player::Black), place(0, 4, Player::White)]);
    let first = game.apply(Action::Pass).unwrap();
    assert_eq!(first.phase_after, GamePhase::Layout);
    assert_eq!(game.consecutive_passes(), 1);
    assert_eq!(game.current_player(), Player::White);
    let second = game.apply(Action::Pass).unwrap();
    assert_eq!(second.phase_before, GamePhase::Layout);
    assert_eq!(second.phase_after, GamePhase::Action);
    assert_eq!(second.evolution, None);
    assert_eq!(second.generation, 0);
    assert_eq!(game.phase(), GamePhase::Action);
    assert_eq!(game.current_player(), Player::Black);
    assert_eq!(game.consecutive_passes(), 0);
    assert_eq!(game.status(), GameStatus::Playing);
}

#[test]
fn a_placement_between_passes_resets_the_count() {
    let mut game = game_of(5);
    play(&mut game, &[Action::Pass, place(0, 4, Player::White)]);
    assert_eq!(game.consecutive_passes(), 0);
    play(&mut game, &[Action::Pass]);
    assert_eq!(game.phase(), GamePhase::Layout);
    assert_eq!(game.consecutive_passes(), 1);
}

#[test]
fn passing_is_refused_in_the_action_phase() {
    let mut game = game_of(5);
    play(&mut game, &[place(0, 0, Player::Black), place(0, 4, Player::White), Action::Pass, Action::Pass]);
    let before = game.clone();
    assert_eq!(game.apply(Action::Pass), Err(ActionError::PassNotAllowed));
    assert_eq!(game, before);
}

#[test]
fn empty_layout_is_a_draw_and_finished_games_refuse_actions() {
    let mut game = game_of(5);
    let result = game.apply(Action::Pass).unwrap();
    assert_eq!(result.status, GameStatus::Playing);
    let result = game.apply(Action::Pass).unwrap();
    assert_eq!(result.status, GameStatus::Draw);
    assert_eq!(game.status(), GameStatus::Draw);
    assert_eq!(game.apply(Action::Pass), Err(ActionError::GameFinished));
    assert_eq!(game.apply(place(0, 0, Player::Black)), Err(ActionError::GameFinished));
    assert!(!game.can_place(Point::new(0, 0), Player::Black));
}

#[test]
fn only_one_color_laid_out_wins_at_once() {
    let mut game = game_of(5);
    play(&mut game, &[place(0, 0, Player::Black), Action::Pass, Action::Pass]);
    assert_eq!(game.status(), GameStatus::Won(Player::Black));
    let mut game = game_of(5);
    play(&mut game, &[Action::Pass, place(0, 4, Player::White), Action::Pass, Action::Pass]);
    assert_eq!(game.status(), GameStatus::Won(Player::White));
}

#[test]
fn still_life_block_survives_and_lonely_stones_die() {
    let mut game = game_of(7);
    // Black lays out a 2x2 block in the top rows, White a lone stone at the bottom.
    play(
        &mut game,
        &[
            place(1, 0, Player::Black),
            place(6, 6, Player::White),
            place(2, 0, Player::Black),
            Action::Pass,
            place(1, 1, Player::Black),
            Action::Pass,
            place(2, 1, Player::Black),
            place(6, 4, Player::White),
            Action::Pass,
            Action::Pass,
        ],
    );
    assert_eq!(game.phase(), GamePhase::Action);
    assert_eq!(game.counts(), (4, 2));
    // Black places far away: the new stone and both white stones die, the block lives.
    let result = game.apply(place(5, 0, Player::Black)).unwrap();
    assert_eq!(result.generation, 1);
    assert_eq!(
        result.evolution,
        Some(EvolutionStats { born_black: 0, born_white: 0, died_black: 1, died_white: 2 })
    );
    assert_eq!(result.status, GameStatus::Won(Player::Black));
    assert_eq!(game.counts(), (4, 0));
    for (x, y) in [(1u8, 0u8), (2, 0), (1, 1), (2, 1)] {
        assert_eq!(game.cell(Point::new(x, y)), Some(Cell::Black));
    }
    assert_eq!(game.cell(Point::new(5, 0)), Some(Cell::Empty));
    // The winner does not change hands.
    assert_eq!(game.current_player(), Player::Black);
    assert_eq!(game.apply(place(4, 4, Player::Black)), Err(ActionError::GameFinished));
}

#[test]
fn an_empty_point_is_born_to_the_color_leading_by_three() {
    let mut game = game_of(7);
    // Black: three stones in a row at y = 2; White: one stone far below.
    play(
        &mut game,
        &[
            place(1, 2, Player::Black),
            place(6, 6, Player::White),
            place(2, 2, Player::Black),
            place(0, 6, Player::White),
            place(3, 2, Player::Black),
            Action::Pass,
            Action::Pass,
        ],
    );
    assert_eq!(game.phase(), GamePhase::Action);
    // A blinker: (2,1) and (2,3) are born, (1,2) and (3,2) die; Black's extra stone dies.
    let result = game.apply(place(6, 0, Player::Black)).unwrap();
    assert_eq!(
        result.evolution,
        Some(EvolutionStats { born_black: 2, born_white: 0, died_black: 3, died_white: 2 })
    );
    assert_eq!(result.status, GameStatus::Won(Player::Black));
    assert_eq!(game.cell(Point::new(2, 1)), Some(Cell::Black));
    assert_eq!(game.cell(Point::new(2, 2)), Some(Cell::Black));
    assert_eq!(game.cell(Point::new(2, 3)), Some(Cell::Black));
    assert_eq!(game.cell(Point::new(1, 2)), Some(Cell::Empty));
    assert_eq!(game.cell(Point::new(3, 2)), Some(Cell::Empty));
    assert_eq!(game.counts(), (3, 0));
}

#[test]
fn opposing_stones_cancel_out_in_the_neighbor_difference() {
    let mut game = game_of(7);
    // Around (3,3): black at (2,2),(3,2),(4,2) and white at (2,4); the difference is two.
    play(
        &mut game,
        &[
            place(2, 2, Player::Black),
            place(2, 4, Player::White),
            place(3, 2, Player::Black),
            Action::Pass,
            place(4, 2, Player::Black),
            Action::Pass,
            Action::Pass,
        ],
    );
    game.apply(place(0, 0, Player::Black)).unwrap();
    // Without the white stone (3,3) would be born black; with it the difference is two.
    assert_eq!(game.cell(Point::new(3, 3)), Some(Cell::Empty));
    // (3,1) has three black neighbors and no white one: born black.
    assert_eq!(game.cell(Point::new(3, 1)), Some(Cell::Black));
}

#[test]
fn the_turn_changes_hands_after_each_action_turn() {
    let mut game = game_of(9);
    // Two separate blocks, one of each color, survive forever.
    play(
        &mut game,
        &[
            place(0, 0, Player::Black),
            place(0, 7, Player::White),
            place(1, 0, Player::Black),
            place(1, 7, Player::White),
            place(0, 1, Player::Black),
            place(0, 8, Player::White),
            place(1, 1, Player::Black),
            place(1, 8, Player::White),
            Action::Pass,
            Action::Pass,
        ],
    );
    assert_eq!(game.current_player(), Player::Black);
    let result = game.apply(place(6, 3, Player::Black)).unwrap();
    assert_eq!(result.status, GameStatus::Playing);
    assert_eq!(game.current_player(), Player::White);
    assert_eq!(game.generation(), 1);
    // In the action phase any empty point and either color may be chosen.
    let result = game.apply(place(6, 0, Player::Black)).unwrap();
    assert_eq!(result.generation, 2);
    assert_eq!(game.current_player(), Player::Black);
    assert_eq!(game.counts(), (4, 4));
}

fn count(board: &[Cell], cell: Cell) -> i64 {
    board.iter().filter(|c| **c == cell).count() as i64
}

#[test]
fn births_minus_deaths_balance_the_stone_counts() {
    let mut game = game_of(7);
    play(
        &mut game,
        &[
            place(1, 2, Player::Black),
            place(1, 3, Player::White),
            place(2, 2, Player::Black),
            place(2, 4, Player::White),
            place(3, 2, Player::Black),
            place(3, 4, Player::White),
            place(4, 3, Player::Black),
            place(4, 4, Player::White),
            Action::Pass,
            Action::Pass,
        ],
    );
    for (x, y, color) in [(0u8, 0u8, Player::Black), (6, 6, Player::White), (5, 5, Player::Black)] {
        if game.status() != GameStatus::Playing {
            break;
        }
        let mut moved = game.board().to_vec();
        moved[usize::from(y) * 7 + usize::from(x)] = color.cell();
        let result = game.apply(place(x, y, color)).unwrap();
        let stats = result.evolution.unwrap();
        assert_eq!(
            count(game.board(), Cell::Black) + i64::from(stats.died_black),
            count(&moved, Cell::Black) + i64::from(stats.born_black)
        );
        assert_eq!(
            count(game.board(), Cell::White) + i64::from(stats.died_white),
            count(&moved, Cell::White) + i64::from(stats.born_white)
        );
        let (black, white) = game.counts();
        assert_eq!(i64::from(black), count(game.board(), Cell::Black));
        assert_eq!(i64::from(white), count(game.board(), Cell::White));
    }
}

fn swapped(cell: Cell) -> Cell {
    match cell {
        Cell::Empty => Cell::Empty,
        Cell::Black => Cell::White,
        Cell::White => Cell::Black,
    }
}

#[test]
fn evolution_treats_both_colors_alike() {
    // Before the first evolution the second board is the first with colors exchanged.
    let mut first = game_of(7);
    play(
        &mut first,
        &[
            place(2, 3, Player::Black),
            place(4, 3, Player::White),
            Action::Pass,
            place(3, 4, Player::White),
            Action::Pass,
            Action::Pass,
        ],
    );
    let first_result = first.apply(place(3, 3, Player::Black)).unwrap();
    let mut second = game_of(7);
    play(
        &mut second,
        &[
            place(4, 3, Player::Black),
            place(2, 3, Player::White),
            Action::Pass,
            place(3, 3, Player::White),
            Action::Pass,
            Action::Pass,
        ],
    );
    let second_result = second.apply(place(3, 4, Player::Black)).unwrap();
    let expected: Vec<Cell> = first.board().iter().map(|cell| swapped(*cell)).collect();
    assert_eq!(second.board(), expected.as_slice());
    let a = first_result.evolution.unwrap();
    let b = second_result.evolution.unwrap();
    assert_eq!((a.born_black, a.died_black), (b.born_white, b.died_white));
    assert_eq!((a.born_white, a.died_white), (b.born_black, b.died_black));
}

#[test]
fn evolution_stats_default_is_zero() {
    assert_eq!(
        EvolutionStats::default(),
        EvolutionStats { born_black: 0, born_white: 0, died_black: 0, died_white: 0 }
    );
}

#[test]
fn smallest_and_largest_boards_play() {
    for size in [5u8, 31] {
        let mut game = game_of(size);
        let last = size - 1;
        play(&mut game, &[place(last, 0, Player::Black), place(0, last, Player::White), Action::Pass, Action::Pass]);
        let result = game.apply(place(last, last / 2, Player::Black)).unwrap();
        assert_eq!(result.status, GameStatus::Draw);
        assert_eq!(game.counts(), (0, 0));
    }
}

#[test]
fn a_game_on_any_byte_size_is_consistent() {
    // Games may be made from configurations that `GameConfig::new` would refuse.
    let game = Game::new(GameConfig { size: 0 });
    assert_eq!(game.board().len(), 0);
    assert_eq!(game.cell(Point::new(0, 0)), None);
    let mut game = Game::new(GameConfig { size: 4 });
    assert_eq!(game.board().len(), 16);
    // The middle row of an even board is row two.
    assert!(game.can_place(Point::new(0, 2), Player::Black));
    assert!(!game.can_place(Point::new(0, 3), Player::Black));
    play(&mut game, &[Action::Pass, Action::Pass]);
    assert_eq!(game.status(), GameStatus::Draw);
}

#[test]
fn every_reached_state_keeps_the_layout_rules() {
    // A fixed pseudo-random walk of actions, accepted or refused.
    let mut state: u32 = 12345;
    let mut game = game_of(7);
    for _ in 0..400 {
        state = state.wrapping_mul(1103515245).wrapping_add(12345);
        let roll = (state >> 16) % 64;
        let action = if roll < 6 {
            Action::Pass
        } else {
            let x = ((state >> 8) % 8) as u8;
            let y = ((state >> 12) % 8) as u8;
            let color = if roll % 2 == 0 { Player::Black } else { Player::White };
            place(x, y, color)
        };
        let _ = game.apply(action);
        assert_eq!(game.size(), 7);
        assert_eq!(game.board().len(), 49);
        match game.phase() {
            GamePhase::Layout => {
                assert_eq!(game.generation(), 0);
                assert_eq!(game.status(), GameStatus::Playing);
                assert!(game.consecutive_passes() <= 1);
                for (index, cell) in game.board().iter().enumerate() {
                    let row = index / 7;
                    match cell {
                        Cell::Black => assert!(row <= 3),
                        Cell::White => assert!(row >= 3),
                        Cell::Empty => {}
                    }
                }
            }
            GamePhase::Action => assert_eq!(game.consecutive_passes(), 0),
        }
    }
}

fn cells_of(game: &Game) -> Vec<Cell> {
    game.board().to_vec()
}

#[test]
fn evolution_commutes_with_mirroring_left_to_right() {
    let n = 7u8;
    let stones = [(0u8, 2u8, Player::Black), (4, 4, Player::White), (1, 2, Player::Black), (5, 4, Player::White), (1, 1, Player::Black), (5, 5, Player::White)];
    let mirrored: Vec<(u8, u8, Player)> = stones.iter().map(|(x, y, c)| (n - 1 - x, *y, *c)).collect();
    let mut first = game_of(n);
    let mut second = game_of(n);
    for ((x, y, c), (mx, my, mc)) in stones.iter().zip(mirrored.iter()) {
        first.apply(place(*x, *y, *c)).unwrap();
        second.apply(place(*mx, *my, *mc)).unwrap();
    }
    play(&mut first, &[Action::Pass, Action::Pass]);
    play(&mut second, &[Action::Pass, Action::Pass]);
    let a = first.apply(place(2, 2, Player::Black)).unwrap();
    let b = second.apply(place(n - 1 - 2, 2, Player::Black)).unwrap();
    assert_eq!(a.evolution, b.evolution);
    let left = cells_of(&first);
    let right = cells_of(&second);
    let size = usize::from(n);
    for y in 0..size {
        for x in 0..size {
            assert_eq!(right[y * size + x], left[y * size + (size - 1 - x)]);
        }
    }
}

#[test]
fn evolution_commutes_with_transposing() {
    let n = 7u8;
    let stones = [(1u8, 1u8, Player::Black), (4, 5, Player::White), (2, 1, Player::Black), (5, 5, Player::White), (2, 2, Player::Black), (5, 4, Player::White)];
    let mut first = game_of(n);
    let mut second = game_of(n);
    for (x, y, c) in stones {
        first.apply(place(x, y, c)).unwrap();
        second.apply(place(y, x, c)).unwrap();
    }
    play(&mut first, &[Action::Pass, Action::Pass]);
    play(&mut second, &[Action::Pass, Action::Pass]);
    let a = first.apply(place(0, 5, Player::White)).unwrap();
    let b = second.apply(place(5, 0, Player::White)).unwrap();
    assert_eq!(a.evolution, b.evolution);
    let left = cells_of(&first);
    let right = cells_of(&second);
    let size = usize::from(n);
    for y in 0..size {
        for x in 0..size {
            assert_eq!(right[y * size + x], left[x * size + y]);
        }
    }
}
