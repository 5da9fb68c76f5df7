use vstd::prelude::*;

use crate::rules::{
    after_layout_turn, board_index, born_prefix, born_step, count_cells, count_prefix, died_prefix,
    died_step, evolution_stats, evolve_board, evolved_cell, evolves, initial_model,
    lemma_change_prefix_bound, lemma_count_prefix_bound, lemma_index_in_bounds, lemma_point_at,
    lemma_rows_partial_is_neighbor_count, lemma_square_bound, model_wf, neighbor_count, on_board,
    placement_check, point_at, row_partial, rows_partial, status_for, step, valid_board_size,
    GameModel,
};

verus! {

/// Smallest accepted board side.
pub const MIN_BOARD_SIZE: u8 = 5;

/// Largest accepted board side.
pub const MAX_BOARD_SIZE: u8 = 31;

/// A coordinate on the board, `x` the column and `y` the row, both from zero.
#[derive(Debug, Clone, Copy, PartialEq, Eq, Structural)]
pub struct Point {
    pub x: u8,
    pub y: u8,
}

impl Point {
    /// The point in column `x`, row `y`.
    pub fn new(x: u8, y: u8) -> (point: Self)
        ensures
            point == (Point { x, y }),
    {
        Point { x, y }
    }
}

/// One of the two sides.
#[derive(Debug, Clone, Copy, PartialEq, Eq, Structural)]
pub enum Player {
    Black,
    White,
}

impl Player {
    /// The opponent.
    #[verifier::allow_in_spec]
    pub fn other(self) -> Player
        returns
            match self {
                Player::Black => Player::White,
                Player::White => Player::Black,
            },
    {
        match self {
            Player::Black => Player::White,
            Player::White => Player::Black,
        }
    }

    /// The cell that holds a stone of this player.
    #[verifier::allow_in_spec]
    pub fn cell(self) -> Cell
        returns
            match self {
                Player::Black => Cell::Black,
                Player::White => Cell::White,
            },
    {
        match self {
            Player::Black => Cell::Black,
            Player::White => Cell::White,
        }
    }
}

/// The content of one point of the board.
#[derive(Debug, Clone, Copy, PartialEq, Eq, Structural)]
pub enum Cell {
    Empty,
    Black,
    White,
}

impl Default for Cell {
    fn default() -> (cell: Cell)
        ensures
            cell == Cell::Empty,
    {
        Cell::Empty
    }
}

impl Cell {
    /// The owner of the stone in this cell, if any.
    #[verifier::allow_in_spec]
    pub fn player(self) -> Option<Player>
        returns
            match self {
                Cell::Empty => None,
                Cell::Black => Some(Player::Black),
                Cell::White => Some(Player::White),
            },
    {
        match self {
            Cell::Empty => None,
            Cell::Black => Some(Player::Black),
            Cell::White => Some(Player::White),
        }
    }
}


/// Which part of the game is being played.
#[derive(Debug, Clone, Copy, PartialEq, Eq, Structural)]
pub enum GamePhase {
    /// Players alternately lay out stones in their own half of the board.
    Layout,
    /// Each placed stone is followed by one generation of evolution.
    Action,
}

/// Whether the game goes on, and if not, how it ended.
#[derive(Debug, Clone, Copy, PartialEq, Eq, Structural)]
pub enum GameStatus {
    Playing,
    Won(Player),
    Draw,
}

/// What a player does in one turn.
#[derive(Debug, Clone, Copy, PartialEq, Eq, Structural)]
pub enum Action {
    Place { point: Point, color: Player },
    Pass,
}

/// The settings a game is started with.
#[derive(Debug, Clone, Copy, PartialEq, Eq, Structural)]
pub struct GameConfig {
    pub size: u8,
}

impl GameConfig {
    /// A configuration for a board of side `size`, which must be odd and
    /// lie between `MIN_BOARD_SIZE` and `MAX_BOARD_SIZE`.
    pub fn new(size: u8) -> (result: Result<Self, GameError>)
        ensures
            result == (if valid_board_size(size) {
                Ok::<GameConfig, GameError>(GameConfig { size })
            } else {
                Err::<GameConfig, GameError>(GameError::InvalidSize(size))
            }),
    {
        if size < MIN_BOARD_SIZE || size > MAX_BOARD_SIZE || size % 2 == 0 {
            return Err(GameError::InvalidSize(size));
        }
        Ok(GameConfig { size })
    }
}

impl Default for GameConfig {
    fn default() -> (config: Self)
        ensures
            config == (GameConfig { size: 15 }),
    {
        GameConfig { size: 15 }
    }
}

/// Why a configuration was refused.
#[derive(Debug, Clone, Copy, PartialEq, Eq, Structural)]
pub enum GameError {
    InvalidSize(u8),
}

/// Why an action was refused.
#[derive(Debug, Clone, Copy, PartialEq, Eq, Structural)]
pub enum ActionError {
    GameFinished,
    PassNotAllowed,
    PointOutOfBounds(Point),
    PointOccupied(Point),
    WrongLayoutColor,
    OutsidePlayerRegion(Point),
}

/// How many stones of each color appeared and disappeared in one generation.
#[derive(Debug, Clone, Copy, PartialEq, Eq, Structural)]
pub struct EvolutionStats {
    pub born_black: u16,
    pub born_white: u16,
    pub died_black: u16,
    pub died_white: u16,
}

impl Default for EvolutionStats {
    fn default() -> (stats: Self)
        ensures
            stats == (EvolutionStats { born_black: 0, born_white: 0, died_black: 0, died_white: 0 }),
    {
        EvolutionStats { born_black: 0, born_white: 0, died_black: 0, died_white: 0 }
    }
}

/// What one accepted action did.
#[derive(Debug, Clone, Copy, PartialEq, Eq, Structural)]
pub struct TurnResult {
    pub action: Action,
    pub phase_before: GamePhase,
    pub phase_after: GamePhase,
    pub generation: u32,
    pub evolution: Option<EvolutionStats>,
    pub status: GameStatus,
}

/// A game in progress.
#[derive(Debug, PartialEq, Eq)]
pub struct Game {
    config: GameConfig,
    board: Vec<Cell>,
    phase: GamePhase,
    current_player: Player,
    consecutive_passes: u8,
    generation: u32,
    status: GameStatus,
}

impl View for Game {
    type V = GameModel;

    closed spec fn view(&self) -> GameModel {
        GameModel {
            size: self.config.size,
            board: self.board@,
            phase: self.phase,
            current_player: self.current_player,
            consecutive_passes: self.consecutive_passes,
            generation: self.generation,
            status: self.status,
        }
    }
}

impl Default for Game {
    fn default() -> (game: Self)
        ensures
            game.wf(),
            game@ == initial_model(15),
    {
        Game::new(GameConfig::default())
    }
}

impl Clone for Game {
    fn clone(&self) -> (copy: Self)
        ensures
            copy@ == self@,
    {
        let mut board: Vec<Cell> = Vec::new();
        let mut index: usize = 0;
        while index < self.board.len()
            invariant
                index <= self.board.len(),
                board@ == self.board@.take(index as int),
            decreases self.board.len() - index,
        {
            board.push(self.board[index]);
            index = index + 1;
            assert(board@ =~= self.board@.take(index as int));
        }
        assert(board@ =~= self.board@);
        Game {
            config: self.config,
            board,
            phase: self.phase,
            current_player: self.current_player,
            consecutive_passes: self.consecutive_passes,
            generation: self.generation,
            status: self.status,
        }
    }
}

impl Game {
    /// The board holds exactly one cell for each point.
    pub open spec fn wf(&self) -> bool {
        model_wf(self@)
    }

    /// A fresh game on an empty board: layout phase, Black to move.
    pub fn new(config: GameConfig) -> (game: Self)
        ensures
            game.wf(),
            game@ == initial_model(config.size),
    {
        proof {
            lemma_square_bound(config.size);
        }
        let point_count: usize = (config.size as usize) * (config.size as usize);
        let mut board: Vec<Cell> = Vec::new();
        while board.len() < point_count
            invariant
                board.len() <= point_count,
                forall|i: int| 0 <= i < board.len() ==> board@[i] == Cell::Empty,
            decreases point_count - board.len(),
        {
            board.push(Cell::Empty);
        }
        assert(board@ =~= Seq::new(point_count as nat, |i: int| Cell::Empty));
        Game {
            config,
            board,
            phase: GamePhase::Layout,
            current_player: Player::Black,
            consecutive_passes: 0,
            generation: 0,
            status: GameStatus::Playing,
        }
    }

    /// The side of the board.
    pub fn size(&self) -> (size: u8)
        ensures
            size == self@.size,
    {
        self.config.size
    }

    /// The cells row by row: the cell of (x, y) is at y * size + x.
    pub fn board(&self) -> (board: &[Cell])
        ensures
            board@ == self@.board,
    {
        self.board.as_slice()
    }

    /// The current phase.
    pub fn phase(&self) -> (phase: GamePhase)
        ensures
            phase == self@.phase,
    {
        self.phase
    }

    /// The player to move.
    pub fn current_player(&self) -> (player: Player)
        ensures
            player == self@.current_player,
    {
        self.current_player
    }

    /// How many passes in a row were just made during layout.
    pub fn consecutive_passes(&self) -> (passes: u8)
        ensures
            passes == self@.consecutive_passes,
    {
        self.consecutive_passes
    }

    /// How many generations the board has evolved.
    pub fn generation(&self) -> (generation: u32)
        ensures
            generation == self@.generation,
    {
        self.generation
    }

    /// Whether the game goes on.
    pub fn status(&self) -> (status: GameStatus)
        ensures
            status == self@.status,
    {
        self.status
    }

    /// The content of `point`, or `None` off the board.
    pub fn cell(&self, point: Point) -> (cell: Option<Cell>)
        requires
            self.wf(),
        ensures
            cell == (if on_board(self@.size, point) {
                Some(self@.board[board_index(self@.size, point)])
            } else {
                None
            }),
    {
        match self.index(point) {
            Some(index) => Some(self.board[index]),
            None => None,
        }
    }

    /// The number of black and of white stones on the board.
    pub fn counts(&self) -> (counts: (u16, u16))
        requires
            self.wf(),
        ensures
            counts.0 == count_cells(self@.board, Cell::Black),
            counts.1 == count_cells(self@.board, Cell::White),
    {
        let mut black: u16 = 0;
        let mut white: u16 = 0;
        let mut index: usize = 0;
        proof {
            lemma_square_bound(self.config.size);
        }
        while index < self.board.len()
            invariant
                self.wf(),
                self.board.len() <= 65025,
                index <= self.board.len(),
                black == count_prefix(self.board@, Cell::Black, index as int),
                white == count_prefix(self.board@, Cell::White, index as int),
            decreases self.board.len() - index,
        {
            proof {
                lemma_count_prefix_bound(self.board@, Cell::Black, index as int);
                lemma_count_prefix_bound(self.board@, Cell::White, index as int);
            }
            match self.board[index] {
                Cell::Black => black = black + 1,
                Cell::White => white = white + 1,
                Cell::Empty => {},
            }
            index = index + 1;
        }
        (black, white)
    }

    /// Whether `color` may place a stone at `point` now.
    pub fn can_place(&self, point: Point, color: Player) -> (allowed: bool)
        requires
            self.wf(),
        ensures
            allowed == (placement_check(self@, point, color) is Ok),
    {
        self.validate_place(point, color).is_ok()
    }

    fn validate_place(&self, point: Point, color: Player) -> (result: Result<(), ActionError>)
        requires
            self.wf(),
        ensures
            result == placement_check(self@, point, color),
    {
        if self.status != GameStatus::Playing {
            return Err(ActionError::GameFinished);
        }
        let index = match self.index(point) {
            Some(index) => index,
            None => return Err(ActionError::PointOutOfBounds(point)),
        };
        if self.board[index] != Cell::Empty {
            return Err(ActionError::PointOccupied(point));
        }
        if self.phase == GamePhase::Layout {
            if color != self.current_player {
                return Err(ActionError::WrongLayoutColor);
            }
            let middle = self.config.size / 2;
            let inside_region = match self.current_player {
                Player::Black => point.y <= middle,
                Player::White => point.y >= middle,
            };
            if !inside_region {
                return Err(ActionError::OutsidePlayerRegion(point));
            }
        }
        Ok(())
    }

    /// Perform `action` for the player to move.  A refused action leaves the
    /// game as it was.
    pub fn apply(&mut self, action: Action) -> (result: Result<TurnResult, ActionError>)
        requires
            old(self).wf(),
            evolves(old(self)@, action) ==> old(self)@.generation < u32::MAX,
        ensures
            final(self).wf(),
            match step(old(self)@, action) {
                Ok(outcome) => result == Ok::<TurnResult, ActionError>(outcome.1) && final(self)@
                    == outcome.0,
                Err(e) => result == Err::<TurnResult, ActionError>(e) && final(self)@ == old(self)@,
            },
    {
        if self.status != GameStatus::Playing {
            return Err(ActionError::GameFinished);
        }
        let phase_before = self.phase;
        match action {
            Action::Place { point, color } => {
                match self.validate_place(point, color) {
                    Ok(()) => {},
                    Err(error) => return Err(error),
                }
                let index = self.index(point).unwrap();
                self.board.set(index, color.cell());
                self.consecutive_passes = 0;
            },
            Action::Pass => {
                if self.phase != GamePhase::Layout {
                    return Err(ActionError::PassNotAllowed);
                }
                self.consecutive_passes = self.consecutive_passes.saturating_add(1);
            },
        }
        let evolution = match phase_before {
            GamePhase::Layout => {
                self.finish_layout_turn();
                None
            },
            GamePhase::Action => {
                let stats = self.evolve();
                self.generation = self.generation + 1;
                self.update_status();
                if self.status == GameStatus::Playing {
                    self.current_player = self.current_player.other();
                }
                Some(stats)
            },
        };
        Ok(
            TurnResult {
                action,
                phase_before,
                phase_after: self.phase,
                generation: self.generation,
                evolution,
                status: self.status,
            },
        )
    }

    fn finish_layout_turn(&mut self)
        requires
            old(self).wf(),
        ensures
            final(self).wf(),
            final(self)@ == after_layout_turn(old(self)@),
    {
        if self.consecutive_passes >= 2 {
            self.phase = GamePhase::Action;
            self.current_player = Player::Black;
            self.consecutive_passes = 0;
            self.update_status();
        } else {
            self.current_player = self.current_player.other();
        }
    }

    fn update_status(&mut self)
        requires
            old(self).wf(),
        ensures
            final(self).wf(),
            final(self)@ == (GameModel { status: status_for(old(self)@.board), ..old(self)@ }),
    {
        let (black, white) = self.counts();
        self.status = if black == 0 && white == 0 {
            GameStatus::Draw
        } else if black == 0 {
            GameStatus::Won(Player::White)
        } else if white == 0 {
            GameStatus::Won(Player::Black)
        } else {
            GameStatus::Playing
        };
    }

    fn evolve(&mut self) -> (stats: EvolutionStats)
        requires
            old(self).wf(),
        ensures
            final(self).wf(),
            final(self)@ == (GameModel {
                board: evolve_board(old(self)@.board, old(self)@.size as int),
                ..old(self)@
            }),
            stats == evolution_stats(old(self)@.board, final(self)@.board),
    {
        let n = self.board.len();
        let ghost s = self.config.size as int;
        let ghost before = self.board@;
        let ghost after = evolve_board(before, s);
        let mut next: Vec<Cell> = Vec::new();
        let mut stats = EvolutionStats::default();
        let mut index: usize = 0;
        proof {
            lemma_square_bound(self.config.size);
        }
        while index < n
            invariant
                self.wf(),
                self.board@ == before,
                n == before.len(),
                n <= 65025,
                index <= n,
                s == self.config.size as int,
                after == evolve_board(before, s),
                next@.len() == index,
                forall|j: int| 0 <= j < index ==> next@[j] == after[j],
                stats.born_black == born_prefix(before, after, Cell::Black, index as int),
                stats.born_white == born_prefix(before, after, Cell::White, index as int),
                stats.died_black == died_prefix(before, after, Cell::Black, index as int),
                stats.died_white == died_prefix(before, after, Cell::White, index as int),
            decreases n - index,
        {
            let cell = self.board[index];
            proof {
                lemma_point_at(s, index as int);
            }
            let point = self.point(index);
            let (black_neighbors, white_neighbors) = self.neighbor_counts(self.board.as_slice(), point);
            let difference = black_neighbors - white_neighbors;
            let next_cell = match cell {
                Cell::Empty => if difference == 3 {
                    Cell::Black
                } else if difference == -3 {
                    Cell::White
                } else {
                    Cell::Empty
                },
                Cell::Black => if difference == 2 || difference == 3 {
                    Cell::Black
                } else {
                    Cell::Empty
                },
                Cell::White => if -difference == 2 || -difference == 3 {
                    Cell::White
                } else {
                    Cell::Empty
                },
            };
            proof {
                assert(next_cell == evolved_cell(before, s, index as int));
                lemma_change_prefix_bound(before, after, Cell::Black, index as int);
                lemma_change_prefix_bound(before, after, Cell::White, index as int);
            }
            next.push(next_cell);
            Self::record_change(&mut stats, cell, next_cell);
            index = index + 1;
        }
        proof {
            assert(next@ =~= after);
            lemma_change_prefix_bound(before, after, Cell::Black, n as int);
            lemma_change_prefix_bound(before, after, Cell::White, n as int);
        }
        self.board = next;
        stats
    }

    fn neighbor_counts(&self, board: &[Cell], point: Point) -> (counts: (i8, i8))
        requires
            self.wf(),
            board@.len() >= self@.size as int * self@.size as int,
        ensures
            0 <= counts.0,
            0 <= counts.1,
            counts.0 + counts.1 <= 8,
            counts.0 == neighbor_count(
                board@,
                self@.size as int,
                point.x as int,
                point.y as int,
                Player::Black,
            ),
            counts.1 == neighbor_count(
                board@,
                self@.size as int,
                point.x as int,
                point.y as int,
                Player::White,
            ),
    {
        let size = self.config.size;
        let ghost s = size as int;
        let ghost px = point.x as int;
        let ghost py = point.y as int;
        let mut black: i8 = 0;
        let mut white: i8 = 0;
        let mut delta_y: i16 = -1;
        while delta_y <= 1
            invariant
                -1 <= delta_y <= 2,
                s == size as int,
                board@.len() >= s * s,
                px == point.x as int,
                py == point.y as int,
                black == rows_partial(board@, s, px, py, Player::Black, delta_y as int),
                white == rows_partial(board@, s, px, py, Player::White, delta_y as int),
                0 <= black,
                0 <= white,
                black + white <= 3 * (delta_y + 1) - if delta_y >= 1 { 1int } else { 0int },
            decreases 2 - delta_y,
        {
            let mut delta_x: i16 = -1;
            while delta_x <= 1
                invariant
                    -1 <= delta_x <= 2,
                    -1 <= delta_y <= 1,
                    s == size as int,
                    board@.len() >= s * s,
                    px == point.x as int,
                    py == point.y as int,
                    black == rows_partial(board@, s, px, py, Player::Black, delta_y as int)
                        + row_partial(board@, s, px, py, delta_y as int, Player::Black, delta_x as int),
                    white == rows_partial(board@, s, px, py, Player::White, delta_y as int)
                        + row_partial(board@, s, px, py, delta_y as int, Player::White, delta_x as int),
                    0 <= black,
                    0 <= white,
                    black + white <= 3 * (delta_y + 1) + delta_x + 1 - if delta_y >= 1 || (
                    delta_y == 0 && delta_x >= 1) {
                        1int
                    } else {
                        0int
                    },
                decreases 2 - delta_x,
            {
                if !(delta_x == 0 && delta_y == 0) {
                    let x: i16 = point.x as i16 + delta_x;
                    let y: i16 = point.y as i16 + delta_y;
                    if !(x < 0 || y < 0 || x >= size as i16 || y >= size as i16) {
                        proof {
                            lemma_index_in_bounds(s, x as int, y as int);
                            lemma_square_bound(size);
                        }
                        let index = (y as usize) * (size as usize) + (x as usize);
                        match board[index] {
                            Cell::Black => black = black + 1,
                            Cell::White => white = white + 1,
                            Cell::Empty => {},
                        }
                    }
                }
                delta_x = delta_x + 1;
            }
            delta_y = delta_y + 1;
        }
        proof {
            lemma_rows_partial_is_neighbor_count(board@, s, px, py, Player::Black);
            lemma_rows_partial_is_neighbor_count(board@, s, px, py, Player::White);
        }
        (black, white)
    }

    fn record_change(stats: &mut EvolutionStats, before: Cell, after: Cell)
        requires
            old(stats).born_black < u16::MAX,
            old(stats).born_white < u16::MAX,
            old(stats).died_black < u16::MAX,
            old(stats).died_white < u16::MAX,
        ensures
            final(stats).born_black == old(stats).born_black + born_step(before, after, Cell::Black),
            final(stats).born_white == old(stats).born_white + born_step(before, after, Cell::White),
            final(stats).died_black == old(stats).died_black + died_step(before, after, Cell::Black),
            final(stats).died_white == old(stats).died_white + died_step(before, after, Cell::White),
    {
        if before == after {
            return ;
        }
        match before {
            Cell::Black => stats.died_black = stats.died_black + 1,
            Cell::White => stats.died_white = stats.died_white + 1,
            Cell::Empty => {},
        }
        match after {
            Cell::Black => stats.born_black = stats.born_black + 1,
            Cell::White => stats.born_white = stats.born_white + 1,
            Cell::Empty => {},
        }
    }

    fn index(&self, point: Point) -> (index: Option<usize>)
        ensures
            index is Some <==> on_board(self@.size, point),
            index matches Some(i) ==> i == board_index(self@.size, point),
            index matches Some(i) ==> (self.wf() ==> i < self@.board.len()),
    {
        if point.x < self.config.size && point.y < self.config.size {
            proof {
                lemma_index_in_bounds(self.config.size as int, point.x as int, point.y as int);
                lemma_square_bound(self.config.size);
            }
            Some((point.y as usize) * (self.config.size as usize) + (point.x as usize))
        } else {
            None
        }
    }

    fn point(&self, index: usize) -> (point: Point)
        requires
            self@.size > 0,
        ensures
            point == point_at(self@.size, index as int),
            self.wf() && index < self@.board.len() ==> {
                &&& point.x as int == index as int % self@.size as int
                &&& point.y as int == index as int / self@.size as int
                &&& on_board(self@.size, point)
                &&& board_index(self@.size, point) == index
            },
    {
        proof {
            if self.wf() && index < self@.board.len() {
                lemma_point_at(self.config.size as int, index as int);
            }
        }
        let size = self.config.size as usize;
        Point::new((index % size) as u8, (index / size) as u8)
    }
}

} // verus!
