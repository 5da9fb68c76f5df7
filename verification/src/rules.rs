use vstd::prelude::*;

use crate::game::{
    Action, ActionError, Cell, EvolutionStats, GamePhase, GameStatus, Player, Point, TurnResult,
    MAX_BOARD_SIZE, MIN_BOARD_SIZE,
};

verus! {

/// Everything that can be observed of a game, as mathematical values.
#[verifier::ext_equal]
pub struct GameModel {
    pub size: u8,
    pub board: Seq<Cell>,
    pub phase: GamePhase,
    pub current_player: Player,
    pub consecutive_passes: u8,
    pub generation: u32,
    pub status: GameStatus,
}

/// A board side that `GameConfig::new` accepts.
pub open spec fn valid_board_size(size: u8) -> bool {
    MIN_BOARD_SIZE <= size <= MAX_BOARD_SIZE && size % 2 == 1
}

/// The board is stored row by row, one cell per point.
pub open spec fn model_wf(m: GameModel) -> bool {
    m.board.len() == m.size as int * m.size as int
}

/// The state of a new game on a board of side `size`.
pub open spec fn initial_model(size: u8) -> GameModel {
    GameModel {
        size,
        board: Seq::new((size as int * size as int) as nat, |i: int| Cell::Empty),
        phase: GamePhase::Layout,
        current_player: Player::Black,
        consecutive_passes: 0,
        generation: 0,
        status: GameStatus::Playing,
    }
}


/// Whether `p` lies on a board of side `size`.
pub open spec fn on_board(size: u8, p: Point) -> bool {
    p.x < size && p.y < size
}

/// The position of point `p` in the row-by-row board.
pub open spec fn board_index(size: u8, p: Point) -> int {
    p.y as int * size as int + p.x as int
}

/// The point stored at position `index` of the row-by-row board.
pub open spec fn point_at(size: u8, index: int) -> Point {
    Point { x: (index % size as int) as u8, y: (index / size as int) as u8 }
}

/// The content of column `x`, row `y`; empty when that lies off the board.
pub open spec fn occupant(board: Seq<Cell>, size: int, x: int, y: int) -> Cell {
    if 0 <= x < size && 0 <= y < size {
        board[y * size + x]
    } else {
        Cell::Empty
    }
}

/// One if the cell holds a stone of `player`, zero otherwise.
pub open spec fn stone_of(cell: Cell, player: Player) -> int {
    if cell == player.cell() {
        1
    } else {
        0
    }
}

/// The number of stones of `player` among the (up to eight) points around
/// column `x`, row `y`.
pub open spec fn neighbor_count(board: Seq<Cell>, size: int, x: int, y: int, player: Player) -> int {
    stone_of(occupant(board, size, x - 1, y - 1), player) + stone_of(
        occupant(board, size, x, y - 1),
        player,
    ) + stone_of(occupant(board, size, x + 1, y - 1), player) + stone_of(
        occupant(board, size, x - 1, y),
        player,
    ) + stone_of(occupant(board, size, x + 1, y), player) + stone_of(
        occupant(board, size, x - 1, y + 1),
        player,
    ) + stone_of(occupant(board, size, x, y + 1), player) + stone_of(
        occupant(board, size, x + 1, y + 1),
        player,
    )
}

/// The contribution of the point at offset (`dx`, `dy`) to a neighbor count;
/// the point itself does not count.
pub open spec fn neighbor_term(
    board: Seq<Cell>,
    size: int,
    x: int,
    y: int,
    dx: int,
    dy: int,
    player: Player,
) -> int {
    if dx == 0 && dy == 0 {
        0
    } else {
        stone_of(occupant(board, size, x + dx, y + dy), player)
    }
}

/// The terms of row offset `dy` for column offsets from -1 up to `upto`, exclusive.
pub open spec fn row_partial(
    board: Seq<Cell>,
    size: int,
    x: int,
    y: int,
    dy: int,
    player: Player,
    upto: int,
) -> int
    decreases upto + 1,
{
    if upto <= -1 {
        0
    } else {
        row_partial(board, size, x, y, dy, player, upto - 1) + neighbor_term(
            board,
            size,
            x,
            y,
            upto - 1,
            dy,
            player,
        )
    }
}

/// The terms of the rows with offsets from -1 up to `upto`, exclusive.
pub open spec fn rows_partial(board: Seq<Cell>, size: int, x: int, y: int, player: Player, upto: int) -> int
    decreases upto + 1,
{
    if upto <= -1 {
        0
    } else {
        rows_partial(board, size, x, y, player, upto - 1) + row_partial(
            board,
            size,
            x,
            y,
            upto - 1,
            player,
            2,
        )
    }
}

/// What a cell becomes in the next generation, given how many black and
/// white stones surround it.  An empty point is born to a color that leads by
/// exactly three; a stone survives while its own color leads by two or three.
pub open spec fn next_cell(cell: Cell, black: int, white: int) -> Cell {
    match cell {
        Cell::Empty => if black - white == 3 {
            Cell::Black
        } else if black - white == -3 {
            Cell::White
        } else {
            Cell::Empty
        },
        Cell::Black => if black - white == 2 || black - white == 3 {
            Cell::Black
        } else {
            Cell::Empty
        },
        Cell::White => if white - black == 2 || white - black == 3 {
            Cell::White
        } else {
            Cell::Empty
        },
    }
}

/// The cell at position `index` after one generation.
pub open spec fn evolved_cell(board: Seq<Cell>, size: int, index: int) -> Cell {
    next_cell(
        board[index],
        neighbor_count(board, size, index % size, index / size, Player::Black),
        neighbor_count(board, size, index % size, index / size, Player::White),
    )
}

/// The whole board after one generation; every cell changes at once.
pub open spec fn evolve_board(board: Seq<Cell>, size: int) -> Seq<Cell> {
    Seq::new(board.len(), |index: int| evolved_cell(board, size, index))
}

/// The number of cells equal to `cell` among the first `n` of `board`.
pub open spec fn count_prefix(board: Seq<Cell>, cell: Cell, n: int) -> nat
    decreases n,
{
    if n <= 0 {
        0
    } else {
        count_prefix(board, cell, n - 1) + if board[n - 1] == cell {
            1nat
        } else {
            0nat
        }
    }
}

/// The number of cells equal to `cell` on the board.
pub open spec fn count_cells(board: Seq<Cell>, cell: Cell) -> nat {
    count_prefix(board, cell, board.len() as int)
}

/// One if a stone of `cell`'s color appears where there was none.
pub open spec fn born_step(before: Cell, after: Cell, cell: Cell) -> nat {
    if after == cell && before != cell {
        1
    } else {
        0
    }
}

/// One if a stone of `cell`'s color disappears.
pub open spec fn died_step(before: Cell, after: Cell, cell: Cell) -> nat {
    if before == cell && after != cell {
        1
    } else {
        0
    }
}

/// Stones of `cell`'s color born among the first `n` points.
pub open spec fn born_prefix(before: Seq<Cell>, after: Seq<Cell>, cell: Cell, n: int) -> nat
    decreases n,
{
    if n <= 0 {
        0
    } else {
        born_prefix(before, after, cell, n - 1) + born_step(before[n - 1], after[n - 1], cell)
    }
}

/// Stones of `cell`'s color that died among the first `n` points.
pub open spec fn died_prefix(before: Seq<Cell>, after: Seq<Cell>, cell: Cell, n: int) -> nat
    decreases n,
{
    if n <= 0 {
        0
    } else {
        died_prefix(before, after, cell, n - 1) + died_step(before[n - 1], after[n - 1], cell)
    }
}

/// The statistics of going from `before` to `after`.
pub open spec fn evolution_stats(before: Seq<Cell>, after: Seq<Cell>) -> EvolutionStats {
    let n = before.len() as int;
    EvolutionStats {
        born_black: born_prefix(before, after, Cell::Black, n) as u16,
        born_white: born_prefix(before, after, Cell::White, n) as u16,
        died_black: died_prefix(before, after, Cell::Black, n) as u16,
        died_white: died_prefix(before, after, Cell::White, n) as u16,
    }
}

/// A side without stones has lost; if both have none the game is drawn.
pub open spec fn status_for(board: Seq<Cell>) -> GameStatus {
    let black = count_cells(board, Cell::Black);
    let white = count_cells(board, Cell::White);
    if black == 0 && white == 0 {
        GameStatus::Draw
    } else if black == 0 {
        GameStatus::Won(Player::White)
    } else if white == 0 {
        GameStatus::Won(Player::Black)
    } else {
        GameStatus::Playing
    }
}

/// During layout Black places in the rows up to the middle one, White in
/// the rows from the middle one on.
pub open spec fn in_layout_region(player: Player, size: u8, y: u8) -> bool {
    match player {
        Player::Black => y <= size / 2,
        Player::White => y >= size / 2,
    }
}

/// Whether placing a stone of `color` at `point` is allowed, and if not, why.
pub open spec fn placement_check(m: GameModel, point: Point, color: Player) -> Result<(), ActionError> {
    if m.status != GameStatus::Playing {
        Err(ActionError::GameFinished)
    } else if !on_board(m.size, point) {
        Err(ActionError::PointOutOfBounds(point))
    } else if m.board[board_index(m.size, point)] != Cell::Empty {
        Err(ActionError::PointOccupied(point))
    } else if m.phase == GamePhase::Layout && color != m.current_player {
        Err(ActionError::WrongLayoutColor)
    } else if m.phase == GamePhase::Layout && !in_layout_region(m.current_player, m.size, point.y) {
        Err(ActionError::OutsidePlayerRegion(point))
    } else {
        Ok(())
    }
}

/// The end of a layout turn: two passes in a row start the action phase
/// with Black to move; otherwise the turn goes to the other player.
pub open spec fn after_layout_turn(m: GameModel) -> GameModel {
    if m.consecutive_passes >= 2 {
        GameModel {
            phase: GamePhase::Action,
            current_player: Player::Black,
            consecutive_passes: 0,
            status: status_for(m.board),
            ..m
        }
    } else {
        GameModel { current_player: m.current_player.other(), ..m }
    }
}

/// The end of an action turn: the board evolves one generation, the status
/// is decided by what is left, and a game that goes on changes hands.
pub open spec fn after_action_turn(m: GameModel) -> GameModel {
    let board = evolve_board(m.board, m.size as int);
    let status = status_for(board);
    GameModel {
        board,
        generation: (m.generation + 1) as u32,
        status,
        current_player: if status == GameStatus::Playing {
            m.current_player.other()
        } else {
            m.current_player
        },
        ..m
    }
}

/// The state right after the action itself, before the end of the turn.
pub open spec fn perform(m: GameModel, action: Action) -> Result<GameModel, ActionError> {
    match action {
        Action::Place { point, color } => match placement_check(m, point, color) {
            Ok(_) => Ok(
                GameModel {
                    board: m.board.update(board_index(m.size, point), color.cell()),
                    consecutive_passes: 0,
                    ..m
                },
            ),
            Err(e) => Err(e),
        },
        Action::Pass => if m.phase != GamePhase::Layout {
            Err(ActionError::PassNotAllowed)
        } else {
            Ok(GameModel { consecutive_passes: m.consecutive_passes.saturating_add(1), ..m })
        },
    }
}

/// One turn: the new state and what is reported, or why the action is refused.
pub open spec fn step(m: GameModel, action: Action) -> Result<(GameModel, TurnResult), ActionError> {
    if m.status != GameStatus::Playing {
        Err(ActionError::GameFinished)
    } else {
        match perform(m, action) {
            Err(e) => Err(e),
            Ok(moved) => {
                let (after, evolution) = match m.phase {
                    GamePhase::Layout => (after_layout_turn(moved), None),
                    GamePhase::Action => (
                        after_action_turn(moved),
                        Some(evolution_stats(moved.board, evolve_board(moved.board, moved.size as int))),
                    ),
                };
                Ok(
                    (
                        after,
                        TurnResult {
                            action,
                            phase_before: m.phase,
                            phase_after: after.phase,
                            generation: after.generation,
                            evolution,
                            status: after.status,
                        },
                    ),
                )
            },
        }
    }
}

/// The turn evolves the board (an accepted action in the action phase).
pub open spec fn evolves(m: GameModel, action: Action) -> bool {
    m.status == GameStatus::Playing && m.phase == GamePhase::Action && perform(m, action) is Ok
}

/// A board never holds more than 255 * 255 cells.
pub proof fn lemma_square_bound(size: u8)
    ensures
        0 <= size as int * size as int <= 65025,
{
    assert(0 <= size as int * size as int <= 255 * 255) by (nonlinear_arith)
        requires
            0 <= size <= 255,
    ;
}


/// A point on the board has a position inside the board.
pub proof fn lemma_index_in_bounds(size: int, x: int, y: int)
    requires
        0 <= x < size,
        0 <= y < size,
    ensures
        0 <= y * size + x < size * size,
{
    assert(0 <= y * size + x < size * size) by (nonlinear_arith)
        requires
            0 <= x < size,
            0 <= y < size,
    ;
}

/// The column and row of a point are recovered from its position.
pub proof fn lemma_index_coordinates(size: int, x: int, y: int)
    requires
        0 <= x < size,
    ensures
        (y * size + x) / size == y,
        (y * size + x) % size == x,
{
    vstd::arithmetic::div_mod::lemma_fundamental_div_mod_converse(y * size + x, size, y, x);
}

/// Every position of the board is the position of a point on it.
pub proof fn lemma_point_at(size: int, index: int)
    requires
        0 <= size,
        0 <= index < size * size,
    ensures
        0 <= index % size < size,
        0 <= index / size < size,
        (index / size) * size + index % size == index,
{
    assert(size > 0) by (nonlinear_arith)
        requires
            0 <= size,
            0 <= index < size * size,
    ;
    vstd::arithmetic::div_mod::lemma_fundamental_div_mod(index, size);
    vstd::arithmetic::div_mod::lemma_mod_pos_bound(index, size);
    assert(0 <= index / size < size) by (nonlinear_arith)
        requires
            size > 0,
            0 <= index < size * size,
            index == size * (index / size) + index % size,
            0 <= index % size < size,
    ;
    assert((index / size) * size == size * (index / size)) by (nonlinear_arith);
}

/// No more cells are counted than were looked at.
pub proof fn lemma_count_prefix_bound(board: Seq<Cell>, cell: Cell, n: int)
    ensures
        count_prefix(board, cell, n) <= if n < 0 { 0 } else { n },
    decreases n,
{
    if n > 0 {
        lemma_count_prefix_bound(board, cell, n - 1);
    }
}

/// No more births or deaths are counted than points were looked at.
pub proof fn lemma_change_prefix_bound(before: Seq<Cell>, after: Seq<Cell>, cell: Cell, n: int)
    ensures
        born_prefix(before, after, cell, n) <= if n < 0 { 0 } else { n },
        died_prefix(before, after, cell, n) <= if n < 0 { 0 } else { n },
    decreases n,
{
    if n > 0 {
        lemma_change_prefix_bound(before, after, cell, n - 1);
    }
}


/// Summing the neighborhood row by row gives the neighbor count.
pub proof fn lemma_rows_partial_is_neighbor_count(
    board: Seq<Cell>,
    size: int,
    x: int,
    y: int,
    player: Player,
)
    ensures
        rows_partial(board, size, x, y, player, 2) == neighbor_count(board, size, x, y, player),
{
    reveal_with_fuel(row_partial, 4);
    reveal_with_fuel(rows_partial, 4);
}

} // verus!
