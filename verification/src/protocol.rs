//! The values exchanged with a client of the game server, and how they are
//! made from the game's own values.
use vstd::prelude::*;
use vstd::std_specs::convert::FromSpecImpl;

use crate::game::{Action, Cell, EvolutionStats, Game, GamePhase, GameStatus, Player, Point, TurnResult};
use crate::rules::{count_cells, lemma_point_at, GameModel};

verus! {

/// A player as the client names it.
#[derive(Debug, Clone, Copy, PartialEq, Eq, Structural)]
pub enum ApiPlayer {
    Black,
    White,
}

/// The client's name for a player.
pub open spec fn api_player(player: Player) -> ApiPlayer {
    match player {
        Player::Black => ApiPlayer::Black,
        Player::White => ApiPlayer::White,
    }
}

/// The player a client's name stands for.
pub open spec fn core_player(player: ApiPlayer) -> Player {
    match player {
        ApiPlayer::Black => Player::Black,
        ApiPlayer::White => Player::White,
    }
}

impl From<Player> for ApiPlayer {
    fn from(player: Player) -> (api: ApiPlayer) {
        match player {
            Player::Black => ApiPlayer::Black,
            Player::White => ApiPlayer::White,
        }
    }
}

impl FromSpecImpl<Player> for ApiPlayer {
    open spec fn obeys_from_spec() -> bool {
        true
    }

    open spec fn from_spec(player: Player) -> ApiPlayer {
        api_player(player)
    }
}

impl From<ApiPlayer> for Player {
    fn from(player: ApiPlayer) -> (core: Player) {
        match player {
            ApiPlayer::Black => Player::Black,
            ApiPlayer::White => Player::White,
        }
    }
}

impl FromSpecImpl<ApiPlayer> for Player {
    open spec fn obeys_from_spec() -> bool {
        true
    }

    open spec fn from_spec(player: ApiPlayer) -> Player {
        core_player(player)
    }
}

/// A cell as the client sees it.
#[derive(Debug, Clone, Copy, PartialEq, Eq, Structural)]
pub enum ApiCell {
    Empty,
    Black,
    White,
}

/// The client's form of a cell.
pub open spec fn api_cell(cell: Cell) -> ApiCell {
    match cell {
        Cell::Empty => ApiCell::Empty,
        Cell::Black => ApiCell::Black,
        Cell::White => ApiCell::White,
    }
}

impl From<Cell> for ApiCell {
    fn from(cell: Cell) -> (api: ApiCell) {
        match cell {
            Cell::Empty => ApiCell::Empty,
            Cell::Black => ApiCell::Black,
            Cell::White => ApiCell::White,
        }
    }
}

impl FromSpecImpl<Cell> for ApiCell {
    open spec fn obeys_from_spec() -> bool {
        true
    }

    open spec fn from_spec(cell: Cell) -> ApiCell {
        api_cell(cell)
    }
}

/// A phase as the client sees it.
#[derive(Debug, Clone, Copy, PartialEq, Eq, Structural)]
pub enum ApiPhase {
    Layout,
    Action,
}

/// The client's form of a phase.
pub open spec fn api_phase(phase: GamePhase) -> ApiPhase {
    match phase {
        GamePhase::Layout => ApiPhase::Layout,
        GamePhase::Action => ApiPhase::Action,
    }
}

impl From<GamePhase> for ApiPhase {
    fn from(phase: GamePhase) -> (api: ApiPhase) {
        match phase {
            GamePhase::Layout => ApiPhase::Layout,
            GamePhase::Action => ApiPhase::Action,
        }
    }
}

impl FromSpecImpl<GamePhase> for ApiPhase {
    open spec fn obeys_from_spec() -> bool {
        true
    }

    open spec fn from_spec(phase: GamePhase) -> ApiPhase {
        api_phase(phase)
    }
}

/// A status as the client sees it.
#[derive(Debug, Clone, Copy, PartialEq, Eq, Structural)]
pub enum ApiStatus {
    Playing,
    BlackWon,
    WhiteWon,
    Draw,
}

/// The client's form of a status, with the winner folded in.
pub open spec fn api_status(status: GameStatus) -> ApiStatus {
    match status {
        GameStatus::Playing => ApiStatus::Playing,
        GameStatus::Won(Player::Black) => ApiStatus::BlackWon,
        GameStatus::Won(Player::White) => ApiStatus::WhiteWon,
        GameStatus::Draw => ApiStatus::Draw,
    }
}

impl From<GameStatus> for ApiStatus {
    fn from(status: GameStatus) -> (api: ApiStatus) {
        match status {
            GameStatus::Playing => ApiStatus::Playing,
            GameStatus::Won(Player::Black) => ApiStatus::BlackWon,
            GameStatus::Won(Player::White) => ApiStatus::WhiteWon,
            GameStatus::Draw => ApiStatus::Draw,
        }
    }
}

impl FromSpecImpl<GameStatus> for ApiStatus {
    open spec fn obeys_from_spec() -> bool {
        true
    }

    open spec fn from_spec(status: GameStatus) -> ApiStatus {
        api_status(status)
    }
}

/// An action as the client sends it.
#[derive(Debug, Clone, Copy, PartialEq, Eq, Structural)]
pub enum ApiAction {
    Place { x: u8, y: u8, color: ApiPlayer },
    Pass,
}

/// The client's form of an action.
pub open spec fn api_action(action: Action) -> ApiAction {
    match action {
        Action::Place { point, color } => ApiAction::Place { x: point.x, y: point.y, color: api_player(color) },
        Action::Pass => ApiAction::Pass,
    }
}

/// The action a client's request stands for.
pub open spec fn core_action(action: ApiAction) -> Action {
    match action {
        ApiAction::Place { x, y, color } => Action::Place { point: Point { x, y }, color: core_player(color) },
        ApiAction::Pass => Action::Pass,
    }
}

impl ApiAction {
    /// The game's own form of this action.
    pub fn to_core(self) -> (action: Action)
        ensures
            action == core_action(self),
    {
        match self {
            ApiAction::Place { x, y, color } => Action::Place { point: Point::new(x, y), color: color.into() },
            ApiAction::Pass => Action::Pass,
        }
    }
}

impl From<Action> for ApiAction {
    fn from(action: Action) -> (api: ApiAction) {
        match action {
            Action::Place { point, color } => ApiAction::Place { x: point.x, y: point.y, color: color.into() },
            Action::Pass => ApiAction::Pass,
        }
    }
}

impl FromSpecImpl<Action> for ApiAction {
    open spec fn obeys_from_spec() -> bool {
        true
    }

    open spec fn from_spec(action: Action) -> ApiAction {
        api_action(action)
    }
}


/// The board as the client sees it, row by row.
#[derive(Debug, Clone)]
pub struct ApiBoard {
    pub size: u8,
    pub cells: Vec<ApiCell>,
}

impl ApiBoard {
    /// The board of `game`.
    pub fn from_game(game: &Game) -> (board: ApiBoard)
        ensures
            board.size == game@.size,
            board.cells@ == game@.board.map_values(|cell: Cell| api_cell(cell)),
    {
        let cells_in = game.board();
        let mut cells: Vec<ApiCell> = Vec::new();
        let mut index: usize = 0;
        while index < cells_in.len()
            invariant
                index <= cells_in@.len(),
                cells_in@ == game@.board,
                cells@ == game@.board.take(index as int).map_values(|cell: Cell| api_cell(cell)),
            decreases cells_in@.len() - index,
        {
            cells.push(cells_in[index].into());
            index = index + 1;
            assert(cells@ =~= game@.board.take(index as int).map_values(|cell: Cell| api_cell(cell)));
        }
        assert(game@.board.take(index as int) =~= game@.board);
        ApiBoard { size: game.size(), cells }
    }
}

/// Evolution statistics as the client sees them.
#[derive(Debug, Clone, Copy, PartialEq, Eq, Structural)]
pub struct ApiEvolutionStats {
    pub born_black: u16,
    pub born_white: u16,
    pub died_black: u16,
    pub died_white: u16,
}

/// The client's form of evolution statistics.
pub open spec fn api_evolution_stats(stats: EvolutionStats) -> ApiEvolutionStats {
    ApiEvolutionStats {
        born_black: stats.born_black,
        born_white: stats.born_white,
        died_black: stats.died_black,
        died_white: stats.died_white,
    }
}

impl From<EvolutionStats> for ApiEvolutionStats {
    fn from(stats: EvolutionStats) -> (api: ApiEvolutionStats) {
        ApiEvolutionStats {
            born_black: stats.born_black,
            born_white: stats.born_white,
            died_black: stats.died_black,
            died_white: stats.died_white,
        }
    }
}

impl FromSpecImpl<EvolutionStats> for ApiEvolutionStats {
    open spec fn obeys_from_spec() -> bool {
        true
    }

    open spec fn from_spec(stats: EvolutionStats) -> ApiEvolutionStats {
        api_evolution_stats(stats)
    }
}

/// One point whose content changed during a turn.
#[derive(Debug, Clone, Copy, PartialEq, Eq, Structural)]
pub struct ApiCellChange {
    pub x: u8,
    pub y: u8,
    pub before: ApiCell,
    pub after: ApiCell,
}

/// One line of the game's history as the client sees it.
#[derive(Debug, Clone, Copy, PartialEq, Eq, Structural)]
pub struct ApiHistoryEntry {
    pub number: usize,
    pub player: ApiPlayer,
    pub action: ApiAction,
    pub phase: ApiPhase,
    pub generation: u32,
}

/// An accepted turn: the game before it, who played it, and what it did.
#[derive(Debug, Clone)]
pub struct HistoryEntry {
    pub before: Game,
    pub player: Player,
    pub result: TurnResult,
}

/// A history entry as mathematical values.
pub struct EntryModel {
    pub before: GameModel,
    pub player: Player,
    pub result: TurnResult,
}

impl View for HistoryEntry {
    type V = EntryModel;

    open spec fn view(&self) -> EntryModel {
        EntryModel { before: self.before@, player: self.player, result: self.result }
    }
}

/// The client's line for the `index`-th (from zero) entry of the history.
pub open spec fn api_history_entry(index: int, entry: EntryModel) -> ApiHistoryEntry {
    ApiHistoryEntry {
        number: (index + 1) as usize,
        player: api_player(entry.player),
        action: api_action(entry.result.action),
        phase: api_phase(entry.result.phase_before),
        generation: entry.result.generation,
    }
}

/// Everything the client is shown of a session.
#[derive(Debug, Clone)]
pub struct ApiState {
    pub revision: u64,
    pub board: ApiBoard,
    pub phase: ApiPhase,
    pub current_player: ApiPlayer,
    pub consecutive_passes: u8,
    pub generation: u32,
    pub black_count: u16,
    pub white_count: u16,
    pub status: ApiStatus,
    pub can_undo: bool,
    pub history: Vec<ApiHistoryEntry>,
}

/// `state` shows `game` at `revision` with the given history.
pub open spec fn describes_session(
    state: ApiState,
    game: GameModel,
    revision: u64,
    history: Seq<EntryModel>,
) -> bool {
    &&& state.revision == revision
    &&& state.board.size == game.size
    &&& state.board.cells@ == game.board.map_values(|cell: Cell| api_cell(cell))
    &&& state.phase == api_phase(game.phase)
    &&& state.current_player == api_player(game.current_player)
    &&& state.consecutive_passes == game.consecutive_passes
    &&& state.generation == game.generation
    &&& state.black_count == count_cells(game.board, Cell::Black)
    &&& state.white_count == count_cells(game.board, Cell::White)
    &&& state.status == api_status(game.status)
    &&& state.can_undo == (history.len() > 0)
    &&& state.history@ == Seq::new(history.len(), |index: int| api_history_entry(index, history[index]))
}

impl ApiState {
    /// What the client is shown of `game` at `revision` after `history`.
    pub fn from_session(game: &Game, revision: u64, history: &[HistoryEntry]) -> (state: Self)
        requires
            game.wf(),
        ensures
            describes_session(state, game@, revision, history@.map_values(|entry: HistoryEntry| entry@)),
    {
        let (black_count, white_count) = game.counts();
        let can_undo = history.len() != 0;
        let ghost models = history@.map_values(|entry: HistoryEntry| entry@);
        let mut entries: Vec<ApiHistoryEntry> = Vec::new();
        let mut index: usize = 0;
        while index < history.len()
            invariant
                index <= history@.len(),
                models == history@.map_values(|entry: HistoryEntry| entry@),
                entries@ == Seq::new(index as nat, |i: int| api_history_entry(i, models[i])),
            decreases history@.len() - index,
        {
            let entry = &history[index];
            entries.push(
                ApiHistoryEntry {
                    number: index + 1,
                    player: entry.player.into(),
                    action: entry.result.action.into(),
                    phase: entry.result.phase_before.into(),
                    generation: entry.result.generation,
                },
            );
            index = index + 1;
            assert(entries@ =~= Seq::new(index as nat, |i: int| api_history_entry(i, models[i])));
        }
        ApiState {
            revision,
            board: ApiBoard::from_game(game),
            phase: game.phase().into(),
            current_player: game.current_player().into(),
            consecutive_passes: game.consecutive_passes(),
            generation: game.generation(),
            black_count,
            white_count,
            status: game.status().into(),
            can_undo,
            history: entries,
        }
    }
}

/// The points whose content differs among the first `n` of the two boards,
/// in board order, located on a board of side `size`.
pub open spec fn cell_changes(before: Seq<Cell>, after: Seq<Cell>, size: u8, n: int) -> Seq<ApiCellChange>
    decreases n,
{
    if n <= 0 {
        Seq::empty()
    } else {
        let earlier = cell_changes(before, after, size, n - 1);
        let index = n - 1;
        if before[index] != after[index] {
            earlier.push(
                ApiCellChange {
                    x: (index % size as int) as u8,
                    y: (index / size as int) as u8,
                    before: api_cell(before[index]),
                    after: api_cell(after[index]),
                },
            )
        } else {
            earlier
        }
    }
}

/// `report` tells the client of turn `result`, which took the game from
/// `before` to `after`.
pub open spec fn reports_turn(
    report: ApiActionResult,
    result: TurnResult,
    before: GameModel,
    after: GameModel,
) -> bool {
    &&& report.phase_before == api_phase(result.phase_before)
    &&& report.phase_after == api_phase(result.phase_after)
    &&& report.generation == result.generation
    &&& report.evolution == match result.evolution {
        Some(stats) => Some(api_evolution_stats(stats)),
        None => None,
    }
    &&& report.changes@ == cell_changes(
        before.board,
        after.board,
        after.size,
        if before.board.len() < after.board.len() {
            before.board.len() as int
        } else {
            after.board.len() as int
        },
    )
}

/// What the client is told of an accepted turn.
#[derive(Debug, Clone)]
pub struct ApiActionResult {
    pub phase_before: ApiPhase,
    pub phase_after: ApiPhase,
    pub generation: u32,
    pub evolution: Option<ApiEvolutionStats>,
    pub changes: Vec<ApiCellChange>,
}

impl ApiActionResult {
    /// The report of turn `result`, which took the game from `before` to `after`.
    pub fn new(result: TurnResult, before: &Game, after: &Game) -> (report: Self)
        requires
            after.wf(),
        ensures
            reports_turn(report, result, before@, after@),
    {
        let size = after.size() as usize;
        let old_cells = before.board();
        let new_cells = after.board();
        let count = if old_cells.len() < new_cells.len() {
            old_cells.len()
        } else {
            new_cells.len()
        };
        let mut changes: Vec<ApiCellChange> = Vec::new();
        let mut index: usize = 0;
        while index < count
            invariant
                index <= count,
                count <= old_cells@.len(),
                count <= new_cells@.len(),
                old_cells@ == before@.board,
                new_cells@ == after@.board,
                size == after@.size as usize,
                new_cells@.len() == size as int * size as int,
                changes@ == cell_changes(old_cells@, new_cells@, after@.size, index as int),
            decreases count - index,
        {
            let old_cell = old_cells[index];
            let new_cell = new_cells[index];
            if old_cell != new_cell {
                proof {
                    lemma_point_at(size as int, index as int);
                }
                changes.push(
                    ApiCellChange {
                        x: (index % size) as u8,
                        y: (index / size) as u8,
                        before: old_cell.into(),
                        after: new_cell.into(),
                    },
                );
            }
            index = index + 1;
        }
        let evolution = match result.evolution {
            Some(stats) => Some(ApiEvolutionStats::from(stats)),
            None => None,
        };
        ApiActionResult {
            phase_before: result.phase_before.into(),
            phase_after: result.phase_after.into(),
            generation: result.generation,
            evolution,
            changes,
        }
    }
}

/// A request to perform `action` on the game at `revision`.
#[derive(Debug, Clone, Copy, PartialEq, Eq, Structural)]
pub struct ApiActionRequest {
    pub revision: u64,
    pub action: ApiAction,
}

/// A request to start a new game of side `size` in place of the one at `revision`.
#[derive(Debug, Clone, Copy, PartialEq, Eq, Structural)]
pub struct ApiNewGameRequest {
    pub revision: u64,
    pub size: u8,
}

/// A request to take back the last turn of the game at `revision`.
#[derive(Debug, Clone, Copy, PartialEq, Eq, Structural)]
pub struct ApiUndoRequest {
    pub revision: u64,
}

/// The answer to an action request.
#[derive(Debug, Clone)]
pub struct ApiActionResponse {
    pub state: ApiState,
    pub error: Option<String>,
    pub result: Option<ApiActionResult>,
}

/// The answer to a request that only changes the session.
#[derive(Debug, Clone)]
pub struct ApiStateResponse {
    pub state: ApiState,
    pub error: Option<String>,
}

} // verus!
