//! Properties of the game and of the session that hold across operations.
use vstd::prelude::*;

use crate::game::{Action, ActionError, Cell, EvolutionStats, GamePhase, GameStatus, Player, Point, TurnResult};
use crate::protocol::{
    api_evolution_stats, api_phase, api_status, ApiCell, ApiEvolutionStats, ApiPhase, ApiStatus,
    api_cell, ApiCellChange, api_action, api_player, cell_changes, core_action, core_player, ApiAction, ApiActionRequest,
    ApiNewGameRequest, ApiPlayer, ApiUndoRequest,
};
use crate::rules::{
    after_action_turn, board_index, born_prefix, count_cells, count_prefix, died_prefix,
    evolution_stats, evolve_board, in_layout_region, valid_board_size, initial_model, lemma_change_prefix_bound,
    lemma_index_coordinates, lemma_index_in_bounds, lemma_point_at, lemma_square_bound, model_wf,
    neighbor_count, occupant, on_board, placement_check, point_at, status_for, step, GameModel,
};
use crate::session::{
    session_after_action, session_after_new_game, session_after_undo, SessionModel,
};

verus! {

/// A player's opponent is someone else, and the opponent's opponent is the player.
pub proof fn law_other_is_an_involution(player: Player)
    ensures
        player.other() != player,
        player.other().other() == player,
{
}

/// A player's stone belongs to that player, and only a player's stone does.
pub proof fn law_cell_and_player_agree(player: Player, cell: Cell)
    ensures
        player.cell().player() == Some(player),
        cell.player() == Some(player) <==> cell == player.cell(),
        cell.player() is None <==> cell == Cell::Empty,
{
}

/// `can_place` answers exactly whether placing that stone would be accepted.
pub proof fn law_can_place_iff_place_accepted(m: GameModel, point: Point, color: Player)
    ensures
        (placement_check(m, point, color) is Ok) == (step(m, Action::Place { point, color }) is Ok),
        placement_check(m, point, color) matches Err(error) ==> step(
            m,
            Action::Place { point, color },
        ) == Err::<(GameModel, TurnResult), ActionError>(error),
{
}

/// A finished game refuses every action, so its state never changes again.
pub proof fn law_finished_game_is_final(m: GameModel, action: Action)
    requires
        m.status != GameStatus::Playing,
    ensures
        step(m, action) == Err::<(GameModel, TurnResult), ActionError>(
            ActionError::GameFinished,
        ),
{
}

/// Every accepted turn keeps the board's side and its one-cell-per-point
/// shape, and the turn's report agrees with the new state.
pub proof fn law_turn_keeps_shape_and_reports_state(m: GameModel, action: Action)
    requires
        model_wf(m),
        step(m, action) is Ok,
    ensures
        ({
            let (after, result) = step(m, action)->Ok_0;
            &&& model_wf(after)
            &&& after.size == m.size
            &&& result.action == action
            &&& result.phase_before == m.phase
            &&& result.phase_after == after.phase
            &&& result.generation == after.generation
            &&& result.status == after.status
        }),
{
    if let Action::Place { point, color } = action {
        if on_board(m.size, point) {
            lemma_index_in_bounds(m.size as int, point.x as int, point.y as int);
        }
    }
}

/// The generation advances by one in each action-phase turn and never during
/// layout; only action-phase turns report evolution statistics.
pub proof fn law_generation_counts_action_turns(m: GameModel, action: Action)
    requires
        step(m, action) is Ok,
    ensures
        ({
            let (after, result) = step(m, action)->Ok_0;
            &&& m.phase == GamePhase::Layout ==> after.generation == m.generation
                && result.evolution is None
            &&& m.phase == GamePhase::Action ==> after.generation == (m.generation + 1) as u32
                && result.evolution is Some
        }),
{
}

/// Only a game that goes on accepts an action.
pub proof fn law_only_playing_games_accept(m: GameModel, action: Action)
    requires
        step(m, action) is Ok,
    ensures
        m.status == GameStatus::Playing,
{
}

/// The game leaves layout only through the second pass in a row, after which
/// Black moves first and the pass count is cleared.
pub proof fn law_action_phase_starts_by_second_pass(m: GameModel, action: Action)
    requires
        m.phase == GamePhase::Layout,
        step(m, action) is Ok,
        step(m, action)->Ok_0.0.phase == GamePhase::Action,
    ensures
        action == Action::Pass,
        m.consecutive_passes >= 1,
        step(m, action)->Ok_0.0.current_player == Player::Black,
        step(m, action)->Ok_0.0.consecutive_passes == 0,
{
}

/// Points and board positions correspond one to one.
pub proof fn law_point_position_round_trip(size: u8, point: Point, index: int)
    ensures
        on_board(size, point) ==> point_at(size, board_index(size, point)) == point,
        0 <= index < size as int * size as int ==> on_board(size, point_at(size, index))
            && board_index(size, point_at(size, index)) == index,
{
    if on_board(size, point) {
        lemma_index_coordinates(size as int, point.x as int, point.y as int);
    }
    if 0 <= index < size as int * size as int {
        lemma_point_at(size as int, index);
    }
}

proof fn lemma_occupant_elsewhere(board: Seq<Cell>, size: int, x: int, y: int, dx: int, dy: int, cell: Cell)
    requires
        0 <= x < size,
        0 <= y < size,
        board.len() == size * size,
        dx != 0 || dy != 0,
    ensures
        occupant(board.update(y * size + x, cell), size, x + dx, y + dy) == occupant(
            board,
            size,
            x + dx,
            y + dy,
        ),
{
    lemma_index_in_bounds(size, x, y);
    lemma_index_coordinates(size, x, y);
    if 0 <= x + dx < size && 0 <= y + dy < size {
        lemma_index_in_bounds(size, x + dx, y + dy);
        lemma_index_coordinates(size, x + dx, y + dy);
    }
}

/// A point has at most eight stones around it, at most five on an edge of the
/// board and at most three in a corner, and its own content is not counted.
pub proof fn law_neighbor_count_bounds(board: Seq<Cell>, size: int, x: int, y: int, cell: Cell)
    requires
        0 <= x < size,
        0 <= y < size,
        board.len() == size * size,
    ensures
        ({
            let black = neighbor_count(board, size, x, y, Player::Black);
            let white = neighbor_count(board, size, x, y, Player::White);
            &&& 0 <= black
            &&& 0 <= white
            &&& black + white <= 8
            &&& (x == 0 || y == 0 || x == size - 1 || y == size - 1) ==> black + white <= 5
            &&& (x == 0 || x == size - 1) && (y == 0 || y == size - 1) ==> black + white <= 3
        }),
        neighbor_count(board.update(y * size + x, cell), size, x, y, Player::Black)
            == neighbor_count(board, size, x, y, Player::Black),
        neighbor_count(board.update(y * size + x, cell), size, x, y, Player::White)
            == neighbor_count(board, size, x, y, Player::White),
{
    lemma_occupant_elsewhere(board, size, x, y, -1, -1, cell);
    lemma_occupant_elsewhere(board, size, x, y, 0, -1, cell);
    lemma_occupant_elsewhere(board, size, x, y, 1, -1, cell);
    lemma_occupant_elsewhere(board, size, x, y, -1, 0, cell);
    lemma_occupant_elsewhere(board, size, x, y, 1, 0, cell);
    lemma_occupant_elsewhere(board, size, x, y, -1, 1, cell);
    lemma_occupant_elsewhere(board, size, x, y, 0, 1, cell);
    lemma_occupant_elsewhere(board, size, x, y, 1, 1, cell);
}

/// Once the action phase has begun the game never returns to layout.
pub proof fn law_action_phase_is_permanent(m: GameModel, action: Action)
    requires
        m.phase == GamePhase::Action,
        step(m, action) is Ok,
    ensures
        step(m, action)->Ok_0.0.phase == GamePhase::Action,
{
}

/// Passing is a layout move only.
pub proof fn law_no_pass_in_action_phase(m: GameModel)
    requires
        m.status == GameStatus::Playing,
        m.phase == GamePhase::Action,
    ensures
        step(m, Action::Pass) == Err::<(GameModel, TurnResult), ActionError>(
            ActionError::PassNotAllowed,
        ),
{
}

/// During layout a stone goes only on an empty point of the mover's own half,
/// in the mover's color; nothing else on the board changes and the turn
/// passes to the opponent.
pub proof fn law_layout_placement(m: GameModel, point: Point, color: Player)
    requires
        model_wf(m),
        m.phase == GamePhase::Layout,
        step(m, Action::Place { point, color }) is Ok,
    ensures
        ({
            let after = step(m, Action::Place { point, color })->Ok_0.0;
            &&& color == m.current_player
            &&& on_board(m.size, point)
            &&& in_layout_region(m.current_player, m.size, point.y)
            &&& color == Player::Black ==> point.y <= m.size / 2
            &&& color == Player::White ==> point.y >= m.size / 2
            &&& m.board[board_index(m.size, point)] == Cell::Empty
            &&& after.board == m.board.update(board_index(m.size, point), color.cell())
            &&& after.phase == GamePhase::Layout
            &&& after.current_player == m.current_player.other()
            &&& after.consecutive_passes == 0
        }),
{
}

/// Two passes in a row end the layout: the action phase starts with Black to
/// move, the board untouched, and the status decided by the stones laid out.
pub proof fn law_second_pass_starts_action_phase(m: GameModel)
    requires
        m.status == GameStatus::Playing,
        m.phase == GamePhase::Layout,
        m.consecutive_passes == 1,
    ensures
        step(m, Action::Pass) is Ok,
        ({
            let (after, result) = step(m, Action::Pass)->Ok_0;
            &&& after.phase == GamePhase::Action
            &&& after.current_player == Player::Black
            &&& after.consecutive_passes == 0
            &&& after.board == m.board
            &&& after.generation == m.generation
            &&& after.status == status_for(m.board)
            &&& result.phase_before == GamePhase::Layout
            &&& result.phase_after == GamePhase::Action
        }),
{
}

/// A single pass during layout only hands the turn over.
pub proof fn law_first_pass_hands_over(m: GameModel)
    requires
        m.status == GameStatus::Playing,
        m.phase == GamePhase::Layout,
        m.consecutive_passes == 0,
    ensures
        step(m, Action::Pass) is Ok,
        ({
            let after = step(m, Action::Pass)->Ok_0.0;
            &&& after == (GameModel {
                current_player: m.current_player.other(),
                consecutive_passes: 1,
                ..m
            })
        }),
{
}

/// After an action-phase turn the game goes on exactly while both colors have
/// stones; a side left without stones has lost, and no stones at all is a draw.
pub proof fn law_status_after_evolution(m: GameModel, action: Action)
    requires
        m.phase == GamePhase::Action,
        step(m, action) is Ok,
    ensures
        ({
            let after = step(m, action)->Ok_0.0;
            let black = count_cells(after.board, Cell::Black);
            let white = count_cells(after.board, Cell::White);
            &&& (after.status == GameStatus::Playing) == (black > 0 && white > 0)
            &&& (after.status == GameStatus::Draw) == (black == 0 && white == 0)
            &&& (after.status == GameStatus::Won(Player::Black)) == (black > 0 && white == 0)
            &&& (after.status == GameStatus::Won(Player::White)) == (black == 0 && white > 0)
            &&& after.status == GameStatus::Playing ==> after.current_player
                == m.current_player.other()
            &&& after.status != GameStatus::Playing ==> after.current_player == m.current_player
        }),
{
}

proof fn lemma_balance_prefix(before: Seq<Cell>, after: Seq<Cell>, cell: Cell, n: int)
    requires
        0 <= n <= before.len(),
        n <= after.len(),
    ensures
        count_prefix(after, cell, n) + died_prefix(before, after, cell, n) == count_prefix(
            before,
            cell,
            n,
        ) + born_prefix(before, after, cell, n),
    decreases n,
{
    if n > 0 {
        lemma_balance_prefix(before, after, cell, n - 1);
    }
}

/// Over one generation the stones of each color change by exactly the
/// reported births minus the reported deaths.
pub proof fn law_stone_balance(m: GameModel)
    requires
        model_wf(m),
    ensures
        ({
            let after = after_action_turn(m).board;
            let stats = evolution_stats(m.board, after);
            &&& count_cells(after, Cell::Black) + stats.died_black == count_cells(
                m.board,
                Cell::Black,
            ) + stats.born_black
            &&& count_cells(after, Cell::White) + stats.died_white == count_cells(
                m.board,
                Cell::White,
            ) + stats.born_white
        }),
{
    let after = after_action_turn(m).board;
    let n = m.board.len() as int;
    lemma_square_bound(m.size);
    lemma_balance_prefix(m.board, after, Cell::Black, n);
    lemma_balance_prefix(m.board, after, Cell::White, n);
    lemma_change_prefix_bound(m.board, after, Cell::Black, n);
    lemma_change_prefix_bound(m.board, after, Cell::White, n);
}

/// The client's form of an action and the game's form correspond one to one.
pub proof fn law_api_action_round_trip(action: Action, api: ApiAction)
    ensures
        core_action(api_action(action)) == action,
        api_action(core_action(api)) == api,
{
}

/// The client's form of a player and the game's form correspond one to one.
pub proof fn law_api_player_round_trip(player: Player, api: ApiPlayer)
    ensures
        core_player(api_player(player)) == player,
        api_player(core_player(api)) == api,
{
}

/// What holds of every state a game can reach from its start: the board has
/// one cell per point; during layout no generation has passed, the game goes
/// on, at most one pass has just been made, and each color's stones lie in
/// its own half; in the action phase the pass count is zero.
pub open spec fn reachable_invariant(m: GameModel) -> bool {
    &&& model_wf(m)
    &&& m.phase == GamePhase::Layout ==> {
        &&& m.generation == 0
        &&& m.status == GameStatus::Playing
        &&& m.consecutive_passes <= 1
        &&& forall|i: int|
            0 <= i < m.board.len() && #[trigger] m.board[i] == Cell::Black ==> i / (m.size as int)
                <= m.size / 2
        &&& forall|i: int|
            0 <= i < m.board.len() && #[trigger] m.board[i] == Cell::White ==> i / (m.size as int)
                >= m.size / 2
    }
    &&& m.phase == GamePhase::Action ==> m.consecutive_passes == 0
}

/// The state after trying `actions` one after the other from `start`; a
/// refused action leaves the state as it was.
pub open spec fn play(start: GameModel, actions: Seq<Action>) -> GameModel
    decreases actions.len(),
{
    if actions.len() == 0 {
        start
    } else {
        let before = play(start, actions.drop_last());
        match step(before, actions.last()) {
            Ok(outcome) => outcome.0,
            Err(_) => before,
        }
    }
}

/// Every turn, accepted or refused, keeps the reachable-state invariant.
pub proof fn law_step_keeps_invariant(m: GameModel, action: Action)
    requires
        reachable_invariant(m),
    ensures
        match step(m, action) {
            Ok(outcome) => reachable_invariant(outcome.0) && outcome.0.size == m.size,
            Err(_) => true,
        },
{
    if step(m, action) is Ok {
        law_turn_keeps_shape_and_reports_state(m, action);
        if m.phase == GamePhase::Layout {
            let after = step(m, action)->Ok_0.0;
            if let Action::Place { point, color } = action {
                let s = m.size as int;
                let index = board_index(m.size, point);
                lemma_index_in_bounds(s, point.x as int, point.y as int);
                lemma_index_coordinates(s, point.x as int, point.y as int);
                assert forall|i: int|
                    0 <= i < after.board.len() && #[trigger] after.board[i] == Cell::Black implies i
                    / s <= m.size / 2 by {
                    if i != index {
                        assert(m.board[i] == Cell::Black);
                    }
                }
                assert forall|i: int|
                    0 <= i < after.board.len() && #[trigger] after.board[i] == Cell::White implies i
                    / s >= m.size / 2 by {
                    if i != index {
                        assert(m.board[i] == Cell::White);
                    }
                }
            }
        }
    }
}

/// Every state reached from a new game by any actions satisfies the
/// reachable-state invariant, and the board keeps its side.
pub proof fn law_reachable_states(size: u8, actions: Seq<Action>)
    ensures
        reachable_invariant(play(initial_model(size), actions)),
        play(initial_model(size), actions).size == size,
    decreases actions.len(),
{
    if actions.len() == 0 {
        let m = initial_model(size);
        lemma_square_bound(size);
        assert(model_wf(m));
    } else {
        law_reachable_states(size, actions.drop_last());
        law_step_keeps_invariant(play(initial_model(size), actions.drop_last()), actions.last());
    }
}

/// A turn's report lists only points whose content really changed.
pub proof fn law_reported_changes_are_changes(before: Seq<Cell>, after: Seq<Cell>, size: u8, n: int)
    ensures
        cell_changes(before, after, size, n).len() <= if n < 0 { 0 } else { n },
        forall|k: int|
            0 <= k < cell_changes(before, after, size, n).len() ==> (#[trigger] cell_changes(
                before,
                after,
                size,
                n,
            )[k]).before != cell_changes(before, after, size, n)[k].after,
    decreases n,
{
    if n > 0 {
        law_reported_changes_are_changes(before, after, size, n - 1);
    }
}

/// Taking back an accepted action restores the game and the history exactly
/// as they were before it.
pub proof fn law_undo_takes_back_action(session: SessionModel, request: ApiActionRequest)
    requires
        request.revision == session.revision,
        session.revision < u64::MAX - 1,
        step(session.game, core_action(request.action)) is Ok,
    ensures
        ({
            let played = session_after_action(session, request);
            let undone = session_after_undo(played, ApiUndoRequest { revision: played.revision });
            &&& played.revision == session.revision + 1
            &&& played.history.len() == session.history.len() + 1
            &&& undone.game == session.game
            &&& undone.history == session.history
            &&& undone.revision == session.revision + 2
        }),
{
    let played = session_after_action(session, request);
    assert(played.history.drop_last() =~= session.history);
}

/// An action request is refused, leaving the session as it was, exactly when
/// it names another revision or the game refuses the action; an accepted one
/// adds one entry to the history.
pub proof fn law_action_request_refused_iff(session: SessionModel, request: ApiActionRequest)
    requires
        session.revision < u64::MAX,
    ensures
        (session_after_action(session, request) == session) == (request.revision != session.revision
            || step(session.game, core_action(request.action)) is Err),
        session_after_action(session, request) != session ==> session_after_action(
            session,
            request,
        ).history.len() == session.history.len() + 1,
{
    if request.revision == session.revision && step(session.game, core_action(request.action)) is Ok {
        assert(session_after_action(session, request).history.len() != session.history.len());
    }
}

/// Every request either leaves the session exactly as it was or advances the
/// revision by one, so a revision names one state of the session.
pub proof fn law_changes_advance_revision(
    session: SessionModel,
    action: ApiActionRequest,
    undo: ApiUndoRequest,
    new_game: ApiNewGameRequest,
)
    requires
        session.revision < u64::MAX,
    ensures
        session_after_action(session, action) == session || session_after_action(
            session,
            action,
        ).revision == session.revision + 1,
        session_after_undo(session, undo) == session || session_after_undo(session, undo).revision
            == session.revision + 1,
        session_after_new_game(session, new_game) == session
            || session_after_new_game(session, new_game).revision
            == session.revision + 1,
{
}

/// A request made against any other revision than the current one changes nothing.
pub proof fn law_stale_requests_change_nothing(
    session: SessionModel,
    action: ApiActionRequest,
    undo: ApiUndoRequest,
    new_game: ApiNewGameRequest,
)
    requires
        action.revision != session.revision,
        undo.revision != session.revision,
        new_game.revision != session.revision,
    ensures
        session_after_action(session, action) == session,
        session_after_undo(session, undo) == session,
        session_after_new_game(session, new_game) == session,
{
}


/// One generation, cell by cell: a stone survives exactly when its own color
/// leads the stones around it by two or three, so a lead of four or more, or
/// of less than two, empties it; an empty point is born to the color that
/// leads by exactly three, and stays empty otherwise.
pub proof fn law_life_rules(board: Seq<Cell>, size: int, i: int)
    requires
        0 <= i < board.len(),
    ensures
        ({
            let black = neighbor_count(board, size, i % size, i / size, Player::Black);
            let white = neighbor_count(board, size, i % size, i / size, Player::White);
            let next = evolve_board(board, size)[i];
            &&& evolve_board(board, size).len() == board.len()
            &&& board[i] == Cell::Black ==> (next == Cell::Black <==> (black - white == 2 || black
                - white == 3))
            &&& board[i] == Cell::Black ==> (next == Cell::Empty <==> !(black - white == 2 || black
                - white == 3))
            &&& board[i] == Cell::White ==> (next == Cell::White <==> (white - black == 2 || white
                - black == 3))
            &&& board[i] == Cell::White ==> (next == Cell::Empty <==> !(white - black == 2 || white
                - black == 3))
            &&& board[i] == Cell::Empty ==> (next == Cell::Black <==> black - white == 3)
            &&& board[i] == Cell::Empty ==> (next == Cell::White <==> white - black == 3)
            &&& board[i] == Cell::Empty ==> (next == Cell::Empty <==> (black - white != 3 && white
                - black != 3))
            &&& board[i] == Cell::Black && (black - white >= 4 || black - white < 2) ==> next
                == Cell::Empty
            &&& board[i] == Cell::White && (white - black >= 4 || white - black < 2) ==> next
                == Cell::Empty
        }),
{
}

/// An accepted action-phase placement puts the stone on its (empty) point and
/// then evolves every cell of that board by the rules of one generation.
pub proof fn law_action_turn_follows_life_rules(m: GameModel, point: Point, color: Player, i: int)
    requires
        model_wf(m),
        m.phase == GamePhase::Action,
        step(m, Action::Place { point, color }) is Ok,
        0 <= i < m.board.len(),
    ensures
        ({
            let s = m.size as int;
            let index = board_index(m.size, point);
            let moved = m.board.update(index, color.cell());
            let after = step(m, Action::Place { point, color })->Ok_0.0.board;
            let black = neighbor_count(moved, s, i % s, i / s, Player::Black);
            let white = neighbor_count(moved, s, i % s, i / s, Player::White);
            &&& on_board(m.size, point)
            &&& m.board[index] == Cell::Empty
            &&& after.len() == m.board.len()
            &&& moved[i] == Cell::Black ==> (after[i] == Cell::Black <==> (black - white == 2
                || black - white == 3))
            &&& moved[i] == Cell::White ==> (after[i] == Cell::White <==> (white - black == 2
                || white - black == 3))
            &&& moved[i] != Cell::Empty ==> (after[i] == Cell::Empty || after[i] == moved[i])
            &&& moved[i] == Cell::Empty ==> (after[i] == Cell::Black <==> black - white == 3)
            &&& moved[i] == Cell::Empty ==> (after[i] == Cell::White <==> white - black == 3)
        }),
{
    let s = m.size as int;
    lemma_index_in_bounds(s, point.x as int, point.y as int);
    let moved = m.board.update(board_index(m.size, point), color.cell());
    law_life_rules(moved, s, i);
}

/// Whatever the phase, a stone can never be placed on an occupied point: the
/// game refuses it with `PointOccupied` and stays as it was, and every accepted
/// placement is on an empty point of the board.
pub proof fn law_occupied_points_are_refused(m: GameModel, point: Point, color: Player)
    requires
        model_wf(m),
    ensures
        m.status == GameStatus::Playing && on_board(m.size, point) && m.board[board_index(
            m.size,
            point,
        )] != Cell::Empty ==> step(m, Action::Place { point, color }) == Err::<
            (GameModel, TurnResult),
            ActionError,
        >(ActionError::PointOccupied(point)) && placement_check(m, point, color) is Err,
        placement_check(m, point, color) is Ok ==> on_board(m.size, point) && m.board[board_index(
            m.size,
            point,
        )] == Cell::Empty,
        step(m, Action::Place { point, color }) is Ok ==> on_board(m.size, point) && m.board[board_index(
            m.size,
            point,
        )] == Cell::Empty,
{
}

/// The change the client is told of for position `index`.
pub open spec fn change_at(before: Seq<Cell>, after: Seq<Cell>, size: u8, index: int) -> ApiCellChange {
    ApiCellChange {
        x: (index % size as int) as u8,
        y: (index / size as int) as u8,
        before: api_cell(before[index]),
        after: api_cell(after[index]),
    }
}

proof fn lemma_changes_listed(before: Seq<Cell>, after: Seq<Cell>, size: u8, n: int, i: int)
    requires
        0 <= i < n,
        before[i] != after[i],
    ensures
        exists|k: int|
            0 <= k < cell_changes(before, after, size, n).len() && #[trigger] cell_changes(
                before,
                after,
                size,
                n,
            )[k] == change_at(before, after, size, i),
    decreases n,
{
    let earlier = cell_changes(before, after, size, n - 1);
    let all = cell_changes(before, after, size, n);
    if i == n - 1 {
        assert(all == earlier.push(change_at(before, after, size, i)));
        assert(all[all.len() - 1] == change_at(before, after, size, i));
    } else {
        lemma_changes_listed(before, after, size, n - 1, i);
        let k = choose|k: int|
            0 <= k < earlier.len() && #[trigger] earlier[k] == change_at(before, after, size, i);
        if before[n - 1] != after[n - 1] {
            assert(all == earlier.push(change_at(before, after, size, n - 1)));
        } else {
            assert(all == earlier);
        }
        assert(all[k] == earlier[k]);
    }
}

proof fn lemma_listed_changes_are_real(before: Seq<Cell>, after: Seq<Cell>, size: u8, n: int, k: int)
    requires
        0 <= k < cell_changes(before, after, size, n).len(),
    ensures
        exists|i: int|
            0 <= i < n && before[i] != after[i] && #[trigger] cell_changes(before, after, size, n)[k]
                == change_at(before, after, size, i),
    decreases n,
{
    let earlier = cell_changes(before, after, size, n - 1);
    let all = cell_changes(before, after, size, n);
    if before[n - 1] != after[n - 1] {
        assert(all == earlier.push(change_at(before, after, size, n - 1)));
    } else {
        assert(all == earlier);
    }
    if k < earlier.len() {
        lemma_listed_changes_are_real(before, after, size, n - 1, k);
        let i = choose|i: int|
            0 <= i < n - 1 && before[i] != after[i] && #[trigger] earlier[k] == change_at(
                before,
                after,
                size,
                i,
            );
        assert(all[k] == change_at(before, after, size, i));
    } else {
        assert(all[k] == change_at(before, after, size, n - 1));
    }
}

/// The reported changes are exactly the points whose content differs: every
/// differing position among the first `n` is listed with its before and after
/// content, and every listed change is such a position.
pub proof fn law_reported_changes_are_complete(before: Seq<Cell>, after: Seq<Cell>, size: u8, n: int)
    ensures
        forall|i: int|
            0 <= i < n && before[i] != after[i] ==> exists|k: int|
                0 <= k < cell_changes(before, after, size, n).len() && #[trigger] cell_changes(
                    before,
                    after,
                    size,
                    n,
                )[k] == change_at(before, after, size, i),
        forall|k: int|
            0 <= k < cell_changes(before, after, size, n).len() ==> exists|i: int|
                0 <= i < n && before[i] != after[i] && #[trigger] cell_changes(
                    before,
                    after,
                    size,
                    n,
                )[k] == change_at(before, after, size, i),
{
    assert forall|i: int| 0 <= i < n && before[i] != after[i] implies exists|k: int|
        0 <= k < cell_changes(before, after, size, n).len() && #[trigger] cell_changes(
            before,
            after,
            size,
            n,
        )[k] == change_at(before, after, size, i) by {
        lemma_changes_listed(before, after, size, n, i);
    }
    assert forall|k: int| 0 <= k < cell_changes(before, after, size, n).len() implies exists|i: int|
        0 <= i < n && before[i] != after[i] && #[trigger] cell_changes(before, after, size, n)[k]
            == change_at(before, after, size, i) by {
        lemma_listed_changes_are_real(before, after, size, n, k);
    }
}

/// The accepted board sizes are exactly the odd sides from 5 to 31.
pub proof fn law_valid_board_sizes(size: u8)
    ensures
        valid_board_size(size) <==> (5 <= size && size <= 31 && size % 2 == 1),
        valid_board_size(size) <==> (size == 5 || size == 7 || size == 9 || size == 11 || size
            == 13 || size == 15 || size == 17 || size == 19 || size == 21 || size == 23 || size
            == 25 || size == 27 || size == 29 || size == 31),
{
}

/// An accepted new-game request replaces the game, whatever it was, by an empty
/// board of the requested side in layout with Black to move, clears the
/// history and advances the revision.
pub proof fn law_new_game_starts_afresh(session: SessionModel, request: ApiNewGameRequest)
    requires
        request.revision == session.revision,
        5 <= request.size <= 31,
        request.size % 2 == 1,
    ensures
        ({
            let after = session_after_new_game(session, request);
            &&& after.game.size == request.size
            &&& after.game.board.len() == request.size as int * request.size as int
            &&& forall|i: int| 0 <= i < after.game.board.len() ==> after.game.board[i] == Cell::Empty
            &&& after.game.phase == GamePhase::Layout
            &&& after.game.current_player == Player::Black
            &&& after.game.consecutive_passes == 0
            &&& after.game.generation == 0
            &&& after.game.status == GameStatus::Playing
            &&& after.history.len() == 0
            &&& after.revision == (session.revision + 1) as u64
        }),
{
}


/// During layout a stone of the wrong color, or in the other player's half, is
/// refused, and a point off the board is always refused.
pub proof fn law_placement_refusals(m: GameModel, point: Point, color: Player)
    requires
        model_wf(m),
        m.status == GameStatus::Playing,
    ensures
        !(point.x < m.size && point.y < m.size) ==> step(m, Action::Place { point, color }) == Err::<
            (GameModel, TurnResult),
            ActionError,
        >(ActionError::PointOutOfBounds(point)),
        point.x < m.size && point.y < m.size && m.board[point.y * m.size + point.x] == Cell::Empty
            && m.phase == GamePhase::Layout && color != m.current_player ==> step(
            m,
            Action::Place { point, color },
        ) == Err::<(GameModel, TurnResult), ActionError>(ActionError::WrongLayoutColor),
        point.x < m.size && point.y < m.size && m.board[point.y * m.size + point.x] == Cell::Empty
            && m.phase == GamePhase::Layout && color == m.current_player && (color == Player::Black
            && point.y > m.size / 2 || color == Player::White && point.y < m.size / 2) ==> step(
            m,
            Action::Place { point, color },
        ) == Err::<(GameModel, TurnResult), ActionError>(ActionError::OutsidePlayerRegion(point)),
        point.x < m.size && point.y < m.size && m.board[point.y * m.size + point.x] == Cell::Empty
            && m.phase == GamePhase::Action ==> step(m, Action::Place { point, color }) is Ok,
{
}

proof fn lemma_count_prefix_multiset(board: Seq<Cell>, cell: Cell, n: int)
    requires
        0 <= n <= board.len(),
    ensures
        count_prefix(board, cell, n) == board.take(n).to_multiset().count(cell),
    decreases n,
{
    broadcast use vstd::seq_lib::group_to_multiset_ensures;

    if n == 0 {
        assert(board.take(0) =~= Seq::<Cell>::empty());
    } else {
        lemma_count_prefix_multiset(board, cell, n - 1);
        assert(board.take(n) =~= board.take(n - 1).push(board[n - 1]));
    }
}

/// The stones of a color that are counted are exactly the cells of that
/// color on the board: the count is the multiplicity of the cell in the board.
pub proof fn law_counts_are_multiplicities(board: Seq<Cell>, cell: Cell)
    ensures
        count_cells(board, cell) == board.to_multiset().count(cell),
{
    lemma_count_prefix_multiset(board, cell, board.len() as int);
    assert(board.take(board.len() as int) =~= board);
}

/// A lone stone is a neighbor of exactly the eight points around it: for a
/// board holding one stone, the neighbor count of a point is one when the
/// point is a different point at most one column and one row away, and zero
/// otherwise; the other color counts nothing.
pub proof fn law_single_stone_neighbors(size: int, sx: int, sy: int, x: int, y: int, player: Player)
    requires
        0 <= sx < size,
        0 <= sy < size,
        0 <= x < size,
        0 <= y < size,
    ensures
        ({
            let board = Seq::new(
                (size * size) as nat,
                |i: int|
                    if i == sy * size + sx {
                        player.cell()
                    } else {
                        Cell::Empty
                    },
            );
            &&& neighbor_count(board, size, x, y, player) == if (x != sx || y != sy) && -1 <= x
                - sx <= 1 && -1 <= y - sy <= 1 {
                1int
            } else {
                0int
            }
            &&& neighbor_count(board, size, x, y, player.other()) == 0
        }),
{
    let board = Seq::new(
        (size * size) as nat,
        |i: int|
            if i == sy * size + sx {
                player.cell()
            } else {
                Cell::Empty
            },
    );
    lemma_index_in_bounds(size, sx, sy);
    lemma_index_coordinates(size, sx, sy);
    assert forall|dx: int, dy: int|
        -1 <= dx <= 1 && -1 <= dy <= 1 implies #[trigger] occupant(board, size, x + dx, y + dy)
        == if x + dx == sx && y + dy == sy {
        player.cell()
    } else {
        Cell::Empty
    } by {
        if 0 <= x + dx < size && 0 <= y + dy < size {
            lemma_index_in_bounds(size, x + dx, y + dy);
            lemma_index_coordinates(size, x + dx, y + dy);
        }
    }
    assert(occupant(board, size, x - 1, y - 1) == occupant(board, size, x + -1, y + -1));
    assert(occupant(board, size, x, y - 1) == occupant(board, size, x + 0, y + -1));
    assert(occupant(board, size, x + 1, y - 1) == occupant(board, size, x + 1, y + -1));
    assert(occupant(board, size, x - 1, y) == occupant(board, size, x + -1, y + 0));
    assert(occupant(board, size, x + 1, y) == occupant(board, size, x + 1, y + 0));
    assert(occupant(board, size, x - 1, y + 1) == occupant(board, size, x + -1, y + 1));
    assert(occupant(board, size, x, y + 1) == occupant(board, size, x + 0, y + 1));
    assert(occupant(board, size, x + 1, y + 1) == occupant(board, size, x + 1, y + 1));
}

/// The client's names for the game's values, one for one.
pub proof fn law_client_names(stats: EvolutionStats)
    ensures
        api_player(Player::Black) == ApiPlayer::Black,
        api_player(Player::White) == ApiPlayer::White,
        api_cell(Cell::Empty) == ApiCell::Empty,
        api_cell(Cell::Black) == ApiCell::Black,
        api_cell(Cell::White) == ApiCell::White,
        api_phase(GamePhase::Layout) == ApiPhase::Layout,
        api_phase(GamePhase::Action) == ApiPhase::Action,
        api_status(GameStatus::Playing) == ApiStatus::Playing,
        api_status(GameStatus::Won(Player::Black)) == ApiStatus::BlackWon,
        api_status(GameStatus::Won(Player::White)) == ApiStatus::WhiteWon,
        api_status(GameStatus::Draw) == ApiStatus::Draw,
        api_evolution_stats(stats) == (ApiEvolutionStats {
            born_black: stats.born_black,
            born_white: stats.born_white,
            died_black: stats.died_black,
            died_white: stats.died_white,
        }),
{
}

/// An accepted action is recorded with the game it was played on, the player
/// who was to move and the turn's report.
pub proof fn law_history_records_turn(session: SessionModel, request: ApiActionRequest)
    requires
        request.revision == session.revision,
        step(session.game, core_action(request.action)) is Ok,
    ensures
        ({
            let after = session_after_action(session, request);
            let outcome = step(session.game, core_action(request.action))->Ok_0;
            &&& after.game == outcome.0
            &&& after.history.len() == session.history.len() + 1
            &&& after.history.last().before == session.game
            &&& after.history.last().player == session.game.current_player
            &&& after.history.last().result == outcome.1
            &&& after.history.drop_last() == session.history
        }),
{
    assert(session_after_action(session, request).history.drop_last() =~= session.history);
}

} // verus!
