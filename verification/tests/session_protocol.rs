use life_war::assets::mime_type;
use life_war::protocol::ApiAction;
use life_war::protocol::ApiActionRequest;
use life_war::protocol::ApiActionResult;
use life_war::protocol::ApiBoard;
use life_war::protocol::ApiCell;
use life_war::protocol::ApiCellChange;
use life_war::protocol::ApiEvolutionStats;
use life_war::protocol::ApiHistoryEntry;
use life_war::protocol::ApiNewGameRequest;
use life_war::protocol::ApiPhase;
use life_war::protocol::ApiPlayer;
use life_war::protocol::ApiState;
use life_war::protocol::ApiStatus;
use life_war::protocol::ApiUndoRequest;
use life_war::session::GameSession;
use life_war::Action;
use life_war::ActionError;
use life_war::Cell;
use life_war::EvolutionStats;
use life_war::Game;
use life_war::GameConfig;
use life_war::GameError;
use life_war::GamePhase;
use life_war::GameStatus;
use life_war::Player;
use life_war::Point;

fn place(revision: u64, x: u8, y: u8, color: ApiPlayer) -> ApiActionRequest {
    ApiActionRequest { revision, action: ApiAction::Place { x, y, color } }
}

fn pass(revision: u64) -> ApiActionRequest {
    ApiActionRequest { revision, action: ApiAction::Pass }
}

#[test]
fn a_new_session_shows_an_empty_default_game() {
    let session = GameSession::default();
    let state = session.state();
    assert_eq!(state.revision, 0);
    assert_eq!(state.board.size, 15);
    assert_eq!(state.board.cells.len(), 225);
    assert!(state.board.cells.iter().all(|cell| *cell == ApiCell::Empty));
    assert_eq!(state.phase, ApiPhase::Layout);
    assert_eq!(state.current_player, ApiPlayer::Black);
    assert_eq!(state.consecutive_passes, 0);
    assert_eq!(state.generation, 0);
    assert_eq!((state.black_count, state.white_count), (0, 0));
    assert_eq!(state.status, ApiStatus::Playing);
    assert!(!state.can_undo);
    assert!(state.history.is_empty());
}

#[test]
fn stale_requests_are_refused_and_change_nothing() {
    let mut session = GameSession::default();
    let error = session.apply_action(place(3, 7, 7, ApiPlayer::Black)).unwrap_err();
    assert_eq!(error, "棋局已更新：请求版本 3，当前版本 0");
    assert_eq!(session.revision(), 0);
    assert!(session.history().is_empty());
    assert_eq!(session.undo(ApiUndoRequest { revision: 1 }), Err("棋局已更新：请求版本 1，当前版本 0".to_string()));
    assert_eq!(
        session.new_game(ApiNewGameRequest { revision: 9, size: 7 }),
        Err("棋局已更新：请求版本 9，当前版本 0".to_string())
    );
    assert_eq!(session.game().size(), 15);
    assert_eq!(session.revision(), 0);
}

#[test]
fn revision_messages_write_numbers_in_full() {
    let session = GameSession::default();
    assert_eq!(session.validate_revision(0), Ok(()));
    assert_eq!(
        session.validate_revision(u64::MAX),
        Err("棋局已更新：请求版本 18446744073709551615，当前版本 0".to_string())
    );
    assert_eq!(session.validate_revision(10), Err("棋局已更新：请求版本 10，当前版本 0".to_string()));
}

#[test]
fn an_accepted_action_is_reported_recorded_and_advances_the_revision() {
    let mut session = GameSession::default();
    let report = session.apply_action(place(0, 7, 2, ApiPlayer::Black)).unwrap();
    assert_eq!(report.phase_before, ApiPhase::Layout);
    assert_eq!(report.phase_after, ApiPhase::Layout);
    assert_eq!(report.generation, 0);
    assert_eq!(report.evolution, None);
    assert_eq!(
        report.changes,
        vec![ApiCellChange { x: 7, y: 2, before: ApiCell::Empty, after: ApiCell::Black }]
    );
    let state = session.state();
    assert_eq!(state.revision, 1);
    assert!(state.can_undo);
    assert_eq!(state.current_player, ApiPlayer::White);
    assert_eq!(state.black_count, 1);
    assert_eq!(state.board.cells[2 * 15 + 7], ApiCell::Black);
    assert_eq!(
        state.history,
        vec![ApiHistoryEntry {
            number: 1,
            player: ApiPlayer::Black,
            action: ApiAction::Place { x: 7, y: 2, color: ApiPlayer::Black },
            phase: ApiPhase::Layout,
            generation: 0,
        }]
    );
    let report = session.apply_action(pass(1)).unwrap();
    assert!(report.changes.is_empty());
    let state = session.state();
    assert_eq!(state.history.len(), 2);
    assert_eq!(state.history[1].number, 2);
    assert_eq!(state.history[1].player, ApiPlayer::White);
    assert_eq!(state.history[1].action, ApiAction::Pass);
    assert_eq!(state.consecutive_passes, 1);
}

#[test]
fn refused_actions_are_explained_and_change_nothing() {
    let mut session = GameSession::default();
    assert_eq!(session.apply_action(place(0, 15, 0, ApiPlayer::Black)).unwrap_err(), "坐标 (16, 1) 超出棋盘");
    assert_eq!(session.apply_action(place(0, 3, 9, ApiPlayer::Black)).unwrap_err(), "坐标 (4, 10) 不在当前玩家的布局区域");
    assert_eq!(session.apply_action(place(0, 3, 3, ApiPlayer::White)).unwrap_err(), "布局阶段只能放置当前玩家自己的颜色");
    session.apply_action(place(0, 3, 3, ApiPlayer::Black)).unwrap();
    assert_eq!(session.apply_action(place(1, 3, 3, ApiPlayer::White)).unwrap_err(), "坐标 (4, 4) 已有棋子");
    assert_eq!(session.revision(), 1);
    assert_eq!(session.history().len(), 1);
}

#[test]
fn undo_takes_back_the_last_turn() {
    let mut session = GameSession::default();
    assert_eq!(session.undo(ApiUndoRequest { revision: 0 }), Err("没有可悔棋的操作".to_string()));
    assert_eq!(session.revision(), 0);
    session.apply_action(place(0, 1, 1, ApiPlayer::Black)).unwrap();
    let before = session.game().clone();
    session.apply_action(place(1, 1, 13, ApiPlayer::White)).unwrap();
    assert_eq!(session.undo(ApiUndoRequest { revision: 2 }), Ok(()));
    assert_eq!(session.revision(), 3);
    assert_eq!(session.game(), &before);
    assert_eq!(session.history().len(), 1);
    assert_eq!(session.state().current_player, ApiPlayer::White);
    assert_eq!(session.undo(ApiUndoRequest { revision: 3 }), Ok(()));
    assert_eq!(session.game(), &Game::default());
    assert!(!session.state().can_undo);
}

#[test]
fn undo_restores_the_board_from_before_an_evolution() {
    let mut session = GameSession::default();
    let mut revision = 0;
    for request in [
        ApiAction::Place { x: 5, y: 5, color: ApiPlayer::Black },
        ApiAction::Place { x: 5, y: 9, color: ApiPlayer::White },
        ApiAction::Pass,
        ApiAction::Pass,
    ] {
        session.apply_action(ApiActionRequest { revision, action: request }).unwrap();
        revision += 1;
    }
    let before = session.game().clone();
    let report = session.apply_action(place(revision, 0, 0, ApiPlayer::Black)).unwrap();
    assert_eq!(report.phase_before, ApiPhase::Action);
    assert_eq!(report.generation, 1);
    assert_eq!(
        report.evolution,
        Some(ApiEvolutionStats { born_black: 0, born_white: 0, died_black: 2, died_white: 1 })
    );
    // The stone placed at (0, 0) died at once, so that point shows no change.
    assert_eq!(report.changes.len(), 2);
    assert_eq!(report.changes[0], ApiCellChange { x: 5, y: 5, before: ApiCell::Black, after: ApiCell::Empty });
    assert_eq!(report.changes[1], ApiCellChange { x: 5, y: 9, before: ApiCell::White, after: ApiCell::Empty });
    assert_eq!(session.state().status, ApiStatus::Draw);
    session.undo(ApiUndoRequest { revision: revision + 1 }).unwrap();
    assert_eq!(session.game(), &before);
    assert_eq!(session.state().status, ApiStatus::Playing);
}

#[test]
fn new_game_checks_the_size_and_clears_the_history() {
    let mut session = GameSession::default();
    session.apply_action(place(0, 0, 0, ApiPlayer::Black)).unwrap();
    assert_eq!(
        session.new_game(ApiNewGameRequest { revision: 1, size: 4 }),
        Err("棋盘尺寸必须是 5 到 31 之间的奇数，收到 4".to_string())
    );
    assert_eq!(session.revision(), 1);
    assert_eq!(session.new_game(ApiNewGameRequest { revision: 1, size: 7 }), Ok(()));
    let state = session.state();
    assert_eq!(state.revision, 2);
    assert_eq!(state.board.size, 7);
    assert_eq!(state.board.cells.len(), 49);
    assert!(state.history.is_empty());
    assert!(!state.can_undo);
}

#[test]
fn overflowing_requests_are_recognised_before_they_are_made() {
    let session = GameSession::default();
    assert!(session.action_request_overflows(&place(0, 255, 0, ApiPlayer::Black)));
    assert!(session.action_request_overflows(&place(0, 0, 255, ApiPlayer::Black)));
    assert!(!session.action_request_overflows(&place(1, 255, 0, ApiPlayer::Black)));
    assert!(!session.action_request_overflows(&place(0, 254, 0, ApiPlayer::Black)));
    assert!(!session.action_request_overflows(&place(0, 3, 3, ApiPlayer::Black)));
    assert!(!session.action_request_overflows(&pass(0)));
}

#[test]
fn error_messages_are_exact() {
    assert_eq!(ActionError::GameFinished.message(), "对局已经结束");
    assert_eq!(ActionError::PassNotAllowed.message(), "行动阶段必须先在空格落子");
    assert_eq!(ActionError::PointOutOfBounds(Point::new(31, 254)).message(), "坐标 (32, 255) 超出棋盘");
    assert_eq!(ActionError::PointOccupied(Point::new(0, 0)).message(), "坐标 (1, 1) 已有棋子");
    assert_eq!(ActionError::WrongLayoutColor.message(), "布局阶段只能放置当前玩家自己的颜色");
    assert_eq!(
        ActionError::OutsidePlayerRegion(Point::new(9, 10)).message(),
        "坐标 (10, 11) 不在当前玩家的布局区域"
    );
    assert_eq!(GameError::InvalidSize(0).message(), "棋盘尺寸必须是 5 到 31 之间的奇数，收到 0");
    assert_eq!(GameError::InvalidSize(255).message(), "棋盘尺寸必须是 5 到 31 之间的奇数，收到 255");
}

#[test]
fn content_types_follow_the_extension() {
    assert_eq!(mime_type("index.html"), "text/html; charset=utf-8");
    assert_eq!(mime_type("style.css"), "text/css; charset=utf-8");
    assert_eq!(mime_type("app.js"), "text/javascript; charset=utf-8");
    assert_eq!(mime_type("icons/stone.svg"), "image/svg+xml");
    assert_eq!(mime_type("favicon.ico"), "application/octet-stream");
    assert_eq!(mime_type("html"), "application/octet-stream");
    assert_eq!(mime_type(""), "application/octet-stream");
    assert_eq!(mime_type(".js"), "text/javascript; charset=utf-8");
    assert_eq!(mime_type("棋盘.svg"), "image/svg+xml");
    assert_eq!(mime_type("app.json"), "application/octet-stream");
}

#[test]
fn client_and_game_values_correspond() {
    assert_eq!(ApiPlayer::from(Player::Black), ApiPlayer::Black);
    assert_eq!(ApiPlayer::from(Player::White), ApiPlayer::White);
    assert_eq!(Player::from(ApiPlayer::Black), Player::Black);
    assert_eq!(Player::from(ApiPlayer::White), Player::White);
    assert_eq!(ApiCell::from(Cell::Empty), ApiCell::Empty);
    assert_eq!(ApiCell::from(Cell::Black), ApiCell::Black);
    assert_eq!(ApiCell::from(Cell::White), ApiCell::White);
    assert_eq!(ApiPhase::from(GamePhase::Layout), ApiPhase::Layout);
    assert_eq!(ApiPhase::from(GamePhase::Action), ApiPhase::Action);
    assert_eq!(ApiStatus::from(GameStatus::Playing), ApiStatus::Playing);
    assert_eq!(ApiStatus::from(GameStatus::Won(Player::Black)), ApiStatus::BlackWon);
    assert_eq!(ApiStatus::from(GameStatus::Won(Player::White)), ApiStatus::WhiteWon);
    assert_eq!(ApiStatus::from(GameStatus::Draw), ApiStatus::Draw);
    let action = Action::Place { point: Point::new(3, 4), color: Player::White };
    let api = ApiAction::from(action);
    assert_eq!(api, ApiAction::Place { x: 3, y: 4, color: ApiPlayer::White });
    assert_eq!(api.to_core(), action);
    assert_eq!(ApiAction::from(Action::Pass), ApiAction::Pass);
    assert_eq!(ApiAction::Pass.to_core(), Action::Pass);
    let stats = EvolutionStats { born_black: 1, born_white: 2, died_black: 3, died_white: 4 };
    assert_eq!(
        ApiEvolutionStats::from(stats),
        ApiEvolutionStats { born_black: 1, born_white: 2, died_black: 3, died_white: 4 }
    );
}

#[test]
fn board_and_state_mirror_the_game() {
    let mut game = Game::new(GameConfig::new(5).unwrap());
    game.apply(Action::Place { point: Point::new(4, 0), color: Player::Black }).unwrap();
    game.apply(Action::Place { point: Point::new(0, 4), color: Player::White }).unwrap();
    let board = ApiBoard::from_game(&game);
    assert_eq!(board.size, 5);
    assert_eq!(board.cells[4], ApiCell::Black);
    assert_eq!(board.cells[20], ApiCell::White);
    assert_eq!(board.cells.iter().filter(|cell| **cell == ApiCell::Empty).count(), 23);
    let state = ApiState::from_session(&game, 42, &[]);
    assert_eq!(state.revision, 42);
    assert_eq!((state.black_count, state.white_count), (1, 1));
    assert!(!state.can_undo);
}

#[test]
fn action_reports_list_changed_points_in_board_order() {
    let before = Game::new(GameConfig::new(5).unwrap());
    let mut after = before.clone();
    let result = after.apply(Action::Place { point: Point::new(2, 1), color: Player::Black }).unwrap();
    let report = ApiActionResult::new(result, &before, &after);
    assert_eq!(report.changes, vec![ApiCellChange { x: 2, y: 1, before: ApiCell::Empty, after: ApiCell::Black }]);
    let reverse = ApiActionResult::new(result, &after, &before);
    assert_eq!(reverse.changes, vec![ApiCellChange { x: 2, y: 1, before: ApiCell::Black, after: ApiCell::Empty }]);
    let same = ApiActionResult::new(result, &after, &after);
    assert!(same.changes.is_empty());
}
