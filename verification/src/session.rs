//! One shared game with its history of accepted turns: every change of the
//! session must name the revision it was made against, and accepted turns
//! can be taken back one at a time.
use vstd::prelude::*;

use crate::game::{Action, Game, TurnResult, GameConfig, GameError, GamePhase, GameStatus};
use crate::protocol::{
    core_action, describes_session, reports_turn, ApiActionRequest, ApiActionResult,
    ApiNewGameRequest, ApiState, ApiUndoRequest, EntryModel, HistoryEntry,
};
use crate::rules::{evolves, initial_model, model_wf, step, valid_board_size, GameModel};
use crate::text::{
    action_error_message, action_error_printable, decimal, game_error_message, push_decimal,
};

verus! {

/// A session as mathematical values.
#[verifier::ext_equal]
pub struct SessionModel {
    pub game: GameModel,
    pub history: Seq<EntryModel>,
    pub revision: u64,
}

/// The game and every game kept for taking turns back are well formed.
pub open spec fn session_wf(session: SessionModel) -> bool {
    &&& model_wf(session.game)
    &&& forall|i: int| 0 <= i < session.history.len() ==> model_wf(#[trigger] session.history[i].before)
}

/// The message for a request made against an outdated revision.
pub open spec fn stale_revision_message(requested: u64, current: u64) -> Seq<char> {
    "棋局已更新：请求版本 "@ + decimal(requested as nat) + "，当前版本 "@ + decimal(current as nat)
}

/// The message for taking back a turn when there is none.
pub open spec fn nothing_to_undo_message() -> Seq<char> {
    "没有可悔棋的操作"@
}

/// `result` is a refusal with exactly `message`.
pub open spec fn refused_with<T>(result: Result<T, String>, message: Seq<char>) -> bool {
    match result {
        Ok(_) => false,
        Err(text) => text@ == message,
    }
}

/// The history entry recorded for an accepted turn.
pub open spec fn entry_for(before: GameModel, result: TurnResult) -> EntryModel {
    EntryModel { before, player: before.current_player, result }
}

/// The session after an action request: an accepted turn is recorded and
/// advances the revision; anything else leaves the session as it was.
pub open spec fn session_after_action(session: SessionModel, request: ApiActionRequest) -> SessionModel {
    if request.revision != session.revision {
        session
    } else {
        match step(session.game, core_action(request.action)) {
            Ok(outcome) => SessionModel {
                game: outcome.0,
                history: session.history.push(entry_for(session.game, outcome.1)),
                revision: (session.revision + 1) as u64,
            },
            Err(_) => session,
        }
    }
}

/// The session after a new-game request.
pub open spec fn session_after_new_game(session: SessionModel, request: ApiNewGameRequest) -> SessionModel {
    if request.revision == session.revision && valid_board_size(request.size) {
        SessionModel {
            game: initial_model(request.size),
            history: Seq::empty(),
            revision: (session.revision + 1) as u64,
        }
    } else {
        session
    }
}

/// The session after an undo request: the last recorded turn is taken back.
pub open spec fn session_after_undo(session: SessionModel, request: ApiUndoRequest) -> SessionModel {
    if request.revision == session.revision && session.history.len() > 0 {
        SessionModel {
            game: session.history.last().before,
            history: session.history.drop_last(),
            revision: (session.revision + 1) as u64,
        }
    } else {
        session
    }
}

/// Performing `request` runs into no arithmetic limit: the generation and the
/// revision counters can be advanced, and the coordinates of a refused point
/// can be written one-based.
pub open spec fn action_request_in_range(session: SessionModel, request: ApiActionRequest) -> bool {
    request.revision == session.revision ==> {
        let action = core_action(request.action);
        &&& evolves(session.game, action) ==> session.game.generation < u32::MAX
        &&& match step(session.game, action) {
            Ok(_) => session.revision < u64::MAX,
            Err(error) => action_error_printable(error),
        }
    }
}

/// The shared game, its history and its revision counter.
pub struct GameSession {
    game: Game,
    history: Vec<HistoryEntry>,
    revision: u64,
}

impl View for GameSession {
    type V = SessionModel;

    closed spec fn view(&self) -> SessionModel {
        SessionModel {
            game: self.game@,
            history: self.history@.map_values(|entry: HistoryEntry| entry@),
            revision: self.revision,
        }
    }
}

impl Default for GameSession {
    fn default() -> (session: Self)
        ensures
            session.wf(),
            session@ == (SessionModel {
                game: initial_model(15),
                history: Seq::empty(),
                revision: 0,
            }),
    {
        let session = GameSession { game: Game::new(GameConfig::default()), history: Vec::new(), revision: 0 };
        assert(session@.history =~= Seq::empty());
        session
    }
}

impl GameSession {
    /// The game and every kept game are well formed.
    pub open spec fn wf(&self) -> bool {
        session_wf(self@)
    }

    /// The game being played.
    pub fn game(&self) -> (game: &Game)
        ensures
            game@ == self@.game,
    {
        &self.game
    }

    /// The number of changes made to the session so far.
    pub fn revision(&self) -> (revision: u64)
        ensures
            revision == self@.revision,
    {
        self.revision
    }

    /// The accepted turns that can be taken back, oldest first.
    pub fn history(&self) -> (history: &[HistoryEntry])
        ensures
            history@.map_values(|entry: HistoryEntry| entry@) == self@.history,
    {
        self.history.as_slice()
    }

    /// What the client is shown of the session.
    pub fn state(&self) -> (state: ApiState)
        requires
            self.wf(),
        ensures
            describes_session(state, self@.game, self@.revision, self@.history),
    {
        ApiState::from_session(&self.game, self.revision, self.history.as_slice())
    }

    /// Accepts only requests made against the current revision.
    pub fn validate_revision(&self, revision: u64) -> (result: Result<(), String>)
        ensures
            revision == self@.revision ==> result is Ok,
            revision != self@.revision ==> refused_with(
                result,
                stale_revision_message(revision, self@.revision),
            ),
    {
        if revision == self.revision {
            Ok(())
        } else {
            let mut message = String::from_str("棋局已更新：请求版本 ");
            push_decimal(&mut message, revision);
            message.append("，当前版本 ");
            push_decimal(&mut message, self.revision);
            Err(message)
        }
    }

    /// Whether performing `request` would run into an arithmetic limit.
    pub fn action_request_overflows(&self, request: &ApiActionRequest) -> (overflows: bool)
        requires
            self.wf(),
        ensures
            overflows == !action_request_in_range(self@, *request),
    {
        if request.revision != self.revision {
            return false;
        }
        let action = request.action.to_core();
        if self.game.status() != GameStatus::Playing {
            return false;
        }
        match action {
            Action::Place { point, color } => {
                if point.x == u8::MAX || point.y == u8::MAX {
                    return true;
                }
                if !self.game.can_place(point, color) {
                    return false;
                }
                if self.game.phase() == GamePhase::Action && self.game.generation() == u32::MAX {
                    return true;
                }
                self.revision == u64::MAX
            },
            Action::Pass => {
                if self.game.phase() != GamePhase::Layout {
                    return false;
                }
                self.revision == u64::MAX
            },
        }
    }

    /// Performs the requested action; an accepted one is recorded in the
    /// history and advances the revision.  A refused request changes nothing.
    pub fn apply_action(&mut self, request: ApiActionRequest) -> (result: Result<ApiActionResult, String>)
        requires
            old(self).wf(),
            action_request_in_range(old(self)@, request),
        ensures
            final(self).wf(),
            final(self)@ == session_after_action(old(self)@, request),
            request.revision != old(self)@.revision ==> refused_with(
                result,
                stale_revision_message(request.revision, old(self)@.revision),
            ),
            request.revision == old(self)@.revision ==> match step(
                old(self)@.game,
                core_action(request.action),
            ) {
                Ok(outcome) => result matches Ok(report) && reports_turn(
                    report,
                    outcome.1,
                    old(self)@.game,
                    outcome.0,
                ),
                Err(error) => refused_with(result, action_error_message(error)),
            },
    {
        match self.validate_revision(request.revision) {
            Ok(()) => {},
            Err(message) => return Err(message),
        }
        let before = self.game.clone();
        let player = self.game.current_player();
        let result = match self.game.apply(request.action.to_core()) {
            Ok(result) => result,
            Err(error) => return Err(error.message()),
        };
        let report = ApiActionResult::new(result, &before, &self.game);
        let ghost old_history = self@.history;
        self.history.push(HistoryEntry { before, player, result });
        self.revision = self.revision + 1;
        proof {
            assert(self@.history =~= old_history.push(entry_for(old(self)@.game, result)));
        }
        Ok(report)
    }

    /// Starts a new game of the requested size with an empty history.
    pub fn new_game(&mut self, request: ApiNewGameRequest) -> (result: Result<(), String>)
        requires
            old(self).wf(),
            request.revision == old(self)@.revision && valid_board_size(request.size)
                ==> old(self)@.revision < u64::MAX,
        ensures
            final(self).wf(),
            final(self)@ == session_after_new_game(old(self)@, request),
            request.revision != old(self)@.revision ==> refused_with(
                result,
                stale_revision_message(request.revision, old(self)@.revision),
            ),
            request.revision == old(self)@.revision && !valid_board_size(request.size)
                ==> refused_with(result, game_error_message(GameError::InvalidSize(request.size))),
            request.revision == old(self)@.revision && valid_board_size(request.size) ==> result
                is Ok,
    {
        match self.validate_revision(request.revision) {
            Ok(()) => {},
            Err(message) => return Err(message),
        }
        let config = match GameConfig::new(request.size) {
            Ok(config) => config,
            Err(error) => return Err(error.message()),
        };
        self.game = Game::new(config);
        self.history.clear();
        self.revision = self.revision + 1;
        proof {
            assert(self@.history =~= Seq::<EntryModel>::empty());
        }
        Ok(())
    }

    /// Takes back the last accepted turn.
    pub fn undo(&mut self, request: ApiUndoRequest) -> (result: Result<(), String>)
        requires
            old(self).wf(),
            request.revision == old(self)@.revision && old(self)@.history.len() > 0
                ==> old(self)@.revision < u64::MAX,
        ensures
            final(self).wf(),
            final(self)@ == session_after_undo(old(self)@, request),
            request.revision != old(self)@.revision ==> refused_with(
                result,
                stale_revision_message(request.revision, old(self)@.revision),
            ),
            request.revision == old(self)@.revision && old(self)@.history.len() == 0
                ==> refused_with(result, nothing_to_undo_message()),
            request.revision == old(self)@.revision && old(self)@.history.len() > 0 ==> result
                is Ok,
    {
        match self.validate_revision(request.revision) {
            Ok(()) => {},
            Err(message) => return Err(message),
        }
        let ghost old_entries = self.history@;
        let entry = match self.history.pop() {
            Some(entry) => entry,
            None => return Err(String::from_str("没有可悔棋的操作")),
        };
        proof {
            assert(self.history@ =~= old_entries.drop_last());
            assert(self@.history =~= old(self)@.history.drop_last());
        }
        self.game = entry.before;
        self.revision = self.revision + 1;
        Ok(())
    }
}

} // verus!
