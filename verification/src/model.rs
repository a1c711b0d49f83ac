//! The game as a state machine over plain values.
//!
//! `GameView` is what a game is, apart from how it is stored. Each operation is
//! a function from the game before, the caller's data and, where a proof comes
//! with the call, whether that proof was accepted, to the game after or to the
//! reason for which the call is rejected.

use crate::errors::ZKBattleshipError;
use crate::groth16::words;
use crate::payload::{HostBoardData, JoinerBoardData, OpeningShotData, PlayerTurnData};
use crate::player::{zero_word, PlayerId};
use vstd::prelude::*;

verus! {

/// The tag of a game. A game that waits for its second player carries the tag
/// `ReadyToStart` and is told apart by being joinable.
#[derive(Clone, Copy, Debug, Eq)]
pub enum GameState {
    /// No shot has been fired.
    ReadyToStart,
    /// The opening shot has been fired and nobody has won.
    Ongoing,
    /// The game is over.
    Won { winner: PlayerId },
}

impl PartialEq for GameState {
    fn eq(&self, other: &GameState) -> (same: bool) {
        match (*self, *other) {
            (GameState::ReadyToStart, GameState::ReadyToStart) => true,
            (GameState::Ongoing, GameState::Ongoing) => true,
            (GameState::Won { winner: mine }, GameState::Won { winner: theirs }) => mine == theirs,
            _ => false,
        }
    }
}

impl vstd::std_specs::cmp::PartialEqSpecImpl for GameState {
    open spec fn obeys_eq_spec() -> bool {
        true
    }

    open spec fn eq_spec(&self, other: &GameState) -> bool {
        *self == *other
    }
}

/// The stages through which a game goes, in their order.
pub enum Stage {
    /// The host has opened the game and the second seat is vacant.
    AwaitingJoiner,
    /// Both players are seated and the host has not fired yet.
    ReadyToStart,
    /// Shots are being exchanged.
    Ongoing,
    /// A player has won. This stage is final.
    Won,
}

/// A game: the two players, their encryption keys and board commitments,
/// whether the second seat is still open, the number of turns played, the
/// shots and hits of the latest turn, and the tag.
pub struct GameView {
    pub players: Seq<PlayerId>,
    pub encryption_pk: Seq<[[u8; 32]; 2]>,
    pub boards: Seq<[u8; 32]>,
    pub joinable: bool,
    pub turns: nat,
    pub shots: Seq<[u8; 32]>,
    pub hits: Seq<[u8; 32]>,
    pub state: GameState,
}

impl GameView {
    /// What holds of every game: two seats, five words of shots and of hits, a
    /// turn counter that fits 16 bits and is zero exactly until the opening
    /// shot, an open seat only before that, and a winner who is seated.
    pub open spec fn wf(self) -> bool {
        &&& self.players.len() == 2
        &&& self.encryption_pk.len() == 2
        &&& self.boards.len() == 2
        &&& self.shots.len() == 5
        &&& self.hits.len() == 5
        &&& self.turns <= u16::MAX
        &&& (self.state is ReadyToStart <==> self.turns == 0)
        &&& (self.joinable ==> self.state is ReadyToStart)
        &&& (self.state matches GameState::Won { winner } ==> winner == self.players[0] || winner
            == self.players[1])
    }

    /// The stage that the game is in.
    pub open spec fn stage(self) -> Stage {
        if self.joinable {
            Stage::AwaitingJoiner
        } else {
            match self.state {
                GameState::ReadyToStart => Stage::ReadyToStart,
                GameState::Ongoing => Stage::Ongoing,
                GameState::Won { .. } => Stage::Won,
            }
        }
    }

    /// The seat of the player whose turn it is.
    pub open spec fn mover_seat(self) -> int {
        (self.turns % 2) as int
    }

    /// The player whose turn it is.
    pub open spec fn current_player(self) -> PlayerId {
        self.players[self.mover_seat()]
    }

    /// The player who moved last, once a turn has been played.
    pub open spec fn previous_player(self) -> PlayerId {
        self.players[((self.turns + 1) % 2) as int]
    }

    /// Whether `who` sits in one of the two seats.
    pub open spec fn is_player(self, who: PlayerId) -> bool {
        who == self.players[0] || who == self.players[1]
    }

    /// Whether both players are seated and the game waits for the opening
    /// shot.
    pub open spec fn is_ready_to_start(self) -> bool {
        !self.joinable && self.state is ReadyToStart
    }

    /// Whether shots are being exchanged.
    pub open spec fn is_ongoing(self) -> bool {
        self.state is Ongoing
    }

    /// The public inputs of the proof of a turn: the mover's board commitment,
    /// then the five words of the shot that the mover answers.
    pub open spec fn shot_inputs(self) -> Seq<Seq<u8>> {
        seq![self.boards[self.mover_seat()]@] + words(self.shots)
    }

    /// The game that a host has just opened: the host in the first seat, the
    /// second seat vacant and open, everything else zero.
    pub open spec fn opened(host: PlayerId, data: HostBoardData) -> GameView {
        GameView {
            players: seq![host, PlayerId::vacant()],
            encryption_pk: seq![data.host_encryption_pubkey, [zero_word(), zero_word()]],
            boards: seq![data.board_hash, zero_word()],
            joinable: true,
            turns: 0,
            shots: Seq::new(5, |i: int| zero_word()),
            hits: Seq::new(5, |i: int| zero_word()),
            state: GameState::ReadyToStart,
        }
    }

    /// The game with `joiner` in the second seat.
    pub open spec fn joined(self, joiner: PlayerId, data: JoinerBoardData) -> GameView {
        GameView {
            players: self.players.update(1, joiner),
            encryption_pk: self.encryption_pk.update(1, data.joiner_encryption_pubkey),
            boards: self.boards.update(1, data.board_hash),
            joinable: false,
            state: GameState::ReadyToStart,
            ..self
        }
    }

    /// The game after the opening shot.
    pub open spec fn opened_fire(self, shot: OpeningShotData) -> GameView {
        GameView { shots: shot.shot@, turns: 1, state: GameState::Ongoing, ..self }
    }

    /// The game after a turn that did not end it.
    pub open spec fn advanced(self, data: PlayerTurnData) -> GameView {
        GameView {
            shots: data.player_shot_encrypted@,
            hits: data.enemy_hit_encrypted@,
            turns: self.turns + 1,
            ..self
        }
    }

    /// The game after the mover has conceded: the player who moved last has
    /// won.
    pub open spec fn conceded(self) -> GameView {
        GameView { state: GameState::Won { winner: self.previous_player() }, ..self }
    }

    /// Whether a turn that does not end the game would take the turn counter
    /// past 16 bits.
    pub open spec fn turns_exhausted(self, data: PlayerTurnData) -> bool {
        self.state is Ongoing && !data.winner && self.turns >= u16::MAX
    }
}

/// Whether a call that returned `r` and took the game from `before` to `after`
/// did what `expected` says: on `Ok`, the game is the one given there; on `Err`,
/// the call returned that error and the game is as it was.
pub open spec fn applied(
    expected: Result<GameView, ZKBattleshipError>,
    r: Result<(), ZKBattleshipError>,
    before: GameView,
    after: GameView,
) -> bool {
    match expected {
        Ok(next) => r is Ok && after == next,
        Err(e) => r == Err::<(), ZKBattleshipError>(e) && after == before,
    }
}

/// Opening a game: it exists if and only if the host's board proof was
/// accepted.
pub open spec fn new_game_result(accepted: bool, host: PlayerId, data: HostBoardData) -> Result<
    GameView,
    ZKBattleshipError,
> {
    if !accepted {
        Err(ZKBattleshipError::BoardZKVerificationFailed)
    } else {
        Ok(GameView::opened(host, data))
    }
}

/// Joining a game: the second seat must be open, and the joiner's board proof
/// accepted.
pub open spec fn join_game_result(
    game: GameView,
    accepted: bool,
    joiner: PlayerId,
    data: JoinerBoardData,
) -> Result<GameView, ZKBattleshipError> {
    if !game.joinable {
        Err(ZKBattleshipError::GameNotJoinable)
    } else if !accepted {
        Err(ZKBattleshipError::BoardZKVerificationFailed)
    } else {
        Ok(game.joined(joiner, data))
    }
}

/// The opening shot, whoever fires it: no turn may have been played, and both
/// players must be seated.
pub open spec fn opening_shot_result(game: GameView, shot: OpeningShotData) -> Result<
    GameView,
    ZKBattleshipError,
> {
    if game.turns != 0 || !game.is_ready_to_start() {
        Err(ZKBattleshipError::GameAlreadyStarted)
    } else {
        Ok(game.opened_fire(shot))
    }
}

/// A turn, whoever plays it: the opening shot must have been fired and the
/// game be in progress. A mover who concedes ends the game, and no proof is
/// asked for; otherwise the proof of the turn must have been accepted.
pub open spec fn play_result(game: GameView, accepted: bool, data: PlayerTurnData) -> Result<
    GameView,
    ZKBattleshipError,
> {
    if game.turns == 0 {
        Err(ZKBattleshipError::FirstTurnShouldBePlayed)
    } else if !game.is_ongoing() {
        Err(ZKBattleshipError::GameAlreadyOver)
    } else if data.winner {
        Ok(game.conceded())
    } else if !accepted {
        Err(ZKBattleshipError::ShotZKVerificationFailed)
    } else {
        Ok(game.advanced(data))
    }
}

/// The opening shot by `caller`, who must be the current mover.
pub open spec fn opening_shot_by(game: GameView, caller: PlayerId, shot: OpeningShotData) -> Result<
    GameView,
    ZKBattleshipError,
> {
    if caller != game.current_player() {
        Err(ZKBattleshipError::OnlyHostOpeningShot)
    } else {
        opening_shot_result(game, shot)
    }
}

/// A turn by `caller`, who must be the current mover.
pub open spec fn play_by(
    game: GameView,
    accepted: bool,
    caller: PlayerId,
    data: PlayerTurnData,
) -> Result<GameView, ZKBattleshipError> {
    if caller != game.current_player() {
        Err(ZKBattleshipError::NotPlayersTurn)
    } else {
        play_result(game, accepted, data)
    }
}

/// Closing a game by `caller`, who must be one of its players; the game must
/// have been won.
pub open spec fn close_result(game: GameView, caller: PlayerId) -> Result<(), ZKBattleshipError> {
    if !game.is_player(caller) {
        Err(ZKBattleshipError::NotPlayer)
    } else if !(game.state is Won) {
        Err(ZKBattleshipError::GameStillOngoing)
    } else {
        Ok(())
    }
}

} // verus!
