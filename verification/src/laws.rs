//! What holds of every game, whatever the players do.
//!
//! Each law is stated over the model and proved from it. Whether a proof is
//! accepted is a parameter of each: the laws hold whatever the verdicts are.

use crate::errors::ZKBattleshipError;
use crate::model::{
    close_result,
    join_game_result,
    new_game_result,
    opening_shot_by,
    opening_shot_result,
    play_by,
    play_result,
    GameState,
    GameView,
    Stage,
};
use crate::payload::{HostBoardData, JoinerBoardData, OpeningShotData, PlayerTurnData};
use crate::player::PlayerId;
use vstd::prelude::*;

verus! {

/// One turn of a run of turns: who plays it, whether its proof was accepted,
/// and what the player hands in.
pub struct Turn {
    pub caller: PlayerId,
    pub accepted: bool,
    pub data: PlayerTurnData,
}

/// The game after the turns of `turns` have been played in order, if each of
/// them succeeded and none of them ended the game.
pub open spec fn after_turns(game: GameView, turns: Seq<Turn>) -> Option<GameView>
    decreases turns.len(),
{
    if turns.len() == 0 {
        Some(game)
    } else {
        let last = turns.last();
        match after_turns(game, turns.drop_last()) {
            Some(before) => match play_by(before, last.accepted, last.caller, last.data) {
                Ok(after) => if last.data.winner {
                    None
                } else {
                    Some(after)
                },
                Err(_) => None,
            },
            None => None,
        }
    }
}

/// A game that has just been opened is well formed and waits for its second
/// player, and the host sits in the first seat with the board that was proved.
pub proof fn lemma_new_game_opens(accepted: bool, host: PlayerId, data: HostBoardData)
    ensures
        new_game_result(accepted, host, data) is Ok <==> accepted,
        new_game_result(accepted, host, data) matches Ok(game) ==> {
            &&& game.wf()
            &&& game.stage() == Stage::AwaitingJoiner
            &&& game.joinable
            &&& game.players[0] == host
            &&& game.boards[0] == data.board_hash
            &&& game.encryption_pk[0] == data.host_encryption_pubkey
        },
        new_game_result(accepted, host, data) matches Err(e) ==> e
            == ZKBattleshipError::BoardZKVerificationFailed,
{
}

/// Joining succeeds exactly on a game whose second seat is open and with an
/// accepted proof. It takes the game from waiting for the joiner to ready to
/// start, seats the joiner, and leaves the host's seat, board and key alone.
pub proof fn lemma_join_game_seats_the_joiner(
    game: GameView,
    accepted: bool,
    joiner: PlayerId,
    data: JoinerBoardData,
)
    requires
        game.wf(),
    ensures
        join_game_result(game, accepted, joiner, data) is Ok <==> game.joinable && accepted,
        join_game_result(game, accepted, joiner, data) matches Ok(after) ==> {
            &&& after.wf()
            &&& game.stage() == Stage::AwaitingJoiner
            &&& after.stage() == Stage::ReadyToStart
            &&& after.state == GameState::ReadyToStart
            &&& !after.joinable
            &&& after.players[1] == joiner
            &&& after.boards[1] == data.board_hash
            &&& after.encryption_pk[1] == data.joiner_encryption_pubkey
            &&& after.players[0] == game.players[0]
            &&& after.boards[0] == game.boards[0]
            &&& after.encryption_pk[0] == game.encryption_pk[0]
        },
{
}

/// A game is joined at most once: after a successful join, every further
/// attempt to join is rejected with `GameNotJoinable`, whoever tries and
/// whatever proof comes with it.
pub proof fn lemma_join_game_only_once(
    game: GameView,
    accepted: bool,
    joiner: PlayerId,
    data: JoinerBoardData,
    again_accepted: bool,
    again_joiner: PlayerId,
    again_data: JoinerBoardData,
)
    requires
        join_game_result(game, accepted, joiner, data) is Ok,
    ensures
        join_game_result(
            join_game_result(game, accepted, joiner, data)->Ok_0,
            again_accepted,
            again_joiner,
            again_data,
        ) == Err::<GameView, ZKBattleshipError>(ZKBattleshipError::GameNotJoinable),
{
}

/// A new game that is joined is ready to start, with both players seated.
pub proof fn lemma_new_game_then_join_game(
    host: PlayerId,
    host_data: HostBoardData,
    joiner: PlayerId,
    joiner_data: JoinerBoardData,
)
    ensures
        new_game_result(true, host, host_data) is Ok,
        join_game_result(
            new_game_result(true, host, host_data)->Ok_0,
            true,
            joiner,
            joiner_data,
        ) matches Ok(ready) && ready.wf() && ready.stage() == Stage::ReadyToStart
            && ready.players == seq![host, joiner] && ready.boards == seq![
            host_data.board_hash,
            joiner_data.board_hash,
        ],
{
}

/// The opening shot succeeds exactly when the host fires it, no turn has been
/// played and the game is ready to start. Any other caller is rejected with
/// `OnlyHostOpeningShot` if the caller is not the current mover, and any other
/// state with `GameAlreadyStarted`. A successful opening shot makes the game
/// ongoing with one turn played, and the joiner is next.
pub proof fn lemma_opening_shot(game: GameView, caller: PlayerId, shot: OpeningShotData)
    requires
        game.wf(),
    ensures
        opening_shot_by(game, caller, shot) is Ok <==> caller == game.players[0] && game.turns == 0
            && game.is_ready_to_start(),
        opening_shot_by(game, caller, shot) matches Err(e) ==> {
            &&& e == ZKBattleshipError::OnlyHostOpeningShot || e
                == ZKBattleshipError::GameAlreadyStarted
            &&& e == ZKBattleshipError::OnlyHostOpeningShot <==> caller != game.current_player()
        },
        opening_shot_by(game, caller, shot) matches Ok(after) ==> {
            &&& after.wf()
            &&& game.stage() == Stage::ReadyToStart
            &&& after.stage() == Stage::Ongoing
            &&& after.turns == 1
            &&& after.shots == shot.shot@
            &&& after.current_player() == game.players[1]
            &&& after.players == game.players
            &&& after.boards == game.boards
            &&& after.encryption_pk == game.encryption_pk
        },
{
}

/// A turn succeeds only for the current mover on an ongoing game. A turn that
/// does not end the game counts one turn more, hands the move to the other
/// player and replaces the shots and hits; it keeps the game ongoing and the
/// players, boards and keys as they are.
pub proof fn lemma_play_advances(
    game: GameView,
    accepted: bool,
    caller: PlayerId,
    data: PlayerTurnData,
)
    requires
        game.wf(),
        !game.turns_exhausted(data),
    ensures
        play_by(game, accepted, caller, data) is Ok <==> caller == game.current_player()
            && game.is_ongoing() && (data.winner || accepted),
        play_by(game, accepted, caller, data) matches Ok(after) ==> {
            &&& after.wf()
            &&& game.stage() == Stage::Ongoing
            &&& after.players == game.players
            &&& after.boards == game.boards
            &&& after.encryption_pk == game.encryption_pk
            &&& !data.winner ==> {
                &&& after.stage() == Stage::Ongoing
                &&& after.turns == game.turns + 1
                &&& after.current_player() == game.previous_player()
                &&& after.shots == data.player_shot_encrypted@
                &&& after.hits == data.enemy_hit_encrypted@
            }
            &&& data.winner ==> after.stage() == Stage::Won
        },
        play_by(game, accepted, caller, data) matches Err(e) ==> {
            &&& e == ZKBattleshipError::NotPlayersTurn <==> caller != game.current_player()
            &&& e == ZKBattleshipError::NotPlayersTurn || e
                == ZKBattleshipError::FirstTurnShouldBePlayed || e
                == ZKBattleshipError::GameAlreadyOver || e
                == ZKBattleshipError::ShotZKVerificationFailed
        },
{
}

/// After the opening shot and `k` successful turns that did not end the game,
/// `k + 1` turns have been played and the mover is the player in seat
/// `(k + 1) mod 2`. The game is ongoing and its players are those who started.
pub proof fn lemma_turns_after_plays(
    game: GameView,
    caller: PlayerId,
    shot: OpeningShotData,
    turns: Seq<Turn>,
)
    requires
        game.wf(),
        opening_shot_by(game, caller, shot) is Ok,
        after_turns(opening_shot_by(game, caller, shot)->Ok_0, turns) is Some,
    ensures
        ({
            let end = after_turns(opening_shot_by(game, caller, shot)->Ok_0, turns)->Some_0;
            &&& end.turns == turns.len() + 1
            &&& end.current_player() == game.players[((turns.len() + 1) % 2) as int]
            &&& end.is_ongoing()
            &&& end.players == game.players
            &&& end.boards == game.boards
        }),
    decreases turns.len(),
{
    if turns.len() > 0 {
        lemma_turns_after_plays(game, caller, shot, turns.drop_last());
    }
}

/// A turn in which the mover concedes makes the player who moved last the
/// winner, and asks for no proof.
pub proof fn lemma_concession_names_the_winner(
    game: GameView,
    accepted: bool,
    caller: PlayerId,
    data: PlayerTurnData,
)
    requires
        game.wf(),
        data.winner,
        play_by(game, accepted, caller, data) is Ok,
    ensures
        play_by(game, accepted, caller, data)->Ok_0.state == (GameState::Won {
            winner: game.players[((game.turns + 1) % 2) as int],
        }),
        play_by(game, accepted, caller, data) == play_by(game, !accepted, caller, data),
        play_by(game, accepted, caller, data)->Ok_0.turns == game.turns,
{
}

/// A game that has been won stays as it is: a turn by the current mover is
/// rejected with `GameAlreadyOver` and one by anybody else with
/// `NotPlayersTurn`; the opening shot and a join are rejected too.
pub proof fn lemma_won_is_final(
    game: GameView,
    accepted: bool,
    caller: PlayerId,
    turn: PlayerTurnData,
    shot: OpeningShotData,
    joiner_data: JoinerBoardData,
)
    requires
        game.wf(),
        game.state is Won,
    ensures
        caller == game.current_player() ==> play_by(game, accepted, caller, turn) == Err::<
            GameView,
            ZKBattleshipError,
        >(ZKBattleshipError::GameAlreadyOver),
        caller != game.current_player() ==> play_by(game, accepted, caller, turn) == Err::<
            GameView,
            ZKBattleshipError,
        >(ZKBattleshipError::NotPlayersTurn),
        play_result(game, accepted, turn) == Err::<GameView, ZKBattleshipError>(
            ZKBattleshipError::GameAlreadyOver,
        ),
        opening_shot_by(game, caller, shot) is Err,
        opening_shot_result(game, shot) == Err::<GameView, ZKBattleshipError>(
            ZKBattleshipError::GameAlreadyStarted,
        ),
        join_game_result(game, accepted, caller, joiner_data) == Err::<
            GameView,
            ZKBattleshipError,
        >(ZKBattleshipError::GameNotJoinable),
{
}

/// Closing succeeds exactly for a player of a game that has been won. Anybody
/// else is rejected with `NotPlayer`, and a player of a game that has not been
/// won with `GameStillOngoing`.
pub proof fn lemma_close(game: GameView, caller: PlayerId)
    requires
        game.wf(),
    ensures
        close_result(game, caller) is Ok <==> game.is_player(caller) && game.stage() == Stage::Won,
        close_result(game, caller) == Err::<(), ZKBattleshipError>(ZKBattleshipError::NotPlayer)
            <==> !game.is_player(caller),
        close_result(game, caller) == Err::<(), ZKBattleshipError>(
            ZKBattleshipError::GameStillOngoing,
        ) <==> game.is_player(caller) && game.stage() != Stage::Won,
{
}

/// The stage of a game agrees with its tag, and the turn counter is zero
/// exactly while the game has not started: a game without a turn is not
/// ongoing.
pub proof fn lemma_stage_of_well_formed(game: GameView)
    requires
        game.wf(),
    ensures
        game.turns == 0 <==> game.stage() == Stage::AwaitingJoiner || game.stage()
            == Stage::ReadyToStart,
        game.turns == 0 ==> !game.is_ongoing(),
        game.stage() == Stage::Won <==> game.state is Won,
        game.stage() == Stage::Ongoing <==> game.is_ongoing(),
        game.stage() == Stage::ReadyToStart <==> game.is_ready_to_start(),
{
}

} // verus!
