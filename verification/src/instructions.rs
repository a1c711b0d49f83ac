//! The operations as a caller reaches them: each takes the identity that the
//! host ledger has authenticated, and asks first whether that caller may act.
//!
//! Opening a game and joining one seat whoever calls: they are
//! `Game::new_game` and `Game::join_game`, which take the caller as the player.

use crate::errors::ZKBattleshipError;
use crate::game::Game;
use crate::keys::{turn_proof_accepted, CircuitKeys};
use crate::model::{applied, close_result, opening_shot_by, play_by};
use crate::payload::{OpeningShotData, PlayerTurnData};
use crate::player::PlayerId;
use vstd::prelude::*;

verus! {

/// Fires the opening shot for `caller`, who must be the current mover.
pub fn play_opening_shot(game: &mut Game, caller: PlayerId, shot: OpeningShotData) -> (r: Result<
    (),
    ZKBattleshipError,
>)
    ensures
        applied(opening_shot_by(old(game)@, caller, shot), r, old(game)@, final(game)@),
        final(game)@.wf(),
{
    if game.current_player() != caller {
        return Err(ZKBattleshipError::OnlyHostOpeningShot);
    }
    game.play_opening_shot(shot)
}

/// Plays a turn for `caller`, who must be the current mover.
pub fn play(game: &mut Game, keys: &CircuitKeys, caller: PlayerId, player_data: PlayerTurnData) -> (r:
    Result<(), ZKBattleshipError>)
    requires
        !old(game)@.turns_exhausted(player_data),
    ensures
        applied(
            play_by(
                old(game)@,
                turn_proof_accepted(keys@, old(game)@, player_data),
                caller,
                player_data,
            ),
            r,
            old(game)@,
            final(game)@,
        ),
        final(game)@.wf(),
{
    if game.current_player() != caller {
        return Err(ZKBattleshipError::NotPlayersTurn);
    }
    game.play(keys, player_data)
}

/// Decides whether `caller` may close the game, after which the host reclaims
/// its storage: the caller must be one of its players, and the game won.
pub fn delete_game_account(game: &Game, caller: PlayerId) -> (r: Result<(), ZKBattleshipError>)
    ensures
        r == close_result(game@, caller),
{
    if !game.is_player(caller) {
        return Err(ZKBattleshipError::NotPlayer);
    }
    if !game.is_won() {
        return Err(ZKBattleshipError::GameStillOngoing);
    }
    Ok(())
}

} // verus!
