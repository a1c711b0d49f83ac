//! The record of one game and the operations that change it.
//!
//! Every operation either applies in full or rejects the call and leaves the
//! record as it was. What an operation does is stated over `GameView`, by the
//! functions of the model.

use crate::errors::ZKBattleshipError;
use crate::groth16::{verify, words};
use crate::keys::{
    board_proof_accepted,
    host_proof_accepted,
    joiner_proof_accepted,
    shot_proof_accepted,
    turn_proof_accepted,
    CircuitKeys,
};
use crate::model::{
    applied,
    join_game_result,
    new_game_result,
    opening_shot_result,
    play_result,
    GameState,
    GameView,
};
use crate::payload::{HostBoardData, JoinerBoardData, OpeningShotData, PlayerTurnData};
use crate::player::{zero_word, PlayerId};
use vstd::prelude::*;

verus! {

/// One game. Every value of this type is well formed.
pub struct Game {
    players: [PlayerId; 2],
    encryption_pk: [[[u8; 32]; 2]; 2],
    boards: [[u8; 32]; 2],
    joinable: bool,
    turns: u16,
    shots: [[u8; 32]; 5],
    hits: [[u8; 32]; 5],
    state: GameState,
}

impl View for Game {
    type V = GameView;

    closed spec fn view(&self) -> GameView {
        GameView {
            players: self.players@,
            encryption_pk: self.encryption_pk@,
            boards: self.boards@,
            joinable: self.joinable,
            turns: self.turns as nat,
            shots: self.shots@,
            hits: self.hits@,
            state: self.state,
        }
    }
}

/// Whether a call that returned `r` made the game that `expected` gives, or
/// returned the error that it gives.
pub open spec fn created(
    expected: Result<GameView, ZKBattleshipError>,
    r: Result<Game, ZKBattleshipError>,
) -> bool {
    match expected {
        Ok(game) => r matches Ok(made) && made@ == game,
        Err(e) => r matches Err(given) && given == e,
    }
}

impl Game {
    #[verifier::type_invariant]
    spec fn inv(self) -> bool {
        self@.wf()
    }

    /// Checks the proof that `public_signals` commits to a legal board.
    pub fn board_verifier(
        keys: &CircuitKeys,
        proof_a: [u8; 64],
        proof_b: [u8; 128],
        proof_c: [u8; 64],
        public_signals: [u8; 32],
    ) -> (ok: bool)
        ensures
            ok == board_proof_accepted(keys@, proof_a@, proof_b@, proof_c@, public_signals),
    {
        let mut inputs: Vec<[u8; 32]> = Vec::new();
        inputs.push(public_signals);
        assert(words(inputs@) =~= seq![public_signals@]);
        verify(&proof_a, &proof_b, &proof_c, &inputs, keys.board())
    }

    /// Checks the proof of a turn. Its public inputs are the mover's board
    /// commitment and the shot that stands in the game.
    pub fn shot_verifier(
        &self,
        keys: &CircuitKeys,
        proof_a: [u8; 64],
        proof_b: [u8; 128],
        proof_c: [u8; 64],
    ) -> (ok: bool)
        ensures
            ok == shot_proof_accepted(keys@, self@, proof_a@, proof_b@, proof_c@),
    {
        let mut inputs: Vec<[u8; 32]> = Vec::new();
        inputs.push(self.boards[self.player_turn()]);
        let mut i: usize = 0;
        while i < 5
            invariant
                i <= 5,
                inputs@.len() == 1 + i,
                inputs@[0] == self.boards@[self@.mover_seat()],
                forall|j: int| 0 <= j < i ==> inputs@[1 + j] == self.shots@[j],
            decreases 5 - i,
        {
            inputs.push(self.shots[i]);
            i += 1;
        }
        assert(words(inputs@) =~= self@.shot_inputs());
        verify(&proof_a, &proof_b, &proof_c, &inputs, keys.shot())
    }

    /// Opens a game for `player1_host`, whose board proof is checked first.
    pub fn new_game(keys: &CircuitKeys, player1_host: PlayerId, host_data: HostBoardData) -> (r:
        Result<Game, ZKBattleshipError>)
        ensures
            created(
                new_game_result(host_proof_accepted(keys@, host_data), player1_host, host_data),
                r,
            ),
            r matches Ok(game) ==> game@.wf(),
    {
        let accepted = Game::board_verifier(
            keys,
            host_data.proof_a,
            host_data.proof_b,
            host_data.proof_c,
            host_data.board_hash,
        );
        Game::settle_new_game(accepted, player1_host, host_data)
    }

    /// Opens a game for `player1_host`, given whether the host's board proof
    /// was accepted.
    pub fn settle_new_game(accepted: bool, player1_host: PlayerId, host_data: HostBoardData) -> (r:
        Result<Game, ZKBattleshipError>)
        ensures
            created(new_game_result(accepted, player1_host, host_data), r),
            r matches Ok(game) ==> game@.wf(),
    {
        if !accepted {
            return Err(ZKBattleshipError::BoardZKVerificationFailed);
        }
        let game = Game {
            players: [player1_host, PlayerId::vacant()],
            encryption_pk: [host_data.host_encryption_pubkey, [[0u8; 32]; 2]],
            boards: [host_data.board_hash, [0u8; 32]],
            joinable: true,
            turns: 0,
            shots: [[0u8; 32]; 5],
            hits: [[0u8; 32]; 5],
            state: GameState::ReadyToStart,
        };
        proof {
            // The zeros of the record are those of the model.
            assert(game.encryption_pk@[1] =~= [zero_word(), zero_word()]);
            assert(game@.shots =~= GameView::opened(player1_host, host_data).shots);
            assert(game@.hits =~= GameView::opened(player1_host, host_data).hits);
        }
        Ok(game)
    }

    /// Seats `player2_joiner`, whose board proof is checked first.
    pub fn join_game(
        &mut self,
        keys: &CircuitKeys,
        player2_joiner: PlayerId,
        joiner_data: JoinerBoardData,
    ) -> (r: Result<(), ZKBattleshipError>)
        ensures
            applied(
                join_game_result(
                    old(self)@,
                    joiner_proof_accepted(keys@, joiner_data),
                    player2_joiner,
                    joiner_data,
                ),
                r,
                old(self)@,
                final(self)@,
            ),
            final(self)@.wf(),
    {
        let accepted = self.joinable && Game::board_verifier(
            keys,
            joiner_data.proof_a,
            joiner_data.proof_b,
            joiner_data.proof_c,
            joiner_data.board_hash,
        );
        self.settle_join_game(accepted, player2_joiner, joiner_data)
    }

    /// Seats `player2_joiner`, given whether the joiner's board proof was
    /// accepted.
    pub fn settle_join_game(
        &mut self,
        accepted: bool,
        player2_joiner: PlayerId,
        joiner_data: JoinerBoardData,
    ) -> (r: Result<(), ZKBattleshipError>)
        ensures
            applied(
                join_game_result(old(self)@, accepted, player2_joiner, joiner_data),
                r,
                old(self)@,
                final(self)@,
            ),
            final(self)@.wf(),
    {
        proof {
            use_type_invariant(&*self);
        }
        if !self.joinable {
            return Err(ZKBattleshipError::GameNotJoinable);
        }
        if !accepted {
            return Err(ZKBattleshipError::BoardZKVerificationFailed);
        }
        self.players[1] = player2_joiner;
        self.boards[1] = joiner_data.board_hash;
        self.encryption_pk[1] = joiner_data.joiner_encryption_pubkey;
        self.joinable = false;
        self.state = GameState::ReadyToStart;
        Ok(())
    }

    /// Whether shots are being exchanged.
    pub fn is_ongoing(&self) -> (b: bool)
        ensures
            b == self@.is_ongoing(),
    {
        self.state == GameState::Ongoing
    }

    /// Whether a player has won.
    pub fn is_won(&self) -> (b: bool)
        ensures
            b == (self@.state is Won),
            self@.wf(),
    {
        proof {
            use_type_invariant(self);
        }
        match self.state {
            GameState::Won { .. } => true,
            _ => false,
        }
    }

    /// The seat of the player whose turn it is: 0 for the host, 1 for the
    /// joiner.
    pub fn player_turn(&self) -> (seat: usize)
        ensures
            seat == self@.mover_seat(),
            seat < 2,
    {
        (self.turns % 2) as usize
    }

    /// The number of turns played, the opening shot among them.
    pub fn turn_count(&self) -> (n: usize)
        ensures
            n == self@.turns,
    {
        self.turns as usize
    }

    /// Whether both players are seated and the game waits for the opening
    /// shot.
    pub fn is_ready_to_start(&self) -> (b: bool)
        ensures
            b == self@.is_ready_to_start(),
    {
        !self.joinable && self.state == GameState::ReadyToStart
    }

    /// The player whose turn it is.
    pub fn current_player(&self) -> (player: PlayerId)
        ensures
            player == self@.current_player(),
            self@.wf(),
    {
        proof {
            use_type_invariant(self);
        }
        self.players[self.player_turn()]
    }

    /// Whether `signer` sits in one of the two seats.
    pub fn is_player(&self, signer: PlayerId) -> (b: bool)
        ensures
            b == self@.is_player(signer),
            self@.wf(),
    {
        proof {
            use_type_invariant(self);
        }
        self.players[0] == signer || self.players[1] == signer
    }

    /// Fires the opening shot.
    pub fn play_opening_shot(&mut self, shot: OpeningShotData) -> (r: Result<(), ZKBattleshipError>)
        ensures
            applied(opening_shot_result(old(self)@, shot), r, old(self)@, final(self)@),
            final(self)@.wf(),
    {
        proof {
            use_type_invariant(&*self);
        }
        if self.turns != 0 || !self.is_ready_to_start() {
            return Err(ZKBattleshipError::GameAlreadyStarted);
        }
        *self = Game {
            players: self.players,
            encryption_pk: self.encryption_pk,
            boards: self.boards,
            joinable: self.joinable,
            turns: 1,
            shots: shot.shot,
            hits: self.hits,
            state: GameState::Ongoing,
        };
        Ok(())
    }

    /// Plays a turn. Unless the mover concedes, the proof of the turn is
    /// checked first.
    pub fn play(&mut self, keys: &CircuitKeys, player_data: PlayerTurnData) -> (r: Result<
        (),
        ZKBattleshipError,
    >)
        requires
            !old(self)@.turns_exhausted(player_data),
        ensures
            applied(
                play_result(
                    old(self)@,
                    turn_proof_accepted(keys@, old(self)@, player_data),
                    player_data,
                ),
                r,
                old(self)@,
                final(self)@,
            ),
            final(self)@.wf(),
    {
        let accepted = self.turns != 0 && self.is_ongoing() && !player_data.winner
            && self.shot_verifier(
            keys,
            player_data.proof_a,
            player_data.proof_b,
            player_data.proof_c,
        );
        self.settle_play(accepted, player_data)
    }

    /// Plays a turn, given whether the proof of the turn was accepted.
    pub fn settle_play(&mut self, accepted: bool, player_data: PlayerTurnData) -> (r: Result<
        (),
        ZKBattleshipError,
    >)
        requires
            !old(self)@.turns_exhausted(player_data),
        ensures
            applied(play_result(old(self)@, accepted, player_data), r, old(self)@, final(self)@),
            final(self)@.wf(),
    {
        proof {
            use_type_invariant(&*self);
        }
        if self.turns == 0 {
            return Err(ZKBattleshipError::FirstTurnShouldBePlayed);
        }
        if !self.is_ongoing() {
            return Err(ZKBattleshipError::GameAlreadyOver);
        }
        if player_data.winner {
            let winner = self.players[1 - self.player_turn()];
            self.state = GameState::Won { winner };
        } else {
            if !accepted {
                return Err(ZKBattleshipError::ShotZKVerificationFailed);
            }
            self.shots = player_data.player_shot_encrypted;
            self.hits = player_data.enemy_hit_encrypted;
            self.turns += 1;
        }
        Ok(())
    }

    /// The two players: the host, then the joiner, or the vacant handle while
    /// nobody has joined.
    pub fn players(&self) -> (players: [PlayerId; 2])
        ensures
            players@ == self@.players,
    {
        self.players
    }

    /// The public encryption keys of the two players, in the order of their
    /// seats.
    pub fn encryption_pk(&self) -> (keys: [[[u8; 32]; 2]; 2])
        ensures
            keys@ == self@.encryption_pk,
    {
        self.encryption_pk
    }

    /// The board commitments of the two players, in the order of their seats.
    pub fn boards(&self) -> (boards: [[u8; 32]; 2])
        ensures
            boards@ == self@.boards,
    {
        self.boards
    }

    /// Whether the second seat is open.
    pub fn is_joinable(&self) -> (b: bool)
        ensures
            b == self@.joinable,
    {
        self.joinable
    }

    /// The encrypted shot of the latest turn.
    pub fn shots(&self) -> (shots: [[u8; 32]; 5])
        ensures
            shots@ == self@.shots,
    {
        self.shots
    }

    /// The encrypted result that came with the latest turn.
    pub fn hits(&self) -> (hits: [[u8; 32]; 5])
        ensures
            hits@ == self@.hits,
    {
        self.hits
    }

    /// The tag of the game.
    pub fn state(&self) -> (state: GameState)
        ensures
            state == self@.state,
    {
        self.state
    }

    /// Makes a game of the fields of a stored record, if they are those of a
    /// well-formed game.
    pub fn from_parts(
        players: [PlayerId; 2],
        encryption_pk: [[[u8; 32]; 2]; 2],
        boards: [[u8; 32]; 2],
        joinable: bool,
        turns: u16,
        shots: [[u8; 32]; 5],
        hits: [[u8; 32]; 5],
        state: GameState,
    ) -> (r: Option<Game>)
        ensures
            match r {
                Some(game) => game@.wf() && game@ == (GameView {
                    players: players@,
                    encryption_pk: encryption_pk@,
                    boards: boards@,
                    joinable,
                    turns: turns as nat,
                    shots: shots@,
                    hits: hits@,
                    state,
                }),
                None => !(GameView {
                    players: players@,
                    encryption_pk: encryption_pk@,
                    boards: boards@,
                    joinable,
                    turns: turns as nat,
                    shots: shots@,
                    hits: hits@,
                    state,
                }).wf(),
            },
    {
        let seated = match state {
            GameState::ReadyToStart => turns == 0,
            GameState::Ongoing => turns != 0 && !joinable,
            GameState::Won { winner } => turns != 0 && !joinable && (winner == players[0] || winner
                == players[1]),
        };
        if seated {
            Some(Game { players, encryption_pk, boards, joinable, turns, shots, hits, state })
        } else {
            None
        }
    }
}

} // verus!
