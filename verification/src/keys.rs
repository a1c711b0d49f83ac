//! The verifying keys of the two circuits of the game.
//!
//! The board circuit shows that a commitment is that of a legal board; its one
//! public input is the commitment. The shot circuit shows that the reported
//! result of a shot is true of the mover's board; its public inputs are the
//! mover's board commitment and the five words of the shot.

use crate::groth16::{proof_accepted, VerifyingKey, VerifyingKeyView};
use crate::model::GameView;
use crate::payload::{HostBoardData, JoinerBoardData, PlayerTurnData};
use vstd::prelude::*;

verus! {

/// Number of public input words of the board circuit.
pub const BOARD_PUBLIC_INPUTS: usize = 1;

/// Number of public input words of the shot circuit.
pub const SHOT_PUBLIC_INPUTS: usize = 6;

/// The two keys as plain values.
pub struct CircuitKeysView {
    pub board: VerifyingKeyView,
    pub shot: VerifyingKeyView,
}

impl CircuitKeysView {
    /// Both keys are well formed, and each is for the number of public inputs
    /// of its circuit.
    pub open spec fn wf(self) -> bool {
        &&& self.board.well_formed()
        &&& self.shot.well_formed()
        &&& self.board.public_input_count() == BOARD_PUBLIC_INPUTS
        &&& self.shot.public_input_count() == SHOT_PUBLIC_INPUTS
    }
}

/// The keys of the board circuit and of the shot circuit. Every value of this
/// type is well formed.
pub struct CircuitKeys {
    board: VerifyingKey,
    shot: VerifyingKey,
}

impl View for CircuitKeys {
    type V = CircuitKeysView;

    closed spec fn view(&self) -> CircuitKeysView {
        CircuitKeysView { board: self.board@, shot: self.shot@ }
    }
}

/// Whether the proof is accepted that `board_hash` commits to a legal board.
pub open spec fn board_proof_accepted(
    keys: CircuitKeysView,
    proof_a: Seq<u8>,
    proof_b: Seq<u8>,
    proof_c: Seq<u8>,
    board_hash: [u8; 32],
) -> bool {
    proof_accepted(proof_a, proof_b, proof_c, seq![board_hash@], keys.board)
}

/// Whether the proof is accepted that comes with a turn of `game`.
pub open spec fn shot_proof_accepted(
    keys: CircuitKeysView,
    game: GameView,
    proof_a: Seq<u8>,
    proof_b: Seq<u8>,
    proof_c: Seq<u8>,
) -> bool {
    proof_accepted(proof_a, proof_b, proof_c, game.shot_inputs(), keys.shot)
}

/// Whether the board proof of a host is accepted.
pub open spec fn host_proof_accepted(keys: CircuitKeysView, data: HostBoardData) -> bool {
    board_proof_accepted(keys, data.proof_a@, data.proof_b@, data.proof_c@, data.board_hash)
}

/// Whether the board proof of a joiner is accepted.
pub open spec fn joiner_proof_accepted(keys: CircuitKeysView, data: JoinerBoardData) -> bool {
    board_proof_accepted(keys, data.proof_a@, data.proof_b@, data.proof_c@, data.board_hash)
}

/// Whether the proof of a turn of `game` is accepted.
pub open spec fn turn_proof_accepted(
    keys: CircuitKeysView,
    game: GameView,
    data: PlayerTurnData,
) -> bool {
    shot_proof_accepted(keys, game, data.proof_a@, data.proof_b@, data.proof_c@)
}

impl CircuitKeys {
    #[verifier::type_invariant]
    spec fn inv(self) -> bool {
        self@.wf()
    }

    /// Pairs the two keys, if the first is for one public input and the second
    /// for six.
    pub fn new(board: VerifyingKey, shot: VerifyingKey) -> (r: Option<CircuitKeys>)
        ensures
            r is Some <==> board@.public_input_count() == BOARD_PUBLIC_INPUTS
                && shot@.public_input_count() == SHOT_PUBLIC_INPUTS,
            r matches Some(keys) ==> keys@.wf() && keys@ == (CircuitKeysView {
                board: board@,
                shot: shot@,
            }),
    {
        if board.public_input_count() != BOARD_PUBLIC_INPUTS || shot.public_input_count()
            != SHOT_PUBLIC_INPUTS {
            return None;
        }
        Some(CircuitKeys { board, shot })
    }

    /// The key of the board circuit.
    pub fn board(&self) -> (key: &VerifyingKey)
        ensures
            key@ == self@.board,
    {
        &self.board
    }

    /// The key of the shot circuit.
    pub fn shot(&self) -> (key: &VerifyingKey)
        ensures
            key@ == self@.shot,
    {
        &self.shot
    }
}

} // verus!
