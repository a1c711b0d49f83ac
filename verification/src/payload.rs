//! What a caller hands in with an operation. None of it outlives the call but
//! for what the game keeps of it.

use vstd::prelude::*;

verus! {

/// The host's board: its commitment, the host's public encryption key, and the
/// proof that the commitment is that of a legal board.
#[derive(Clone, Copy, Debug, PartialEq, Eq)]
pub struct HostBoardData {
    pub board_hash: [u8; 32],
    pub host_encryption_pubkey: [[u8; 32]; 2],
    pub proof_a: [u8; 64],
    pub proof_b: [u8; 128],
    pub proof_c: [u8; 64],
}

/// The joiner's board: its commitment, the joiner's public encryption key, and
/// the proof that the commitment is that of a legal board.
#[derive(Clone, Copy, Debug, PartialEq, Eq)]
pub struct JoinerBoardData {
    pub board_hash: [u8; 32],
    pub joiner_encryption_pubkey: [[u8; 32]; 2],
    pub proof_a: [u8; 64],
    pub proof_b: [u8; 128],
    pub proof_c: [u8; 64],
}

/// The encrypted opening shot.
#[derive(Clone, Copy, Debug, PartialEq, Eq)]
pub struct OpeningShotData {
    pub shot: [[u8; 32]; 5],
}

/// One turn: the mover's encrypted shot, the encrypted result of the shot that
/// the mover received, whether that shot won the game for the one who fired it,
/// and the proof that the result is true of the mover's board.
#[derive(Clone, Copy, Debug, PartialEq, Eq)]
pub struct PlayerTurnData {
    pub player_shot_encrypted: [[u8; 32]; 5],
    pub enemy_hit_encrypted: [[u8; 32]; 5],
    pub winner: bool,
    pub proof_a: [u8; 64],
    pub proof_b: [u8; 128],
    pub proof_c: [u8; 64],
}

} // verus!
