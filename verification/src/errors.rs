//! The reasons for which an operation on a game is rejected.

use vstd::prelude::*;

verus! {

/// Why an operation was rejected. A rejected operation leaves the game untouched.
#[derive(Clone, Copy, Debug, PartialEq, Eq, Structural)]
pub enum ZKBattleshipError {
    /// A turn was played on a game that is not in progress.
    GameAlreadyOver,
    /// A turn was played by someone other than the current mover.
    NotPlayersTurn,
    /// The opening shot was attempted by someone other than the current mover.
    OnlyHostOpeningShot,
    /// The opening shot was attempted on a game that is not waiting for it.
    GameAlreadyStarted,
    /// The proof that came with a board commitment did not verify.
    BoardZKVerificationFailed,
    /// The proof that came with a turn did not verify.
    ShotZKVerificationFailed,
    /// A second player tried to join a game that is not open to one.
    GameNotJoinable,
    /// A turn was played before the opening shot.
    FirstTurnShouldBePlayed,
    /// A game was closed before it was won.
    GameStillOngoing,
    /// A game was closed by someone who does not take part in it.
    NotPlayer,
}

/// The three families into which the rejections fall.
#[derive(Clone, Copy, Debug, PartialEq, Eq, Structural)]
pub enum ErrorKind {
    /// The game is not in a state that admits the operation.
    StateViolation,
    /// The caller is not the one who may perform the operation.
    AuthorizationViolation,
    /// A zero-knowledge proof was rejected.
    CryptographicViolation,
}

impl ZKBattleshipError {
    /// The family of this rejection, as a specification.
    pub open spec fn spec_kind(self) -> ErrorKind {
        match self {
            ZKBattleshipError::GameAlreadyOver
            | ZKBattleshipError::GameAlreadyStarted
            | ZKBattleshipError::FirstTurnShouldBePlayed
            | ZKBattleshipError::GameStillOngoing
            | ZKBattleshipError::GameNotJoinable => ErrorKind::StateViolation,
            ZKBattleshipError::NotPlayersTurn
            | ZKBattleshipError::OnlyHostOpeningShot
            | ZKBattleshipError::NotPlayer => ErrorKind::AuthorizationViolation,
            ZKBattleshipError::BoardZKVerificationFailed
            | ZKBattleshipError::ShotZKVerificationFailed => ErrorKind::CryptographicViolation,
        }
    }

    /// The family of this rejection.
    #[verifier::when_used_as_spec(spec_kind)]
    pub fn kind(self) -> (k: ErrorKind)
        ensures
            k == self.spec_kind(),
    {
        match self {
            ZKBattleshipError::GameAlreadyOver
            | ZKBattleshipError::GameAlreadyStarted
            | ZKBattleshipError::FirstTurnShouldBePlayed
            | ZKBattleshipError::GameStillOngoing
            | ZKBattleshipError::GameNotJoinable => ErrorKind::StateViolation,
            ZKBattleshipError::NotPlayersTurn
            | ZKBattleshipError::OnlyHostOpeningShot
            | ZKBattleshipError::NotPlayer => ErrorKind::AuthorizationViolation,
            ZKBattleshipError::BoardZKVerificationFailed
            | ZKBattleshipError::ShotZKVerificationFailed => ErrorKind::CryptographicViolation,
        }
    }
}

} // verus!
