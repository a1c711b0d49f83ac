//! Identities of players.

use vstd::prelude::*;

verus! {

/// The handle by which the host ledger names an authenticated caller. The
/// library compares handles and never looks into them.
#[derive(Clone, Copy, Debug, Eq)]
pub struct PlayerId {
    pub key: [u8; 32],
}

impl PartialEq for PlayerId {
    fn eq(&self, other: &PlayerId) -> (same: bool) {
        let mut i: usize = 0;
        while i < 32
            invariant
                i <= 32,
                forall|j: int| 0 <= j < i ==> self.key[j] == other.key[j],
            decreases 32 - i,
        {
            if self.key[i] != other.key[i] {
                return false;
            }
            i += 1;
        }
        assert(self.key =~= other.key);
        true
    }
}

impl vstd::std_specs::cmp::PartialEqSpecImpl for PlayerId {
    open spec fn obeys_eq_spec() -> bool {
        true
    }

    open spec fn eq_spec(&self, other: &PlayerId) -> bool {
        *self == *other
    }
}

/// A word of 32 zero bytes.
pub open spec fn zero_word() -> [u8; 32] {
    vstd::array::spec_array_fill_for_copy_type::<u8, 32>(0u8)
}

impl PlayerId {
    /// The handle of 32 zero bytes, which stands in the second seat of a game
    /// until a player joins.
    pub open spec fn spec_vacant() -> PlayerId {
        PlayerId { key: zero_word() }
    }

    /// The handle of 32 zero bytes, which stands in the second seat of a game
    /// until a player joins.
    #[verifier::when_used_as_spec(spec_vacant)]
    pub fn vacant() -> (id: PlayerId)
        ensures
            id == PlayerId::spec_vacant(),
    {
        PlayerId { key: [0u8; 32] }
    }
}

} // verus!
