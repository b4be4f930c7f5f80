use vstd::prelude::*;

verus! {

/// A party identity: an opaque 32-byte public identifier.
/// The all-zero value is reserved to mean "no identity".
pub type PartyId = [u8; 32];

/// The reserved all-zero 32-byte value, used both for "no identity" and for
/// byte fields that have not been set yet.
pub open spec fn unset_id() -> Seq<u8> {
    Seq::new(32, |i: int| 0u8)
}

/// Construct the reserved "no identity" value.
pub fn unset_id_bytes() -> (r: PartyId)
    ensures
        r@ == unset_id(),
{
    let r: PartyId = [0u8; 32];
    proof {
        assert(r@ =~= unset_id());
    }
    r
}

/// Decide whether an identity is the reserved "no identity" value.
pub fn is_unset_id(k: &PartyId) -> (r: bool)
    ensures
        r == (k@ == unset_id()),
{
    let mut i: usize = 0;
    while i < 32
        invariant
            i <= 32,
            forall|j: int| 0 <= j < i ==> k@[j] == 0u8,
        decreases 32 - i,
    {
        if k[i] != 0 {
            proof {
                assert(k@[i as int] != unset_id()[i as int]);
            }
            return false;
        }
        i = i + 1;
    }
    proof {
        assert(k@ =~= unset_id());
    }
    true
}

/// Lifecycle states of a game, in the order the state machine passes
/// through them. Forfeiture may jump from Joined or Revealing straight
/// to Finalized.
#[derive(Clone, Copy, PartialEq, Eq, Structural, Debug)]
pub enum GameStatus {
    Created,
    Joined,
    Revealing,
    ReadyToFinalize,
    Finalized,
}

/// Position of a status in the lifecycle order. No operation may move a
/// game to a status of lower rank.
pub open spec fn status_rank(s: GameStatus) -> int {
    match s {
        GameStatus::Created => 0,
        GameStatus::Joined => 1,
        GameStatus::Revealing => 2,
        GameStatus::ReadyToFinalize => 3,
        GameStatus::Finalized => 4,
    }
}

/// The lifecycle transition table: an operation either leaves the status
/// alone or makes one of these moves. Forfeiture is the move from Joined or
/// Revealing straight to Finalized.
pub open spec fn status_transition_allowed(from: GameStatus, to: GameStatus) -> bool {
    ||| to == from
    ||| (from == GameStatus::Created && to == GameStatus::Joined)
    ||| ((from == GameStatus::Joined || from == GameStatus::Revealing) && (to
        == GameStatus::Revealing || to == GameStatus::ReadyToFinalize || to
        == GameStatus::Finalized))
    ||| (from == GameStatus::ReadyToFinalize && to == GameStatus::Finalized)
}

/// Every allowed transition moves the status forward or leaves it alone:
/// no operation ever moves a game's status backward.
pub proof fn lemma_status_monotone(from: GameStatus, to: GameStatus)
    requires
        status_transition_allowed(from, to),
    ensures
        status_rank(from) <= status_rank(to),
{
}

/// Why an operation was refused. Every failure leaves all state unchanged.
#[derive(Clone, Copy, PartialEq, Eq, Structural, Debug)]
pub enum CoinflipError {
    /// The stake is zero, or a transfer would overflow or underflow.
    InvalidStake,
    /// The game is in the wrong status for this operation.
    BadStatus,
    /// The game already has a joiner.
    AlreadyJoined,
    /// The caller is not the party this operation requires.
    NotPlayer,
    /// The choice is outside {0, 1}.
    InvalidChoice,
    /// The reveal does not match the stored commitment.
    BadReveal,
    /// This party has already revealed.
    AlreadyRevealed,
    /// Forfeiture attempted before the reveal deadline.
    TooEarly,
    /// No joiner yet, or no valid winner to pay.
    NotReady,
}

/// The persistent record of one game.
#[derive(Clone, Copy, Debug)]
pub struct Game {
    pub creator: PartyId,
    pub joiner: PartyId,
    /// Per-party wager, fixed at creation, strictly positive.
    pub stake_lamports: u64,
    pub commit_a: [u8; 32],
    pub commit_b: [u8; 32],
    pub revealed_a: bool,
    pub revealed_b: bool,
    /// Valid only once the matching `revealed_*` flag is set.
    pub choice_a: u8,
    pub choice_b: u8,
    pub secret_a: [u8; 32],
    pub secret_b: [u8; 32],
    pub created_slot: u64,
    pub reveal_deadline_slot: u64,
    /// The outcome bit, valid only once both reveals are in.
    pub coin: u8,
    /// Valid once the outcome is computed or a forfeiture picked a winner.
    pub winner: PartyId,
    pub status: GameStatus,
}

impl Game {
    /// Well-formedness: what every operation establishes and preserves.
    pub open spec fn wf(self) -> bool {
        &&& self.stake_lamports > 0
        &&& self.choice_a <= 1
        &&& self.choice_b <= 1
        &&& self.coin <= 1
        &&& self.created_slot <= self.reveal_deadline_slot
        &&& match self.status {
            GameStatus::Created => !self.revealed_a && !self.revealed_b && self.joiner@
                == unset_id(),
            GameStatus::Joined => !self.revealed_a && !self.revealed_b,
            GameStatus::Revealing => (self.revealed_a || self.revealed_b) && !(self.revealed_a
                && self.revealed_b),
            GameStatus::ReadyToFinalize => self.revealed_a && self.revealed_b && self.winner == (
            if self.choice_a == self.coin {
                self.creator
            } else {
                self.joiner
            }),
            GameStatus::Finalized => true,
        }
    }
}

/// The escrow balance for one game, together with the running totals that
/// fund conservation speaks of.
#[derive(Clone, Copy, Debug)]
pub struct EscrowVault {
    /// Funds currently held for this game.
    pub balance: u64,
    /// Sum of every stake deposited so far.
    pub total_deposited: u64,
    /// Sum of every payout made so far.
    pub total_paid_out: u64,
}

impl EscrowVault {
    /// Fund conservation: whatever was deposited is either still held or
    /// has been paid out.
    pub open spec fn conserves_funds(self) -> bool {
        self.balance + self.total_paid_out == self.total_deposited
    }
}

/// How a game's vault relates to the game's own lifecycle: one stake held
/// after create, two from join on, and an empty vault with the whole pot
/// paid out once Finalized.
pub open spec fn escrow_consistent(g: Game, v: EscrowVault) -> bool {
    &&& v.conserves_funds()
    &&& match g.status {
        GameStatus::Created => v.total_deposited == g.stake_lamports && v.total_paid_out == 0,
        GameStatus::Joined | GameStatus::Revealing | GameStatus::ReadyToFinalize => v.total_deposited
            == 2 * g.stake_lamports && v.total_paid_out == 0,
        GameStatus::Finalized => v.total_deposited == 2 * g.stake_lamports && v.balance == 0,
    }
}

} // verus!
