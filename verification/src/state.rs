use vstd::prelude::*;

verus! {

/// The casino configuration record: global parameters and running totals.
///
/// Created once by `engine::initialize`; afterwards only `total_wagered`
/// and `total_payout` ever change, and only monotonically.
#[derive(Clone, Copy, Debug, PartialEq, Eq)]
pub struct Casino {
    /// Identity allowed to perform administrative operations.
    pub authority: [u8; 32],
    /// Opaque proof byte that lets the engine authorize transfers out of
    /// the vault; derived once at creation, immutable thereafter.
    pub vault_bump: u8,
    /// Cumulative stake ever accepted.
    pub total_wagered: u64,
    /// Cumulative payout ever disbursed.
    pub total_payout: u64,
    /// House edge in basis points; informational (the game multipliers
    /// are fixed constants and do not read it).
    pub house_edge: u16,
    /// Inclusive lower bound on a stake.
    pub min_bet: u64,
    /// Inclusive upper bound on a stake.
    pub max_bet: u64,
}

impl Casino {
    /// A well-formed record has ordered bet bounds.
    pub open spec fn wf(self) -> bool {
        self.min_bet <= self.max_bet
    }
}

/// Serialized payload width of a `Casino` record:
/// authority (32) + vault bump (1) + total_wagered (8) + total_payout (8)
/// + house_edge (2) + min_bet (8) + max_bet (8).
pub const CASINO_RECORD_LEN: usize = 67;

/// The state an initialization operation touches: the (possibly still
/// absent) configuration record and the identity of the caller who will
/// become its authority.
#[derive(Clone, Copy, Debug, PartialEq, Eq)]
pub struct Initialize {
    /// The storage slot of the one configuration record; `None` until the
    /// record has been created.
    pub casino: Option<Casino>,
    /// Identity of the caller; bound as the record's authority on creation.
    pub authority: [u8; 32],
}

/// The state one bet touches: the configuration record, the vault balance,
/// and the player's identity and balance.
///
/// The two balances model the spendable funds that the surrounding
/// runtime's transfer primitive moves; the engine mutates them only in
/// the single atomic step that also updates the record's totals.
#[derive(Clone, Copy, Debug, PartialEq, Eq)]
pub struct PlayGame {
    pub casino: Casino,
    /// Pooled balance from which winning payouts are drawn and into which
    /// stakes are deposited.
    pub vault_balance: u64,
    /// Identity of the betting player.
    pub player: [u8; 32],
    /// The betting player's spendable balance.
    pub player_balance: u64,
}

/// The state a vault funding operation touches: the configuration record,
/// the vault balance, and the identity and balance of the caller claiming
/// to be the authority.
#[derive(Clone, Copy, Debug, PartialEq, Eq)]
pub struct FundVault {
    pub casino: Casino,
    /// Pooled balance being funded.
    pub vault_balance: u64,
    /// Identity of the caller; must equal `casino.authority`.
    pub authority: [u8; 32],
    /// The caller's spendable balance, from which the funding is drawn.
    pub authority_balance: u64,
}

/// One bet's outcome record, published to the notification sink after the
/// financial state has been committed. Transient: it has no lifecycle of
/// its own.
#[derive(Clone, Copy, Debug, PartialEq, Eq)]
pub struct GamePlayed {
    pub player: [u8; 32],
    /// 0 = coin flip, 1 = dice, 2 = slots.
    pub game_type: u8,
    pub bet_amount: u64,
    pub prediction: u8,
    /// The derived game result; for slots, the three reels packed in
    /// decimal and truncated to a byte.
    pub result: u8,
    pub won: bool,
    pub payout: u64,
    /// Supplied by the runtime's clock at operation time.
    pub timestamp: i64,
}

/// True when two identities hold the same bytes.
pub open spec fn same_identity(a: [u8; 32], b: [u8; 32]) -> bool {
    a@ == b@
}

/// Byte-wise identity comparison.
pub fn identities_equal(a: &[u8; 32], b: &[u8; 32]) -> (r: bool)
    ensures
        r == same_identity(*a, *b),
{
    let mut i: usize = 0;
    while i < 32
        invariant
            0 <= i <= 32,
            forall|k: int| 0 <= k < i ==> a[k] == b[k],
        decreases 32 - i,
    {
        if a[i] != b[i] {
            assert(a@[i as int] != b@[i as int]);
            return false;
        }
        i += 1;
    }
    proof {
        assert(a@ =~= b@);
    }
    true
}

} // verus!
