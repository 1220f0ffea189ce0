use vstd::prelude::*;

verus! {

/// Payload of the one-time deployment call: an optional admin wallet that,
/// when present and valid, becomes the platform owner in place of the sender.
#[derive(Clone, Debug, PartialEq)]
pub struct InstantiateMsg {
    pub admin: Option<String>,
}

/// A funding stage. Each stage carries its own vesting schedule and its own
/// beneficiary list.
#[derive(Clone, Copy, Debug, PartialEq, Eq, Structural)]
pub enum Stage {
    Seed,
    Presale,
    Ido,
}

/// Lifecycle state of a project. A project moves strictly forward:
/// approval, community vote, fundraising, the milestone release loop, and
/// finally completion; failure is reachable only from the release loop.
#[derive(Clone, Copy, Debug, PartialEq, Eq, Structural)]
pub enum ProjectStatus {
    PendingApproval,
    CommunityVoting,
    Fundraising,
    MilestoneReleasing,
    Completed,
    Failed,
}

/// State of one milestone; advances strictly forward. A release passes
/// through `Releasing` and lands on `Released` within one transition, so
/// only `Voting` and `Released` are ever stored; `Releasing` names the
/// transient phase for hosts that surface it.
#[derive(Clone, Copy, Debug, PartialEq, Eq, Structural)]
pub enum MilestoneStatus {
    Voting,
    Releasing,
    Released,
}

/// Vesting schedule of one funding stage: `cliff_fraction_pct` percent of a
/// total unlocks immediately once any time has elapsed; the remainder
/// unlocks linearly over `linear_duration` seconds starting once the elapsed
/// time exceeds `cliff_duration` seconds.
#[derive(Clone, Copy, Debug, PartialEq, Eq, Structural)]
pub struct VestingParameter {
    pub cliff_fraction_pct: u64,
    pub cliff_duration: u64,
    pub linear_duration: u64,
}

/// The three stage schedules of one project.
#[derive(Clone, Copy, Debug, PartialEq, Eq, Structural)]
pub struct StageSchedules {
    pub seed: VestingParameter,
    pub presale: VestingParameter,
    pub ido: VestingParameter,
}

/// Per-beneficiary, per-stage vesting bookkeeping. `released_amount` never
/// exceeds `total_amount`; what is unlocked but not yet claimed is computed
/// on demand from the schedule, never stored.
#[derive(Clone, Debug, PartialEq)]
pub struct UserInfo {
    pub wallet_address: String,
    pub total_amount: u128,
    pub released_amount: u128,
    pub pending_amount: u128,
}

/// Per-project configuration, set at registration and partially updatable
/// by the owner afterwards.
#[derive(Clone, Debug, PartialEq)]
pub struct Config {
    pub owner: String,
    pub token_addr: String,
    pub start_time: u64,
}

/// One wallet's entry in a vote ledger.
#[derive(Clone, Debug, PartialEq)]
pub struct VoteRecord {
    pub wallet: String,
    pub voted: bool,
}

/// One tranche of a project's raised funds, released on unanimous approval
/// of the enrolled voters.
#[derive(Clone, Debug, PartialEq)]
pub struct Milestone {
    pub amount: u128,
    pub status: MilestoneStatus,
    pub votes: Vec<VoteRecord>,
}

/// One backer's contribution: the staked amount, the net amount backing the
/// project after the protocol fee, and opaque cross-chain routing metadata.
#[derive(Clone, Debug, PartialEq)]
pub struct BackerRecord {
    pub wallet: String,
    pub stake: u128,
    pub backed: u128,
    pub route: String,
}

/// One project's full record: identity and configuration, the three
/// beneficiary lists with their schedules, and the funding-machine state.
#[derive(Clone, Debug, PartialEq)]
pub struct ProjectInfo {
    pub project_id: u64,
    pub config: Config,
    pub vest_param: StageSchedules,
    pub seed_users: Vec<UserInfo>,
    pub presale_users: Vec<UserInfo>,
    pub ido_users: Vec<UserInfo>,
    pub status: ProjectStatus,
    pub funding_target: u128,
    pub vote_deadline: u64,
    pub community_votes: Vec<VoteRecord>,
    pub milestones: Vec<Milestone>,
    pub milestone_step: usize,
    pub communitybacked_amount: u128,
    pub backerbacked_amount: u128,
    pub community_backers: Vec<BackerRecord>,
    pub general_backers: Vec<BackerRecord>,
    pub released_amount: u128,
}

/// One native balance held by this contract, as the ledger gateway
/// reports it.
#[derive(Clone, Debug, PartialEq)]
pub struct CoinAmount {
    pub denom: String,
    pub amount: u128,
}

/// An instruction to the ledger gateway, scheduled by the host after the
/// state change of the current call has committed.
#[derive(Clone, Debug, PartialEq)]
pub enum OutMsg {
    /// Send native stable currency to a wallet.
    NativeTransfer { to: String, amount: u128 },
    /// Send an arbitrary native denomination to a wallet.
    NativeSend { to: String, denom: String, amount: u128 },
    /// Send fungible tokens held by this contract to a wallet.
    TokenTransfer { token: String, to: String, amount: u128 },
    /// Deposit native currency into the yield-bearing money-market.
    MarketDeposit { amount: u128 },
    /// Redeem yield-bearing tokens from the money-market.
    MarketRedeem { yield_amount: u128 },
}

} // verus!
