//! Funding state machine: community registry, lifecycle transitions,
//! contribution accounting with its two capped pools, milestone voting with
//! weighted release, and the failure-path pro-rata refund.

use vstd::prelude::*;

use crate::contract::{lemma_project_index_agrees, project_index};
use crate::error::ContractError;
use crate::msg::{
    BackerRecord, CoinAmount, Milestone, MilestoneStatus, OutMsg, ProjectInfo, ProjectStatus,
    VoteRecord,
};
use crate::state::{find_project, has_project, is_community_member, Platform};

verus! {

/// The smallest single contribution accepted, in native micro-units.
pub const MIN_CONTRIBUTION: u128 = 5_000_000;

/// Contributions below this threshold pay the flat fee; from it on they pay
/// the percentage fee.
pub const FEE_THRESHOLD: u128 = 100_000_000;

/// The flat protocol fee of a small contribution, in native micro-units.
pub const FLAT_FEE: u128 = 4_000_000;

/// The protocol fee of a large contribution, in percent.
pub const FEE_PCT: u128 = 4;

/// Fixed-point scale of money-market exchange rates: a rate of one native
/// unit per yield token is represented as this number.
pub const RATE_SCALE: u128 = 1_000_000;

/// Whether some vote record in `vs` belongs to wallet `w`.
pub open spec fn has_voter(vs: Seq<VoteRecord>, w: Seq<char>) -> bool {
    exists|i: int| 0 <= i < vs.len() && vs[i].wallet@ == w
}

/// Position `i` holds the first vote record of wallet `w` in `vs`.
pub open spec fn first_voter_prop(vs: Seq<VoteRecord>, w: Seq<char>, i: int) -> bool {
    &&& 0 <= i < vs.len()
    &&& vs[i].wallet@ == w
    &&& (forall|j: int| 0 <= j < i ==> vs[j].wallet@ != w)
}

/// The position of the first vote record of wallet `w` in `vs`; meaningful
/// only when such a record exists.
pub open spec fn first_voter_index(vs: Seq<VoteRecord>, w: Seq<char>) -> int {
    choose|i: int| first_voter_prop(vs, w, i)
}

/// Whenever some vote record of `w` exists, a first one exists, and
/// `first_voter_index` denotes it.
pub proof fn lemma_first_voter_exists(vs: Seq<VoteRecord>, w: Seq<char>)
    requires
        has_voter(vs, w),
    ensures
        first_voter_prop(vs, w, first_voter_index(vs, w)),
    decreases vs.len(),
{
    if vs[0].wallet@ == w {
        assert(first_voter_prop(vs, w, 0));
    } else {
        let tail = vs.drop_first();
        assert(has_voter(tail, w)) by {
            let k = choose|k: int| 0 <= k < vs.len() && vs[k].wallet@ == w;
            assert(tail[k - 1] == vs[k]);
        }
        lemma_first_voter_exists(tail, w);
        let i = first_voter_index(tail, w);
        assert(first_voter_prop(vs, w, i + 1)) by {
            assert(vs[i + 1] == tail[i]);
            assert(forall|j: int| 1 <= j < i + 1 ==> vs[j] == tail[j - 1]);
        }
    }
    let i = choose|i: int| first_voter_prop(vs, w, i);
    assert(first_voter_prop(vs, w, i));
}

/// A first vote record is unique.
pub proof fn lemma_first_voter_unique(vs: Seq<VoteRecord>, w: Seq<char>, i: int)
    requires
        first_voter_prop(vs, w, i),
    ensures
        first_voter_index(vs, w) == i,
{
    assert(has_voter(vs, w));
    lemma_first_voter_exists(vs, w);
    let k = first_voter_index(vs, w);
    if k < i {
        assert(vs[k].wallet@ != w);
    } else if i < k {
        assert(vs[i].wallet@ != w);
    }
}

/// Finds the first vote record of wallet `w`, if any.
fn find_voter(vs: &Vec<VoteRecord>, w: &String) -> (r: Option<usize>)
    ensures
        match r {
            Some(i) => first_voter_prop(vs@, w@, i as int),
            None => !has_voter(vs@, w@),
        },
{
    let mut i: usize = 0;
    while i < vs.len()
        invariant
            i <= vs@.len(),
            forall|j: int| 0 <= j < i ==> vs@[j].wallet@ != w@,
        decreases vs@.len() - i,
    {
        if vs[i].wallet == *w {
            return Some(i);
        }
        i = i + 1;
    }
    None
}

/// A vote ledger after wallet `w` casts `vote`: its first record carries
/// the new flag; a ledger in which `w` is not enrolled is untouched.
pub open spec fn voted_set(vs: Seq<VoteRecord>, w: Seq<char>, vote: bool) -> Seq<VoteRecord> {
    if has_voter(vs, w) {
        let i = first_voter_index(vs, w);
        vs.update(i, VoteRecord { voted: vote, ..vs[i] })
    } else {
        vs
    }
}

/// How many votes in `vs` have been cast in favour.
pub open spec fn vote_count(vs: Seq<VoteRecord>) -> int
    decreases vs.len(),
{
    if vs.len() == 0 {
        0
    } else {
        vote_count(vs.drop_last()) + if vs.last().voted {
            1int
        } else {
            0int
        }
    }
}

/// Whether every enrolled voter has voted in favour.
pub open spec fn all_voted(vs: Seq<VoteRecord>) -> bool {
    forall|i: int| 0 <= i < vs.len() ==> vs[i].voted
}

/// Counting a longer prefix adds exactly the new record's vote.
proof fn lemma_vote_count_step(vs: Seq<VoteRecord>, i: int)
    requires
        0 <= i < vs.len(),
    ensures
        vote_count(vs.subrange(0, i + 1)) == vote_count(vs.subrange(0, i)) + if vs[i].voted {
            1int
        } else {
            0int
        },
{
    assert(vs.subrange(0, i + 1).drop_last() =~= vs.subrange(0, i));
}

/// Counts the votes cast in favour.
fn count_votes(vs: &Vec<VoteRecord>) -> (r: usize)
    ensures
        r == vote_count(vs@),
        r <= vs@.len(),
{
    let mut count: usize = 0;
    let mut i: usize = 0;
    proof {
        assert(vs@.subrange(0, 0) =~= Seq::<VoteRecord>::empty());
    }
    while i < vs.len()
        invariant
            i <= vs@.len(),
            count <= i,
            count == vote_count(vs@.subrange(0, i as int)),
        decreases vs@.len() - i,
    {
        proof {
            lemma_vote_count_step(vs@, i as int);
        }
        if vs[i].voted {
            count = count + 1;
        }
        i = i + 1;
    }
    proof {
        assert(vs@.subrange(0, vs@.len() as int) =~= vs@);
    }
    count
}

/// Grants a wallet the community classification. Only the owner may call
/// this; a wallet already registered is rejected.
pub fn add_communitymember(platform: &mut Platform, sender: &String, wallet: String) -> (r: Result<
    (),
    ContractError,
>)
    requires
        old(platform).wf(),
    ensures
        final(platform).wf(),
        final(platform).config == old(platform).config,
        final(platform).projects == old(platform).projects,
        r is Err ==> final(platform).community == old(platform).community,
        (r == Err::<(), ContractError>(ContractError::Unauthorized) <==> sender@ != old(
            platform,
        ).config.owner@),
        sender@ == old(platform).config.owner@ ==> (r == Err::<(), ContractError>(
            ContractError::AlreadyRegisteredCommunity,
        ) <==> is_community_member(old(platform).community@, wallet@)),
        (r is Ok <==> sender@ == old(platform).config.owner@ && !is_community_member(
            old(platform).community@,
            wallet@,
        )),
        r is Ok ==> final(platform).community@ == old(platform).community@.push(wallet),
{
    if !(*sender == platform.config.owner) {
        return Err(ContractError::Unauthorized);
    }
    match crate::state::find_member(&platform.community, &wallet) {
        Some(_) => Err(ContractError::AlreadyRegisteredCommunity),
        None => {
            platform.community.push(wallet);
            Ok(())
        },
    }
}

/// The unique position of wallet `w` in a duplicate-free registry.
pub open spec fn member_index(s: Seq<String>, w: Seq<char>) -> int {
    choose|i: int| 0 <= i < s.len() && s[i]@ == w
}

/// Withdraws the community classification from a wallet. Only the owner may
/// call this; a wallet not registered is rejected.
pub fn remove_communitymember(platform: &mut Platform, sender: &String, wallet: &String) -> (r:
    Result<(), ContractError>)
    requires
        old(platform).wf(),
    ensures
        final(platform).wf(),
        final(platform).config == old(platform).config,
        final(platform).projects == old(platform).projects,
        r is Err ==> final(platform).community == old(platform).community,
        (r == Err::<(), ContractError>(ContractError::Unauthorized) <==> sender@ != old(
            platform,
        ).config.owner@),
        sender@ == old(platform).config.owner@ ==> (r == Err::<(), ContractError>(
            ContractError::NotRegisteredCommunity,
        ) <==> !is_community_member(old(platform).community@, wallet@)),
        (r is Ok <==> sender@ == old(platform).config.owner@ && is_community_member(
            old(platform).community@,
            wallet@,
        )),
        r is Ok ==> final(platform).community@ == old(platform).community@.remove(
            member_index(old(platform).community@, wallet@),
        ),
{
    if !(*sender == platform.config.owner) {
        return Err(ContractError::Unauthorized);
    }
    match crate::state::find_member(&platform.community, wallet) {
        Some(i) => {
            proof {
                let k = member_index(platform.community@, wallet@);
                assert(0 <= k < platform.community@.len() && platform.community@[k]@ == wallet@)
                    by {
                    assert(is_community_member(platform.community@, wallet@));
                }
                if k != i as int {
                    assert(platform.community@[k]@ != platform.community@[i as int]@);
                }
            }
            platform.community.remove(i);
            proof {
                assert forall|a: int, b: int|
                    0 <= a < b < platform.community@.len() implies platform.community@[a]@
                    != platform.community@[b]@ by {
                    if b < i as int {
                        assert(old(platform).community@[a] == platform.community@[a]);
                    }
                }
            }
            Ok(())
        },
        None => Err(ContractError::NotRegisteredCommunity),
    }
}

/// The community vote ledger seeded at approval: one unset record per
/// registered community wallet.
pub open spec fn seeded_votes(c: Seq<String>) -> Seq<VoteRecord> {
    c.map_values(|w: String| VoteRecord { wallet: w, voted: false })
}

/// Builds the seeded community vote ledger.
fn seed_community_votes(community: &Vec<String>) -> (r: Vec<VoteRecord>)
    ensures
        r@ == seeded_votes(community@),
{
    let mut r: Vec<VoteRecord> = Vec::new();
    let mut i: usize = 0;
    while i < community.len()
        invariant
            i <= community@.len(),
            r@ == seeded_votes(community@.subrange(0, i as int)),
        decreases community@.len() - i,
    {
        r.push(VoteRecord { wallet: community[i].clone(), voted: false });
        proof {
            assert(r@ =~= seeded_votes(community@.subrange(0, i as int + 1)));
        }
        i = i + 1;
    }
    proof {
        assert(community@.subrange(0, community@.len() as int) =~= community@);
    }
    r
}

/// Fresh milestone records for the given tranche amounts: each opens in
/// voting with an empty ledger.
pub open spec fn plan_milestones(amounts: Seq<u128>, ms: Seq<Milestone>) -> bool {
    &&& ms.len() == amounts.len()
    &&& (forall|k: int|
        #![trigger ms[k]]
        0 <= k < amounts.len() ==> {
            &&& ms[k].amount == amounts[k]
            &&& ms[k].status == MilestoneStatus::Voting
            &&& ms[k].votes@.len() == 0
        })
}

/// Sets a project's funding plan while it awaits approval: the funding
/// target the two pools split, and the milestone tranches its release is
/// paid out in. Only the platform owner may call this.
pub fn set_funding_plan(
    platform: &mut Platform,
    sender: &String,
    project_id: u64,
    funding_target: u128,
    milestone_amounts: Vec<u128>,
) -> (r: Result<(), ContractError>)
    requires
        old(platform).wf(),
    ensures
        final(platform).wf(),
        final(platform).config == old(platform).config,
        final(platform).community == old(platform).community,
        r is Err ==> final(platform).projects@ == old(platform).projects@,
        (r == Err::<(), ContractError>(ContractError::NotRegisteredProject) <==> !has_project(
            old(platform).projects@,
            project_id,
        )),
        has_project(old(platform).projects@, project_id) ==> {
            let i = project_index(old(platform).projects@, project_id);
            let op = old(platform).projects@[i];
            &&& (sender@ != old(platform).config.owner@ <==> r == Err::<(), ContractError>(
                ContractError::Unauthorized,
            ))
            &&& (sender@ == old(platform).config.owner@ ==> (r == Err::<(), ContractError>(
                ContractError::NotCorrectStatus { status: op.status },
            ) <==> op.status != ProjectStatus::PendingApproval))
            &&& (r is Ok <==> sender@ == old(platform).config.owner@ && op.status
                == ProjectStatus::PendingApproval)
            &&& (r is Ok ==> {
                let np = final(platform).projects@[i];
                &&& final(platform).projects@.len() == old(platform).projects@.len()
                &&& (forall|j: int|
                    0 <= j < old(platform).projects@.len() && j != i
                        ==> final(platform).projects@[j] == old(platform).projects@[j])
                &&& np.funding_target == funding_target
                &&& plan_milestones(milestone_amounts@, np.milestones@)
                &&& np == (ProjectInfo {
                    funding_target,
                    milestones: np.milestones,
                    ..op
                })
            })
        },
{
    let i = match find_project(&platform.projects, project_id) {
        Some(i) => i,
        None => {
            return Err(ContractError::NotRegisteredProject);
        },
    };
    proof {
        lemma_project_index_agrees(old(platform).projects@, project_id, i as int);
    }
    if !(*sender == platform.config.owner) {
        return Err(ContractError::Unauthorized);
    }
    match platform.projects[i].status {
        ProjectStatus::PendingApproval => {},
        _ => {
            let status = platform.projects[i].status;
            return Err(ContractError::NotCorrectStatus { status });
        },
    }
    let mut ms: Vec<Milestone> = Vec::new();
    let mut k: usize = 0;
    while k < milestone_amounts.len()
        invariant
            k <= milestone_amounts@.len(),
            ms@.len() == k,
            forall|t: int|
                #![trigger ms@[t]]
                0 <= t < k ==> {
                    &&& ms@[t].amount == milestone_amounts@[t]
                    &&& ms@[t].status == MilestoneStatus::Voting
                    &&& ms@[t].votes@.len() == 0
                },
        decreases milestone_amounts@.len() - k,
    {
        ms.push(
            Milestone {
                amount: milestone_amounts[k],
                status: MilestoneStatus::Voting,
                votes: Vec::new(),
            },
        );
        k = k + 1;
    }
    let p = &mut platform.projects[i];
    p.funding_target = funding_target;
    p.milestones = ms;
    Ok(())
}

/// Approves a project for its community vote: the curator — the platform
/// owner — moves it from pending approval to community voting, records the
/// vote deadline, and seeds the community vote ledger from the registry.
pub fn approve_project(
    platform: &mut Platform,
    sender: &String,
    project_id: u64,
    vote_deadline: u64,
) -> (r: Result<(), ContractError>)
    requires
        old(platform).wf(),
    ensures
        final(platform).wf(),
        final(platform).config == old(platform).config,
        final(platform).community == old(platform).community,
        r is Err ==> final(platform).projects@ == old(platform).projects@,
        (r == Err::<(), ContractError>(ContractError::NotRegisteredProject) <==> !has_project(
            old(platform).projects@,
            project_id,
        )),
        has_project(old(platform).projects@, project_id) ==> {
            let i = project_index(old(platform).projects@, project_id);
            let op = old(platform).projects@[i];
            &&& (sender@ != old(platform).config.owner@ <==> r == Err::<(), ContractError>(
                ContractError::Unauthorized,
            ))
            &&& (sender@ == old(platform).config.owner@ ==> (r == Err::<(), ContractError>(
                ContractError::NotCorrectStatus { status: op.status },
            ) <==> op.status != ProjectStatus::PendingApproval))
            &&& (r is Ok <==> sender@ == old(platform).config.owner@ && op.status
                == ProjectStatus::PendingApproval)
            &&& (r is Ok ==> {
                &&& final(platform).projects@.len() == old(platform).projects@.len()
                &&& (forall|j: int|
                    0 <= j < old(platform).projects@.len() && j != i
                        ==> final(platform).projects@[j] == old(platform).projects@[j])
                &&& final(platform).projects@[i].community_votes@ == seeded_votes(
                    old(platform).community@,
                )
                &&& final(platform).projects@[i] == (ProjectInfo {
                    status: ProjectStatus::CommunityVoting,
                    vote_deadline,
                    community_votes: final(platform).projects@[i].community_votes,
                    ..op
                })
            })
        },
{
    let i = match find_project(&platform.projects, project_id) {
        Some(i) => i,
        None => {
            return Err(ContractError::NotRegisteredProject);
        },
    };
    proof {
        lemma_project_index_agrees(old(platform).projects@, project_id, i as int);
    }
    if !(*sender == platform.config.owner) {
        return Err(ContractError::Unauthorized);
    }
    match platform.projects[i].status {
        ProjectStatus::PendingApproval => {},
        _ => {
            let status = platform.projects[i].status;
            return Err(ContractError::NotCorrectStatus { status });
        },
    }
    let votes = seed_community_votes(&platform.community);
    let p = &mut platform.projects[i];
    p.status = ProjectStatus::CommunityVoting;
    p.vote_deadline = vote_deadline;
    p.community_votes = votes;
    Ok(())
}

/// Casts a community vote on a project in community voting. A wallet not
/// enrolled in the ledger changes nothing; once the votes cast in favour
/// reach half of the community roll, the project advances to fundraising.
pub fn set_community_vote(
    platform: &mut Platform,
    project_id: u64,
    wallet: &String,
    vote: bool,
) -> (r: Result<(), ContractError>)
    requires
        old(platform).wf(),
    ensures
        final(platform).wf(),
        final(platform).config == old(platform).config,
        final(platform).community == old(platform).community,
        r is Err ==> final(platform).projects@ == old(platform).projects@,
        (r == Err::<(), ContractError>(ContractError::NotRegisteredProject) <==> !has_project(
            old(platform).projects@,
            project_id,
        )),
        has_project(old(platform).projects@, project_id) ==> {
            let i = project_index(old(platform).projects@, project_id);
            let op = old(platform).projects@[i];
            &&& (r == Err::<(), ContractError>(ContractError::NotCorrectStatus {
                status: op.status,
            }) <==> op.status != ProjectStatus::CommunityVoting)
            &&& (r is Ok <==> op.status == ProjectStatus::CommunityVoting)
            &&& (r is Ok ==> {
                let votes = voted_set(op.community_votes@, wallet@, vote);
                &&& final(platform).projects@.len() == old(platform).projects@.len()
                &&& (forall|j: int|
                    0 <= j < old(platform).projects@.len() && j != i
                        ==> final(platform).projects@[j] == old(platform).projects@[j])
                &&& final(platform).projects@[i].community_votes@ == votes
                &&& final(platform).projects@[i] == (ProjectInfo {
                    status: if 2 * vote_count(votes) >= votes.len() {
                        ProjectStatus::Fundraising
                    } else {
                        ProjectStatus::CommunityVoting
                    },
                    community_votes: final(platform).projects@[i].community_votes,
                    ..op
                })
            })
        },
{
    let i = match find_project(&platform.projects, project_id) {
        Some(i) => i,
        None => {
            return Err(ContractError::NotRegisteredProject);
        },
    };
    proof {
        lemma_project_index_agrees(old(platform).projects@, project_id, i as int);
    }
    match platform.projects[i].status {
        ProjectStatus::CommunityVoting => {},
        _ => {
            let status = platform.projects[i].status;
            return Err(ContractError::NotCorrectStatus { status });
        },
    }
    let p = &mut platform.projects[i];
    match find_voter(&p.community_votes, wallet) {
        Some(k) => {
            proof {
                lemma_first_voter_unique(p.community_votes@, wallet@, k as int);
            }
            let v = &mut p.community_votes[k];
            v.voted = vote;
            proof {
                assert(p.community_votes@ =~= voted_set(
                    old(platform).projects@[i as int].community_votes@,
                    wallet@,
                    vote,
                ));
            }
        },
        None => {
            proof {
                assert(p.community_votes@ =~= voted_set(
                    old(platform).projects@[i as int].community_votes@,
                    wallet@,
                    vote,
                ));
            }
        },
    }
    let count = count_votes(&p.community_votes);
    let roll = p.community_votes.len();
    if count >= roll - count {
        p.status = ProjectStatus::Fundraising;
    }
    Ok(())
}

/// The net amount of a contribution that backs the project: the stake less
/// the flat fee below the threshold, a fixed percentage of the stake —
/// rounded down — from the threshold on.
pub open spec fn backed_of(amount: u128) -> int {
    if amount < FEE_THRESHOLD {
        amount - FLAT_FEE
    } else {
        amount * (100 - FEE_PCT) / 100
    }
}

/// Whether the percentage split of a contribution stays inside 128 bits.
pub open spec fn fee_fits(amount: u128) -> bool {
    amount < FEE_THRESHOLD || amount * (100 - FEE_PCT) <= u128::MAX
}

/// The milestone vote ledger seeded when fundraising closes: one unset
/// record per backer of either pool, and the curator enrolled as already
/// approving.
pub open spec fn backer_votes(
    cb: Seq<BackerRecord>,
    gb: Seq<BackerRecord>,
    curator: String,
) -> Seq<VoteRecord> {
    cb.map_values(|b: BackerRecord| VoteRecord { wallet: b.wallet, voted: false }) + gb.map_values(
        |b: BackerRecord| VoteRecord { wallet: b.wallet, voted: false },
    ) + seq![VoteRecord { wallet: curator, voted: true }]
}

/// Every milestone of `new_ms` keeps its amount and status from `old_ms`
/// and carries `ledger` as its vote ledger.
pub open spec fn milestones_seeded(
    old_ms: Seq<Milestone>,
    new_ms: Seq<Milestone>,
    ledger: Seq<VoteRecord>,
) -> bool {
    &&& new_ms.len() == old_ms.len()
    &&& (forall|k: int|
        #![trigger new_ms[k]]
        0 <= k < old_ms.len() ==> {
            &&& new_ms[k].amount == old_ms[k].amount
            &&& new_ms[k].status == old_ms[k].status
            &&& new_ms[k].votes@ == ledger
        })
}

/// Copies a vote ledger record for record.
fn clone_ledger(ledger: &Vec<VoteRecord>) -> (r: Vec<VoteRecord>)
    ensures
        r@ == ledger@,
{
    let mut r: Vec<VoteRecord> = Vec::new();
    let mut i: usize = 0;
    while i < ledger.len()
        invariant
            i <= ledger@.len(),
            r@ == ledger@.subrange(0, i as int),
        decreases ledger@.len() - i,
    {
        r.push(VoteRecord { wallet: ledger[i].wallet.clone(), voted: ledger[i].voted });
        proof {
            assert(r@ =~= ledger@.subrange(0, i as int + 1));
        }
        i = i + 1;
    }
    proof {
        assert(ledger@.subrange(0, ledger@.len() as int) =~= ledger@);
    }
    r
}

/// Builds the milestone vote ledger from the final backer lists and the
/// curator.
fn build_backer_votes(cb: &Vec<BackerRecord>, gb: &Vec<BackerRecord>, curator: &String) -> (r: Vec<
    VoteRecord,
>)
    ensures
        r@ == backer_votes(cb@, gb@, *curator),
{
    let ghost cmap = cb@.map_values(|b: BackerRecord| VoteRecord { wallet: b.wallet, voted: false });
    let ghost gmap = gb@.map_values(|b: BackerRecord| VoteRecord { wallet: b.wallet, voted: false });
    let mut r: Vec<VoteRecord> = Vec::new();
    let mut i: usize = 0;
    while i < cb.len()
        invariant
            i <= cb@.len(),
            cmap == cb@.map_values(
                |b: BackerRecord| VoteRecord { wallet: b.wallet, voted: false },
            ),
            r@ == cmap.subrange(0, i as int),
        decreases cb@.len() - i,
    {
        r.push(VoteRecord { wallet: cb[i].wallet.clone(), voted: false });
        proof {
            assert(r@ =~= cmap.subrange(0, i as int + 1));
        }
        i = i + 1;
    }
    proof {
        assert(cmap.subrange(0, cb@.len() as int) =~= cmap);
    }
    let mut j: usize = 0;
    while j < gb.len()
        invariant
            j <= gb@.len(),
            cmap == cb@.map_values(
                |b: BackerRecord| VoteRecord { wallet: b.wallet, voted: false },
            ),
            gmap == gb@.map_values(
                |b: BackerRecord| VoteRecord { wallet: b.wallet, voted: false },
            ),
            r@ == cmap + gmap.subrange(0, j as int),
        decreases gb@.len() - j,
    {
        r.push(VoteRecord { wallet: gb[j].wallet.clone(), voted: false });
        proof {
            assert(r@ =~= cmap + gmap.subrange(0, j as int + 1));
        }
        j = j + 1;
    }
    proof {
        assert(gmap.subrange(0, gb@.len() as int) =~= gmap);
    }
    r.push(VoteRecord { wallet: curator.clone(), voted: true });
    proof {
        assert(r@ =~= backer_votes(cb@, gb@, *curator));
    }
    r
}

/// Rebuilds a milestone list with every vote ledger replaced by `ledger`.
fn seed_milestones(ms: &Vec<Milestone>, ledger: &Vec<VoteRecord>) -> (r: Vec<Milestone>)
    ensures
        milestones_seeded(ms@, r@, ledger@),
{
    let mut r: Vec<Milestone> = Vec::new();
    let mut k: usize = 0;
    while k < ms.len()
        invariant
            k <= ms@.len(),
            r@.len() == k,
            forall|t: int|
                #![trigger r@[t]]
                0 <= t < k ==> {
                    &&& r@[t].amount == ms@[t].amount
                    &&& r@[t].status == ms@[t].status
                    &&& r@[t].votes@ == ledger@
                },
        decreases ms@.len() - k,
    {
        let votes = clone_ledger(ledger);
        r.push(Milestone { amount: ms[k].amount, status: ms[k].status, votes });
        k = k + 1;
    }
    r
}

/// Accepts a contribution to a project in fundraising: enforces the minimum
/// stake, splits the stake into the backing portion and the protocol fee,
/// routes the backing to the pool of the sender's classification under its
/// half-of-target cap — refunding what exceeds the cap — and, when both
/// pools close at their caps, opens milestone voting with ledgers seeded
/// from the final backer lists and the curator. Returns the gateway
/// instructions: the market deposit, the fee transfer, and any refund.
pub fn back_project(
    platform: &mut Platform,
    project_id: u64,
    wallet: String,
    amount: u128,
    route: String,
) -> (r: Result<Vec<OutMsg>, ContractError>)
    requires
        old(platform).wf(),
    ensures
        final(platform).wf(),
        final(platform).config == old(platform).config,
        final(platform).community == old(platform).community,
        r is Err ==> final(platform).projects@ == old(platform).projects@,
        (r == Err::<Vec<OutMsg>, ContractError>(ContractError::NotRegisteredProject) <==> !has_project(
            old(platform).projects@,
            project_id,
        )),
        has_project(old(platform).projects@, project_id) ==> {
            let i = project_index(old(platform).projects@, project_id);
            let op = old(platform).projects@[i];
            &&& (op.status != ProjectStatus::Fundraising <==> r == Err::<
                Vec<OutMsg>,
                ContractError,
            >(ContractError::NotCorrectStatus { status: op.status }))
            &&& (op.status == ProjectStatus::Fundraising ==> {
                let is_comm = is_community_member(old(platform).community@, wallet@);
                let pool = if is_comm {
                    op.communitybacked_amount
                } else {
                    op.backerbacked_amount
                };
                let cap = op.funding_target / 2;
                &&& (amount < MIN_CONTRIBUTION <==> r == Err::<Vec<OutMsg>, ContractError>(
                    ContractError::NeedCoin,
                ))
                &&& (amount >= MIN_CONTRIBUTION ==> {
                    &&& (!fee_fits(amount) <==> r == Err::<Vec<OutMsg>, ContractError>(
                        ContractError::ArithmeticError,
                    ))
                    &&& (fee_fits(amount) ==> {
                        &&& (pool >= cap <==> r == Err::<Vec<OutMsg>, ContractError>(
                            ContractError::AlreadyCollected,
                        ))
                        &&& (pool < cap <==> r is Ok)
                    })
                })
                &&& (r matches Ok(msgs) ==> {
                    let backed = backed_of(amount);
                    let added = if backed <= cap - pool {
                        backed
                    } else {
                        cap - pool
                    };
                    let np = final(platform).projects@[i];
                    let comm_after = if is_comm {
                        (pool + added) as u128
                    } else {
                        op.communitybacked_amount
                    };
                    let back_after = if is_comm {
                        op.backerbacked_amount
                    } else {
                        (pool + added) as u128
                    };
                    let full = comm_after == cap && back_after == cap;
                    let record = BackerRecord {
                        wallet,
                        stake: amount,
                        backed: added as u128,
                        route,
                    };
                    &&& final(platform).projects@.len() == old(platform).projects@.len()
                    &&& (forall|j: int|
                        0 <= j < old(platform).projects@.len() && j != i
                            ==> final(platform).projects@[j] == old(platform).projects@[j])
                    &&& np.communitybacked_amount == comm_after
                    &&& np.backerbacked_amount == back_after
                    &&& (is_comm ==> np.community_backers@ == op.community_backers@.push(record)
                        && np.general_backers == op.general_backers)
                    &&& (!is_comm ==> np.general_backers@ == op.general_backers@.push(record)
                        && np.community_backers == op.community_backers)
                    &&& np.status == if full {
                        ProjectStatus::MilestoneReleasing
                    } else {
                        ProjectStatus::Fundraising
                    }
                    &&& (full ==> milestones_seeded(
                        op.milestones@,
                        np.milestones@,
                        backer_votes(
                            np.community_backers@,
                            np.general_backers@,
                            old(platform).config.owner,
                        ),
                    ))
                    &&& (!full ==> np.milestones == op.milestones)
                    &&& np == (ProjectInfo {
                        status: np.status,
                        communitybacked_amount: np.communitybacked_amount,
                        backerbacked_amount: np.backerbacked_amount,
                        community_backers: np.community_backers,
                        general_backers: np.general_backers,
                        milestones: np.milestones,
                        ..op
                    })
                    &&& msgs@.len() == (if backed > added {
                        3int
                    } else {
                        2int
                    })
                    &&& msgs@[0] == (OutMsg::MarketDeposit { amount: added as u128 })
                    &&& msgs@[1] == (OutMsg::NativeTransfer {
                        to: old(platform).config.treasury,
                        amount: (amount - backed) as u128,
                    })
                    &&& (backed > added ==> msgs@[2] == (OutMsg::NativeTransfer {
                        to: record.wallet,
                        amount: (backed - added) as u128,
                    }))
                })
            })
        },
{
    let i = match find_project(&platform.projects, project_id) {
        Some(i) => i,
        None => {
            return Err(ContractError::NotRegisteredProject);
        },
    };
    proof {
        lemma_project_index_agrees(old(platform).projects@, project_id, i as int);
    }
    match platform.projects[i].status {
        ProjectStatus::Fundraising => {},
        _ => {
            let status = platform.projects[i].status;
            return Err(ContractError::NotCorrectStatus { status });
        },
    }
    if amount < MIN_CONTRIBUTION {
        return Err(ContractError::NeedCoin);
    }
    let backed: u128 = if amount < FEE_THRESHOLD {
        amount - FLAT_FEE
    } else {
        let product = match amount.checked_mul(100 - FEE_PCT) {
            Some(p) => p,
            None => {
                return Err(ContractError::ArithmeticError);
            },
        };
        proof {
            lemma_pct_le(amount as int);
        }
        product / 100
    };
    let fee = amount - backed;
    let member = match crate::state::find_member(&platform.community, &wallet) {
        Some(_) => true,
        None => false,
    };
    let cap = platform.projects[i].funding_target / 2;
    let pool = if member {
        platform.projects[i].communitybacked_amount
    } else {
        platform.projects[i].backerbacked_amount
    };
    if pool >= cap {
        return Err(ContractError::AlreadyCollected);
    }
    let room = cap - pool;
    let added = if backed <= room {
        backed
    } else {
        room
    };
    let refund = backed - added;
    let mut msgs: Vec<OutMsg> = Vec::new();
    msgs.push(OutMsg::MarketDeposit { amount: added });
    msgs.push(OutMsg::NativeTransfer { to: platform.config.treasury.clone(), amount: fee });
    if refund > 0 {
        msgs.push(OutMsg::NativeTransfer { to: wallet.clone(), amount: refund });
    }
    let record = BackerRecord { wallet, stake: amount, backed: added, route };
    let curator = platform.config.owner.clone();
    let p = &mut platform.projects[i];
    if member {
        p.communitybacked_amount = pool + added;
        p.community_backers.push(record);
    } else {
        p.backerbacked_amount = pool + added;
        p.general_backers.push(record);
    }
    if p.communitybacked_amount == cap && p.backerbacked_amount == cap {
        p.status = ProjectStatus::MilestoneReleasing;
        let ledger = build_backer_votes(&p.community_backers, &p.general_backers, &curator);
        let seeded = seed_milestones(&p.milestones, &ledger);
        p.milestones = seeded;
    }
    Ok(msgs)
}

/// The exchange rate this contract estimates from its own books: total
/// native value deposited per yield token held, at `RATE_SCALE` fixed
/// point. Meaningful only against a positive yield-token balance.
pub open spec fn estimated_rate(total_deposited: u128, yield_balance: u128) -> int {
    total_deposited * RATE_SCALE / yield_balance as int
}

/// The rate used for withdrawal sizing: the larger of the estimate and the
/// market's live rate — a deliberate worst-case selection that avoids
/// over-withdrawing when the live rate has drifted.
pub open spec fn chosen_rate(total_deposited: u128, yield_balance: u128, live_rate: u128) -> int {
    if estimated_rate(total_deposited, yield_balance) >= live_rate {
        estimated_rate(total_deposited, yield_balance)
    } else {
        live_rate as int
    }
}

/// The yield-token amount redeemed to realize `amount` of native value.
pub open spec fn spec_redeem(
    amount: u128,
    total_deposited: u128,
    yield_balance: u128,
    live_rate: u128,
) -> int {
    amount * RATE_SCALE / chosen_rate(total_deposited, yield_balance, live_rate)
}

/// The native value actually realized by that redemption; it can fall short
/// of `amount` by rounding, never exceed it.
pub open spec fn spec_realized(
    amount: u128,
    total_deposited: u128,
    yield_balance: u128,
    live_rate: u128,
) -> int {
    spec_redeem(amount, total_deposited, yield_balance, live_rate) * chosen_rate(
        total_deposited,
        yield_balance,
        live_rate,
    ) / (RATE_SCALE as int)
}

/// Exactly when the withdrawal sizing stays inside 128-bit arithmetic: a
/// positive yield balance, a positive chosen rate, and products that fit.
pub open spec fn withdraw_fits(
    amount: u128,
    total_deposited: u128,
    yield_balance: u128,
    live_rate: u128,
) -> bool {
    &&& yield_balance > 0
    &&& total_deposited * RATE_SCALE <= u128::MAX
    &&& chosen_rate(total_deposited, yield_balance, live_rate) > 0
    &&& amount * RATE_SCALE <= u128::MAX
    &&& spec_redeem(amount, total_deposited, yield_balance, live_rate) * chosen_rate(
        total_deposited,
        yield_balance,
        live_rate,
    ) <= u128::MAX
}

/// Sizes a withdrawal from the shared yield-bearing position: picks the
/// worse of the estimated and live exchange rates, derives the yield-token
/// amount to redeem for `amount` of native value, and the native value that
/// redemption actually realizes. The realized value never exceeds the
/// requested one.
pub fn compute_withdraw(
    amount: u128,
    total_deposited: u128,
    yield_balance: u128,
    live_rate: u128,
) -> (r: Result<(u128, u128), ContractError>)
    ensures
        r is Ok <==> withdraw_fits(amount, total_deposited, yield_balance, live_rate),
        r is Err ==> r == Err::<(u128, u128), ContractError>(ContractError::ArithmeticError),
        r matches Ok(v) ==> {
            &&& v.0 == spec_redeem(amount, total_deposited, yield_balance, live_rate)
            &&& v.1 == spec_realized(amount, total_deposited, yield_balance, live_rate)
            &&& v.1 <= amount
        },
{
    if yield_balance == 0 {
        return Err(ContractError::ArithmeticError);
    }
    let est = match total_deposited.checked_mul(RATE_SCALE) {
        Some(p) => p / yield_balance,
        None => {
            return Err(ContractError::ArithmeticError);
        },
    };
    let rate = if est >= live_rate {
        est
    } else {
        live_rate
    };
    if rate == 0 {
        return Err(ContractError::ArithmeticError);
    }
    let scaled = match amount.checked_mul(RATE_SCALE) {
        Some(p) => p,
        None => {
            return Err(ContractError::ArithmeticError);
        },
    };
    let redeem = scaled / rate;
    let back = match redeem.checked_mul(rate) {
        Some(p) => p,
        None => {
            return Err(ContractError::ArithmeticError);
        },
    };
    let realized = back / RATE_SCALE;
    proof {
        lemma_realized_le(amount as int, rate as int);
    }
    Ok((redeem, realized))
}

/// Rounding in the redemption sizing only ever loses value: redeeming the
/// truncated yield amount realizes at most the requested native value.
proof fn lemma_realized_le(amount: int, rate: int)
    requires
        amount >= 0,
        rate > 0,
    ensures
        (amount * RATE_SCALE / rate) * rate / (RATE_SCALE as int) <= amount,
{
    let scaled = amount * RATE_SCALE;
    assert(scaled >= 0) by {
        vstd::arithmetic::mul::lemma_mul_nonnegative(amount, RATE_SCALE as int);
    }
    vstd::arithmetic::div_mod::lemma_remainder_lower(scaled, rate);
    vstd::arithmetic::div_mod::lemma_div_is_ordered(
        (scaled / rate) * rate,
        scaled,
        RATE_SCALE as int,
    );
    assert(scaled / (RATE_SCALE as int) == amount) by {
        vstd::arithmetic::div_mod::lemma_div_multiples_vanish(amount, RATE_SCALE as int);
        vstd::arithmetic::mul::lemma_mul_is_commutative(amount, RATE_SCALE as int);
    }
}

/// What of a project's raised funds still sits in the market: both pools
/// less what milestones have already released.
pub open spec fn spec_remaining(p: ProjectInfo) -> int {
    p.communitybacked_amount + p.backerbacked_amount - p.released_amount
}

/// The native value currently deposited across every project.
pub open spec fn spec_total_deposited(s: Seq<ProjectInfo>) -> int
    decreases s.len(),
{
    if s.len() == 0 {
        0
    } else {
        spec_total_deposited(s.drop_last()) + spec_remaining(s.last())
    }
}

/// Under the project invariant no project's remainder is negative, so the
/// deposit total only grows along the list.
proof fn lemma_deposited_nonneg(s: Seq<ProjectInfo>)
    requires
        forall|i: int| 0 <= i < s.len() ==> crate::state::wf_project(#[trigger] s[i]),
    ensures
        spec_total_deposited(s) >= 0,
    decreases s.len(),
{
    if s.len() > 0 {
        assert(forall|i: int|
            0 <= i < s.drop_last().len() ==> crate::state::wf_project(#[trigger] s.drop_last()[i]));
        lemma_deposited_nonneg(s.drop_last());
    }
}

/// A prefix never sums to more than the whole list.
proof fn lemma_deposited_prefix(s: Seq<ProjectInfo>, i: int)
    requires
        0 <= i <= s.len(),
        forall|k: int| 0 <= k < s.len() ==> crate::state::wf_project(#[trigger] s[k]),
    ensures
        spec_total_deposited(s.subrange(0, i)) <= spec_total_deposited(s),
        spec_total_deposited(s.subrange(0, s.len() as int)) == spec_total_deposited(s),
    decreases s.len() - i,
{
    assert(s.subrange(0, s.len() as int) =~= s);
    if i < s.len() {
        lemma_deposited_prefix(s, i + 1);
        assert(s.subrange(0, i + 1).drop_last() =~= s.subrange(0, i));
        assert(spec_total_deposited(s.subrange(0, i + 1)) == spec_total_deposited(
            s.subrange(0, i),
        ) + spec_remaining(s[i]));
    }
}

/// Sums what is still deposited across every project; fails exactly when
/// the true sum leaves 128 bits.
fn total_deposited(projects: &Vec<ProjectInfo>) -> (r: Result<u128, ContractError>)
    requires
        forall|i: int|
            0 <= i < projects@.len() ==> crate::state::wf_project(#[trigger] projects@[i]),
    ensures
        r is Ok <==> spec_total_deposited(projects@) <= u128::MAX,
        r matches Ok(v) ==> v == spec_total_deposited(projects@),
        r is Err ==> r == Err::<u128, ContractError>(ContractError::ArithmeticError),
{
    let mut cur: u128 = 0;
    let mut i: usize = 0;
    proof {
        assert(projects@.subrange(0, 0) =~= Seq::<ProjectInfo>::empty());
    }
    while i < projects.len()
        invariant
            i <= projects@.len(),
            forall|k: int|
                0 <= k < projects@.len() ==> crate::state::wf_project(#[trigger] projects@[k]),
            cur == spec_total_deposited(projects@.subrange(0, i as int)),
        decreases projects@.len() - i,
    {
        proof {
            lemma_deposited_prefix(projects@, i as int + 1);
            assert(projects@.subrange(0, i as int + 1).drop_last() =~= projects@.subrange(
                0,
                i as int,
            ));
            assert(spec_total_deposited(projects@.subrange(0, i as int + 1))
                == spec_total_deposited(projects@.subrange(0, i as int)) + spec_remaining(
                projects@[i as int],
            ));
        }
        let p = &projects[i];
        let contributed = p.communitybacked_amount + p.backerbacked_amount;
        let remaining = contributed - p.released_amount;
        cur = match cur.checked_add(remaining) {
            Some(v) => v,
            None => {
                return Err(ContractError::ArithmeticError);
            },
        };
        i = i + 1;
    }
    proof {
        lemma_deposited_prefix(projects@, projects@.len() as int);
    }
    Ok(cur)
}

/// Whether every enrolled voter of `vs` would stand in favour once `k` —
/// when enrolled — has cast `vote`.
fn all_voted_with(vs: &Vec<VoteRecord>, k: Option<usize>, vote: bool) -> (b: bool)
    requires
        k matches Some(i) ==> i < vs@.len(),
    ensures
        b == all_voted(
            match k {
                Some(i) => vs@.update(i as int, VoteRecord { voted: vote, ..vs@[i as int] }),
                None => vs@,
            },
        ),
{
    let ghost nvs = match k {
        Some(i) => vs@.update(i as int, VoteRecord { voted: vote, ..vs@[i as int] }),
        None => vs@,
    };
    let mut j: usize = 0;
    while j < vs.len()
        invariant
            j <= vs@.len(),
            nvs == match k {
                Some(i) => vs@.update(i as int, VoteRecord { voted: vote, ..vs@[i as int] }),
                None => vs@,
            },
            (k matches Some(i) ==> i < vs@.len()),
            nvs.len() == vs@.len(),
            forall|t: int| 0 <= t < j ==> nvs[t].voted,
        decreases vs@.len() - j,
    {
        let effective = match k {
            Some(kk) => if kk == j {
                vote
            } else {
                vs[j].voted
            },
            None => vs[j].voted,
        };
        proof {
            assert(effective == nvs[j as int].voted);
        }
        if !effective {
            return false;
        }
        j = j + 1;
    }
    true
}

/// Casts a milestone vote on the current milestone of a project in its
/// release loop. A wallet not enrolled in the milestone's ledger changes
/// nothing. Once every enrolled voter stands in favour, the milestone is
/// released: the engine sizes the withdrawal of the milestone amount from
/// the market at the worse of the estimated and live rates, sends the
/// realized value to the project owner, and advances the step — closing the
/// project after its last milestone.
pub fn set_milestone_vote(
    platform: &mut Platform,
    project_id: u64,
    wallet: &String,
    vote: bool,
    yield_balance: u128,
    live_rate: u128,
) -> (r: Result<Vec<OutMsg>, ContractError>)
    requires
        old(platform).wf(),
    ensures
        final(platform).wf(),
        final(platform).config == old(platform).config,
        final(platform).community == old(platform).community,
        r is Err ==> final(platform).projects@ == old(platform).projects@,
        (r == Err::<Vec<OutMsg>, ContractError>(ContractError::NotRegisteredProject) <==> !has_project(
            old(platform).projects@,
            project_id,
        )),
        has_project(old(platform).projects@, project_id) ==> {
            let i = project_index(old(platform).projects@, project_id);
            let op = old(platform).projects@[i];
            let step = op.milestone_step as int;
            &&& ((op.status != ProjectStatus::MilestoneReleasing || step >= op.milestones@.len())
                <==> r == Err::<Vec<OutMsg>, ContractError>(ContractError::NotCorrectStatus {
                status: op.status,
            }))
            &&& (op.status == ProjectStatus::MilestoneReleasing && step < op.milestones@.len()
                ==> {
                let m = op.milestones@[step];
                let nvs = voted_set(m.votes@, wallet@, vote);
                let fired = all_voted(nvs);
                let td = spec_total_deposited(old(platform).projects@);
                &&& (m.status != MilestoneStatus::Voting <==> r == Err::<
                    Vec<OutMsg>,
                    ContractError,
                >(ContractError::NotCorrectMilestoneStatus {
                    step: op.milestone_step as u64,
                    milestone_status: m.status,
                }))
                &&& (m.status == MilestoneStatus::Voting ==> {
                    &&& (!fired ==> r is Ok)
                    &&& (fired ==> {
                        &&& (r is Ok <==> td <= u128::MAX && withdraw_fits(
                            m.amount,
                            td as u128,
                            yield_balance,
                            live_rate,
                        ) && spec_realized(m.amount, td as u128, yield_balance, live_rate)
                            <= spec_remaining(op))
                        &&& (td <= u128::MAX && withdraw_fits(
                            m.amount,
                            td as u128,
                            yield_balance,
                            live_rate,
                        ) && spec_realized(m.amount, td as u128, yield_balance, live_rate)
                            > spec_remaining(op) ==> r == Err::<Vec<OutMsg>, ContractError>(
                            ContractError::NotEnoughBalance,
                        ))
                    })
                    &&& (r matches Ok(msgs) ==> {
                        let np = final(platform).projects@[i];
                        let redeem = spec_redeem(m.amount, td as u128, yield_balance, live_rate);
                        let realized = spec_realized(
                            m.amount,
                            td as u128,
                            yield_balance,
                            live_rate,
                        );
                        &&& final(platform).projects@.len() == old(platform).projects@.len()
                        &&& (forall|j: int|
                            0 <= j < old(platform).projects@.len() && j != i
                                ==> final(platform).projects@[j] == old(platform).projects@[j])
                        &&& np.milestones@.len() == op.milestones@.len()
                        &&& (forall|t: int|
                            0 <= t < op.milestones@.len() && t != step ==> np.milestones@[t]
                                == op.milestones@[t])
                        &&& np.milestones@[step].amount == m.amount
                        &&& np.milestones@[step].votes@ == nvs
                        &&& np.milestones@[step].status == (if fired {
                            MilestoneStatus::Released
                        } else {
                            MilestoneStatus::Voting
                        })
                        &&& (!fired ==> {
                            &&& msgs@.len() == 0
                            &&& np.milestone_step == op.milestone_step
                            &&& np.released_amount == op.released_amount
                            &&& np.status == op.status
                        })
                        &&& (fired ==> {
                            &&& msgs@.len() == 2
                            &&& msgs@[0] == (OutMsg::MarketRedeem {
                                yield_amount: redeem as u128,
                            })
                            &&& msgs@[1] == (OutMsg::NativeTransfer {
                                to: op.config.owner,
                                amount: realized as u128,
                            })
                            &&& np.milestone_step == op.milestone_step + 1
                            &&& np.released_amount == op.released_amount + realized
                            &&& np.status == (if step + 1 == op.milestones@.len() {
                                ProjectStatus::Completed
                            } else {
                                ProjectStatus::MilestoneReleasing
                            })
                        })
                        &&& np == (ProjectInfo {
                            status: np.status,
                            milestones: np.milestones,
                            milestone_step: np.milestone_step,
                            released_amount: np.released_amount,
                            ..op
                        })
                    })
                })
            })
        },
{
    let i = match find_project(&platform.projects, project_id) {
        Some(i) => i,
        None => {
            return Err(ContractError::NotRegisteredProject);
        },
    };
    proof {
        lemma_project_index_agrees(old(platform).projects@, project_id, i as int);
    }
    match platform.projects[i].status {
        ProjectStatus::MilestoneReleasing => {},
        _ => {
            let status = platform.projects[i].status;
            return Err(ContractError::NotCorrectStatus { status });
        },
    }
    let step = platform.projects[i].milestone_step;
    if step >= platform.projects[i].milestones.len() {
        let status = platform.projects[i].status;
        return Err(ContractError::NotCorrectStatus { status });
    }
    let mstatus = platform.projects[i].milestones[step].status;
    match mstatus {
        MilestoneStatus::Voting => {},
        _ => {
            return Err(
                ContractError::NotCorrectMilestoneStatus {
                    step: step as u64,
                    milestone_status: mstatus,
                },
            );
        },
    }
    let k = find_voter(&platform.projects[i].milestones[step].votes, wallet);
    proof {
        match k {
            Some(kk) => lemma_first_voter_unique(
                platform.projects@[i as int].milestones@[step as int].votes@,
                wallet@,
                kk as int,
            ),
            None => (),
        }
    }
    let fired = all_voted_with(&platform.projects[i].milestones[step].votes, k, vote);
    let mut msgs: Vec<OutMsg> = Vec::new();
    let mut realized_amt: u128 = 0;
    if fired {
        let td = total_deposited(&platform.projects)?;
        let m_amount = platform.projects[i].milestones[step].amount;
        let (redeem, realized) = match compute_withdraw(m_amount, td, yield_balance, live_rate) {
            Ok(v) => v,
            Err(e) => {
                return Err(e);
            },
        };
        let contributed = platform.projects[i].communitybacked_amount
            + platform.projects[i].backerbacked_amount;
        let remaining = contributed - platform.projects[i].released_amount;
        if realized > remaining {
            return Err(ContractError::NotEnoughBalance);
        }
        msgs.push(OutMsg::MarketRedeem { yield_amount: redeem });
        msgs.push(
            OutMsg::NativeTransfer {
                to: platform.projects[i].config.owner.clone(),
                amount: realized,
            },
        );
        realized_amt = realized;
    }
    let p = &mut platform.projects[i];
    {
        let m = &mut p.milestones[step];
        if let Some(kk) = k {
            let v = &mut m.votes[kk];
            v.voted = vote;
        }
        proof {
            assert(m.votes@ =~= voted_set(
                old(platform).projects@[i as int].milestones@[step as int].votes@,
                wallet@,
                vote,
            ));
        }
        if fired {
            m.status = MilestoneStatus::Released;
        }
    }
    if fired {
        p.milestone_step = step + 1;
        p.released_amount = p.released_amount + realized_amt;
        if p.milestone_step == p.milestones.len() {
            p.status = ProjectStatus::Completed;
        }
    }
    Ok(msgs)
}

/// Each backer's refund share: the realized pool times their backed amount
/// over the total backed, rounded down.
pub open spec fn share_msgs(bs: Seq<BackerRecord>, realized: u128, total: u128) -> Seq<OutMsg> {
    bs.map_values(
        |b: BackerRecord|
            OutMsg::NativeTransfer {
                to: b.wallet,
                amount: (realized * b.backed / total as int) as u128,
            },
    )
}

/// Whether every backer's share product stays inside 128 bits.
pub open spec fn shares_fit(bs: Seq<BackerRecord>, realized: u128) -> bool {
    forall|k: int| 0 <= k < bs.len() ==> realized * (#[trigger] bs[k]).backed <= u128::MAX
}

/// Appends one refund transfer per backer onto `msgs`.
fn push_shares(
    msgs: &mut Vec<OutMsg>,
    backers: &Vec<BackerRecord>,
    realized: u128,
    total: u128,
) -> (r: Result<(), ContractError>)
    requires
        total > 0,
    ensures
        r is Ok <==> shares_fit(backers@, realized),
        r is Err ==> r == Err::<(), ContractError>(ContractError::ArithmeticError),
        r is Ok ==> final(msgs)@ == old(msgs)@ + share_msgs(backers@, realized, total),
{
    let ghost smap = share_msgs(backers@, realized, total);
    let mut i: usize = 0;
    while i < backers.len()
        invariant
            i <= backers@.len(),
            total > 0,
            smap == share_msgs(backers@, realized, total),
            msgs@ == old(msgs)@ + smap.subrange(0, i as int),
            forall|k: int| 0 <= k < i ==> realized * (#[trigger] backers@[k]).backed <= u128::MAX,
        decreases backers@.len() - i,
    {
        let product = match realized.checked_mul(backers[i].backed) {
            Some(p) => p,
            None => {
                return Err(ContractError::ArithmeticError);
            },
        };
        msgs.push(
            OutMsg::NativeTransfer { to: backers[i].wallet.clone(), amount: product / total },
        );
        proof {
            assert(msgs@ =~= old(msgs)@ + smap.subrange(0, i as int + 1));
        }
        i = i + 1;
    }
    proof {
        assert(smap.subrange(0, backers@.len() as int) =~= smap);
        assert(msgs@ =~= old(msgs)@ + smap);
    }
    Ok(())
}

/// The shared read-only head of the failure and completion paths: what of
/// the project's funds remain, and the withdrawal sized for them.
pub open spec fn wind_down_fits(
    op: ProjectInfo,
    td: int,
    yield_balance: u128,
    live_rate: u128,
) -> bool {
    &&& td <= u128::MAX
    &&& withdraw_fits(spec_remaining(op) as u128, td as u128, yield_balance, live_rate)
}

/// Fails a project in its release loop: the curator moves it to the
/// terminal failed state, the remaining position is redeemed at the worse
/// of the estimated and live rates, and the realized value is fanned out to
/// every backer of both pools pro-rata by their backed amounts, rounded
/// down. A project nothing was backed with is failed with no refunds.
pub fn fail_project(
    platform: &mut Platform,
    sender: &String,
    project_id: u64,
    yield_balance: u128,
    live_rate: u128,
) -> (r: Result<Vec<OutMsg>, ContractError>)
    requires
        old(platform).wf(),
    ensures
        final(platform).wf(),
        final(platform).config == old(platform).config,
        final(platform).community == old(platform).community,
        r is Err ==> final(platform).projects@ == old(platform).projects@,
        (r == Err::<Vec<OutMsg>, ContractError>(ContractError::NotRegisteredProject) <==> !has_project(
            old(platform).projects@,
            project_id,
        )),
        has_project(old(platform).projects@, project_id) ==> {
            let i = project_index(old(platform).projects@, project_id);
            let op = old(platform).projects@[i];
            let td = spec_total_deposited(old(platform).projects@);
            let remaining = spec_remaining(op);
            let contributed = op.communitybacked_amount + op.backerbacked_amount;
            let realized = spec_realized(remaining as u128, td as u128, yield_balance, live_rate);
            &&& (sender@ != old(platform).config.owner@ <==> r == Err::<
                Vec<OutMsg>,
                ContractError,
            >(ContractError::Unauthorized))
            &&& (sender@ == old(platform).config.owner@ ==> {
                &&& (op.status != ProjectStatus::MilestoneReleasing <==> r == Err::<
                    Vec<OutMsg>,
                    ContractError,
                >(ContractError::NotCorrectStatus { status: op.status }))
                &&& (op.status == ProjectStatus::MilestoneReleasing ==> (r is Ok <==> wind_down_fits(
                    op,
                    td,
                    yield_balance,
                    live_rate,
                ) && (contributed == 0 || (shares_fit(op.community_backers@, realized as u128)
                    && shares_fit(op.general_backers@, realized as u128)))))
            })
            &&& (r matches Ok(msgs) ==> {
                let np = final(platform).projects@[i];
                let redeem = spec_redeem(remaining as u128, td as u128, yield_balance, live_rate);
                &&& final(platform).projects@.len() == old(platform).projects@.len()
                &&& (forall|j: int|
                    0 <= j < old(platform).projects@.len() && j != i
                        ==> final(platform).projects@[j] == old(platform).projects@[j])
                &&& msgs@[0] == (OutMsg::MarketRedeem { yield_amount: redeem as u128 })
                &&& (contributed > 0 ==> msgs@ == seq![
                    OutMsg::MarketRedeem { yield_amount: redeem as u128 },
                ] + share_msgs(op.community_backers@, realized as u128, contributed as u128)
                    + share_msgs(op.general_backers@, realized as u128, contributed as u128))
                &&& (contributed == 0 ==> msgs@.len() == 1)
                &&& np.status == ProjectStatus::Failed
                &&& np.released_amount == op.released_amount + realized
                &&& np == (ProjectInfo {
                    status: ProjectStatus::Failed,
                    released_amount: np.released_amount,
                    ..op
                })
            })
        },
{
    let i = match find_project(&platform.projects, project_id) {
        Some(i) => i,
        None => {
            return Err(ContractError::NotRegisteredProject);
        },
    };
    proof {
        lemma_project_index_agrees(old(platform).projects@, project_id, i as int);
    }
    if !(*sender == platform.config.owner) {
        return Err(ContractError::Unauthorized);
    }
    match platform.projects[i].status {
        ProjectStatus::MilestoneReleasing => {},
        _ => {
            let status = platform.projects[i].status;
            return Err(ContractError::NotCorrectStatus { status });
        },
    }
    let td = total_deposited(&platform.projects)?;
    let contributed = platform.projects[i].communitybacked_amount
        + platform.projects[i].backerbacked_amount;
    let remaining = contributed - platform.projects[i].released_amount;
    let (redeem, realized) = match compute_withdraw(remaining, td, yield_balance, live_rate) {
        Ok(v) => v,
        Err(e) => {
            return Err(e);
        },
    };
    let mut msgs: Vec<OutMsg> = Vec::new();
    msgs.push(OutMsg::MarketRedeem { yield_amount: redeem });
    if contributed > 0 {
        push_shares(&mut msgs, &platform.projects[i].community_backers, realized, contributed)?;
        push_shares(&mut msgs, &platform.projects[i].general_backers, realized, contributed)?;
    }
    let p = &mut platform.projects[i];
    p.status = ProjectStatus::Failed;
    p.released_amount = p.released_amount + realized;
    Ok(msgs)
}

/// Completes a project in its release loop: the curator moves it to the
/// terminal completed state, the remaining position is redeemed at the
/// worse of the estimated and live rates, and the realized value goes to
/// the project owner whole.
pub fn complete_project(
    platform: &mut Platform,
    sender: &String,
    project_id: u64,
    yield_balance: u128,
    live_rate: u128,
) -> (r: Result<Vec<OutMsg>, ContractError>)
    requires
        old(platform).wf(),
    ensures
        final(platform).wf(),
        final(platform).config == old(platform).config,
        final(platform).community == old(platform).community,
        r is Err ==> final(platform).projects@ == old(platform).projects@,
        (r == Err::<Vec<OutMsg>, ContractError>(ContractError::NotRegisteredProject) <==> !has_project(
            old(platform).projects@,
            project_id,
        )),
        has_project(old(platform).projects@, project_id) ==> {
            let i = project_index(old(platform).projects@, project_id);
            let op = old(platform).projects@[i];
            let td = spec_total_deposited(old(platform).projects@);
            let remaining = spec_remaining(op);
            &&& (sender@ != old(platform).config.owner@ <==> r == Err::<
                Vec<OutMsg>,
                ContractError,
            >(ContractError::Unauthorized))
            &&& (sender@ == old(platform).config.owner@ ==> {
                &&& (op.status != ProjectStatus::MilestoneReleasing <==> r == Err::<
                    Vec<OutMsg>,
                    ContractError,
                >(ContractError::NotCorrectStatus { status: op.status }))
                &&& (op.status == ProjectStatus::MilestoneReleasing ==> (r is Ok <==> wind_down_fits(
                    op,
                    td,
                    yield_balance,
                    live_rate,
                )))
            })
            &&& (r matches Ok(msgs) ==> {
                let np = final(platform).projects@[i];
                let redeem = spec_redeem(remaining as u128, td as u128, yield_balance, live_rate);
                let realized = spec_realized(
                    remaining as u128,
                    td as u128,
                    yield_balance,
                    live_rate,
                );
                &&& final(platform).projects@.len() == old(platform).projects@.len()
                &&& (forall|j: int|
                    0 <= j < old(platform).projects@.len() && j != i
                        ==> final(platform).projects@[j] == old(platform).projects@[j])
                &&& msgs@ == seq![
                    OutMsg::MarketRedeem { yield_amount: redeem as u128 },
                    OutMsg::NativeTransfer { to: op.config.owner, amount: realized as u128 },
                ]
                &&& np.status == ProjectStatus::Completed
                &&& np.released_amount == op.released_amount + realized
                &&& np == (ProjectInfo {
                    status: ProjectStatus::Completed,
                    released_amount: np.released_amount,
                    ..op
                })
            })
        },
{
    let i = match find_project(&platform.projects, project_id) {
        Some(i) => i,
        None => {
            return Err(ContractError::NotRegisteredProject);
        },
    };
    proof {
        lemma_project_index_agrees(old(platform).projects@, project_id, i as int);
    }
    if !(*sender == platform.config.owner) {
        return Err(ContractError::Unauthorized);
    }
    match platform.projects[i].status {
        ProjectStatus::MilestoneReleasing => {},
        _ => {
            let status = platform.projects[i].status;
            return Err(ContractError::NotCorrectStatus { status });
        },
    }
    let td = total_deposited(&platform.projects)?;
    let contributed = platform.projects[i].communitybacked_amount
        + platform.projects[i].backerbacked_amount;
    let remaining = contributed - platform.projects[i].released_amount;
    let (redeem, realized) = match compute_withdraw(remaining, td, yield_balance, live_rate) {
        Ok(v) => v,
        Err(e) => {
            return Err(e);
        },
    };
    let mut msgs: Vec<OutMsg> = Vec::new();
    msgs.push(OutMsg::MarketRedeem { yield_amount: redeem });
    msgs.push(
        OutMsg::NativeTransfer { to: platform.projects[i].config.owner.clone(), amount: realized },
    );
    let p = &mut platform.projects[i];
    p.status = ProjectStatus::Completed;
    p.released_amount = p.released_amount + realized;
    proof {
        assert(msgs@ =~= seq![
            OutMsg::MarketRedeem { yield_amount: redeem },
            OutMsg::NativeTransfer {
                to: old(platform).projects@[i as int].config.owner,
                amount: realized,
            },
        ]);
    }
    Ok(msgs)
}

/// Removes a project record whole. Only the platform owner may call this;
/// every other record keeps its place and order.
pub fn remove_project(platform: &mut Platform, sender: &String, project_id: u64) -> (r: Result<
    (),
    ContractError,
>)
    requires
        old(platform).wf(),
    ensures
        final(platform).wf(),
        final(platform).config == old(platform).config,
        final(platform).community == old(platform).community,
        r is Err ==> final(platform).projects@ == old(platform).projects@,
        (r == Err::<(), ContractError>(ContractError::Unauthorized) <==> sender@ != old(
            platform,
        ).config.owner@),
        sender@ == old(platform).config.owner@ ==> (r == Err::<(), ContractError>(
            ContractError::NotRegisteredProject,
        ) <==> !has_project(old(platform).projects@, project_id)),
        (r is Ok <==> sender@ == old(platform).config.owner@ && has_project(
            old(platform).projects@,
            project_id,
        )),
        r is Ok ==> final(platform).projects@ == old(platform).projects@.remove(
            project_index(old(platform).projects@, project_id),
        ),
{
    if !(*sender == platform.config.owner) {
        return Err(ContractError::Unauthorized);
    }
    let i = match find_project(&platform.projects, project_id) {
        Some(i) => i,
        None => {
            return Err(ContractError::NotRegisteredProject);
        },
    };
    proof {
        lemma_project_index_agrees(old(platform).projects@, project_id, i as int);
    }
    platform.projects.remove(i);
    proof {
        assert forall|a: int, b: int|
            0 <= a < b < platform.projects@.len() implies platform.projects@[a].project_id
            != platform.projects@[b].project_id by {
            if b < i as int {
                assert(old(platform).projects@[a] == platform.projects@[a]);
            }
        }
        assert forall|a: int|
            0 <= a < platform.projects@.len() implies crate::state::wf_project(
            #[trigger] platform.projects@[a],
        ) by {
            if a < i as int {
                assert(old(platform).projects@[a] == platform.projects@[a]);
            } else {
                assert(old(platform).projects@[a + 1] == platform.projects@[a]);
            }
        }
    }
    Ok(())
}

/// The sweep of a balance list: one transfer of each non-empty balance to
/// wallet `to`, in the order reported.
pub open spec fn sweep_msgs(bs: Seq<CoinAmount>, to: String) -> Seq<OutMsg>
    decreases bs.len(),
{
    if bs.len() == 0 {
        Seq::<OutMsg>::empty()
    } else {
        sweep_msgs(bs.drop_last(), to) + if bs.last().amount > 0 {
            seq![
                OutMsg::NativeSend {
                    to,
                    denom: bs.last().denom,
                    amount: bs.last().amount,
                },
            ]
        } else {
            Seq::<OutMsg>::empty()
        }
    }
}

/// Sweeps every balance the gateway reported for this contract to the
/// treasury. Only the platform owner may call this; empty balances are
/// skipped.
pub fn sweep_balances(platform: &Platform, sender: &String, balances: Vec<CoinAmount>) -> (r:
    Result<Vec<OutMsg>, ContractError>)
    ensures
        (r == Err::<Vec<OutMsg>, ContractError>(ContractError::Unauthorized) <==> sender@
            != platform.config.owner@),
        (r is Ok <==> sender@ == platform.config.owner@),
        r matches Ok(msgs) ==> msgs@ == sweep_msgs(balances@, platform.config.treasury),
{
    if !(*sender == platform.config.owner) {
        return Err(ContractError::Unauthorized);
    }
    let ghost target = sweep_msgs(balances@, platform.config.treasury);
    let mut msgs: Vec<OutMsg> = Vec::new();
    let mut i: usize = 0;
    proof {
        assert(msgs@ =~= sweep_msgs(balances@.subrange(0, 0), platform.config.treasury));
    }
    while i < balances.len()
        invariant
            i <= balances@.len(),
            target == sweep_msgs(balances@, platform.config.treasury),
            msgs@ == sweep_msgs(balances@.subrange(0, i as int), platform.config.treasury),
        decreases balances@.len() - i,
    {
        proof {
            assert(balances@.subrange(0, i as int + 1).drop_last() =~= balances@.subrange(
                0,
                i as int,
            ));
        }
        if balances[i].amount > 0 {
            msgs.push(
                OutMsg::NativeSend {
                    to: platform.config.treasury.clone(),
                    denom: balances[i].denom.clone(),
                    amount: balances[i].amount,
                },
            );
        }
        proof {
            assert(msgs@ =~= sweep_msgs(
                balances@.subrange(0, i as int + 1),
                platform.config.treasury,
            ));
        }
        i = i + 1;
    }
    proof {
        assert(balances@.subrange(0, balances@.len() as int) =~= balances@);
    }
    Ok(msgs)
}

/// The percentage split never exceeds the stake.
proof fn lemma_pct_le(amount: int)
    requires
        amount >= 0,
    ensures
        amount * (100 - FEE_PCT) / 100 <= amount,
{
    assert(amount * (100 - FEE_PCT) == amount * 96);
    assert(amount * 96 <= amount * 100);
    vstd::arithmetic::div_mod::lemma_div_is_ordered(
        amount * (100 - FEE_PCT),
        amount * 100,
        100,
    );
    vstd::arithmetic::div_mod::lemma_div_multiples_vanish(amount, 100);
}

} // verus!
