//! The platform's full in-memory state and its well-formedness, together
//! with the lookup helpers the operations share. The host persists this
//! state between calls; every operation receives it explicitly.

use vstd::prelude::*;

use crate::msg::{ProjectInfo, ProjectStatus, UserInfo};

verus! {

/// Platform-wide configuration: the curator/owner wallet, the treasury that
/// collects protocol fees, the yield-bearing money-market and its receipt
/// token, and the companion vesting contract.
#[derive(Clone, Debug, PartialEq)]
pub struct GlobalConfig {
    pub owner: String,
    pub treasury: String,
    pub market_addr: String,
    pub yield_token_addr: String,
    pub vesting_addr: String,
}

/// The whole persisted state: the singleton configuration, the community
/// registry, and every project record keyed by its identifier.
#[derive(Clone, Debug, PartialEq)]
pub struct Platform {
    pub config: GlobalConfig,
    pub community: Vec<String>,
    pub projects: Vec<ProjectInfo>,
}

/// Whether some record in `users` belongs to wallet `w`.
pub open spec fn has_user(users: Seq<UserInfo>, w: Seq<char>) -> bool {
    exists|i: int| 0 <= i < users.len() && users[i].wallet_address@ == w
}

/// Every beneficiary record has released no more than its total.
pub open spec fn wf_users(users: Seq<UserInfo>) -> bool {
    forall|i: int| 0 <= i < users.len() ==> users[i].released_amount <= users[i].total_amount
}

/// A project's internal invariant: beneficiary bookkeeping is consistent,
/// neither pool exceeds its half-of-target cap, and the milestone cursor
/// stays within the milestone list.
pub open spec fn wf_project(p: ProjectInfo) -> bool {
    &&& wf_users(p.seed_users@)
    &&& wf_users(p.presale_users@)
    &&& wf_users(p.ido_users@)
    &&& p.communitybacked_amount <= p.funding_target / 2
    &&& p.backerbacked_amount <= p.funding_target / 2
    &&& p.milestone_step <= p.milestones@.len()
    &&& p.released_amount <= p.communitybacked_amount + p.backerbacked_amount
    &&& ((p.status == ProjectStatus::PendingApproval || p.status
        == ProjectStatus::CommunityVoting) ==> p.communitybacked_amount == 0
        && p.backerbacked_amount == 0 && p.released_amount == 0 && p.milestone_step == 0)
}

/// Whether some project in `s` carries identifier `id`.
pub open spec fn has_project(s: Seq<ProjectInfo>, id: u64) -> bool {
    exists|i: int| 0 <= i < s.len() && s[i].project_id == id
}

/// Project identifiers are unique across the registry.
pub open spec fn unique_ids(s: Seq<ProjectInfo>) -> bool {
    forall|i: int, j: int|
        0 <= i < j < s.len() ==> s[i].project_id != s[j].project_id
}

/// Project records stand in ascending identifier order, as the original
/// keyed store listed them; ascending order also makes identifiers unique.
pub open spec fn sorted_ids(s: Seq<ProjectInfo>) -> bool {
    forall|i: int, j: int|
        0 <= i < j < s.len() ==> s[i].project_id < s[j].project_id
}

/// Community registry membership is unique.
pub open spec fn unique_community(s: Seq<String>) -> bool {
    forall|i: int, j: int| 0 <= i < j < s.len() ==> s[i]@ != s[j]@
}

/// Whether wallet `w` is in the community registry.
pub open spec fn is_community_member(s: Seq<String>, w: Seq<char>) -> bool {
    exists|i: int| 0 <= i < s.len() && s[i]@ == w
}

impl Platform {
    /// The platform invariant every operation preserves.
    pub open spec fn wf(self) -> bool {
        &&& unique_ids(self.projects@)
        &&& sorted_ids(self.projects@)
        &&& unique_community(self.community@)
        &&& forall|i: int|
            0 <= i < self.projects@.len() ==> wf_project(#[trigger] self.projects@[i])
    }
}

/// Finds the project carrying `project_id`, if any. Identifiers are unique
/// under the platform invariant, so the returned index is the only match.
pub fn find_project(projects: &Vec<ProjectInfo>, project_id: u64) -> (r: Option<usize>)
    ensures
        match r {
            Some(i) => i < projects@.len() && projects@[i as int].project_id == project_id,
            None => !has_project(projects@, project_id),
        },
{
    let mut i: usize = 0;
    while i < projects.len()
        invariant
            i <= projects@.len(),
            forall|j: int| 0 <= j < i ==> projects@[j].project_id != project_id,
        decreases projects@.len() - i,
    {
        if projects[i].project_id == project_id {
            return Some(i);
        }
        i = i + 1;
    }
    None
}

/// Finds the first beneficiary record of wallet `w`, if any.
pub fn find_user(users: &Vec<UserInfo>, w: &String) -> (r: Option<usize>)
    ensures
        match r {
            Some(i) => {
                &&& i < users@.len()
                &&& users@[i as int].wallet_address@ == w@
                &&& forall|j: int| 0 <= j < i ==> users@[j].wallet_address@ != w@
            },
            None => !has_user(users@, w@),
        },
{
    let mut i: usize = 0;
    while i < users.len()
        invariant
            i <= users@.len(),
            forall|j: int| 0 <= j < i ==> users@[j].wallet_address@ != w@,
        decreases users@.len() - i,
    {
        if users[i].wallet_address == *w {
            return Some(i);
        }
        i = i + 1;
    }
    None
}

/// Whether wallet `w` is in the community registry; when it is, also at
/// which position.
pub fn find_member(community: &Vec<String>, w: &String) -> (r: Option<usize>)
    ensures
        match r {
            Some(i) => i < community@.len() && community@[i as int]@ == w@,
            None => !is_community_member(community@, w@),
        },
{
    let mut i: usize = 0;
    while i < community.len()
        invariant
            i <= community@.len(),
            forall|j: int| 0 <= j < i ==> community@[j]@ != w@,
        decreases community@.len() - i,
    {
        if community[i] == *w {
            return Some(i);
        }
        i = i + 1;
    }
    None
}

} // verus!
