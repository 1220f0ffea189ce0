//! Vesting ledger and project registry operations: platform setup, project
//! registration and configuration, per-stage beneficiary bookkeeping, and
//! claim settlement.

use vstd::prelude::*;

use crate::accrual::{accrual_fits, calc_claimable, elapsed_since, spec_claimable};
use crate::error::ContractError;
use crate::msg::{
    Config, InstantiateMsg, OutMsg, ProjectInfo, ProjectStatus, Stage, StageSchedules, UserInfo,
    VestingParameter,
};
use crate::state::{
    find_project, find_user, has_project, has_user, unique_ids, wf_project, wf_users,
    GlobalConfig, Platform,
};

verus! {

/// The unique position of the project carrying `id`, when one exists and
/// identifiers are unique.
pub open spec fn project_index(s: Seq<ProjectInfo>, id: u64) -> int {
    choose|i: int| 0 <= i < s.len() && s[i].project_id == id
}

/// The beneficiary vector of stage `stage` in project `p`.
pub open spec fn stage_vec(p: ProjectInfo, stage: Stage) -> Vec<UserInfo> {
    match stage {
        Stage::Seed => p.seed_users,
        Stage::Presale => p.presale_users,
        Stage::Ido => p.ido_users,
    }
}

/// The beneficiary list of stage `stage` in project `p`.
pub open spec fn stage_users(p: ProjectInfo, stage: Stage) -> Seq<UserInfo> {
    stage_vec(p, stage)@
}

/// Project `p` with the beneficiary list of stage `stage` replaced by `v`
/// and every other field kept.
pub open spec fn with_stage_users(p: ProjectInfo, stage: Stage, v: Vec<UserInfo>) -> ProjectInfo {
    match stage {
        Stage::Seed => ProjectInfo { seed_users: v, ..p },
        Stage::Presale => ProjectInfo { presale_users: v, ..p },
        Stage::Ido => ProjectInfo { ido_users: v, ..p },
    }
}

/// Position `i` holds the first record of wallet `w` in `us`.
pub open spec fn first_prop(us: Seq<UserInfo>, w: Seq<char>, i: int) -> bool {
    &&& 0 <= i < us.len()
    &&& us[i].wallet_address@ == w
    &&& (forall|j: int| 0 <= j < i ==> us[j].wallet_address@ != w)
}

/// The position of the first record of wallet `w` in `us`; meaningful only
/// when such a record exists.
pub open spec fn first_user_index(us: Seq<UserInfo>, w: Seq<char>) -> int {
    choose|i: int| first_prop(us, w, i)
}

/// Whenever some record of `w` exists, a first one exists, and
/// `first_user_index` denotes it.
pub proof fn lemma_first_user_exists(us: Seq<UserInfo>, w: Seq<char>)
    requires
        has_user(us, w),
    ensures
        first_prop(us, w, first_user_index(us, w)),
    decreases us.len(),
{
    if us[0].wallet_address@ == w {
        assert(first_prop(us, w, 0));
    } else {
        let tail = us.drop_first();
        assert(has_user(tail, w)) by {
            let k = choose|k: int| 0 <= k < us.len() && us[k].wallet_address@ == w;
            assert(tail[k - 1] == us[k]);
        }
        lemma_first_user_exists(tail, w);
        let i = first_user_index(tail, w);
        assert(first_prop(us, w, i + 1)) by {
            assert(us[i + 1] == tail[i]);
            assert(forall|j: int| 1 <= j < i + 1 ==> us[j] == tail[j - 1]);
        }
    }
    let i = choose|i: int| first_prop(us, w, i);
    assert(first_prop(us, w, i));
}

/// A first match is unique.
pub proof fn lemma_first_prop_unique(us: Seq<UserInfo>, w: Seq<char>, i: int)
    requires
        first_prop(us, w, i),
    ensures
        first_user_index(us, w) == i,
{
    assert(has_user(us, w));
    lemma_first_user_exists(us, w);
    let k = first_user_index(us, w);
    if k < i {
        assert(us[k].wallet_address@ != w);
    } else if i < k {
        assert(us[i].wallet_address@ != w);
    }
}

/// How a merge-on-add reshapes a beneficiary list: when `wallet` already
/// holds a record, only the first such record's total grows by `amount`;
/// otherwise a fresh record with nothing released is appended.
pub open spec fn user_merge(
    us: Seq<UserInfo>,
    wallet: String,
    amount: u128,
    fs: Seq<UserInfo>,
) -> bool {
    if has_user(us, wallet@) {
        let i = first_user_index(us, wallet@);
        fs == us.update(
            i,
            UserInfo { total_amount: (us[i].total_amount + amount) as u128, ..us[i] },
        )
    } else {
        fs == us.push(
            UserInfo {
                wallet_address: wallet,
                total_amount: amount,
                released_amount: 0,
                pending_amount: 0,
            },
        )
    }
}

/// Whether the merge-on-add of `amount` for `wallet` would overflow the
/// matched record's 128-bit total.
pub open spec fn merge_overflows(us: Seq<UserInfo>, w: Seq<char>, amount: u128) -> bool {
    has_user(us, w) && us[first_user_index(us, w)].total_amount + amount > u128::MAX
}

/// Creates the platform state at deployment: the admin wallet of the
/// deployment payload — or the deployer when none was supplied — becomes
/// owner; every other address starts empty, and the registries start empty.
pub fn init_platform(msg: InstantiateMsg, sender: String) -> (r: Platform)
    ensures
        r.wf(),
        r.config.owner@ == match msg.admin {
            Some(a) => a@,
            None => sender@,
        },
        r.config.treasury@ == Seq::<char>::empty(),
        r.config.market_addr@ == Seq::<char>::empty(),
        r.config.yield_token_addr@ == Seq::<char>::empty(),
        r.config.vesting_addr@ == Seq::<char>::empty(),
        r.community@ == Seq::<String>::empty(),
        r.projects@ == Seq::<ProjectInfo>::empty(),
{
    let owner = match msg.admin {
        Some(a) => a,
        None => sender,
    };
    Platform {
        config: GlobalConfig {
            owner,
            treasury: String::new(),
            market_addr: String::new(),
            yield_token_addr: String::new(),
            vesting_addr: String::new(),
        },
        community: Vec::new(),
        projects: Vec::new(),
    }
}

/// Replaces the platform owner and the companion vesting contract address.
/// Only the current owner may call this.
pub fn try_setconfig(
    platform: &mut Platform,
    sender: &String,
    admin: String,
    vesting_addr: String,
) -> (r: Result<(), ContractError>)
    requires
        old(platform).wf(),
    ensures
        final(platform).wf(),
        final(platform).community == old(platform).community,
        final(platform).projects == old(platform).projects,
        r matches Err(e) ==> e == ContractError::Unauthorized && sender@ != old(
            platform,
        ).config.owner@ && *final(platform) == *old(platform),
        r is Ok ==> sender@ == old(platform).config.owner@ && final(platform).config
            == (GlobalConfig { owner: admin, vesting_addr, ..old(platform).config }),
{
    if !(*sender == platform.config.owner) {
        return Err(ContractError::Unauthorized);
    }
    platform.config.owner = admin;
    platform.config.vesting_addr = vesting_addr;
    Ok(())
}

/// Replaces the treasury, money-market and yield-token addresses of the
/// gateway configuration. Only the owner may call this.
pub fn set_gateway_config(
    platform: &mut Platform,
    sender: &String,
    treasury: String,
    market_addr: String,
    yield_token_addr: String,
) -> (r: Result<(), ContractError>)
    requires
        old(platform).wf(),
    ensures
        final(platform).wf(),
        final(platform).community == old(platform).community,
        final(platform).projects == old(platform).projects,
        r matches Err(e) ==> e == ContractError::Unauthorized && sender@ != old(
            platform,
        ).config.owner@ && *final(platform) == *old(platform),
        r is Ok ==> sender@ == old(platform).config.owner@ && final(platform).config
            == (GlobalConfig { treasury, market_addr, yield_token_addr, ..old(platform).config }),
{
    if !(*sender == platform.config.owner) {
        return Err(ContractError::Unauthorized);
    }
    platform.config.treasury = treasury;
    platform.config.market_addr = market_addr;
    platform.config.yield_token_addr = yield_token_addr;
    Ok(())
}

/// Registers a new project record under a caller-supplied identifier,
/// validated unique. Only the platform owner may call this. The three
/// vesting parameters map positionally to the seed, presale and IDO stages.
/// Returns whether a companion vesting contract is configured and is to be
/// notified of the new project.
pub fn try_addproject(
    platform: &mut Platform,
    sender: &String,
    project_id: u64,
    admin: String,
    token_addr: String,
    vesting_params: Vec<VestingParameter>,
    start_time: Option<u64>,
) -> (r: Result<bool, ContractError>)
    requires
        old(platform).wf(),
        vesting_params@.len() == 3,
    ensures
        final(platform).wf(),
        final(platform).config == old(platform).config,
        final(platform).community == old(platform).community,
        r is Err ==> *final(platform) == *old(platform),
        (r == Err::<bool, ContractError>(ContractError::Unauthorized) <==> sender@ != old(
            platform,
        ).config.owner@),
        sender@ == old(platform).config.owner@ ==> (r == Err::<bool, ContractError>(
            ContractError::AlreadyRegisteredProject,
        ) <==> has_project(old(platform).projects@, project_id)),
        (r is Ok <==> sender@ == old(platform).config.owner@ && !has_project(
            old(platform).projects@,
            project_id,
        )),
        r matches Ok(notify) ==> {
            let k = id_rank(old(platform).projects@, project_id);
            let p = final(platform).projects@[k];
            &&& final(platform).projects@ == old(platform).projects@.insert(k, p)
            &&& p.project_id == project_id
            &&& p.config == (Config {
                owner: admin,
                token_addr,
                start_time: match start_time {
                    Some(v) => v,
                    None => 0,
                },
            })
            &&& p.vest_param == (StageSchedules {
                seed: vesting_params@[0],
                presale: vesting_params@[1],
                ido: vesting_params@[2],
            })
            &&& p.seed_users@.len() == 0
            &&& p.presale_users@.len() == 0
            &&& p.ido_users@.len() == 0
            &&& p.status == ProjectStatus::PendingApproval
            &&& p.funding_target == 0
            &&& p.vote_deadline == 0
            &&& p.community_votes@.len() == 0
            &&& p.milestones@.len() == 0
            &&& p.milestone_step == 0
            &&& p.communitybacked_amount == 0
            &&& p.backerbacked_amount == 0
            &&& p.community_backers@.len() == 0
            &&& p.general_backers@.len() == 0
            &&& p.released_amount == 0
            &&& (notify <==> old(platform).config.vesting_addr@.len() != 0)
        },
{
    if !(*sender == platform.config.owner) {
        return Err(ContractError::Unauthorized);
    }
    if let Some(_) = find_project(&platform.projects, project_id) {
        return Err(ContractError::AlreadyRegisteredProject);
    }
    let mut pos: usize = 0;
    while pos < platform.projects.len() && platform.projects[pos].project_id < project_id
        invariant
            pos <= platform.projects@.len(),
            forall|j: int| 0 <= j < pos ==> platform.projects@[j].project_id < project_id,
        decreases platform.projects@.len() - pos,
    {
        pos = pos + 1;
    }
    proof {
        assert forall|j: int|
            pos <= j < platform.projects@.len() implies platform.projects@[j].project_id
            > project_id by {
            if j == pos as int {
                assert(platform.projects@[j].project_id != project_id);
            } else {
                assert(platform.projects@[pos as int].project_id
                    < platform.projects@[j].project_id);
                assert(platform.projects@[pos as int].project_id != project_id);
            }
        }
        lemma_id_rank_boundary(platform.projects@, project_id, pos as int);
    }
    let config = Config {
        owner: admin,
        token_addr,
        start_time: match start_time {
            Some(v) => v,
            None => 0,
        },
    };
    let project = ProjectInfo {
        project_id,
        config,
        vest_param: StageSchedules {
            seed: vesting_params[0],
            presale: vesting_params[1],
            ido: vesting_params[2],
        },
        seed_users: Vec::new(),
        presale_users: Vec::new(),
        ido_users: Vec::new(),
        status: ProjectStatus::PendingApproval,
        funding_target: 0,
        vote_deadline: 0,
        community_votes: Vec::new(),
        milestones: Vec::new(),
        milestone_step: 0,
        communitybacked_amount: 0,
        backerbacked_amount: 0,
        community_backers: Vec::new(),
        general_backers: Vec::new(),
        released_amount: 0,
    };
    platform.projects.insert(pos, project);
    proof {
        let s = platform.projects@;
        let os = old(platform).projects@;
        assert forall|a: int, b: int| 0 <= a < b < s.len() implies s[a].project_id
            < s[b].project_id by {
            if b < pos as int {
                assert(s[a] == os[a] && s[b] == os[b]);
            } else if a > pos as int {
                assert(s[a] == os[a - 1] && s[b] == os[b - 1]);
            } else if a == pos as int {
                assert(s[b] == os[b - 1]);
            } else if b == pos as int {
                assert(s[a] == os[a]);
            } else {
                assert(s[a] == os[a] && s[b] == os[b - 1]);
            }
        }
        assert forall|a: int| 0 <= a < s.len() implies wf_project(#[trigger] s[a]) by {
            if a < pos as int {
                assert(s[a] == os[a]);
            } else if a > pos as int {
                assert(s[a] == os[a - 1]);
            }
        }
    }
    Ok(!platform.config.vesting_addr.as_str().is_empty())
}

/// How many records of `s` carry an identifier below `id`: in an ascending
/// registry, the position a fresh record of `id` is inserted at.
pub open spec fn id_rank(s: Seq<ProjectInfo>, id: u64) -> int
    decreases s.len(),
{
    if s.len() == 0 {
        0
    } else {
        id_rank(s.drop_last(), id) + if s.last().project_id < id {
            1int
        } else {
            0int
        }
    }
}

/// In a registry split by `pos` into identifiers below `id` and above it,
/// `id_rank` is exactly `pos`.
proof fn lemma_id_rank_boundary(s: Seq<ProjectInfo>, id: u64, pos: int)
    requires
        0 <= pos <= s.len(),
        forall|j: int| 0 <= j < pos ==> s[j].project_id < id,
        forall|j: int| pos <= j < s.len() ==> s[j].project_id > id,
    ensures
        id_rank(s, id) == pos,
    decreases s.len(),
{
    if s.len() > 0 {
        if pos == s.len() {
            lemma_id_rank_boundary(s.drop_last(), id, pos - 1);
        } else {
            lemma_id_rank_boundary(s.drop_last(), id, pos);
        }
    }
}

/// Partially updates a project's configuration: each optional field
/// overwrites only when present and is retained otherwise. The platform
/// owner or the project owner may call this.
pub fn try_setprojectconfig(
    platform: &mut Platform,
    sender: &String,
    project_id: u64,
    admin: Option<String>,
    token_addr: Option<String>,
    start_time: Option<u64>,
) -> (r: Result<(), ContractError>)
    requires
        old(platform).wf(),
    ensures
        final(platform).wf(),
        final(platform).config == old(platform).config,
        final(platform).community == old(platform).community,
        r is Err ==> *final(platform) == *old(platform),
        (r == Err::<(), ContractError>(ContractError::NotRegisteredProject) <==> !has_project(
            old(platform).projects@,
            project_id,
        )),
        has_project(old(platform).projects@, project_id) ==> {
            let i = project_index(old(platform).projects@, project_id);
            let op = old(platform).projects@[i];
            &&& (!stage_auth(*old(platform), op, sender@) <==> r == Err::<(), ContractError>(
                ContractError::Unauthorized,
            ))
            &&& (stage_auth(*old(platform), op, sender@) <==> r is Ok)
            &&& (r is Ok ==> {
                &&& final(platform).projects@.len() == old(platform).projects@.len()
                &&& (forall|j: int|
                    0 <= j < old(platform).projects@.len() && j != i
                        ==> final(platform).projects@[j] == old(platform).projects@[j])
                &&& final(platform).projects@[i] == ProjectInfo {
                    config: Config {
                        owner: match admin {
                            Some(a) => a,
                            None => op.config.owner,
                        },
                        token_addr: match token_addr {
                            Some(t) => t,
                            None => op.config.token_addr,
                        },
                        start_time: match start_time {
                            Some(v) => v,
                            None => op.config.start_time,
                        },
                    },
                    ..op
                }
            })
        },
{
    let i = match find_project(&platform.projects, project_id) {
        Some(i) => i,
        None => {
            return Err(ContractError::NotRegisteredProject);
        },
    };
    proof {
        lemma_project_index_agrees(old(platform).projects@, project_id, i as int);
    }
    if !(*sender == platform.config.owner) && !(*sender == platform.projects[i].config.owner) {
        return Err(ContractError::Unauthorized);
    }
    let p = &mut platform.projects[i];
    if let Some(a) = admin {
        p.config.owner = a;
    }
    if let Some(t) = token_addr {
        p.config.token_addr = t;
    }
    if let Some(v) = start_time {
        p.config.start_time = v;
    }
    Ok(())
}

/// Merges an allocation of `amount` for `wallet` into a beneficiary list:
/// an existing record's total grows, a missing one is appended with nothing
/// released. Fails — leaving the list untouched — only when the grown total
/// would overflow.
pub fn check_add_userinfo(users: &mut Vec<UserInfo>, wallet: String, amount: u128) -> (r: Result<
    (),
    ContractError,
>)
    ensures
        r is Ok <==> !merge_overflows(old(users)@, wallet@, amount),
        r is Ok ==> user_merge(old(users)@, wallet, amount, final(users)@),
        r is Err ==> *final(users) == *old(users) && r == Err::<(), ContractError>(
            ContractError::ArithmeticError,
        ),
        wf_users(old(users)@) ==> wf_users(final(users)@),
{
    match find_user(users, &wallet) {
        Some(i) => {
            proof {
                lemma_first_prop_unique(users@, wallet@, i as int);
            }
            let total = users[i].total_amount;
            match total.checked_add(amount) {
                Some(grown) => {
                    let u = &mut users[i];
                    u.total_amount = grown;
                    proof {
                        assert(final(users)@ =~= old(users)@.update(
                            i as int,
                            UserInfo {
                                total_amount: (old(users)@[i as int].total_amount + amount) as u128,
                                ..old(users)@[i as int]
                            },
                        ));
                    }
                    Ok(())
                },
                None => Err(ContractError::ArithmeticError),
            }
        },
        None => {
            users.push(
                UserInfo {
                    wallet_address: wallet,
                    total_amount: amount,
                    released_amount: 0,
                    pending_amount: 0,
                },
            );
            Ok(())
        },
    }
}

/// The shared postcondition of the merge-on-add operations: the registry
/// keeps its shape, errors name their exact cause and leave the state
/// untouched, and on success only the addressed stage list of the addressed
/// project changes, by `user_merge`.
pub open spec fn add_user_post(
    old_p: Platform,
    new_p: Platform,
    sender: Seq<char>,
    project_id: u64,
    stage: Stage,
    wallet: String,
    amount: u128,
    r: Result<(), ContractError>,
) -> bool {
    &&& new_p.config == old_p.config
    &&& new_p.community == old_p.community
    &&& new_p.projects@.len() == old_p.projects@.len()
    &&& (r == Err::<(), ContractError>(ContractError::NotRegisteredProject) <==> !has_project(
        old_p.projects@,
        project_id,
    ))
    &&& (r is Err ==> new_p.projects@ == old_p.projects@)
    &&& (has_project(old_p.projects@, project_id) ==> {
        let i = project_index(old_p.projects@, project_id);
        let op = old_p.projects@[i];
        &&& (!stage_auth(old_p, op, sender) <==> r == Err::<(), ContractError>(
            ContractError::Unauthorized,
        ))
        &&& (stage_auth(old_p, op, sender) ==> (r == Err::<(), ContractError>(
            ContractError::ArithmeticError,
        ) <==> merge_overflows(stage_users(op, stage), wallet@, amount)))
        &&& (r is Ok <==> stage_auth(old_p, op, sender) && !merge_overflows(
            stage_users(op, stage),
            wallet@,
            amount,
        ))
        &&& (r is Ok ==> {
            let np = new_p.projects@[i];
            &&& (forall|j: int|
                0 <= j < old_p.projects@.len() && j != i ==> new_p.projects@[j]
                    == old_p.projects@[j])
            &&& np == with_stage_users(op, stage, stage_vec(np, stage))
            &&& user_merge(stage_users(op, stage), wallet, amount, stage_users(np, stage))
        })
    })
}

/// Merge-on-add of an allocation into one stage of one project. The
/// platform owner or the project owner may call this.
fn add_stage_user(
    platform: &mut Platform,
    sender: &String,
    project_id: u64,
    stage: Stage,
    wallet: String,
    amount: u128,
) -> (r: Result<(), ContractError>)
    requires
        old(platform).wf(),
    ensures
        final(platform).wf(),
        add_user_post(
            *old(platform),
            *final(platform),
            sender@,
            project_id,
            stage,
            wallet,
            amount,
            r,
        ),
{
    let i = match find_project(&platform.projects, project_id) {
        Some(i) => i,
        None => {
            return Err(ContractError::NotRegisteredProject);
        },
    };
    proof {
        lemma_project_index_agrees(old(platform).projects@, project_id, i as int);
    }
    if !(*sender == platform.config.owner) && !(*sender == platform.projects[i].config.owner) {
        return Err(ContractError::Unauthorized);
    }
    let p = &mut platform.projects[i];
    let r = match stage {
        Stage::Seed => check_add_userinfo(&mut p.seed_users, wallet, amount),
        Stage::Presale => check_add_userinfo(&mut p.presale_users, wallet, amount),
        Stage::Ido => check_add_userinfo(&mut p.ido_users, wallet, amount),
    };
    proof {
        if r is Err {
            assert(platform.projects@ =~= old(platform).projects@);
        }
    }
    r
}

/// Merge-on-add of an allocation into the seed stage of a project.
pub fn try_addseeduser(
    platform: &mut Platform,
    sender: &String,
    project_id: u64,
    wallet: String,
    amount: u128,
) -> (r: Result<(), ContractError>)
    requires
        old(platform).wf(),
    ensures
        final(platform).wf(),
        add_user_post(
            *old(platform),
            *final(platform),
            sender@,
            project_id,
            Stage::Seed,
            wallet,
            amount,
            r,
        ),
{
    add_stage_user(platform, sender, project_id, Stage::Seed, wallet, amount)
}

/// Merge-on-add of an allocation into the presale stage of a project.
pub fn try_addpresaleuser(
    platform: &mut Platform,
    sender: &String,
    project_id: u64,
    wallet: String,
    amount: u128,
) -> (r: Result<(), ContractError>)
    requires
        old(platform).wf(),
    ensures
        final(platform).wf(),
        add_user_post(
            *old(platform),
            *final(platform),
            sender@,
            project_id,
            Stage::Presale,
            wallet,
            amount,
            r,
        ),
{
    add_stage_user(platform, sender, project_id, Stage::Presale, wallet, amount)
}

/// Merge-on-add of an allocation into the IDO stage of a project.
pub fn try_addidouser(
    platform: &mut Platform,
    sender: &String,
    project_id: u64,
    wallet: String,
    amount: u128,
) -> (r: Result<(), ContractError>)
    requires
        old(platform).wf(),
    ensures
        final(platform).wf(),
        add_user_post(
            *old(platform),
            *final(platform),
            sender@,
            project_id,
            Stage::Ido,
            wallet,
            amount,
            r,
        ),
{
    add_stage_user(platform, sender, project_id, Stage::Ido, wallet, amount)
}

/// Whether every record of `users` has released no more than its total.
fn users_well_formed(users: &Vec<UserInfo>) -> (b: bool)
    ensures
        b == wf_users(users@),
{
    let mut i: usize = 0;
    while i < users.len()
        invariant
            i <= users@.len(),
            forall|j: int|
                0 <= j < i ==> users@[j].released_amount <= users@[j].total_amount,
        decreases users@.len() - i,
    {
        if users[i].released_amount > users[i].total_amount {
            return false;
        }
        i = i + 1;
    }
    true
}

/// The shared postcondition of the bulk-replace operations: errors name
/// their exact cause and leave the state untouched, and on success the
/// addressed stage list of the addressed project becomes exactly the
/// submitted list while everything else is kept.
pub open spec fn set_users_post(
    old_p: Platform,
    new_p: Platform,
    sender: Seq<char>,
    project_id: u64,
    stage: Stage,
    user_infos: Vec<UserInfo>,
    r: Result<(), ContractError>,
) -> bool {
    &&& new_p.config == old_p.config
    &&& new_p.community == old_p.community
    &&& new_p.projects@.len() == old_p.projects@.len()
    &&& (r == Err::<(), ContractError>(ContractError::NotRegisteredProject) <==> !has_project(
        old_p.projects@,
        project_id,
    ))
    &&& (r is Err ==> new_p.projects@ == old_p.projects@)
    &&& (has_project(old_p.projects@, project_id) ==> {
        let i = project_index(old_p.projects@, project_id);
        let op = old_p.projects@[i];
        &&& (!stage_auth(old_p, op, sender) <==> r == Err::<(), ContractError>(
            ContractError::Unauthorized,
        ))
        &&& (stage_auth(old_p, op, sender) ==> (r == Err::<(), ContractError>(
            ContractError::ArithmeticError,
        ) <==> !wf_users(user_infos@)))
        &&& (r is Ok <==> stage_auth(old_p, op, sender) && wf_users(user_infos@))
        &&& (r is Ok ==> {
            &&& (forall|j: int|
                0 <= j < old_p.projects@.len() && j != i ==> new_p.projects@[j]
                    == old_p.projects@[j])
            &&& new_p.projects@[i] == with_stage_users(op, stage, user_infos)
        })
    })
}

/// Bulk overwrite, no merge, of one stage's beneficiary list. The platform
/// owner or the project owner may call this. A list in which some record has
/// released more than its total would break the vesting invariant and is
/// rejected whole.
fn set_stage_user_list(
    platform: &mut Platform,
    sender: &String,
    project_id: u64,
    stage: Stage,
    user_infos: Vec<UserInfo>,
) -> (r: Result<(), ContractError>)
    requires
        old(platform).wf(),
    ensures
        final(platform).wf(),
        set_users_post(
            *old(platform),
            *final(platform),
            sender@,
            project_id,
            stage,
            user_infos,
            r,
        ),
{
    let i = match find_project(&platform.projects, project_id) {
        Some(i) => i,
        None => {
            return Err(ContractError::NotRegisteredProject);
        },
    };
    proof {
        lemma_project_index_agrees(old(platform).projects@, project_id, i as int);
    }
    if !(*sender == platform.config.owner) && !(*sender == platform.projects[i].config.owner) {
        return Err(ContractError::Unauthorized);
    }
    if !users_well_formed(&user_infos) {
        return Err(ContractError::ArithmeticError);
    }
    let p = &mut platform.projects[i];
    match stage {
        Stage::Seed => {
            p.seed_users = user_infos;
        },
        Stage::Presale => {
            p.presale_users = user_infos;
        },
        Stage::Ido => {
            p.ido_users = user_infos;
        },
    }
    Ok(())
}

/// Bulk overwrite of the seed-stage beneficiary list.
pub fn try_setseedusers(
    platform: &mut Platform,
    sender: &String,
    project_id: u64,
    user_infos: Vec<UserInfo>,
) -> (r: Result<(), ContractError>)
    requires
        old(platform).wf(),
    ensures
        final(platform).wf(),
        set_users_post(
            *old(platform),
            *final(platform),
            sender@,
            project_id,
            Stage::Seed,
            user_infos,
            r,
        ),
{
    set_stage_user_list(platform, sender, project_id, Stage::Seed, user_infos)
}

/// Bulk overwrite of the presale-stage beneficiary list.
pub fn try_setpresaleusers(
    platform: &mut Platform,
    sender: &String,
    project_id: u64,
    user_infos: Vec<UserInfo>,
) -> (r: Result<(), ContractError>)
    requires
        old(platform).wf(),
    ensures
        final(platform).wf(),
        set_users_post(
            *old(platform),
            *final(platform),
            sender@,
            project_id,
            Stage::Presale,
            user_infos,
            r,
        ),
{
    set_stage_user_list(platform, sender, project_id, Stage::Presale, user_infos)
}

/// Bulk overwrite of the IDO-stage beneficiary list.
pub fn try_setidousers(
    platform: &mut Platform,
    sender: &String,
    project_id: u64,
    user_infos: Vec<UserInfo>,
) -> (r: Result<(), ContractError>)
    requires
        old(platform).wf(),
    ensures
        final(platform).wf(),
        set_users_post(
            *old(platform),
            *final(platform),
            sender@,
            project_id,
            Stage::Ido,
            user_infos,
            r,
        ),
{
    set_stage_user_list(platform, sender, project_id, Stage::Ido, user_infos)
}

/// Idempotent bulk replace, stated as a law: after a successful bulk
/// overwrite, the stored stage list read back is exactly the submitted
/// list, in submitted order.
pub proof fn lemma_replace_then_get(
    old_p: Platform,
    new_p: Platform,
    sender: Seq<char>,
    project_id: u64,
    stage: Stage,
    user_infos: Vec<UserInfo>,
)
    requires
        old_p.wf(),
        has_project(old_p.projects@, project_id),
        set_users_post(old_p, new_p, sender, project_id, stage, user_infos, Ok(())),
    ensures
        stage_users(new_p.projects@[project_index(old_p.projects@, project_id)], stage)
            == user_infos@,
{
    let i = project_index(old_p.projects@, project_id);
    assert(new_p.projects@[i] == with_stage_users(old_p.projects@[i], stage, user_infos));
}

/// ASCII case folding restricted to the letters of the three stage words;
/// any other character is kept, so folding an input and comparing it to a
/// lowercase stage word is exactly a case-insensitive match.
pub open spec fn fold_char(c: char) -> char {
    if c == 'S' {
        's'
    } else if c == 'E' {
        'e'
    } else if c == 'D' {
        'd'
    } else if c == 'P' {
        'p'
    } else if c == 'R' {
        'r'
    } else if c == 'A' {
        'a'
    } else if c == 'L' {
        'l'
    } else if c == 'I' {
        'i'
    } else if c == 'O' {
        'o'
    } else {
        c
    }
}

/// `s` folded character by character.
pub open spec fn folded(s: Seq<char>) -> Seq<char> {
    s.map_values(|c: char| fold_char(c))
}

/// Which stage a free-form stage word denotes, compared without regard to
/// ASCII case; any other word denotes no stage.
pub open spec fn spec_parse_stage(s: Seq<char>) -> Option<Stage> {
    if folded(s) == "seed"@ {
        Some(Stage::Seed)
    } else if folded(s) == "presale"@ {
        Some(Stage::Presale)
    } else if folded(s) == "ido"@ {
        Some(Stage::Ido)
    } else {
        None
    }
}

/// Folds one character as `fold_char` does.
fn fold_char_exec(c: char) -> (r: char)
    ensures
        r == fold_char(c),
{
    if c == 'S' {
        's'
    } else if c == 'E' {
        'e'
    } else if c == 'D' {
        'd'
    } else if c == 'P' {
        'p'
    } else if c == 'R' {
        'r'
    } else if c == 'A' {
        'a'
    } else if c == 'L' {
        'l'
    } else if c == 'I' {
        'i'
    } else if c == 'O' {
        'o'
    } else {
        c
    }
}

/// Whether `s`, folded, equals `t` character for character.
fn eq_folded(s: &str, t: &str) -> (b: bool)
    ensures
        b == (folded(s@) == t@),
{
    let sl = s.unicode_len();
    let tl = t.unicode_len();
    if sl != tl {
        proof {
            assert(folded(s@).len() != t@.len());
        }
        return false;
    }
    let mut i: usize = 0;
    while i < sl
        invariant
            i <= sl,
            sl == s@.len(),
            tl == t@.len(),
            sl == tl,
            forall|j: int| 0 <= j < i ==> folded(s@)[j] == t@[j],
        decreases sl - i,
    {
        let fc = fold_char_exec(s.get_char(i));
        let tc = t.get_char(i);
        if fc != tc {
            proof {
                assert(folded(s@)[i as int] == fold_char(s@[i as int]));
            }
            return false;
        }
        i = i + 1;
    }
    proof {
        assert(folded(s@) =~= t@);
    }
    true
}

/// Parses a free-form stage word, without regard to ASCII case.
pub fn parse_stage(stage: &String) -> (r: Option<Stage>)
    ensures
        r == spec_parse_stage(stage@),
{
    if eq_folded(stage.as_str(), "seed") {
        Some(Stage::Seed)
    } else if eq_folded(stage.as_str(), "presale") {
        Some(Stage::Presale)
    } else if eq_folded(stage.as_str(), "ido") {
        Some(Stage::Ido)
    } else {
        None
    }
}

/// Merge-on-add of an allocation into the stage named by a free-form word.
/// A word that names no stage leaves every record untouched and succeeds,
/// once registration and ownership have been checked.
pub fn try_adduser(
    platform: &mut Platform,
    sender: &String,
    project_id: u64,
    wallet: String,
    stage: String,
    amount: u128,
) -> (r: Result<(), ContractError>)
    requires
        old(platform).wf(),
    ensures
        final(platform).wf(),
        match spec_parse_stage(stage@) {
            Some(s) => add_user_post(
                *old(platform),
                *final(platform),
                sender@,
                project_id,
                s,
                wallet,
                amount,
                r,
            ),
            None => {
                &&& final(platform).projects@ == old(platform).projects@
                &&& final(platform).config == old(platform).config
                &&& final(platform).community == old(platform).community
                &&& (r == Err::<(), ContractError>(ContractError::NotRegisteredProject)
                    <==> !has_project(old(platform).projects@, project_id))
                &&& (has_project(old(platform).projects@, project_id) ==> {
                    let op = old(platform).projects@[project_index(
                        old(platform).projects@,
                        project_id,
                    )];
                    &&& (!stage_auth(*old(platform), op, sender@) <==> r == Err::<
                        (),
                        ContractError,
                    >(ContractError::Unauthorized))
                    &&& (stage_auth(*old(platform), op, sender@) <==> r is Ok)
                })
            },
        },
{
    let i = match find_project(&platform.projects, project_id) {
        Some(i) => i,
        None => {
            return Err(ContractError::NotRegisteredProject);
        },
    };
    proof {
        lemma_project_index_agrees(old(platform).projects@, project_id, i as int);
    }
    if !(*sender == platform.config.owner) && !(*sender == platform.projects[i].config.owner) {
        return Err(ContractError::Unauthorized);
    }
    match parse_stage(&stage) {
        Some(s) => add_stage_user(platform, sender, project_id, s, wallet, amount),
        None => Ok(()),
    }
}

/// The sum of the allocated totals of a beneficiary list.
pub open spec fn total_allocated(us: Seq<UserInfo>) -> int
    decreases us.len(),
{
    if us.len() == 0 {
        0
    } else {
        total_allocated(us.drop_last()) + us.last().total_amount
    }
}

/// The grand total allocated across all three stages of a project.
pub open spec fn project_total(p: ProjectInfo) -> int {
    total_allocated(p.seed_users@) + total_allocated(p.presale_users@) + total_allocated(
        p.ido_users@,
    )
}

/// Allocated totals never sum to a negative amount.
proof fn lemma_total_nonneg(us: Seq<UserInfo>)
    ensures
        total_allocated(us) >= 0,
    decreases us.len(),
{
    if us.len() > 0 {
        lemma_total_nonneg(us.drop_last());
    }
}

/// A prefix never sums to more than the whole list.
proof fn lemma_total_prefix(us: Seq<UserInfo>, i: int)
    requires
        0 <= i <= us.len(),
    ensures
        total_allocated(us.subrange(0, i)) <= total_allocated(us),
        total_allocated(us.subrange(0, us.len() as int)) == total_allocated(us),
    decreases us.len() - i,
{
    assert(us.subrange(0, us.len() as int) =~= us);
    if i < us.len() {
        lemma_total_prefix(us, i + 1);
        assert(us.subrange(0, i + 1).drop_last() =~= us.subrange(0, i));
        assert(total_allocated(us.subrange(0, i + 1)) == total_allocated(us.subrange(0, i))
            + us[i].total_amount);
    }
}

/// Adds the allocated totals of `users` onto `acc`; fails exactly when the
/// true sum leaves 128 bits.
fn sum_user_totals(users: &Vec<UserInfo>, acc: u128) -> (r: Result<u128, ContractError>)
    ensures
        r matches Ok(v) ==> v == acc + total_allocated(users@),
        r is Ok <==> acc + total_allocated(users@) <= u128::MAX,
        r is Err ==> r == Err::<u128, ContractError>(ContractError::ArithmeticError),
{
    let mut cur: u128 = acc;
    let mut i: usize = 0;
    proof {
        assert(users@.subrange(0, 0) =~= Seq::<UserInfo>::empty());
    }
    while i < users.len()
        invariant
            i <= users@.len(),
            cur == acc + total_allocated(users@.subrange(0, i as int)),
        decreases users@.len() - i,
    {
        proof {
            lemma_total_prefix(users@, i as int + 1);
            assert(users@.subrange(0, i as int + 1).drop_last() =~= users@.subrange(0, i as int));
            assert(total_allocated(users@.subrange(0, i as int + 1)) == total_allocated(
                users@.subrange(0, i as int),
            ) + users@[i as int].total_amount);
        }
        cur = match cur.checked_add(users[i].total_amount) {
            Some(v) => v,
            None => {
                return Err(ContractError::ArithmeticError);
            },
        };
        i = i + 1;
    }
    proof {
        lemma_total_prefix(users@, users@.len() as int);
    }
    Ok(cur)
}

/// Opens vesting for a project: requires a configured project token and a
/// configured companion vesting contract, checks that the token custody the
/// gateway reported covers the whole allocation scaled by the token's
/// decimal precision, stamps the start time with `now` when none was set,
/// and returns the grand total allocated across the three stages, which the
/// host forwards to the companion contract together with the project
/// record.
pub fn try_startvesting(
    platform: &mut Platform,
    project_id: u64,
    now: u64,
    token_balance: u128,
    decimals: u32,
) -> (r: Result<u128, ContractError>)
    requires
        old(platform).wf(),
    ensures
        final(platform).wf(),
        final(platform).config == old(platform).config,
        final(platform).community == old(platform).community,
        r is Err ==> final(platform).projects@ == old(platform).projects@,
        (r == Err::<u128, ContractError>(ContractError::NotRegisteredProject) <==> !has_project(
            old(platform).projects@,
            project_id,
        )),
        has_project(old(platform).projects@, project_id) ==> {
            let i = project_index(old(platform).projects@, project_id);
            let op = old(platform).projects@[i];
            let total = project_total(op);
            let need = total * spec_pow10(decimals as nat);
            let fits = total <= u128::MAX && spec_pow10(decimals as nat) <= u128::MAX && need
                <= u128::MAX;
            &&& (op.config.token_addr@.len() == 0 <==> r == Err::<u128, ContractError>(
                ContractError::NotTokenAddr,
            ))
            &&& (op.config.token_addr@.len() != 0 ==> (old(platform).config.vesting_addr@.len()
                == 0 <==> r == Err::<u128, ContractError>(ContractError::NotSetVestAddr)))
            &&& (op.config.token_addr@.len() != 0 && old(platform).config.vesting_addr@.len() != 0
                ==> {
                &&& (!fits ==> r == Err::<u128, ContractError>(ContractError::ArithmeticError))
                &&& (fits && token_balance < need ==> r == Err::<u128, ContractError>(
                    ContractError::NotEnoughBalance,
                ))
                &&& (r is Ok <==> fits && token_balance >= need)
                &&& (r matches Ok(v) ==> {
                    &&& v == project_total(op)
                    &&& final(platform).projects@.len() == old(platform).projects@.len()
                    &&& (forall|j: int|
                        0 <= j < old(platform).projects@.len() && j != i
                            ==> final(platform).projects@[j] == old(platform).projects@[j])
                    &&& final(platform).projects@[i] == ProjectInfo {
                        config: Config {
                            start_time: if op.config.start_time == 0 {
                                now
                            } else {
                                op.config.start_time
                            },
                            ..op.config
                        },
                        ..op
                    }
                })
            })
        },
{
    let i = match find_project(&platform.projects, project_id) {
        Some(i) => i,
        None => {
            return Err(ContractError::NotRegisteredProject);
        },
    };
    proof {
        lemma_project_index_agrees(old(platform).projects@, project_id, i as int);
    }
    if platform.projects[i].config.token_addr.as_str().is_empty() {
        return Err(ContractError::NotTokenAddr);
    }
    if platform.config.vesting_addr.as_str().is_empty() {
        return Err(ContractError::NotSetVestAddr);
    }
    proof {
        lemma_total_nonneg(platform.projects@[i as int].seed_users@);
        lemma_total_nonneg(platform.projects@[i as int].presale_users@);
        lemma_total_nonneg(platform.projects@[i as int].ido_users@);
    }
    let total = sum_user_totals(&platform.projects[i].seed_users, 0)?;
    let total = sum_user_totals(&platform.projects[i].presale_users, total)?;
    let total = sum_user_totals(&platform.projects[i].ido_users, total)?;
    let scale = pow10(decimals)?;
    let need = match total.checked_mul(scale) {
        Some(v) => v,
        None => {
            return Err(ContractError::ArithmeticError);
        },
    };
    if token_balance < need {
        return Err(ContractError::NotEnoughBalance);
    }
    let p = &mut platform.projects[i];
    if p.config.start_time == 0 {
        p.config.start_time = now;
    }
    proof {
        assert(platform.projects@[i as int] == ProjectInfo {
            config: Config {
                start_time: if old(platform).projects@[i as int].config.start_time == 0 {
                    now
                } else {
                    old(platform).projects@[i as int].config.start_time
                },
                ..old(platform).projects@[i as int].config
            },
            ..old(platform).projects@[i as int]
        });
    }
    Ok(total)
}

/// Replaces all three stage schedules of a project transactionally; the
/// input always lists the seed, presale and IDO schedules in that order.
/// Only the project owner may call this.
pub fn try_setvestingparameters(
    platform: &mut Platform,
    sender: &String,
    project_id: u64,
    params: Vec<VestingParameter>,
) -> (r: Result<(), ContractError>)
    requires
        old(platform).wf(),
        params@.len() == 3,
    ensures
        final(platform).wf(),
        final(platform).config == old(platform).config,
        final(platform).community == old(platform).community,
        r is Err ==> final(platform).projects@ == old(platform).projects@,
        (r == Err::<(), ContractError>(ContractError::NotRegisteredProject) <==> !has_project(
            old(platform).projects@,
            project_id,
        )),
        has_project(old(platform).projects@, project_id) ==> {
            let i = project_index(old(platform).projects@, project_id);
            let op = old(platform).projects@[i];
            &&& (sender@ != op.config.owner@ <==> r == Err::<(), ContractError>(
                ContractError::Unauthorized,
            ))
            &&& (sender@ == op.config.owner@ <==> r is Ok)
            &&& (r is Ok ==> {
                &&& final(platform).projects@.len() == old(platform).projects@.len()
                &&& (forall|j: int|
                    0 <= j < old(platform).projects@.len() && j != i
                        ==> final(platform).projects@[j] == old(platform).projects@[j])
                &&& final(platform).projects@[i] == ProjectInfo {
                    vest_param: StageSchedules {
                        seed: params@[0],
                        presale: params@[1],
                        ido: params@[2],
                    },
                    ..op
                }
            })
        },
{
    let i = match find_project(&platform.projects, project_id) {
        Some(i) => i,
        None => {
            return Err(ContractError::NotRegisteredProject);
        },
    };
    proof {
        lemma_project_index_agrees(old(platform).projects@, project_id, i as int);
    }
    if !(*sender == platform.projects[i].config.owner) {
        return Err(ContractError::Unauthorized);
    }
    let p = &mut platform.projects[i];
    p.vest_param = StageSchedules { seed: params[0], presale: params[1], ido: params[2] };
    Ok(())
}

/// Ten to the `e`-th power.
pub open spec fn spec_pow10(e: nat) -> int
    decreases e,
{
    if e == 0 {
        1
    } else {
        10 * spec_pow10((e - 1) as nat)
    }
}

/// Powers of ten are positive.
proof fn lemma_pow10_pos(e: nat)
    ensures
        spec_pow10(e) >= 1,
    decreases e,
{
    if e > 0 {
        lemma_pow10_pos((e - 1) as nat);
    }
}

/// Powers of ten grow with the exponent.
proof fn lemma_pow10_mono(a: nat, b: nat)
    requires
        a <= b,
    ensures
        spec_pow10(a) <= spec_pow10(b),
    decreases b,
{
    if a < b {
        lemma_pow10_mono(a, (b - 1) as nat);
        lemma_pow10_pos((b - 1) as nat);
    }
}

/// Computes ten to the `e`-th power; fails exactly when it leaves 128 bits.
fn pow10(e: u32) -> (r: Result<u128, ContractError>)
    ensures
        r is Ok <==> spec_pow10(e as nat) <= u128::MAX,
        r matches Ok(v) ==> v == spec_pow10(e as nat),
        r is Err ==> r == Err::<u128, ContractError>(ContractError::ArithmeticError),
{
    let mut acc: u128 = 1;
    let mut i: u32 = 0;
    while i < e
        invariant
            i <= e,
            acc == spec_pow10(i as nat),
        decreases e - i,
    {
        acc = match acc.checked_mul(10) {
            Some(v) => v,
            None => {
                proof {
                    lemma_pow10_mono(i as nat + 1, e as nat);
                }
                return Err(ContractError::ArithmeticError);
            },
        };
        i = i + 1;
    }
    Ok(acc)
}

/// The seconds of vesting a project has accumulated at `now`: none before
/// the start time is stamped, none while it lies in the future.
pub open spec fn claim_elapsed(p: ProjectInfo, now: u64) -> u64 {
    if p.config.start_time == 0 {
        0
    } else if now >= p.config.start_time {
        (now - p.config.start_time) as u64
    } else {
        0
    }
}

/// What wallet `w` can claim from one stage list: the claimable amount of
/// its first record, or nothing when it holds none.
pub open spec fn stage_claimable(
    us: Seq<UserInfo>,
    w: Seq<char>,
    elapsed: u64,
    p: VestingParameter,
) -> int {
    if has_user(us, w) {
        let i = first_user_index(us, w);
        spec_claimable(us[i].total_amount as int, us[i].released_amount as int, elapsed as int, p)
    } else {
        0
    }
}

/// Whether the accrual arithmetic of wallet `w`'s record in one stage list
/// stays inside 128 bits; trivially true when it holds none.
pub open spec fn stage_fits(us: Seq<UserInfo>, w: Seq<char>, elapsed: u64, p: VestingParameter) -> bool {
    has_user(us, w) ==> accrual_fits(us[first_user_index(us, w)].total_amount, elapsed, p)
}

/// One stage list after settling wallet `w`'s claim: the first record of
/// `w` has its released amount grown by exactly its claimable amount; every
/// other record, and a list without `w`, is untouched.
pub open spec fn claimed_users(
    us: Seq<UserInfo>,
    w: Seq<char>,
    elapsed: u64,
    p: VestingParameter,
) -> Seq<UserInfo> {
    if has_user(us, w) {
        let i = first_user_index(us, w);
        let c = spec_claimable(
            us[i].total_amount as int,
            us[i].released_amount as int,
            elapsed as int,
            p,
        );
        us.update(i, UserInfo { released_amount: (us[i].released_amount + c) as u128, ..us[i] })
    } else {
        us
    }
}

/// What wallet `w` can claim from a whole project at a given elapsed time.
pub open spec fn project_claim_total(p: ProjectInfo, w: Seq<char>, elapsed: u64) -> int {
    stage_claimable(p.seed_users@, w, elapsed, p.vest_param.seed) + stage_claimable(
        p.presale_users@,
        w,
        elapsed,
        p.vest_param.presale,
    ) + stage_claimable(p.ido_users@, w, elapsed, p.vest_param.ido)
}

/// Whether the accrual arithmetic of a whole claim stays inside 128 bits.
pub open spec fn claim_accrual_fits(p: ProjectInfo, w: Seq<char>, elapsed: u64) -> bool {
    &&& stage_fits(p.seed_users@, w, elapsed, p.vest_param.seed)
    &&& stage_fits(p.presale_users@, w, elapsed, p.vest_param.presale)
    &&& stage_fits(p.ido_users@, w, elapsed, p.vest_param.ido)
    &&& project_claim_total(p, w, elapsed) <= u128::MAX
}

/// Whether scaling a claim total by the token's decimal precision stays
/// inside 128 bits.
pub open spec fn claim_scale_fits(total: int, decimals: u32) -> bool {
    &&& spec_pow10(decimals as nat) <= u128::MAX
    &&& total * spec_pow10(decimals as nat) <= u128::MAX
}

/// Reads what wallet `wallet` can claim from one stage list, without
/// settling it.
pub(crate) fn stage_claim_amount(
    users: &Vec<UserInfo>,
    wallet: &String,
    elapsed: u64,
    p: &VestingParameter,
) -> (r: Result<u128, ContractError>)
    ensures
        r is Ok <==> stage_fits(users@, wallet@, elapsed, *p),
        r matches Ok(c) ==> c == stage_claimable(users@, wallet@, elapsed, *p),
        r is Err ==> r == Err::<u128, ContractError>(ContractError::ArithmeticError),
{
    match find_user(users, wallet) {
        Some(i) => {
            proof {
                lemma_first_prop_unique(users@, wallet@, i as int);
            }
            calc_claimable(users[i].total_amount, users[i].released_amount, elapsed, p)
        },
        None => Ok(0),
    }
}

/// Settles wallet `wallet`'s claim against one stage list, growing the
/// released amount of its first record by its claimable amount.
fn apply_stage_claim(users: &mut Vec<UserInfo>, wallet: &String, elapsed: u64, p: &VestingParameter)
    requires
        wf_users(old(users)@),
        stage_fits(old(users)@, wallet@, elapsed, *p),
    ensures
        final(users)@ == claimed_users(old(users)@, wallet@, elapsed, *p),
        wf_users(final(users)@),
{
    match find_user(users, wallet) {
        Some(i) => {
            proof {
                lemma_first_prop_unique(users@, wallet@, i as int);
            }
            let released = users[i].released_amount;
            let c = match calc_claimable(users[i].total_amount, released, elapsed, p) {
                Ok(c) => c,
                Err(_) => {
                    proof {
                        assert(false);
                    }
                    0
                },
            };
            let u = &mut users[i];
            u.released_amount = released + c;
            proof {
                assert(final(users)@ =~= claimed_users(old(users)@, wallet@, elapsed, *p));
            }
        },
        None => {},
    }
}

/// Monotonic release law: settling a claim never decreases any record's
/// released amount, never changes any total, and never pushes a released
/// amount past its total.
pub proof fn lemma_monotonic_release(us: Seq<UserInfo>, w: Seq<char>, elapsed: u64, p: VestingParameter)
    requires
        wf_users(us),
        stage_fits(us, w, elapsed, p),
    ensures
        claimed_users(us, w, elapsed, p).len() == us.len(),
        forall|k: int|
            #![trigger claimed_users(us, w, elapsed, p)[k]]
            0 <= k < us.len() ==> {
                &&& claimed_users(us, w, elapsed, p)[k].total_amount == us[k].total_amount
                &&& claimed_users(us, w, elapsed, p)[k].released_amount >= us[k].released_amount
                &&& claimed_users(us, w, elapsed, p)[k].released_amount <= claimed_users(
                    us,
                    w,
                    elapsed,
                    p,
                )[k].total_amount
            },
        wf_users(claimed_users(us, w, elapsed, p)),
{
    if has_user(us, w) {
        lemma_first_user_exists(us, w);
        let i = first_user_index(us, w);
        crate::accrual::lemma_unlocked_le_total(
            us[i].total_amount,
            us[i].released_amount,
            elapsed,
            p,
        );
    }
}

/// Settles a wallet's vested claim across the three stages of a project:
/// computes the claimable amount of each stage at `now`, rejects an empty
/// claim, grows each stage record's released amount by its contribution,
/// and returns the total scaled by the token's decimal precision together
/// with the transfer instruction for it.
pub fn claim_pending_tokens(
    platform: &mut Platform,
    project_id: u64,
    wallet: &String,
    now: u64,
    decimals: u32,
) -> (r: Result<(u128, OutMsg), ContractError>)
    requires
        old(platform).wf(),
    ensures
        final(platform).wf(),
        final(platform).config == old(platform).config,
        final(platform).community == old(platform).community,
        r is Err ==> final(platform).projects@ == old(platform).projects@,
        (r == Err::<(u128, OutMsg), ContractError>(ContractError::NotRegisteredProject) <==> !has_project(
            old(platform).projects@,
            project_id,
        )),
        has_project(old(platform).projects@, project_id) ==> {
            let i = project_index(old(platform).projects@, project_id);
            let op = old(platform).projects@[i];
            let elapsed = claim_elapsed(op, now);
            let total = project_claim_total(op, wallet@, elapsed);
            &&& (op.config.token_addr@.len() == 0 <==> r == Err::<(u128, OutMsg), ContractError>(
                ContractError::NotTokenAddr,
            ))
            &&& (op.config.token_addr@.len() != 0 ==> {
                &&& (!claim_accrual_fits(op, wallet@, elapsed) ==> r == Err::<
                    (u128, OutMsg),
                    ContractError,
                >(ContractError::ArithmeticError))
                &&& (claim_accrual_fits(op, wallet@, elapsed) ==> {
                    &&& (total == 0 <==> r == Err::<(u128, OutMsg), ContractError>(
                        ContractError::NoPendingTokens,
                    ))
                    &&& (total > 0 ==> {
                        &&& (r is Ok <==> claim_scale_fits(total, decimals))
                        &&& (!claim_scale_fits(total, decimals) ==> r == Err::<
                            (u128, OutMsg),
                            ContractError,
                        >(ContractError::ArithmeticError))
                    })
                })
            })
            &&& (r matches Ok((amt, msg)) ==> {
                let np = final(platform).projects@[i];
                &&& amt == total * spec_pow10(decimals as nat)
                &&& msg == (OutMsg::TokenTransfer {
                    token: op.config.token_addr,
                    to: *wallet,
                    amount: amt,
                })
                &&& final(platform).projects@.len() == old(platform).projects@.len()
                &&& (forall|j: int|
                    0 <= j < old(platform).projects@.len() && j != i
                        ==> final(platform).projects@[j] == old(platform).projects@[j])
                &&& np.seed_users@ == claimed_users(
                    op.seed_users@,
                    wallet@,
                    elapsed,
                    op.vest_param.seed,
                )
                &&& np.presale_users@ == claimed_users(
                    op.presale_users@,
                    wallet@,
                    elapsed,
                    op.vest_param.presale,
                )
                &&& np.ido_users@ == claimed_users(
                    op.ido_users@,
                    wallet@,
                    elapsed,
                    op.vest_param.ido,
                )
                &&& np == (ProjectInfo {
                    seed_users: np.seed_users,
                    presale_users: np.presale_users,
                    ido_users: np.ido_users,
                    ..op
                })
            })
        },
{
    let i = match find_project(&platform.projects, project_id) {
        Some(i) => i,
        None => {
            return Err(ContractError::NotRegisteredProject);
        },
    };
    proof {
        lemma_project_index_agrees(old(platform).projects@, project_id, i as int);
    }
    if platform.projects[i].config.token_addr.as_str().is_empty() {
        return Err(ContractError::NotTokenAddr);
    }
    let start_time = platform.projects[i].config.start_time;
    let elapsed = if start_time == 0 {
        0
    } else {
        elapsed_since(start_time, now)
    };
    let a1 = stage_claim_amount(
        &platform.projects[i].seed_users,
        wallet,
        elapsed,
        &platform.projects[i].vest_param.seed,
    )?;
    let a2 = stage_claim_amount(
        &platform.projects[i].presale_users,
        wallet,
        elapsed,
        &platform.projects[i].vest_param.presale,
    )?;
    let a3 = stage_claim_amount(
        &platform.projects[i].ido_users,
        wallet,
        elapsed,
        &platform.projects[i].vest_param.ido,
    )?;
    let partial = match a1.checked_add(a2) {
        Some(v) => v,
        None => {
            return Err(ContractError::ArithmeticError);
        },
    };
    let total = match partial.checked_add(a3) {
        Some(v) => v,
        None => {
            return Err(ContractError::ArithmeticError);
        },
    };
    if total == 0 {
        return Err(ContractError::NoPendingTokens);
    }
    let scale = pow10(decimals)?;
    let amount = match total.checked_mul(scale) {
        Some(v) => v,
        None => {
            return Err(ContractError::ArithmeticError);
        },
    };
    let p = &mut platform.projects[i];
    apply_stage_claim(&mut p.seed_users, wallet, elapsed, &p.vest_param.seed);
    apply_stage_claim(&mut p.presale_users, wallet, elapsed, &p.vest_param.presale);
    apply_stage_claim(&mut p.ido_users, wallet, elapsed, &p.vest_param.ido);
    let msg = OutMsg::TokenTransfer {
        token: p.config.token_addr.clone(),
        to: wallet.clone(),
        amount,
    };
    Ok((amount, msg))
}

/// Whether `sender` passes the ownership check for operations on project
/// `p`: it is the platform owner or the project owner.
pub open spec fn stage_auth(plat: Platform, p: ProjectInfo, sender: Seq<char>) -> bool {
    sender == plat.config.owner@ || sender == p.config.owner@
}

/// When identifiers are unique and position `i` carries `id`, the chosen
/// `project_index` is exactly `i`.
pub proof fn lemma_project_index_agrees(s: Seq<ProjectInfo>, id: u64, i: int)
    requires
        unique_ids(s),
        0 <= i < s.len(),
        s[i].project_id == id,
    ensures
        project_index(s, id) == i,
{
    assert(has_project(s, id));
    let k = project_index(s, id);
    assert(0 <= k < s.len() && s[k].project_id == id) by {
        assert(exists|j: int| 0 <= j < s.len() && s[j].project_id == id);
    }
    if k < i {
        assert(s[k].project_id != s[i].project_id);
    } else if i < k {
        assert(s[i].project_id != s[k].project_id);
    }
}

} // verus!
