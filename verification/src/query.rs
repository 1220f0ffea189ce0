//! Read operations over the platform state. Each hands back a reference
//! into the state; the host serializes what it needs from it.

use vstd::prelude::*;

use crate::contract::{
    claim_accrual_fits, claim_elapsed, project_claim_total, project_index, stage_claim_amount,
    stage_users,
};
use crate::error::ContractError;
use crate::msg::{Config, ProjectInfo, Stage, UserInfo};
use crate::state::{find_project, has_project, GlobalConfig, Platform};

verus! {

/// Reads one project record by identifier.
pub fn query_getprojectinfo<'a>(platform: &'a Platform, project_id: u64) -> (r: Result<
    &'a ProjectInfo,
    ContractError,
>)
    requires
        platform.wf(),
    ensures
        r is Ok <==> has_project(platform.projects@, project_id),
        r matches Err(e) ==> e == ContractError::NotRegisteredProject,
        r matches Ok(p) ==> *p == platform.projects@[project_index(
            platform.projects@,
            project_id,
        )],
{
    match find_project(&platform.projects, project_id) {
        Some(i) => {
            proof {
                crate::contract::lemma_project_index_agrees(
                    platform.projects@,
                    project_id,
                    i as int,
                );
            }
            Ok(&platform.projects[i])
        },
        None => Err(ContractError::NotRegisteredProject),
    }
}

/// Reads every project record, in ascending identifier order: the registry
/// invariant keeps the records sorted by identifier, so the stored sequence
/// is the ascending listing.
pub fn query_getallprojectinfo<'a>(platform: &'a Platform) -> (r: &'a Vec<ProjectInfo>)
    requires
        platform.wf(),
    ensures
        r@ == platform.projects@,
        forall|i: int, j: int|
            0 <= i < j < r@.len() ==> r@[i].project_id < r@[j].project_id,
{
    &platform.projects
}

/// Reads the platform-wide configuration.
pub fn query_globalconfig<'a>(platform: &'a Platform) -> (r: &'a GlobalConfig)
    ensures
        *r == platform.config,
{
    &platform.config
}

/// Reads one project's configuration.
pub fn query_getconfig<'a>(platform: &'a Platform, project_id: u64) -> (r: Result<
    &'a Config,
    ContractError,
>)
    requires
        platform.wf(),
    ensures
        r is Ok <==> has_project(platform.projects@, project_id),
        r matches Err(e) ==> e == ContractError::NotRegisteredProject,
        r matches Ok(c) ==> *c == platform.projects@[project_index(
            platform.projects@,
            project_id,
        )].config,
{
    match query_getprojectinfo(platform, project_id) {
        Ok(p) => Ok(&p.config),
        Err(e) => Err(e),
    }
}

/// Reads one stage's beneficiary list of one project.
pub fn query_stage_users<'a>(platform: &'a Platform, project_id: u64, stage: Stage) -> (r: Result<
    &'a Vec<UserInfo>,
    ContractError,
>)
    requires
        platform.wf(),
    ensures
        r is Ok <==> has_project(platform.projects@, project_id),
        r matches Err(e) ==> e == ContractError::NotRegisteredProject,
        r matches Ok(v) ==> v@ == stage_users(
            platform.projects@[project_index(platform.projects@, project_id)],
            stage,
        ),
{
    let p = match query_getprojectinfo(platform, project_id) {
        Ok(p) => p,
        Err(e) => {
            return Err(e);
        },
    };
    match stage {
        Stage::Seed => Ok(&p.seed_users),
        Stage::Presale => Ok(&p.presale_users),
        Stage::Ido => Ok(&p.ido_users),
    }
}

/// Reads what a wallet could claim from a project at `now`, without
/// settling anything.
pub fn query_pending_tokens(platform: &Platform, project_id: u64, wallet: &String, now: u64) -> (r:
    Result<u128, ContractError>)
    requires
        platform.wf(),
    ensures
        (r == Err::<u128, ContractError>(ContractError::NotRegisteredProject) <==> !has_project(
            platform.projects@,
            project_id,
        )),
        has_project(platform.projects@, project_id) ==> {
            let p = platform.projects@[project_index(platform.projects@, project_id)];
            let elapsed = claim_elapsed(p, now);
            &&& (r is Ok <==> claim_accrual_fits(p, wallet@, elapsed))
            &&& (r matches Ok(v) ==> v == project_claim_total(p, wallet@, elapsed))
            &&& (claim_accrual_fits(p, wallet@, elapsed) || r == Err::<u128, ContractError>(
                ContractError::ArithmeticError,
            ))
        },
{
    let i = match find_project(&platform.projects, project_id) {
        Some(i) => i,
        None => {
            return Err(ContractError::NotRegisteredProject);
        },
    };
    proof {
        crate::contract::lemma_project_index_agrees(platform.projects@, project_id, i as int);
    }
    let start_time = platform.projects[i].config.start_time;
    let elapsed = if start_time == 0 {
        0
    } else {
        crate::accrual::elapsed_since(start_time, now)
    };
    let a1 = stage_claim_amount(
        &platform.projects[i].seed_users,
        wallet,
        elapsed,
        &platform.projects[i].vest_param.seed,
    )?;
    let a2 = stage_claim_amount(
        &platform.projects[i].presale_users,
        wallet,
        elapsed,
        &platform.projects[i].vest_param.presale,
    )?;
    let a3 = stage_claim_amount(
        &platform.projects[i].ido_users,
        wallet,
        elapsed,
        &platform.projects[i].vest_param.ido,
    )?;
    let partial = match a1.checked_add(a2) {
        Some(v) => v,
        None => {
            return Err(ContractError::ArithmeticError);
        },
    };
    match partial.checked_add(a3) {
        Some(v) => Ok(v),
        None => Err(ContractError::ArithmeticError),
    }
}

/// Reads the community registry.
pub fn query_community<'a>(platform: &'a Platform) -> (r: &'a Vec<String>)
    ensures
        r@ == platform.community@,
{
    &platform.community
}

} // verus!
