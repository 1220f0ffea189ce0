use crowdfund_vesting::contract::{init_platform, try_addproject};
use crowdfund_vesting::error::ContractError;
use crowdfund_vesting::funding::{
    add_communitymember, approve_project, back_project, complete_project, compute_withdraw,
    fail_project, remove_communitymember, remove_project, set_community_vote, set_funding_plan,
    set_milestone_vote, sweep_balances,
};
use crowdfund_vesting::msg::{
    BackerRecord, CoinAmount, Config, InstantiateMsg, Milestone, MilestoneStatus, OutMsg,
    ProjectInfo,
    ProjectStatus,
    StageSchedules, VestingParameter, VoteRecord,
};
use crowdfund_vesting::state::Platform;

fn w(text: &str) -> String {
    String::from(text)
}

fn flat_schedule() -> VestingParameter {
    VestingParameter { cliff_fraction_pct: 0, cliff_duration: 0, linear_duration: 1 }
}

fn fresh_platform() -> Platform {
    let mut platform = init_platform(InstantiateMsg { admin: Some(w("admin")) }, w("deployer"));
    try_addproject(
        &mut platform,
        &w("admin"),
        1,
        w("creator"),
        w("token"),
        vec![flat_schedule(), flat_schedule(), flat_schedule()],
        None,
    )
    .unwrap();
    platform
}

fn release_stage_project(
    funding_target: u128,
    released: u128,
    milestones: Vec<Milestone>,
    community_backers: Vec<BackerRecord>,
    general_backers: Vec<BackerRecord>,
) -> ProjectInfo {
    let communitybacked: u128 = community_backers.iter().map(|b| b.backed).sum();
    let backerbacked: u128 = general_backers.iter().map(|b| b.backed).sum();
    ProjectInfo {
        project_id: 7,
        config: Config { owner: w("creator"), token_addr: w("token"), start_time: 0 },
        vest_param: StageSchedules {
            seed: flat_schedule(),
            presale: flat_schedule(),
            ido: flat_schedule(),
        },
        seed_users: Vec::new(),
        presale_users: Vec::new(),
        ido_users: Vec::new(),
        status: ProjectStatus::MilestoneReleasing,
        funding_target,
        vote_deadline: 0,
        community_votes: Vec::new(),
        milestones,
        milestone_step: 0,
        communitybacked_amount: communitybacked,
        backerbacked_amount: backerbacked,
        community_backers,
        general_backers,
        released_amount: released,
    }
}

fn backer(wallet: &str, backed: u128) -> BackerRecord {
    BackerRecord { wallet: w(wallet), stake: backed, backed, route: w("") }
}

#[test]
fn community_registry_membership() {
    let mut platform = init_platform(InstantiateMsg { admin: Some(w("admin")) }, w("deployer"));
    assert_eq!(
        add_communitymember(&mut platform, &w("stranger"), w("m1")),
        Err(ContractError::Unauthorized)
    );
    add_communitymember(&mut platform, &w("admin"), w("m1")).unwrap();
    assert_eq!(
        add_communitymember(&mut platform, &w("admin"), w("m1")),
        Err(ContractError::AlreadyRegisteredCommunity)
    );
    add_communitymember(&mut platform, &w("admin"), w("m2")).unwrap();
    remove_communitymember(&mut platform, &w("admin"), &w("m1")).unwrap();
    assert_eq!(platform.community, vec![w("m2")]);
    assert_eq!(
        remove_communitymember(&mut platform, &w("admin"), &w("m1")),
        Err(ContractError::NotRegisteredCommunity)
    );
}

#[test]
fn lifecycle_to_fundraising() {
    let mut platform = fresh_platform();
    add_communitymember(&mut platform, &w("admin"), w("m1")).unwrap();
    add_communitymember(&mut platform, &w("admin"), w("m2")).unwrap();
    set_funding_plan(&mut platform, &w("admin"), 1, 20_000_000, vec![3_000_000]).unwrap();
    approve_project(&mut platform, &w("admin"), 1, 999).unwrap();
    assert_eq!(platform.projects[0].status, ProjectStatus::CommunityVoting);
    assert_eq!(platform.projects[0].vote_deadline, 999);
    assert_eq!(platform.projects[0].community_votes.len(), 2);

    set_community_vote(&mut platform, 1, &w("outsider"), true).unwrap();
    assert_eq!(platform.projects[0].status, ProjectStatus::CommunityVoting);
    set_community_vote(&mut platform, 1, &w("m1"), true).unwrap();
    assert_eq!(platform.projects[0].status, ProjectStatus::Fundraising);
}

#[test]
fn cap_enforcement() {
    let mut platform = fresh_platform();
    set_funding_plan(&mut platform, &w("admin"), 1, 20_000_000, vec![3_000_000]).unwrap();
    approve_project(&mut platform, &w("admin"), 1, 999).unwrap();
    set_community_vote(&mut platform, 1, &w("nobody"), true).unwrap();
    assert_eq!(platform.projects[0].status, ProjectStatus::Fundraising);

    let msgs = back_project(&mut platform, 1, w("g1"), 14_000_000, w("")).unwrap();
    assert_eq!(platform.projects[0].backerbacked_amount, 10_000_000);
    assert_eq!(msgs[0], OutMsg::MarketDeposit { amount: 10_000_000 });
    assert_eq!(msgs[1], OutMsg::NativeTransfer { to: w(""), amount: 4_000_000 });

    assert_eq!(
        back_project(&mut platform, 1, w("g2"), 14_000_000, w("")),
        Err(ContractError::AlreadyCollected)
    );
}

#[test]
fn contribution_minimum() {
    let mut platform = fresh_platform();
    set_funding_plan(&mut platform, &w("admin"), 1, 20_000_000, vec![3_000_000]).unwrap();
    approve_project(&mut platform, &w("admin"), 1, 999).unwrap();
    set_community_vote(&mut platform, 1, &w("nobody"), true).unwrap();
    assert_eq!(
        back_project(&mut platform, 1, w("g1"), 4_999_999, w("")),
        Err(ContractError::NeedCoin)
    );
}

#[test]
fn percentage_fee_above_threshold() {
    let mut platform = fresh_platform();
    set_funding_plan(&mut platform, &w("admin"), 1, 600_000_000, vec![3_000_000]).unwrap();
    approve_project(&mut platform, &w("admin"), 1, 999).unwrap();
    set_community_vote(&mut platform, 1, &w("nobody"), true).unwrap();

    let msgs = back_project(&mut platform, 1, w("g1"), 200_000_000, w("")).unwrap();
    assert_eq!(msgs[0], OutMsg::MarketDeposit { amount: 192_000_000 });
    assert_eq!(msgs[1], OutMsg::NativeTransfer { to: w(""), amount: 8_000_000 });
    assert_eq!(msgs.len(), 2);
    assert_eq!(platform.projects[0].backerbacked_amount, 192_000_000);
}

#[test]
fn over_cap_portion_is_refunded() {
    let mut platform = fresh_platform();
    set_funding_plan(&mut platform, &w("admin"), 1, 20_000_000, vec![3_000_000]).unwrap();
    approve_project(&mut platform, &w("admin"), 1, 999).unwrap();
    set_community_vote(&mut platform, 1, &w("nobody"), true).unwrap();

    let msgs = back_project(&mut platform, 1, w("g1"), 20_000_000, w("route-7")).unwrap();
    assert_eq!(msgs.len(), 3);
    assert_eq!(msgs[0], OutMsg::MarketDeposit { amount: 10_000_000 });
    assert_eq!(msgs[1], OutMsg::NativeTransfer { to: w(""), amount: 4_000_000 });
    assert_eq!(msgs[2], OutMsg::NativeTransfer { to: w("g1"), amount: 6_000_000 });
    let record = &platform.projects[0].general_backers[0];
    assert_eq!(record.stake, 20_000_000);
    assert_eq!(record.backed, 10_000_000);
    assert_eq!(record.route, w("route-7"));
}

#[test]
fn community_pool_routing_and_ledger_seeding() {
    let mut platform = fresh_platform();
    add_communitymember(&mut platform, &w("admin"), w("comm1")).unwrap();
    set_funding_plan(&mut platform, &w("admin"), 1, 20_000_000, vec![3_000_000]).unwrap();
    approve_project(&mut platform, &w("admin"), 1, 999).unwrap();
    set_community_vote(&mut platform, 1, &w("comm1"), true).unwrap();
    assert_eq!(platform.projects[0].status, ProjectStatus::Fundraising);

    back_project(&mut platform, 1, w("comm1"), 14_000_000, w("")).unwrap();
    assert_eq!(platform.projects[0].communitybacked_amount, 10_000_000);
    assert_eq!(platform.projects[0].backerbacked_amount, 0);
    assert_eq!(platform.projects[0].status, ProjectStatus::Fundraising);

    back_project(&mut platform, 1, w("gen1"), 14_000_000, w("")).unwrap();
    assert_eq!(platform.projects[0].status, ProjectStatus::MilestoneReleasing);
    let votes = &platform.projects[0].milestones[0].votes;
    assert_eq!(
        *votes,
        vec![
            VoteRecord { wallet: w("comm1"), voted: false },
            VoteRecord { wallet: w("gen1"), voted: false },
            VoteRecord { wallet: w("admin"), voted: true },
        ]
    );
}

#[test]
fn milestone_release_gating() {
    let mut platform = init_platform(InstantiateMsg { admin: Some(w("admin")) }, w("deployer"));
    let milestone = Milestone {
        amount: 500,
        status: MilestoneStatus::Voting,
        votes: vec![
            VoteRecord { wallet: w("admin"), voted: true },
            VoteRecord { wallet: w("b1"), voted: false },
            VoteRecord { wallet: w("b2"), voted: false },
        ],
    };
    platform.projects.push(release_stage_project(
        2_000,
        0,
        vec![milestone],
        vec![backer("b1", 300)],
        vec![backer("b2", 700)],
    ));

    let msgs = set_milestone_vote(&mut platform, 7, &w("outsider"), true, 1_000, 1_000_000)
        .unwrap();
    assert!(msgs.is_empty());
    assert_eq!(platform.projects[0].milestone_step, 0);
    assert_eq!(platform.projects[0].milestones[0].status, MilestoneStatus::Voting);
    assert_eq!(platform.projects[0].milestones[0].votes.len(), 3);

    let msgs = set_milestone_vote(&mut platform, 7, &w("b1"), true, 1_000, 1_000_000).unwrap();
    assert!(msgs.is_empty());
    assert_eq!(platform.projects[0].milestone_step, 0);

    let msgs = set_milestone_vote(&mut platform, 7, &w("b2"), true, 1_000, 1_000_000).unwrap();
    assert_eq!(msgs.len(), 2);
    assert_eq!(msgs[0], OutMsg::MarketRedeem { yield_amount: 500 });
    assert_eq!(msgs[1], OutMsg::NativeTransfer { to: w("creator"), amount: 500 });
    assert_eq!(platform.projects[0].milestone_step, 1);
    assert_eq!(platform.projects[0].milestones[0].status, MilestoneStatus::Released);
    assert_eq!(platform.projects[0].status, ProjectStatus::Completed);
    assert_eq!(platform.projects[0].released_amount, 500);
}

#[test]
fn milestone_vote_wrong_status() {
    let mut platform = fresh_platform();
    assert_eq!(
        set_milestone_vote(&mut platform, 1, &w("b1"), true, 1_000, 1_000_000),
        Err(ContractError::NotCorrectStatus { status: ProjectStatus::PendingApproval })
    );

    let milestone = Milestone {
        amount: 500,
        status: MilestoneStatus::Released,
        votes: vec![VoteRecord { wallet: w("admin"), voted: true }],
    };
    platform.projects.push(release_stage_project(
        2_000,
        0,
        vec![milestone],
        vec![backer("b1", 300)],
        vec![backer("b2", 700)],
    ));
    assert_eq!(
        set_milestone_vote(&mut platform, 7, &w("b1"), true, 1_000, 1_000_000),
        Err(ContractError::NotCorrectMilestoneStatus {
            step: 0,
            milestone_status: MilestoneStatus::Released,
        })
    );
}

#[test]
fn milestone_exceeding_remainder_is_rejected() {
    let mut platform = init_platform(InstantiateMsg { admin: Some(w("admin")) }, w("deployer"));
    let milestone = Milestone {
        amount: 2_000,
        status: MilestoneStatus::Voting,
        votes: vec![VoteRecord { wallet: w("b1"), voted: false }],
    };
    platform.projects.push(release_stage_project(
        2_000,
        500,
        vec![milestone],
        vec![backer("b1", 300)],
        vec![backer("b2", 700)],
    ));
    assert_eq!(
        set_milestone_vote(&mut platform, 7, &w("b1"), true, 500, 1_000_000),
        Err(ContractError::NotEnoughBalance)
    );
}

#[test]
fn failure_pro_rata() {
    let mut platform = init_platform(InstantiateMsg { admin: Some(w("admin")) }, w("deployer"));
    platform.projects.push(release_stage_project(
        2_000,
        500,
        Vec::new(),
        vec![backer("b1", 300)],
        vec![backer("b2", 700)],
    ));

    let msgs = fail_project(&mut platform, &w("admin"), 7, 500, 1_000_000).unwrap();
    assert_eq!(msgs.len(), 3);
    assert_eq!(msgs[0], OutMsg::MarketRedeem { yield_amount: 500 });
    assert_eq!(msgs[1], OutMsg::NativeTransfer { to: w("b1"), amount: 150 });
    assert_eq!(msgs[2], OutMsg::NativeTransfer { to: w("b2"), amount: 350 });
    assert_eq!(platform.projects[0].status, ProjectStatus::Failed);
    assert_eq!(platform.projects[0].released_amount, 1_000);
}

#[test]
fn fail_requires_curator() {
    let mut platform = init_platform(InstantiateMsg { admin: Some(w("admin")) }, w("deployer"));
    platform.projects.push(release_stage_project(
        2_000,
        0,
        Vec::new(),
        vec![backer("b1", 300)],
        vec![backer("b2", 700)],
    ));
    assert_eq!(
        fail_project(&mut platform, &w("creator"), 7, 1_000, 1_000_000),
        Err(ContractError::Unauthorized)
    );
}

#[test]
fn conservative_rate_selection() {
    // The estimate is one native unit per yield token; the live rate is
    // higher, so the live rate sizes the withdrawal.
    let (redeem, realized) = compute_withdraw(100, 1_000, 1_000, 2_000_000).unwrap();
    assert_eq!(redeem, 50);
    assert_eq!(realized, 100);

    // The live rate is lower, so the estimate sizes the withdrawal.
    let (redeem, realized) = compute_withdraw(100, 1_000, 1_000, 500_000).unwrap();
    assert_eq!(redeem, 100);
    assert_eq!(realized, 100);

    // Rounding loss stays with the protocol: the realized value never
    // exceeds the requested one.
    let (redeem, realized) = compute_withdraw(100, 3_000, 1_000, 1_000_000).unwrap();
    assert_eq!(redeem, 33);
    assert_eq!(realized, 99);
}

#[test]
fn complete_releases_remainder() {
    let mut platform = init_platform(InstantiateMsg { admin: Some(w("admin")) }, w("deployer"));
    platform.projects.push(release_stage_project(
        2_000,
        400,
        Vec::new(),
        vec![backer("b1", 300)],
        vec![backer("b2", 700)],
    ));

    let msgs = complete_project(&mut platform, &w("admin"), 7, 600, 1_000_000).unwrap();
    assert_eq!(msgs.len(), 2);
    assert_eq!(msgs[0], OutMsg::MarketRedeem { yield_amount: 600 });
    assert_eq!(msgs[1], OutMsg::NativeTransfer { to: w("creator"), amount: 600 });
    assert_eq!(platform.projects[0].status, ProjectStatus::Completed);
    assert_eq!(platform.projects[0].released_amount, 1_000);
}

#[test]
fn remove_project_drops_only_the_record() {
    let mut platform = fresh_platform();
    try_addproject(
        &mut platform,
        &w("admin"),
        2,
        w("creator2"),
        w("token2"),
        vec![flat_schedule(), flat_schedule(), flat_schedule()],
        None,
    )
    .unwrap();
    assert_eq!(
        remove_project(&mut platform, &w("stranger"), 1),
        Err(ContractError::Unauthorized)
    );
    remove_project(&mut platform, &w("admin"), 1).unwrap();
    assert_eq!(platform.projects.len(), 1);
    assert_eq!(platform.projects[0].project_id, 2);
    assert_eq!(
        remove_project(&mut platform, &w("admin"), 1),
        Err(ContractError::NotRegisteredProject)
    );
}

#[test]
fn sweep_sends_every_nonempty_balance_to_treasury() {
    let mut platform = fresh_platform();
    crowdfund_vesting::contract::set_gateway_config(
        &mut platform,
        &w("admin"),
        w("treasury"),
        w("market"),
        w("ytoken"),
    )
    .unwrap();
    let balances = vec![
        CoinAmount { denom: w("uusd"), amount: 40 },
        CoinAmount { denom: w("uluna"), amount: 0 },
        CoinAmount { denom: w("ukrw"), amount: 7 },
    ];
    let msgs = sweep_balances(&platform, &w("admin"), balances).unwrap();
    assert_eq!(
        msgs,
        vec![
            OutMsg::NativeSend { to: w("treasury"), denom: w("uusd"), amount: 40 },
            OutMsg::NativeSend { to: w("treasury"), denom: w("ukrw"), amount: 7 },
        ]
    );
}

#[test]
fn back_project_wrong_status() {
    let mut platform = fresh_platform();
    assert_eq!(
        back_project(&mut platform, 1, w("g1"), 14_000_000, w("")),
        Err(ContractError::NotCorrectStatus { status: ProjectStatus::PendingApproval })
    );
}
