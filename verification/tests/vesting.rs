use crowdfund_vesting::accrual::calc_unlocked;
use crowdfund_vesting::contract::{
    check_add_userinfo, claim_pending_tokens, init_platform, parse_stage, try_addproject,
    try_addseeduser, try_adduser, try_setconfig, try_setprojectconfig, try_setseedusers,
    try_setvestingparameters, try_startvesting,
};
use crowdfund_vesting::error::ContractError;
use crowdfund_vesting::msg::{InstantiateMsg, OutMsg, Stage, UserInfo, VestingParameter};
use crowdfund_vesting::query::{
    query_getallprojectinfo, query_getconfig, query_pending_tokens, query_stage_users,
};
use crowdfund_vesting::state::Platform;

fn s(text: &str) -> String {
    String::from(text)
}

fn schedule() -> VestingParameter {
    VestingParameter {
        cliff_fraction_pct: 15,
        cliff_duration: 2_592_000,
        linear_duration: 15_552_000,
    }
}

fn three_schedules() -> Vec<VestingParameter> {
    vec![schedule(), schedule(), schedule()]
}

fn platform_with_project(start_time: Option<u64>) -> Platform {
    let mut platform = init_platform(InstantiateMsg { admin: Some(s("admin")) }, s("deployer"));
    try_addproject(
        &mut platform,
        &s("admin"),
        1,
        s("creator"),
        s("token"),
        three_schedules(),
        start_time,
    )
    .unwrap();
    platform
}

#[test]
fn workflow() {
    let mut platform = init_platform(InstantiateMsg { admin: Some(s("admin")) }, s("admin"));
    try_addproject(
        &mut platform,
        &s("admin"),
        1,
        s("admin"),
        s("token"),
        three_schedules(),
        None,
    )
    .unwrap();
    let res = try_addseeduser(&mut platform, &s("admin"), 1, s("seed1"), 100);
    println!("Add seed user{:?}", res);
    res.unwrap();
    let res: &Vec<UserInfo> = query_stage_users(&platform, 1, Stage::Seed).unwrap();
    println!("all Seeders {:?}", res);
    assert_eq!(res.len(), 1);
    assert_eq!(res[0].wallet_address, s("seed1"));
    assert_eq!(res[0].total_amount, 100);
}

#[test]
fn accrual_values() {
    let p = schedule();
    assert_eq!(calc_unlocked(1000, 0, &p).unwrap(), 0);
    assert_eq!(calc_unlocked(1000, 1, &p).unwrap(), 150);
    assert_eq!(calc_unlocked(1000, 2_592_001, &p).unwrap(), 150);
    assert_eq!(calc_unlocked(1000, 2_592_000 + 7_776_000, &p).unwrap(), 575);
    assert_eq!(calc_unlocked(1000, 2_592_000 + 15_552_000, &p).unwrap(), 1000);
}

#[test]
fn accrual_no_overshoot() {
    let p = schedule();
    let full = 2_592_000 + 15_552_000;
    assert_eq!(calc_unlocked(1000, full, &p).unwrap(), 1000);
    assert_eq!(calc_unlocked(1000, full + 1, &p).unwrap(), 1000);
    assert_eq!(calc_unlocked(1000, u64::MAX, &p).unwrap(), 1000);
}

#[test]
fn merge_on_add() {
    let mut platform = platform_with_project(None);
    try_addseeduser(&mut platform, &s("admin"), 1, s("W"), 50).unwrap();
    try_addseeduser(&mut platform, &s("admin"), 1, s("W"), 50).unwrap();
    let users = query_stage_users(&platform, 1, Stage::Seed).unwrap();
    assert_eq!(users.len(), 1);
    assert_eq!(users[0].wallet_address, s("W"));
    assert_eq!(users[0].total_amount, 100);
    assert_eq!(users[0].released_amount, 0);
}

#[test]
fn merge_keeps_other_records() {
    let mut users: Vec<UserInfo> = Vec::new();
    check_add_userinfo(&mut users, s("a"), 10).unwrap();
    check_add_userinfo(&mut users, s("b"), 20).unwrap();
    check_add_userinfo(&mut users, s("a"), 5).unwrap();
    assert_eq!(users.len(), 2);
    assert_eq!(users[0].total_amount, 15);
    assert_eq!(users[1].total_amount, 20);
}

#[test]
fn replace_then_get() {
    let mut platform = platform_with_project(None);
    let list = vec![
        UserInfo {
            wallet_address: s("u2"),
            total_amount: 700,
            released_amount: 0,
            pending_amount: 0,
        },
        UserInfo {
            wallet_address: s("u1"),
            total_amount: 300,
            released_amount: 100,
            pending_amount: 0,
        },
    ];
    try_setseedusers(&mut platform, &s("admin"), 1, list.clone()).unwrap();
    let got = query_stage_users(&platform, 1, Stage::Seed).unwrap();
    assert_eq!(*got, list);
}

#[test]
fn replace_rejects_inconsistent_records() {
    let mut platform = platform_with_project(None);
    let list = vec![UserInfo {
        wallet_address: s("u1"),
        total_amount: 10,
        released_amount: 11,
        pending_amount: 0,
    }];
    assert_eq!(
        try_setseedusers(&mut platform, &s("admin"), 1, list),
        Err(ContractError::ArithmeticError)
    );
}

#[test]
fn claim_settles_and_is_monotonic() {
    let mut platform = platform_with_project(Some(1_000));
    try_addseeduser(&mut platform, &s("admin"), 1, s("buyer"), 1000).unwrap();

    let (amount, msg) = claim_pending_tokens(&mut platform, 1, &s("buyer"), 1_001, 0).unwrap();
    assert_eq!(amount, 150);
    assert_eq!(
        msg,
        OutMsg::TokenTransfer {
            token: s("token"),
            to: s("buyer"),
            amount: 150,
        }
    );
    let users = query_stage_users(&platform, 1, Stage::Seed).unwrap();
    assert_eq!(users[0].released_amount, 150);

    assert_eq!(
        claim_pending_tokens(&mut platform, 1, &s("buyer"), 1_001, 0),
        Err(ContractError::NoPendingTokens)
    );

    let full = 1_000 + 2_592_000 + 15_552_000;
    let (amount, _) = claim_pending_tokens(&mut platform, 1, &s("buyer"), full, 0).unwrap();
    assert_eq!(amount, 850);
    let users = query_stage_users(&platform, 1, Stage::Seed).unwrap();
    assert_eq!(users[0].released_amount, 1000);
    assert!(users[0].released_amount <= users[0].total_amount);

    assert_eq!(
        claim_pending_tokens(&mut platform, 1, &s("buyer"), full + 5, 0),
        Err(ContractError::NoPendingTokens)
    );
}

#[test]
fn claim_scales_by_decimals() {
    let mut platform = platform_with_project(Some(1_000));
    try_addseeduser(&mut platform, &s("admin"), 1, s("buyer"), 1000).unwrap();
    let (amount, _) = claim_pending_tokens(&mut platform, 1, &s("buyer"), 1_001, 2).unwrap();
    assert_eq!(amount, 15_000);
}

#[test]
fn claim_before_start_is_empty() {
    let mut platform = platform_with_project(None);
    try_addseeduser(&mut platform, &s("admin"), 1, s("buyer"), 1000).unwrap();
    assert_eq!(
        claim_pending_tokens(&mut platform, 1, &s("buyer"), 9_999_999, 0),
        Err(ContractError::NoPendingTokens)
    );
}

#[test]
fn claim_requires_token_addr() {
    let mut platform = init_platform(InstantiateMsg { admin: Some(s("admin")) }, s("deployer"));
    try_addproject(
        &mut platform,
        &s("admin"),
        1,
        s("creator"),
        s(""),
        three_schedules(),
        Some(1),
    )
    .unwrap();
    assert_eq!(
        claim_pending_tokens(&mut platform, 1, &s("buyer"), 10, 0),
        Err(ContractError::NotTokenAddr)
    );
}

#[test]
fn pending_query_matches_claim() {
    let mut platform = platform_with_project(Some(1_000));
    try_addseeduser(&mut platform, &s("admin"), 1, s("buyer"), 1000).unwrap();
    assert_eq!(query_pending_tokens(&platform, 1, &s("buyer"), 1_001).unwrap(), 150);
    assert_eq!(query_pending_tokens(&platform, 1, &s("other"), 1_001).unwrap(), 0);
}

#[test]
fn startvesting_flow() {
    let mut platform = platform_with_project(None);
    try_addseeduser(&mut platform, &s("admin"), 1, s("a"), 100).unwrap();
    try_adduser(&mut platform, &s("admin"), 1, s("b"), s("presale"), 200).unwrap();
    try_adduser(&mut platform, &s("admin"), 1, s("c"), s("IDO"), 300).unwrap();

    assert_eq!(
        try_startvesting(&mut platform, 1, 777, 600, 0),
        Err(ContractError::NotSetVestAddr)
    );
    try_setconfig(&mut platform, &s("admin"), s("admin"), s("vesting_contract")).unwrap();
    assert_eq!(
        try_startvesting(&mut platform, 1, 777, 599, 0),
        Err(ContractError::NotEnoughBalance)
    );
    assert_eq!(
        try_startvesting(&mut platform, 1, 777, 599, 2),
        Err(ContractError::NotEnoughBalance)
    );
    assert_eq!(try_startvesting(&mut platform, 1, 777, 60_000, 2).unwrap(), 600);
    assert_eq!(query_getconfig(&platform, 1).unwrap().start_time, 777);
    assert_eq!(try_startvesting(&mut platform, 1, 888, 600, 0).unwrap(), 600);
    assert_eq!(query_getconfig(&platform, 1).unwrap().start_time, 777);
}

#[test]
fn listing_is_ascending_by_id() {
    let mut platform = init_platform(InstantiateMsg { admin: Some(s("admin")) }, s("deployer"));
    for id in [5u64, 2, 9, 1] {
        try_addproject(
            &mut platform,
            &s("admin"),
            id,
            s("creator"),
            s("token"),
            three_schedules(),
            None,
        )
        .unwrap();
    }
    let listed: Vec<u64> =
        query_getallprojectinfo(&platform).iter().map(|p| p.project_id).collect();
    assert_eq!(listed, vec![1, 2, 5, 9]);
}

#[test]
fn adduser_stage_words() {
    assert_eq!(parse_stage(&s("SEED")), Some(Stage::Seed));
    assert_eq!(parse_stage(&s("Presale")), Some(Stage::Presale));
    assert_eq!(parse_stage(&s("ido")), Some(Stage::Ido));
    assert_eq!(parse_stage(&s("airdrop")), None);

    let mut platform = platform_with_project(None);
    try_adduser(&mut platform, &s("admin"), 1, s("x"), s("Seed"), 42).unwrap();
    assert_eq!(query_stage_users(&platform, 1, Stage::Seed).unwrap().len(), 1);
    try_adduser(&mut platform, &s("admin"), 1, s("x"), s("airdrop"), 42).unwrap();
    assert_eq!(query_stage_users(&platform, 1, Stage::Seed).unwrap().len(), 1);
    assert_eq!(query_stage_users(&platform, 1, Stage::Presale).unwrap().len(), 0);
    assert_eq!(query_stage_users(&platform, 1, Stage::Ido).unwrap().len(), 0);
}

#[test]
fn registry_rejections() {
    let mut platform = platform_with_project(None);
    assert_eq!(
        try_addproject(
            &mut platform,
            &s("stranger"),
            2,
            s("creator"),
            s("token"),
            three_schedules(),
            None,
        ),
        Err(ContractError::Unauthorized)
    );
    assert_eq!(
        try_addproject(
            &mut platform,
            &s("admin"),
            1,
            s("creator"),
            s("token"),
            three_schedules(),
            None,
        ),
        Err(ContractError::AlreadyRegisteredProject)
    );
    assert_eq!(
        try_addseeduser(&mut platform, &s("admin"), 9, s("w"), 1),
        Err(ContractError::NotRegisteredProject)
    );
    assert_eq!(
        try_addseeduser(&mut platform, &s("stranger"), 1, s("w"), 1),
        Err(ContractError::Unauthorized)
    );
}

#[test]
fn merge_overflow_rejected() {
    let mut platform = platform_with_project(None);
    try_addseeduser(&mut platform, &s("admin"), 1, s("w"), u128::MAX).unwrap();
    assert_eq!(
        try_addseeduser(&mut platform, &s("admin"), 1, s("w"), 1),
        Err(ContractError::ArithmeticError)
    );
}

#[test]
fn project_config_partial_update() {
    let mut platform = platform_with_project(Some(5));
    try_setprojectconfig(&mut platform, &s("creator"), 1, None, Some(s("token2")), None).unwrap();
    let config = query_getconfig(&platform, 1).unwrap();
    assert_eq!(config.owner, s("creator"));
    assert_eq!(config.token_addr, s("token2"));
    assert_eq!(config.start_time, 5);
}

#[test]
fn vesting_parameters_replace_all_three() {
    let mut platform = platform_with_project(None);
    let flat = VestingParameter { cliff_fraction_pct: 50, cliff_duration: 10, linear_duration: 20 };
    assert_eq!(
        try_setvestingparameters(&mut platform, &s("admin"), 1, vec![flat, flat, flat]),
        Err(ContractError::Unauthorized)
    );
    try_setvestingparameters(&mut platform, &s("creator"), 1, vec![flat, flat, flat]).unwrap();
    assert_eq!(platform.projects[0].vest_param.seed, flat);
    assert_eq!(platform.projects[0].vest_param.presale, flat);
    assert_eq!(platform.projects[0].vest_param.ido, flat);
}

#[test]
fn setconfig_gates_owner() {
    let mut platform = init_platform(InstantiateMsg { admin: Some(s("admin")) }, s("deployer"));
    assert_eq!(
        try_setconfig(&mut platform, &s("stranger"), s("x"), s("y")),
        Err(ContractError::Unauthorized)
    );
    try_setconfig(&mut platform, &s("admin"), s("admin2"), s("vest")).unwrap();
    assert_eq!(platform.config.owner, s("admin2"));
    assert_eq!(platform.config.vesting_addr, s("vest"));
}
