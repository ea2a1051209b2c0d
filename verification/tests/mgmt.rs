use sienna::decimal_math::Uint128;
use sienna::env::Env;
use sienna::error::ContractError;
use sienna::mgmt::{
    claim, claimable_portions, configure, disown, init, launch, query, transfer_ownership, InitMsg,
    Portion, QueryMsg, Response, Snip20Msg, State, BLOCK_SIZE, NOTHING, NO_SCHEDULE, PRELAUNCH, UNDERWAY,
};

const ADMIN: &str = "admin";

fn env_at(sender: &str, time: u64) -> Env {
    Env {
        block_height: 1,
        block_time: time,
        sender: sender.to_string(),
        contract_address: "mgmt".to_string(),
        contract_code_hash: "mgmt_hash".to_string(),
    }
}

fn portion(address: &str, amount: u128, vested: u64) -> Portion {
    Portion { address: address.to_string(), amount: Uint128(amount), vested }
}

fn schedule() -> Vec<Portion> {
    vec![portion("alice", 100, 0), portion("bob", 200, 10), portion("alice", 300, 20)]
}

fn fresh() -> State {
    init(&env_at(ADMIN, 0), InitMsg { schedule: None, token_addr: "token".into(), token_hash: "hash".into() })
}

fn generic(msg: &str) -> ContractError {
    ContractError::GenericErr { msg: msg.to_string() }
}

#[test]
fn configure_sets_total() {
    let mut s = fresh();
    assert_eq!(configure(&mut s, &env_at("eve", 0), schedule(), Ok(())).unwrap_err(), ContractError::Unauthorized);
    configure(&mut s, &env_at(ADMIN, 0), schedule(), Ok(())).unwrap();
    assert_eq!(s.total, Uint128(600));
    match query(&s, QueryMsg::GetSchedule) {
        Response::Schedule { schedule: Some(p), total } => {
            assert_eq!(p, schedule());
            assert_eq!(total, Uint128(600));
        },
        _ => panic!("expected a schedule"),
    }
}

#[test]
fn refused_schedule_update_changes_nothing() {
    let mut s = fresh();
    configure(&mut s, &env_at(ADMIN, 0), schedule(), Ok(())).unwrap();
    let r = configure(&mut s, &env_at(ADMIN, 0), vec![portion("carol", 5, 0)], Err(generic("no")));
    assert_eq!(r.unwrap_err(), generic("no"));
    assert_eq!(s.errors, 0);
    assert_eq!(s.total, Uint128(600));
    assert_eq!(s.schedule, Some(schedule()));
}

#[test]
fn launch_once() {
    let mut s = fresh();
    assert_eq!(launch(&mut s, &env_at(ADMIN, 5)).unwrap_err(), generic(NO_SCHEDULE));
    configure(&mut s, &env_at(ADMIN, 0), schedule(), Ok(())).unwrap();
    assert_eq!(launch(&mut s, &env_at("eve", 5)).unwrap_err(), ContractError::Unauthorized);
    let resp = launch(&mut s, &env_at(ADMIN, 5)).unwrap();
    assert_eq!(resp.messages, vec![
        Snip20Msg::Mint {
            recipient: "mgmt".into(), amount: Uint128(600), padding: None, block_size: BLOCK_SIZE,
            callback_code_hash: "hash".into(), contract_addr: "token".into(),
        },
        Snip20Msg::SetMinters {
            minters: vec![], padding: None, block_size: BLOCK_SIZE,
            callback_code_hash: "hash".into(), contract_addr: "token".into(),
        },
    ]);
    assert_eq!(s.launched, Some(5));
    assert_eq!(launch(&mut s, &env_at(ADMIN, 9)).unwrap_err(), generic(UNDERWAY));
    assert_eq!(query(&s, QueryMsg::Status), Response::Status { errors: 3, launched: Some(5) });
}

#[test]
fn claims() {
    let mut s = fresh();
    configure(&mut s, &env_at(ADMIN, 0), schedule(), Ok(())).unwrap();
    assert_eq!(claimable_portions(&mut s, &env_at("alice", 3)).unwrap_err(), generic(PRELAUNCH));
    launch(&mut s, &env_at(ADMIN, 100)).unwrap();
    assert_eq!(claimable_portions(&mut s, &env_at("alice", 110)).unwrap(), vec![portion("alice", 100, 0)]);
    assert_eq!(claimable_portions(&mut s, &env_at("alice", 120)).unwrap(),
        vec![portion("alice", 100, 0), portion("alice", 300, 20)]);
    assert_eq!(claimable_portions(&mut s, &env_at("bob", 105)).unwrap_err(), generic(NOTHING));
    let unclaimed = vec![portion("alice", 100, 0), portion("alice", 300, 20)];
    let resp = claim(&mut s, &env_at("alice", 120), &unclaimed).unwrap();
    assert_eq!(resp.messages, vec![Snip20Msg::Transfer {
        recipient: "alice".into(), amount: Uint128(400), padding: None, block_size: BLOCK_SIZE,
        callback_code_hash: "hash".into(), contract_addr: "token".into(),
    }]);
    assert_eq!(s.errors, 2);
    assert_eq!(claim(&mut s, &env_at("alice", 120), &vec![]).unwrap_err(), generic(NOTHING));
    assert_eq!(query(&s, QueryMsg::Status), Response::Status { errors: 3, launched: Some(100) });
}

#[test]
fn schedule_given_at_init_is_minted() {
    let mut s = init(&env_at(ADMIN, 0), InitMsg { schedule: Some(schedule()), token_addr: "token".into(), token_hash: "hash".into() });
    assert_eq!(s.total, Uint128(600));
    let resp = launch(&mut s, &env_at(ADMIN, 5)).unwrap();
    match &resp.messages[0] {
        Snip20Msg::Mint { amount, .. } => assert_eq!(*amount, Uint128(600)),
        _ => panic!("expected a mint"),
    }
}

#[test]
fn no_configure_after_launch() {
    let mut s = fresh();
    configure(&mut s, &env_at(ADMIN, 0), schedule(), Ok(())).unwrap();
    launch(&mut s, &env_at(ADMIN, 5)).unwrap();
    let r = configure(&mut s, &env_at(ADMIN, 6), vec![portion("carol", 5, 0)], Ok(()));
    assert_eq!(r.unwrap_err(), generic(UNDERWAY));
    assert_eq!(s.schedule, Some(schedule()));
    assert_eq!(s.total, Uint128(600));
    assert_eq!(s.errors, 1);
}

#[test]
fn ownership() {
    let mut s = fresh();
    transfer_ownership(&mut s, &env_at(ADMIN, 0), "carol".into()).unwrap();
    assert_eq!(s.admin, Some("carol".to_string()));
    assert_eq!(disown(&mut s, &env_at(ADMIN, 0)).unwrap_err(), ContractError::Unauthorized);
    disown(&mut s, &env_at("carol", 0)).unwrap();
    assert_eq!(s.admin, None);
    assert_eq!(configure(&mut s, &env_at("carol", 0), schedule(), Ok(())).unwrap_err(), ContractError::Unauthorized);
    assert_eq!(transfer_ownership(&mut s, &env_at("carol", 0), "carol".into()).unwrap_err(), ContractError::Unauthorized);
}
