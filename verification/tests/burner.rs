use sienna::burner::{
    handle, init, load_admins, load_burn_pool, load_token_info, pair_address_exists, query,
    ContractInfo, HandleMsg, HandleResponse, InitMsg, QueryAnswer, QueryMsg, ResponseStatus, State,
    BurnFromMsg, BLOCK_SIZE,
};
use sienna::decimal_math::Uint128;
use sienna::env::Env;
use sienna::error::ContractError;

const FACTORY: &'static str = "factory_address";
const BURN_POOL: &'static str = "burn_pool";
const SENDER: &'static str = "sender";

fn mock_env(sender: &str) -> Env {
    Env {
        block_height: 12_345,
        block_time: 1_571_797_419,
        sender: sender.to_string(),
        contract_address: "cosmos2contract".to_string(),
        contract_code_hash: "".to_string(),
    }
}

fn addr(s: &str) -> String {
    s.to_string()
}

fn initialize(pairs: Option<Vec<String>>, admins: Option<Vec<String>>) -> State {
    let env = mock_env(SENDER);
    let msg = InitMsg {
        sienna_token: ContractInfo { address: "sienna_token".into(), code_hash: "sienna_token_hash".into() },
        pairs,
        burn_pool: addr(BURN_POOL),
        factory_address: addr(FACTORY),
        admins,
    };
    init(&env, msg)
}

fn assert_unauthorized(response: Result<HandleResponse, ContractError>) {
    assert!(response.is_err());
    let err = response.unwrap_err();
    assert_eq!(err, ContractError::Unauthorized)
}

#[test]
fn test_proper_init() {
    let sienna_token = ContractInfo { address: "sienna_token".into(), code_hash: "sienna_token_hash".into() };
    let pairs = vec![addr("pair1"), addr("pair2"), addr("pair3")];
    let deps = initialize(Some(pairs.clone()), None);

    assert_eq!(sienna_token, load_token_info(&deps));
    assert_eq!(addr(BURN_POOL), load_burn_pool(&deps));
    assert_eq!(vec![addr(FACTORY), addr(SENDER)], load_admins(&deps));
    for i in 0..pairs.len() {
        assert!(pair_address_exists(&deps, &pairs[i]));
    }

    let admins = vec![addr("admin1"), addr("admin2"), addr("admin3")];
    let deps = initialize(None, Some(admins.clone()));
    assert_eq!([admins, vec![addr(FACTORY)]].concat(), load_admins(&deps));
}

#[test]
fn test_burn() {
    let pair_1 = "pair1";
    let pairs = vec![addr(pair_1), addr("pair2"), addr("pair3")];
    let mut deps = initialize(Some(pairs.clone()), None);

    let result = handle(&mut deps, &mock_env(pair_1), HandleMsg::Burn { amount: Uint128(100) });
    assert!(result.is_ok());

    let result = handle(&mut deps, &mock_env("unauthorized"), HandleMsg::Burn { amount: Uint128(100) });
    assert_unauthorized(result);

    let new_pair = addr("new_pair");
    handle(&mut deps, &mock_env(SENDER), HandleMsg::AddPairs { pairs: vec![new_pair.clone()] }).unwrap();

    let result = handle(&mut deps, &mock_env(&new_pair), HandleMsg::Burn { amount: Uint128(100) });
    assert!(result.is_ok());
}

#[test]
fn test_add_pairs() {
    let pairs = vec![addr("pair1"), addr("pair2"), addr("pair3")];
    let mut deps = initialize(Some(pairs.clone()), None);
    let new_pairs = vec![addr("pair4"), addr("pair5")];

    handle(&mut deps, &mock_env(SENDER), HandleMsg::AddPairs { pairs: new_pairs.clone() }).unwrap();

    let all_pairs = [pairs, new_pairs].concat();
    for i in 0..all_pairs.len() {
        assert!(pair_address_exists(&deps, &all_pairs[i]));
    }

    let result = handle(&mut deps, &mock_env("non_admin"), HandleMsg::AddPairs { pairs: vec![addr("whatever")] });
    assert_unauthorized(result);
}

#[test]
fn test_remove_pairs() {
    let pairs = vec![addr("pair1"), addr("pair2"), addr("pair3")];
    let mut deps = initialize(Some(pairs.clone()), None);
    let remove_pairs = vec![addr("pair3"), addr("non_existant")];

    let result = handle(&mut deps, &mock_env("non_admin"), HandleMsg::RemovePairs { pairs: remove_pairs.clone() });
    assert_unauthorized(result);

    handle(&mut deps, &mock_env(SENDER), HandleMsg::RemovePairs { pairs: remove_pairs.clone() }).unwrap();

    assert!(pair_address_exists(&deps, &pairs[0]));
    assert!(pair_address_exists(&deps, &pairs[1]));
    assert!(!pair_address_exists(&deps, &pairs[2]));
    assert!(!pair_address_exists(&deps, &remove_pairs[1]));
}

#[test]
fn test_add_admins() {
    let mut deps = initialize(None, None);
    let new_admins = vec![addr("new_admin1"), addr("new_admin2")];

    let result = handle(&mut deps, &mock_env("non_admin"), HandleMsg::AddAdmins { addresses: new_admins.clone() });
    assert_unauthorized(result);

    handle(&mut deps, &mock_env(SENDER), HandleMsg::AddAdmins { addresses: new_admins.clone() }).unwrap();

    match query(&deps, QueryMsg::Admins) {
        QueryAnswer::Admins { addresses } => {
            assert_eq!(addresses, [vec![addr(FACTORY), addr(SENDER)], new_admins.clone()].concat())
        },
        _ => panic!("Expected QueryAnswer::Admins"),
    }

    handle(&mut deps, &mock_env(&new_admins[0]), HandleMsg::AddAdmins { addresses: new_admins.clone() }).unwrap();

    match query(&deps, QueryMsg::Admins) {
        QueryAnswer::Admins { addresses } => assert!(addresses.len() == new_admins.len() * 2 + 2),
        _ => panic!("Expected QueryAnswer::Admins"),
    }
}

#[test]
fn test_set_burn_pool() {
    let mut deps = initialize(None, None);
    let pool = addr("pool");

    let result = handle(&mut deps, &mock_env("non_admin"), HandleMsg::SetBurnPool { address: pool.clone() });
    assert_unauthorized(result);

    handle(&mut deps, &mock_env(SENDER), HandleMsg::SetBurnPool { address: pool.clone() }).unwrap();

    match query(&deps, QueryMsg::BurnPool) {
        QueryAnswer::BurnPool { address } => assert_eq!(pool, address),
        _ => panic!("Expected QueryAnswer::BurnPool"),
    }
}

#[test]
fn test_set_sienna_token() {
    let mut deps = initialize(None, None);
    let token = ContractInfo { address: "new_token".into(), code_hash: "new_token_hash".into() };

    let result = handle(&mut deps, &mock_env("non_admin"), HandleMsg::SetSiennaToken { info: token.copy() });
    assert_unauthorized(result);

    handle(&mut deps, &mock_env(SENDER), HandleMsg::SetSiennaToken { info: token.copy() }).unwrap();

    match query(&deps, QueryMsg::SiennaToken) {
        QueryAnswer::SiennaToken { info } => assert_eq!(token, info),
        _ => panic!("Expected QueryAnswer::SiennaToken"),
    }
}

#[test]
fn burn_message_and_log() {
    let mut deps = initialize(Some(vec![addr("pair1")]), None);
    let before = initialize(Some(vec![addr("pair1")]), None);
    let resp = handle(&mut deps, &mock_env("pair1"), HandleMsg::Burn { amount: Uint128(1_234_567) }).unwrap();
    assert_eq!(resp.messages, vec![BurnFromMsg {
        owner: addr(BURN_POOL),
        amount: Uint128(1_234_567),
        padding: None,
        block_size: BLOCK_SIZE,
        callback_code_hash: "sienna_token_hash".into(),
        contract_addr: "sienna_token".into(),
    }]);
    assert_eq!(resp.log.len(), 1);
    assert_eq!(resp.log[0].key, "sienna_burned");
    assert_eq!(resp.log[0].value, "1234567");
    assert_eq!(resp.data, Some(ResponseStatus::Success));
    assert_eq!(deps, before);
}

#[test]
fn refused_request_changes_nothing() {
    let mut deps = initialize(Some(vec![addr("pair1")]), None);
    let before = initialize(Some(vec![addr("pair1")]), None);
    let result = handle(&mut deps, &mock_env("pair1"), HandleMsg::RemovePairs { pairs: vec![addr("pair1")] });
    assert_unauthorized(result);
    assert_eq!(deps, before);
}

#[test]
fn removing_then_burning_is_refused() {
    let mut deps = initialize(Some(vec![addr("pair1"), addr("pair2")]), None);
    handle(&mut deps, &mock_env(FACTORY), HandleMsg::RemovePairs { pairs: vec![addr("pair1")] }).unwrap();
    assert_unauthorized(handle(&mut deps, &mock_env("pair1"), HandleMsg::Burn { amount: Uint128(1) }));
    assert!(handle(&mut deps, &mock_env("pair2"), HandleMsg::Burn { amount: Uint128(1) }).is_ok());
}

#[test]
fn registering_a_pair_twice_keeps_one() {
    let mut deps = initialize(Some(vec![addr("pair1"), addr("pair1")]), None);
    assert_eq!(deps.pairs.len(), 1);
    handle(&mut deps, &mock_env(SENDER), HandleMsg::AddPairs { pairs: vec![addr("pair1")] }).unwrap();
    assert_eq!(deps.pairs.len(), 1);
    handle(&mut deps, &mock_env(SENDER), HandleMsg::RemovePairs { pairs: vec![addr("pair1")] }).unwrap();
    assert!(!pair_address_exists(&deps, &addr("pair1")));
}

#[test]
fn pairs_keep_the_order_of_registration() {
    let mut deps = initialize(Some(vec![addr("a"), addr("b"), addr("a"), addr("c")]), None);
    assert_eq!(deps.pairs, vec![addr("a"), addr("b"), addr("c")]);
    handle(&mut deps, &mock_env(SENDER), HandleMsg::AddPairs { pairs: vec![addr("d"), addr("b"), addr("e")] }).unwrap();
    assert_eq!(deps.pairs, vec![addr("a"), addr("b"), addr("c"), addr("d"), addr("e")]);
    handle(&mut deps, &mock_env(SENDER), HandleMsg::RemovePairs { pairs: vec![addr("b"), addr("x"), addr("e")] }).unwrap();
    assert_eq!(deps.pairs, vec![addr("a"), addr("c"), addr("d")]);
}
