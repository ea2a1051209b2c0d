use sienna::env::Env;
use sienna::error::ContractError;
use sienna::factory::{
    create_signature, handle, init, query, Config, ContractInstantiationInfo, ContractLink, Exchange,
    ExchangeSettings, Fee, HandleMsg, HandleResponse, InitMsg, Instantiate, Pagination, QueryMsg,
    QueryResponse, State, TokenPair, TokenSaleConfig, TokenType, WhitelistRequest,
};

type Msg = HandleMsg<String, String>;
type Resp = Result<HandleResponse<String, String>, ContractError>;

const ADMIN: &str = "admin";

fn env_of(sender: &str) -> Env {
    Env {
        block_height: 1,
        block_time: 2,
        sender: sender.to_string(),
        contract_address: "factory".to_string(),
        contract_code_hash: "factory_hash".to_string(),
    }
}

fn info(id: u64) -> ContractInstantiationInfo {
    ContractInstantiationInfo { code_hash: format!("hash{}", id), id }
}

fn settings() -> ExchangeSettings {
    ExchangeSettings { swap_fee: Fee { nom: 28, denom: 1000 }, sienna_fee: Fee { nom: 2, denom: 10000 }, sienna_burner: None }
}

fn fresh() -> State {
    init(&env_of(ADMIN), InitMsg {
        snip20_contract: info(1),
        lp_token_contract: info(2),
        pair_contract: info(3),
        launchpad_contract: info(4),
        ido_contract: info(5),
        exchange_settings: settings(),
        admin: None,
        prng_seed: vec![7, 7],
    })
}

fn token(a: &str) -> TokenType {
    TokenType::CustomToken { contract_addr: a.to_string(), token_code_hash: format!("{}_hash", a) }
}

fn pair(a: &str, b: &str) -> TokenPair {
    TokenPair(token(a), token(b))
}

fn sale() -> TokenSaleConfig<String> {
    TokenSaleConfig { sold_token: ContractLink { address: "sold".into(), code_hash: "sold_hash".into() }, terms: "terms".into() }
}

fn generic(msg: &str) -> ContractError {
    ContractError::GenericErr { msg: msg.to_string() }
}

fn signature_of(resp: &HandleResponse<String, String>) -> Vec<u8> {
    match &resp.messages[0] {
        Instantiate::Exchange { signature, .. } => signature.clone(),
        Instantiate::Launchpad { signature, .. } => signature.clone(),
        Instantiate::Ido { signature, .. } => signature.clone(),
    }
}

#[test]
fn signature_is_json_of_sender_height_and_time() {
    let sig = create_signature(&env_of("a")).unwrap();
    assert_eq!(String::from_utf8(sig).unwrap(), "[97,0,0,0,0,0,0,0,1,0,0,0,0,0,0,0,2]");
}

#[test]
fn exchange_handshake() {
    let mut s = fresh();
    let r: Resp = handle(&mut s, &env_of("anyone"), Msg::CreateExchange { pair: pair("x", "y"), entropy: vec![1] });
    let resp = r.unwrap();
    assert_eq!(resp.log[0].key, "action");
    assert_eq!(resp.log[0].value, "create_exchange");
    assert_eq!(resp.log[1].key, "pair");
    assert_eq!(resp.log[1].value, "Token 1: x \n Token 2: y");
    match &resp.messages[0] {
        Instantiate::Exchange { code_id, callback_code_hash, label, pair: p, lp_token_contract, factory_info, callback, entropy, prng_seed, .. } => {
            assert_eq!(*code_id, 3);
            assert_eq!(callback_code_hash, "hash3");
            assert_eq!(label, "x-y-pair-factory-3");
            assert_eq!(*p, pair("x", "y"));
            assert_eq!(*lp_token_contract, info(2));
            assert_eq!(*factory_info, ContractLink { address: "factory".into(), code_hash: "factory_hash".into() });
            assert_eq!(factory_info, callback);
            assert_eq!(*entropy, vec![1]);
            assert_eq!(*prng_seed, vec![7, 7]);
        },
        _ => panic!("expected an exchange"),
    }
    let sig = signature_of(&resp);

    let wrong: Resp = handle(&mut s, &env_of("exchange1"), Msg::RegisterExchange { pair: pair("x", "y"), signature: vec![1, 2] });
    assert_eq!(wrong.unwrap_err(), ContractError::Unauthorized);

    let ok: Resp = handle(&mut s, &env_of("exchange1"), Msg::RegisterExchange { pair: pair("x", "y"), signature: sig.clone() });
    let ok = ok.unwrap();
    assert_eq!(ok.log[1].key, "address");
    assert_eq!(ok.log[1].value, "exchange1");
    assert_eq!(s.exchanges, vec![Exchange { pair: pair("x", "y"), address: "exchange1".into() }]);
    assert_eq!(s.ephemeral_signature, None);

    let r: Resp = handle(&mut s, &env_of("anyone"), Msg::CreateExchange { pair: pair("x", "z"), entropy: vec![] });
    let pending = signature_of(&r.unwrap());
    let clash: Resp = handle(&mut s, &env_of("exchange3"), Msg::RegisterExchange { pair: pair("y", "x"), signature: pending });
    assert_eq!(clash.unwrap_err(), generic("Exchange already exists"));
    assert_eq!(s.ephemeral_signature, None);
    assert_eq!(s.exchanges.len(), 1);

    let replay: Resp = handle(&mut s, &env_of("exchange2"), Msg::RegisterExchange { pair: pair("z", "w"), signature: sig });
    assert_eq!(replay.unwrap_err(), ContractError::Unauthorized);

    let again: Resp = handle(&mut s, &env_of("anyone"), Msg::CreateExchange { pair: pair("y", "x"), entropy: vec![] });
    assert_eq!(again.unwrap_err(), generic("Pair already exists"));

    match query(&s, QueryMsg::GetExchangeAddress { pair: pair("y", "x") }) {
        Ok(QueryResponse::GetExchangeAddress { address }) => assert_eq!(address, "exchange1"),
        _ => panic!("expected an address"),
    }
    assert_eq!(query(&s, QueryMsg::GetExchangeAddress { pair: pair("q", "x") }).unwrap_err(),
        generic("Address doesn't exist in storage."));
}

#[test]
fn no_registration_without_a_pending_creation() {
    let mut s = fresh();
    let r: Resp = handle(&mut s, &env_of("rogue"), Msg::RegisterExchange { pair: pair("x", "y"), signature: vec![] });
    assert_eq!(r.unwrap_err(), ContractError::Unauthorized);
    let r: Resp = handle(&mut s, &env_of("rogue"), Msg::RegisterLaunchpad { signature: vec![] });
    assert_eq!(r.unwrap_err(), ContractError::Unauthorized);
    let r: Resp = handle(&mut s, &env_of("rogue"), Msg::RegisterIdo { signature: vec![] });
    assert_eq!(r.unwrap_err(), ContractError::Unauthorized);
    assert!(s.exchanges.is_empty());
    assert_eq!(s.launchpad, None);
    assert!(s.idos.is_empty());
}

#[test]
fn same_token_refused() {
    let mut s = fresh();
    let r: Resp = handle(&mut s, &env_of("anyone"), Msg::CreateExchange { pair: pair("x", "x"), entropy: vec![] });
    assert_eq!(r.unwrap_err(), generic("Cannot create an exchange with the same token."));
    assert_eq!(s.ephemeral_signature, None);
}

#[test]
fn launchpad_lifecycle() {
    let mut s = fresh();
    let r: Resp = handle(&mut s, &env_of("eve"), Msg::CreateLaunchpad { tokens: vec![], entropy: vec![] });
    assert_eq!(r.unwrap_err(), ContractError::Unauthorized);
    assert_eq!(query(&s, QueryMsg::GetLaunchpadAddress).unwrap_err(), generic("Launchpad contract hasn't been created yet"));
    let r: Resp = handle(&mut s, &env_of(ADMIN), Msg::CreateLaunchpad { tokens: vec!["t".into()], entropy: vec![3] });
    let resp = r.unwrap();
    match &resp.messages[0] {
        Instantiate::Launchpad { code_id, label, tokens, admin, .. } => {
            assert_eq!(*code_id, 4);
            assert_eq!(label, "SIENNA Launchpad for IDOs, created at 2");
            assert_eq!(*tokens, vec!["t".to_string()]);
            assert_eq!(admin, ADMIN);
        },
        _ => panic!("expected a launchpad"),
    }
    let sig = signature_of(&resp);
    let r: Resp = handle(&mut s, &env_of("launchpad"), Msg::RegisterLaunchpad { signature: sig });
    r.unwrap();
    assert_eq!(s.launchpad, Some(ContractLink { address: "launchpad".into(), code_hash: "hash4".into() }));
    match query(&s, QueryMsg::GetLaunchpadAddress) {
        Ok(QueryResponse::GetLaunchpadAddress { address }) => assert_eq!(address, "launchpad"),
        _ => panic!("expected an address"),
    }
    let r: Resp = handle(&mut s, &env_of(ADMIN), Msg::CreateLaunchpad { tokens: vec![], entropy: vec![] });
    assert_eq!(r.unwrap_err(), generic("Launchpad contract is already created"));
    let r: Resp = handle(&mut s, &env_of(ADMIN), Msg::AddLaunchpad { launchpad: ContractLink { address: "l2".into(), code_hash: "h".into() } });
    assert_eq!(r.unwrap_err(), generic("Launchpad contract is already created"));
}

#[test]
fn whitelisted_address_creates_one_ido() {
    let mut s = fresh();
    let r: Resp = handle(&mut s, &env_of("seller"), Msg::CreateIdo { info: sale(), tokens: None, entropy: vec![] });
    assert_eq!(r.unwrap_err(), ContractError::Unauthorized);
    let r: Resp = handle(&mut s, &env_of(ADMIN), Msg::IdoWhitelist { addresses: vec!["seller".into()] });
    r.unwrap();
    let r: Resp = handle(&mut s, &env_of(ADMIN), Msg::AddLaunchpad { launchpad: ContractLink { address: "lp".into(), code_hash: "lph".into() } });
    r.unwrap();
    let r: Resp = handle(&mut s, &env_of("seller"), Msg::CreateIdo { info: sale(), tokens: Some(vec![None]), entropy: vec![] });
    let resp = r.unwrap();
    match &resp.messages[0] {
        Instantiate::Ido { code_id, label, admin, info, launchpad, .. } => {
            assert_eq!(*code_id, 5);
            assert_eq!(label, "SIENNA IDO for token sold, created at 2");
            assert_eq!(admin, "seller");
            assert_eq!(*info, sale());
            assert_eq!(*launchpad, Some(WhitelistRequest {
                launchpad: ContractLink { address: "lp".into(), code_hash: "lph".into() },
                tokens: vec![None],
            }));
        },
        _ => panic!("expected an IDO"),
    }
    let sig = signature_of(&resp);
    let r: Resp = handle(&mut s, &env_of("seller"), Msg::CreateIdo { info: sale(), tokens: None, entropy: vec![] });
    assert_eq!(r.unwrap_err(), ContractError::Unauthorized);
    let r: Resp = handle(&mut s, &env_of("ido1"), Msg::RegisterIdo { signature: sig });
    r.unwrap();
    let r: Resp = handle(&mut s, &env_of(ADMIN), Msg::CreateIdo { info: sale(), tokens: None, entropy: vec![] });
    r.unwrap();
    let r: Resp = handle(&mut s, &env_of(ADMIN), Msg::AddIdos { idos: vec!["ido2".into(), "ido3".into()] });
    r.unwrap();
    match query(&s, QueryMsg::ListIdos { pagination: Pagination { start: 1, limit: 5 } }) {
        Ok(QueryResponse::ListIdos { idos }) => assert_eq!(idos, vec!["ido2".to_string(), "ido3".to_string()]),
        _ => panic!("expected IDOs"),
    }
    match query(&s, QueryMsg::ListIdos { pagination: Pagination { start: 9, limit: 5 } }) {
        Ok(QueryResponse::ListIdos { idos }) => assert!(idos.is_empty()),
        _ => panic!("expected IDOs"),
    }
}

#[test]
fn config_and_admin_registries() {
    let mut s = fresh();
    let update = || Msg::SetConfig {
        snip20_contract: None, lp_token_contract: Some(info(9)), pair_contract: None,
        launchpad_contract: None, ido_contract: None, exchange_settings: None,
    };
    let r: Resp = handle(&mut s, &env_of("eve"), update());
    assert_eq!(r.unwrap_err(), ContractError::Unauthorized);
    let r: Resp = handle(&mut s, &env_of(ADMIN), update());
    r.unwrap();
    assert_eq!(s.config, Config {
        snip20_contract: info(1), lp_token_contract: info(9), pair_contract: info(3),
        launchpad_contract: info(4), ido_contract: info(5), exchange_settings: settings(),
    });
    let ex = |a: &str, b: &str, addr: &str| Exchange { pair: pair(a, b), address: addr.into() };
    let r: Resp = handle(&mut s, &env_of(ADMIN), Msg::AddExchanges { exchanges: vec![ex("a", "b", "e1"), ex("b", "a", "e2")] });
    assert_eq!(r.unwrap_err(), generic("Exchange already exists"));
    assert_eq!(s.exchanges, vec![ex("a", "b", "e1")]);
    let r: Resp = handle(&mut s, &env_of(ADMIN), Msg::AddExchanges { exchanges: (0..40).map(|i| ex("a", &format!("t{}", i), "e")).collect() });
    r.unwrap();
    match query(&s, QueryMsg::ListExchanges { pagination: Pagination { start: 5, limit: 200 } }) {
        Ok(QueryResponse::ListExchanges { exchanges }) => {
            assert_eq!(exchanges.len(), 30);
            assert_eq!(exchanges[0], ex("a", "t4", "e"));
        },
        _ => panic!("expected exchanges"),
    }
    match query(&s, QueryMsg::GetExchangeSettings) {
        Ok(QueryResponse::GetExchangeSettings { settings: got }) => assert_eq!(got, settings()),
        _ => panic!("expected settings"),
    }
}

#[test]
fn whitelist_keeps_its_order() {
    let mut s = fresh();
    let r: Resp = handle(&mut s, &env_of(ADMIN), Msg::IdoWhitelist { addresses: vec!["a".into(), "b".into(), "a".into()] });
    r.unwrap();
    let r: Resp = handle(&mut s, &env_of(ADMIN), Msg::IdoWhitelist { addresses: vec!["c".into(), "b".into()] });
    r.unwrap();
    assert_eq!(s.ido_whitelist, vec!["a".to_string(), "b".to_string(), "c".to_string()]);
    let r: Resp = handle(&mut s, &env_of("b"), Msg::CreateIdo { info: sale(), tokens: None, entropy: vec![] });
    r.unwrap();
    assert_eq!(s.ido_whitelist, vec!["a".to_string(), "c".to_string()]);
}
