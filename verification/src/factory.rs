//! The factory contract: it instantiates exchanges, the launchpad and IDOs,
//! and registers them when they call back with the signature that it handed
//! them; admins manage its configuration and registries.
use vstd::prelude::*;
use crate::addr::{listed, with_added, without, without_unlisted, contains, append_all, register_all, unregister_all};
use crate::bytes::{bytes_eq, copy_bytes, push_be_bytes, push_slice, be_bytes, json_of_bytes, bytes_to_binary, std_error_message, json_of_bytes_injective, be_bytes_injective};
use crate::env::{Env, LogAttribute, log, log_action};
use crate::error::{ContractError, generic_err};
use crate::text::{push_decimal, decimal_digits};

verus! {

/// Most items that one page of a listing holds.
pub const PAGINATION_LIMIT: u8 = 30;

/// A token that an exchange trades: a SNIP-20 contract or a native coin.
#[derive(Debug, PartialEq, Eq)]
pub enum TokenType {
    CustomToken { contract_addr: String, token_code_hash: String },
    NativeToken { denom: String },
}

/// The two tokens of an exchange.
#[derive(Debug, PartialEq, Eq)]
pub struct TokenPair(pub TokenType, pub TokenType);

/// Code id and code hash from which a contract is instantiated.
#[derive(Debug, PartialEq, Eq)]
pub struct ContractInstantiationInfo {
    pub code_hash: String,
    pub id: u64,
}

/// Address and code hash of an instantiated contract.
#[derive(Debug, PartialEq, Eq)]
pub struct ContractLink {
    pub address: String,
    pub code_hash: String,
}

/// A registered exchange: its pair and its address.
#[derive(Debug, PartialEq, Eq)]
pub struct Exchange {
    pub pair: TokenPair,
    pub address: String,
}

/// A fee as the fraction `nom / denom`.
#[derive(Debug, Clone, Copy, PartialEq, Eq, Structural)]
pub struct Fee {
    pub nom: u8,
    pub denom: u16,
}

/// The settings that the factory hands to the exchanges.
#[derive(Debug, PartialEq, Eq)]
pub struct ExchangeSettings {
    pub swap_fee: Fee,
    pub sienna_fee: Fee,
    pub sienna_burner: Option<ContractLink>,
}

/// The factory's configuration.
#[derive(Debug, PartialEq, Eq)]
pub struct Config {
    pub snip20_contract: ContractInstantiationInfo,
    pub lp_token_contract: ContractInstantiationInfo,
    pub pair_contract: ContractInstantiationInfo,
    pub launchpad_contract: ContractInstantiationInfo,
    pub ido_contract: ContractInstantiationInfo,
    pub exchange_settings: ExchangeSettings,
}

/// Where a page of a listing starts, and how many items it may hold.
#[derive(Debug, Clone, Copy, PartialEq, Eq, Structural)]
pub struct Pagination {
    pub start: u64,
    pub limit: u8,
}

/// The message that instantiates the factory.
#[derive(Debug, PartialEq, Eq)]
pub struct InitMsg {
    pub snip20_contract: ContractInstantiationInfo,
    pub lp_token_contract: ContractInstantiationInfo,
    pub pair_contract: ContractInstantiationInfo,
    pub launchpad_contract: ContractInstantiationInfo,
    pub ido_contract: ContractInstantiationInfo,
    pub exchange_settings: ExchangeSettings,
    pub admin: Option<String>,
    pub prng_seed: Vec<u8>,
}

/// The messages that the factory handles. `Sale` holds the terms of a
/// token sale and `Tokens` the launchpad's token settings; the factory passes
/// both through to the contracts that it instantiates.
#[derive(Debug, PartialEq, Eq)]
pub enum HandleMsg<Sale, Tokens> {
    SetConfig {
        snip20_contract: Option<ContractInstantiationInfo>,
        lp_token_contract: Option<ContractInstantiationInfo>,
        pair_contract: Option<ContractInstantiationInfo>,
        launchpad_contract: Option<ContractInstantiationInfo>,
        ido_contract: Option<ContractInstantiationInfo>,
        exchange_settings: Option<ExchangeSettings>,
    },
    IdoWhitelist { addresses: Vec<String> },
    CreateExchange { pair: TokenPair, entropy: Vec<u8> },
    CreateLaunchpad { tokens: Vec<Tokens>, entropy: Vec<u8> },
    RegisterLaunchpad { signature: Vec<u8> },
    CreateIdo { info: TokenSaleConfig<Sale>, tokens: Option<Vec<Option<String>>>, entropy: Vec<u8> },
    RegisterIdo { signature: Vec<u8> },
    RegisterExchange { pair: TokenPair, signature: Vec<u8> },
    AddExchanges { exchanges: Vec<Exchange> },
    AddIdos { idos: Vec<String> },
    AddLaunchpad { launchpad: ContractLink },
}

/// The configuration of a token sale: the sold token, which the factory reads,
/// and the sale's `terms`, which it passes through.
#[derive(Debug, PartialEq, Eq)]
pub struct TokenSaleConfig<Terms> {
    pub sold_token: ContractLink,
    pub terms: Terms,
}

/// A request to the launchpad to let the holders of the given tokens into an IDO.
#[derive(Debug, PartialEq, Eq)]
pub struct WhitelistRequest {
    pub launchpad: ContractLink,
    pub tokens: Vec<Option<String>>,
}

/// A contract that the factory asks the chain to instantiate. Each carries the
/// signature that the new contract must hand back when it registers.
#[derive(Debug, PartialEq, Eq)]
pub enum Instantiate<Sale, Tokens> {
    Exchange {
        code_id: u64,
        callback_code_hash: String,
        label: String,
        pair: TokenPair,
        lp_token_contract: ContractInstantiationInfo,
        factory_info: ContractLink,
        callback: ContractLink,
        signature: Vec<u8>,
        entropy: Vec<u8>,
        prng_seed: Vec<u8>,
    },
    Launchpad {
        code_id: u64,
        callback_code_hash: String,
        label: String,
        tokens: Vec<Tokens>,
        admin: String,
        prng_seed: Vec<u8>,
        entropy: Vec<u8>,
        callback: ContractLink,
        signature: Vec<u8>,
    },
    Ido {
        code_id: u64,
        callback_code_hash: String,
        label: String,
        admin: String,
        info: TokenSaleConfig<Sale>,
        prng_seed: Vec<u8>,
        entropy: Vec<u8>,
        launchpad: Option<WhitelistRequest>,
        callback: ContractLink,
        signature: Vec<u8>,
    },
}

/// What a handled message answers: the contracts to instantiate and log entries.
#[derive(Debug, PartialEq, Eq)]
pub struct HandleResponse<Sale, Tokens> {
    pub messages: Vec<Instantiate<Sale, Tokens>>,
    pub log: Vec<LogAttribute>,
}

/// The answers to the factory's queries.
#[derive(Debug, PartialEq, Eq)]
pub enum QueryResponse {
    Config {
        snip20_contract: ContractInstantiationInfo,
        lp_token_contract: ContractInstantiationInfo,
        pair_contract: ContractInstantiationInfo,
        launchpad_contract: ContractInstantiationInfo,
        ido_contract: ContractInstantiationInfo,
        exchange_settings: ExchangeSettings,
    },
    GetExchangeAddress { address: String },
    ListExchanges { exchanges: Vec<Exchange> },
    ListIdos { idos: Vec<String> },
    GetLaunchpadAddress { address: String },
    GetExchangeSettings { settings: ExchangeSettings },
}

/// The factory's stored state.
#[derive(Debug, PartialEq, Eq)]
pub struct State {
    /// The admin.
    pub admin: String,
    /// The configuration.
    pub config: Config,
    /// Seed handed to every instantiated contract.
    pub prng_seed: Vec<u8>,
    /// The registered exchanges, in the order of registration.
    pub exchanges: Vec<Exchange>,
    /// The registered IDOs, in the order of registration.
    pub idos: Vec<String>,
    /// The addresses allowed to create one IDO each.
    pub ido_whitelist: Vec<String>,
    /// The launchpad, once there is one.
    pub launchpad: Option<ContractLink>,
    /// The signature of the instantiation under way, if any.
    pub ephemeral_signature: Option<Vec<u8>>,
}

impl TokenType {
    /// A copy of this token.
    pub fn copy(&self) -> (r: TokenType)
        ensures
            r == *self,
    {
        match self {
            TokenType::CustomToken { contract_addr, token_code_hash } => TokenType::CustomToken {
                contract_addr: contract_addr.clone(),
                token_code_hash: token_code_hash.clone(),
            },
            TokenType::NativeToken { denom } => TokenType::NativeToken { denom: denom.clone() },
        }
    }

    /// Whether this token and `other` are the same token with the same code hash.
    pub fn same_as(&self, other: &TokenType) -> (r: bool)
        ensures
            r == same_token(*self, *other),
    {
        match (self, other) {
            (
                TokenType::CustomToken { contract_addr: a1, token_code_hash: h1 },
                TokenType::CustomToken { contract_addr: a2, token_code_hash: h2 },
            ) => *a1 == *a2 && *h1 == *h2,
            (TokenType::NativeToken { denom: d1 }, TokenType::NativeToken { denom: d2 }) => *d1 == *d2,
            _ => false,
        }
    }

    /// Whether this token and `other` have the same contract address or denomination.
    pub fn same_id(&self, other: &TokenType) -> (r: bool)
        ensures
            r == (token_id(*self) == token_id(*other)),
    {
        match (self, other) {
            (
                TokenType::CustomToken { contract_addr: a1, .. },
                TokenType::CustomToken { contract_addr: a2, .. },
            ) => *a1 == *a2,
            (TokenType::NativeToken { denom: d1 }, TokenType::NativeToken { denom: d2 }) => *d1 == *d2,
            _ => false,
        }
    }
}

impl TokenPair {
    /// A copy of this pair.
    pub fn copy(&self) -> (r: TokenPair)
        ensures
            r == *self,
    {
        TokenPair(self.0.copy(), self.1.copy())
    }
}

impl ContractInstantiationInfo {
    /// A copy of this code id and hash.
    pub fn copy(&self) -> (r: ContractInstantiationInfo)
        ensures
            r == *self,
    {
        ContractInstantiationInfo { code_hash: self.code_hash.clone(), id: self.id }
    }
}

impl ContractLink {
    /// A copy of this link.
    pub fn copy(&self) -> (r: ContractLink)
        ensures
            r == *self,
    {
        ContractLink { address: self.address.clone(), code_hash: self.code_hash.clone() }
    }
}

impl Exchange {
    /// A copy of this exchange.
    pub fn copy(&self) -> (r: Exchange)
        ensures
            r == *self,
    {
        Exchange { pair: self.pair.copy(), address: self.address.clone() }
    }
}

impl ExchangeSettings {
    /// A copy of these settings.
    pub fn copy(&self) -> (r: ExchangeSettings)
        ensures
            r == *self,
    {
        let sienna_burner = match &self.sienna_burner {
            Some(l) => Some(l.copy()),
            None => None,
        };
        ExchangeSettings { swap_fee: self.swap_fee, sienna_fee: self.sienna_fee, sienna_burner }
    }
}

impl Config {
    /// The configuration that an `InitMsg` sets.
    pub fn from_init_msg(msg: InitMsg) -> (r: Config)
        ensures
            r == (Config {
                snip20_contract: msg.snip20_contract,
                lp_token_contract: msg.lp_token_contract,
                pair_contract: msg.pair_contract,
                launchpad_contract: msg.launchpad_contract,
                ido_contract: msg.ido_contract,
                exchange_settings: msg.exchange_settings,
            }),
    {
        Config {
            snip20_contract: msg.snip20_contract,
            lp_token_contract: msg.lp_token_contract,
            pair_contract: msg.pair_contract,
            launchpad_contract: msg.launchpad_contract,
            ido_contract: msg.ido_contract,
            exchange_settings: msg.exchange_settings,
        }
    }
}

/// Whether two tokens are equal: the same kind, address and code hash, or the same denomination.
pub open spec fn same_token(a: TokenType, b: TokenType) -> bool {
    match (a, b) {
        (
            TokenType::CustomToken { contract_addr: a1, token_code_hash: h1 },
            TokenType::CustomToken { contract_addr: a2, token_code_hash: h2 },
        ) => a1@ == a2@ && h1@ == h2@,
        (TokenType::NativeToken { denom: d1 }, TokenType::NativeToken { denom: d2 }) => d1@ == d2@,
        _ => false,
    }
}

/// What identifies a token in the registry of pairs: its kind and its contract
/// address or denomination (the code hash plays no part).
pub open spec fn token_id(t: TokenType) -> (bool, Seq<char>) {
    match t {
        TokenType::CustomToken { contract_addr, .. } => (true, contract_addr@),
        TokenType::NativeToken { denom } => (false, denom@),
    }
}

/// Whether two pairs name the same two tokens, in either order.
pub open spec fn same_pair(p: TokenPair, q: TokenPair) -> bool {
    ||| token_id(p.0) == token_id(q.0) && token_id(p.1) == token_id(q.1)
    ||| token_id(p.0) == token_id(q.1) && token_id(p.1) == token_id(q.0)
}

/// Whether an exchange for `pair` is registered in `exchanges`.
pub open spec fn pair_registered(exchanges: Seq<Exchange>, pair: TokenPair) -> bool {
    exists|i: int| 0 <= i < exchanges.len() && same_pair(#[trigger] exchanges[i].pair, pair)
}

/// Whether the first `k` of `new` can be stored one after the other after
/// `existing`: none of their pairs is registered by the time it is stored.
pub open spec fn storable_upto(existing: Seq<Exchange>, new: Seq<Exchange>, k: int) -> bool {
    forall|i: int| 0 <= i < k ==> !pair_registered(existing + new.subrange(0, i), #[trigger] new[i].pair)
}

/// Whether all of `new` can be stored after `existing`.
pub open spec fn storable(existing: Seq<Exchange>, new: Seq<Exchange>) -> bool {
    storable_upto(existing, new, new.len() as int)
}

/// `k` is where storing `new` after `existing` stops: the first exchange whose
/// pair is registered by then.
pub open spec fn clash_at(existing: Seq<Exchange>, new: Seq<Exchange>, k: int) -> bool {
    &&& 0 <= k < new.len()
    &&& storable_upto(existing, new, k)
    &&& pair_registered(existing + new.subrange(0, k), new[k].pair)
}

/// The bytes that a signature is made from: the sender's address, then the block's
/// height and time, each in eight big-endian bytes.
pub open spec fn signature_payload(env: Env) -> Seq<u8> {
    vstd::utf8::encode_utf8(env.sender@) + be_bytes(env.block_height) + be_bytes(env.block_time)
}


/// The queries that the factory answers.
#[derive(Debug, PartialEq, Eq)]
pub enum QueryMsg {
    GetConfig,
    GetExchangeAddress { pair: TokenPair },
    ListExchanges { pagination: Pagination },
    ListIdos { pagination: Pagination },
    GetLaunchpadAddress,
    GetExchangeSettings,
}

/// Whether `who` is the admin of `s`.
pub open spec fn is_admin(s: State, who: Seq<char>) -> bool {
    s.admin@ == who
}

/// Whether `sig` is the signature that the factory waits for. When it waits for
/// none, no signature is accepted: contracts register only through a creation.
pub open spec fn expects_signature(s: State, sig: Seq<u8>) -> bool {
    s.ephemeral_signature matches Some(stored) && stored@ == sig
}

/// A request from anyone but the admin is refused as unauthorized and changes nothing.
pub open spec fn admin_only<S, T>(old: State, new: State, sender: Seq<char>, r: Result<HandleResponse<S, T>, ContractError>) -> bool {
    !is_admin(old, sender) ==> (r matches Err(ContractError::Unauthorized) && new == old)
}

/// `r` succeeded with no message and the one log entry `("action", action)`.
pub open spec fn logs_action<S, T>(r: Result<HandleResponse<S, T>, ContractError>, action: Seq<char>) -> bool {
    r matches Ok(resp) && resp.messages@.len() == 0 && resp.log@.len() == 1
        && resp.log@[0].key@ == "action"@ && resp.log@[0].value@ == action
}

/// `r` succeeded with no message and the log `("action", action), ("address", address)`.
pub open spec fn logs_registration<S, T>(r: Result<HandleResponse<S, T>, ContractError>, action: Seq<char>, address: Seq<char>) -> bool {
    r matches Ok(resp) && resp.messages@.len() == 0 && resp.log@.len() == 2
        && resp.log@[0].key@ == "action"@ && resp.log@[0].value@ == action
        && resp.log@[1].key@ == "address"@ && resp.log@[1].value@ == address
}

/// `r` failed with a `GenericErr` whose message is `msg`.
pub open spec fn fails_with<X>(r: Result<X, ContractError>, msg: Seq<char>) -> bool {
    r matches Err(ContractError::GenericErr { msg: m }) && m@ == msg
}

/// The configuration `c` with each given value in place of the old one.
pub open spec fn updated_config(
    c: Config,
    snip20_contract: Option<ContractInstantiationInfo>,
    lp_token_contract: Option<ContractInstantiationInfo>,
    pair_contract: Option<ContractInstantiationInfo>,
    launchpad_contract: Option<ContractInstantiationInfo>,
    ido_contract: Option<ContractInstantiationInfo>,
    exchange_settings: Option<ExchangeSettings>,
) -> Config {
    Config {
        snip20_contract: match snip20_contract { Some(v) => v, None => c.snip20_contract },
        lp_token_contract: match lp_token_contract { Some(v) => v, None => c.lp_token_contract },
        pair_contract: match pair_contract { Some(v) => v, None => c.pair_contract },
        launchpad_contract: match launchpad_contract { Some(v) => v, None => c.launchpad_contract },
        ido_contract: match ido_contract { Some(v) => v, None => c.ido_contract },
        exchange_settings: match exchange_settings { Some(v) => v, None => c.exchange_settings },
    }
}

/// The link through which an instantiated contract calls the factory back.
pub open spec fn own_link(env: Env) -> ContractLink {
    ContractLink { address: env.contract_address, code_hash: env.contract_code_hash }
}

/// `new` is `old` waiting for the signature `sig`, and `sig` is the one made from `env`.
pub open spec fn awaits_signature(old: State, new: State, env: Env, sig: Vec<u8>) -> bool {
    &&& new.ephemeral_signature matches Some(stored) && stored@ == sig@
    &&& sig@ == json_of_bytes(signature_payload(env))
    &&& new == (State { ephemeral_signature: new.ephemeral_signature, ..old })
}

/// How a token is written in labels and logs: its contract address or denomination.
pub open spec fn token_text(t: TokenType) -> Seq<char> {
    match t {
        TokenType::CustomToken { contract_addr, .. } => contract_addr@,
        TokenType::NativeToken { denom } => denom@,
    }
}

/// How a pair is written in logs.
pub open spec fn pair_text(p: TokenPair) -> Seq<char> {
    "Token 1: "@ + token_text(p.0) + " \n Token 2: "@ + token_text(p.1)
}

/// The label of the exchange of `pair` that the factory at `env` creates from code `code_id`.
pub open spec fn exchange_label(pair: TokenPair, env: Env, code_id: u64) -> Seq<char> {
    token_text(pair.0) + "-"@ + token_text(pair.1) + "-pair-"@ + env.contract_address@ + "-"@
        + decimal_digits(code_id as nat)
}

/// The label of an IDO selling the token at `sold_token`, created at `time`.
pub open spec fn ido_label(sold_token: Seq<char>, time: u64) -> Seq<char> {
    "SIENNA IDO for token "@ + sold_token + ", created at "@ + decimal_digits(time as nat)
}

/// The label of a launchpad created at `time`.
pub open spec fn launchpad_label(time: u64) -> Seq<char> {
    "SIENNA Launchpad for IDOs, created at "@ + decimal_digits(time as nat)
}

/// The whitelist request that an IDO gets: one for the launchpad, if there is one
/// and tokens were given.
pub open spec fn whitelist_request(launchpad: Option<ContractLink>, tokens: Option<Vec<Option<String>>>) -> Option<WhitelistRequest> {
    match launchpad {
        Some(l) => match tokens {
            Some(t) => Some(WhitelistRequest { launchpad: l, tokens: t }),
            None => None,
        },
        None => None,
    }
}

/// The first index of an exchange for `pair`.
pub open spec fn first_for_pair(exchanges: Seq<Exchange>, pair: TokenPair, i: int) -> bool {
    &&& 0 <= i < exchanges.len()
    &&& same_pair(exchanges[i].pair, pair)
    &&& forall|j: int| 0 <= j < i ==> !same_pair(#[trigger] exchanges[j].pair, pair)
}

/// The first index, and the index past the last, of the page of a list of `len` items.
pub open spec fn page_start(len: nat, p: Pagination) -> int {
    if p.start >= len { len as int } else { p.start as int }
}

/// The index past the last item of the page.
pub open spec fn page_end(len: nat, p: Pagination) -> int {
    let limit: int = if p.limit <= PAGINATION_LIMIT { p.limit as int } else { PAGINATION_LIMIT as int };
    if p.start >= len { len as int }
    else if p.start + limit <= len { p.start + limit }
    else { len as int }
}

/// The outcome of `SetConfig` by `sender`.
pub open spec fn set_config_outcome<S, T>(old: State, new: State, sender: Seq<char>, msg: HandleMsg<S, T>, r: Result<HandleResponse<S, T>, ContractError>) -> bool {
    &&& admin_only(old, new, sender, r)
    &&& is_admin(old, sender) ==> match msg {
        HandleMsg::SetConfig { snip20_contract, lp_token_contract, pair_contract, launchpad_contract, ido_contract, exchange_settings } => {
            &&& logs_action(r, "set_config"@)
            &&& new == (State { config: updated_config(old.config, snip20_contract, lp_token_contract,
                    pair_contract, launchpad_contract, ido_contract, exchange_settings), ..old })
        },
        _ => false,
    }
}

/// The outcome of `CreateExchange { pair, entropy }` in `env`.
pub open spec fn create_exchange_outcome<S, T>(old: State, new: State, env: Env, pair: TokenPair, entropy: Vec<u8>, r: Result<HandleResponse<S, T>, ContractError>) -> bool {
    if same_token(pair.0, pair.1) {
        fails_with(r, "Cannot create an exchange with the same token."@) && new == old
    } else if pair_registered(old.exchanges@, pair) {
        fails_with(r, "Pair already exists"@) && new == old
    } else {
        &&& r matches Ok(resp)
        &&& resp.messages@.len() == 1
        &&& resp.messages@[0] matches Instantiate::Exchange { code_id, callback_code_hash, label, pair: p,
            lp_token_contract, factory_info, callback, signature, entropy: e, prng_seed }
        &&& code_id == old.config.pair_contract.id
        &&& callback_code_hash == old.config.pair_contract.code_hash
        &&& label@ == exchange_label(pair, env, old.config.pair_contract.id)
        &&& p == pair
        &&& lp_token_contract == old.config.lp_token_contract
        &&& factory_info == own_link(env)
        &&& callback == own_link(env)
        &&& awaits_signature(old, new, env, signature)
        &&& e == entropy
        &&& prng_seed@ == old.prng_seed@
        &&& resp.log@.len() == 2
        &&& resp.log@[0].key@ == "action"@
        &&& resp.log@[0].value@ == "create_exchange"@
        &&& resp.log@[1].key@ == "pair"@
        &&& resp.log@[1].value@ == pair_text(pair)
    }
}

/// The outcome of `RegisterExchange { pair, signature }` sent by `sender`.
pub open spec fn register_exchange_outcome<S, T>(old: State, new: State, sender: String, pair: TokenPair, signature: Vec<u8>, r: Result<HandleResponse<S, T>, ContractError>) -> bool {
    if !expects_signature(old, signature@) {
        r matches Err(ContractError::Unauthorized) && new == old
    } else if pair_registered(old.exchanges@, pair) {
        fails_with(r, "Exchange already exists"@) && new == (State { ephemeral_signature: None, ..old })
    } else {
        &&& logs_registration(r, "register_exchange"@, sender@)
        &&& new.exchanges@ == old.exchanges@.push(Exchange { pair, address: sender })
        &&& new == (State { exchanges: new.exchanges, ephemeral_signature: None, ..old })
    }
}

/// The outcome of `CreateLaunchpad { tokens, entropy }` in `env`.
pub open spec fn create_launchpad_outcome<S, T>(old: State, new: State, env: Env, tokens: Vec<T>, entropy: Vec<u8>, r: Result<HandleResponse<S, T>, ContractError>) -> bool {
    &&& admin_only(old, new, env.sender@, r)
    &&& is_admin(old, env.sender@) ==> if old.launchpad is Some {
        fails_with(r, "Launchpad contract is already created"@) && new == old
    } else {
        &&& r matches Ok(resp)
        &&& resp.messages@.len() == 1
        &&& resp.messages@[0] matches Instantiate::Launchpad { code_id, callback_code_hash, label,
            tokens: t, admin, prng_seed, entropy: e, callback, signature }
        &&& code_id == old.config.launchpad_contract.id
        &&& callback_code_hash == old.config.launchpad_contract.code_hash
        &&& label@ == launchpad_label(env.block_time)
        &&& t == tokens
        &&& admin == env.sender
        &&& prng_seed@ == old.prng_seed@
        &&& e == entropy
        &&& callback == own_link(env)
        &&& awaits_signature(old, new, env, signature)
        &&& resp.log@.len() == 1
        &&& resp.log@[0].key@ == "action"@
        &&& resp.log@[0].value@ == "create_launchpad"@
    }
}

/// The outcome of `RegisterLaunchpad { signature }` sent by `sender`.
pub open spec fn register_launchpad_outcome<S, T>(old: State, new: State, sender: String, signature: Vec<u8>, r: Result<HandleResponse<S, T>, ContractError>) -> bool {
    if !expects_signature(old, signature@) {
        r matches Err(ContractError::Unauthorized) && new == old
    } else {
        &&& logs_registration(r, "register_launchpad"@, sender@)
        &&& new == (State {
            launchpad: Some(ContractLink { address: sender, code_hash: old.config.launchpad_contract.code_hash }),
            ephemeral_signature: None,
            ..old
        })
    }
}

/// `new_list` is `old_list` without `who` when `who` was on it, else `old_list` itself.
pub open spec fn left_whitelist(old_list: Vec<String>, new_list: Vec<String>, who: String) -> bool {
    &&& new_list@ == without(old_list@, seq![who])
    &&& listed(old_list@, who@) ==> forall|a: Seq<char>| #[trigger] listed(new_list@, a)
        <==> listed(old_list@, a) && a != who@
    &&& !listed(old_list@, who@) ==> new_list == old_list
}

/// The outcome of `CreateIdo { info, tokens, entropy }` in `env`.
pub open spec fn create_ido_outcome<S, T>(old: State, new: State, env: Env, info: TokenSaleConfig<S>, tokens: Option<Vec<Option<String>>>, entropy: Vec<u8>, r: Result<HandleResponse<S, T>, ContractError>) -> bool {
    if !listed(old.ido_whitelist@, env.sender@) && !is_admin(old, env.sender@) {
        r matches Err(ContractError::Unauthorized) && new == old
    } else {
        &&& left_whitelist(old.ido_whitelist, new.ido_whitelist, env.sender)
        &&& r matches Ok(resp)
        &&& resp.messages@.len() == 1
        &&& resp.messages@[0] matches Instantiate::Ido { code_id, callback_code_hash, label, admin,
            info: i, prng_seed, entropy: e, launchpad, callback, signature }
        &&& code_id == old.config.ido_contract.id
        &&& callback_code_hash == old.config.ido_contract.code_hash
        &&& label@ == ido_label(info.sold_token.address@, env.block_time)
        &&& admin == env.sender
        &&& i == info
        &&& prng_seed@ == old.prng_seed@
        &&& e == entropy
        &&& launchpad == whitelist_request(old.launchpad, tokens)
        &&& callback == own_link(env)
        &&& new.ephemeral_signature matches Some(stored) && stored@ == signature@
        &&& signature@ == json_of_bytes(signature_payload(env))
        &&& new == (State { ido_whitelist: new.ido_whitelist, ephemeral_signature: new.ephemeral_signature, ..old })
        &&& resp.log@.len() == 1
        &&& resp.log@[0].key@ == "action"@
        &&& resp.log@[0].value@ == "create_ido"@
    }
}

/// The outcome of `RegisterIdo { signature }` sent by `sender`.
pub open spec fn register_ido_outcome<S, T>(old: State, new: State, sender: String, signature: Vec<u8>, r: Result<HandleResponse<S, T>, ContractError>) -> bool {
    if !expects_signature(old, signature@) {
        r matches Err(ContractError::Unauthorized) && new == old
    } else {
        &&& logs_registration(r, "register_ido"@, sender@)
        &&& new.idos@ == old.idos@.push(sender)
        &&& new == (State { idos: new.idos, ephemeral_signature: None, ..old })
    }
}

/// The outcome of `IdoWhitelist { addresses }` sent by `sender`.
pub open spec fn ido_whitelist_outcome<S, T>(old: State, new: State, sender: Seq<char>, addresses: Vec<String>, r: Result<HandleResponse<S, T>, ContractError>) -> bool {
    &&& admin_only(old, new, sender, r)
    &&& is_admin(old, sender) ==> {
        &&& logs_action(r, "ido_whitelist"@)
        &&& new.ido_whitelist@ == with_added(old.ido_whitelist@, addresses@)
        &&& forall|a: Seq<char>| #[trigger] listed(new.ido_whitelist@, a)
            <==> listed(old.ido_whitelist@, a) || listed(addresses@, a)
        &&& new == (State { ido_whitelist: new.ido_whitelist, ..old })
    }
}

/// The outcome of `AddExchanges { exchanges }` sent by `sender`: the exchanges are
/// stored one after the other; one whose pair is registered by then stops the
/// storing with an error, the ones before it staying stored.
pub open spec fn add_exchanges_outcome<S, T>(old: State, new: State, sender: Seq<char>, exchanges: Vec<Exchange>, r: Result<HandleResponse<S, T>, ContractError>) -> bool {
    &&& admin_only(old, new, sender, r)
    &&& is_admin(old, sender) ==> {
        &&& new == (State { exchanges: new.exchanges, ..old })
        &&& storable(old.exchanges@, exchanges@) ==> logs_action(r, "add_exchanges"@)
            && new.exchanges@ == old.exchanges@ + exchanges@
        &&& !storable(old.exchanges@, exchanges@) ==> fails_with(r, "Exchange already exists"@)
            && exists|k: int| clash_at(old.exchanges@, exchanges@, k)
                && new.exchanges@ == old.exchanges@ + exchanges@.subrange(0, k)
    }
}

/// The outcome of `AddIdos { idos }` sent by `sender`.
pub open spec fn add_idos_outcome<S, T>(old: State, new: State, sender: Seq<char>, idos: Vec<String>, r: Result<HandleResponse<S, T>, ContractError>) -> bool {
    &&& admin_only(old, new, sender, r)
    &&& is_admin(old, sender) ==> {
        &&& logs_action(r, "add_idos"@)
        &&& new.idos@ == old.idos@ + idos@
        &&& new == (State { idos: new.idos, ..old })
    }
}

/// The outcome of `AddLaunchpad { launchpad }` sent by `sender`.
pub open spec fn add_launchpad_outcome<S, T>(old: State, new: State, sender: Seq<char>, launchpad: ContractLink, r: Result<HandleResponse<S, T>, ContractError>) -> bool {
    &&& admin_only(old, new, sender, r)
    &&& is_admin(old, sender) ==> if old.launchpad is Some {
        fails_with(r, "Launchpad contract is already created"@) && new == old
    } else {
        logs_action(r, "add_launchpad"@) && new == (State { launchpad: Some(launchpad), ..old })
    }
}

/// Whether the two pairs name the same two tokens, in either order.
pub fn same_pair_exec(p: &TokenPair, q: &TokenPair) -> (r: bool)
    ensures
        r == same_pair(*p, *q),
{
    (p.0.same_id(&q.0) && p.1.same_id(&q.1)) || (p.0.same_id(&q.1) && p.1.same_id(&q.0))
}

/// Whether an exchange for `pair` is registered.
pub fn pair_exists(exchanges: &Vec<Exchange>, pair: &TokenPair) -> (r: bool)
    ensures
        r == pair_registered(exchanges@, *pair),
{
    let n = exchanges.len();
    let mut i: usize = 0;
    while i < n
        invariant
            n == exchanges@.len(),
            0 <= i <= n,
            forall|j: int| 0 <= j < i ==> !same_pair(#[trigger] exchanges@[j].pair, *pair),
        decreases n - i,
    {
        if same_pair_exec(&exchanges[i].pair, pair) {
            return true;
        }
        i = i + 1;
    }
    false
}

/// Stores the given exchanges one after the other; one whose pair is registered
/// by then stops the storing with an error, the ones before it staying stored.
pub fn store_exchanges(exchanges: &mut Vec<Exchange>, new: Vec<Exchange>) -> (r: Result<(), ContractError>)
    ensures
        storable(old(exchanges)@, new@) ==> r is Ok && final(exchanges)@ == old(exchanges)@ + new@,
        !storable(old(exchanges)@, new@) ==> fails_with(r, "Exchange already exists"@)
            && exists|k: int| clash_at(old(exchanges)@, new@, k)
                && final(exchanges)@ == old(exchanges)@ + new@.subrange(0, k),
{
    let n = new.len();
    let mut i: usize = 0;
    while i < n
        invariant
            n == new@.len(),
            0 <= i <= n,
            exchanges@ == old(exchanges)@ + new@.subrange(0, i as int),
            storable_upto(old(exchanges)@, new@, i as int),
        decreases n - i,
    {
        if pair_exists(exchanges, &new[i].pair) {
            proof {
                assert(clash_at(old(exchanges)@, new@, i as int));
            }
            return Err(generic_err("Exchange already exists"));
        }
        exchanges.push(new[i].copy());
        proof {
            assert(exchanges@ =~= old(exchanges)@ + new@.subrange(0, i + 1));
            assert forall|j: int| 0 <= j < i + 1 implies
                !pair_registered(old(exchanges)@ + new@.subrange(0, j), #[trigger] new@[j].pair) by {
                if j < i {
                    assert(storable_upto(old(exchanges)@, new@, i as int));
                }
            }
        }
        i = i + 1;
    }
    assert(new@.subrange(0, n as int) =~= new@);
    Ok(())
}

/// The signature of a creation in `env`: the JSON encoding of the sender's address
/// followed by the block's height and time in big-endian bytes.
pub fn create_signature(env: &Env) -> (r: Result<Vec<u8>, ContractError>)
    ensures
        r matches Ok(sig) && sig@ == json_of_bytes(signature_payload(*env)),
{
    let mut payload: Vec<u8> = Vec::new();
    push_slice(&mut payload, env.sender.as_str().as_bytes());
    push_be_bytes(&mut payload, env.block_height);
    push_be_bytes(&mut payload, env.block_time);
    assert(payload@ == signature_payload(*env));
    match bytes_to_binary(&payload) {
        Ok(sig) => Ok(sig),
        Err(e) => Err(ContractError::SerializeErr { msg: std_error_message(&e) }),
    }
}

/// Whether `signature` is the one that the factory waits for (an empty one when it
/// waits for none).
fn signature_matches(state: &State, signature: &Vec<u8>) -> (r: bool)
    ensures
        r == expects_signature(*state, signature@),
{
    match &state.ephemeral_signature {
        Some(stored) => bytes_eq(stored, signature),
        None => false,
    }
}

/// Consumes the stored signature if `signature` is it; refuses as unauthorized
/// otherwise, and always when no signature is pending.
pub fn ensure_correct_signature(state: &mut State, signature: Vec<u8>) -> (r: Result<(), ContractError>)
    ensures
        expects_signature(*old(state), signature@) ==> r is Ok
            && *final(state) == (State { ephemeral_signature: None, ..*old(state) }),
        !expects_signature(*old(state), signature@) ==> (r matches Err(ContractError::Unauthorized))
            && *final(state) == *old(state),
{
    if !signature_matches(state, &signature) {
        return Err(ContractError::Unauthorized);
    }
    state.ephemeral_signature = None;
    Ok(())
}

fn respond_action<S, T>(action: &str) -> (r: HandleResponse<S, T>)
    ensures
        logs_action(Ok::<HandleResponse<S, T>, ContractError>(r), action@),
{
    let mut logs: Vec<LogAttribute> = Vec::new();
    logs.push(log_action(action));
    HandleResponse { messages: Vec::new(), log: logs }
}

fn respond_registration<S, T>(action: &str, address: &String) -> (r: HandleResponse<S, T>)
    ensures
        logs_registration(Ok::<HandleResponse<S, T>, ContractError>(r), action@, address@),
{
    let mut logs: Vec<LogAttribute> = Vec::new();
    logs.push(log_action(action));
    logs.push(log("address", address.clone()));
    HandleResponse { messages: Vec::new(), log: logs }
}

fn own_link_exec(env: &Env) -> (r: ContractLink)
    ensures
        r == own_link(*env),
{
    ContractLink { address: env.contract_address.clone(), code_hash: env.contract_code_hash.clone() }
}

/// Instantiates the factory: the admin is the given one or else the sender.
pub fn init(env: &Env, msg: InitMsg) -> (s: State)
    ensures
        msg.admin matches Some(a) ==> s.admin == a,
        msg.admin is None ==> s.admin == env.sender,
        s.prng_seed == msg.prng_seed,
        s.config == (Config {
            snip20_contract: msg.snip20_contract,
            lp_token_contract: msg.lp_token_contract,
            pair_contract: msg.pair_contract,
            launchpad_contract: msg.launchpad_contract,
            ido_contract: msg.ido_contract,
            exchange_settings: msg.exchange_settings,
        }),
        s.exchanges@.len() == 0,
        s.idos@.len() == 0,
        s.ido_whitelist@.len() == 0,
        s.launchpad is None,
        s.ephemeral_signature is None,
{
    let admin = match &msg.admin {
        Some(a) => a.clone(),
        None => env.sender.clone(),
    };
    let InitMsg { snip20_contract, lp_token_contract, pair_contract, launchpad_contract, ido_contract, exchange_settings, admin: _, prng_seed } = msg;
    let config = Config { snip20_contract, lp_token_contract, pair_contract, launchpad_contract, ido_contract, exchange_settings };
    State {
        admin,
        config,
        prng_seed,
        exchanges: Vec::new(),
        idos: Vec::new(),
        ido_whitelist: Vec::new(),
        launchpad: None,
        ephemeral_signature: None,
    }
}

/// Replaces each configuration value that the message gives; admin only.
pub fn set_config<S, T>(state: &mut State, env: &Env, msg: HandleMsg<S, T>) -> (r: Result<HandleResponse<S, T>, ContractError>)
    requires
        msg is SetConfig,
    ensures
        set_config_outcome(*old(state), *final(state), env.sender@, msg, r),
{
    if state.admin != env.sender {
        return Err(ContractError::Unauthorized);
    }
    match msg {
        HandleMsg::SetConfig { snip20_contract, lp_token_contract, pair_contract, launchpad_contract, ido_contract, exchange_settings } => {
            if let Some(v) = snip20_contract {
                state.config.snip20_contract = v;
            }
            if let Some(v) = lp_token_contract {
                state.config.lp_token_contract = v;
            }
            if let Some(v) = pair_contract {
                state.config.pair_contract = v;
            }
            if let Some(v) = launchpad_contract {
                state.config.launchpad_contract = v;
            }
            if let Some(v) = ido_contract {
                state.config.ido_contract = v;
            }
            if let Some(v) = exchange_settings {
                state.config.exchange_settings = v;
            }
            Ok(respond_action("set_config"))
        },
        _ => {
            assert(false);
            Err(ContractError::Unauthorized)
        },
    }
}

/// Answers `GetConfig` with the whole configuration.
pub fn get_config(state: &State) -> (r: QueryResponse)
    ensures
        r == (QueryResponse::Config {
            snip20_contract: state.config.snip20_contract,
            lp_token_contract: state.config.lp_token_contract,
            pair_contract: state.config.pair_contract,
            launchpad_contract: state.config.launchpad_contract,
            ido_contract: state.config.ido_contract,
            exchange_settings: state.config.exchange_settings,
        }),
{
    QueryResponse::Config {
        snip20_contract: state.config.snip20_contract.copy(),
        lp_token_contract: state.config.lp_token_contract.copy(),
        pair_contract: state.config.pair_contract.copy(),
        launchpad_contract: state.config.launchpad_contract.copy(),
        ido_contract: state.config.ido_contract.copy(),
        exchange_settings: state.config.exchange_settings.copy(),
    }
}

/// Asks for an exchange of `pair` to be instantiated and waits for it to register
/// with the signature made here.
pub fn create_exchange<S, T>(state: &mut State, env: &Env, pair: TokenPair, entropy: Vec<u8>) -> (r: Result<HandleResponse<S, T>, ContractError>)
    ensures
        create_exchange_outcome(*old(state), *final(state), *env, pair, entropy, r),
{
    if pair.0.same_as(&pair.1) {
        return Err(generic_err("Cannot create an exchange with the same token."));
    }
    if pair_exists(&state.exchanges, &pair) {
        return Err(generic_err("Pair already exists"));
    }
    let signature = create_signature(env)?;
    state.ephemeral_signature = Some(copy_bytes(&signature));
    let mut messages: Vec<Instantiate<S, T>> = Vec::new();
    let label = make_exchange_label(&pair, env, state.config.pair_contract.id);
    let pair_log = log("pair", pair_text_exec(&pair));
    messages.push(Instantiate::Exchange {
        code_id: state.config.pair_contract.id,
        callback_code_hash: state.config.pair_contract.code_hash.clone(),
        label,
        pair,
        lp_token_contract: state.config.lp_token_contract.copy(),
        factory_info: own_link_exec(env),
        callback: own_link_exec(env),
        signature,
        entropy,
        prng_seed: copy_bytes(&state.prng_seed),
    });
    let mut logs: Vec<LogAttribute> = Vec::new();
    logs.push(log_action("create_exchange"));
    logs.push(pair_log);
    Ok(HandleResponse { messages, log: logs })
}

/// Registers the exchange that the sender is, once it hands back the awaited signature.
pub fn register_exchange<S, T>(state: &mut State, env: &Env, pair: TokenPair, signature: Vec<u8>) -> (r: Result<HandleResponse<S, T>, ContractError>)
    ensures
        register_exchange_outcome(*old(state), *final(state), env.sender, pair, signature, r),
{
    ensure_correct_signature(state, signature)?;
    if pair_exists(&state.exchanges, &pair) {
        return Err(generic_err("Exchange already exists"));
    }
    state.exchanges.push(Exchange { pair, address: env.sender.clone() });
    Ok(respond_registration("register_exchange", &env.sender))
}

/// Answers `GetExchangeAddress`: the address of the first exchange registered for `pair`.
pub fn query_exchange_address(state: &State, pair: TokenPair) -> (r: Result<QueryResponse, ContractError>)
    ensures
        !pair_registered(state.exchanges@, pair) ==> fails_with(r, "Address doesn't exist in storage."@),
        pair_registered(state.exchanges@, pair) ==> (r matches Ok(QueryResponse::GetExchangeAddress { address })
            && exists|i: int| first_for_pair(state.exchanges@, pair, i)
                && address == #[trigger] state.exchanges@[i].address),
{
    let n = state.exchanges.len();
    let mut i: usize = 0;
    while i < n
        invariant
            n == state.exchanges@.len(),
            0 <= i <= n,
            forall|j: int| 0 <= j < i ==> !same_pair(#[trigger] state.exchanges@[j].pair, pair),
        decreases n - i,
    {
        if same_pair_exec(&state.exchanges[i].pair, &pair) {
            proof {
                assert(first_for_pair(state.exchanges@, pair, i as int));
            }
            return Ok(QueryResponse::GetExchangeAddress { address: state.exchanges[i].address.clone() });
        }
        i = i + 1;
    }
    Err(generic_err("Address doesn't exist in storage."))
}

/// Appends how `t` is written in labels and logs.
fn push_token_text(out: &mut String, t: &TokenType)
    ensures
        final(out)@ == old(out)@ + token_text(*t),
{
    match t {
        TokenType::CustomToken { contract_addr, .. } => out.append(contract_addr.as_str()),
        TokenType::NativeToken { denom } => out.append(denom.as_str()),
    }
}

/// How `pair` is written in logs.
pub fn pair_text_exec(pair: &TokenPair) -> (r: String)
    ensures
        r@ == pair_text(*pair),
{
    let mut text = String::from_str("Token 1: ");
    push_token_text(&mut text, &pair.0);
    text.append(" \n Token 2: ");
    push_token_text(&mut text, &pair.1);
    text
}

fn make_exchange_label(pair: &TokenPair, env: &Env, code_id: u64) -> (r: String)
    ensures
        r@ == exchange_label(*pair, *env, code_id),
{
    let mut label = String::new();
    push_token_text(&mut label, &pair.0);
    label.append("-");
    push_token_text(&mut label, &pair.1);
    label.append("-pair-");
    label.append(env.contract_address.as_str());
    label.append("-");
    push_decimal(&mut label, code_id as u128);
    label
}

fn make_ido_label(sold_token: &String, time: u64) -> (r: String)
    ensures
        r@ == ido_label(sold_token@, time),
{
    let mut label = String::from_str("SIENNA IDO for token ");
    label.append(sold_token.as_str());
    label.append(", created at ");
    push_decimal(&mut label, time as u128);
    label
}

fn make_launchpad_label(time: u64) -> (r: String)
    ensures
        r@ == launchpad_label(time),
{
    let mut label = String::from_str("SIENNA Launchpad for IDOs, created at ");
    push_decimal(&mut label, time as u128);
    label
}

/// Asks for the launchpad to be instantiated, unless there is one; admin only.
pub fn create_launchpad<S, T>(state: &mut State, env: &Env, tokens: Vec<T>, entropy: Vec<u8>) -> (r: Result<HandleResponse<S, T>, ContractError>)
    ensures
        create_launchpad_outcome(*old(state), *final(state), *env, tokens, entropy, r),
{
    if state.admin != env.sender {
        return Err(ContractError::Unauthorized);
    }
    if state.launchpad.is_some() {
        return Err(generic_err("Launchpad contract is already created"));
    }
    let signature = create_signature(env)?;
    state.ephemeral_signature = Some(copy_bytes(&signature));
    let mut messages: Vec<Instantiate<S, T>> = Vec::new();
    messages.push(Instantiate::Launchpad {
        code_id: state.config.launchpad_contract.id,
        callback_code_hash: state.config.launchpad_contract.code_hash.clone(),
        label: make_launchpad_label(env.block_time),
        tokens,
        admin: env.sender.clone(),
        prng_seed: copy_bytes(&state.prng_seed),
        entropy,
        callback: own_link_exec(env),
        signature,
    });
    let mut logs: Vec<LogAttribute> = Vec::new();
    logs.push(log_action("create_launchpad"));
    Ok(HandleResponse { messages, log: logs })
}

/// Registers the launchpad that the sender is, once it hands back the awaited signature.
pub fn register_launchpad<S, T>(state: &mut State, env: &Env, signature: Vec<u8>) -> (r: Result<HandleResponse<S, T>, ContractError>)
    ensures
        register_launchpad_outcome(*old(state), *final(state), env.sender, signature, r),
{
    ensure_correct_signature(state, signature)?;
    state.launchpad = Some(ContractLink {
        address: env.sender.clone(),
        code_hash: state.config.launchpad_contract.code_hash.clone(),
    });
    Ok(respond_registration("register_launchpad", &env.sender))
}

/// Asks for an IDO to be instantiated; the admin may always ask, a whitelisted
/// address once (it leaves the whitelist).
pub fn create_ido<S, T>(state: &mut State, env: &Env, info: TokenSaleConfig<S>, tokens: Option<Vec<Option<String>>>, entropy: Vec<u8>) -> (r: Result<HandleResponse<S, T>, ContractError>)
    ensures
        create_ido_outcome(*old(state), *final(state), *env, info, tokens, entropy, r),
{
    let whitelisted = contains(&state.ido_whitelist, &env.sender);
    let is_admin = state.admin == env.sender;
    if !whitelisted && !is_admin {
        return Err(ContractError::Unauthorized);
    }
    if whitelisted {
        let mut leaving: Vec<String> = Vec::new();
        leaving.push(env.sender.clone());
        unregister_all(&mut state.ido_whitelist, &leaving);
        proof {
            assert(leaving@ =~= seq![env.sender]);
            assert forall|a: Seq<char>| listed(leaving@, a) <==> a == env.sender@ by {
                if a == env.sender@ {
                    assert(leaving@[0]@ == a);
                }
            }
        }
    } else {
        proof {
            let who = seq![env.sender];
            assert forall|i: int| 0 <= i < old(state).ido_whitelist@.len()
                implies !listed(who, #[trigger] old(state).ido_whitelist@[i]@) by {
                if listed(who, old(state).ido_whitelist@[i]@) {
                    let j = choose|j: int| 0 <= j < who.len() && #[trigger] who[j]@ == old(state).ido_whitelist@[i]@;
                    assert(who[j] == env.sender);
                }
            }
            without_unlisted(old(state).ido_whitelist@, who);
        }
    }
    let signature = create_signature(env)?;
    state.ephemeral_signature = Some(copy_bytes(&signature));
    let launchpad = match &state.launchpad {
        Some(l) => match tokens {
            Some(t) => Some(WhitelistRequest { launchpad: l.copy(), tokens: t }),
            None => None,
        },
        None => None,
    };
    let mut messages: Vec<Instantiate<S, T>> = Vec::new();
    let label = make_ido_label(&info.sold_token.address, env.block_time);
    messages.push(Instantiate::Ido {
        code_id: state.config.ido_contract.id,
        callback_code_hash: state.config.ido_contract.code_hash.clone(),
        label,
        admin: env.sender.clone(),
        info,
        prng_seed: copy_bytes(&state.prng_seed),
        entropy,
        launchpad,
        callback: own_link_exec(env),
        signature,
    });
    let mut logs: Vec<LogAttribute> = Vec::new();
    logs.push(log_action("create_ido"));
    Ok(HandleResponse { messages, log: logs })
}

/// Registers the IDO that the sender is, once it hands back the awaited signature.
pub fn register_ido<S, T>(state: &mut State, env: &Env, signature: Vec<u8>) -> (r: Result<HandleResponse<S, T>, ContractError>)
    ensures
        register_ido_outcome(*old(state), *final(state), env.sender, signature, r),
{
    ensure_correct_signature(state, signature)?;
    state.idos.push(env.sender.clone());
    Ok(respond_registration("register_ido", &env.sender))
}

/// Lets the given addresses create one IDO each; admin only.
pub fn ido_whitelist<S, T>(state: &mut State, env: &Env, addresses: Vec<String>) -> (r: Result<HandleResponse<S, T>, ContractError>)
    ensures
        ido_whitelist_outcome(*old(state), *final(state), env.sender@, addresses, r),
{
    if state.admin != env.sender {
        return Err(ContractError::Unauthorized);
    }
    register_all(&mut state.ido_whitelist, &addresses);
    Ok(respond_action("ido_whitelist"))
}

/// Registers exchanges made elsewhere; admin only.
pub fn add_exchanges<S, T>(state: &mut State, env: &Env, exchanges: Vec<Exchange>) -> (r: Result<HandleResponse<S, T>, ContractError>)
    ensures
        add_exchanges_outcome(*old(state), *final(state), env.sender@, exchanges, r),
{
    if state.admin != env.sender {
        return Err(ContractError::Unauthorized);
    }
    store_exchanges(&mut state.exchanges, exchanges)?;
    Ok(respond_action("add_exchanges"))
}

/// Registers IDOs made elsewhere; admin only.
pub fn add_idos<S, T>(state: &mut State, env: &Env, idos: Vec<String>) -> (r: Result<HandleResponse<S, T>, ContractError>)
    ensures
        add_idos_outcome(*old(state), *final(state), env.sender@, idos, r),
{
    if state.admin != env.sender {
        return Err(ContractError::Unauthorized);
    }
    append_all(&mut state.idos, &idos);
    Ok(respond_action("add_idos"))
}

/// Registers a launchpad made elsewhere, unless there is one; admin only.
pub fn add_launchpad<S, T>(state: &mut State, env: &Env, launchpad: ContractLink) -> (r: Result<HandleResponse<S, T>, ContractError>)
    ensures
        add_launchpad_outcome(*old(state), *final(state), env.sender@, launchpad, r),
{
    if state.admin != env.sender {
        return Err(ContractError::Unauthorized);
    }
    if state.launchpad.is_some() {
        return Err(generic_err("Launchpad contract is already created"));
    }
    state.launchpad = Some(launchpad);
    Ok(respond_action("add_launchpad"))
}

fn page_bounds(len: usize, p: Pagination) -> (r: (usize, usize))
    ensures
        r.0 == page_start(len as nat, p),
        r.1 == page_end(len as nat, p),
        r.0 <= r.1 <= len,
{
    if p.start >= len as u64 {
        return (len, len);
    }
    let limit: u64 = if p.limit <= PAGINATION_LIMIT { p.limit as u64 } else { PAGINATION_LIMIT as u64 };
    let start = p.start as usize;
    if limit <= len as u64 - p.start {
        (start, (p.start + limit) as usize)
    } else {
        (start, len)
    }
}

/// Answers `ListIdos` with the requested page of the registered IDOs.
pub fn list_idos(state: &State, pagination: Pagination) -> (r: QueryResponse)
    ensures
        r matches QueryResponse::ListIdos { idos } && idos@ == state.idos@.subrange(
            page_start(state.idos@.len(), pagination), page_end(state.idos@.len(), pagination)),
{
    let (start, end) = page_bounds(state.idos.len(), pagination);
    let mut idos: Vec<String> = Vec::new();
    let mut i = start;
    while i < end
        invariant
            start <= i <= end <= state.idos@.len(),
            idos@ == state.idos@.subrange(start as int, i as int),
        decreases end - i,
    {
        idos.push(state.idos[i].clone());
        i = i + 1;
        assert(idos@ =~= state.idos@.subrange(start as int, i as int));
    }
    QueryResponse::ListIdos { idos }
}

/// Answers `ListExchanges` with the requested page of the registered exchanges.
pub fn list_exchanges(state: &State, pagination: Pagination) -> (r: QueryResponse)
    ensures
        r matches QueryResponse::ListExchanges { exchanges } && exchanges@ == state.exchanges@.subrange(
            page_start(state.exchanges@.len(), pagination), page_end(state.exchanges@.len(), pagination)),
{
    let (start, end) = page_bounds(state.exchanges.len(), pagination);
    let mut exchanges: Vec<Exchange> = Vec::new();
    let mut i = start;
    while i < end
        invariant
            start <= i <= end <= state.exchanges@.len(),
            exchanges@ == state.exchanges@.subrange(start as int, i as int),
        decreases end - i,
    {
        exchanges.push(state.exchanges[i].copy());
        i = i + 1;
        assert(exchanges@ =~= state.exchanges@.subrange(start as int, i as int));
    }
    QueryResponse::ListExchanges { exchanges }
}

/// Answers `GetLaunchpadAddress`, or fails when there is no launchpad yet.
pub fn get_launchpad_address(state: &State) -> (r: Result<QueryResponse, ContractError>)
    ensures
        state.launchpad matches Some(l) ==> r == Ok::<QueryResponse, ContractError>(
            QueryResponse::GetLaunchpadAddress { address: l.address }),
        state.launchpad is None ==> fails_with(r, "Launchpad contract hasn't been created yet"@),
{
    match &state.launchpad {
        Some(l) => Ok(QueryResponse::GetLaunchpadAddress { address: l.address.clone() }),
        None => Err(generic_err("Launchpad contract hasn't been created yet")),
    }
}

/// Answers `GetExchangeSettings`.
pub fn query_exchange_settings(state: &State) -> (r: QueryResponse)
    ensures
        r == (QueryResponse::GetExchangeSettings { settings: state.config.exchange_settings }),
{
    QueryResponse::GetExchangeSettings { settings: state.config.exchange_settings.copy() }
}

/// Handles a message: dispatches it to the operation that it names.
pub fn handle<S, T>(state: &mut State, env: &Env, msg: HandleMsg<S, T>) -> (r: Result<HandleResponse<S, T>, ContractError>)
    ensures
        match msg {
            HandleMsg::SetConfig { .. } => set_config_outcome(*old(state), *final(state), env.sender@, msg, r),
            HandleMsg::IdoWhitelist { addresses } => ido_whitelist_outcome(*old(state), *final(state), env.sender@, addresses, r),
            HandleMsg::CreateExchange { pair, entropy } => create_exchange_outcome(*old(state), *final(state), *env, pair, entropy, r),
            HandleMsg::CreateLaunchpad { tokens, entropy } => create_launchpad_outcome(*old(state), *final(state), *env, tokens, entropy, r),
            HandleMsg::RegisterLaunchpad { signature } => register_launchpad_outcome(*old(state), *final(state), env.sender, signature, r),
            HandleMsg::CreateIdo { info, tokens, entropy } => create_ido_outcome(*old(state), *final(state), *env, info, tokens, entropy, r),
            HandleMsg::RegisterIdo { signature } => register_ido_outcome(*old(state), *final(state), env.sender, signature, r),
            HandleMsg::RegisterExchange { pair, signature } => register_exchange_outcome(*old(state), *final(state), env.sender, pair, signature, r),
            HandleMsg::AddExchanges { exchanges } => add_exchanges_outcome(*old(state), *final(state), env.sender@, exchanges, r),
            HandleMsg::AddIdos { idos } => add_idos_outcome(*old(state), *final(state), env.sender@, idos, r),
            HandleMsg::AddLaunchpad { launchpad } => add_launchpad_outcome(*old(state), *final(state), env.sender@, launchpad, r),
        },
{
    match msg {
        HandleMsg::SetConfig { .. } => set_config(state, env, msg),
        HandleMsg::IdoWhitelist { addresses } => ido_whitelist(state, env, addresses),
        HandleMsg::CreateExchange { pair, entropy } => create_exchange(state, env, pair, entropy),
        HandleMsg::CreateLaunchpad { tokens, entropy } => create_launchpad(state, env, tokens, entropy),
        HandleMsg::RegisterLaunchpad { signature } => register_launchpad(state, env, signature),
        HandleMsg::CreateIdo { info, tokens, entropy } => create_ido(state, env, info, tokens, entropy),
        HandleMsg::RegisterIdo { signature } => register_ido(state, env, signature),
        HandleMsg::RegisterExchange { pair, signature } => register_exchange(state, env, pair, signature),
        HandleMsg::AddExchanges { exchanges } => add_exchanges(state, env, exchanges),
        HandleMsg::AddIdos { idos } => add_idos(state, env, idos),
        HandleMsg::AddLaunchpad { launchpad } => add_launchpad(state, env, launchpad),
    }
}

/// Answers a query.
pub fn query(state: &State, msg: QueryMsg) -> (r: Result<QueryResponse, ContractError>)
    ensures
        match msg {
            QueryMsg::GetConfig => r == Ok::<QueryResponse, ContractError>(QueryResponse::Config {
                snip20_contract: state.config.snip20_contract,
                lp_token_contract: state.config.lp_token_contract,
                pair_contract: state.config.pair_contract,
                launchpad_contract: state.config.launchpad_contract,
                ido_contract: state.config.ido_contract,
                exchange_settings: state.config.exchange_settings,
            }),
            QueryMsg::GetExchangeAddress { pair } => {
                &&& !pair_registered(state.exchanges@, pair) ==> fails_with(r, "Address doesn't exist in storage."@)
                &&& pair_registered(state.exchanges@, pair) ==> (r matches Ok(QueryResponse::GetExchangeAddress { address })
                    && exists|i: int| first_for_pair(state.exchanges@, pair, i)
                        && address == #[trigger] state.exchanges@[i].address)
            },
            QueryMsg::ListExchanges { pagination } => r matches Ok(QueryResponse::ListExchanges { exchanges })
                && exchanges@ == state.exchanges@.subrange(page_start(state.exchanges@.len(), pagination),
                    page_end(state.exchanges@.len(), pagination)),
            QueryMsg::ListIdos { pagination } => r matches Ok(QueryResponse::ListIdos { idos })
                && idos@ == state.idos@.subrange(page_start(state.idos@.len(), pagination),
                    page_end(state.idos@.len(), pagination)),
            QueryMsg::GetLaunchpadAddress => {
                &&& state.launchpad matches Some(l) ==> r == Ok::<QueryResponse, ContractError>(
                    QueryResponse::GetLaunchpadAddress { address: l.address })
                &&& state.launchpad is None ==> fails_with(r, "Launchpad contract hasn't been created yet"@)
            },
            QueryMsg::GetExchangeSettings => r == Ok::<QueryResponse, ContractError>(
                QueryResponse::GetExchangeSettings { settings: state.config.exchange_settings }),
        },
{
    match msg {
        QueryMsg::GetConfig => Ok(get_config(state)),
        QueryMsg::GetExchangeAddress { pair } => query_exchange_address(state, pair),
        QueryMsg::ListExchanges { pagination } => Ok(list_exchanges(state, pagination)),
        QueryMsg::ListIdos { pagination } => Ok(list_idos(state, pagination)),
        QueryMsg::GetLaunchpadAddress => get_launchpad_address(state),
        QueryMsg::GetExchangeSettings => Ok(query_exchange_settings(state)),
    }
}

/// An exchange that the factory asked for registers when it hands back the
/// signature that it was instantiated with, whatever its address: the exchange is
/// recorded and the signature is consumed.
pub proof fn exchange_handshake<S, T>(
    s0: State, s1: State, s2: State,
    env: Env, pair: TokenPair, entropy: Vec<u8>,
    r1: Result<HandleResponse<S, T>, ContractError>,
    sender: String, sig: Vec<u8>,
    r2: Result<HandleResponse<S, T>, ContractError>,
)
    requires
        create_exchange_outcome(s0, s1, env, pair, entropy, r1),
        r1 is Ok,
        r1->Ok_0.messages@[0] matches Instantiate::Exchange { signature, .. } && signature@ == sig@,
        register_exchange_outcome(s1, s2, sender, pair, sig, r2),
    ensures
        r2 is Ok,
        s2.exchanges@ == s0.exchanges@.push(Exchange { pair, address: sender }),
        s2.ephemeral_signature is None,
{
}

/// Contracts register only through a creation: while no creation awaits its
/// callback, every registration of an exchange, the launchpad or an IDO is
/// refused, whatever signature it hands back, and changes nothing.
pub proof fn registration_needs_pending_creation<S, T>(
    s: State, s1: State, s2: State, s3: State,
    sender: String, pair: TokenPair, sig: Vec<u8>,
    r1: Result<HandleResponse<S, T>, ContractError>,
    r2: Result<HandleResponse<S, T>, ContractError>,
    r3: Result<HandleResponse<S, T>, ContractError>,
)
    requires
        s.ephemeral_signature is None,
        register_exchange_outcome(s, s1, sender, pair, sig, r1),
        register_launchpad_outcome(s, s2, sender, sig, r2),
        register_ido_outcome(s, s3, sender, sig, r3),
    ensures
        r1 matches Err(ContractError::Unauthorized) && s1 == s,
        r2 matches Err(ContractError::Unauthorized) && s2 == s,
        r3 matches Err(ContractError::Unauthorized) && s3 == s,
{
}

/// A signature is good for one registration: once a registration was accepted,
/// every further one is refused and changes nothing until the next creation.
pub proof fn signature_used_once<S, T>(
    s1: State, s2: State, s3: State,
    sender: String, pair: TokenPair, sig: Vec<u8>,
    r2: Result<HandleResponse<S, T>, ContractError>,
    sender2: String, pair2: TokenPair, sig2: Vec<u8>,
    r3: Result<HandleResponse<S, T>, ContractError>,
)
    requires
        register_exchange_outcome(s1, s2, sender, pair, sig, r2),
        r2 is Ok,
        register_exchange_outcome(s2, s3, sender2, pair2, sig2, r3),
    ensures
        r3 matches Err(ContractError::Unauthorized),
        s3 == s2,
{
}

/// The same holds of the launchpad's registration.
pub proof fn launchpad_signature_used_once<S, T>(
    s1: State, s2: State, s3: State,
    sender: String, sig: Vec<u8>,
    r2: Result<HandleResponse<S, T>, ContractError>,
    sender2: String, sig2: Vec<u8>,
    r3: Result<HandleResponse<S, T>, ContractError>,
)
    requires
        register_launchpad_outcome(s1, s2, sender, sig, r2),
        r2 is Ok,
        register_launchpad_outcome(s2, s3, sender2, sig2, r3),
    ensures
        r3 matches Err(ContractError::Unauthorized),
        s3 == s2,
{
}

/// And of an IDO's registration.
pub proof fn ido_signature_used_once<S, T>(
    s1: State, s2: State, s3: State,
    sender: String, sig: Vec<u8>,
    r2: Result<HandleResponse<S, T>, ContractError>,
    sender2: String, sig2: Vec<u8>,
    r3: Result<HandleResponse<S, T>, ContractError>,
)
    requires
        register_ido_outcome(s1, s2, sender, sig, r2),
        r2 is Ok,
        register_ido_outcome(s2, s3, sender2, sig2, r3),
    ensures
        r3 matches Err(ContractError::Unauthorized),
        s3 == s2,
{
}

/// A whitelisted address that is not the admin creates one IDO: its next request
/// to create one is refused and changes nothing.
pub proof fn whitelisted_creates_one_ido<S, T>(
    s0: State, s1: State, s2: State,
    e1: Env, info1: TokenSaleConfig<S>, tokens1: Option<Vec<Option<String>>>, entropy1: Vec<u8>,
    r1: Result<HandleResponse<S, T>, ContractError>,
    e2: Env, info2: TokenSaleConfig<S>, tokens2: Option<Vec<Option<String>>>, entropy2: Vec<u8>,
    r2: Result<HandleResponse<S, T>, ContractError>,
)
    requires
        create_ido_outcome(s0, s1, e1, info1, tokens1, entropy1, r1),
        r1 is Ok,
        !is_admin(s0, e1.sender@),
        e2.sender@ == e1.sender@,
        create_ido_outcome(s1, s2, e2, info2, tokens2, entropy2, r2),
    ensures
        r2 matches Err(ContractError::Unauthorized),
        s2 == s1,
{
}

/// A `SetConfig` that gives no value leaves the configuration as it was.
pub proof fn empty_update_keeps_config(c: Config)
    ensures
        updated_config(c, None, None, None, None, None, None) == c,
{
}

/// A pair is registered under either order of its tokens.
pub proof fn pair_order_does_not_matter(exchanges: Seq<Exchange>, p: TokenPair)
    ensures
        pair_registered(exchanges, p) == pair_registered(exchanges, TokenPair(p.1, p.0)),
{
    if pair_registered(exchanges, p) {
        let i = choose|i: int| 0 <= i < exchanges.len() && same_pair(#[trigger] exchanges[i].pair, p);
        assert(same_pair(exchanges[i].pair, TokenPair(p.1, p.0)));
    }
    if pair_registered(exchanges, TokenPair(p.1, p.0)) {
        let i = choose|i: int| 0 <= i < exchanges.len() && same_pair(#[trigger] exchanges[i].pair, TokenPair(p.1, p.0));
        assert(same_pair(exchanges[i].pair, p));
    }
}

/// Signatures tell creations apart: two creations get the same signature only
/// when they have the same sender, block height and block time.
pub proof fn signatures_differ(e1: Env, e2: Env)
    requires
        json_of_bytes(signature_payload(e1)) == json_of_bytes(signature_payload(e2)),
    ensures
        e1.sender@ == e2.sender@,
        e1.block_height == e2.block_height,
        e1.block_time == e2.block_time,
{
    let p1 = signature_payload(e1);
    let p2 = signature_payload(e2);
    json_of_bytes_injective(p1, p2);
    let u1 = vstd::utf8::encode_utf8(e1.sender@);
    let u2 = vstd::utf8::encode_utf8(e2.sender@);
    let n = u1.len() as int;
    assert(u1.len() == u2.len());
    assert(u1 =~= p1.subrange(0, n));
    assert(u2 =~= p2.subrange(0, n));
    vstd::utf8::encode_utf8_decode_utf8(e1.sender@);
    vstd::utf8::encode_utf8_decode_utf8(e2.sender@);
    assert(be_bytes(e1.block_height) =~= p1.subrange(n, n + 8));
    assert(be_bytes(e2.block_height) =~= p2.subrange(n, n + 8));
    be_bytes_injective(e1.block_height, e2.block_height);
    assert(be_bytes(e1.block_time) =~= p1.subrange(n + 8, n + 16));
    assert(be_bytes(e2.block_time) =~= p2.subrange(n + 8, n + 16));
    be_bytes_injective(e1.block_time, e2.block_time);
}

/// `now` is the value given for a setting, or `before` where none was given.
pub open spec fn given_or_kept<A>(given: Option<A>, now: A, before: A) -> bool {
    match given {
        Some(v) => now == v,
        None => now == before,
    }
}

/// An admin's `SetConfig` puts each given value into its own setting and leaves
/// every setting for which no value is given as it was; nothing else changes.
pub proof fn each_setting_takes_its_own_value<S, T>(
    old: State,
    new: State,
    sender: Seq<char>,
    snip20_contract: Option<ContractInstantiationInfo>,
    lp_token_contract: Option<ContractInstantiationInfo>,
    pair_contract: Option<ContractInstantiationInfo>,
    launchpad_contract: Option<ContractInstantiationInfo>,
    ido_contract: Option<ContractInstantiationInfo>,
    exchange_settings: Option<ExchangeSettings>,
    r: Result<HandleResponse<S, T>, ContractError>,
)
    requires
        is_admin(old, sender),
        set_config_outcome(old, new, sender, HandleMsg::<S, T>::SetConfig { snip20_contract, lp_token_contract,
            pair_contract, launchpad_contract, ido_contract, exchange_settings }, r),
    ensures
        r is Ok,
        given_or_kept(snip20_contract, new.config.snip20_contract, old.config.snip20_contract),
        given_or_kept(lp_token_contract, new.config.lp_token_contract, old.config.lp_token_contract),
        given_or_kept(pair_contract, new.config.pair_contract, old.config.pair_contract),
        given_or_kept(launchpad_contract, new.config.launchpad_contract, old.config.launchpad_contract),
        given_or_kept(ido_contract, new.config.ido_contract, old.config.ido_contract),
        given_or_kept(exchange_settings, new.config.exchange_settings, old.config.exchange_settings),
        new.admin == old.admin,
        new.exchanges == old.exchanges,
        new.idos == old.idos,
        new.launchpad == old.launchpad,
        new.ido_whitelist == old.ido_whitelist,
        new.ephemeral_signature == old.ephemeral_signature,
{
}

/// A page lists the items from its start on, one after the other, as many as
/// asked for but no more than `PAGINATION_LIMIT` and no more than there are
/// from the start on; a start past the end gives an empty page.
pub proof fn page_holds_what_was_asked<A>(items: Seq<A>, p: Pagination, page: Seq<A>)
    requires
        page == items.subrange(page_start(items.len(), p), page_end(items.len(), p)),
    ensures
        p.start >= items.len() ==> page.len() == 0,
        p.start < items.len() ==> page.len() == vstd::math::min(
            vstd::math::min(p.limit as int, PAGINATION_LIMIT as int), items.len() - p.start),
        forall|i: int| 0 <= i < page.len() ==> #[trigger] page[i] == items[p.start + i],
{
}

/// Paging on from where a full page ended misses nothing: when the first page
/// holds `limit` items, the next page, from `start + limit`, goes on with the
/// item right after it.
pub proof fn pages_follow_each_other<A>(items: Seq<A>, p: Pagination, first: Seq<A>, next: Seq<A>)
    requires
        p.limit <= PAGINATION_LIMIT,
        p.start + p.limit <= u64::MAX,
        first == items.subrange(page_start(items.len(), p), page_end(items.len(), p)),
        next == items.subrange(
            page_start(items.len(), Pagination { start: (p.start + p.limit) as u64, limit: p.limit }),
            page_end(items.len(), Pagination { start: (p.start + p.limit) as u64, limit: p.limit })),
        p.start + p.limit <= items.len(),
    ensures
        first.len() == p.limit,
        first + next == items.subrange(p.start as int,
            vstd::math::min(p.start + 2 * p.limit, items.len() as int)),
{
    assert(first + next =~= items.subrange(p.start as int,
        vstd::math::min(p.start + 2 * p.limit, items.len() as int)));
}

/// Every token is the same as itself, so an exchange of a token with itself,
/// native or not, is refused and changes nothing.
pub proof fn no_exchange_of_a_token_with_itself<S, T>(old: State, new: State, env: Env, pair: TokenPair, entropy: Vec<u8>, r: Result<HandleResponse<S, T>, ContractError>)
    requires
        pair.0 == pair.1,
        create_exchange_outcome(old, new, env, pair, entropy, r),
    ensures
        fails_with(r, "Cannot create an exchange with the same token."@),
        new == old,
{
}

/// Two native tokens of one denomination are the same token; two of different
/// denominations are not, nor a native token and a custom one. Two custom
/// tokens are the same when both their addresses and their code hashes agree.
pub proof fn tokens_same_by_value(d1: String, d2: String, a1: String, h1: String, a2: String, h2: String)
    ensures
        same_token(TokenType::NativeToken { denom: d1 }, TokenType::NativeToken { denom: d2 }) <==> d1@ == d2@,
        !same_token(TokenType::NativeToken { denom: d1 }, TokenType::CustomToken { contract_addr: a1, token_code_hash: h1 }),
        !same_token(TokenType::CustomToken { contract_addr: a1, token_code_hash: h1 }, TokenType::NativeToken { denom: d1 }),
        same_token(TokenType::CustomToken { contract_addr: a1, token_code_hash: h1 },
            TokenType::CustomToken { contract_addr: a2, token_code_hash: h2 }) <==> a1@ == a2@ && h1@ == h2@,
{
}

/// An exchange of two different tokens whose pair is not registered yet is
/// always created: the request succeeds and the factory waits for its signature.
pub proof fn distinct_new_pair_is_created<S, T>(old: State, new: State, env: Env, pair: TokenPair, entropy: Vec<u8>, r: Result<HandleResponse<S, T>, ContractError>)
    requires
        !same_token(pair.0, pair.1),
        !pair_registered(old.exchanges@, pair),
        create_exchange_outcome(old, new, env, pair, entropy, r),
    ensures
        r is Ok,
        new.ephemeral_signature is Some,
        new.exchanges == old.exchanges,
{
}

} // verus!
