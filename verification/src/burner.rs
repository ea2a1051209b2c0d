//! The burner contract: registered exchange pairs ask it to burn SIENNA
//! from the burn pool; admins manage the pairs, the admins, the burn pool
//! and the token.
use vstd::prelude::*;
use crate::addr::{listed, with_added, without, contains, copy_all, append_all, register_all, unregister_all};
use crate::decimal_math::Uint128;
use crate::env::{Env, LogAttribute, log};
use crate::error::ContractError;
use crate::text::{u128_to_string, decimal_digits};

verus! {

/// Block size to which the SNIP-20 messages sent by the burner are padded.
pub const BLOCK_SIZE: usize = 256;

/// Address and code hash of a contract.
#[derive(Debug, PartialEq, Eq)]
pub struct ContractInfo {
    pub address: String,
    pub code_hash: String,
}

impl ContractInfo {
    /// A copy of this contract's address and code hash.
    pub fn copy(&self) -> (r: ContractInfo)
        ensures
            r == *self,
    {
        ContractInfo { address: self.address.clone(), code_hash: self.code_hash.clone() }
    }
}

/// The message that instantiates the burner.
#[derive(Debug, PartialEq, Eq)]
pub struct InitMsg {
    pub sienna_token: ContractInfo,
    pub pairs: Option<Vec<String>>,
    pub burn_pool: String,
    pub factory_address: String,
    pub admins: Option<Vec<String>>,
}

/// The messages that the burner handles.
#[derive(Debug, PartialEq, Eq)]
pub enum HandleMsg {
    Burn { amount: Uint128 },
    AddPairs { pairs: Vec<String> },
    RemovePairs { pairs: Vec<String> },
    AddAdmins { addresses: Vec<String> },
    SetBurnPool { address: String },
    SetSiennaToken { info: ContractInfo },
}

/// The queries that the burner answers.
#[derive(Debug, PartialEq, Eq)]
pub enum QueryMsg {
    BurnPool,
    Admins,
    SiennaToken,
}

/// The answers to the burner's queries.
#[derive(Debug, PartialEq, Eq)]
pub enum QueryAnswer {
    BurnPool { address: String },
    Admins { addresses: Vec<String> },
    SiennaToken { info: ContractInfo },
}

/// The status that a handled message reports in the response's data.
#[derive(Debug, Clone, Copy, PartialEq, Eq, Structural)]
pub enum ResponseStatus {
    Success,
    Failure,
}

/// A SNIP-20 `BurnFrom` call: burn `amount` of the token held by `owner`.
#[derive(Debug, PartialEq, Eq)]
pub struct BurnFromMsg {
    pub owner: String,
    pub amount: Uint128,
    pub padding: Option<String>,
    pub block_size: usize,
    pub callback_code_hash: String,
    pub contract_addr: String,
}

/// What a handled message answers: messages to send, log entries and data.
#[derive(Debug, PartialEq, Eq)]
pub struct HandleResponse {
    pub messages: Vec<BurnFromMsg>,
    pub log: Vec<LogAttribute>,
    pub data: Option<ResponseStatus>,
}

/// The burner's stored state.
#[derive(Debug, PartialEq, Eq)]
pub struct State {
    /// The SIENNA token contract.
    pub sienna_token: ContractInfo,
    /// The account whose tokens are burned.
    pub burn_pool: String,
    /// The admins, in the order in which they were added.
    pub admins: Vec<String>,
    /// The registered exchange pairs.
    pub pairs: Vec<String>,
}

/// Whether `who` is one of the admins of `s`.
pub open spec fn is_admin(s: State, who: Seq<char>) -> bool {
    listed(s.admins@, who)
}

/// Whether `who` is a registered pair of `s`.
pub open spec fn is_pair(s: State, who: Seq<char>) -> bool {
    listed(s.pairs@, who)
}

/// A request from someone who is not an admin is refused as unauthorized and
/// changes nothing.
pub open spec fn refused_unless_admin(
    old: State,
    new: State,
    sender: Seq<char>,
    r: Result<HandleResponse, ContractError>,
) -> bool {
    !is_admin(old, sender) ==> (r matches Err(ContractError::Unauthorized) && new == old)
}

/// The response of an accepted change of configuration: no message, no log,
/// and `Success` as data.
pub open spec fn acknowledged(r: Result<HandleResponse, ContractError>) -> bool {
    r matches Ok(resp) && resp.messages@.len() == 0 && resp.log@.len() == 0
        && resp.data == Some(ResponseStatus::Success)
}

/// `new` is `old` with the `added` addresses registered as pairs as well.
pub open spec fn pairs_added(old: State, new: State, added: Seq<String>) -> bool {
    &&& new.pairs@ == with_added(old.pairs@, added)
    &&& forall|a: Seq<char>| #[trigger] is_pair(new, a) <==> is_pair(old, a) || listed(added, a)
    &&& new.sienna_token == old.sienna_token
    &&& new.burn_pool == old.burn_pool
    &&& new.admins == old.admins
}

/// `new` is `old` with the `removed` addresses no longer registered as pairs.
pub open spec fn pairs_removed(old: State, new: State, removed: Seq<String>) -> bool {
    &&& new.pairs@ == without(old.pairs@, removed)
    &&& forall|a: Seq<char>| #[trigger] is_pair(new, a) <==> is_pair(old, a) && !listed(removed, a)
    &&& new.sienna_token == old.sienna_token
    &&& new.burn_pool == old.burn_pool
    &&& new.admins == old.admins
}

/// `new` is `old` with `added` appended to the admins.
pub open spec fn admins_added(old: State, new: State, added: Seq<String>) -> bool {
    &&& new.admins@ == old.admins@ + added
    &&& new.sienna_token == old.sienna_token
    &&& new.burn_pool == old.burn_pool
    &&& new.pairs == old.pairs
}

/// `new` is `old` with `pool` as the burn pool.
pub open spec fn burn_pool_set(old: State, new: State, pool: String) -> bool {
    &&& new.burn_pool == pool
    &&& new.sienna_token == old.sienna_token
    &&& new.admins == old.admins
    &&& new.pairs == old.pairs
}

/// `new` is `old` with `info` as the token.
pub open spec fn token_set(old: State, new: State, info: ContractInfo) -> bool {
    &&& new.sienna_token == info
    &&& new.burn_pool == old.burn_pool
    &&& new.admins == old.admins
    &&& new.pairs == old.pairs
}

/// The outcome of a `Burn` of `amount` requested by `sender`: refused unless the
/// sender is a registered pair, else one `BurnFrom` of `amount` from the burn pool,
/// logged as `sienna_burned`.
pub open spec fn burn_outcome(
    s: State,
    sender: Seq<char>,
    amount: Uint128,
    r: Result<HandleResponse, ContractError>,
) -> bool {
    &&& !is_pair(s, sender) ==> (r matches Err(ContractError::Unauthorized))
    &&& is_pair(s, sender) ==> {
        &&& r matches Ok(resp)
        &&& resp.messages@.len() == 1
        &&& resp.messages@[0] == (BurnFromMsg {
            owner: s.burn_pool,
            amount: amount,
            padding: None,
            block_size: BLOCK_SIZE,
            callback_code_hash: s.sienna_token.code_hash,
            contract_addr: s.sienna_token.address,
        })
        &&& resp.log@.len() == 1
        &&& resp.log@[0].key@ == "sienna_burned"@
        &&& resp.log@[0].value@ == decimal_digits(amount.0 as nat)
        &&& resp.data == Some(ResponseStatus::Success)
    }
}

/// Instantiates the burner. The admins are the given ones followed by the
/// factory or, when none are given, the factory and the sender; the given
/// pairs, if any, are registered.
pub fn init(env: &Env, msg: InitMsg) -> (s: State)
    ensures
        s.sienna_token == msg.sienna_token,
        s.burn_pool == msg.burn_pool,
        msg.admins matches Some(a) ==> s.admins@ == a@.push(msg.factory_address),
        msg.admins is None ==> s.admins@ == seq![msg.factory_address, env.sender],
        msg.pairs matches Some(p) ==> s.pairs@ == with_added(seq![], p@),
        msg.pairs is None ==> s.pairs@ == Seq::<String>::empty(),
        forall|a: Seq<char>| is_pair(s, a) <==> (msg.pairs matches Some(p) && listed(p@, a)),
{
    let InitMsg { sienna_token, pairs, burn_pool, factory_address, admins } = msg;
    let admins = match admins {
        Some(mut admins) => {
            admins.push(factory_address);
            admins
        },
        None => {
            let mut admins: Vec<String> = Vec::new();
            admins.push(factory_address);
            admins.push(env.sender.clone());
            proof {
                assert(admins@ =~= seq![msg.factory_address, env.sender]);
            }
            admins
        },
    };
    let mut registered: Vec<String> = Vec::new();
    if let Some(pairs) = pairs {
        register_all(&mut registered, &pairs);
    }
    State { sienna_token, burn_pool, admins, pairs: registered }
}

/// Succeeds exactly when the sender is an admin; refuses as unauthorized otherwise.
pub fn enforce_admin(state: &State, env: &Env) -> (r: Result<(), ContractError>)
    ensures
        is_admin(*state, env.sender@) ==> r is Ok,
        !is_admin(*state, env.sender@) ==> (r matches Err(ContractError::Unauthorized)),
{
    if contains(&state.admins, &env.sender) {
        return Ok(());
    }
    Err(ContractError::Unauthorized)
}

fn success() -> (r: HandleResponse)
    ensures
        acknowledged(Ok(r)),
{
    HandleResponse { messages: Vec::new(), log: Vec::new(), data: Some(ResponseStatus::Success) }
}

/// Burns `amount` from the burn pool; only a registered pair may ask.
pub fn burn(state: &State, env: &Env, amount: Uint128) -> (r: Result<HandleResponse, ContractError>)
    ensures
        burn_outcome(*state, env.sender@, amount, r),
{
    if !contains(&state.pairs, &env.sender) {
        return Err(ContractError::Unauthorized);
    }
    let mut messages: Vec<BurnFromMsg> = Vec::new();
    messages.push(BurnFromMsg {
        owner: state.burn_pool.clone(),
        amount,
        padding: None,
        block_size: BLOCK_SIZE,
        callback_code_hash: state.sienna_token.code_hash.clone(),
        contract_addr: state.sienna_token.address.clone(),
    });
    let mut logs: Vec<LogAttribute> = Vec::new();
    logs.push(log("sienna_burned", u128_to_string(amount.0)));
    Ok(HandleResponse { messages, log: logs, data: Some(ResponseStatus::Success) })
}

/// Registers the given pairs; admins only.
pub fn add_pairs(state: &mut State, env: &Env, pairs: Vec<String>) -> (r: Result<HandleResponse, ContractError>)
    ensures
        refused_unless_admin(*old(state), *final(state), env.sender@, r),
        is_admin(*old(state), env.sender@) ==> acknowledged(r)
            && pairs_added(*old(state), *final(state), pairs@),
{
    enforce_admin(state, env)?;
    register_all(&mut state.pairs, &pairs);
    Ok(success())
}

/// Unregisters the given pairs; admins only.
pub fn remove_pairs(state: &mut State, env: &Env, pairs: Vec<String>) -> (r: Result<HandleResponse, ContractError>)
    ensures
        refused_unless_admin(*old(state), *final(state), env.sender@, r),
        is_admin(*old(state), env.sender@) ==> acknowledged(r)
            && pairs_removed(*old(state), *final(state), pairs@),
{
    enforce_admin(state, env)?;
    unregister_all(&mut state.pairs, &pairs);
    Ok(success())
}

/// Appends the given addresses to the admins; admins only.
pub fn add_admins(state: &mut State, env: &Env, addresses: Vec<String>) -> (r: Result<HandleResponse, ContractError>)
    ensures
        refused_unless_admin(*old(state), *final(state), env.sender@, r),
        is_admin(*old(state), env.sender@) ==> acknowledged(r)
            && admins_added(*old(state), *final(state), addresses@),
{
    enforce_admin(state, env)?;
    append_all(&mut state.admins, &addresses);
    Ok(success())
}

/// Replaces the burn pool; admins only.
pub fn set_burn_pool(state: &mut State, env: &Env, address: String) -> (r: Result<HandleResponse, ContractError>)
    ensures
        refused_unless_admin(*old(state), *final(state), env.sender@, r),
        is_admin(*old(state), env.sender@) ==> acknowledged(r)
            && burn_pool_set(*old(state), *final(state), address),
{
    enforce_admin(state, env)?;
    state.burn_pool = address;
    Ok(success())
}

/// Replaces the token; admins only.
pub fn set_token(state: &mut State, env: &Env, info: ContractInfo) -> (r: Result<HandleResponse, ContractError>)
    ensures
        refused_unless_admin(*old(state), *final(state), env.sender@, r),
        is_admin(*old(state), env.sender@) ==> acknowledged(r)
            && token_set(*old(state), *final(state), info),
{
    enforce_admin(state, env)?;
    state.sienna_token = info;
    Ok(success())
}

/// Handles a message: dispatches it to the operation that it names.
pub fn handle(state: &mut State, env: &Env, msg: HandleMsg) -> (r: Result<HandleResponse, ContractError>)
    ensures
        match msg {
            HandleMsg::Burn { amount } => burn_outcome(*old(state), env.sender@, amount, r)
                && *final(state) == *old(state),
            HandleMsg::AddPairs { pairs } => refused_unless_admin(*old(state), *final(state), env.sender@, r)
                && (is_admin(*old(state), env.sender@) ==> acknowledged(r)
                    && pairs_added(*old(state), *final(state), pairs@)),
            HandleMsg::RemovePairs { pairs } => refused_unless_admin(*old(state), *final(state), env.sender@, r)
                && (is_admin(*old(state), env.sender@) ==> acknowledged(r)
                    && pairs_removed(*old(state), *final(state), pairs@)),
            HandleMsg::AddAdmins { addresses } => refused_unless_admin(*old(state), *final(state), env.sender@, r)
                && (is_admin(*old(state), env.sender@) ==> acknowledged(r)
                    && admins_added(*old(state), *final(state), addresses@)),
            HandleMsg::SetBurnPool { address } => refused_unless_admin(*old(state), *final(state), env.sender@, r)
                && (is_admin(*old(state), env.sender@) ==> acknowledged(r)
                    && burn_pool_set(*old(state), *final(state), address)),
            HandleMsg::SetSiennaToken { info } => refused_unless_admin(*old(state), *final(state), env.sender@, r)
                && (is_admin(*old(state), env.sender@) ==> acknowledged(r)
                    && token_set(*old(state), *final(state), info)),
        },
{
    match msg {
        HandleMsg::Burn { amount } => burn(state, env, amount),
        HandleMsg::AddPairs { pairs } => add_pairs(state, env, pairs),
        HandleMsg::RemovePairs { pairs } => remove_pairs(state, env, pairs),
        HandleMsg::AddAdmins { addresses } => add_admins(state, env, addresses),
        HandleMsg::SetBurnPool { address } => set_burn_pool(state, env, address),
        HandleMsg::SetSiennaToken { info } => set_token(state, env, info),
    }
}

/// The token contract's address and code hash.
pub fn load_token_info(state: &State) -> (r: ContractInfo)
    ensures
        r == state.sienna_token,
{
    state.sienna_token.copy()
}

/// The burn pool's address.
pub fn load_burn_pool(state: &State) -> (r: String)
    ensures
        r == state.burn_pool,
{
    state.burn_pool.clone()
}

/// The admins, in the order in which they were added.
pub fn load_admins(state: &State) -> (r: Vec<String>)
    ensures
        r@ == state.admins@,
{
    copy_all(&state.admins)
}

/// Whether `address` is a registered pair.
pub fn pair_address_exists(state: &State, address: &String) -> (r: bool)
    ensures
        r == is_pair(*state, address@),
{
    contains(&state.pairs, address)
}

/// Answers the `BurnPool` query.
pub fn query_burn_pool(state: &State) -> (r: QueryAnswer)
    ensures
        r == (QueryAnswer::BurnPool { address: state.burn_pool }),
{
    QueryAnswer::BurnPool { address: load_burn_pool(state) }
}

/// Answers the `Admins` query.
pub fn query_admins(state: &State) -> (r: QueryAnswer)
    ensures
        r matches QueryAnswer::Admins { addresses } && addresses@ == state.admins@,
{
    QueryAnswer::Admins { addresses: load_admins(state) }
}

/// Answers the `SiennaToken` query.
pub fn query_token(state: &State) -> (r: QueryAnswer)
    ensures
        r == (QueryAnswer::SiennaToken { info: state.sienna_token }),
{
    QueryAnswer::SiennaToken { info: load_token_info(state) }
}

/// Answers a query.
pub fn query(state: &State, msg: QueryMsg) -> (r: QueryAnswer)
    ensures
        msg is BurnPool ==> r == (QueryAnswer::BurnPool { address: state.burn_pool }),
        msg is Admins ==> (r matches QueryAnswer::Admins { addresses } && addresses@ == state.admins@),
        msg is SiennaToken ==> r == (QueryAnswer::SiennaToken { info: state.sienna_token }),
{
    match msg {
        QueryMsg::BurnPool => query_burn_pool(state),
        QueryMsg::Admins => query_admins(state),
        QueryMsg::SiennaToken => query_token(state),
    }
}

/// Every address that an admin registers as a pair may then burn, and every pair
/// that was registered before stays registered.
pub proof fn added_pairs_may_burn(old: State, new: State, added: Seq<String>, a: Seq<char>)
    requires
        pairs_added(old, new, added),
        listed(added, a) || is_pair(old, a),
    ensures
        is_pair(new, a),
{
}

/// An address that an admin unregisters may no longer burn; the pairs that were
/// not named stay registered.
pub proof fn removed_pairs_may_not_burn(old: State, new: State, removed: Seq<String>, a: Seq<char>)
    requires
        pairs_removed(old, new, removed),
    ensures
        listed(removed, a) ==> !is_pair(new, a),
        is_pair(old, a) && !listed(removed, a) ==> is_pair(new, a),
{
}

/// A burn requested by an address that is not a registered pair is refused, and
/// a burn never changes the state.
pub proof fn burn_only_by_pairs(
    s: State,
    sender: Seq<char>,
    amount: Uint128,
    r: Result<HandleResponse, ContractError>,
)
    requires
        burn_outcome(s, sender, amount, r),
    ensures
        r is Ok <==> is_pair(s, sender),
{
}

/// Adding admins keeps every admin and appends the new ones, duplicates included:
/// adding the same list twice lengthens the admins by twice its length.
pub proof fn admins_accumulate(s0: State, s1: State, s2: State, added: Seq<String>)
    requires
        admins_added(s0, s1, added),
        admins_added(s1, s2, added),
    ensures
        s2.admins@.len() == s0.admins@.len() + 2 * added.len(),
        forall|a: Seq<char>| is_admin(s0, a) ==> is_admin(s2, a),
{
    assert forall|a: Seq<char>| is_admin(s0, a) implies is_admin(s2, a) by {
        let j = choose|j: int| 0 <= j < s0.admins@.len() && #[trigger] s0.admins@[j]@ == a;
        assert(s2.admins@[j] == s0.admins@[j]);
    }
}

} // verus!
