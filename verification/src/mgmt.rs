//! The vesting management contract: the admin loads a schedule of portions and
//! launches the vesting, which mints the schedule's total; recipients then claim
//! the portions that have vested. The claim history is kept by the caller, which
//! hands this module the portions that the history reports as unclaimed.
use vstd::prelude::*;
use crate::decimal_math::Uint128;
use crate::env::Env;
use crate::error::{ContractError, generic_err};
use crate::text::{push_decimal, decimal_digits, digits_then_separator, decimal_digits_injective, is_digit};

verus! {

/// Block size to which the SNIP-20 messages sent by this contract are padded.
pub const BLOCK_SIZE: usize = 256;

/// Error message: assumptions have been violated.
pub const CORRUPTED: &'static str = "broken";
/// Error message: unauthorized or nothing to claim right now.
pub const NOTHING: &'static str = "nothing for you";
/// Error message: can't launch more than once.
pub const UNDERWAY: &'static str = "already underway";
/// Error message: can't do this before launching.
pub const PRELAUNCH: &'static str = "not launched yet";
/// Error message: schedule hasn't been set yet.
pub const NO_SCHEDULE: &'static str = "set configuration first";
/// Error message: can't find channel/pool by name.
pub const NOT_FOUND: &'static str = "target not found";

/// One portion of the schedule: `amount` for `address`, claimable once `vested`
/// seconds have passed since the launch.
#[derive(Debug, PartialEq, Eq)]
pub struct Portion {
    pub address: String,
    pub amount: Uint128,
    pub vested: u64,
}

impl Portion {
    /// A copy of this portion.
    pub fn copy(&self) -> (r: Portion)
        ensures
            r == *self,
    {
        Portion { address: self.address.clone(), amount: self.amount, vested: self.vested }
    }
}

/// The message that instantiates the contract.
#[derive(Debug, PartialEq, Eq)]
pub struct InitMsg {
    pub schedule: Option<Vec<Portion>>,
    pub token_addr: String,
    pub token_hash: String,
}

/// The queries that the contract answers.
#[derive(Debug, PartialEq, Eq)]
pub enum QueryMsg {
    Status,
    GetSchedule,
}

/// The answers to the queries.
#[derive(Debug, PartialEq, Eq)]
pub enum Response {
    Status { errors: u64, launched: Option<u64> },
    Schedule { schedule: Option<Vec<Portion>>, total: Uint128 },
}

/// A SNIP-20 call to the managed token.
#[derive(Debug, PartialEq, Eq)]
pub enum Snip20Msg {
    /// Mint `amount` for `recipient`.
    Mint { recipient: String, amount: Uint128, padding: Option<String>, block_size: usize, callback_code_hash: String, contract_addr: String },
    /// Make `minters` the only minters.
    SetMinters { minters: Vec<String>, padding: Option<String>, block_size: usize, callback_code_hash: String, contract_addr: String },
    /// Transfer `amount` to `recipient`.
    Transfer { recipient: String, amount: Uint128, padding: Option<String>, block_size: usize, callback_code_hash: String, contract_addr: String },
}

/// What a handled message answers: the calls to make.
#[derive(Debug, PartialEq, Eq)]
pub struct HandleResponse {
    pub messages: Vec<Snip20Msg>,
}

/// The contract's stored state (the claim history aside).
#[derive(Debug, PartialEq, Eq)]
pub struct State {
    /// The admin, if the contract still has one.
    pub admin: Option<String>,
    /// The managed SNIP-20 token.
    pub token_addr: String,
    /// Its code hash.
    pub token_hash: String,
    /// When the vesting was launched, once it was.
    pub launched: Option<u64>,
    /// The vesting schedule.
    pub schedule: Option<Vec<Portion>>,
    /// Total amount to mint.
    pub total: Uint128,
    /// Public counter of invalid operations.
    pub errors: u64,
}

/// The message `allocations added up to {total} which is over the maximum of {max}`.
pub open spec fn allocation_message(total: nat, max: nat) -> Seq<char> {
    "allocations added up to "@ + decimal_digits(total) + " which is over the maximum of "@ + decimal_digits(max)
}

/// The message `allocations added up to {total} which is over the maximum of {max}`.
pub fn err_allocation(total: u128, max: u128) -> (s: String)
    ensures
        s@ == allocation_message(total as nat, max as nat),
{
    let mut s = String::from_str("allocations added up to ");
    push_decimal(&mut s, total);
    s.append(" which is over the maximum of ");
    push_decimal(&mut s, max);
    s
}

/// Whether `who` is the admin of `s`.
pub open spec fn is_admin(s: State, who: Seq<char>) -> bool {
    s.admin matches Some(a) && a@ == who
}

/// What every state of the contract satisfies: a launched vesting has a schedule.
pub open spec fn wf(s: State) -> bool {
    s.launched is Some ==> s.schedule is Some
}

/// The sum of the amounts of the portions.
pub open spec fn total_of(portions: Seq<Portion>) -> nat
    decreases portions.len(),
{
    if portions.len() == 0 {
        0
    } else {
        total_of(portions.drop_last()) + (portions.last().amount.0 as nat)
    }
}

/// Whether `p` is claimable by `claimant` once `elapsed` seconds have passed.
pub open spec fn is_claimable(p: Portion, elapsed: int, claimant: Seq<char>) -> bool {
    p.vested <= elapsed && p.address@ == claimant
}

/// The portions of `schedule` claimable by `claimant` after `elapsed` seconds, in order.
pub open spec fn claimable_of(schedule: Seq<Portion>, elapsed: int, claimant: Seq<char>) -> Seq<Portion>
    decreases schedule.len(),
{
    if schedule.len() == 0 {
        Seq::empty()
    } else {
        let rest = claimable_of(schedule.drop_last(), elapsed, claimant);
        if is_claimable(schedule.last(), elapsed, claimant) {
            rest.push(schedule.last())
        } else {
            rest
        }
    }
}

/// `old` with one more invalid operation counted.
pub open spec fn counted(old: State) -> State {
    State { errors: (old.errors + 1) as u64, ..old }
}

/// An admin-only request from anyone else is refused as unauthorized, and the
/// refusal is counted.
pub open spec fn admin_only(old: State, new: State, sender: Seq<char>, r: Result<HandleResponse, ContractError>) -> bool {
    !is_admin(old, sender) ==> (r matches Err(ContractError::Unauthorized) && new == counted(old))
}

/// The counter of invalid operations can take one more where `sender`'s
/// admin-only request would be refused.
pub open spec fn room_to_refuse(s: State, sender: Seq<char>) -> bool {
    !is_admin(s, sender) ==> s.errors < u64::MAX
}

/// `r` succeeded with no message.
pub open spec fn done(r: Result<HandleResponse, ContractError>) -> bool {
    r matches Ok(resp) && resp.messages@.len() == 0
}

/// `r` failed with a `GenericErr` whose message is `msg`.
pub open spec fn fails_with<X>(r: Result<X, ContractError>, msg: Seq<char>) -> bool {
    r matches Err(ContractError::GenericErr { msg: m }) && m@ == msg
}

/// A contract without admin stays without one from `old` to `new`.
pub open spec fn keeps_disowned(old: State, new: State) -> bool {
    old.admin is None ==> new.admin is None
}

/// Instantiates the contract; the sender becomes the admin, and the total to
/// mint is the sum of the given schedule (zero without one).
pub fn init(env: &Env, msg: InitMsg) -> (s: State)
    requires
        msg.schedule matches Some(p) ==> total_of(p@) <= u128::MAX,
    ensures
        s == (State {
            admin: Some(env.sender),
            token_addr: msg.token_addr,
            token_hash: msg.token_hash,
            launched: None,
            schedule: msg.schedule,
            total: s.total,
            errors: 0,
        }),
        msg.schedule matches Some(p) ==> s.total.0 == total_of(p@),
        msg.schedule is None ==> s.total.0 == 0,
        wf(s),
{
    let total = match &msg.schedule {
        Some(p) => sum_amounts(p),
        None => Uint128::zero(),
    };
    State {
        admin: Some(env.sender.clone()),
        token_addr: msg.token_addr,
        token_hash: msg.token_hash,
        launched: None,
        schedule: msg.schedule,
        total,
        errors: 0,
    }
}

fn copy_portions(v: &Vec<Portion>) -> (r: Vec<Portion>)
    ensures
        r@ == v@,
{
    let n = v.len();
    let mut r: Vec<Portion> = Vec::new();
    let mut i: usize = 0;
    while i < n
        invariant
            n == v@.len(),
            0 <= i <= n,
            r@ == v@.subrange(0, i as int),
        decreases n - i,
    {
        r.push(v[i].copy());
        i = i + 1;
        assert(r@ =~= v@.subrange(0, i as int));
    }
    assert(v@.subrange(0, n as int) =~= v@);
    r
}

/// Answers a query: the error count and launch time, or the schedule and its total.
pub fn query(state: &State, msg: QueryMsg) -> (r: Response)
    ensures
        msg is Status ==> r == (Response::Status { errors: state.errors, launched: state.launched }),
        msg is GetSchedule ==> (r matches Response::Schedule { schedule, total }
            && total == state.total
            && (state.schedule matches Some(s) ==> (schedule matches Some(c) && c@ == s@))
            && (state.schedule is None ==> schedule is None)),
{
    match msg {
        QueryMsg::Status => Response::Status { errors: state.errors, launched: state.launched },
        QueryMsg::GetSchedule => {
            let schedule = match &state.schedule {
                Some(s) => Some(copy_portions(s)),
                None => None,
            };
            Response::Schedule { schedule, total: state.total }
        },
    }
}

/// Counts an invalid operation and refuses it as unauthorized.
fn err_auth(state: &mut State) -> (r: ContractError)
    requires
        old(state).errors < u64::MAX,
    ensures
        r is Unauthorized,
        *final(state) == counted(*old(state)),
{
    state.errors = state.errors + 1;
    ContractError::Unauthorized
}

/// Counts an invalid operation and refuses it with the message `msg`.
fn err_msg(state: &mut State, msg: &str) -> (r: ContractError)
    requires
        old(state).errors < u64::MAX,
    ensures
        r matches ContractError::GenericErr { msg: m } && m@ == msg@,
        *final(state) == counted(*old(state)),
{
    state.errors = state.errors + 1;
    generic_err(msg)
}

fn is_admin_exec(state: &State, who: &String) -> (r: bool)
    ensures
        r == is_admin(*state, who@),
{
    match &state.admin {
        Some(a) => *a == *who,
        None => false,
    }
}

fn sum_amounts(portions: &Vec<Portion>) -> (r: Uint128)
    requires
        total_of(portions@) <= u128::MAX,
    ensures
        r.0 == total_of(portions@),
{
    let n = portions.len();
    let mut total: u128 = 0;
    let mut i: usize = 0;
    while i < n
        invariant
            n == portions@.len(),
            0 <= i <= n,
            total == total_of(portions@.subrange(0, i as int)),
            total_of(portions@) <= u128::MAX,
        decreases n - i,
    {
        proof {
            assert(portions@.subrange(0, i + 1).drop_last() =~= portions@.subrange(0, i as int));
            lemma_total_of_prefix(portions@, i + 1);
        }
        total = total + portions[i].amount.0;
        i = i + 1;
    }
    assert(portions@.subrange(0, n as int) =~= portions@);
    Uint128(total)
}

/// The total of a prefix is at most the total of the whole.
proof fn lemma_total_of_prefix(p: Seq<Portion>, k: int)
    requires
        0 <= k <= p.len(),
    ensures
        total_of(p.subrange(0, k)) <= total_of(p),
    decreases p.len() - k,
{
    if k < p.len() {
        lemma_total_of_prefix(p, k + 1);
        assert(p.subrange(0, k + 1).drop_last() =~= p.subrange(0, k));
    } else {
        assert(p.subrange(0, k) =~= p);
    }
}

/// The outcome of an admin's `Configure` with `portions`: refused once the vesting
/// is launched; refused by the claim history's verdict `update_check` when a
/// schedule is loaded already; else the schedule and its total are replaced.
pub open spec fn configure_outcome(old: State, new: State, portions: Vec<Portion>, update_check: Result<(), ContractError>, r: Result<HandleResponse, ContractError>) -> bool {
    if old.launched is Some {
        fails_with(r, UNDERWAY@) && new == counted(old)
    } else if old.schedule is Some && update_check is Err {
        r == Err::<HandleResponse, ContractError>(update_check->Err_0) && new == old
    } else {
        &&& done(r)
        &&& new == (State { total: new.total, schedule: Some(portions), ..old })
        &&& new.total.0 == total_of(portions@)
    }
}

/// Whether an admin's `Configure` goes as far as adding up the portions.
pub open spec fn configure_accepted(s: State, update_check: Result<(), ContractError>) -> bool {
    s.launched is None && !(s.schedule is Some && update_check is Err)
}

/// Loads a new schedule; admin only, and only before the launch. When a
/// schedule is loaded already, `update_check` is the verdict of the claim
/// history on replacing it with `portions`, and an error there refuses the
/// update. The total becomes the sum of the portions.
pub fn configure(state: &mut State, env: &Env, portions: Vec<Portion>, update_check: Result<(), ContractError>) -> (r: Result<HandleResponse, ContractError>)
    requires
        room_to_refuse(*old(state), env.sender@),
        is_admin(*old(state), env.sender@) && old(state).launched is Some ==> old(state).errors < u64::MAX,
        is_admin(*old(state), env.sender@) && configure_accepted(*old(state), update_check)
            ==> total_of(portions@) <= u128::MAX,
    ensures
        admin_only(*old(state), *final(state), env.sender@, r),
        is_admin(*old(state), env.sender@) ==> configure_outcome(*old(state), *final(state), portions, update_check, r),
        wf(*old(state)) ==> wf(*final(state)),
        keeps_disowned(*old(state), *final(state)),
{
    if !is_admin_exec(state, &env.sender) {
        return Err(err_auth(state));
    }
    if state.launched.is_some() {
        return Err(err_msg(state, UNDERWAY));
    }
    if state.schedule.is_some() {
        update_check?;
    }
    state.total = sum_amounts(&portions);
    state.schedule = Some(portions);
    Ok(HandleResponse { messages: Vec::new() })
}

/// Makes `new_admin` the admin; admin only.
pub fn transfer_ownership(state: &mut State, env: &Env, new_admin: String) -> (r: Result<HandleResponse, ContractError>)
    requires
        room_to_refuse(*old(state), env.sender@),
    ensures
        admin_only(*old(state), *final(state), env.sender@, r),
        is_admin(*old(state), env.sender@) ==> done(r)
            && *final(state) == (State { admin: Some(new_admin), ..*old(state) }),
        wf(*old(state)) ==> wf(*final(state)),
        keeps_disowned(*old(state), *final(state)),
{
    if !is_admin_exec(state, &env.sender) {
        return Err(err_auth(state));
    }
    state.admin = Some(new_admin);
    Ok(HandleResponse { messages: Vec::new() })
}

/// Leaves the contract without an admin; admin only.
pub fn disown(state: &mut State, env: &Env) -> (r: Result<HandleResponse, ContractError>)
    requires
        room_to_refuse(*old(state), env.sender@),
    ensures
        admin_only(*old(state), *final(state), env.sender@, r),
        is_admin(*old(state), env.sender@) ==> done(r)
            && *final(state) == (State { admin: None, ..*old(state) }),
        wf(*old(state)) ==> wf(*final(state)),
        keeps_disowned(*old(state), *final(state)),
{
    if !is_admin_exec(state, &env.sender) {
        return Err(err_auth(state));
    }
    state.admin = None;
    Ok(HandleResponse { messages: Vec::new() })
}

/// The outcome of a launch: the total minted to this contract, minting closed for
/// good, and the launch time recorded.
pub open spec fn launch_outcome(old: State, new: State, env: Env, r: Result<HandleResponse, ContractError>) -> bool {
    if old.schedule is None {
        fails_with(r, NO_SCHEDULE@) && new == counted(old)
    } else if old.launched is Some {
        fails_with(r, UNDERWAY@) && new == counted(old)
    } else {
        &&& r matches Ok(resp)
        &&& resp.messages@.len() == 2
        &&& resp.messages@[0] == (Snip20Msg::Mint {
            recipient: env.contract_address,
            amount: old.total,
            padding: None,
            block_size: BLOCK_SIZE,
            callback_code_hash: old.token_hash,
            contract_addr: old.token_addr,
        })
        &&& resp.messages@[1] matches Snip20Msg::SetMinters { minters, padding, block_size,
            callback_code_hash, contract_addr }
        &&& minters@.len() == 0
        &&& padding is None
        &&& block_size == BLOCK_SIZE
        &&& callback_code_hash == old.token_hash
        &&& contract_addr == old.token_addr
        &&& new == (State { launched: Some(env.block_time), ..old })
    }
}

/// Launches the vesting; admin only, once, and only with a schedule.
pub fn launch(state: &mut State, env: &Env) -> (r: Result<HandleResponse, ContractError>)
    requires
        !is_admin(*old(state), env.sender@) || old(state).schedule is None || old(state).launched is Some
            ==> old(state).errors < u64::MAX,
    ensures
        admin_only(*old(state), *final(state), env.sender@, r),
        is_admin(*old(state), env.sender@) ==> launch_outcome(*old(state), *final(state), *env, r),
        wf(*old(state)) ==> wf(*final(state)),
        keeps_disowned(*old(state), *final(state)),
{
    if !is_admin_exec(state, &env.sender) {
        return Err(err_auth(state));
    }
    if state.schedule.is_none() {
        return Err(err_msg(state, NO_SCHEDULE));
    }
    if state.launched.is_some() {
        return Err(err_msg(state, UNDERWAY));
    }
    let mut messages: Vec<Snip20Msg> = Vec::new();
    messages.push(Snip20Msg::Mint {
        recipient: env.contract_address.clone(),
        amount: state.total,
        padding: None,
        block_size: BLOCK_SIZE,
        callback_code_hash: state.token_hash.clone(),
        contract_addr: state.token_addr.clone(),
    });
    messages.push(Snip20Msg::SetMinters {
        minters: Vec::new(),
        padding: None,
        block_size: BLOCK_SIZE,
        callback_code_hash: state.token_hash.clone(),
        contract_addr: state.token_addr.clone(),
    });
    state.launched = Some(env.block_time);
    Ok(HandleResponse { messages })
}

/// The portions of the schedule that `sender` may claim at `now`, once launched.
pub open spec fn claimable_now(s: State, now: u64, sender: Seq<char>) -> Seq<Portion> {
    claimable_of(s.schedule->Some_0@, now - s.launched->Some_0, sender)
}

/// The first step of a claim: the portions of the schedule that the sender may
/// claim now, in order; a counted refusal before the launch or when there are none.
pub fn claimable_portions(state: &mut State, env: &Env) -> (r: Result<Vec<Portion>, ContractError>)
    requires
        wf(*old(state)),
        old(state).launched matches Some(t) ==> t <= env.block_time,
        old(state).launched is None || claimable_now(*old(state), env.block_time, env.sender@).len() == 0
            ==> old(state).errors < u64::MAX,
    ensures
        keeps_disowned(*old(state), *final(state)),
        old(state).launched is None ==> fails_with(r, PRELAUNCH@) && *final(state) == counted(*old(state)),
        old(state).launched is Some ==> {
            let c = claimable_now(*old(state), env.block_time, env.sender@);
            &&& c.len() == 0 ==> fails_with(r, NOTHING@) && *final(state) == counted(*old(state))
            &&& c.len() > 0 ==> (r matches Ok(v) && v@ == c) && *final(state) == *old(state)
        },
{
    match state.launched {
        None => Err(err_msg(state, PRELAUNCH)),
        Some(launch) => {
            let elapsed: u64 = env.block_time - launch;
            let claimable = {
                let schedule = state.schedule.as_ref().unwrap();
                let n = schedule.len();
                let mut claimable: Vec<Portion> = Vec::new();
                let mut i: usize = 0;
                while i < n
                    invariant
                        n == schedule@.len(),
                        0 <= i <= n,
                        claimable@ == claimable_of(schedule@.subrange(0, i as int), elapsed as int, env.sender@),
                    decreases n - i,
                {
                    proof {
                        assert(schedule@.subrange(0, i + 1).drop_last() =~= schedule@.subrange(0, i as int));
                    }
                    let p = &schedule[i];
                    if p.vested <= elapsed && p.address == env.sender {
                        claimable.push(p.copy());
                    }
                    i = i + 1;
                }
                assert(schedule@.subrange(0, n as int) =~= schedule@);
                claimable
            };
            if claimable.len() == 0 {
                return Err(err_msg(state, NOTHING));
            }
            Ok(claimable)
        },
    }
}

/// The second step of a claim: given the claimable portions that the history
/// reports as unclaimed, the transfer of their sum to the sender; a counted
/// refusal when there are none. The caller records the claim in the history.
pub fn claim(state: &mut State, env: &Env, unclaimed: &Vec<Portion>) -> (r: Result<HandleResponse, ContractError>)
    requires
        old(state).launched is Some,
        forall|i: int| 0 <= i < unclaimed@.len() ==> (#[trigger] unclaimed@[i]).address@ == env.sender@,
        total_of(unclaimed@) <= u128::MAX,
        unclaimed@.len() == 0 ==> old(state).errors < u64::MAX,
    ensures
        keeps_disowned(*old(state), *final(state)),
        unclaimed@.len() == 0 ==> fails_with(r, NOTHING@) && *final(state) == counted(*old(state)),
        unclaimed@.len() > 0 ==> {
            &&& r matches Ok(resp)
            &&& resp.messages@.len() == 1
            &&& resp.messages@[0] == (Snip20Msg::Transfer {
                recipient: env.sender,
                amount: Uint128(total_of(unclaimed@) as u128),
                padding: None,
                block_size: BLOCK_SIZE,
                callback_code_hash: old(state).token_hash,
                contract_addr: old(state).token_addr,
            })
            &&& *final(state) == *old(state)
        },
{
    if unclaimed.len() == 0 {
        return Err(err_msg(state, NOTHING));
    }
    let sum = sum_amounts(unclaimed);
    let mut messages: Vec<Snip20Msg> = Vec::new();
    messages.push(Snip20Msg::Transfer {
        recipient: env.sender.clone(),
        amount: sum,
        padding: None,
        block_size: BLOCK_SIZE,
        callback_code_hash: state.token_hash.clone(),
        contract_addr: state.token_addr.clone(),
    });
    Ok(HandleResponse { messages })
}

/// Once the contract is disowned nobody is its admin, so every admin-only request
/// from then on is refused.
pub proof fn disown_is_final(old: State, new: State, sender: Seq<char>, r: Result<HandleResponse, ContractError>, who: Seq<char>)
    requires
        admin_only(old, new, sender, r),
        is_admin(old, sender) ==> done(r) && new == (State { admin: None, ..old }),
        r is Ok,
    ensures
        !is_admin(new, who),
{
}

/// The vesting launches at most once: after a launch succeeded, every further
/// launch is refused as underway and changes nothing.
pub proof fn launch_only_once(
    s0: State, s1: State, s2: State,
    e1: Env, e2: Env,
    r1: Result<HandleResponse, ContractError>,
    r2: Result<HandleResponse, ContractError>,
)
    requires
        launch_outcome(s0, s1, e1, r1),
        r1 is Ok,
        launch_outcome(s1, s2, e2, r2),
    ensures
        fails_with(r2, UNDERWAY@),
        s2 == counted(s1),
{
}

/// Every portion offered to a claimant is the claimant's own and has vested.
pub proof fn claimable_are_own_and_vested(schedule: Seq<Portion>, elapsed: int, claimant: Seq<char>, i: int)
    requires
        0 <= i < claimable_of(schedule, elapsed, claimant).len(),
    ensures
        is_claimable(claimable_of(schedule, elapsed, claimant)[i], elapsed, claimant),
    decreases schedule.len(),
{
    if schedule.len() > 0 {
        let rest = claimable_of(schedule.drop_last(), elapsed, claimant);
        if i < rest.len() {
            claimable_are_own_and_vested(schedule.drop_last(), elapsed, claimant, i);
        }
    }
}

/// Every vested portion of the claimant is offered to it.
pub proof fn vested_portions_are_claimable(schedule: Seq<Portion>, elapsed: int, claimant: Seq<char>, j: int)
    requires
        0 <= j < schedule.len(),
        is_claimable(schedule[j], elapsed, claimant),
    ensures
        claimable_of(schedule, elapsed, claimant).contains(schedule[j]),
    decreases schedule.len(),
{
    let rest = claimable_of(schedule.drop_last(), elapsed, claimant);
    if j < schedule.len() - 1 {
        vested_portions_are_claimable(schedule.drop_last(), elapsed, claimant, j);
        let k = choose|k: int| 0 <= k < rest.len() && rest[k] == schedule.drop_last()[j];
        if is_claimable(schedule.last(), elapsed, claimant) {
            assert(rest.push(schedule.last())[k] == schedule[j]);
        }
    } else {
        assert(rest.push(schedule.last())[rest.len() as int] == schedule[j]);
    }
}

/// The admin can hand the contract over, and there is only ever one admin: after
/// an accepted transfer the new admin is the admin and nobody else is.
pub proof fn one_admin_after_transfer(old: State, new: State, sender: Seq<char>, new_admin: String, r: Result<HandleResponse, ContractError>, who: Seq<char>)
    requires
        admin_only(old, new, sender, r),
        is_admin(old, sender) ==> done(r) && new == (State { admin: Some(new_admin), ..old }),
        r is Ok,
    ensures
        is_admin(new, new_admin@),
        who != new_admin@ ==> !is_admin(new, who),
{
}

/// A schedule given at instantiation is what launching mints: the mint's amount is
/// the sum of its portions.
pub proof fn launch_mints_initial_schedule(s0: State, s1: State, env: Env, r: Result<HandleResponse, ContractError>, portions: Vec<Portion>)
    requires
        s0.schedule == Some(portions),
        s0.total.0 == total_of(portions@),
        s0.launched is None,
        launch_outcome(s0, s1, env, r),
    ensures
        r matches Ok(resp) && resp.messages@[0] matches Snip20Msg::Mint { amount, .. }
            && amount.0 == total_of(portions@),
{
}

/// No schedule is loaded after the launch: every `Configure` then is refused and
/// leaves the schedule and total as they were.
pub proof fn no_configure_after_launch(old: State, new: State, portions: Vec<Portion>, update_check: Result<(), ContractError>, r: Result<HandleResponse, ContractError>)
    requires
        old.launched is Some,
        configure_outcome(old, new, portions, update_check, r),
    ensures
        r is Err,
        new.schedule == old.schedule,
        new.total == old.total,
{
}

/// Disowning is for good: along any run of the contract's operations, each of
/// which keeps a missing admin missing (`keeps_disowned`, which every operation
/// ensures), a contract without admin never gets one back, so every admin-only
/// request is refused.
pub proof fn disowned_forever(run: Seq<State>, who: Seq<char>)
    requires
        run.len() > 0,
        run[0].admin is None,
        forall|i: int| 0 <= i < run.len() - 1 ==> keeps_disowned(#[trigger] run[i], run[i + 1]),
    ensures
        forall|i: int| 0 <= i < run.len() ==> (#[trigger] run[i]).admin is None && !is_admin(run[i], who),
    decreases run.len(),
{
    if run.len() > 1 {
        let rest = run.drop_last();
        disowned_forever(rest, who);
        assert(rest[run.len() - 2] == run[run.len() - 2]);
        assert forall|i: int| 0 <= i < run.len() implies (#[trigger] run[i]).admin is None && !is_admin(run[i], who) by {
            if i < run.len() - 1 {
                assert(rest[i] == run[i]);
            }
        }
    }
}

/// Different allocations give different messages: the message names its total
/// and its maximum unambiguously.
pub proof fn allocation_messages_differ(t1: nat, m1: nat, t2: nat, m2: nat)
    requires
        allocation_message(t1, m1) == allocation_message(t2, m2),
    ensures
        t1 == t2,
        m1 == m2,
{
    reveal_strlit("allocations added up to ");
    reveal_strlit(" which is over the maximum of ");
    let p = "allocations added up to "@;
    let mid = " which is over the maximum of "@;
    let s1 = allocation_message(t1, m1);
    let s2 = allocation_message(t2, m2);
    let x1 = decimal_digits(t1) + (mid + decimal_digits(m1));
    let x2 = decimal_digits(t2) + (mid + decimal_digits(m2));
    assert(s1 =~= p + x1);
    assert(s2 =~= p + x2);
    assert(x1 =~= s1.subrange(p.len() as int, s1.len() as int));
    assert(x2 =~= s2.subrange(p.len() as int, s2.len() as int));
    assert(!is_digit((mid + decimal_digits(m1))[0]));
    assert(!is_digit((mid + decimal_digits(m2))[0]));
    digits_then_separator(t1, t2, mid + decimal_digits(m1), mid + decimal_digits(m2));
    let q = mid + decimal_digits(m1);
    assert(decimal_digits(m1) =~= q.subrange(mid.len() as int, q.len() as int));
    assert(decimal_digits(m2) =~= (mid + decimal_digits(m2)).subrange(mid.len() as int, q.len() as int));
    decimal_digits_injective(m1, m2);
}

/// Every accepted `Configure` makes the total the sum of the amounts of the
/// portions it loads, whether a schedule was loaded before or not.
pub proof fn configured_total_is_the_sum(old: State, new: State, portions: Vec<Portion>, update_check: Result<(), ContractError>, r: Result<HandleResponse, ContractError>)
    requires
        configure_outcome(old, new, portions, update_check, r),
        r is Ok,
    ensures
        new.schedule == Some(portions),
        new.total.0 == total_of(portions@),
{
}

/// The total of a schedule is the sum of the amounts of its portions: that of
/// no portion is zero, and each portion adds its amount.
pub proof fn total_adds_each_amount(p: Seq<Portion>, q: Portion)
    ensures
        total_of(Seq::<Portion>::empty()) == 0,
        total_of(p.push(q)) == total_of(p) + q.amount.0,
{
    assert(p.push(q).drop_last() =~= p);
}

} // verus!
