use vstd::prelude::*;

verus! {

/// What a contract learns of the transaction that calls it.
#[derive(Debug, PartialEq, Eq)]
pub struct Env {
    /// Height of the block that holds the transaction.
    pub block_height: u64,
    /// Time of that block, in seconds since the UNIX epoch.
    pub block_time: u64,
    /// Address of the account or contract that sent the message.
    pub sender: String,
    /// Address of the called contract.
    pub contract_address: String,
    /// Code hash of the called contract.
    pub contract_code_hash: String,
}

/// A key/value pair of a response's log.
#[derive(Debug, PartialEq, Eq)]
pub struct LogAttribute {
    pub key: String,
    pub value: String,
}

/// Builds a log entry with the given key and value.
pub fn log(key: &str, value: String) -> (l: LogAttribute)
    ensures
        l.key@ == key@,
        l.value == value,
{
    LogAttribute { key: key.to_owned(), value }
}

/// Builds a log entry `("action", action)`.
pub fn log_action(action: &str) -> (l: LogAttribute)
    ensures
        l.key@ == "action"@,
        l.value@ == action@,
{
    log("action", action.to_owned())
}

} // verus!
