use vstd::prelude::*;

use crate::decoded::DataDecoded;

verus! {

/// How a safe runs a transaction: a plain call, or a delegate call that runs the
/// target's code in the safe's own context.
#[allow(non_camel_case_types)]
#[derive(Clone, Copy, Debug, PartialEq, Eq, Structural)]
pub enum Operation {
    CALL,
    DELEGATE,
}

/// One owner's confirmation of a pending transaction.
pub struct Confirmation {
    pub owner: String,
    pub signature: Option<String>,
}

/// A transaction of a multisig safe as the execution backend reports it.
pub struct MultisigTransaction {
    pub safe: String,
    pub to: String,
    /// Amount of ether sent, in decimal.
    pub value: Option<String>,
    /// Call data as a `0x`-prefixed hex string.
    pub data: Option<String>,
    pub data_decoded: Option<DataDecoded>,
    pub operation: Operation,
    pub nonce: u64,
    pub is_executed: bool,
    pub is_successful: Option<bool>,
    pub confirmations: Option<Vec<Confirmation>>,
    pub confirmations_required: Option<u64>,
}

/// A transaction that a module of the safe sent: it needs no confirmations.
pub struct ModuleTransaction {
    pub safe: String,
    pub to: String,
    pub value: Option<String>,
    pub data: Option<String>,
    pub operation: Operation,
}

/// What the chain says of a safe now.
#[derive(Clone, Copy, Debug, PartialEq, Eq, Structural)]
pub struct SafeInfo {
    /// The nonce of the next transaction the safe will run.
    pub nonce: u64,
    /// Confirmations a transaction needs unless it says otherwise.
    pub threshold: u64,
}

/// The kind of a token contract.
#[derive(Clone, Copy, Debug, PartialEq, Eq, Structural)]
pub enum TokenType {
    Erc20,
    Erc721,
    Other,
}

/// Metadata of a token contract.
pub struct TokenInfo {
    pub address: String,
    pub name: String,
    pub symbol: String,
    pub decimals: u64,
    pub logo_uri: Option<String>,
    pub token_type: TokenType,
}

} // verus!
