use vstd::prelude::*;

use crate::text::{concat2, concat3};

verus! {

/// A failure reported through the contract interfaces.
#[derive(Debug, Clone)]
pub enum ContractError {
    Policy(PolicyError),
    Runtime(RuntimeError),
    Verification(VerificationError),
    InvalidTransition(String),
    Storage(String),
    Internal(String),
}

/// A policy rejection with its code.
#[derive(Debug, Clone)]
pub struct PolicyError {
    pub code: String,
    pub message: String,
}

/// A runtime failure with its code.
#[derive(Debug, Clone)]
pub struct RuntimeError {
    pub code: String,
    pub message: String,
}

/// A verification failure with its code.
#[derive(Debug, Clone)]
pub struct VerificationError {
    pub code: String,
    pub message: String,
}

/// `"{kind} error [{code}]: {message}"`.
pub open spec fn coded_text(kind: Seq<char>, code: Seq<char>, message: Seq<char>) -> Seq<char> {
    kind + " error ["@ + code + "]: "@ + message
}

/// The text of an error, as its `Display` writes it.
pub open spec fn contract_error_text(e: ContractError) -> Seq<char> {
    match e {
        ContractError::Policy(err) => coded_text("policy"@, err.code@, err.message@),
        ContractError::Runtime(err) => coded_text("runtime"@, err.code@, err.message@),
        ContractError::Verification(err) => coded_text("verification"@, err.code@, err.message@),
        ContractError::InvalidTransition(msg) => "invalid transition: "@ + msg@,
        ContractError::Storage(msg) => "storage error: "@ + msg@,
        ContractError::Internal(msg) => "internal error: "@ + msg@,
    }
}

fn coded(kind: &str, code: &String, message: &String) -> (r: String)
    ensures
        r@ == coded_text(kind@, code@, message@),
{
    let head = concat3(kind, " error [", code.as_str());
    concat3(head.as_str(), "]: ", message.as_str())
}

impl ContractError {
    /// The error's message.
    pub fn message(&self) -> (r: String)
        ensures
            r@ == contract_error_text(*self),
    {
        match self {
            ContractError::Policy(err) => coded("policy", &err.code, &err.message),
            ContractError::Runtime(err) => coded("runtime", &err.code, &err.message),
            ContractError::Verification(err) => coded("verification", &err.code, &err.message),
            ContractError::InvalidTransition(msg) => concat2("invalid transition: ", msg.as_str()),
            ContractError::Storage(msg) => concat2("storage error: ", msg.as_str()),
            ContractError::Internal(msg) => concat2("internal error: ", msg.as_str()),
        }
    }
}

} // verus!
