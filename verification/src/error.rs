//! The ways a request to the worker can fail.

use vstd::prelude::*;
use vstd::string::*;

verus! {

/// Why a request failed.
#[derive(Debug, PartialEq, Eq)]
pub enum BrokerError {
    /// The worker could not be started. Carries the launcher's description.
    SpawnFailure(String),
    /// The request could not be written to the worker's input.
    WriteFailure(String),
    /// The worker's response line is not valid text.
    DecodeFailure(String),
    /// The worker ended before it answered.
    BackendTerminated,
    /// The worker's output ended without an answer.
    NoResponse,
}

/// The mathematical content of a `BrokerError`.
pub enum Failure {
    Spawn(Seq<char>),
    Write(Seq<char>),
    Decode(Seq<char>),
    Terminated,
    NoResponse,
}

impl View for BrokerError {
    type V = Failure;

    open spec fn view(&self) -> Failure {
        match self {
            BrokerError::SpawnFailure(text) => Failure::Spawn(text@),
            BrokerError::WriteFailure(text) => Failure::Write(text@),
            BrokerError::DecodeFailure(text) => Failure::Decode(text@),
            BrokerError::BackendTerminated => Failure::Terminated,
            BrokerError::NoResponse => Failure::NoResponse,
        }
    }
}

impl Failure {
    /// The text shown to the caller for this failure.
    pub open spec fn message(self) -> Seq<char> {
        match self {
            Failure::Spawn(text) => text,
            Failure::Write(text) => text,
            Failure::Decode(text) => text,
            Failure::Terminated => "Backend terminated unexpectedly"@,
            Failure::NoResponse => "No response from backend"@,
        }
    }

    /// A failure after which the broker holds no worker.
    pub open spec fn loses_worker(self) -> bool {
        self is Spawn || self is Terminated || self is NoResponse
    }
}

impl Clone for BrokerError {
    fn clone(&self) -> (copy: Self)
        ensures
            copy@ == self@,
    {
        match self {
            BrokerError::SpawnFailure(text) => BrokerError::SpawnFailure(text.clone()),
            BrokerError::WriteFailure(text) => BrokerError::WriteFailure(text.clone()),
            BrokerError::DecodeFailure(text) => BrokerError::DecodeFailure(text.clone()),
            BrokerError::BackendTerminated => BrokerError::BackendTerminated,
            BrokerError::NoResponse => BrokerError::NoResponse,
        }
    }
}

impl BrokerError {
    /// The text shown to the caller for this failure.
    pub fn message(&self) -> (text: String)
        ensures
            text@ == self@.message(),
    {
        match self {
            BrokerError::SpawnFailure(text) => text.clone(),
            BrokerError::WriteFailure(text) => text.clone(),
            BrokerError::DecodeFailure(text) => text.clone(),
            BrokerError::BackendTerminated => String::from_str("Backend terminated unexpectedly"),
            BrokerError::NoResponse => String::from_str("No response from backend"),
        }
    }

    /// Whether the broker holds no worker after this failure.
    pub fn loses_worker(&self) -> (r: bool)
        ensures
            r == self@.loses_worker(),
    {
        match self {
            BrokerError::SpawnFailure(_) => true,
            BrokerError::BackendTerminated => true,
            BrokerError::NoResponse => true,
            _ => false,
        }
    }
}

} // verus!
