use vstd::prelude::*;

verus! {

/// Errors that can occur while testing.
#[derive(Debug)]
pub enum Error {
    /// The execution engine rejected or failed to run a transaction.
    EvmExecution(String),
    /// Consensus validation failed.
    Consensus(String),
    /// An Engine API operation failed.
    EngineApi(String),
    /// Loading or saving a fixture failed.
    Fixture(String),
    /// An RPC call failed.
    Rpc(String),
    /// Any other failure.
    Generic(String),
}

/// Result type used throughout the harness.
pub type Result<T> = core::result::Result<T, Error>;

/// The message carried by an error.
pub open spec fn error_message(e: Error) -> Seq<char> {
    match e {
        Error::EvmExecution(m) => m@,
        Error::Consensus(m) => m@,
        Error::EngineApi(m) => m@,
        Error::Fixture(m) => m@,
        Error::Rpc(m) => m@,
        Error::Generic(m) => m@,
    }
}

/// The prefix that names the kind of an error in its text.
pub open spec fn error_prefix(e: Error) -> Seq<char> {
    match e {
        Error::EvmExecution(_) => "EVM execution failed: "@,
        Error::Consensus(_) => "Consensus validation failed: "@,
        Error::EngineApi(_) => "Engine API error: "@,
        Error::Fixture(_) => "Fixture error: "@,
        Error::Rpc(_) => "RPC error: "@,
        Error::Generic(_) => "Test harness error: "@,
    }
}

impl Error {
    /// Creates an EVM execution error.
    pub fn evm_execution(msg: &str) -> (r: Self)
        ensures
            r is EvmExecution,
            error_message(r) == msg@,
    {
        Error::EvmExecution(msg.to_owned())
    }

    /// Creates a consensus error.
    pub fn consensus(msg: &str) -> (r: Self)
        ensures
            r is Consensus,
            error_message(r) == msg@,
    {
        Error::Consensus(msg.to_owned())
    }

    /// Creates an Engine API error.
    pub fn engine_api(msg: &str) -> (r: Self)
        ensures
            r is EngineApi,
            error_message(r) == msg@,
    {
        Error::EngineApi(msg.to_owned())
    }

    /// Creates a fixture error.
    pub fn fixture(msg: &str) -> (r: Self)
        ensures
            r is Fixture,
            error_message(r) == msg@,
    {
        Error::Fixture(msg.to_owned())
    }

    /// The human-readable text of the error: its kind, then its message.
    pub fn to_text(&self) -> (r: String)
        ensures
            r@ == error_prefix(*self) + error_message(*self),
    {
        let (prefix, msg) = match self {
            Error::EvmExecution(m) => ("EVM execution failed: ", m),
            Error::Consensus(m) => ("Consensus validation failed: ", m),
            Error::EngineApi(m) => ("Engine API error: ", m),
            Error::Fixture(m) => ("Fixture error: ", m),
            Error::Rpc(m) => ("RPC error: ", m),
            Error::Generic(m) => ("Test harness error: ", m),
        };
        let mut s = String::from_str(prefix);
        s.append(msg.as_str());
        s
    }
}

} // verus!
