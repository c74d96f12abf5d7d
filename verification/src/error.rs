//! The ways in which a comparison can fail, by the side on which it fails.

use vstd::prelude::*;

verus! {

/// The local artifact could not be turned into code.
#[derive(Clone, Copy, Debug, PartialEq, Eq, Structural)]
pub enum LocalReadError {
    /// There is no file at the given path.
    MissingFile,
    /// The file is there but could not be read, or does not hold text where text is needed.
    Unreadable,
    /// The file does not hold a structured document.
    Malformed,
    /// The document has no bytecode at the place asked for.
    MissingPath,
    /// What stands at the place asked for does not spell bytes in hexadecimal.
    InvalidBytecode,
}

/// The deployed code could not be fetched.
#[derive(Clone, Copy, Debug, PartialEq, Eq, Structural)]
pub enum RemoteReadError {
    /// The identifier is not an address of the ecosystem.
    InvalidIdentifier,
    /// The endpoint is not an address that a request can be sent to.
    MalformedEndpoint,
    /// No code is deployed under the identifier.
    NotFound,
    /// The endpoint could not be reached, or answered with something else than code.
    Transport,
    /// The endpoint did not answer in time.
    Timeout,
    /// The endpoint serves a network with another passphrase.
    IdentityMismatch,
    /// The network goes by a passphrase and there is none to present.
    MissingIdentity,
}

/// The arguments do not say enough to start a comparison.
#[derive(Clone, Copy, Debug, PartialEq, Eq, Structural)]
pub enum ConfigurationError {
    /// The network has no endpoint of its own and none was given.
    MissingRpcUrl,
    /// The artifact is a structured document and no source unit was given.
    MissingContractPath,
    /// The artifact is a structured document and no contract name was given.
    MissingContractName,
    /// The network needs a passphrase, has none of its own and none was given.
    MissingPassphrase,
}

/// A comparison that did not reach a verdict.
#[derive(Clone, Copy, Debug, PartialEq, Eq, Structural)]
pub enum CompareError {
    Local(LocalReadError),
    Remote(RemoteReadError),
}

impl LocalReadError {
    /// The text of `describe`.
    pub open spec fn description(self) -> Seq<char> {
        match self {
            LocalReadError::MissingFile => "Local artifact not found"@,
            LocalReadError::Unreadable => "Local artifact could not be read"@,
            LocalReadError::Malformed => "Local artifact is not a valid document"@,
            LocalReadError::MissingPath => "Bytecode not found in artifact"@,
            LocalReadError::InvalidBytecode => "Bytecode in artifact is not hexadecimal"@,
        }
    }

    /// A sentence for the user.
    pub fn describe(&self) -> (text: String)
        ensures
            text@ == self.description(),
    {
        match self {
            LocalReadError::MissingFile => "Local artifact not found".to_owned(),
            LocalReadError::Unreadable => "Local artifact could not be read".to_owned(),
            LocalReadError::Malformed => "Local artifact is not a valid document".to_owned(),
            LocalReadError::MissingPath => "Bytecode not found in artifact".to_owned(),
            LocalReadError::InvalidBytecode => "Bytecode in artifact is not hexadecimal".to_owned(),
        }
    }
}

impl RemoteReadError {
    /// The text of `describe`.
    pub open spec fn description(self) -> Seq<char> {
        match self {
            RemoteReadError::InvalidIdentifier => "Remote identifier is not a valid address"@,
            RemoteReadError::MalformedEndpoint => "RPC URL is not a valid URL"@,
            RemoteReadError::NotFound => "Could not load remote contract, remote must be a deployed contract"@,
            RemoteReadError::Transport => "Could not reach the RPC endpoint"@,
            RemoteReadError::Timeout => "The RPC endpoint did not answer in time"@,
            RemoteReadError::IdentityMismatch => "Network passphrase does not match the network"@,
            RemoteReadError::MissingIdentity => "No network passphrase provided"@,
        }
    }

    /// A sentence for the user.
    pub fn describe(&self) -> (text: String)
        ensures
            text@ == self.description(),
    {
        match self {
            RemoteReadError::InvalidIdentifier => "Remote identifier is not a valid address".to_owned(),
            RemoteReadError::MalformedEndpoint => "RPC URL is not a valid URL".to_owned(),
            RemoteReadError::NotFound => "Could not load remote contract, remote must be a deployed contract".to_owned(),
            RemoteReadError::Transport => "Could not reach the RPC endpoint".to_owned(),
            RemoteReadError::Timeout => "The RPC endpoint did not answer in time".to_owned(),
            RemoteReadError::IdentityMismatch => "Network passphrase does not match the network".to_owned(),
            RemoteReadError::MissingIdentity => "No network passphrase provided".to_owned(),
        }
    }
}

impl ConfigurationError {
    /// The text of `describe`.
    pub open spec fn description(self) -> Seq<char> {
        match self {
            ConfigurationError::MissingRpcUrl => "No RPC URL provided"@,
            ConfigurationError::MissingContractPath => "Contract path required for EVM networks"@,
            ConfigurationError::MissingContractName => "Contract name required for EVM networks"@,
            ConfigurationError::MissingPassphrase => "No network passphrase provided"@,
        }
    }

    /// A sentence for the user.
    pub fn describe(&self) -> (text: String)
        ensures
            text@ == self.description(),
    {
        match self {
            ConfigurationError::MissingRpcUrl => "No RPC URL provided".to_owned(),
            ConfigurationError::MissingContractPath => "Contract path required for EVM networks".to_owned(),
            ConfigurationError::MissingContractName => "Contract name required for EVM networks".to_owned(),
            ConfigurationError::MissingPassphrase => "No network passphrase provided".to_owned(),
        }
    }
}

impl CompareError {
    /// The text of `describe`.
    pub open spec fn description(self) -> Seq<char> {
        match self {
            CompareError::Local(e) => e.description(),
            CompareError::Remote(e) => e.description(),
        }
    }

    /// A sentence for the user.
    pub fn describe(&self) -> (text: String)
        ensures
            text@ == self.description(),
    {
        match self {
            CompareError::Local(e) => e.describe(),
            CompareError::Remote(e) => e.describe(),
        }
    }
}

} // verus!
