//! The networks that a comparison can target, and what each is reached by.

use vstd::prelude::*;
use crate::error::ConfigurationError;
use crate::text::{lowercase, optional_text, same_text, to_lowercase};

verus! {

/// The family of chains that a network belongs to. It decides in which form
/// an artifact is read and how deployed code is fetched.
#[derive(Debug, Clone, Copy, PartialEq, Eq, Structural)]
pub enum NetworkKind {
    Stellar,
    Evm,
}

/// A network and the configuration that it comes with.
#[derive(Debug, Clone)]
pub struct Network {
    pub name: String,
    pub kind: NetworkKind,
    /// Endpoint to use when the caller gives none.
    pub default_rpc: Option<String>,
    /// Passphrase to use when the caller gives none.
    pub network_passphrase: Option<String>,
}

/// A network as plain sequences of characters.
pub struct NetworkView {
    pub name: Seq<char>,
    pub kind: NetworkKind,
    pub default_rpc: Option<Seq<char>>,
    pub network_passphrase: Option<Seq<char>>,
}

impl View for Network {
    type V = NetworkView;

    open spec fn view(&self) -> NetworkView {
        NetworkView {
            name: self.name@,
            kind: self.kind,
            default_rpc: optional_text(self.default_rpc),
            network_passphrase: optional_text(self.network_passphrase),
        }
    }
}

/// A name that cannot stand for a network. No name is refused so far.
#[derive(Debug)]
pub struct NetworkError(String);

impl NetworkError {
    /// What the error says.
    pub closed spec fn message(&self) -> Seq<char> {
        self.0@
    }

    /// What the error says, as text.
    pub fn to_string(&self) -> (text: String)
        ensures
            text@ == self.message(),
    {
        self.0.clone()
    }
}

/// The Ethereum main network.
pub open spec fn ethereum_network() -> NetworkView {
    NetworkView {
        name: "ethereum"@,
        kind: NetworkKind::Evm,
        default_rpc: Some("https://eth.llamarpc.com"@),
        network_passphrase: None,
    }
}

/// The Stellar public network.
pub open spec fn stellar_network() -> NetworkView {
    NetworkView {
        name: "stellar"@,
        kind: NetworkKind::Stellar,
        default_rpc: Some("https://mainnet.sorobanrpc.com"@),
        network_passphrase: Some("Public Global Stellar Network ; September 2015"@),
    }
}

/// The Stellar test network.
pub open spec fn stellar_testnet_network() -> NetworkView {
    NetworkView {
        name: "stellar-testnet"@,
        kind: NetworkKind::Stellar,
        default_rpc: Some("https://soroban-testnet.stellar.org"@),
        network_passphrase: Some("Test SDF Network ; September 2015"@),
    }
}

/// A network of the EVM family that the caller declares.
pub open spec fn custom_evm_network(name: Seq<char>, rpc_url: Option<Seq<char>>) -> NetworkView {
    NetworkView { name, kind: NetworkKind::Evm, default_rpc: rpc_url, network_passphrase: None }
}

/// Whether a lowercase name is that of a network with a configuration of its own.
pub open spec fn is_known_network(name: Seq<char>) -> bool {
    name == "ethereum"@ || name == "stellar"@ || name == "stellar-testnet"@
}

/// The network that a lowercase name stands for. A name that is not known
/// stands for a network of the EVM family without an endpoint.
pub open spec fn network_named(name: Seq<char>) -> NetworkView {
    if name == "ethereum"@ {
        ethereum_network()
    } else if name == "stellar"@ {
        stellar_network()
    } else if name == "stellar-testnet"@ {
        stellar_testnet_network()
    } else {
        custom_evm_network(name, None)
    }
}

/// The value to use for a setting: the caller's, else the network's own.
pub open spec fn layered(given: Option<Seq<char>>, default: Option<Seq<char>>) -> Option<Seq<char>> {
    if given is Some {
        given
    } else {
        default
    }
}

/// The endpoint to use: the caller's, else the network's own, else an error.
pub open spec fn endpoint_of(network: NetworkView, rpc_url: Option<Seq<char>>) -> Result<
    Seq<char>,
    ConfigurationError,
> {
    match layered(rpc_url, network.default_rpc) {
        Some(url) => Ok(url),
        None => Err(ConfigurationError::MissingRpcUrl),
    }
}

/// The characters of an endpoint, or the error in its place.
pub open spec fn endpoint_text(endpoint: Result<String, ConfigurationError>) -> Result<
    Seq<char>,
    ConfigurationError,
> {
    match endpoint {
        Ok(url) => Ok(url@),
        Err(e) => Err(e),
    }
}

/// Chooses between a value that the caller gave and a default.
pub fn layer(given: Option<String>, default: &Option<String>) -> (chosen: Option<String>)
    ensures
        optional_text(chosen) == layered(optional_text(given), optional_text(*default)),
{
    match given {
        Some(value) => Some(value),
        None => match default {
            Some(value) => Some(value.clone()),
            None => None,
        },
    }
}

impl Network {
    pub fn ethereum() -> (network: Network)
        ensures
            network@ == ethereum_network(),
    {
        Network {
            name: "ethereum".to_owned(),
            kind: NetworkKind::Evm,
            default_rpc: Some("https://eth.llamarpc.com".to_owned()),
            network_passphrase: None,
        }
    }

    pub fn stellar() -> (network: Network)
        ensures
            network@ == stellar_network(),
    {
        Network {
            name: "stellar".to_owned(),
            kind: NetworkKind::Stellar,
            default_rpc: Some("https://mainnet.sorobanrpc.com".to_owned()),
            network_passphrase: Some("Public Global Stellar Network ; September 2015".to_owned()),
        }
    }

    pub fn stellar_testnet() -> (network: Network)
        ensures
            network@ == stellar_testnet_network(),
    {
        Network {
            name: "stellar-testnet".to_owned(),
            kind: NetworkKind::Stellar,
            default_rpc: Some("https://soroban-testnet.stellar.org".to_owned()),
            network_passphrase: Some("Test SDF Network ; September 2015".to_owned()),
        }
    }

    pub fn custom_evm(name: String, rpc_url: Option<String>) -> (network: Network)
        ensures
            network@ == custom_evm_network(name@, optional_text(rpc_url)),
    {
        Network { name, kind: NetworkKind::Evm, default_rpc: rpc_url, network_passphrase: None }
    }

    /// The network that a lowercase name stands for. Every name stands for
    /// one.
    pub fn named(name: String) -> (network: Network)
        ensures
            network@ == network_named(name@),
    {
        if same_text(name.as_str(), "ethereum") {
            Network::ethereum()
        } else if same_text(name.as_str(), "stellar") {
            Network::stellar()
        } else if same_text(name.as_str(), "stellar-testnet") {
            Network::stellar_testnet()
        } else {
            Network::custom_evm(name, None)
        }
    }

    /// The network that a name stands for, whatever its case.
    pub fn resolve(name: &str) -> (network: Network)
        ensures
            network@ == network_named(lowercase(name@)),
    {
        Network::named(to_lowercase(name))
    }

    /// As `resolve`, in the shape of a conversion that can fail. It never does.
    pub fn from_str(s: &str) -> (network: Result<Network, NetworkError>)
        ensures
            network matches Ok(n) && n@ == network_named(lowercase(s@)),
    {
        Ok(Network::resolve(s))
    }

    /// The endpoint to send requests to: `rpc_url` where the caller gave one,
    /// else the network's own, else an error.
    pub fn rpc_endpoint(&self, rpc_url: Option<String>) -> (endpoint: Result<
        String,
        ConfigurationError,
    >)
        ensures
            endpoint_text(endpoint) == endpoint_of(self@, optional_text(rpc_url)),
    {
        match layer(rpc_url, &self.default_rpc) {
            Some(url) => Ok(url),
            None => Err(ConfigurationError::MissingRpcUrl),
        }
    }

    /// The passphrase to present: the caller's where one was given, else the
    /// network's own, if it has one.
    pub fn passphrase(&self, network_passphrase: Option<String>) -> (chosen: Option<String>)
        ensures
            optional_text(chosen) == layered(
                optional_text(network_passphrase),
                self@.network_passphrase,
            ),
    {
        layer(network_passphrase, &self.network_passphrase)
    }

    /// The name of the network.
    pub fn to_string(&self) -> (text: String)
        ensures
            text@ == self@.name,
    {
        self.name.clone()
    }
}

/// The endpoint and the passphrase that a network name comes with.
pub fn get_network_defaults(network: &str) -> (defaults: (Option<String>, Option<String>))
    ensures
        optional_text(defaults.0) == network_named(lowercase(network@)).default_rpc,
        optional_text(defaults.1) == network_named(lowercase(network@)).network_passphrase,
{
    let resolved = Network::resolve(network);
    (resolved.default_rpc, resolved.network_passphrase)
}

} // verus!
