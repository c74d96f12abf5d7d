//! From the arguments of a comparison to the network, the endpoint and the
//! loader that carry it out. Nothing here reads a file or talks to a
//! network: what is missing is found before either is touched.

use vstd::prelude::*;
use crate::args::{CmdArgs, CmdArgsView};
use crate::contract::{
    ArtifactRead, ContractLoader, RemoteReply, RemoteRequest, RemoteRequestView,
};
use crate::error::{ConfigurationError, LocalReadError, RemoteReadError};
use crate::evm::EvmLoader;
use crate::networks::{
    endpoint_of, is_known_network, layered, network_named, Network, NetworkKind, NetworkView,
};
use crate::stellar::StellarLoader;
use crate::text::lowercase;

verus! {

/// The loader of one ecosystem, whichever it is.
#[derive(Debug, Clone)]
pub enum Loader {
    Evm(EvmLoader),
    Stellar(StellarLoader),
}

/// A loader by what it was built with.
pub enum LoaderView {
    Evm { contract_path: Seq<char>, contract_name: Seq<char> },
    Stellar { network_passphrase: Option<Seq<char>> },
}

impl View for Loader {
    type V = LoaderView;

    open spec fn view(&self) -> LoaderView {
        match self {
            Loader::Evm(loader) => LoaderView::Evm {
                contract_path: loader.path(),
                contract_name: loader.name(),
            },
            Loader::Stellar(loader) => LoaderView::Stellar {
                network_passphrase: loader.passphrase(),
            },
        }
    }
}

impl LoaderView {
    /// The kind of network that the loader is for.
    pub open spec fn kind(self) -> NetworkKind {
        match self {
            LoaderView::Evm { .. } => NetworkKind::Evm,
            LoaderView::Stellar { .. } => NetworkKind::Stellar,
        }
    }
}

impl Loader {
    /// The kind of network that the loader is for.
    pub fn kind(&self) -> (kind: NetworkKind)
        ensures
            kind == self@.kind(),
    {
        match self {
            Loader::Evm(_) => NetworkKind::Evm,
            Loader::Stellar(_) => NetworkKind::Stellar,
        }
    }
}

impl ContractLoader for Loader {
    open spec fn canonical(&self, code: Seq<u8>) -> Seq<char> {
        match self {
            Loader::Evm(loader) => loader.canonical(code),
            Loader::Stellar(loader) => loader.canonical(code),
        }
    }

    open spec fn has_identity(&self) -> bool {
        match self {
            Loader::Evm(loader) => loader.has_identity(),
            Loader::Stellar(loader) => loader.has_identity(),
        }
    }

    open spec fn local_code(&self, artifact: ArtifactRead) -> Result<Seq<char>, LocalReadError> {
        match self {
            Loader::Evm(loader) => loader.local_code(artifact),
            Loader::Stellar(loader) => loader.local_code(artifact),
        }
    }

    open spec fn request_for(&self, address: Seq<char>, rpc_url: Seq<char>) -> Result<
        RemoteRequestView,
        RemoteReadError,
    > {
        match self {
            Loader::Evm(loader) => loader.request_for(address, rpc_url),
            Loader::Stellar(loader) => loader.request_for(address, rpc_url),
        }
    }

    fn load_local(&self, artifact: &ArtifactRead) -> (code: Result<String, LocalReadError>) {
        match self {
            Loader::Evm(loader) => loader.load_local(artifact),
            Loader::Stellar(loader) => loader.load_local(artifact),
        }
    }

    fn remote_request(&self, address: &str, rpc_url: &str) -> (request: Result<
        RemoteRequest,
        RemoteReadError,
    >) {
        match self {
            Loader::Evm(loader) => loader.remote_request(address, rpc_url),
            Loader::Stellar(loader) => loader.remote_request(address, rpc_url),
        }
    }

    fn load_remote(&self, reply: &RemoteReply) -> (code: Result<String, RemoteReadError>) {
        match self {
            Loader::Evm(loader) => loader.load_remote(reply),
            Loader::Stellar(loader) => loader.load_remote(reply),
        }
    }
}

/// All that a comparison needs before it reads or fetches anything.
#[derive(Debug, Clone)]
pub struct Binding {
    pub network: Network,
    /// The endpoint that requests go to.
    pub rpc_url: String,
    pub loader: Loader,
}

/// A binding as plain sequences.
pub struct BindingView {
    pub network: NetworkView,
    pub rpc_url: Seq<char>,
    pub loader: LoaderView,
}

impl View for Binding {
    type V = BindingView;

    open spec fn view(&self) -> BindingView {
        BindingView { network: self.network@, rpc_url: self.rpc_url@, loader: self.loader@ }
    }
}

/// The loader for a network. A structured artifact needs the source unit and
/// the name of the contract; a network with a passphrase needs one from the
/// caller or from the network itself.
pub open spec fn loader_for(network: NetworkView, args: CmdArgsView) -> Result<
    LoaderView,
    ConfigurationError,
> {
    match network.kind {
        NetworkKind::Evm => match (args.contract_path, args.contract_name) {
            (None, _) => Err(ConfigurationError::MissingContractPath),
            (Some(_), None) => Err(ConfigurationError::MissingContractName),
            (Some(contract_path), Some(contract_name)) => Ok(
                LoaderView::Evm { contract_path, contract_name },
            ),
        },
        NetworkKind::Stellar => match layered(args.network_passphrase, network.network_passphrase) {
            None => Err(ConfigurationError::MissingPassphrase),
            Some(passphrase) => Ok(LoaderView::Stellar { network_passphrase: Some(passphrase) }),
        },
    }
}

/// What the arguments bind a comparison to. The endpoint is settled first,
/// then the loader.
pub open spec fn bound(args: CmdArgsView) -> Result<BindingView, ConfigurationError> {
    let network = network_named(lowercase(args.network));
    match endpoint_of(network, args.rpc_url) {
        Err(e) => Err(e),
        Ok(rpc_url) => match loader_for(network, args) {
            Err(e) => Err(e),
            Ok(loader) => Ok(BindingView { network, rpc_url, loader }),
        },
    }
}

/// A binding by its view, or the error in its place.
pub open spec fn binding_view(binding: Result<Binding, ConfigurationError>) -> Result<
    BindingView,
    ConfigurationError,
> {
    match binding {
        Ok(b) => Ok(b@),
        Err(e) => Err(e),
    }
}

/// Copies an optional text.
fn copy_of(text: &Option<String>) -> (copy: Option<String>)
    ensures
        copy == *text,
{
    match text {
        Some(t) => Some(t.clone()),
        None => None,
    }
}

/// Resolves the network that the arguments name and binds the comparison to
/// its endpoint and its loader.
pub fn bind(args: &CmdArgs) -> (binding: Result<Binding, ConfigurationError>)
    ensures
        binding_view(binding) == bound(args@),
        binding matches Ok(b) ==> b.loader.has_identity(),
        !is_known_network(lowercase(args@.network)) && args@.rpc_url is None ==> binding_view(
            binding,
        ) == Err::<BindingView, ConfigurationError>(ConfigurationError::MissingRpcUrl),
{
    let network = Network::resolve(args.network.as_str());
    let rpc_url = match network.rpc_endpoint(copy_of(&args.rpc_url)) {
        Ok(url) => url,
        Err(e) => return Err(e),
    };
    let loader = match network.kind {
        NetworkKind::Evm => {
            let contract_path = match &args.contract_path {
                Some(path) => path.clone(),
                None => return Err(ConfigurationError::MissingContractPath),
            };
            let contract_name = match &args.contract_name {
                Some(name) => name.clone(),
                None => return Err(ConfigurationError::MissingContractName),
            };
            Loader::Evm(EvmLoader::new(contract_path, contract_name))
        },
        NetworkKind::Stellar => {
            match network.passphrase(copy_of(&args.network_passphrase)) {
                Some(passphrase) => Loader::Stellar(StellarLoader::new(Some(passphrase))),
                None => return Err(ConfigurationError::MissingPassphrase),
            }
        },
    };
    Ok(Binding { network, rpc_url, loader })
}

/// A binding never pairs a network with the loader of another kind, and its
/// loader for a network with a passphrase has one.
pub proof fn lemma_bound_loader_has_kind_of_network(args: CmdArgsView)
    ensures
        bound(args) matches Ok(binding) ==> binding.loader.kind() == binding.network.kind,
        bound(args) matches Ok(binding) ==> (binding.loader matches LoaderView::Stellar {
            network_passphrase,
        } ==> network_passphrase is Some),
{
}

/// A name that no network is known by binds to nothing unless the caller
/// gives an endpoint: the comparison stops for want of one.
pub proof fn lemma_unknown_network_needs_endpoint(args: CmdArgsView)
    requires
        !is_known_network(lowercase(args.network)),
        args.rpc_url is None,
    ensures
        bound(args) == Err::<BindingView, ConfigurationError>(ConfigurationError::MissingRpcUrl),
{
}

} // verus!
