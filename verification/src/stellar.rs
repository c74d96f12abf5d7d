//! The loader for Stellar networks, whose contracts are WebAssembly binaries.

use vstd::prelude::*;
use crate::contract::{
    remote_code, verdict, ArtifactRead, ContractLoader, RemoteReply, RemoteRequest,
    RemoteRequestView,
};
use crate::encoding::{hashed_encoding, lemma_hashed_encoding_follows_digest, sha256};
use crate::error::{CompareError, LocalReadError, RemoteReadError};
use crate::text::optional_text;
use crate::wasm::{
    load_local_file, load_remote_file, local_file_code, new_wasm_request, wasm_request,
};
pub use crate::wasm::hash_wasm;

verus! {

/// Loads contracts of a Stellar network. The passphrase says which network is
/// meant; the server refuses a request that presents another one. A loader
/// built without a passphrase reads local artifacts and nothing else.
#[derive(Debug, Clone)]
pub struct StellarLoader {
    network_passphrase: Option<String>,
}

impl StellarLoader {
    /// The passphrase that requests present.
    pub closed spec fn passphrase(&self) -> Option<Seq<char>> {
        optional_text(self.network_passphrase)
    }

    pub fn new(network_passphrase: Option<String>) -> (loader: Self)
        ensures
            loader.passphrase() == optional_text(network_passphrase),
    {
        Self { network_passphrase }
    }
}

impl ContractLoader for StellarLoader {
    open spec fn canonical(&self, code: Seq<u8>) -> Seq<char> {
        hashed_encoding(code)
    }

    /// The identity of a Stellar network is its passphrase.
    open spec fn has_identity(&self) -> bool {
        self.passphrase() is Some
    }

    open spec fn local_code(&self, artifact: ArtifactRead) -> Result<Seq<char>, LocalReadError> {
        local_file_code(artifact)
    }

    /// Without a passphrase there is nothing to ask. With one, every
    /// identifier and every endpoint is passed on as given: it is the
    /// server's client that reads them.
    open spec fn request_for(&self, address: Seq<char>, rpc_url: Seq<char>) -> Result<
        RemoteRequestView,
        RemoteReadError,
    > {
        match self.passphrase() {
            Some(passphrase) => Ok(wasm_request(rpc_url, address, passphrase)),
            None => Err(RemoteReadError::MissingIdentity),
        }
    }

    fn load_local(&self, artifact: &ArtifactRead) -> (code: Result<String, LocalReadError>) {
        load_local_file(artifact)
    }

    fn remote_request(&self, address: &str, rpc_url: &str) -> (request: Result<
        RemoteRequest,
        RemoteReadError,
    >) {
        match &self.network_passphrase {
            Some(passphrase) => Ok(
                new_wasm_request(rpc_url.to_owned(), address.to_owned(), passphrase.clone()),
            ),
            None => Err(RemoteReadError::MissingIdentity),
        }
    }

    fn load_remote(&self, reply: &RemoteReply) -> (code: Result<String, RemoteReadError>) {
        if self.network_passphrase.is_none() {
            return Err(RemoteReadError::MissingIdentity);
        }
        load_remote_file(reply)
    }
}

/// A binary matches itself: where the network holds the bytes of the local
/// artifact, and they are not empty, the verdict is a match.
pub proof fn lemma_same_binary_matches(loader: &StellarLoader, built: Vec<u8>, deployed: Vec<u8>)
    requires
        loader.has_identity(),
        built@ == deployed@,
        built@.len() > 0,
    ensures
        verdict(
            loader.local_code(ArtifactRead::Contents(built)),
            remote_code(loader, RemoteReply::Code(deployed)),
        ) == Ok::<bool, CompareError>(true),
{
}

/// Two binaries match exactly where their digests are equal: wherever
/// SHA-256 tells them apart, the verdict is a mismatch.
pub proof fn lemma_binaries_match_by_digest(
    loader: &StellarLoader,
    built: Vec<u8>,
    deployed: Vec<u8>,
)
    requires
        loader.has_identity(),
        deployed@.len() > 0,
    ensures
        verdict(
            loader.local_code(ArtifactRead::Contents(built)),
            remote_code(loader, RemoteReply::Code(deployed)),
        ) == Ok::<bool, CompareError>(sha256(built@) == sha256(deployed@)),
{
    lemma_hashed_encoding_follows_digest(built@, deployed@);
}

/// A loader without passphrase has no request to send and takes no answer
/// for code.
pub proof fn lemma_passphrase_must_be_supplied(
    loader: &StellarLoader,
    address: Seq<char>,
    rpc_url: Seq<char>,
    reply: RemoteReply,
)
    requires
        loader.passphrase() is None,
    ensures
        loader.request_for(address, rpc_url) == Err::<RemoteRequestView, RemoteReadError>(
            RemoteReadError::MissingIdentity,
        ),
        remote_code(loader, reply) == Err::<Seq<char>, RemoteReadError>(
            RemoteReadError::MissingIdentity,
        ),
{
}

} // verus!
