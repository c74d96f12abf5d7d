//! Contracts that are built and deployed as one WebAssembly binary. Such code
//! is compared by the SHA-256 digest of its bytes.

use vstd::prelude::*;
use crate::contract::{
    artifact_bytes, code_text, contents_of, deployed_bytes, deployed_in, ArtifactRead, RemoteReply,
    RemoteRequest, RemoteRequestView,
};
use crate::encoding::{hashed_encoding, hex_of, sha256_of};
use crate::error::{ConfigurationError, LocalReadError, RemoteReadError};
use crate::networks::{endpoint_of, is_known_network, layer, layered, network_named, Network};
use crate::text::{lowercase, optional_text};

verus! {

/// The headers that every request to a Stellar RPC server carries.
pub open spec fn json_headers() -> Seq<(Seq<char>, Seq<char>)> {
    seq![("Content-Type"@, "application/json"@)]
}

/// The request for the binary of a contract.
pub open spec fn wasm_request(
    rpc_url: Seq<char>,
    contract_id: Seq<char>,
    network_passphrase: Seq<char>,
) -> RemoteRequestView {
    RemoteRequestView::Wasm { rpc_url, contract_id, network_passphrase, rpc_headers: json_headers() }
}

/// The code that a binary read from disk stands for.
pub open spec fn local_file_code(artifact: ArtifactRead) -> Result<Seq<char>, LocalReadError> {
    match artifact_bytes(artifact) {
        Ok(bytes) => Ok(hashed_encoding(bytes)),
        Err(e) => Err(e),
    }
}

/// The code that the answer of the network stands for.
pub open spec fn remote_file_code(reply: RemoteReply) -> Result<Seq<char>, RemoteReadError> {
    match deployed_bytes(reply) {
        Ok(bytes) => Ok(hashed_encoding(bytes)),
        Err(e) => Err(e),
    }
}

/// The request for the binary of a contract on a named network. Endpoint and
/// passphrase are the caller's where given, else those of the network; with
/// no endpoint from either there is no request, and with an endpoint and no
/// passphrase from either there is none.
pub open spec fn remote_file_request_for(
    network: Seq<char>,
    contract_id: Seq<char>,
    rpc_url: Option<Seq<char>>,
    network_passphrase: Option<Seq<char>>,
) -> Result<RemoteRequestView, ConfigurationError> {
    let target = network_named(lowercase(network));
    match endpoint_of(target, rpc_url) {
        Ok(url) => match layered(network_passphrase, target.network_passphrase) {
            Some(passphrase) => Ok(wasm_request(url, contract_id, passphrase)),
            None => Err(ConfigurationError::MissingPassphrase),
        },
        Err(e) => Err(e),
    }
}

/// A request by its view, or the error in its place.
pub open spec fn configured_request(request: Result<RemoteRequest, ConfigurationError>) -> Result<
    RemoteRequestView,
    ConfigurationError,
> {
    match request {
        Ok(r) => Ok(r@),
        Err(e) => Err(e),
    }
}

/// The SHA-256 digest of a binary, in lowercase hexadecimal.
pub fn hash_wasm(bytes: &[u8]) -> (hash: String)
    ensures
        hash@ == hashed_encoding(bytes@),
        hash@.len() == 64,
{
    let digest = sha256_of(bytes);
    hex_of(digest.as_slice())
}

/// Builds the request for the binary of a contract.
pub fn new_wasm_request(
    rpc_url: String,
    contract_id: String,
    network_passphrase: String,
) -> (request: RemoteRequest)
    ensures
        request@ == wasm_request(rpc_url@, contract_id@, network_passphrase@),
{
    let mut rpc_headers: Vec<(String, String)> = Vec::new();
    rpc_headers.push(("Content-Type".to_owned(), "application/json".to_owned()));
    let request = RemoteRequest::Wasm { rpc_url, contract_id, network_passphrase, rpc_headers };
    assert(request@->Wasm_rpc_headers =~= json_headers());
    request
}

/// The code of a binary that was read from disk.
pub fn load_local_file(artifact: &ArtifactRead) -> (code: Result<String, LocalReadError>)
    ensures
        code_text(code) == local_file_code(*artifact),
{
    match contents_of(artifact) {
        Ok(bytes) => Ok(hash_wasm(bytes.as_slice())),
        Err(e) => Err(e),
    }
}

/// Says what to ask a named network for the binary of a contract. A name
/// that no network is known by gives no request unless the caller gives an
/// endpoint.
pub fn remote_file_request(
    network: &str,
    contract_id: &str,
    rpc_url: Option<String>,
    network_passphrase: Option<String>,
) -> (request: Result<RemoteRequest, ConfigurationError>)
    ensures
        configured_request(request) == remote_file_request_for(
            network@,
            contract_id@,
            optional_text(rpc_url),
            optional_text(network_passphrase),
        ),
        !is_known_network(lowercase(network@)) && rpc_url is None ==> configured_request(request)
            == Err::<RemoteRequestView, ConfigurationError>(ConfigurationError::MissingRpcUrl),
{
    let target = Network::resolve(network);
    let url = match target.rpc_endpoint(rpc_url) {
        Ok(url) => url,
        Err(e) => return Err(e),
    };
    match layer(network_passphrase, &target.network_passphrase) {
        Some(passphrase) => Ok(new_wasm_request(url, contract_id.to_owned(), passphrase)),
        None => Err(ConfigurationError::MissingPassphrase),
    }
}

/// A name that no network is known by has no request for a binary unless the
/// caller gives an endpoint, whatever else is given.
pub proof fn lemma_unknown_network_has_no_file_request(
    network: Seq<char>,
    contract_id: Seq<char>,
    network_passphrase: Option<Seq<char>>,
)
    requires
        !is_known_network(lowercase(network)),
    ensures
        remote_file_request_for(network, contract_id, None, network_passphrase) == Err::<
            RemoteRequestView,
            ConfigurationError,
        >(ConfigurationError::MissingRpcUrl),
{
}

/// The code of the binary that the network answered with.
pub fn load_remote_file(reply: &RemoteReply) -> (code: Result<String, RemoteReadError>)
    ensures
        code_text(code) == remote_file_code(*reply),
{
    match deployed_in(reply) {
        Ok(bytes) => Ok(hash_wasm(bytes.as_slice())),
        Err(e) => Err(e),
    }
}

} // verus!
