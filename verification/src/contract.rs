//! One interface for every ecosystem: how the code of a contract is taken from
//! a local artifact and from a network, and how the two are compared.
//!
//! Reading the artifact and talking to the network are left to the caller.
//! A loader is handed what was read and what the network answered, and
//! decides what that means.

use vstd::prelude::*;
use crate::error::{CompareError, LocalReadError, RemoteReadError};

verus! {

/// What came of reading the local artifact.
#[derive(Debug, Clone, PartialEq, Eq)]
pub enum ArtifactRead {
    /// The bytes of the file.
    Contents(Vec<u8>),
    /// There is no such file.
    NotFound,
    /// The file could not be read.
    Unreadable,
}

/// What a network is to be asked.
#[derive(Debug, Clone, PartialEq, Eq)]
pub enum RemoteRequest {
    /// The code at an address, of a node of the EVM family.
    Code { rpc_url: String, address: Vec<u8> },
    /// The WebAssembly of a contract, of a Stellar RPC server.
    Wasm {
        rpc_url: String,
        contract_id: String,
        network_passphrase: String,
        rpc_headers: Vec<(String, String)>,
    },
}

/// A request as plain sequences.
pub enum RemoteRequestView {
    Code { rpc_url: Seq<char>, address: Seq<u8> },
    Wasm {
        rpc_url: Seq<char>,
        contract_id: Seq<char>,
        network_passphrase: Seq<char>,
        rpc_headers: Seq<(Seq<char>, Seq<char>)>,
    },
}

impl View for RemoteRequest {
    type V = RemoteRequestView;

    open spec fn view(&self) -> RemoteRequestView {
        match *self {
            RemoteRequest::Code { rpc_url, address } => RemoteRequestView::Code {
                rpc_url: rpc_url@,
                address: address@,
            },
            RemoteRequest::Wasm { rpc_url, contract_id, network_passphrase, rpc_headers } => {
                RemoteRequestView::Wasm {
                    rpc_url: rpc_url@,
                    contract_id: contract_id@,
                    network_passphrase: network_passphrase@,
                    rpc_headers: Seq::new(
                        rpc_headers@.len(),
                        |i: int| (rpc_headers@[i].0@, rpc_headers@[i].1@),
                    ),
                }
            },
        }
    }
}

/// What the network answered.
#[derive(Debug, Clone, PartialEq, Eq)]
pub enum RemoteReply {
    /// The code found under the identifier. It is empty where the account
    /// exists and holds no code.
    Code(Vec<u8>),
    /// Nothing is deployed under the identifier.
    NotFound,
    /// The identifier was refused before anything was looked up.
    InvalidIdentifier,
    /// The network goes by another passphrase than the one presented.
    IdentityMismatch,
    /// The endpoint could not be reached, or did not answer as an endpoint does.
    Transport,
    /// The endpoint did not answer in time.
    Timeout,
}

/// The bytes of the artifact, or why there are none. An empty file is no error.
pub open spec fn artifact_bytes(artifact: ArtifactRead) -> Result<Seq<u8>, LocalReadError> {
    match artifact {
        ArtifactRead::Contents(bytes) => Ok(bytes@),
        ArtifactRead::NotFound => Err(LocalReadError::MissingFile),
        ArtifactRead::Unreadable => Err(LocalReadError::Unreadable),
    }
}

/// The deployed bytes, or why there are none. An account without code counts
/// as not found: it is never taken for a contract whose code is empty.
pub open spec fn deployed_bytes(reply: RemoteReply) -> Result<Seq<u8>, RemoteReadError> {
    match reply {
        RemoteReply::Code(bytes) => if bytes@.len() == 0 {
            Err(RemoteReadError::NotFound)
        } else {
            Ok(bytes@)
        },
        RemoteReply::NotFound => Err(RemoteReadError::NotFound),
        RemoteReply::InvalidIdentifier => Err(RemoteReadError::InvalidIdentifier),
        RemoteReply::IdentityMismatch => Err(RemoteReadError::IdentityMismatch),
        RemoteReply::Transport => Err(RemoteReadError::Transport),
        RemoteReply::Timeout => Err(RemoteReadError::Timeout),
    }
}

/// The characters of a loaded code, or the error in its place.
pub open spec fn code_text<E>(code: Result<String, E>) -> Result<Seq<char>, E> {
    match code {
        Ok(text) => Ok(text@),
        Err(e) => Err(e),
    }
}

/// A request by its view, or the error in its place.
pub open spec fn request_view(request: Result<RemoteRequest, RemoteReadError>) -> Result<
    RemoteRequestView,
    RemoteReadError,
> {
    match request {
        Ok(r) => Ok(r@),
        Err(e) => Err(e),
    }
}

/// The bytes that a read of the artifact brought.
pub fn contents_of(artifact: &ArtifactRead) -> (bytes: Result<&Vec<u8>, LocalReadError>)
    ensures
        match bytes {
            Ok(b) => artifact_bytes(*artifact) == Ok::<Seq<u8>, LocalReadError>(b@),
            Err(e) => artifact_bytes(*artifact) == Err::<Seq<u8>, LocalReadError>(e),
        },
{
    match artifact {
        ArtifactRead::Contents(bytes) => Ok(bytes),
        ArtifactRead::NotFound => Err(LocalReadError::MissingFile),
        ArtifactRead::Unreadable => Err(LocalReadError::Unreadable),
    }
}

/// The code that the network's answer brought.
pub fn deployed_in(reply: &RemoteReply) -> (bytes: Result<&Vec<u8>, RemoteReadError>)
    ensures
        match bytes {
            Ok(b) => deployed_bytes(*reply) == Ok::<Seq<u8>, RemoteReadError>(b@),
            Err(e) => deployed_bytes(*reply) == Err::<Seq<u8>, RemoteReadError>(e),
        },
{
    match reply {
        RemoteReply::Code(bytes) => if bytes.len() == 0 {
            Err(RemoteReadError::NotFound)
        } else {
            Ok(bytes)
        },
        RemoteReply::NotFound => Err(RemoteReadError::NotFound),
        RemoteReply::InvalidIdentifier => Err(RemoteReadError::InvalidIdentifier),
        RemoteReply::IdentityMismatch => Err(RemoteReadError::IdentityMismatch),
        RemoteReply::Transport => Err(RemoteReadError::Transport),
        RemoteReply::Timeout => Err(RemoteReadError::Timeout),
    }
}

/// The two sides of a comparison for one ecosystem.
pub trait ContractLoader {
    /// The form in which this ecosystem compares code: both sides of a
    /// comparison derive it from the bytes of the contract.
    spec fn canonical(&self, code: Seq<u8>) -> Seq<char>;

    /// Whether the loader has what its ecosystem asks a client to present.
    /// A loader without it reaches no network.
    spec fn has_identity(&self) -> bool;

    /// The code that the local artifact stands for.
    spec fn local_code(&self, artifact: ArtifactRead) -> Result<Seq<char>, LocalReadError>;

    /// The request that fetches the code deployed under `address`.
    spec fn request_for(&self, address: Seq<char>, rpc_url: Seq<char>) -> Result<
        RemoteRequestView,
        RemoteReadError,
    >;

    /// Takes the code of the contract from what was read of the local artifact.
    fn load_local(&self, artifact: &ArtifactRead) -> (code: Result<String, LocalReadError>)
        ensures
            code_text(code) == self.local_code(*artifact),
    ;

    /// Checks the identifier and the endpoint, and says what to ask the network.
    fn remote_request(&self, address: &str, rpc_url: &str) -> (request: Result<
        RemoteRequest,
        RemoteReadError,
    >)
        ensures
            request_view(request) == self.request_for(address@, rpc_url@),
            !self.has_identity() ==> request_view(request) == Err::<
                RemoteRequestView,
                RemoteReadError,
            >(RemoteReadError::MissingIdentity),
    ;

    /// Takes the code of the contract from the network's answer: the deployed
    /// bytes in this ecosystem's form, or the reason why none were had. A
    /// loader without identity takes no answer for code.
    fn load_remote(&self, reply: &RemoteReply) -> (code: Result<String, RemoteReadError>)
        ensures
            code_text(code) == if !self.has_identity() {
                Err::<Seq<char>, RemoteReadError>(RemoteReadError::MissingIdentity)
            } else {
                match deployed_bytes(*reply) {
                    Ok(bytes) => Ok::<Seq<char>, RemoteReadError>(self.canonical(bytes)),
                    Err(e) => Err::<Seq<char>, RemoteReadError>(e),
                }
            },
    ;
}

/// The code that the network's answer stands for to a loader.
pub open spec fn remote_code<L: ContractLoader>(loader: &L, reply: RemoteReply) -> Result<
    Seq<char>,
    RemoteReadError,
> {
    if !loader.has_identity() {
        Err(RemoteReadError::MissingIdentity)
    } else {
        match deployed_bytes(reply) {
            Ok(bytes) => Ok(loader.canonical(bytes)),
            Err(e) => Err(e),
        }
    }
}

/// What a comparison comes to. A side that failed is reported, the local one
/// first, and nothing is compared; two codes match where they are equal.
pub open spec fn verdict(
    local: Result<Seq<char>, LocalReadError>,
    remote: Result<Seq<char>, RemoteReadError>,
) -> Result<bool, CompareError> {
    match local {
        Err(e) => Err(CompareError::Local(e)),
        Ok(l) => match remote {
            Err(e) => Err(CompareError::Remote(e)),
            Ok(r) => Ok(l == r),
        },
    }
}

/// A comparison that has its local code and waits for the network's answer.
#[derive(Debug, Clone, PartialEq, Eq)]
pub struct Pending {
    /// The code of the local artifact.
    pub local_code: String,
    /// What to ask the network.
    pub request: RemoteRequest,
}

/// The first half of a comparison: the local code and the request to send.
/// A local artifact that cannot be loaded is reported before an identifier
/// or an endpoint that cannot be used, and then there is nothing to send.
pub open spec fn begun(
    local: Result<Seq<char>, LocalReadError>,
    request: Result<RemoteRequestView, RemoteReadError>,
) -> Result<(Seq<char>, RemoteRequestView), CompareError> {
    match local {
        Err(e) => Err(CompareError::Local(e)),
        Ok(code) => match request {
            Err(e) => Err(CompareError::Remote(e)),
            Ok(r) => Ok((code, r)),
        },
    }
}

/// A pending comparison by its views, or the error in its place.
pub open spec fn pending_view(pending: Result<Pending, CompareError>) -> Result<
    (Seq<char>, RemoteRequestView),
    CompareError,
> {
    match pending {
        Ok(p) => Ok((p.local_code@, p.request@)),
        Err(e) => Err(e),
    }
}

/// Compares a local artifact with deployed code, through one loader.
pub struct ContractComparator<L: ContractLoader> {
    loader: L,
}

impl<L: ContractLoader> ContractComparator<L> {
    /// The loader that this comparator was built with.
    pub closed spec fn loader_spec(&self) -> &L {
        &self.loader
    }

    pub fn new(loader: L) -> (comparator: Self)
        ensures
            *comparator.loader_spec() == loader,
    {
        Self { loader }
    }

    /// The loader, to ask it for the request to send.
    pub fn loader(&self) -> (loader: &L)
        ensures
            loader == self.loader_spec(),
    {
        &self.loader
    }

    /// Whether the local artifact and the deployed contract hold the same code.
    pub fn compare(&self, artifact: &ArtifactRead, reply: &RemoteReply) -> (matches: Result<
        bool,
        CompareError,
    >)
        ensures
            matches == verdict(
                self.loader_spec().local_code(*artifact),
                remote_code(self.loader_spec(), *reply),
            ),
    {
        let local = match self.loader.load_local(artifact) {
            Ok(code) => code,
            Err(e) => return Err(CompareError::Local(e)),
        };
        let remote = match self.loader.load_remote(reply) {
            Ok(code) => code,
            Err(e) => return Err(CompareError::Remote(e)),
        };
        Ok(local == remote)
    }

    /// Starts a comparison: loads the local code and says what to ask the
    /// network. Where this fails, the network is not to be asked at all.
    pub fn begin(&self, artifact: &ArtifactRead, remote_address: &str, rpc_url: &str) -> (pending:
        Result<Pending, CompareError>)
        ensures
            pending_view(pending) == begun(
                self.loader_spec().local_code(*artifact),
                self.loader_spec().request_for(remote_address@, rpc_url@),
            ),
    {
        let local_code = match self.loader.load_local(artifact) {
            Ok(code) => code,
            Err(e) => return Err(CompareError::Local(e)),
        };
        let request = match self.loader.remote_request(remote_address, rpc_url) {
            Ok(request) => request,
            Err(e) => return Err(CompareError::Remote(e)),
        };
        Ok(Pending { local_code, request })
    }

    /// Ends a comparison with the network's answer: whether the deployed
    /// contract holds the code that the comparison began with.
    pub fn finish(&self, pending: &Pending, reply: &RemoteReply) -> (matches: Result<
        bool,
        CompareError,
    >)
        ensures
            matches == verdict(Ok(pending.local_code@), remote_code(self.loader_spec(), *reply)),
    {
        match self.loader.load_remote(reply) {
            Ok(code) => Ok(pending.local_code == code),
            Err(e) => Err(CompareError::Remote(e)),
        }
    }
}

/// A comparison in two halves comes to the verdict of a comparison at once:
/// where the first half succeeds, the second gives what `compare` gives.
pub proof fn lemma_halves_agree_with_compare<L: ContractLoader>(
    loader: &L,
    artifact: ArtifactRead,
    address: Seq<char>,
    rpc_url: Seq<char>,
    reply: RemoteReply,
)
    ensures
        begun(loader.local_code(artifact), loader.request_for(address, rpc_url)) matches Ok(half)
            ==> verdict(Ok(half.0), remote_code(loader, reply)) == verdict(
            loader.local_code(artifact),
            remote_code(loader, reply),
        ),
        begun(loader.local_code(artifact), loader.request_for(address, rpc_url)) is Err
            <==> loader.local_code(artifact) is Err || loader.request_for(address, rpc_url) is Err,
{
}

/// Which side is called local and which remote makes no difference to whether
/// two codes match.
pub proof fn lemma_match_is_symmetric(one: Seq<char>, other: Seq<char>)
    ensures
        verdict(Ok(one), Ok(other)) == verdict(Ok(other), Ok(one)),
{
}

/// The same deployed bytes always stand for the same code.
pub proof fn lemma_code_depends_on_bytes_alone<L: ContractLoader>(
    loader: &L,
    one: RemoteReply,
    other: RemoteReply,
)
    requires
        deployed_bytes(one) == deployed_bytes(other),
    ensures
        remote_code(loader, one) == remote_code(loader, other),
{
}

/// Where nothing is deployed under the identifier, or an account without
/// code, the comparison fails, whatever the local artifact holds: the
/// verdict is neither a match nor a mismatch.
pub proof fn lemma_absent_contract_is_an_error<L: ContractLoader>(
    loader: &L,
    artifact: ArtifactRead,
    reply: RemoteReply,
)
    requires
        reply is NotFound || (reply matches RemoteReply::Code(bytes) && bytes@.len() == 0),
    ensures
        remote_code(loader, reply) is Err,
        verdict(loader.local_code(artifact), remote_code(loader, reply)) is Err,
        loader.has_identity() ==> remote_code(loader, reply) == Err::<Seq<char>, RemoteReadError>(
            RemoteReadError::NotFound,
        ),
        loader.has_identity() && loader.local_code(artifact) is Ok ==> verdict(
            loader.local_code(artifact),
            remote_code(loader, reply),
        ) == Err::<bool, CompareError>(CompareError::Remote(RemoteReadError::NotFound)),
{
}

/// A network that goes by another passphrase fails the comparison with an
/// error of its own, which is not the one for a contract that was not found.
pub proof fn lemma_identity_mismatch_is_its_own_error<L: ContractLoader>(
    loader: &L,
    artifact: ArtifactRead,
)
    requires
        loader.has_identity(),
    ensures
        remote_code(loader, RemoteReply::IdentityMismatch) == Err::<Seq<char>, RemoteReadError>(
            RemoteReadError::IdentityMismatch,
        ),
        remote_code(loader, RemoteReply::IdentityMismatch) != remote_code(
            loader,
            RemoteReply::NotFound,
        ),
        loader.local_code(artifact) is Ok ==> verdict(
            loader.local_code(artifact),
            remote_code(loader, RemoteReply::IdentityMismatch),
        ) == Err::<bool, CompareError>(CompareError::Remote(RemoteReadError::IdentityMismatch)),
{
}

/// A side that failed is never taken for a mismatch: there is a verdict only
/// where both sides brought code, and it says whether the two are equal.
pub proof fn lemma_verdict_needs_both_sides(
    local: Result<Seq<char>, LocalReadError>,
    remote: Result<Seq<char>, RemoteReadError>,
)
    ensures
        verdict(local, remote) is Ok <==> local is Ok && remote is Ok,
        verdict(local, remote) matches Ok(same) ==> same == (local->Ok_0 == remote->Ok_0),
{
}

/// A loader without identity fails every comparison on the remote side,
/// whatever the network is said to have answered, and asks for no request.
pub proof fn lemma_no_identity_no_remote_code<L: ContractLoader>(
    loader: &L,
    artifact: ArtifactRead,
    reply: RemoteReply,
)
    requires
        !loader.has_identity(),
    ensures
        remote_code(loader, reply) == Err::<Seq<char>, RemoteReadError>(
            RemoteReadError::MissingIdentity,
        ),
        verdict(loader.local_code(artifact), remote_code(loader, reply)) is Err,
{
}

} // verus!
