//! The loader for networks of the EVM family. The local artifact is the
//! compiler's output, a structured document that spells the bytecode of many
//! contracts in hexadecimal. The bytes that it spells and the deployed bytes
//! are compared in one form: lowercase hexadecimal without prefix.

use vstd::prelude::*;
use std::str::FromStr;
use alloy_primitives::Address;
use crate::contract::{
    artifact_bytes, code_text, contents_of, deployed_bytes, deployed_in, remote_code,
    request_view, verdict, ArtifactRead, ContractLoader, RemoteReply, RemoteRequest,
    RemoteRequestView,
};
use crate::encoding::{
    hex_bytes, hex_decoding, hex_digits_of, hex_encoding, hex_of, is_hex,
    lemma_hex_encoding_injective, lemma_hex_encoding_reads_back,
};
use crate::error::{CompareError, LocalReadError, RemoteReadError};
use crate::json::{parse_json, parsed_json, string_at, string_under};
use crate::text::{decode, decoded, texts};

verus! {

/// Makes the error of `alloy_primitives` for text that is no hexadecimal
/// known as a type whose inside is not looked at.
#[verifier::external_type_specification]
#[verifier::external_body]
pub struct ExFromHexError(alloy_primitives::hex::FromHexError);

/// Whether a text is an address: forty hexadecimal digits of either case,
/// with or without `0x` or `0X` in front.
pub open spec fn is_address(text: Seq<char>) -> bool {
    is_hex(text) && hex_digits_of(text).len() == 40
}

/// The twenty bytes that an address spells, two digits for each.
pub open spec fn address_bytes(text: Seq<char>) -> Seq<u8> {
    hex_decoding(text)
}

/// Whether a text is a URL that `reqwest::Url` accepts.
pub uninterp spec fn is_url(text: Seq<char>) -> bool;

/// Calls `Address::from_str` of `alloy_primitives`. Not proved: the text is
/// accepted exactly where it is forty hexadecimal digits of either case, with
/// or without `0x` or `0X` in front, and the result holds the twenty bytes
/// that the digits spell. No checksum is looked at.
#[verifier::external_body]
pub(crate) fn parse_address(text: &str) -> (address: Result<
    Vec<u8>,
    alloy_primitives::hex::FromHexError,
>)
    ensures
        address is Ok <==> is_address(text@),
        address matches Ok(bytes) ==> bytes@ == address_bytes(text@),
{
    match Address::from_str(text) {
        Ok(address) => Ok(address.to_vec()),
        Err(e) => Err(e),
    }
}

/// Calls `str::parse` for a `reqwest::Url`. Not proved: whether the text is
/// accepted depends on the text alone.
#[verifier::external_body]
pub(crate) fn parses_as_url(text: &str) -> (valid: bool)
    ensures
        valid == is_url(text@),
{
    text.parse::<reqwest::Url>().is_ok()
}

/// The keys that lead to the deployed bytecode of one contract in the
/// compiler's output.
pub open spec fn bytecode_keys(contract_path: Seq<char>, contract_name: Seq<char>) -> Seq<
    Seq<char>,
> {
    seq![
        "output"@,
        "contracts"@,
        contract_path,
        contract_name,
        "evm"@,
        "deployedBytecode"@,
        "object"@,
    ]
}

/// The bytecode of one contract as the compiler's output spells it, or why
/// there is none.
pub open spec fn bytecode_text(
    artifact: Seq<u8>,
    contract_path: Seq<char>,
    contract_name: Seq<char>,
) -> Result<Seq<char>, LocalReadError> {
    match decoded(artifact) {
        None => Err(LocalReadError::Unreadable),
        Some(text) => match parsed_json(text) {
            None => Err(LocalReadError::Malformed),
            Some(strings) => match string_under(
                strings,
                bytecode_keys(contract_path, contract_name),
            ) {
                None => Err(LocalReadError::MissingPath),
                Some(code) => Ok(code),
            },
        },
    }
}

/// The code that a spelling of bytecode stands for: the bytes that it spells,
/// written as deployed bytes are. A text that spells no bytes is an error.
pub open spec fn code_spelled(text: Seq<char>) -> Result<Seq<char>, LocalReadError> {
    if is_hex(text) {
        Ok(hex_encoding(hex_decoding(text)))
    } else {
        Err(LocalReadError::InvalidBytecode)
    }
}

/// The code of one contract in the compiler's output, or why there is none.
pub open spec fn bytecode_in(
    artifact: Seq<u8>,
    contract_path: Seq<char>,
    contract_name: Seq<char>,
) -> Result<Seq<char>, LocalReadError> {
    match bytecode_text(artifact, contract_path, contract_name) {
        Ok(text) => code_spelled(text),
        Err(e) => Err(e),
    }
}

/// The request that comes of an endpoint and an address once each has been
/// read: `url_accepted` says whether the endpoint is a URL, `address` holds
/// the bytes of the address where it is one. The endpoint is looked at first.
pub open spec fn request_from_parts(
    rpc_url: Seq<char>,
    url_accepted: bool,
    address: Option<Seq<u8>>,
) -> Result<RemoteRequestView, RemoteReadError> {
    if !url_accepted {
        Err(RemoteReadError::MalformedEndpoint)
    } else {
        match address {
            None => Err(RemoteReadError::InvalidIdentifier),
            Some(bytes) => Ok(RemoteRequestView::Code { rpc_url, address: bytes }),
        }
    }
}

/// The request for the code at an address.
pub open spec fn code_request(address: Seq<char>, rpc_url: Seq<char>) -> Result<
    RemoteRequestView,
    RemoteReadError,
> {
    request_from_parts(
        rpc_url,
        is_url(rpc_url),
        if is_address(address) {
            Some(address_bytes(address))
        } else {
            None
        },
    )
}

/// The bytes of an address that was read, if it was one.
pub open spec fn address_read(address: Result<Vec<u8>, alloy_primitives::hex::FromHexError>)
    -> Option<Seq<u8>> {
    match address {
        Ok(bytes) => Some(bytes@),
        Err(_) => None,
    }
}

/// Takes the code that a spelling of bytecode stands for.
pub fn code_of(text: &str) -> (code: Result<String, LocalReadError>)
    ensures
        code_text(code) == code_spelled(text@),
{
    match hex_bytes(text) {
        Some(bytes) => Ok(hex_of(bytes.as_slice())),
        None => Err(LocalReadError::InvalidBytecode),
    }
}

/// Builds the request for the code at an address from what reading the
/// endpoint and the address gave.
pub fn request_from(
    rpc_url: &str,
    url_accepted: bool,
    address: Result<Vec<u8>, alloy_primitives::hex::FromHexError>,
) -> (request: Result<RemoteRequest, RemoteReadError>)
    ensures
        request_view(request) == request_from_parts(rpc_url@, url_accepted, address_read(address)),
{
    if !url_accepted {
        return Err(RemoteReadError::MalformedEndpoint);
    }
    match address {
        Ok(bytes) => Ok(RemoteRequest::Code { rpc_url: rpc_url.to_owned(), address: bytes }),
        Err(_) => Err(RemoteReadError::InvalidIdentifier),
    }
}

/// Loads one contract out of a compiler's output, and the code at an address.
#[derive(Debug, Clone)]
pub struct EvmLoader {
    contract_path: String,
    contract_name: String,
}

impl EvmLoader {
    /// The source unit that holds the contract.
    pub closed spec fn path(&self) -> Seq<char> {
        self.contract_path@
    }

    /// The name of the contract in its source unit.
    pub closed spec fn name(&self) -> Seq<char> {
        self.contract_name@
    }

    pub fn new(contract_path: String, contract_name: String) -> (loader: Self)
        ensures
            loader.path() == contract_path@,
            loader.name() == contract_name@,
    {
        Self { contract_path, contract_name }
    }

    /// The keys that lead to the contract's deployed bytecode.
    fn keys(&self) -> (keys: Vec<String>)
        ensures
            texts(keys@) == bytecode_keys(self.path(), self.name()),
    {
        let mut keys: Vec<String> = Vec::new();
        keys.push("output".to_owned());
        keys.push("contracts".to_owned());
        keys.push(self.contract_path.clone());
        keys.push(self.contract_name.clone());
        keys.push("evm".to_owned());
        keys.push("deployedBytecode".to_owned());
        keys.push("object".to_owned());
        assert(texts(keys@) =~= bytecode_keys(self.path(), self.name()));
        keys
    }
}

impl ContractLoader for EvmLoader {
    open spec fn canonical(&self, code: Seq<u8>) -> Seq<char> {
        hex_encoding(code)
    }

    /// A node of the EVM family asks for no identity.
    open spec fn has_identity(&self) -> bool {
        true
    }

    open spec fn local_code(&self, artifact: ArtifactRead) -> Result<Seq<char>, LocalReadError> {
        match artifact_bytes(artifact) {
            Ok(bytes) => bytecode_in(bytes, self.path(), self.name()),
            Err(e) => Err(e),
        }
    }

    open spec fn request_for(&self, address: Seq<char>, rpc_url: Seq<char>) -> Result<
        RemoteRequestView,
        RemoteReadError,
    > {
        code_request(address, rpc_url)
    }

    fn load_local(&self, artifact: &ArtifactRead) -> (code: Result<String, LocalReadError>) {
        let bytes = match contents_of(artifact) {
            Ok(bytes) => bytes,
            Err(e) => return Err(e),
        };
        let text = match decode(bytes.as_slice()) {
            Some(text) => text,
            None => return Err(LocalReadError::Unreadable),
        };
        let doc = match parse_json(text) {
            Ok(doc) => doc,
            Err(_) => return Err(LocalReadError::Malformed),
        };
        let keys = self.keys();
        match string_at(&doc, &keys) {
            Some(spelling) => code_of(spelling.as_str()),
            None => Err(LocalReadError::MissingPath),
        }
    }

    fn remote_request(&self, address: &str, rpc_url: &str) -> (request: Result<
        RemoteRequest,
        RemoteReadError,
    >) {
        request_from(rpc_url, parses_as_url(rpc_url), parse_address(address))
    }

    fn load_remote(&self, reply: &RemoteReply) -> (code: Result<String, RemoteReadError>) {
        match deployed_in(reply) {
            Ok(bytes) => Ok(hex_of(bytes.as_slice())),
            Err(e) => Err(e),
        }
    }
}

/// A document without bytecode at the place asked for is an error of the
/// local side, whatever the network answered: it is never read as a contract
/// without code.
pub proof fn lemma_missing_bytecode_is_an_error(
    loader: &EvmLoader,
    artifact: ArtifactRead,
    reply: RemoteReply,
)
    requires
        artifact_bytes(artifact) matches Ok(bytes) && decoded(bytes) matches Some(text)
            && parsed_json(text) matches Some(strings) && !strings.contains_key(
            bytecode_keys(loader.path(), loader.name()),
        ),
    ensures
        loader.local_code(artifact) == Err::<Seq<char>, LocalReadError>(
            LocalReadError::MissingPath,
        ),
        verdict(loader.local_code(artifact), remote_code(loader, reply)) == Err::<
            bool,
            CompareError,
        >(CompareError::Local(LocalReadError::MissingPath)),
{
}

/// Both sides derive the code from the bytes: however the artifact spells
/// its bytecode, in either case, with or without `0x`, the local code is the
/// form of the bytes that it spells.
pub proof fn lemma_local_code_is_the_form_of_its_bytes(
    loader: &EvmLoader,
    artifact: ArtifactRead,
    spelling: Seq<char>,
)
    requires
        artifact_bytes(artifact) matches Ok(bytes) && bytecode_text(
            bytes,
            loader.path(),
            loader.name(),
        ) == Ok::<Seq<char>, LocalReadError>(spelling),
        is_hex(spelling),
    ensures
        loader.local_code(artifact) == Ok::<Seq<char>, LocalReadError>(
            loader.canonical(hex_decoding(spelling)),
        ),
{
}

/// An artifact matches the deployed code exactly where the bytes that it
/// spells are the deployed bytes.
pub proof fn lemma_bytecode_matches_by_its_bytes(
    loader: &EvmLoader,
    artifact: ArtifactRead,
    spelling: Seq<char>,
    reply: RemoteReply,
)
    requires
        artifact_bytes(artifact) matches Ok(bytes) && bytecode_text(
            bytes,
            loader.path(),
            loader.name(),
        ) == Ok::<Seq<char>, LocalReadError>(spelling),
        is_hex(spelling),
        deployed_bytes(reply) is Ok,
    ensures
        verdict(loader.local_code(artifact), remote_code(loader, reply)) == Ok::<
            bool,
            CompareError,
        >(hex_decoding(spelling) == deployed_bytes(reply)->Ok_0),
{
    if hex_encoding(hex_decoding(spelling)) == hex_encoding(deployed_bytes(reply)->Ok_0) {
        lemma_hex_encoding_injective(hex_decoding(spelling), deployed_bytes(reply)->Ok_0);
    }
}

/// Bytecode spelled as deployed code is written stands for itself, and it
/// spells the bytes that it was written from.
pub proof fn lemma_code_spelled_in_its_own_form(bytes: Seq<u8>)
    ensures
        code_spelled(hex_encoding(bytes)) == Ok::<Seq<char>, LocalReadError>(hex_encoding(bytes)),
{
    lemma_hex_encoding_reads_back(bytes);
}

/// Bytecode that spells no bytes is an error of the local side: it is never
/// compared, so never taken for a mismatch.
pub proof fn lemma_bytecode_that_spells_no_bytes_is_an_error(
    loader: &EvmLoader,
    artifact: ArtifactRead,
    spelling: Seq<char>,
    reply: RemoteReply,
)
    requires
        artifact_bytes(artifact) matches Ok(bytes) && bytecode_text(
            bytes,
            loader.path(),
            loader.name(),
        ) == Ok::<Seq<char>, LocalReadError>(spelling),
        !is_hex(spelling),
    ensures
        verdict(loader.local_code(artifact), remote_code(loader, reply)) == Err::<
            bool,
            CompareError,
        >(CompareError::Local(LocalReadError::InvalidBytecode)),
{
}

} // verus!
