use contract_compare::contract::{ArtifactRead, RemoteReply, RemoteRequest};
use contract_compare::error::{ConfigurationError, LocalReadError, RemoteReadError};
use contract_compare::wasm::{
    hash_wasm, load_local_file, load_remote_file, new_wasm_request, remote_file_request,
};

const EMPTY_DIGEST: &str = "e3b0c44298fc1c149afbf4c8996fb92427ae41e4649b934ca495991b7852b855";
const ABC_DIGEST: &str = "ba7816bf8f01cfea414140de5dae2223b00361a396177a9cb410ff61f20015ad";

#[test]
fn hash_of_known_inputs() {
    assert_eq!(hash_wasm(b""), EMPTY_DIGEST);
    assert_eq!(hash_wasm(b"abc"), ABC_DIGEST);
}

#[test]
fn hash_is_sixty_four_lowercase_digits() {
    let hash = hash_wasm(&[0x00, 0x61, 0x73, 0x6d, 0x01, 0x00, 0x00, 0x00]);
    assert_eq!(hash.len(), 64);
    assert!(hash.chars().all(|c| c.is_ascii_digit() || ('a'..='f').contains(&c)));
}

#[test]
fn hash_is_the_same_for_the_same_bytes() {
    let bytes = vec![7u8; 1000];
    assert_eq!(hash_wasm(&bytes), hash_wasm(&bytes.clone()));
    assert_ne!(hash_wasm(&bytes), hash_wasm(&bytes[..999]));
}

#[test]
fn local_file_is_hashed() {
    let artifact = ArtifactRead::Contents(b"abc".to_vec());
    assert_eq!(load_local_file(&artifact), Ok(ABC_DIGEST.to_string()));
}

#[test]
fn empty_local_file_is_no_error() {
    let artifact = ArtifactRead::Contents(Vec::new());
    assert_eq!(load_local_file(&artifact), Ok(EMPTY_DIGEST.to_string()));
}

#[test]
fn local_file_that_was_not_read_is_an_error() {
    assert_eq!(load_local_file(&ArtifactRead::NotFound), Err(LocalReadError::MissingFile));
    assert_eq!(load_local_file(&ArtifactRead::Unreadable), Err(LocalReadError::Unreadable));
}

#[test]
fn remote_file_is_hashed() {
    let reply = RemoteReply::Code(b"abc".to_vec());
    assert_eq!(load_remote_file(&reply), Ok(ABC_DIGEST.to_string()));
}

#[test]
fn remote_file_without_code_is_not_found() {
    assert_eq!(load_remote_file(&RemoteReply::Code(Vec::new())), Err(RemoteReadError::NotFound));
    assert_eq!(load_remote_file(&RemoteReply::NotFound), Err(RemoteReadError::NotFound));
}

#[test]
fn remote_file_failures_keep_their_cause() {
    assert_eq!(
        load_remote_file(&RemoteReply::InvalidIdentifier),
        Err(RemoteReadError::InvalidIdentifier)
    );
    assert_eq!(
        load_remote_file(&RemoteReply::IdentityMismatch),
        Err(RemoteReadError::IdentityMismatch)
    );
    assert_eq!(load_remote_file(&RemoteReply::Transport), Err(RemoteReadError::Transport));
    assert_eq!(load_remote_file(&RemoteReply::Timeout), Err(RemoteReadError::Timeout));
}

fn json_headers() -> Vec<(String, String)> {
    vec![("Content-Type".to_string(), "application/json".to_string())]
}

#[test]
fn wasm_request_carries_the_json_header() {
    let request =
        new_wasm_request("http://rpc".to_string(), "CB5H".to_string(), "Standalone".to_string());
    assert_eq!(
        request,
        RemoteRequest::Wasm {
            rpc_url: "http://rpc".to_string(),
            contract_id: "CB5H".to_string(),
            network_passphrase: "Standalone".to_string(),
            rpc_headers: json_headers(),
        }
    );
}

#[test]
fn remote_file_request_uses_the_defaults_of_the_network() {
    let request = remote_file_request(
        "stellar",
        "CB5HA53QWBLOCD7LQOFZ4FIOSQS2ZUA7KIBZYOV6D4CPJWXIYGX2OBAC",
        None,
        None,
    );
    assert_eq!(
        request,
        Ok(RemoteRequest::Wasm {
            rpc_url: "https://mainnet.sorobanrpc.com".to_string(),
            contract_id: "CB5HA53QWBLOCD7LQOFZ4FIOSQS2ZUA7KIBZYOV6D4CPJWXIYGX2OBAC".to_string(),
            network_passphrase: "Public Global Stellar Network ; September 2015".to_string(),
            rpc_headers: json_headers(),
        })
    );
}

#[test]
fn remote_file_request_prefers_what_the_caller_gives() {
    let request = remote_file_request(
        "Stellar-Testnet",
        "CCHX",
        Some("http://localhost:8000/rpc".to_string()),
        Some("Standalone Network ; February 2017".to_string()),
    );
    assert_eq!(
        request,
        Ok(RemoteRequest::Wasm {
            rpc_url: "http://localhost:8000/rpc".to_string(),
            contract_id: "CCHX".to_string(),
            network_passphrase: "Standalone Network ; February 2017".to_string(),
            rpc_headers: json_headers(),
        })
    );
}

#[test]
fn remote_file_request_needs_an_endpoint() {
    let request = remote_file_request("futurenet", "CCHX", None, Some("p".to_string()));
    assert_eq!(request, Err(ConfigurationError::MissingRpcUrl));
    let request = remote_file_request("futurenet", "CCHX", None, None);
    assert_eq!(request, Err(ConfigurationError::MissingRpcUrl));
    let request = remote_file_request("sepolia", "", None, None);
    assert_eq!(request, Err(ConfigurationError::MissingRpcUrl));
}

#[test]
fn remote_file_request_needs_a_passphrase() {
    let request = remote_file_request("futurenet", "CCHX", Some("http://rpc".to_string()), None);
    assert_eq!(request, Err(ConfigurationError::MissingPassphrase));
    let request = remote_file_request("ethereum", "CCHX", None, None);
    assert_eq!(request, Err(ConfigurationError::MissingPassphrase));
    let request = remote_file_request(
        "futurenet",
        "CCHX",
        Some("http://rpc".to_string()),
        Some("Test SDF Future Network ; October 2022".to_string()),
    );
    assert_eq!(
        request,
        Ok(RemoteRequest::Wasm {
            rpc_url: "http://rpc".to_string(),
            contract_id: "CCHX".to_string(),
            network_passphrase: "Test SDF Future Network ; October 2022".to_string(),
            rpc_headers: json_headers(),
        })
    );
}
