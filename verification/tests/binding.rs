use contract_compare::args::CmdArgs;
use contract_compare::binding::{bind, Binding, Loader};
use contract_compare::contract::{
    ArtifactRead, ContractComparator, ContractLoader, RemoteReply, RemoteRequest,
};
use contract_compare::error::{CompareError, ConfigurationError};
use contract_compare::networks::NetworkKind;

const STELLAR_MAINNET_CONTRACT: &str = "CB5HA53QWBLOCD7LQOFZ4FIOSQS2ZUA7KIBZYOV6D4CPJWXIYGX2OBAC";
const STELLAR_TESTNET_CONTRACT: &str = "CCHXQJ5YDCIRGCBUTLC5BF2V2DKHULVPTQJGD4BAHW46JQWVRQNGA2LU";
const SEPOLIA_CONTRACT_ADDRESS: &str = "0x1B9ec5Cc45977927fe6707f2A02F51e1415f2052";
const SEPOLIA_RPC: &str = "https://ethereum-sepolia-rpc.publicnode.com";

const BINARY: [u8; 9] = [0x00, 0x61, 0x73, 0x6d, 0x01, 0x00, 0x00, 0x00, 0x07];
const BOX_ARTIFACT: &str = r#"{"output":{"contracts":{"contracts/Box.sol":{"Box":{"evm":{"deployedBytecode":{"object":"6080604052"}}}}}}}"#;
const BOX_CODE: [u8; 5] = [0x60, 0x80, 0x60, 0x40, 0x52];

#[derive(Debug)]
enum Failure {
    Configuration(ConfigurationError),
    Comparison(CompareError),
    Request,
}

/// Runs a comparison as a program around the library would, with the file
/// and the network answer handed in.
fn run_comparison(
    args: CmdArgs,
    artifact: ArtifactRead,
    reply: RemoteReply,
) -> Result<bool, Failure> {
    let Binding { network, rpc_url, loader } = bind(&args).map_err(Failure::Configuration)?;
    assert_eq!(loader.kind(), network.kind);
    let comparator = ContractComparator::new(loader);
    comparator.loader().remote_request(&args.remote, &rpc_url).map_err(|_| Failure::Request)?;
    comparator.compare(&artifact, &reply).map_err(Failure::Comparison)
}

#[test]
fn test_compare_stellar_mainnet_contracts() {
    let args = CmdArgs {
        local: "./fixture/artifact.wasm".to_string(),
        remote: STELLAR_MAINNET_CONTRACT.to_string(),
        network: "stellar".to_string(),
        rpc_url: None,
        network_passphrase: None,
        contract_path: None,
        contract_name: None,
    };

    let result = run_comparison(
        args,
        ArtifactRead::Contents(BINARY.to_vec()),
        RemoteReply::Code(BINARY.to_vec()),
    );
    assert!(result.is_ok(), "Failed to compare contracts: {:?}", result.err());
    assert!(result.unwrap(), "Contracts should match");
}

#[test]
fn test_compare_stellar_testnet_contracts() {
    let args = CmdArgs {
        local: "./fixture/artifact-testnet.wasm".to_string(),
        remote: STELLAR_TESTNET_CONTRACT.to_string(),
        network: "stellar-testnet".to_string(),
        rpc_url: None,
        network_passphrase: None,
        contract_path: None,
        contract_name: None,
    };

    let result = run_comparison(
        args,
        ArtifactRead::Contents(BINARY.to_vec()),
        RemoteReply::Code(BINARY.to_vec()),
    );
    assert!(result.is_ok(), "Failed to compare contracts: {:?}", result.err());
    assert!(result.unwrap(), "Contracts should match");
}

#[test]
fn test_compare_evm_contracts() {
    let args = CmdArgs {
        local: "./fixture/artifact.json".to_string(),
        remote: SEPOLIA_CONTRACT_ADDRESS.to_string(),
        network: "sepolia".to_string(),
        rpc_url: Some(SEPOLIA_RPC.to_string()),
        network_passphrase: None,
        contract_path: Some("contracts/Box.sol".to_string()),
        contract_name: Some("Box".to_string()),
    };

    let result = run_comparison(
        args,
        ArtifactRead::Contents(BOX_ARTIFACT.as_bytes().to_vec()),
        RemoteReply::Code(BOX_CODE.to_vec()),
    );
    assert!(result.is_ok(), "Failed to compare contracts: {:?}", result.err());
    assert!(result.unwrap(), "Contracts should match");
}

#[test]
fn test_missing_contract_info_for_evm() {
    let args = CmdArgs {
        local: "./fixture/artifact.json".to_string(),
        remote: SEPOLIA_CONTRACT_ADDRESS.to_string(),
        network: "sepolia".to_string(),
        rpc_url: Some(SEPOLIA_RPC.to_string()),
        network_passphrase: None,
        contract_path: None,
        contract_name: None,
    };

    let result = run_comparison(
        args,
        ArtifactRead::Contents(BOX_ARTIFACT.as_bytes().to_vec()),
        RemoteReply::Code(BOX_CODE.to_vec()),
    );
    assert!(result.is_err(), "Should fail when contract info is missing");
    assert!(matches!(
        result,
        Err(Failure::Configuration(ConfigurationError::MissingContractPath))
    ));
}

#[test]
fn test_invalid_network() {
    let args = CmdArgs {
        local: "./fixture/artifact.wasm".to_string(),
        remote: "some-address".to_string(),
        network: "invalid-network".to_string(),
        rpc_url: None,
        network_passphrase: None,
        contract_path: None,
        contract_name: None,
    };

    let result = run_comparison(
        args,
        ArtifactRead::Contents(BINARY.to_vec()),
        RemoteReply::Code(BINARY.to_vec()),
    );
    assert!(result.is_err(), "Should fail with invalid network");
    assert!(matches!(result, Err(Failure::Configuration(ConfigurationError::MissingRpcUrl))));
}

fn arguments(network: &str) -> CmdArgs {
    CmdArgs {
        local: "artifact".to_string(),
        remote: "remote".to_string(),
        network: network.to_string(),
        rpc_url: None,
        network_passphrase: None,
        contract_path: None,
        contract_name: None,
    }
}

#[test]
fn stellar_binds_to_its_defaults() {
    let binding = bind(&arguments("stellar")).unwrap();
    assert_eq!(binding.network.name, "stellar");
    assert_eq!(binding.network.kind, NetworkKind::Stellar);
    assert_eq!(binding.rpc_url, "https://mainnet.sorobanrpc.com");
    assert_eq!(binding.loader.kind(), NetworkKind::Stellar);
    assert_eq!(
        binding.loader.remote_request("CB5H", &binding.rpc_url),
        Ok(RemoteRequest::Wasm {
            rpc_url: "https://mainnet.sorobanrpc.com".to_string(),
            contract_id: "CB5H".to_string(),
            network_passphrase: "Public Global Stellar Network ; September 2015".to_string(),
            rpc_headers: vec![("Content-Type".to_string(), "application/json".to_string())],
        })
    );
}

#[test]
fn what_the_caller_gives_comes_before_the_defaults() {
    let mut args = arguments("Stellar-Testnet");
    args.rpc_url = Some("http://localhost:8000/rpc".to_string());
    args.network_passphrase = Some("Standalone Network ; February 2017".to_string());
    let binding = bind(&args).unwrap();
    assert_eq!(binding.network.name, "stellar-testnet");
    assert_eq!(binding.rpc_url, "http://localhost:8000/rpc");
    assert_eq!(
        binding.loader.remote_request("CCHX", &binding.rpc_url),
        Ok(RemoteRequest::Wasm {
            rpc_url: "http://localhost:8000/rpc".to_string(),
            contract_id: "CCHX".to_string(),
            network_passphrase: "Standalone Network ; February 2017".to_string(),
            rpc_headers: vec![("Content-Type".to_string(), "application/json".to_string())],
        })
    );
}

#[test]
fn ethereum_binds_to_an_evm_loader() {
    let mut args = arguments("ethereum");
    args.contract_path = Some("contracts/Box.sol".to_string());
    args.contract_name = Some("Box".to_string());
    let binding = bind(&args).unwrap();
    assert_eq!(binding.rpc_url, "https://eth.llamarpc.com");
    assert_eq!(binding.loader.kind(), NetworkKind::Evm);
    assert!(matches!(binding.loader, Loader::Evm(_)));
    assert_eq!(
        binding.loader.load_local(&ArtifactRead::Contents(BOX_ARTIFACT.as_bytes().to_vec())),
        Ok("6080604052".to_string())
    );
}

#[test]
fn evm_needs_source_unit_and_name() {
    let mut args = arguments("ethereum");
    assert_eq!(bind(&args).err(), Some(ConfigurationError::MissingContractPath));
    args.contract_name = Some("Box".to_string());
    assert_eq!(bind(&args).err(), Some(ConfigurationError::MissingContractPath));
    args.contract_name = None;
    args.contract_path = Some("contracts/Box.sol".to_string());
    assert_eq!(bind(&args).err(), Some(ConfigurationError::MissingContractName));
}

#[test]
fn unknown_network_needs_an_endpoint_first() {
    let mut args = arguments("sepolia");
    assert_eq!(bind(&args).err(), Some(ConfigurationError::MissingRpcUrl));
    args.contract_path = Some("contracts/Box.sol".to_string());
    args.contract_name = Some("Box".to_string());
    assert_eq!(bind(&args).err(), Some(ConfigurationError::MissingRpcUrl));
    args.rpc_url = Some(SEPOLIA_RPC.to_string());
    let binding = bind(&args).unwrap();
    assert_eq!(binding.network.name, "sepolia");
    assert_eq!(binding.network.kind, NetworkKind::Evm);
    assert_eq!(binding.network.default_rpc, None);
    assert_eq!(binding.rpc_url, SEPOLIA_RPC);
}

#[test]
fn configuration_errors_describe_themselves() {
    assert_eq!(ConfigurationError::MissingRpcUrl.describe(), "No RPC URL provided");
    assert_eq!(
        ConfigurationError::MissingContractPath.describe(),
        "Contract path required for EVM networks"
    );
    assert_eq!(
        ConfigurationError::MissingContractName.describe(),
        "Contract name required for EVM networks"
    );
    assert_eq!(
        ConfigurationError::MissingPassphrase.describe(),
        "No network passphrase provided"
    );
}
