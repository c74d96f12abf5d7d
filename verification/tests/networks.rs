use contract_compare::error::ConfigurationError;
use contract_compare::networks::{get_network_defaults, layer, Network, NetworkKind};

#[test]
fn test_network_from_str() {
    assert!(matches!(Network::from_str("ethereum"), Ok(_)));
    assert!(matches!(Network::from_str("stellar"), Ok(_)));
    assert!(matches!(Network::from_str("stellar-testnet"), Ok(_)));
    assert!(matches!(Network::from_str("sepolia"), Ok(_)));
    assert!(matches!(Network::from_str("custom"), Ok(_)));
}

#[test]
fn test_network_defaults() {
    let stellar = Network::stellar();
    assert!(stellar.network_passphrase.is_some());
    assert!(stellar.default_rpc.is_some());

    let stellar_testnet = Network::stellar_testnet();
    assert!(stellar_testnet.network_passphrase.is_some());
    assert!(stellar_testnet.default_rpc.is_some());

    let ethereum = Network::ethereum();
    assert!(ethereum.network_passphrase.is_none());
    assert!(ethereum.default_rpc.is_some());
}

#[test]
fn test_custom_evm() {
    let custom = Network::custom_evm(
        "my-network".to_string(),
        Some("https://my-rpc.example.com".to_string()),
    );
    assert_eq!(custom.name, "my-network");
    assert_eq!(custom.default_rpc.unwrap(), "https://my-rpc.example.com");
}

#[test]
fn known_networks_have_their_configuration() {
    let ethereum = Network::ethereum();
    assert_eq!(ethereum.name, "ethereum");
    assert_eq!(ethereum.kind, NetworkKind::Evm);
    assert_eq!(ethereum.default_rpc.as_deref(), Some("https://eth.llamarpc.com"));
    assert_eq!(ethereum.network_passphrase, None);

    let stellar = Network::stellar();
    assert_eq!(stellar.name, "stellar");
    assert_eq!(stellar.kind, NetworkKind::Stellar);
    assert_eq!(stellar.default_rpc.as_deref(), Some("https://mainnet.sorobanrpc.com"));
    assert_eq!(
        stellar.network_passphrase.as_deref(),
        Some("Public Global Stellar Network ; September 2015")
    );

    let testnet = Network::stellar_testnet();
    assert_eq!(testnet.name, "stellar-testnet");
    assert_eq!(testnet.kind, NetworkKind::Stellar);
    assert_eq!(testnet.default_rpc.as_deref(), Some("https://soroban-testnet.stellar.org"));
    assert_eq!(testnet.network_passphrase.as_deref(), Some("Test SDF Network ; September 2015"));
}

#[test]
fn custom_network_has_no_passphrase() {
    let custom = Network::custom_evm("my-network".to_string(), None);
    assert_eq!(custom.kind, NetworkKind::Evm);
    assert_eq!(custom.default_rpc, None);
    assert_eq!(custom.network_passphrase, None);
}

#[test]
fn resolve_knows_the_three_names() {
    assert_eq!(Network::resolve("ethereum").kind, NetworkKind::Evm);
    assert_eq!(Network::resolve("stellar").name, "stellar");
    assert_eq!(Network::resolve("stellar").kind, NetworkKind::Stellar);
    let testnet = Network::resolve("stellar-testnet");
    assert_eq!(testnet.name, "stellar-testnet");
    assert_eq!(testnet.default_rpc.as_deref(), Some("https://soroban-testnet.stellar.org"));
}

#[test]
fn resolve_ignores_case() {
    let stellar = Network::resolve("Stellar");
    assert_eq!(stellar.name, "stellar");
    assert_eq!(stellar.kind, NetworkKind::Stellar);
    let ethereum = Network::resolve("ETHEREUM");
    assert_eq!(ethereum.name, "ethereum");
    assert_eq!(ethereum.default_rpc.as_deref(), Some("https://eth.llamarpc.com"));
}

#[test]
fn resolve_takes_an_unknown_name_for_a_custom_network() {
    let sepolia = Network::resolve("Sepolia");
    assert_eq!(sepolia.name, "sepolia");
    assert_eq!(sepolia.kind, NetworkKind::Evm);
    assert_eq!(sepolia.default_rpc, None);
    assert_eq!(sepolia.network_passphrase, None);
}

#[test]
fn from_str_agrees_with_resolve() {
    let network = Network::from_str("Stellar-Testnet").ok().unwrap();
    assert_eq!(network.name, "stellar-testnet");
    assert_eq!(network.kind, NetworkKind::Stellar);
    let custom = Network::from_str("custom").ok().unwrap();
    assert_eq!(custom.name, "custom");
    assert_eq!(custom.kind, NetworkKind::Evm);
    assert!(custom.default_rpc.is_none());
}

#[test]
fn endpoint_is_the_callers_before_the_networks() {
    let ethereum = Network::ethereum();
    assert_eq!(
        ethereum.rpc_endpoint(Some("https://my-rpc.example.com".to_string())),
        Ok("https://my-rpc.example.com".to_string())
    );
    assert_eq!(ethereum.rpc_endpoint(None), Ok("https://eth.llamarpc.com".to_string()));
}

#[test]
fn endpoint_is_missing_without_override_or_default() {
    let custom = Network::resolve("invalid-network");
    assert_eq!(custom.rpc_endpoint(None), Err(ConfigurationError::MissingRpcUrl));
    assert_eq!(
        custom.rpc_endpoint(Some("http://localhost:8545".to_string())),
        Ok("http://localhost:8545".to_string())
    );
}

#[test]
fn passphrase_is_the_callers_before_the_networks() {
    let stellar = Network::stellar();
    assert_eq!(
        stellar.passphrase(Some("Standalone Network ; February 2017".to_string())).as_deref(),
        Some("Standalone Network ; February 2017")
    );
    assert_eq!(
        stellar.passphrase(None).as_deref(),
        Some("Public Global Stellar Network ; September 2015")
    );
    assert_eq!(Network::ethereum().passphrase(None), None);
}

#[test]
fn layer_prefers_what_was_given() {
    let default = Some("b".to_string());
    assert_eq!(layer(Some("a".to_string()), &default), Some("a".to_string()));
    assert_eq!(layer(None, &default), Some("b".to_string()));
    assert_eq!(layer(Some("a".to_string()), &None), Some("a".to_string()));
    assert_eq!(layer(None, &None), None);
}

#[test]
fn network_is_written_by_its_name() {
    assert_eq!(Network::stellar_testnet().to_string(), "stellar-testnet");
    assert_eq!(Network::custom_evm("my-network".to_string(), None).to_string(), "my-network");
}

#[test]
fn defaults_of_a_network_name() {
    let (rpc, passphrase) = get_network_defaults("stellar-testnet");
    assert_eq!(rpc.as_deref(), Some("https://soroban-testnet.stellar.org"));
    assert_eq!(passphrase.as_deref(), Some("Test SDF Network ; September 2015"));
    let (rpc, passphrase) = get_network_defaults("Ethereum");
    assert_eq!(rpc.as_deref(), Some("https://eth.llamarpc.com"));
    assert_eq!(passphrase, None);
    assert_eq!(get_network_defaults("sepolia"), (None, None));
}

#[test]
fn named_takes_the_name_as_written() {
    assert_eq!(Network::named("stellar".to_string()).kind, NetworkKind::Stellar);
    assert_eq!(
        Network::named("stellar-testnet".to_string()).default_rpc.as_deref(),
        Some("https://soroban-testnet.stellar.org")
    );
    assert_eq!(Network::named("ethereum".to_string()).kind, NetworkKind::Evm);
    let other = Network::named("Stellar".to_string());
    assert_eq!(other.name, "Stellar");
    assert_eq!(other.kind, NetworkKind::Evm);
    assert_eq!(other.default_rpc, None);
}
