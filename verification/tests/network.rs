use sol_rs::network::Network;

#[test]
fn test_to_host() {
    assert_eq!(Network::Testnet.to_host(), "https://api.testnet.solana.com");
    assert_eq!(Network::Devnet.to_host(), "https://api.devnet.solana.com");
    assert_eq!(Network::Mainnet.to_host(), "https://api.mainnet-beta.solana.com");
}
