use golem::network::{network_from_name, refresh_period_seconds, Network};

#[test]
fn known_network_names() {
    assert_eq!(network_from_name("local"), Some(Network::Local));
    assert_eq!(network_from_name("ganache"), Some(Network::Ganache));
    assert_eq!(network_from_name("rinkeby"), Some(Network::Rinkeby));
    assert_eq!(network_from_name("mainnet"), None);
    assert_eq!(network_from_name(""), None);
    assert_eq!(network_from_name("Local"), None);
}

#[test]
fn node_urls() {
    assert_eq!(Network::Local.node_url("p"), "127.0.0.1:8545");
    assert_eq!(Network::Ganache.node_url("p"), "127.0.0.1:8545");
    assert_eq!(Network::Rinkeby.node_url("abc123"), "https://rinkeby.infura.io/v3/abc123");
    assert!(Network::Rinkeby.needs_project_id());
    assert!(!Network::Local.needs_project_id());
    assert!(!Network::Ganache.needs_project_id());
}

#[test]
fn refresh_periods() {
    assert_eq!(refresh_period_seconds("5"), Some(5));
    assert_eq!(refresh_period_seconds("+7"), Some(7));
    assert_eq!(refresh_period_seconds("0042"), Some(42));
    assert_eq!(refresh_period_seconds("18446744073709551615"), Some(u64::MAX));
    assert_eq!(refresh_period_seconds("18446744073709551616"), None);
    assert_eq!(refresh_period_seconds(""), None);
    assert_eq!(refresh_period_seconds("+"), None);
    assert_eq!(refresh_period_seconds("-1"), None);
    assert_eq!(refresh_period_seconds(" 5"), None);
    assert_eq!(refresh_period_seconds("5s"), None);
}
