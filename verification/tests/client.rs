use typing_trainer::client::{TypeClient, IPV4};

#[test]
fn address_joins_host_and_port() {
    let client = TypeClient::new(IPV4::new("127.0.0.1".to_string()), "8080".to_string());
    assert_eq!(client.address(), "127.0.0.1:8080");
}

#[test]
fn host_address_takes_any_port() {
    let host = IPV4::new("localhost".to_string());
    assert_eq!(host.address("9".to_string()), "localhost:9");
    assert_eq!(host.address(String::new()), "localhost:");
}

#[test]
fn cloned_host_has_the_same_address() {
    let host = IPV4::new("10.0.0.7".to_string());
    assert_eq!(host.clone().address("80".to_string()), host.address("80".to_string()));
}
