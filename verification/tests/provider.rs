use ddns::{new_client, CloudflareConfig};

#[test]
fn new_client_builds_for_a_plain_token() {
    let config = CloudflareConfig { token: "example-token".to_string(), records: vec![] };
    assert!(new_client(&config).is_ok());
}
