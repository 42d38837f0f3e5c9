use vstd::prelude::*;
use crate::dns::CloudflareConfig;

verus! {

/// The DNS provider's asynchronous API client: the authenticated handle
/// through which zone listings and record writes are requested.
#[verifier::external_type_specification]
#[verifier::external_body]
pub struct ExClient(cloudflare::framework::client::async_api::Client);

/// Builds the provider client for the configured API token, against the
/// production endpoint and with the default client configuration.
///
/// Relies on cloudflare's `async_api::Client::new`, which performs no
/// request: it only assembles the authenticated HTTP handle, and fails
/// only when that handle cannot be built. A failure is returned as the
/// underlying error's description.
#[verifier::external_body]
pub fn new_client(config: &CloudflareConfig) -> Result<
    cloudflare::framework::client::async_api::Client,
    String,
> {
    cloudflare::framework::client::async_api::Client::new(
        cloudflare::framework::auth::Credentials::UserAuthToken { token: config.token.clone() },
        cloudflare::framework::client::ClientConfig::default(),
        cloudflare::framework::Environment::Production,
    ).map_err(|e| e.to_string())
}

} // verus!
