//! The remote directory's endpoints.
//!
//! The fetch itself is an external call made by the plumbing around
//! this library, but which URLs it speaks to is part of the rules:
//! the token endpoint of the tenant's login authority, and the fixed
//! applications listing.

use vstd::prelude::*;
use vstd::string::StringExecFns;

use crate::config::Config;

verus! {

/// The token endpoint of the tenant's login authority.
pub fn token_url(tenant_id: &str) -> (r: String)
    ensures
        r@ == "https://login.microsoftonline.com/"@ + tenant_id@ + "/oauth2/v2.0/token"@,
{
    let mut url = String::from_str("https://login.microsoftonline.com/");
    url.append(tenant_id);
    url.append("/oauth2/v2.0/token");
    url
}

/// The form fields of the token request, in order: the client's
/// identity, the requested scope, its secret, and the
/// client-credentials grant.
pub fn token_form_params(config: &Config) -> (r: Vec<(String, String)>)
    ensures
        r@.len() == 4,
        r@[0].0@ == "client_id"@ && r@[0].1@ == config.client_id@,
        r@[1].0@ == "scope"@ && r@[1].1@ == config.scope@,
        r@[2].0@ == "client_secret"@ && r@[2].1@ == config.client_secret@,
        r@[3].0@ == "grant_type"@ && r@[3].1@ == "client_credentials"@,
{
    let mut params: Vec<(String, String)> = Vec::new();
    params.push((String::from_str("client_id"), config.client_id.clone()));
    params.push((String::from_str("scope"), config.scope.clone()));
    params.push((String::from_str("client_secret"), config.client_secret.clone()));
    params.push((String::from_str("grant_type"), String::from_str("client_credentials")));
    params
}

/// The applications listing, the same for every tenant.
pub fn applications_url() -> (r: &'static str)
    ensures
        r@ == "https://graph.microsoft.com/v1.0/applications"@,
{
    "https://graph.microsoft.com/v1.0/applications"
}

} // verus!
