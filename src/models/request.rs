use vstd::prelude::*;

verus! {

/// Query parameters of the `/sso` endpoint.
pub struct SsoQuery {
    pub user_id: String,
    pub saml_request: Option<String>,
    pub relay_state: Option<String>,
}

/// Query parameters of the `/idp-init` endpoint.
pub struct IdpInitiatedQuery {
    pub user_id: String,
    pub relay_state: Option<String>,
    pub target_url: Option<String>,
}

/// Form body of an HTTP-POST binding `/sso` request.
pub struct SamlRequest {
    pub saml_request: String,
    pub relay_state: Option<String>,
}

} // verus!
