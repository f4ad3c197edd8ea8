use vstd::prelude::*;

verus! {

/// What the provider is configured with: its own entity ID and the service
/// provider it serves unsolicited responses to.
pub struct SsoConfig {
    pub idp_entity_id: String,
    pub sp_entity_id: String,
    pub sp_acs_url: String,
}

} // verus!
