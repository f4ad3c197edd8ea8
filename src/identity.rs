use vstd::prelude::*;

verus! {

/// How the self-signed certificate of a fresh identity is made.
pub struct CertificateSettings {
    pub common_name: String,
    pub issuer_name: String,
    pub days_until_expiration: u32,
}

/// Where the provider's key material comes from at startup.
pub enum IdentityPlan {
    /// Both persisted files exist: load them; failing to is fatal.
    LoadPersisted,
    /// Generate an RSA-2048 key and a self-signed certificate, then try to
    /// persist both; failing to persist is only a warning.
    GenerateFresh(CertificateSettings),
}

/// The startup plan for the key material, given which of the persisted key
/// and certificate files exist: load only when both do, else generate a key
/// with a certificate valid for 1000 days, named "My Identity Provider".
pub fn identity_plan(key_file_present: bool, cert_file_present: bool) -> (r: IdentityPlan)
    ensures
        match r {
            IdentityPlan::LoadPersisted => key_file_present && cert_file_present,
            IdentityPlan::GenerateFresh(settings) => {
                &&& !(key_file_present && cert_file_present)
                &&& settings.common_name@ == "My Identity Provider"@
                &&& settings.issuer_name@ == "My Identity Provider"@
                &&& settings.days_until_expiration == 1000
            },
        },
{
    if key_file_present && cert_file_present {
        IdentityPlan::LoadPersisted
    } else {
        IdentityPlan::GenerateFresh(
            CertificateSettings {
                common_name: String::from_str("My Identity Provider"),
                issuer_name: String::from_str("My Identity Provider"),
                days_until_expiration: 1000,
            },
        )
    }
}

} // verus!

verus! {

/// What happened to the key material at a step of startup.
pub enum IdentityEvent {
    /// Loading the persisted key succeeded or failed.
    Loaded(bool),
    /// Generating a key and its certificate succeeded or failed.
    Generated(bool),
    /// Writing a fresh key and certificate to disk succeeded or failed.
    Persisted(bool),
}

/// How startup goes on after an identity event.
#[derive(Debug, Clone, Copy, PartialEq, Eq, Structural)]
pub enum IdentityVerdict {
    /// Go on.
    Proceed,
    /// Go on with the identity in memory, and warn that it was not persisted.
    ProceedWithWarning,
    /// Stop: the provider cannot sign without usable key material.
    Fatal,
}

/// Startup's verdict on an identity event: key material that cannot be
/// loaded or generated is fatal; a fresh identity that cannot be persisted
/// only warrants a warning.
pub fn identity_verdict(event: IdentityEvent) -> (r: IdentityVerdict)
    ensures
        r == match event {
            IdentityEvent::Loaded(ok) | IdentityEvent::Generated(ok) => if ok {
                IdentityVerdict::Proceed
            } else {
                IdentityVerdict::Fatal
            },
            IdentityEvent::Persisted(ok) => if ok {
                IdentityVerdict::Proceed
            } else {
                IdentityVerdict::ProceedWithWarning
            },
        },
{
    match event {
        IdentityEvent::Loaded(ok) | IdentityEvent::Generated(ok) => if ok {
            IdentityVerdict::Proceed
        } else {
            IdentityVerdict::Fatal
        },
        IdentityEvent::Persisted(ok) => if ok {
            IdentityVerdict::Proceed
        } else {
            IdentityVerdict::ProceedWithWarning
        },
    }
}

} // verus!
