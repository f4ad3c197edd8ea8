use crate::attributes::{attributes_view, UserAttribute};
use vstd::prelude::*;

verus! {

/// Status code of a successful response.
pub open spec fn success_status() -> Seq<char> {
    "urn:oasis:names:tc:SAML:2.0:status:Success"@
}

/// Name ID format of the subject.
pub open spec fn unspecified_name_id_format() -> Seq<char> {
    "urn:oasis:names:tc:SAML:2.0:nameid-format:unspecified"@
}

/// Subject confirmation method: bearer.
pub open spec fn bearer_method() -> Seq<char> {
    "urn:oasis:names:tc:SAML:2.0:cm:bearer"@
}

/// Authentication context class of the statement.
pub open spec fn unspecified_authn_class() -> Seq<char> {
    "urn:oasis:names:tc:SAML:2.0:ac:classes:unspecified"@
}

/// The view of an optional string.
pub open spec fn opt_view(o: Option<String>) -> Option<Seq<char>> {
    match o {
        Some(s) => Some(s@),
        None => None,
    }
}

/// What a response is issued for: subject, audience, ACS URL, issuer, the
/// request it answers (none for an unsolicited response) and the attributes.
pub struct SignAuthnResponseFields {
    pub subject_name_id: String,
    pub audience: String,
    pub acs_url: String,
    pub issuer: String,
    pub in_response_to_id: Option<String>,
    pub attributes: Vec<UserAttribute>,
}

/// The assertion of a response.
pub struct AssertionDocument {
    pub id: String,
    pub issue_instant_millis: i64,
    pub issuer: String,
    pub name_id: String,
    pub name_id_format: String,
    pub confirmation_method: String,
    /// Recipient of the subject confirmation data: the ACS URL.
    pub recipient: String,
    /// `InResponseTo` of the subject confirmation data.
    pub in_response_to: Option<String>,
    /// The single audience of the audience restriction.
    pub audience: String,
    pub authn_instant_millis: i64,
    pub authn_context_class: String,
    pub attributes: Vec<UserAttribute>,
}

/// An unsigned SAML response with its one assertion, and the signature
/// template that the signing step fills in.
pub struct ResponseDocument {
    pub id: String,
    pub in_response_to: Option<String>,
    pub issue_instant_millis: i64,
    pub destination: String,
    pub issuer: String,
    pub status_code: String,
    /// The ID that the signature template references.
    pub signature_reference: String,
    /// The certificate the signature template carries (DER).
    pub certificate_der: Vec<u8>,
    pub assertion: AssertionDocument,
}

impl ResponseDocument {
    /// A response is well formed when its ID differs from its assertion's,
    /// its signature references the response itself, and the response and
    /// its assertion agree on issuer, request and recipient.
    pub open spec fn wf(&self) -> bool {
        &&& self.id@ != self.assertion.id@
        &&& self.signature_reference@ == self.id@
        &&& self.status_code@ == success_status()
        &&& self.assertion.issuer@ == self.issuer@
        &&& opt_view(self.assertion.in_response_to) == opt_view(self.in_response_to)
        &&& self.assertion.recipient@ == self.destination@
    }

    /// The response is the one issued for `fields` with the given IDs,
    /// certificate and instant.
    pub open spec fn issued_for(
        &self,
        fields: SignAuthnResponseFields,
        certificate_der: Seq<u8>,
        response_id: Seq<char>,
        assertion_id: Seq<char>,
        instant: i64,
    ) -> bool {
        &&& self.wf()
        &&& self.id@ == response_id
        &&& self.assertion.id@ == assertion_id
        &&& opt_view(self.in_response_to) == opt_view(fields.in_response_to_id)
        &&& self.issue_instant_millis == instant
        &&& self.destination@ == fields.acs_url@
        &&& self.issuer@ == fields.issuer@
        &&& self.certificate_der@ == certificate_der
        &&& self.assertion.issue_instant_millis == instant
        &&& self.assertion.name_id@ == fields.subject_name_id@
        &&& self.assertion.name_id_format@ == unspecified_name_id_format()
        &&& self.assertion.confirmation_method@ == bearer_method()
        &&& self.assertion.audience@ == fields.audience@
        &&& self.assertion.authn_instant_millis == instant
        &&& self.assertion.authn_context_class@ == unspecified_authn_class()
        &&& attributes_view(self.assertion.attributes@) == attributes_view(fields.attributes@)
    }
}

/// A copy of an optional string.
pub(crate) fn copy_opt(o: &Option<String>) -> (r: Option<String>)
    ensures
        opt_view(r) == opt_view(*o),
{
    match o {
        Some(s) => Some(s.clone()),
        None => None,
    }
}

/// Assembles the unsigned response for `fields`: the response is issued by
/// `fields.issuer` to `fields.acs_url`, answers `fields.in_response_to_id`,
/// and carries one assertion about the subject, restricted to
/// `fields.audience`, with the attributes in their order. `response_id` and
/// `assertion_id` must differ.
pub fn build_response_template(
    certificate_der: &[u8],
    fields: SignAuthnResponseFields,
    response_id: String,
    assertion_id: String,
    instant_millis: i64,
) -> (r: ResponseDocument)
    requires
        response_id@ != assertion_id@,
    ensures
        r.issued_for(fields, certificate_der@, response_id@, assertion_id@, instant_millis),
        r.id@ != r.assertion.id@,
{
    let ghost old_fields = fields;
    let SignAuthnResponseFields {
        subject_name_id,
        audience,
        acs_url,
        issuer,
        in_response_to_id,
        attributes,
    } = fields;
    let assertion = AssertionDocument {
        id: assertion_id,
        issue_instant_millis: instant_millis,
        issuer: issuer.clone(),
        name_id: subject_name_id,
        name_id_format: String::from_str("urn:oasis:names:tc:SAML:2.0:nameid-format:unspecified"),
        confirmation_method: String::from_str("urn:oasis:names:tc:SAML:2.0:cm:bearer"),
        recipient: acs_url.clone(),
        in_response_to: copy_opt(&in_response_to_id),
        audience,
        authn_instant_millis: instant_millis,
        authn_context_class: String::from_str(
            "urn:oasis:names:tc:SAML:2.0:ac:classes:unspecified",
        ),
        attributes,
    };
    ResponseDocument {
        signature_reference: response_id.clone(),
        id: response_id,
        in_response_to: in_response_to_id,
        issue_instant_millis: instant_millis,
        destination: acs_url,
        issuer,
        status_code: String::from_str("urn:oasis:names:tc:SAML:2.0:status:Success"),
        certificate_der: vstd::slice::slice_to_vec(certificate_der),
        assertion,
    }
}

/// Relies on chrono's `Utc::now`, read as milliseconds since the Unix epoch.
/// Nothing is promised of the value.
#[verifier::external_body]
fn now_millis() -> (r: i64) {
    chrono::Utc::now().timestamp_millis()
}

/// Assembles the unsigned response for `fields` at the current time.
pub fn assemble_response(
    certificate_der: &[u8],
    fields: SignAuthnResponseFields,
    response_id: String,
    assertion_id: String,
) -> (r: ResponseDocument)
    requires
        response_id@ != assertion_id@,
    ensures
        exists|instant: i64|
            r.issued_for(fields, certificate_der@, response_id@, assertion_id@, instant),
{
    let now = now_millis();
    build_response_template(certificate_der, fields, response_id, assertion_id, now)
}

} // verus!
