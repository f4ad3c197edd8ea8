use crate::assembler::{copy_opt, opt_view, ResponseDocument, SignAuthnResponseFields};
use crate::attributes::{attributes_view, create_user_attributes, resolved_attributes};
use crate::binding::{attr_escaped, post_binding_reply, post_form_html};
use crate::codec::{base64_decoding, base64_encoding};
use crate::decoder::{
    binding_of, decode_request_text, decoded_text, incoming_of, incoming_request, select_binding,
    AuthnRequestFields, DecodeError, EncodingFault,
};
use crate::http::{body_text, text_reply, HttpReply};
use crate::models::request::{IdpInitiatedQuery, SamlRequest, SsoQuery};
use crate::models::state::SsoConfig;
use vstd::prelude::*;
use vstd::utf8::encode_utf8;

verus! {

/// What to issue, and the relay state to send back with it.
pub struct ResponsePlan {
    pub fields: SignAuthnResponseFields,
    pub relay_state: String,
}

/// The first of two optional strings that is present, else the empty string.
pub open spec fn first_present(a: Option<Seq<char>>, b: Option<Seq<char>>) -> Seq<char> {
    match a {
        Some(s) => s,
        None => match b {
            Some(t) => t,
            None => Seq::empty(),
        },
    }
}

/// Relay state of an SP-initiated request: the form's, else the query's,
/// else empty.
pub open spec fn sp_relay_state(query: &SsoQuery, form: Option<&SamlRequest>) -> Seq<char> {
    first_present(
        match form {
            Some(f) => opt_view(f.relay_state),
            None => None,
        },
        opt_view(query.relay_state),
    )
}

/// Relay state of an IdP-initiated request: the explicit relay state, else
/// the target URL, else empty.
pub open spec fn idp_relay_state(query: &IdpInitiatedQuery) -> Seq<char> {
    first_present(opt_view(query.relay_state), opt_view(query.target_url))
}

/// How an SP-initiated request starts: the AuthnRequest's XML text, or the
/// message of the 400 reply that refuses it.
pub open spec fn sso_start(query: &SsoQuery, form: Option<&SamlRequest>) -> Result<
    Seq<char>,
    Seq<char>,
> {
    if query.user_id@.len() == 0 {
        Err("Missing userId parameter"@)
    } else {
        match binding_of(query, form) {
            None => Err("Missing SAMLRequest parameter"@),
            Some(b) => match decoded_text(b.0, b.1) {
                Ok(xml) => Ok(xml),
                Err(DecodeError::InvalidEncoding(EncodingFault::Utf8)) => Err(
                    "Invalid SAML request format"@,
                ),
                Err(_) => Err("Invalid SAML request encoding"@),
            },
        }
    }
}

/// The plan issues the resolved attributes of the subject `user_id`, signed
/// by `config.idp_entity_id`.
pub open spec fn plan_subject(plan: ResponsePlan, user_id: Seq<char>, config: &SsoConfig) -> bool {
    &&& plan.fields.subject_name_id@ == user_id
    &&& plan.fields.issuer@ == config.idp_entity_id@
    &&& attributes_view(plan.fields.attributes@) == resolved_attributes(user_id)
}

/// The plan answers an SP-initiated request: it replies to the request's ID,
/// is restricted to the request's issuer, and is posted to the request's ACS
/// URL (the configured one where the request names none).
pub open spec fn sp_plan(
    plan: ResponsePlan,
    query: &SsoQuery,
    form: Option<&SamlRequest>,
    parsed: Option<AuthnRequestFields>,
    config: &SsoConfig,
) -> bool {
    match incoming_of(parsed) {
        Ok(req) => {
            &&& query.user_id@.len() > 0
            &&& plan_subject(plan, query.user_id@, config)
            &&& opt_view(plan.fields.in_response_to_id) == Some(req.0)
            &&& plan.fields.audience@ == req.1
            &&& plan.fields.acs_url@ == match req.2 {
                Some(u) => u,
                None => config.sp_acs_url@,
            }
            &&& plan.relay_state@ == sp_relay_state(query, form)
        },
        Err(_) => false,
    }
}

/// The plan of an unsolicited response: it answers no request, is restricted
/// to the configured SP and posted to the configured ACS URL.
pub open spec fn idp_plan(plan: ResponsePlan, query: &IdpInitiatedQuery, config: &SsoConfig) -> bool {
    &&& plan_subject(plan, query.user_id@, config)
    &&& plan.fields.in_response_to_id is None
    &&& plan.fields.audience@ == config.sp_entity_id@
    &&& plan.fields.acs_url@ == config.sp_acs_url@
    &&& plan.relay_state@ == idp_relay_state(query)
}

/// The present one of two optional strings, the first one first, else the
/// empty string.
fn first_present_of(a: &Option<String>, b: &Option<String>) -> (r: String)
    ensures
        r@ == first_present(opt_view(*a), opt_view(*b)),
{
    match a {
        Some(s) => s.clone(),
        None => match b {
            Some(t) => t.clone(),
            None => String::new(),
        },
    }
}

/// First step of SP-initiated SSO: checks the subject and decodes the
/// AuthnRequest's XML text from its binding. A refusal is a 400 reply.
pub fn begin_sso(query: &SsoQuery, form: Option<&SamlRequest>) -> (r: Result<String, HttpReply>)
    ensures
        match r {
            Ok(xml) => sso_start(query, form) == Ok::<_, Seq<char>>(xml@),
            Err(reply) => reply.status == 400 && sso_start(query, form) is Err && Some(
                sso_start(query, form)->Err_0,
            ) == body_text(reply),
        },
{
    if query.user_id.as_str().is_empty() {
        return Err(text_reply(400, "Missing userId parameter"));
    }
    let binding = match select_binding(query, form) {
        Some(b) => b,
        None => return Err(text_reply(400, "Missing SAMLRequest parameter")),
    };
    match decode_request_text(&binding) {
        Ok(xml) => Ok(xml),
        Err(DecodeError::InvalidEncoding(EncodingFault::Utf8)) => Err(
            text_reply(400, "Invalid SAML request format"),
        ),
        Err(_) => Err(text_reply(400, "Invalid SAML request encoding")),
    }
}

/// Second step of SP-initiated SSO, given what parsing the XML gave (`None`
/// where it is not an AuthnRequest): the plan of the response, or a 400
/// reply where the request cannot be answered.
pub fn plan_sp_initiated(
    query: &SsoQuery,
    form: Option<&SamlRequest>,
    parsed: Option<AuthnRequestFields>,
    config: &SsoConfig,
) -> (r: Result<ResponsePlan, HttpReply>)
    ensures
        match r {
            Ok(plan) => sp_plan(plan, query, form, parsed, config),
            Err(reply) => reply.status == 400 && if query.user_id@.len() == 0 {
                body_text(reply) == Some("Missing userId parameter"@)
            } else {
                incoming_of(parsed) is Err && body_text(reply) == Some(
                    "Invalid SAML AuthnRequest"@,
                )
            },
        },
{
    if query.user_id.as_str().is_empty() {
        return Err(text_reply(400, "Missing userId parameter"));
    }
    let request = match incoming_request(parsed) {
        Ok(req) => req,
        Err(_) => return Err(text_reply(400, "Invalid SAML AuthnRequest")),
    };
    let form_relay = match form {
        Some(f) => copy_opt(&f.relay_state),
        None => None,
    };
    let relay_state = first_present_of(&form_relay, &query.relay_state);
    let acs_url = match request.acs_url {
        Some(u) => u,
        None => config.sp_acs_url.clone(),
    };
    let fields = SignAuthnResponseFields {
        subject_name_id: query.user_id.clone(),
        audience: request.issuer,
        acs_url,
        issuer: config.idp_entity_id.clone(),
        in_response_to_id: Some(request.request_id),
        attributes: create_user_attributes(query.user_id.as_str()),
    };
    Ok(ResponsePlan { fields, relay_state })
}

/// IdP-initiated SSO: the plan of an unsolicited response to the configured
/// SP, or a 400 reply where the subject is missing.
pub fn plan_idp_initiated(query: &IdpInitiatedQuery, config: &SsoConfig) -> (r: Result<
    ResponsePlan,
    HttpReply,
>)
    ensures
        match r {
            Ok(plan) => query.user_id@.len() > 0 && idp_plan(plan, query, config),
            Err(reply) => query.user_id@.len() == 0 && reply.status == 400 && body_text(reply)
                == Some("Missing userId parameter"@),
        },
{
    if query.user_id.as_str().is_empty() {
        return Err(text_reply(400, "Missing userId parameter"));
    }
    let relay_state = first_present_of(&query.relay_state, &query.target_url);
    let fields = SignAuthnResponseFields {
        subject_name_id: query.user_id.clone(),
        audience: config.sp_entity_id.clone(),
        acs_url: config.sp_acs_url.clone(),
        issuer: config.idp_entity_id.clone(),
        in_response_to_id: None,
        attributes: create_user_attributes(query.user_id.as_str()),
    };
    Ok(ResponsePlan { fields, relay_state })
}

/// Last step of either flow: delivers the signed response's XML through the
/// HTTP-POST binding, or replies 500 with the signing error.
pub fn finish_sso(signed: Result<String, String>, acs_url: &str, relay_state: &str) -> (r: HttpReply)
    ensures
        match signed {
            Ok(xml) => {
                &&& r.status == 200
                &&& r.content_type@ == "text/html; charset=utf-8"@
                &&& body_text(r) == Some(
                    post_form_html(
                        attr_escaped(acs_url@),
                        base64_encoding(encode_utf8(xml@)),
                        attr_escaped(relay_state@),
                    ),
                )
            },
            Err(e) => {
                &&& r.status == 500
                &&& r.content_type@ == "text/plain; charset=utf-8"@
                &&& body_text(r) == Some("Failed to create SAML response: "@ + e@)
            },
        },
        r.headers@.len() == 0,
{
    match signed {
        Ok(xml) => post_binding_reply(xml.as_str(), acs_url, relay_state),
        Err(e) => {
            let mut message = String::from_str("Failed to create SAML response: ");
            message.append(e.as_str());
            text_reply(500, message.as_str())
        },
    }
}

} // verus!

verus! {

/// A response issued for an SP-initiated plan answers the request: both the
/// response and its subject confirmation carry the request's ID as
/// `InResponseTo`, and the assertion's audience is the request's issuer.
pub proof fn lemma_sp_initiated_response_answers_request(
    query: &SsoQuery,
    form: Option<&SamlRequest>,
    parsed: Option<AuthnRequestFields>,
    config: &SsoConfig,
    plan: ResponsePlan,
    doc: ResponseDocument,
    certificate_der: Seq<u8>,
    response_id: Seq<char>,
    assertion_id: Seq<char>,
    instant: i64,
)
    requires
        sp_plan(plan, query, form, parsed, config),
        doc.issued_for(plan.fields, certificate_der, response_id, assertion_id, instant),
    ensures
        incoming_of(parsed) is Ok,
        opt_view(doc.in_response_to) == Some(incoming_of(parsed)->Ok_0.0),
        opt_view(doc.assertion.in_response_to) == Some(incoming_of(parsed)->Ok_0.0),
        doc.assertion.audience@ == incoming_of(parsed)->Ok_0.1,
{
}

/// A response issued for an IdP-initiated plan is unsolicited: it answers no
/// request, and it is sent to the configured ACS URL for the configured SP.
pub proof fn lemma_idp_initiated_response_unsolicited(
    query: &IdpInitiatedQuery,
    config: &SsoConfig,
    plan: ResponsePlan,
    doc: ResponseDocument,
    certificate_der: Seq<u8>,
    response_id: Seq<char>,
    assertion_id: Seq<char>,
    instant: i64,
)
    requires
        idp_plan(plan, query, config),
        doc.issued_for(plan.fields, certificate_der, response_id, assertion_id, instant),
    ensures
        doc.in_response_to is None,
        doc.assertion.in_response_to is None,
        doc.destination@ == config.sp_acs_url@,
        doc.assertion.recipient@ == config.sp_acs_url@,
        doc.assertion.audience@ == config.sp_entity_id@,
{
}

/// An SP-initiated request whose `SAMLRequest` is not base64 is refused with
/// a 400 reply, before any response is planned.
pub proof fn lemma_malformed_base64_refused(query: &SsoQuery, form: Option<&SamlRequest>)
    requires
        query.user_id@.len() > 0,
        binding_of(query, form) is Some,
        base64_decoding(binding_of(query, form)->Some_0.1) is None,
    ensures
        sso_start(query, form) == Err::<Seq<char>, _>("Invalid SAML request encoding"@),
{
}

/// An SP-initiated request without a subject is refused with a 400 reply,
/// whatever its `SAMLRequest`.
pub proof fn lemma_missing_subject_refused(query: &SsoQuery, form: Option<&SamlRequest>)
    requires
        query.user_id@.len() == 0,
    ensures
        sso_start(query, form) == Err::<Seq<char>, _>("Missing userId parameter"@),
{
}

} // verus!
