use crate::codec::{
    base64_decoding, decode_base64, inflate_raw, raw_inflation, utf8_text,
};
use crate::models::request::{SamlRequest, SsoQuery};
use vstd::prelude::*;
use vstd::utf8::{decode_utf8, valid_utf8};

verus! {

/// How an AuthnRequest reached the provider, with its encoded text.
pub enum RequestBinding {
    /// Base64 of the XML, in the `SAMLRequest` form field.
    Post(String),
    /// Base64 of the raw-deflated XML, in the `SAMLRequest` query parameter.
    Redirect(String),
}

/// Which layer of an encoded request is broken.
#[derive(Debug, Clone, Copy, PartialEq, Eq, Structural)]
pub enum EncodingFault {
    /// The text is not base64.
    Base64,
    /// The redirect binding's payload does not inflate.
    Deflate,
    /// The payload is not UTF-8.
    Utf8,
}

/// Why an inbound AuthnRequest could not be decoded.
#[derive(Debug, Clone, Copy, PartialEq, Eq, Structural)]
pub enum DecodeError {
    /// Neither the form nor the query carries a `SAMLRequest`.
    MissingRequest,
    /// The text is not base64, does not inflate, or is not UTF-8.
    InvalidEncoding(EncodingFault),
    /// The XML is not an AuthnRequest with an ID and an issuer.
    MalformedRequest,
}

/// The fields the provider reads from a parsed AuthnRequest document.
pub struct AuthnRequestFields {
    pub id: String,
    pub issuer: Option<String>,
    pub assertion_consumer_service_url: Option<String>,
}

/// An AuthnRequest that the provider can answer.
pub struct IncomingAuthnRequest {
    /// The request's ID, echoed as `InResponseTo`.
    pub request_id: String,
    /// The service provider's entity ID.
    pub issuer: String,
    /// Where the SP asked the response to be posted, if it said.
    pub acs_url: Option<String>,
}

/// The binding in which an SSO request arrived: a posted form wins over the
/// query's `SAMLRequest`.
pub open spec fn binding_of(query: &SsoQuery, form: Option<&SamlRequest>) -> Option<
    (bool, Seq<char>),
> {
    match form {
        Some(f) => Some((true, f.saml_request@)),
        None => match query.saml_request {
            Some(t) => Some((false, t@)),
            None => None,
        },
    }
}

/// The view of a binding: whether it is the POST binding, and its text.
pub open spec fn binding_view(b: RequestBinding) -> (bool, Seq<char>) {
    match b {
        RequestBinding::Post(t) => (true, t@),
        RequestBinding::Redirect(t) => (false, t@),
    }
}

/// The XML text carried by an encoded request, or why there is none.
pub open spec fn decoded_text(post: bool, text: Seq<char>) -> Result<Seq<char>, DecodeError> {
    match base64_decoding(text) {
        None => Err(DecodeError::InvalidEncoding(EncodingFault::Base64)),
        Some(raw) => {
            let payload = if post {
                Some(raw)
            } else {
                raw_inflation(raw)
            };
            match payload {
                None => Err(DecodeError::InvalidEncoding(EncodingFault::Deflate)),
                Some(bytes) => if valid_utf8(bytes) {
                    Ok(decode_utf8(bytes))
                } else {
                    Err(DecodeError::InvalidEncoding(EncodingFault::Utf8))
                },
            }
        },
    }
}

/// Picks the binding of an SSO request.
pub fn select_binding(query: &SsoQuery, form: Option<&SamlRequest>) -> (r: Option<RequestBinding>)
    ensures
        match r {
            Some(b) => binding_of(query, form) == Some(binding_view(b)),
            None => binding_of(query, form) is None,
        },
{
    match form {
        Some(f) => Some(RequestBinding::Post(f.saml_request.clone())),
        None => match &query.saml_request {
            Some(t) => Some(RequestBinding::Redirect(t.clone())),
            None => None,
        },
    }
}

/// Decodes the XML text of an AuthnRequest from its binding: base64 for the
/// POST binding, base64 then raw inflation for the redirect binding, then UTF-8.
pub fn decode_request_text(binding: &RequestBinding) -> (r: Result<String, DecodeError>)
    ensures
        match r {
            Ok(s) => decoded_text(binding_view(*binding).0, binding_view(*binding).1) == Ok::<
                Seq<char>,
                DecodeError,
            >(s@),
            Err(e) => decoded_text(binding_view(*binding).0, binding_view(*binding).1) == Err::<
                Seq<char>,
                DecodeError,
            >(e),
        },
{
    let (post, text) = match binding {
        RequestBinding::Post(t) => (true, t),
        RequestBinding::Redirect(t) => (false, t),
    };
    let raw = match decode_base64(text.as_str()) {
        Some(raw) => raw,
        None => return Err(DecodeError::InvalidEncoding(EncodingFault::Base64)),
    };
    let payload = if post {
        raw
    } else {
        match inflate_raw(raw.as_slice()) {
            Some(out) => out,
            None => return Err(DecodeError::InvalidEncoding(EncodingFault::Deflate)),
        }
    };
    match utf8_text(payload) {
        Some(s) => Ok(s),
        None => Err(DecodeError::InvalidEncoding(EncodingFault::Utf8)),
    }
}

/// The request the provider answers, given what parsing the XML gave.
pub open spec fn incoming_of(parsed: Option<AuthnRequestFields>) -> Result<
    (Seq<char>, Seq<char>, Option<Seq<char>>),
    DecodeError,
> {
    match parsed {
        None => Err(DecodeError::MalformedRequest),
        Some(f) => match f.issuer {
            None => Err(DecodeError::MalformedRequest),
            Some(issuer) => Ok(
                (
                    f.id@,
                    issuer@,
                    match f.assertion_consumer_service_url {
                        Some(u) => Some(u@),
                        None => None,
                    },
                ),
            ),
        },
    }
}

impl IncomingAuthnRequest {
    /// The request ID, the issuer and the ACS URL.
    pub open spec fn view_parts(&self) -> (Seq<char>, Seq<char>, Option<Seq<char>>) {
        (
            self.request_id@,
            self.issuer@,
            match self.acs_url {
                Some(u) => Some(u@),
                None => None,
            },
        )
    }
}

/// Checks what parsing the AuthnRequest XML gave (`None` where the XML is not
/// an AuthnRequest): a request without an issuer cannot be answered, since
/// the issuer is the audience of the assertion.
pub fn incoming_request(parsed: Option<AuthnRequestFields>) -> (r: Result<
    IncomingAuthnRequest,
    DecodeError,
>)
    ensures
        match r {
            Ok(req) => incoming_of(parsed) == Ok::<_, DecodeError>(req.view_parts()),
            Err(e) => incoming_of(parsed) == Err::<(Seq<char>, Seq<char>, Option<Seq<char>>), _>(
                e,
            ),
        },
{
    match parsed {
        None => Err(DecodeError::MalformedRequest),
        Some(f) => match f.issuer {
            None => Err(DecodeError::MalformedRequest),
            Some(issuer) => Ok(
                IncomingAuthnRequest {
                    request_id: f.id,
                    issuer,
                    acs_url: f.assertion_consumer_service_url,
                },
            ),
        },
    }
}

} // verus!
