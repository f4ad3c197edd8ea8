use base64::Engine as _;
use saml_idp::decoder::{
    decode_request_text, incoming_request, select_binding, AuthnRequestFields, DecodeError,
    EncodingFault, RequestBinding,
};
use saml_idp::http::ReplyBody;
use saml_idp::models::request::{SamlRequest, SsoQuery};
use saml_idp::sso::begin_sso;
use std::io::Write;

const XML: &str = "<samlp:AuthnRequest ID=\"req-123\"/>";

fn b64(bytes: &[u8]) -> String {
    base64::engine::general_purpose::STANDARD.encode(bytes)
}

fn deflated(bytes: &[u8]) -> Vec<u8> {
    let mut enc = flate2::write::DeflateEncoder::new(Vec::new(), flate2::Compression::default());
    enc.write_all(bytes).unwrap();
    enc.finish().unwrap()
}

fn query(user: &str, saml_request: Option<&str>) -> SsoQuery {
    SsoQuery {
        user_id: user.to_string(),
        saml_request: saml_request.map(|s| s.to_string()),
        relay_state: None,
    }
}

fn text(body: &ReplyBody) -> String {
    match body {
        ReplyBody::Text(t) => t.clone(),
        ReplyBody::Bytes(_) => panic!("expected a text body"),
    }
}

#[test]
fn post_binding_decodes_base64_xml() {
    let r = decode_request_text(&RequestBinding::Post(b64(XML.as_bytes())));
    assert_eq!(r, Ok(XML.to_string()));
}

#[test]
fn redirect_binding_inflates_before_utf8() {
    let r = decode_request_text(&RequestBinding::Redirect(b64(&deflated(XML.as_bytes()))));
    assert_eq!(r, Ok(XML.to_string()));
    let not_deflated = decode_request_text(&RequestBinding::Redirect("////".to_string()));
    assert_eq!(not_deflated, Err(DecodeError::InvalidEncoding(EncodingFault::Deflate)));
}

#[test]
fn malformed_base64_is_invalid_encoding() {
    let r = decode_request_text(&RequestBinding::Post("not base64!".to_string()));
    assert_eq!(r, Err(DecodeError::InvalidEncoding(EncodingFault::Base64)));
}

#[test]
fn invalid_utf8_is_invalid_encoding() {
    let r = decode_request_text(&RequestBinding::Post(b64(&[0xff, 0xfe, 0x41])));
    assert_eq!(r, Err(DecodeError::InvalidEncoding(EncodingFault::Utf8)));
}

#[test]
fn form_wins_over_query_request() {
    let q = query("u", Some("from-query"));
    let f = SamlRequest { saml_request: "from-form".to_string(), relay_state: None };
    assert!(matches!(select_binding(&q, Some(&f)), Some(RequestBinding::Post(t)) if t == "from-form"));
    assert!(matches!(select_binding(&q, None), Some(RequestBinding::Redirect(t)) if t == "from-query"));
    assert!(select_binding(&query("u", None), None).is_none());
}

#[test]
fn missing_user_id_is_refused_first() {
    let f = SamlRequest { saml_request: "garbage!".to_string(), relay_state: None };
    let r = begin_sso(&query("", None), Some(&f)).unwrap_err();
    assert_eq!(r.status, 400);
    assert_eq!(text(&r.body), "Missing userId parameter");
}

#[test]
fn missing_saml_request_is_refused() {
    let r = begin_sso(&query("alice", None), None).unwrap_err();
    assert_eq!(r.status, 400);
    assert_eq!(text(&r.body), "Missing SAMLRequest parameter");
}

#[test]
fn malformed_base64_request_is_a_400() {
    let f = SamlRequest { saml_request: "%%%not-base64%%%".to_string(), relay_state: None };
    let r = begin_sso(&query("alice", None), Some(&f)).unwrap_err();
    assert_eq!(r.status, 400);
    assert_eq!(text(&r.body), "Invalid SAML request encoding");
}

#[test]
fn well_formed_post_request_yields_its_xml() {
    let f = SamlRequest { saml_request: b64(XML.as_bytes()), relay_state: None };
    assert_eq!(begin_sso(&query("alice", None), Some(&f)).ok(), Some(XML.to_string()));
}

#[test]
fn request_without_issuer_or_parse_is_malformed() {
    assert!(matches!(incoming_request(None), Err(DecodeError::MalformedRequest)));
    let no_issuer = AuthnRequestFields {
        id: "req-1".to_string(),
        issuer: None,
        assertion_consumer_service_url: None,
    };
    assert!(matches!(incoming_request(Some(no_issuer)), Err(DecodeError::MalformedRequest)));
    let ok = AuthnRequestFields {
        id: "req-1".to_string(),
        issuer: Some("https://sp.example".to_string()),
        assertion_consumer_service_url: Some("https://sp.example/acs".to_string()),
    };
    let req = incoming_request(Some(ok)).ok().unwrap();
    assert_eq!(req.request_id, "req-1");
    assert_eq!(req.issuer, "https://sp.example");
    assert_eq!(req.acs_url.as_deref(), Some("https://sp.example/acs"));
}

#[test]
fn invalid_utf8_request_is_a_400_with_format_message() {
    let f = SamlRequest { saml_request: b64(&[0xc3, 0x28]), relay_state: None };
    let r = begin_sso(&query("alice", None), Some(&f)).unwrap_err();
    assert_eq!(r.status, 400);
    assert_eq!(text(&r.body), "Invalid SAML request format");
}
