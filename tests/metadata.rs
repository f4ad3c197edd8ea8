use saml_idp::http::ReplyBody;
use saml_idp::identity::{
    identity_plan, identity_verdict, IdentityEvent, IdentityPlan, IdentityVerdict,
};
use saml_idp::metadata::{certificate_der, certificate_pem, metadata_document};

const CERT: &[u8] = &[0x30, 0x82, 0x01, 0x0a, 0xff, 0x00];

#[test]
fn metadata_has_one_signing_key_with_current_certificate() {
    let doc = metadata_document(CERT, "https://idp.example");
    assert_eq!(doc.entity_id, "https://idp.example");
    assert_eq!(doc.key_descriptors.len(), 1);
    assert_eq!(doc.key_descriptors[0].key_use, "signing");
    assert_eq!(doc.key_descriptors[0].certificates, vec!["MIIBCv8A".to_string()]);
    assert!(!doc.want_authn_requests_signed);
    assert_eq!(doc.protocol_support_enumeration, "urn:oasis:names:tc:SAML:2.0:protocol");
    assert_eq!(doc.descriptor_id, "idstring");
}

#[test]
fn metadata_lists_post_and_redirect_sso_endpoints() {
    let doc = metadata_document(CERT, "https://idp.example");
    let services: Vec<(String, String)> = doc
        .single_sign_on_services
        .into_iter()
        .map(|e| (e.binding, e.location))
        .collect();
    assert_eq!(services, vec![
        (
            "urn:oasis:names:tc:SAML:2.0:bindings:HTTP-POST".to_string(),
            "https://idp.example/sso".to_string()
        ),
        (
            "urn:oasis:names:tc:SAML:2.0:bindings:HTTP-Redirect".to_string(),
            "https://idp.example/sso".to_string()
        ),
    ]);
}

#[test]
fn certificate_der_download() {
    let r = certificate_der(CERT);
    assert_eq!(r.status, 200);
    assert_eq!(r.content_type, "application/x-x509-ca-cert");
    assert_eq!(r.headers, vec![(
        "Content-Disposition".to_string(),
        "attachment; filename=\"idp-certificate.der\"".to_string()
    )]);
    assert!(matches!(r.body, ReplyBody::Bytes(ref b) if b.as_slice() == CERT));
}

#[test]
fn certificate_pem_download_round_trips() {
    let r = certificate_pem(CERT);
    assert_eq!(r.status, 200);
    assert_eq!(r.content_type, "application/x-pem-file");
    assert_eq!(r.headers[0].1, "attachment; filename=\"idp-certificate.pem\"");
    let text = match r.body {
        ReplyBody::Text(t) => t,
        ReplyBody::Bytes(_) => panic!("expected PEM text"),
    };
    assert!(text.starts_with("-----BEGIN CERTIFICATE-----"));
    let parsed = pem::parse(text.as_bytes()).unwrap();
    assert_eq!(parsed.tag(), "CERTIFICATE");
    assert_eq!(parsed.contents(), CERT);
}

#[test]
fn identity_is_loaded_only_when_both_files_exist() {
    assert!(matches!(identity_plan(true, true), IdentityPlan::LoadPersisted));
    for (key, cert) in [(true, false), (false, true), (false, false)] {
        match identity_plan(key, cert) {
            IdentityPlan::GenerateFresh(s) => {
                assert_eq!(s.common_name, "My Identity Provider");
                assert_eq!(s.issuer_name, "My Identity Provider");
                assert_eq!(s.days_until_expiration, 1000);
            }
            IdentityPlan::LoadPersisted => panic!("must generate"),
        }
    }
}

#[test]
fn certificate_pem_text_is_exact() {
    let text = match certificate_pem(&[0u8; 60]).body {
        ReplyBody::Text(t) => t,
        ReplyBody::Bytes(_) => panic!("expected PEM text"),
    };
    let expected = format!(
        "-----BEGIN CERTIFICATE-----\r\n{}\r\n{}\r\n-----END CERTIFICATE-----\r\n",
        "A".repeat(64),
        "A".repeat(16)
    );
    assert_eq!(text, expected);
}

#[test]
fn identity_failures_are_fatal_only_before_persisting() {
    assert_eq!(identity_verdict(IdentityEvent::Loaded(true)), IdentityVerdict::Proceed);
    assert_eq!(identity_verdict(IdentityEvent::Loaded(false)), IdentityVerdict::Fatal);
    assert_eq!(identity_verdict(IdentityEvent::Generated(false)), IdentityVerdict::Fatal);
    assert_eq!(identity_verdict(IdentityEvent::Persisted(true)), IdentityVerdict::Proceed);
    assert_eq!(
        identity_verdict(IdentityEvent::Persisted(false)),
        IdentityVerdict::ProceedWithWarning
    );
}
