use crate::codec::{base64_encoding, encode_base64, encode_pem, pem_encoding};
use crate::http::{attachment_reply, body_bytes, body_text, has_single_header, HttpReply, ReplyBody};
use vstd::prelude::*;

verus! {

/// URI of the SAML 2.0 protocol.
pub open spec fn saml_protocol() -> Seq<char> {
    "urn:oasis:names:tc:SAML:2.0:protocol"@
}

/// URI of the HTTP-POST binding.
pub open spec fn post_binding() -> Seq<char> {
    "urn:oasis:names:tc:SAML:2.0:bindings:HTTP-POST"@
}

/// URI of the HTTP-Redirect binding.
pub open spec fn redirect_binding() -> Seq<char> {
    "urn:oasis:names:tc:SAML:2.0:bindings:HTTP-Redirect"@
}

/// A key descriptor: what the key is for, and its certificates in base64.
pub struct KeyDescriptorEntry {
    pub key_use: String,
    pub certificates: Vec<String>,
}

/// A service endpoint: its binding and location.
pub struct EndpointEntry {
    pub binding: String,
    pub location: String,
}

/// An entity descriptor with one IdP SSO descriptor.
pub struct MetadataDocument {
    pub entity_id: String,
    pub descriptor_id: String,
    pub protocol_support_enumeration: String,
    pub want_authn_requests_signed: bool,
    pub key_descriptors: Vec<KeyDescriptorEntry>,
    pub single_sign_on_services: Vec<EndpointEntry>,
}

impl MetadataDocument {
    /// The number of signing key descriptors whose only certificate is `cert`.
    pub open spec fn signing_keys_for(&self, cert: Seq<char>) -> int {
        self.key_descriptors@.filter(
            |k: KeyDescriptorEntry|
                k.key_use@ == "signing"@ && k.certificates@.len() == 1 && k.certificates@[0]@
                    == cert,
        ).len() as int
    }

    /// The metadata advertised by the provider `entity_id` with the signing
    /// certificate `cert_der`.
    pub open spec fn advertises(&self, entity_id: Seq<char>, cert_der: Seq<u8>) -> bool {
        let sso = entity_id + "/sso"@;
        &&& self.entity_id@ == entity_id
        &&& self.protocol_support_enumeration@ == saml_protocol()
        &&& !self.want_authn_requests_signed
        &&& self.key_descriptors@.len() == 1
        &&& self.key_descriptors@[0].key_use@ == "signing"@
        &&& self.key_descriptors@[0].certificates@.len() == 1
        &&& self.key_descriptors@[0].certificates@[0]@ == base64_encoding(cert_der)
        &&& self.single_sign_on_services@.len() == 2
        &&& self.single_sign_on_services@[0].binding@ == post_binding()
        &&& self.single_sign_on_services@[0].location@ == sso
        &&& self.single_sign_on_services@[1].binding@ == redirect_binding()
        &&& self.single_sign_on_services@[1].location@ == sso
    }
}

/// The metadata of the provider `idp_entity_id`: one signing key descriptor
/// with the base64 of `cert_der`, and the `/sso` endpoint in the HTTP-POST
/// and HTTP-Redirect bindings. Signed AuthnRequests are not required.
pub fn metadata_document(cert_der: &[u8], idp_entity_id: &str) -> (r: MetadataDocument)
    ensures
        r.advertises(idp_entity_id@, cert_der@),
        r.descriptor_id@ == "idstring"@,
{
    let mut certificates: Vec<String> = Vec::new();
    certificates.push(encode_base64(cert_der));
    let mut key_descriptors: Vec<KeyDescriptorEntry> = Vec::new();
    key_descriptors.push(KeyDescriptorEntry { key_use: String::from_str("signing"), certificates });
    let mut location = String::from_str(idp_entity_id);
    location.append("/sso");
    let mut single_sign_on_services: Vec<EndpointEntry> = Vec::new();
    single_sign_on_services.push(
        EndpointEntry {
            binding: String::from_str("urn:oasis:names:tc:SAML:2.0:bindings:HTTP-POST"),
            location: location.clone(),
        },
    );
    single_sign_on_services.push(
        EndpointEntry {
            binding: String::from_str("urn:oasis:names:tc:SAML:2.0:bindings:HTTP-Redirect"),
            location,
        },
    );
    MetadataDocument {
        entity_id: String::from_str(idp_entity_id),
        descriptor_id: String::from_str("idstring"),
        protocol_support_enumeration: String::from_str("urn:oasis:names:tc:SAML:2.0:protocol"),
        want_authn_requests_signed: false,
        key_descriptors,
        single_sign_on_services,
    }
}

/// The signing certificate as a DER download.
pub fn certificate_der(cert_der: &[u8]) -> (r: HttpReply)
    ensures
        r.status == 200,
        r.content_type@ == "application/x-x509-ca-cert"@,
        has_single_header(
            r,
            "Content-Disposition"@,
            "attachment; filename=\"idp-certificate.der\""@,
        ),
        body_bytes(r) == Some(cert_der@),
{
    attachment_reply(
        "application/x-x509-ca-cert",
        "attachment; filename=\"idp-certificate.der\"",
        ReplyBody::Bytes(vstd::slice::slice_to_vec(cert_der)),
    )
}

/// The signing certificate as a PEM download, labelled `CERTIFICATE`.
pub fn certificate_pem(cert_der: &[u8]) -> (r: HttpReply)
    ensures
        r.status == 200,
        r.content_type@ == "application/x-pem-file"@,
        has_single_header(
            r,
            "Content-Disposition"@,
            "attachment; filename=\"idp-certificate.pem\""@,
        ),
        body_text(r) == Some(pem_encoding("CERTIFICATE"@, cert_der@)),
{
    let pem_text = encode_pem("CERTIFICATE", vstd::slice::slice_to_vec(cert_der));
    attachment_reply(
        "application/x-pem-file",
        "attachment; filename=\"idp-certificate.pem\"",
        ReplyBody::Text(pem_text),
    )
}

} // verus!

verus! {

/// The published metadata holds exactly one signing key descriptor whose
/// certificate is the provider's current certificate.
pub proof fn lemma_metadata_single_signing_key(
    doc: MetadataDocument,
    entity_id: Seq<char>,
    cert_der: Seq<u8>,
)
    requires
        doc.advertises(entity_id, cert_der),
    ensures
        doc.signing_keys_for(base64_encoding(cert_der)) == 1,
{
    let keys = doc.key_descriptors@;
    let pred = |k: KeyDescriptorEntry|
        k.key_use@ == "signing"@ && k.certificates@.len() == 1 && k.certificates@[0]@
            == base64_encoding(cert_der);
    assert(keys =~= seq![keys[0]]);
    reveal_with_fuel(Seq::filter, 2);
    assert(keys.drop_last() =~= Seq::<KeyDescriptorEntry>::empty());
    assert(keys.filter(pred) =~= seq![keys[0]]);
}

} // verus!
