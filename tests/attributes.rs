use saml_idp::attributes::{create_user_attributes, email_for};

fn values(user_id: &str) -> Vec<(String, String, String)> {
    create_user_attributes(user_id)
        .into_iter()
        .map(|a| (a.name, a.format, a.value))
        .collect()
}

#[test]
fn email_is_subject_at_example_com() {
    assert_eq!(email_for("alice"), "alice@example.com");
    assert_eq!(email_for(""), "@example.com");
    let attrs = values("jane.doe");
    assert_eq!(attrs[2].0, "email");
    assert_eq!(attrs[2].2, "jane.doe@example.com");
}

#[test]
fn dotted_identifier_gives_first_and_last_name() {
    let attrs = values("jane.doe");
    assert_eq!(attrs[0], (
        "firstName".to_string(),
        "urn:oasis:names:tc:SAML:2.0:attrname-format:uri".to_string(),
        "jane".to_string()
    ));
    assert_eq!(attrs[1].0, "lastName");
    assert_eq!(attrs[1].2, "doe");
    assert_eq!(attrs[3].0, "mobilePhone");
    assert_eq!(attrs[3].2, "555-123-4567");
    assert_eq!(attrs.len(), 4);
}

#[test]
fn only_first_two_dotted_parts_are_names() {
    let attrs = values("a.b.c");
    assert_eq!(attrs[0].2, "a");
    assert_eq!(attrs[1].2, "b");
    let attrs = values("x.");
    assert_eq!(attrs[0].2, "x");
    assert_eq!(attrs[1].2, "");
    let attrs = values("ünï.cödé");
    assert_eq!(attrs[0].2, "ünï");
    assert_eq!(attrs[1].2, "cödé");
}

#[test]
fn undotted_identifier_gives_default_names() {
    let attrs = values("testuser");
    assert_eq!(attrs[0].2, "First");
    assert_eq!(attrs[1].2, "Last");
    assert_eq!(attrs[2].2, "testuser@example.com");
}
