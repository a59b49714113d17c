use session_capture::auth::{classify_field, plan_fills, CredentialField, Credentials};

fn creds() -> Credentials {
    Credentials { userid: "user-a".to_string(), password: "pw-b".to_string() }
}

#[test]
fn classify_userid() {
    assert_eq!(
        classify_field(&Some("login-userid".to_string())),
        CredentialField::UserId
    );
}

#[test]
fn classify_password() {
    assert_eq!(
        classify_field(&Some("login-password".to_string())),
        CredentialField::Password
    );
}

#[test]
fn classify_remember() {
    assert_eq!(
        classify_field(&Some("remember".to_string())),
        CredentialField::Remember
    );
}

#[test]
fn classify_unknown_name() {
    assert_eq!(
        classify_field(&Some("csrf-token".to_string())),
        CredentialField::Unknown
    );
}

#[test]
fn classify_missing_name() {
    assert_eq!(classify_field(&None), CredentialField::Unknown);
}

#[test]
fn plan_fills_exactly_credential_fields() {
    let names = vec![
        Some("login-userid".to_string()),
        Some("login-password".to_string()),
        Some("remember".to_string()),
        None,
    ];
    let fills = plan_fills(&names, &creds());
    assert_eq!(fills.len(), 2);
    assert_eq!(fills[0].index, 0);
    assert_eq!(fills[0].text, "user-a");
    assert_eq!(fills[1].index, 1);
    assert_eq!(fills[1].text, "pw-b");
}

#[test]
fn plan_fills_empty_form() {
    let names: Vec<Option<String>> = vec![];
    assert!(plan_fills(&names, &creds()).is_empty());
}

#[test]
fn plan_fills_ignores_unrecognized_inputs() {
    let names = vec![None, Some("search".to_string()), Some("remember".to_string())];
    assert!(plan_fills(&names, &creds()).is_empty());
}

#[test]
fn plan_fills_keeps_input_order() {
    let names = vec![
        Some("remember".to_string()),
        Some("login-password".to_string()),
        None,
        Some("login-userid".to_string()),
    ];
    let fills = plan_fills(&names, &creds());
    assert_eq!(fills.len(), 2);
    assert_eq!(fills[0].index, 1);
    assert_eq!(fills[0].text, "pw-b");
    assert_eq!(fills[1].index, 3);
    assert_eq!(fills[1].text, "user-a");
}
