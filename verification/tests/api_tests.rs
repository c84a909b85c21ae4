use accountimporter::api::{
    accounts_url, auth_header, auth_header_name_text, books_url, AuthStyle, CredentialRejected,
    ACCOUNTS_PATH, BOOKS_PATH, JSON_CONTENT_TYPE,
};

#[test]
fn endpoints_lie_below_the_base_address() {
    assert_eq!(books_url("http://localhost:8000"), "http://localhost:8000/api/v1/books");
    assert_eq!(accounts_url("http://localhost:8000"), "http://localhost:8000/api/v1/accounts");
    assert_eq!(books_url(""), BOOKS_PATH);
    assert_eq!(accounts_url(""), ACCOUNTS_PATH);
    assert_eq!(JSON_CONTENT_TYPE, "application/json");
}

#[test]
fn api_key_header_carries_the_credential() {
    let header = auth_header(AuthStyle::ApiKey, "testtoken").unwrap();
    assert_eq!(header.name, "X-API-Key");
    assert_eq!(header.value.to_str().unwrap(), "testtoken");
}

#[test]
fn token_header_carries_the_credential_after_its_label() {
    let header = auth_header(AuthStyle::Token, "abc123").unwrap();
    assert_eq!(header.name, "Authorization");
    assert_eq!(header.value.to_str().unwrap(), "Token abc123");
}

#[test]
fn header_names_of_the_two_styles() {
    assert_eq!(auth_header_name_text(AuthStyle::Token), "Authorization");
    assert_eq!(auth_header_name_text(AuthStyle::ApiKey), "X-API-Key");
}

#[test]
fn credential_with_a_control_character_is_rejected() {
    for credential in ["a\nb", "\r", "a\u{0}", "\u{1f}", "\u{7f}", "ok\u{7f}ok"] {
        assert_eq!(
            auth_header(AuthStyle::ApiKey, credential).unwrap_err(),
            CredentialRejected { style: AuthStyle::ApiKey }
        );
        assert_eq!(
            auth_header(AuthStyle::Token, credential).unwrap_err(),
            CredentialRejected { style: AuthStyle::Token }
        );
    }
}

#[test]
fn credential_with_tab_space_or_other_letters_is_accepted() {
    for credential in ["", " ", "a\tb", "~", "with space", "\u{80}", "\u{e9}t\u{e9}", "\u{3000}"] {
        let header = auth_header(AuthStyle::ApiKey, credential).unwrap();
        assert_eq!(header.value.as_bytes(), credential.as_bytes());
        let header = auth_header(AuthStyle::Token, credential).unwrap();
        assert_eq!(header.value.as_bytes(), format!("Token {}", credential).as_bytes());
    }
}

#[test]
fn rejected_credential_names_the_header() {
    assert_eq!(
        CredentialRejected { style: AuthStyle::ApiKey }.message(),
        "Failed to create X-API-Key header"
    );
    assert_eq!(
        CredentialRejected { style: AuthStyle::Token }.message(),
        "Failed to create Authorization header"
    );
}
