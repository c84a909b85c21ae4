//! The interface of the accounting service: its endpoints and the header that
//! authenticates a request.

use vstd::prelude::*;
use vstd::string::*;

verus! {

#[verifier::external_type_specification]
#[verifier::external_body]
pub struct ExHeaderValue(http::HeaderValue);

#[verifier::external_type_specification]
#[verifier::external_body]
pub struct ExInvalidHeaderValue(http::header::InvalidHeaderValue);

/// The text that an `http::HeaderValue` made from a string holds.
pub uninterp spec fn header_text(value: http::HeaderValue) -> Seq<char>;

/// Whether a character may stand in a header value: a tab, or any character
/// from the space on but the delete character.
pub open spec fn is_header_char(c: char) -> bool {
    c == '\t' || (c as u32 >= 0x20 && c as u32 != 0x7F)
}

/// Whether a text may stand as a header value.
pub open spec fn is_header_text(text: Seq<char>) -> bool {
    forall|i: int| 0 <= i < text.len() ==> is_header_char(#[trigger] text[i])
}

/// `HeaderValue::from_str`. Trusted, by its source: it accepts a string
/// exactly where every byte is a tab, or at least 32 and not 127, which for a
/// string is to say that every character is a tab or at least a space and not
/// the delete character; the value returned holds the string.
#[verifier::external_body]
fn header_value(text: &str) -> (r: Result<http::HeaderValue, http::header::InvalidHeaderValue>)
    ensures
        r is Ok <==> is_header_text(text@),
        r matches Ok(value) ==> header_text(value) == text@,
{
    http::HeaderValue::from_str(text)
}

/// The path of the books listing below the base address.
pub const BOOKS_PATH: &'static str = "/api/v1/books";

/// The path of the account creation below the base address.
pub const ACCOUNTS_PATH: &'static str = "/api/v1/accounts";

/// The content type of a request body.
pub const JSON_CONTENT_TYPE: &'static str = "application/json";

/// The address of the books listing.
pub fn books_url(base: &str) -> (r: String)
    ensures
        r@ == base@ + BOOKS_PATH@,
{
    let mut url = String::from_str(base);
    url.append(BOOKS_PATH);
    url
}

/// The address of the account creation.
pub fn accounts_url(base: &str) -> (r: String)
    ensures
        r@ == base@ + ACCOUNTS_PATH@,
{
    let mut url = String::from_str(base);
    url.append(ACCOUNTS_PATH);
    url
}

/// How the credential is presented to the service. A run uses one style.
#[derive(Debug, Clone, Copy, PartialEq, Eq, Structural)]
pub enum AuthStyle {
    /// `Authorization: Token <credential>`
    Token,
    /// `X-API-Key: <credential>`
    ApiKey,
}

/// The name of the header that carries the credential.
pub open spec fn auth_header_name(style: AuthStyle) -> Seq<char> {
    match style {
        AuthStyle::Token => "Authorization"@,
        AuthStyle::ApiKey => "X-API-Key"@,
    }
}

/// The value of the header that carries the credential.
pub open spec fn auth_header_text(style: AuthStyle, credential: Seq<char>) -> Seq<char> {
    match style {
        AuthStyle::Token => "Token "@ + credential,
        AuthStyle::ApiKey => credential,
    }
}

/// The header that authenticates every request of a run.
#[derive(Debug)]
pub struct AuthHeader {
    pub name: &'static str,
    pub value: http::HeaderValue,
}

/// The credential holds a character that no header value may hold.
#[derive(Debug, Clone, Copy, PartialEq, Eq)]
pub struct CredentialRejected {
    pub style: AuthStyle,
}

/// The message of a rejected credential.
pub open spec fn credential_rejected_message(style: AuthStyle) -> Seq<char> {
    "Failed to create "@ + auth_header_name(style) + " header"@
}

impl CredentialRejected {
    /// Writes the message of this failure.
    pub fn message(&self) -> (r: String)
        ensures
            r@ == credential_rejected_message(self.style),
    {
        let mut text = String::from_str("Failed to create ");
        text.append(auth_header_name_text(self.style));
        text.append(" header");
        text
    }
}

/// The name of the header for a style.
pub fn auth_header_name_text(style: AuthStyle) -> (r: &'static str)
    ensures
        r@ == auth_header_name(style),
{
    match style {
        AuthStyle::Token => "Authorization",
        AuthStyle::ApiKey => "X-API-Key",
    }
}

/// Builds the header that presents `credential` in the given style. Fails
/// exactly where the credential holds a character that no header value may
/// hold.
pub fn auth_header(style: AuthStyle, credential: &str) -> (r: Result<AuthHeader, CredentialRejected>)
    ensures
        r is Ok <==> is_header_text(credential@),
        r matches Ok(header) ==> header.name@ == auth_header_name(style) && header_text(
            header.value,
        ) == auth_header_text(style, credential@),
        r matches Err(error) ==> error.style == style,
{
    let text = match style {
        AuthStyle::Token => {
            let mut text = String::from_str("Token ");
            text.append(credential);
            text
        },
        AuthStyle::ApiKey => String::from_str(credential),
    };
    proof {
        reveal_strlit("Token ");
        let prefix = "Token "@;
        assert(is_header_text(prefix)) by {
            assert(prefix.len() == 6);
            assert(is_header_char(prefix[0]) && is_header_char(prefix[1]) && is_header_char(
                prefix[2],
            ) && is_header_char(prefix[3]) && is_header_char(prefix[4]) && is_header_char(
                prefix[5],
            ));
        }
        if is_header_text(credential@) {
            assert forall|i: int| 0 <= i < text@.len() implies is_header_char(#[trigger] text@[i]) by {
                if style == AuthStyle::Token {
                    if i >= 6 {
                        assert(text@[i] == credential@[i - 6]);
                    } else {
                        assert(text@[i] == prefix[i]);
                    }
                }
            }
        }
        if is_header_text(text@) {
            assert forall|i: int| 0 <= i < credential@.len() implies is_header_char(
                #[trigger] credential@[i],
            ) by {
                if style == AuthStyle::Token {
                    assert(text@[i + 6] == credential@[i]);
                }
            }
        }
    }
    match header_value(text.as_str()) {
        Ok(value) => Ok(AuthHeader { name: auth_header_name_text(style), value }),
        Err(_) => Err(CredentialRejected { style }),
    }
}

} // verus!
