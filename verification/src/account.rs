//! Account records and the request body that registers one.

use vstd::prelude::*;
use vstd::string::*;
use crate::text::optional_text;
use crate::json::{
    insert_member, integer_value, json_of, json_text, new_object, no_members, object_value, render,
    text_value, Json,
};

verus! {

/// The description given to every account that comes from a ledger file.
pub const IMPORT_DESCRIPTION: &'static str = "Imported from ledger file";

/// The currency given to every account that comes from a ledger file.
pub const IMPORT_CURRENCY: &'static str = "INR";

/// The opening balance given to every account that comes from a ledger file.
pub const IMPORT_BALANCE: i64 = 0;

/// An account to be registered with the accounting service.
#[derive(Debug, PartialEq, Eq)]
pub struct Account {
    pub name: String,
    pub description: Option<String>,
    pub currency: Option<String>,
    pub balance: Option<i64>,
    pub book_id: Option<i32>,
}

/// An account as a mathematical value.
pub struct AccountView {
    pub name: Seq<char>,
    pub description: Option<Seq<char>>,
    pub currency: Option<Seq<char>>,
    pub balance: Option<i64>,
    pub book_id: Option<i32>,
}

impl View for Account {
    type V = AccountView;

    open spec fn view(&self) -> AccountView {
        AccountView {
            name: self.name@,
            description: optional_text(self.description),
            currency: optional_text(self.currency),
            balance: self.balance,
            book_id: self.book_id,
        }
    }
}

/// The account that a ledger declaration of `name` stands for.
pub open spec fn imported_account(name: Seq<char>, book_id: Option<i32>) -> AccountView {
    AccountView {
        name,
        description: Some(IMPORT_DESCRIPTION@),
        currency: Some(IMPORT_CURRENCY@),
        balance: Some(IMPORT_BALANCE),
        book_id,
    }
}

/// `members` with `value` under `key` where there is a value, unchanged where
/// there is none.
pub open spec fn with_optional(
    members: Map<Seq<char>, Json>,
    key: Seq<char>,
    value: Option<Json>,
) -> Map<Seq<char>, Json> {
    match value {
        Some(present) => members.insert(key, present),
        None => members,
    }
}

/// A text as a JSON member, where there is one.
pub open spec fn text_member(value: Option<Seq<char>>) -> Option<Json> {
    match value {
        Some(text) => Some(Json::Text(text)),
        None => None,
    }
}

/// The members of the request object for an account: the name always, each
/// optional field only where it is present.
pub open spec fn payload_members(account: AccountView) -> Map<Seq<char>, Json> {
    let named = no_members().insert("name"@, Json::Text(account.name));
    let described = with_optional(named, "description"@, text_member(account.description));
    let priced = with_optional(described, "currency"@, text_member(account.currency));
    let balanced = with_optional(
        priced,
        "balance"@,
        match account.balance {
            Some(amount) => Some(Json::Integer(amount as int)),
            None => None,
        },
    );
    with_optional(
        balanced,
        "book_id"@,
        match account.book_id {
            Some(id) => Some(Json::Integer(id as int)),
            None => None,
        },
    )
}

/// The request document for an account.
pub open spec fn payload(account: AccountView) -> Json {
    Json::Object(payload_members(account))
}

/// The request object has a member for the name and for each optional field
/// that is present, and for nothing else: an absent field has no member, and
/// no member is null.
pub proof fn lemma_payload_members(account: AccountView)
    ensures
        payload_members(account).contains_key("name"@),
        payload_members(account)["name"@] == Json::Text(account.name),
        payload_members(account).contains_key("description"@) <==> account.description is Some,
        account.description matches Some(text) ==> payload_members(account)["description"@]
            == Json::Text(text),
        payload_members(account).contains_key("currency"@) <==> account.currency is Some,
        account.currency matches Some(text) ==> payload_members(account)["currency"@] == Json::Text(
            text,
        ),
        payload_members(account).contains_key("balance"@) <==> account.balance is Some,
        account.balance matches Some(amount) ==> payload_members(account)["balance"@]
            == Json::Integer(amount as int),
        payload_members(account).contains_key("book_id"@) <==> account.book_id is Some,
        account.book_id matches Some(id) ==> payload_members(account)["book_id"@] == Json::Integer(
            id as int,
        ),
        forall|key: Seq<char>| #[trigger]
            payload_members(account).contains_key(key) ==> key == "name"@ || key == "description"@
                || key == "currency"@ || key == "balance"@ || key == "book_id"@,
        forall|key: Seq<char>| #[trigger]
            payload_members(account).contains_key(key) ==> payload_members(account)[key]
                != Json::Null,
{
    reveal_strlit("name");
    reveal_strlit("description");
    reveal_strlit("currency");
    reveal_strlit("balance");
    reveal_strlit("book_id");
    assert("name"@.len() == 4);
    assert("description"@.len() == 11);
    assert("currency"@.len() == 8);
    assert("balance"@.len() == 7);
    assert("book_id"@.len() == 7);
    assert("balance"@[1] != "book_id"@[1]);
}

impl Account {
    /// The account that a ledger declaration of `name` stands for: the fixed
    /// description, currency and balance of an import, in the book given.
    pub fn imported(name: String, book_id: Option<i32>) -> (r: Account)
        ensures
            r@ == imported_account(name@, book_id),
    {
        Account {
            name,
            description: Some(String::from_str(IMPORT_DESCRIPTION)),
            currency: Some(String::from_str(IMPORT_CURRENCY)),
            balance: Some(IMPORT_BALANCE),
            book_id,
        }
    }

    /// Builds the request document for this account.
    pub fn payload(&self) -> (r: serde_json::Value)
        ensures
            json_of(r) == payload(self@),
    {
        let mut object = new_object();
        insert_member(&mut object, String::from_str("name"), text_value(self.name.clone()));
        match &self.description {
            Some(text) => {
                insert_member(&mut object, String::from_str("description"), text_value(text.clone()));
            },
            None => {},
        }
        match &self.currency {
            Some(text) => {
                insert_member(&mut object, String::from_str("currency"), text_value(text.clone()));
            },
            None => {},
        }
        match self.balance {
            Some(amount) => {
                insert_member(&mut object, String::from_str("balance"), integer_value(amount));
            },
            None => {},
        }
        match self.book_id {
            Some(id) => {
                insert_member(&mut object, String::from_str("book_id"), integer_value(id as i64));
            },
            None => {},
        }
        object_value(object)
    }

    /// Writes the request body for this account: the text of its request
    /// document, or nothing where the writer reports an error.
    pub fn request_body(&self) -> (r: Option<String>)
        ensures
            optional_text(r) == json_text(payload(self@)),
    {
        match render(&self.payload()) {
            Ok(body) => Some(body),
            Err(_) => None,
        }
    }
}

} // verus!
