//! The book resolver: finds the identifier of a book by its name in the
//! answer of the books listing.

use vstd::prelude::*;
use vstd::string::*;
use crate::decode::{int32_at, int32_member, text_at, text_member};
use crate::json::{as_array, documents_of, elements_in, json_of, json_parse, parse, Json};
use crate::status::{is_success, reason_phrase, reason_text, status_is_success};
use crate::text::{decimal, natural_text};

verus! {

/// A book of the accounting service.
#[derive(Debug, PartialEq, Eq)]
pub struct Book {
    pub id: i32,
    pub name: String,
}

/// A book as a mathematical value.
pub struct BookView {
    pub id: i32,
    pub name: Seq<char>,
}

impl View for Book {
    type V = BookView;

    open spec fn view(&self) -> BookView {
        BookView { id: self.id, name: self.name@ }
    }
}

/// The books of a list as mathematical values.
pub open spec fn book_views(books: Seq<Book>) -> Seq<BookView> {
    books.map_values(|book: Book| book@)
}

/// The identifier of the first book in the list whose name is exactly `name`.
pub open spec fn first_named(books: Seq<BookView>, name: Seq<char>) -> Option<i32>
    decreases books.len(),
{
    if books.len() == 0 {
        None
    } else if books[0].name == name {
        Some(books[0].id)
    } else {
        first_named(books.drop_first(), name)
    }
}

/// A book is found exactly where some book in the list has the name asked
/// for, letter for letter; the identifier is that of the first such book.
pub proof fn lemma_first_named(books: Seq<BookView>, name: Seq<char>)
    ensures
        match first_named(books, name) {
            Some(id) => exists|i: int|
                0 <= i < books.len() && (#[trigger] books[i]).name == name && books[i].id == id
                    && forall|j: int| 0 <= j < i ==> (#[trigger] books[j]).name != name,
            None => forall|i: int| 0 <= i < books.len() ==> (#[trigger] books[i]).name != name,
        },
    decreases books.len(),
{
    if books.len() == 0 {
    } else if books[0].name == name {
        assert(books[0].name == name && books[0].id == books[0].id);
    } else {
        let rest = books.drop_first();
        lemma_first_named(rest, name);
        match first_named(rest, name) {
            Some(id) => {
                let i = choose|i: int|
                    0 <= i < rest.len() && (#[trigger] rest[i]).name == name && rest[i].id == id
                        && forall|j: int| 0 <= j < i ==> (#[trigger] rest[j]).name != name;
                assert(books[i + 1] == rest[i]);
                assert forall|j: int| 0 <= j < i + 1 implies (#[trigger] books[j]).name != name by {
                    if j > 0 {
                        assert(books[j] == rest[j - 1]);
                    }
                }
            },
            None => {
                assert forall|i: int| 0 <= i < books.len() implies (#[trigger] books[i]).name
                    != name by {
                    if i > 0 {
                        assert(books[i] == rest[i - 1]);
                    }
                }
            },
        }
    }
}

/// Finds the identifier of the first book whose name is exactly `name`.
pub fn find_book_id(books: &Vec<Book>, name: &str) -> (r: Option<i32>)
    ensures
        r == first_named(book_views(books@), name@),
{
    let wanted = String::from_str(name);
    let ghost all = book_views(books@);
    let mut i: usize = 0;
    assert(all.skip(0) =~= all);
    while i < books.len()
        invariant
            i <= books.len(),
            wanted@ == name@,
            all == book_views(books@),
            first_named(all, name@) == first_named(all.skip(i as int), name@),
        decreases books.len() - i,
    {
        let ghost rest = all.skip(i as int);
        assert(rest[0] == books@[i as int]@);
        assert(rest.drop_first() =~= all.skip(i + 1));
        if books[i].name == wanted {
            return Some(books[i].id);
        }
        i += 1;
    }
    None
}

/// The book that a JSON document describes: an object with an integer `id`
/// that 32 bits can hold and a string `name`.
pub open spec fn book_in(document: Json) -> Option<BookView> {
    match (int32_at(document, "id"@), text_at(document, "name"@)) {
        (Some(id), Some(name)) => Some(BookView { id, name }),
        _ => None,
    }
}

/// The books that a JSON document lists: an array whose every element
/// describes a book, in the order of the array.
pub open spec fn books_in(document: Json) -> Option<Seq<BookView>> {
    match elements_in(document) {
        Some(elements) => if forall|i: int|
            0 <= i < elements.len() ==> book_in(#[trigger] elements[i]) is Some {
            Some(elements.map_values(|element: Json| book_in(element).unwrap()))
        } else {
            None
        },
        None => None,
    }
}

/// Reads a book out of a JSON value.
pub fn book_from(value: &serde_json::Value) -> (r: Option<Book>)
    ensures
        match r {
            Some(book) => book_in(json_of(*value)) == Some(book@),
            None => book_in(json_of(*value)) is None,
        },
{
    match int32_member(value, "id") {
        Some(id) => match text_member(value, "name") {
            Some(name) => Some(Book { id, name }),
            None => None,
        },
        None => None,
    }
}

/// Reads a list of books out of a JSON value.
pub fn books_from(value: &serde_json::Value) -> (r: Option<Vec<Book>>)
    ensures
        match r {
            Some(books) => books_in(json_of(*value)) == Some(book_views(books@)),
            None => books_in(json_of(*value)) is None,
        },
{
    match as_array(value) {
        Some(items) => {
            let ghost elements = documents_of(items@);
            let mut books: Vec<Book> = Vec::new();
            let mut i: usize = 0;
            while i < items.len()
                invariant
                    i <= items.len(),
                    elements == documents_of(items@),
                    elements_in(json_of(*value)) == Some(elements),
                    books@.len() == i,
                    forall|k: int| 0 <= k < i ==> book_in(#[trigger] elements[k]) == Some(books@[k]@),
                decreases items.len() - i,
            {
                assert(elements[i as int] == json_of(items@[i as int]));
                match book_from(&items[i]) {
                    Some(book) => {
                        books.push(book);
                    },
                    None => {
                        assert(book_in(elements[i as int]) is None);
                        return None;
                    },
                }
                i += 1;
            }
            assert(book_views(books@) =~= elements.map_values(
                |element: Json| book_in(element).unwrap(),
            ));
            Some(books)
        },
        None => None,
    }
}

/// Why a book could not be resolved.
#[derive(Debug, PartialEq, Eq)]
pub enum BookError {
    /// The listing was answered with a status outside the success class.
    Api { status: u16, reason: String, body: String },
    /// The listing was answered with a body that is no list of books.
    Unreadable,
    /// No book in the listing has the name asked for.
    NotFound { name: String },
}

/// A resolver failure as a mathematical value.
pub enum BookErrorView {
    Api { status: u16, reason: Seq<char>, body: Seq<char> },
    Unreadable,
    NotFound { name: Seq<char> },
}

impl View for BookError {
    type V = BookErrorView;

    open spec fn view(&self) -> BookErrorView {
        match self {
            BookError::Api { status, reason, body } => BookErrorView::Api {
                status: *status,
                reason: reason@,
                body: body@,
            },
            BookError::Unreadable => BookErrorView::Unreadable,
            BookError::NotFound { name } => BookErrorView::NotFound { name: name@ },
        }
    }
}

/// The message of a resolver failure.
pub open spec fn book_error_message(error: BookErrorView) -> Seq<char> {
    match error {
        BookErrorView::Api { status, reason, body } => "API error when fetching books ("@ + decimal(
            status as int,
        ) + " "@ + reason + "): "@ + body,
        BookErrorView::Unreadable => "Failed to parse books response"@,
        BookErrorView::NotFound { name } => "No book found with name: "@ + name,
    }
}

impl BookError {
    /// Writes the message of this failure.
    pub fn message(&self) -> (r: String)
        ensures
            r@ == book_error_message(self@),
    {
        match self {
            BookError::Api { status, reason, body } => {
                let mut text = String::from_str("API error when fetching books (");
                text.append(natural_text(*status as u64).as_str());
                text.append(" ");
                text.append(reason.as_str());
                text.append("): ");
                text.append(body.as_str());
                text
            },
            BookError::Unreadable => String::from_str("Failed to parse books response"),
            BookError::NotFound { name } => {
                let mut text = String::from_str("No book found with name: ");
                text.append(name.as_str());
                text
            },
        }
    }
}

/// What a listing document resolves to for a book name: the identifier of the
/// first book of that name, a failure where the document is no list of books
/// or holds no book of that name.
pub open spec fn resolution_in(document: Option<Json>, name: Seq<char>) -> Result<
    i32,
    BookErrorView,
> {
    match document {
        Some(listing) => match books_in(listing) {
            Some(books) => match first_named(books, name) {
                Some(id) => Ok(id),
                None => Err(BookErrorView::NotFound { name }),
            },
            None => Err(BookErrorView::Unreadable),
        },
        None => Err(BookErrorView::Unreadable),
    }
}

/// What the answer of the books listing resolves to for a book name.
pub open spec fn book_resolution(status: u16, body: Seq<char>, name: Seq<char>) -> Result<
    i32,
    BookErrorView,
> {
    if is_success(status) {
        resolution_in(json_parse(body), name)
    } else {
        Err(BookErrorView::Api { status, reason: reason_phrase(status), body })
    }
}

/// The result of a resolution as a mathematical value.
pub open spec fn resolution_view(result: Result<i32, BookError>) -> Result<i32, BookErrorView> {
    match result {
        Ok(id) => Ok(id),
        Err(error) => Err(error@),
    }
}

/// Resolves a book name in a listing that has been read, `None` standing for a
/// body that is no JSON document.
pub fn resolve_in_listing(listing: Option<&serde_json::Value>, name: &str) -> (r: Result<
    i32,
    BookError,
>)
    ensures
        resolution_view(r) == resolution_in(
            match listing {
                Some(value) => Some(json_of(*value)),
                None => None,
            },
            name@,
        ),
{
    match listing {
        Some(value) => match books_from(value) {
            Some(books) => match find_book_id(&books, name) {
                Some(id) => Ok(id),
                None => Err(BookError::NotFound { name: String::from_str(name) }),
            },
            None => Err(BookError::Unreadable),
        },
        None => Err(BookError::Unreadable),
    }
}

/// Resolves a book name from the answer of the books listing: its status and
/// its body.
pub fn resolve_book(status: u16, body: &str, name: &str) -> (r: Result<i32, BookError>)
    ensures
        resolution_view(r) == book_resolution(status, body@, name@),
{
    if status_is_success(status) {
        match parse(body) {
            Ok(value) => resolve_in_listing(Some(&value), name),
            Err(_) => resolve_in_listing(None, name),
        }
    } else {
        Err(
            BookError::Api {
                status,
                reason: reason_text(status),
                body: String::from_str(body),
            },
        )
    }
}

} // verus!
