use accountimporter::books::{book_from, books_from, find_book_id, resolve_book, resolve_in_listing, Book, BookError};
use serde_json::Value;

fn book(id: i32, name: &str) -> Book {
    Book { id, name: name.to_string() }
}

fn read(text: &str) -> Value {
    serde_json::from_str(text).unwrap()
}

#[test]
fn exact_name_is_found() {
    let books = vec![book(1, "Home"), book(2, "Work")];
    assert_eq!(find_book_id(&books, "Work"), Some(2));
    assert_eq!(find_book_id(&books, "Home"), Some(1));
}

#[test]
fn first_of_several_matches_wins() {
    let books = vec![book(5, "Other"), book(9, "Work"), book(2, "Work"), book(3, "Work")];
    assert_eq!(find_book_id(&books, "Work"), Some(9));
}

#[test]
fn missing_name_is_not_found() {
    let books = vec![book(1, "Home"), book(2, "Work")];
    assert_eq!(find_book_id(&books, "Travel"), None);
    assert_eq!(find_book_id(&Vec::new(), "Home"), None);
}

#[test]
fn partial_and_normalised_names_do_not_match() {
    let books = vec![book(1, "Home"), book(2, "Work Books")];
    assert_eq!(find_book_id(&books, "Hom"), None);
    assert_eq!(find_book_id(&books, "Homes"), None);
    assert_eq!(find_book_id(&books, "home"), None);
    assert_eq!(find_book_id(&books, " Home"), None);
    assert_eq!(find_book_id(&books, "Home "), None);
    assert_eq!(find_book_id(&books, "Work"), None);
    assert_eq!(find_book_id(&books, ""), None);
}

#[test]
fn book_is_read_from_an_object() {
    assert_eq!(book_from(&read("{\"id\": 4, \"name\": \"Home\"}")), Some(book(4, "Home")));
    assert_eq!(
        book_from(&read("{\"id\": -4, \"name\": \"\", \"owner\": null}")),
        Some(book(-4, ""))
    );
}

#[test]
fn book_needs_integer_id_and_string_name() {
    assert_eq!(book_from(&read("{\"name\": \"Home\"}")), None);
    assert_eq!(book_from(&read("{\"id\": 4}")), None);
    assert_eq!(book_from(&read("{\"id\": \"4\", \"name\": \"Home\"}")), None);
    assert_eq!(book_from(&read("{\"id\": 4.5, \"name\": \"Home\"}")), None);
    assert_eq!(book_from(&read("{\"id\": 4, \"name\": 7}")), None);
    assert_eq!(book_from(&read("{\"id\": 4, \"name\": null}")), None);
    assert_eq!(book_from(&read("[4, \"Home\"]")), None);
    assert_eq!(book_from(&read("\"Home\"")), None);
}

#[test]
fn book_id_fits_in_32_bits() {
    assert_eq!(
        book_from(&read("{\"id\": 2147483647, \"name\": \"a\"}")),
        Some(book(i32::MAX, "a"))
    );
    assert_eq!(
        book_from(&read("{\"id\": -2147483648, \"name\": \"a\"}")),
        Some(book(i32::MIN, "a"))
    );
    assert_eq!(book_from(&read("{\"id\": 2147483648, \"name\": \"a\"}")), None);
    assert_eq!(book_from(&read("{\"id\": -2147483649, \"name\": \"a\"}")), None);
    assert_eq!(book_from(&read("{\"id\": 18446744073709551615, \"name\": \"a\"}")), None);
}

#[test]
fn list_is_read_in_order() {
    let listing = read("[{\"id\": 2, \"name\": \"b\"}, {\"id\": 1, \"name\": \"a\"}]");
    assert_eq!(books_from(&listing), Some(vec![book(2, "b"), book(1, "a")]));
    assert_eq!(books_from(&read("[]")), Some(Vec::new()));
}

#[test]
fn list_with_a_bad_element_is_no_list() {
    assert_eq!(books_from(&read("[{\"id\": 2, \"name\": \"b\"}, {\"id\": 1}]")), None);
    assert_eq!(books_from(&read("[{\"id\": 2, \"name\": \"b\"}, 3]")), None);
    assert_eq!(books_from(&read("{\"id\": 2, \"name\": \"b\"}")), None);
    assert_eq!(books_from(&read("null")), None);
}

#[test]
fn resolution_in_a_read_listing() {
    let listing = read("[{\"id\": 2, \"name\": \"b\"}, {\"id\": 1, \"name\": \"a\"}]");
    assert_eq!(resolve_in_listing(Some(&listing), "a"), Ok(1));
    assert_eq!(
        resolve_in_listing(Some(&listing), "c"),
        Err(BookError::NotFound { name: "c".to_string() })
    );
    assert_eq!(resolve_in_listing(Some(&read("7")), "a"), Err(BookError::Unreadable));
    assert_eq!(resolve_in_listing(None, "a"), Err(BookError::Unreadable));
}

#[test]
fn book_resolves_from_a_success_answer() {
    let body = "[{\"id\": 10, \"name\": \"Home\"}, {\"id\": 20, \"name\": \"Work\"}, {\"id\": 30, \"name\": \"Work\"}]";
    assert_eq!(resolve_book(200, body, "Work"), Ok(20));
    assert_eq!(resolve_book(200, body, "Home"), Ok(10));
    assert_eq!(resolve_book(204, body, "Home"), Ok(10));
}

#[test]
fn unknown_book_is_not_found_by_name() {
    let body = "[{\"id\": 10, \"name\": \"Home\"}]";
    let error = resolve_book(200, body, "Hom").unwrap_err();
    assert_eq!(error, BookError::NotFound { name: "Hom".to_string() });
    assert_eq!(error.message(), "No book found with name: Hom");
    assert_eq!(
        resolve_book(200, "[]", "Home"),
        Err(BookError::NotFound { name: "Home".to_string() })
    );
}

#[test]
fn failure_answer_carries_status_and_body() {
    let error = resolve_book(401, "{\"error\":\"Unauthorized\"}", "Home").unwrap_err();
    assert_eq!(
        error,
        BookError::Api {
            status: 401,
            reason: "Unauthorized".to_string(),
            body: "{\"error\":\"Unauthorized\"}".to_string(),
        }
    );
    assert_eq!(
        error.message(),
        "API error when fetching books (401 Unauthorized): {\"error\":\"Unauthorized\"}"
    );
}

#[test]
fn failure_answer_is_not_read_as_a_listing() {
    let body = "[{\"id\": 10, \"name\": \"Home\"}]";
    let error = resolve_book(500, body, "Home").unwrap_err();
    assert_eq!(
        error,
        BookError::Api {
            status: 500,
            reason: "Internal Server Error".to_string(),
            body: body.to_string(),
        }
    );
    let error = resolve_book(299 + 1, "", "Home").unwrap_err();
    assert_eq!(error.message(), "API error when fetching books (300 Multiple Choices): ");
}

#[test]
fn success_answer_that_is_no_listing_is_unreadable() {
    assert_eq!(resolve_book(200, "", "Home"), Err(BookError::Unreadable));
    assert_eq!(resolve_book(200, "not json", "Home"), Err(BookError::Unreadable));
    assert_eq!(resolve_book(200, "{\"books\": []}", "Home"), Err(BookError::Unreadable));
    assert_eq!(resolve_book(200, "[{\"id\": 1}]", "Home"), Err(BookError::Unreadable));
    assert_eq!(BookError::Unreadable.message(), "Failed to parse books response");
}
