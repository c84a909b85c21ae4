use accountimporter::ledger::{extract_account_names, name_from_capture, LineMatcher, ACCOUNT_PATTERN};

fn lines(text: &[&str]) -> Vec<String> {
    text.iter().map(|line| line.to_string()).collect()
}

#[test]
fn declaration_yields_its_name() {
    let matcher = LineMatcher::new(ACCOUNT_PATTERN).unwrap();
    assert_eq!(matcher.account_name("account Assets:Bank"), Some("Assets:Bank".to_string()));
}

#[test]
fn name_is_trimmed_of_surrounding_white_space() {
    let matcher = LineMatcher::new(ACCOUNT_PATTERN).unwrap();
    assert_eq!(
        matcher.account_name("account \t Expenses:Food and Drink \t "),
        Some("Expenses:Food and Drink".to_string())
    );
}

#[test]
fn name_keeps_inner_white_space() {
    let matcher = LineMatcher::new(ACCOUNT_PATTERN).unwrap();
    assert_eq!(matcher.account_name("account A  B\tC"), Some("A  B\tC".to_string()));
}

#[test]
fn tab_separates_keyword_and_name() {
    let matcher = LineMatcher::new(ACCOUNT_PATTERN).unwrap();
    assert_eq!(matcher.account_name("account\tIncome"), Some("Income".to_string()));
}

#[test]
fn keyword_needs_white_space_after_it() {
    let matcher = LineMatcher::new(ACCOUNT_PATTERN).unwrap();
    assert_eq!(matcher.account_name("account"), None);
    assert_eq!(matcher.account_name("accounts Assets"), None);
    assert_eq!(matcher.account_name("account:Assets"), None);
}

#[test]
fn keyword_stands_at_line_start() {
    let matcher = LineMatcher::new(ACCOUNT_PATTERN).unwrap();
    assert_eq!(matcher.account_name(" account Assets"), None);
    assert_eq!(matcher.account_name("; account Assets"), None);
    assert_eq!(matcher.account_name("2024-01-01 account Assets"), None);
}

#[test]
fn keyword_is_case_sensitive() {
    let matcher = LineMatcher::new(ACCOUNT_PATTERN).unwrap();
    assert_eq!(matcher.account_name("Account Assets"), None);
    assert_eq!(matcher.account_name("ACCOUNT Assets"), None);
}

#[test]
fn white_space_only_capture_yields_nothing() {
    let matcher = LineMatcher::new(ACCOUNT_PATTERN).unwrap();
    assert_eq!(matcher.account_name("account "), None);
    assert_eq!(matcher.account_name("account   "), None);
    assert_eq!(matcher.account_name("account \t\t "), None);
}

#[test]
fn other_lines_yield_nothing() {
    let matcher = LineMatcher::new(ACCOUNT_PATTERN).unwrap();
    assert_eq!(matcher.account_name(""), None);
    assert_eq!(matcher.account_name("2024-01-01 * Groceries"), None);
    assert_eq!(matcher.account_name("    Expenses:Food  10 INR"), None);
    assert_eq!(matcher.account_name("commodity INR"), None);
}

#[test]
fn matcher_follows_the_pattern_it_was_made_from() {
    let matcher = LineMatcher::new("^book\\s+(.+)$").unwrap();
    assert_eq!(matcher.account_name("book Home"), Some("Home".to_string()));
    assert_eq!(matcher.account_name("account Home"), None);
}

#[test]
fn matcher_reads_the_group_not_the_whole_match() {
    let matcher = LineMatcher::new("^(?:account)\\s+x(.+)$").unwrap();
    assert_eq!(matcher.account_name("account xyz"), Some("yz".to_string()));
}

#[test]
fn invalid_pattern_is_rejected() {
    assert!(LineMatcher::new("account(").is_err());
    assert!(LineMatcher::new(ACCOUNT_PATTERN).is_ok());
}

#[test]
fn capture_is_trimmed() {
    assert_eq!(name_from_capture(Some("  Assets:Bank  ")), Some("Assets:Bank".to_string()));
    assert_eq!(name_from_capture(Some("Assets")), Some("Assets".to_string()));
}

#[test]
fn empty_or_missing_capture_yields_nothing() {
    assert_eq!(name_from_capture(None), None);
    assert_eq!(name_from_capture(Some("")), None);
    assert_eq!(name_from_capture(Some(" \t ")), None);
}

#[test]
fn every_unicode_white_space_is_trimmed() {
    let spaces = [
        '\u{9}', '\u{A}', '\u{B}', '\u{C}', '\u{D}', '\u{20}', '\u{85}', '\u{A0}', '\u{1680}',
        '\u{2000}', '\u{2001}', '\u{2002}', '\u{2003}', '\u{2004}', '\u{2005}', '\u{2006}',
        '\u{2007}', '\u{2008}', '\u{2009}', '\u{200A}', '\u{2028}', '\u{2029}', '\u{202F}',
        '\u{205F}', '\u{3000}',
    ];
    for space in spaces {
        let capture = format!("{}Cash{}", space, space);
        assert_eq!(name_from_capture(Some(&capture)), Some("Cash".to_string()));
        let blank = format!("{}{}", space, space);
        assert_eq!(name_from_capture(Some(&blank)), None);
    }
}

#[test]
fn characters_next_to_white_space_are_kept() {
    let kept = [
        '\u{8}', '\u{E}', '\u{1F}', '\u{21}', '\u{84}', '\u{86}', '\u{9F}', '\u{A1}', '\u{167F}',
        '\u{1681}', '\u{180E}', '\u{1FFF}', '\u{200B}', '\u{2027}', '\u{202A}', '\u{202E}',
        '\u{2030}', '\u{205E}', '\u{2060}', '\u{2FFF}', '\u{3001}', '\u{FEFF}',
    ];
    for c in kept {
        let capture = format!("{}Cash{}", c, c);
        assert_eq!(name_from_capture(Some(&capture)), Some(capture.clone()));
    }
}

#[test]
fn names_come_in_file_order() {
    let file = lines(&[
        "; my ledger",
        "account Assets:Bank",
        "",
        "account   Expenses:Food  ",
        "2024-01-01 * Groceries",
        "    Expenses:Food  10 INR",
        "    Assets:Bank",
        "account Income:Salary",
    ]);
    assert_eq!(
        extract_account_names(&file),
        Ok(vec![
            "Assets:Bank".to_string(),
            "Expenses:Food".to_string(),
            "Income:Salary".to_string()
        ])
    );
}

#[test]
fn duplicate_declarations_are_kept() {
    let file = lines(&["account Cash", "account Cash", "account  Cash "]);
    assert_eq!(
        extract_account_names(&file),
        Ok(vec!["Cash".to_string(), "Cash".to_string(), "Cash".to_string()])
    );
}

#[test]
fn file_without_declarations_yields_no_name() {
    let file = lines(&["; nothing here", "account", "account   ", "Account Cash", ""]);
    assert_eq!(extract_account_names(&file), Ok(Vec::new()));
    assert_eq!(extract_account_names(&Vec::new()), Ok(Vec::new()));
}

#[test]
fn every_name_is_trimmed_and_not_empty() {
    let file = lines(&["account  a ", "account\u{3000}b\u{A0}", "account \t", "account c d"]);
    let names = extract_account_names(&file).unwrap();
    assert_eq!(names, vec!["a".to_string(), "b".to_string(), "c d".to_string()]);
    for name in names {
        assert!(!name.is_empty());
        assert_eq!(name.trim(), name);
    }
}

#[test]
fn carriage_return_at_line_end_is_trimmed() {
    let matcher = LineMatcher::new(ACCOUNT_PATTERN).unwrap();
    assert_eq!(matcher.account_name("account Cash\r"), Some("Cash".to_string()));
}
