//! The account extractor: finds account declarations in the lines of a ledger
//! file.
//!
//! A declaration is a line that the pattern [`ACCOUNT_PATTERN`] matches. What
//! the pattern captures is trimmed, and is an account name unless nothing is
//! left. Matching is done by the `regex` crate.

use vstd::prelude::*;
use vstd::string::*;
use crate::text::{
    is_blank, is_trimmed, lemma_trimmed, lemma_trimmed_of_blank, optional_str, optional_text, texts,
    trim, trimmed,
};

verus! {

#[verifier::external_type_specification]
#[verifier::external_body]
pub struct ExRegex(regex::Regex);

#[verifier::external_type_specification]
#[verifier::external_body]
pub struct ExRegexError(regex::Error);

/// The pattern that a compiled `regex::Regex` was made from.
pub uninterp spec fn regex_pattern(matcher: regex::Regex) -> Seq<char>;

/// Whether `regex::Regex::new` accepts a pattern.
pub uninterp spec fn regex_compiles(pattern: Seq<char>) -> bool;

/// What capture group `group` holds in the match that `regex::Regex::captures`
/// finds for a pattern in a text: `None` where the pattern does not match, the
/// pattern has no such group, or the group took no part in the match.
pub uninterp spec fn regex_group(pattern: Seq<char>, text: Seq<char>, group: usize) -> Option<Seq<char>>;

/// `Regex::new`. Trusted: it succeeds exactly on the patterns that
/// `regex_compiles` names, and the matcher returned was made from `pattern`.
#[verifier::external_body]
fn compile(pattern: &str) -> (r: Result<regex::Regex, regex::Error>)
    ensures
        r is Ok <==> regex_compiles(pattern@),
        r matches Ok(matcher) ==> regex_pattern(matcher) == pattern@,
{
    regex::Regex::new(pattern)
}

/// `Regex::captures`, then `Captures::get` and `Match::as_str`. Trusted: the
/// text returned is what `regex_group` names for the matcher's pattern, the
/// text searched and the group asked for.
#[verifier::external_body]
fn capture_group<'a>(matcher: &regex::Regex, text: &'a str, group: usize) -> (r: Option<&'a str>)
    ensures
        optional_str(r) == regex_group(regex_pattern(*matcher), text@, group),
{
    Some(matcher.captures(text)?.get(group)?.as_str())
}

/// The pattern of an account declaration: the word `account` at the start of
/// the line, white space, and the rest of the line as capture group 1.
pub const ACCOUNT_PATTERN: &'static str = "^account\\s+(.+)$";

/// The capture group of [`ACCOUNT_PATTERN`] that holds the name.
pub const NAME_GROUP: usize = 1;

/// The account name in what the pattern captured: the capture trimmed, unless
/// that leaves nothing.
pub open spec fn name_in_capture(capture: Option<Seq<char>>) -> Option<Seq<char>> {
    match capture {
        Some(text) => if trimmed(text).len() > 0 {
            Some(trimmed(text))
        } else {
            None
        },
        None => None,
    }
}

/// The account name that a line declares under a pattern, if any.
pub open spec fn declared_under(pattern: Seq<char>, line: Seq<char>) -> Option<Seq<char>> {
    name_in_capture(regex_group(pattern, line, NAME_GROUP))
}

/// The account name that a line declares, if any.
pub open spec fn declared_name(line: Seq<char>) -> Option<Seq<char>> {
    declared_under(ACCOUNT_PATTERN@, line)
}

/// The account names that the lines declare, in the order of the lines.
pub open spec fn declared_names(lines: Seq<Seq<char>>) -> Seq<Seq<char>>
    decreases lines.len(),
{
    if lines.len() == 0 {
        Seq::empty()
    } else {
        match declared_name(lines.last()) {
            Some(name) => declared_names(lines.drop_last()).push(name),
            None => declared_names(lines.drop_last()),
        }
    }
}

/// The account pattern was not accepted by the matching engine.
#[derive(Debug, PartialEq, Eq)]
pub struct PatternRejected {}

/// A compiled line pattern.
#[derive(Debug)]
pub struct LineMatcher {
    matcher: regex::Regex,
}

impl LineMatcher {
    /// The pattern that this matcher was made from.
    pub closed spec fn pattern(&self) -> Seq<char> {
        regex_pattern(self.matcher)
    }

    /// Compiles `pattern`.
    pub fn new(pattern: &str) -> (r: Result<LineMatcher, PatternRejected>)
        ensures
            r is Ok <==> regex_compiles(pattern@),
            r matches Ok(matcher) ==> matcher.pattern() == pattern@,
    {
        match compile(pattern) {
            Ok(matcher) => Ok(LineMatcher { matcher }),
            Err(_) => Err(PatternRejected {}),
        }
    }

    /// The account name that `line` declares, if any.
    pub fn account_name(&self, line: &str) -> (r: Option<String>)
        ensures
            optional_text(r) == declared_under(self.pattern(), line@),
    {
        name_from_capture(capture_group(&self.matcher, line, NAME_GROUP))
    }
}

/// Turns what the pattern captured in a line into an account name: the capture
/// trimmed, or nothing where there was no match or only white space.
pub fn name_from_capture(capture: Option<&str>) -> (r: Option<String>)
    ensures
        optional_text(r) == name_in_capture(optional_str(capture)),
{
    match capture {
        Some(text) => {
            let name = trim(text);
            if name.is_empty() {
                None
            } else {
                Some(String::from_str(name))
            }
        },
        None => None,
    }
}

/// Extracts the account names that `lines` declare, in the order of the lines.
/// Fails only where the matching engine rejects [`ACCOUNT_PATTERN`].
pub fn extract_account_names(lines: &Vec<String>) -> (r: Result<Vec<String>, PatternRejected>)
    ensures
        r is Ok <==> regex_compiles(ACCOUNT_PATTERN@),
        r matches Ok(names) ==> texts(names@) == declared_names(texts(lines@)),
{
    let matcher = match LineMatcher::new(ACCOUNT_PATTERN) {
        Ok(matcher) => matcher,
        Err(e) => {
            return Err(e);
        },
    };
    let mut names: Vec<String> = Vec::new();
    let mut i: usize = 0;
    assert(texts(lines@).take(0) =~= Seq::empty());
    assert(texts(names@) =~= Seq::empty());
    while i < lines.len()
        invariant
            i <= lines.len(),
            matcher.pattern() == ACCOUNT_PATTERN@,
            texts(names@) == declared_names(texts(lines@).take(i as int)),
        decreases lines.len() - i,
    {
        let ghost before = texts(lines@).take(i as int);
        let ghost upto = texts(lines@).take(i + 1);
        assert(upto.drop_last() =~= before);
        assert(upto.last() == lines@[i as int]@);
        match matcher.account_name(lines[i].as_str()) {
            Some(name) => {
                assert(texts(names@.push(name)) =~= texts(names@).push(name@));
                names.push(name);
            },
            None => {},
        }
        i += 1;
    }
    assert(texts(lines@).take(i as int) =~= texts(lines@));
    Ok(names)
}

/// A line declares an account exactly where the pattern matches it and
/// captures more than white space; the name is then the capture, trimmed.
pub proof fn lemma_declared_name(line: Seq<char>)
    ensures
        match regex_group(ACCOUNT_PATTERN@, line, NAME_GROUP) {
            Some(capture) => if is_blank(capture) {
                declared_name(line) is None
            } else {
                declared_name(line) == Some(trimmed(capture))
            },
            None => declared_name(line) is None,
        },
{
    match regex_group(ACCOUNT_PATTERN@, line, NAME_GROUP) {
        Some(capture) => {
            lemma_trimmed_of_blank(capture);
        },
        None => {},
    }
}

/// Whether a line declares an account.
pub open spec fn declares(line: Seq<char>) -> bool {
    declared_name(line) is Some
}

/// Each line that declares an account yields exactly one name: there are as
/// many names as declaring lines.
pub proof fn lemma_one_name_per_declaration(lines: Seq<Seq<char>>)
    ensures
        declared_names(lines).len() == lines.filter(|line: Seq<char>| declares(line)).len(),
    decreases lines.len(),
{
    reveal(Seq::filter);
    if lines.len() > 0 {
        lemma_one_name_per_declaration(lines.drop_last());
    }
}

/// No more names are extracted than there are lines, and every name is a
/// trimmed text that is not empty.
pub proof fn lemma_declared_names(lines: Seq<Seq<char>>)
    ensures
        declared_names(lines).len() <= lines.len(),
        forall|k: int|
            0 <= k < declared_names(lines).len() ==> (#[trigger] declared_names(lines)[k]).len() > 0
                && is_trimmed(declared_names(lines)[k]),
    decreases lines.len(),
{
    if lines.len() > 0 {
        lemma_declared_names(lines.drop_last());
        match regex_group(ACCOUNT_PATTERN@, lines.last(), NAME_GROUP) {
            Some(capture) => {
                lemma_trimmed(capture);
            },
            None => {},
        }
    }
}

/// Lines that declare nothing yield no name.
pub proof fn lemma_no_declaration_no_name(lines: Seq<Seq<char>>)
    requires
        forall|i: int| 0 <= i < lines.len() ==> declared_name(#[trigger] lines[i]) is None,
    ensures
        declared_names(lines).len() == 0,
    decreases lines.len(),
{
    if lines.len() > 0 {
        let rest = lines.drop_last();
        assert forall|i: int| 0 <= i < rest.len() implies declared_name(#[trigger] rest[i]) is None by {
            assert(rest[i] == lines[i]);
        }
        lemma_no_declaration_no_name(rest);
    }
}

/// Lines that each declare a name yield as many names as there are lines, one
/// per line and in the order of the lines.
pub proof fn lemma_every_declaration_one_name(lines: Seq<Seq<char>>)
    requires
        forall|i: int| 0 <= i < lines.len() ==> declared_name(#[trigger] lines[i]) is Some,
    ensures
        declared_names(lines).len() == lines.len(),
        forall|i: int|
            0 <= i < lines.len() ==> declared_name(#[trigger] lines[i]) == Some(declared_names(lines)[i]),
    decreases lines.len(),
{
    if lines.len() > 0 {
        let rest = lines.drop_last();
        assert forall|i: int| 0 <= i < rest.len() implies declared_name(#[trigger] rest[i]) is Some by {
            assert(rest[i] == lines[i]);
        }
        lemma_every_declaration_one_name(rest);
        assert forall|i: int| 0 <= i < lines.len() implies declared_name(#[trigger] lines[i]) == Some(
            declared_names(lines)[i],
        ) by {
            if i < rest.len() {
                assert(rest[i] == lines[i]);
            }
        }
    }
}

} // verus!
