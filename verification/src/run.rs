//! The run controller: what to tell the operator and which request to make
//! next.
//!
//! The controller does no input or output. A driver reads the ledger file,
//! hands its lines to [`begin`], prints the reports it gets back and makes the
//! request that the controller names; the answer goes back to the controller,
//! which names the next one. A book lookup or a batch exists only while a
//! request is due, so a run that has nothing to create makes no request.

use vstd::prelude::*;
use vstd::string::*;
use crate::account::{imported_account, payload, Account, AccountView};
use crate::books::{book_error_message, book_resolution, resolve_book, BookError, BookErrorView};
use crate::json::json_text;
use crate::ledger::{
    declared_name, declared_names, declares, extract_account_names, lemma_no_declaration_no_name,
    lemma_one_name_per_declaration, regex_compiles, ACCOUNT_PATTERN,
};
use crate::registrar::{
    create_error_message, creation_outcome, creation_result, outcome_view, CreateError,
    CreateErrorView, CreatedAccount, CreatedView,
};
use crate::text::{decimal, integer_text, natural_text, optional_text, texts};

verus! {

/// What the operator asked for.
#[derive(Debug, PartialEq, Eq)]
pub struct RunOptions {
    /// The book to create the accounts in, if any.
    pub book_name: Option<String>,
    /// Whether to stop after counting the accounts.
    pub dry_run: bool,
}

/// One line for the operator.
#[derive(Debug, PartialEq, Eq)]
pub enum Report {
    NoAccounts,
    AccountsFound { count: usize },
    DryRun,
    Created { id: i32, name: String },
    Failed { account: String, reason: String },
}

/// A report as a mathematical value.
pub enum ReportView {
    NoAccounts,
    AccountsFound { count: nat },
    DryRun,
    Created { id: i32, name: Seq<char> },
    Failed { account: Seq<char>, reason: Seq<char> },
}

impl View for Report {
    type V = ReportView;

    open spec fn view(&self) -> ReportView {
        match self {
            Report::NoAccounts => ReportView::NoAccounts,
            Report::AccountsFound { count } => ReportView::AccountsFound { count: *count as nat },
            Report::DryRun => ReportView::DryRun,
            Report::Created { id, name } => ReportView::Created { id: *id, name: name@ },
            Report::Failed { account, reason } => ReportView::Failed {
                account: account@,
                reason: reason@,
            },
        }
    }
}

/// The text of a report.
pub open spec fn report_line(report: ReportView) -> Seq<char> {
    match report {
        ReportView::NoAccounts => "No accounts found in the file."@,
        ReportView::AccountsFound { count } => "Found "@ + decimal(count as int)
            + " accounts in the file."@,
        ReportView::DryRun => "Dry run mode enabled. Not creating accounts in Kanakku."@,
        ReportView::Created { id, name } => "Created account: "@ + name + " (ID: "@ + decimal(
            id as int,
        ) + ")"@,
        ReportView::Failed { account, reason } => "Error creating account '"@ + account + "': "@
            + reason,
    }
}

impl Report {
    /// Whether this report tells of a failure.
    pub fn is_failure(&self) -> (r: bool)
        ensures
            r == (self@ is Failed),
    {
        match self {
            Report::Failed { .. } => true,
            _ => false,
        }
    }

    /// Writes the text of this report.
    pub fn line(&self) -> (r: String)
        ensures
            r@ == report_line(self@),
    {
        match self {
            Report::NoAccounts => String::from_str("No accounts found in the file."),
            Report::AccountsFound { count } => {
                let mut text = String::from_str("Found ");
                text.append(natural_text(*count as u64).as_str());
                text.append(" accounts in the file.");
                text
            },
            Report::DryRun => String::from_str(
                "Dry run mode enabled. Not creating accounts in Kanakku.",
            ),
            Report::Created { id, name } => {
                let mut text = String::from_str("Created account: ");
                text.append(name.as_str());
                text.append(" (ID: ");
                text.append(integer_text(*id as i64).as_str());
                text.append(")");
                text
            },
            Report::Failed { account, reason } => {
                let mut text = String::from_str("Error creating account '");
                text.append(account.as_str());
                text.append("': ");
                text.append(reason.as_str());
                text
            },
        }
    }
}

/// The reports of a list as mathematical values.
pub open spec fn report_views(reports: Seq<Report>) -> Seq<ReportView> {
    reports.map_values(|report: Report| report@)
}

/// The report on the outcome of creating the account `account`.
pub open spec fn creation_report(
    account: Seq<char>,
    outcome: Result<CreatedView, CreateErrorView>,
) -> ReportView {
    match outcome {
        Ok(created) => ReportView::Created { id: created.id, name: created.name },
        Err(error) => ReportView::Failed { account, reason: create_error_message(error) },
    }
}

/// Why a run was given up.
#[derive(Debug, PartialEq, Eq)]
pub enum RunError {
    /// The matching engine rejected the account pattern.
    PatternRejected,
    /// The books listing could not be asked for or no answer came back.
    ListingUnreachable { description: String },
    /// The book was not resolved.
    Book { cause: BookError },
}

/// A run failure as a mathematical value.
pub enum RunErrorView {
    PatternRejected,
    ListingUnreachable { description: Seq<char> },
    Book { cause: BookErrorView },
}

impl View for RunError {
    type V = RunErrorView;

    open spec fn view(&self) -> RunErrorView {
        match self {
            RunError::PatternRejected => RunErrorView::PatternRejected,
            RunError::ListingUnreachable { description } => RunErrorView::ListingUnreachable {
                description: description@,
            },
            RunError::Book { cause } => RunErrorView::Book { cause: cause@ },
        }
    }
}

/// The message of a run failure: the step that failed, then the cause.
pub open spec fn run_error_message(error: RunErrorView) -> Seq<char> {
    match error {
        RunErrorView::PatternRejected => "Failed to compile regex"@,
        RunErrorView::ListingUnreachable { description } =>
            "Failed to send API request to fetch books: "@ + description,
        RunErrorView::Book { cause } => "Failed to find book by name: "@ + book_error_message(
            cause,
        ),
    }
}

impl RunError {
    /// Writes the message of this failure.
    pub fn message(&self) -> (r: String)
        ensures
            r@ == run_error_message(self@),
    {
        match self {
            RunError::PatternRejected => String::from_str("Failed to compile regex"),
            RunError::ListingUnreachable { description } => {
                let mut text = String::from_str("Failed to send API request to fetch books: ");
                text.append(description.as_str());
                text
            },
            RunError::Book { cause } => {
                let mut text = String::from_str("Failed to find book by name: ");
                text.append(cause.message().as_str());
                text
            },
        }
    }
}

/// A batch of accounts as a mathematical value: the names in file order, the
/// book they go to, and the position of the account whose request is due.
pub struct BatchView {
    pub names: Seq<Seq<char>>,
    pub book_id: Option<i32>,
    pub position: nat,
}

/// The accounts that are still to be created. A batch always has an account
/// whose request is due.
#[derive(Debug)]
pub struct Batch {
    names: Vec<String>,
    book_id: Option<i32>,
    position: usize,
}

/// A book lookup as a mathematical value: the names that wait for the book,
/// and the name of the book.
pub struct LookupView {
    pub names: Seq<Seq<char>>,
    pub book_name: Seq<char>,
}

/// The accounts that wait for their book to be resolved. There is at least
/// one.
#[derive(Debug)]
pub struct BookLookup {
    names: Vec<String>,
    book_name: String,
}

/// What the driver does next.
#[derive(Debug)]
pub enum Next {
    /// Nothing: the run is complete.
    Finish,
    /// Ask for the books listing.
    FetchBooks { lookup: BookLookup },
    /// Ask for the creation of the batch's current account.
    Create { batch: Batch },
}

/// The next step as a mathematical value.
pub enum NextView {
    Finish,
    FetchBooks { lookup: LookupView },
    Create { batch: BatchView },
}

/// How a run opens: what to tell the operator, and what to do next.
#[derive(Debug)]
pub struct Opening {
    pub reports: Vec<Report>,
    pub next: Next,
}

/// An opening as a mathematical value.
pub struct OpeningView {
    pub reports: Seq<ReportView>,
    pub next: NextView,
}

/// What follows an answer: the report on the account, and the rest of the
/// batch where accounts are left.
#[derive(Debug)]
pub struct Turn {
    pub report: Report,
    pub rest: Option<Batch>,
}

/// The rest of a batch as a mathematical value.
pub open spec fn rest_view(rest: Option<Batch>) -> Option<BatchView> {
    match rest {
        Some(batch) => Some(batch@),
        None => None,
    }
}

impl View for Batch {
    type V = BatchView;

    closed spec fn view(&self) -> BatchView {
        BatchView { names: texts(self.names@), book_id: self.book_id, position: self.position as nat }
    }
}

impl View for BookLookup {
    type V = LookupView;

    closed spec fn view(&self) -> LookupView {
        LookupView { names: texts(self.names@), book_name: self.book_name@ }
    }
}

impl View for Next {
    type V = NextView;

    open spec fn view(&self) -> NextView {
        match self {
            Next::Finish => NextView::Finish,
            Next::FetchBooks { lookup } => NextView::FetchBooks { lookup: lookup@ },
            Next::Create { batch } => NextView::Create { batch: batch@ },
        }
    }
}

impl View for Opening {
    type V = OpeningView;

    open spec fn view(&self) -> OpeningView {
        OpeningView { reports: report_views(self.reports@), next: self.next@ }
    }
}

/// What the operator is told when a run opens on `count` accounts.
pub open spec fn opening_reports(count: nat, dry_run: bool) -> Seq<ReportView> {
    if count == 0 {
        seq![ReportView::NoAccounts]
    } else if dry_run {
        seq![ReportView::AccountsFound { count }, ReportView::DryRun]
    } else {
        seq![ReportView::AccountsFound { count }]
    }
}

/// What a run does first: nothing where no account was found or the run is a
/// dry run, else the book lookup where a book was named, else the first
/// creation.
pub open spec fn opening_next(
    names: Seq<Seq<char>>,
    book_name: Option<Seq<char>>,
    dry_run: bool,
) -> NextView {
    if names.len() == 0 || dry_run {
        NextView::Finish
    } else {
        match book_name {
            Some(book) => NextView::FetchBooks { lookup: LookupView { names, book_name: book } },
            None => NextView::Create { batch: BatchView { names, book_id: None, position: 0 } },
        }
    }
}

/// How a run opens on the account names found in the ledger file.
pub open spec fn opening_of(
    names: Seq<Seq<char>>,
    book_name: Option<Seq<char>>,
    dry_run: bool,
) -> OpeningView {
    OpeningView {
        reports: opening_reports(names.len(), dry_run),
        next: opening_next(names, book_name, dry_run),
    }
}

/// The batch after the current account, where one is left.
pub open spec fn batch_after(batch: BatchView) -> Option<BatchView> {
    if batch.position + 1 < batch.names.len() {
        Some(BatchView { position: batch.position + 1, ..batch })
    } else {
        None
    }
}

/// What is said of a request whose body could not be written.
pub const UNWRITTEN_BODY: &'static str = "the request body could not be written";

/// The accounts whose creation a batch asks for from its current account on,
/// in the order of the requests.
pub open spec fn pending(batch: BatchView) -> Seq<AccountView> {
    Seq::new(
        (batch.names.len() - batch.position) as nat,
        |k: int| imported_account(batch.names[batch.position + k], batch.book_id),
    )
}

/// A batch asks for its current account first and then for every account
/// after it, in file order and in the same book. No answer enters into this:
/// a failed creation does not end the batch.
pub proof fn lemma_batch_goes_on(batch: BatchView)
    requires
        batch.position < batch.names.len(),
    ensures
        pending(batch)[0] == imported_account(batch.names[batch.position as int], batch.book_id),
        match batch_after(batch) {
            Some(rest) => pending(batch) == seq![pending(batch)[0]] + pending(rest),
            None => pending(batch) == seq![pending(batch)[0]],
        },
{
    match batch_after(batch) {
        Some(rest) => {
            assert(pending(batch) =~= seq![pending(batch)[0]] + pending(rest));
        },
        None => {
            assert(pending(batch) =~= seq![pending(batch)[0]]);
        },
    }
}

impl Batch {
    #[verifier::type_invariant]
    spec fn has_current(self) -> bool {
        self.position < self.names.len()
    }

    /// The position of the current account among the accounts of the file,
    /// which is always within the batch.
    pub fn position(&self) -> (r: usize)
        ensures
            r == self@.position,
            r < self@.names.len(),
    {
        proof {
            use_type_invariant(self);
        }
        self.position
    }

    /// The number of accounts of the file.
    pub fn total(&self) -> (r: usize)
        ensures
            r == self@.names.len(),
            r > self@.position,
    {
        proof {
            use_type_invariant(self);
        }
        self.names.len()
    }

    /// The account whose request is due.
    pub fn account(&self) -> (r: Account)
        ensures
            r@ == imported_account(self@.names[self@.position as int], self@.book_id),
    {
        proof {
            use_type_invariant(self);
        }
        Account::imported(self.names[self.position].clone(), self.book_id)
    }

    /// The body of the request that is due: the text of the current account's
    /// request document, or nothing where the writer reports an error.
    pub fn request_body(&self) -> (r: Option<String>)
        ensures
            optional_text(r) == json_text(
                payload(imported_account(self@.names[self@.position as int], self@.book_id)),
            ),
    {
        self.account().request_body()
    }

    /// Records the outcome of the request for the current account, and moves
    /// on to the next account whatever the outcome was.
    pub fn record(self, outcome: Result<CreatedAccount, CreateError>) -> (r: Turn)
        ensures
            r.report@ == creation_report(
                self@.names[self@.position as int],
                outcome_view(outcome),
            ),
            rest_view(r.rest) == batch_after(self@),
    {
        proof {
            use_type_invariant(&self);
        }
        let report = match outcome {
            Ok(created) => Report::Created { id: created.id, name: created.name },
            Err(error) => Report::Failed {
                account: self.names[self.position].clone(),
                reason: error.message(),
            },
        };
        let rest = if self.position + 1 < self.names.len() {
            Some(Batch { names: self.names, book_id: self.book_id, position: self.position + 1 })
        } else {
            None
        };
        Turn { report, rest }
    }

    /// Takes the answer to the request for the current account.
    pub fn answered(self, status: u16, body: &str) -> (r: Turn)
        ensures
            r.report@ == creation_report(
                self@.names[self@.position as int],
                creation_result(status, body@),
            ),
            rest_view(r.rest) == batch_after(self@),
    {
        self.record(creation_outcome(status, body))
    }

    /// Takes note that no body could be written for the request for the
    /// current account, so that it was not sent.
    pub fn unwritten(self) -> (r: Turn)
        ensures
            r.report@ == creation_report(
                self@.names[self@.position as int],
                Err(CreateErrorView::Transport { description: UNWRITTEN_BODY@ }),
            ),
            rest_view(r.rest) == batch_after(self@),
    {
        self.unanswered(UNWRITTEN_BODY)
    }

    /// Takes note that the request for the current account could not be sent
    /// or got no answer.
    pub fn unanswered(self, description: &str) -> (r: Turn)
        ensures
            r.report@ == creation_report(
                self@.names[self@.position as int],
                Err(CreateErrorView::Transport { description: description@ }),
            ),
            rest_view(r.rest) == batch_after(self@),
    {
        self.record(Err(CreateError::Transport { description: String::from_str(description) }))
    }
}

/// What the result of a book resolution means for the accounts that wait for
/// it: a batch in that book, or the end of the run.
pub open spec fn lookup_result(
    lookup: LookupView,
    resolution: Result<i32, BookErrorView>,
) -> Result<BatchView, RunErrorView> {
    match resolution {
        Ok(id) => Ok(BatchView { names: lookup.names, book_id: Some(id), position: 0 }),
        Err(cause) => Err(RunErrorView::Book { cause }),
    }
}

/// The result of a lookup as a mathematical value.
pub open spec fn batch_result_view(result: Result<Batch, RunError>) -> Result<
    BatchView,
    RunErrorView,
> {
    match result {
        Ok(batch) => Ok(batch@),
        Err(error) => Err(error@),
    }
}

impl BookLookup {
    #[verifier::type_invariant]
    spec fn has_names(self) -> bool {
        self.names.len() > 0
    }

    /// The number of accounts that wait for the book, which is at least one.
    pub fn waiting(&self) -> (r: usize)
        ensures
            r == self@.names.len(),
            r > 0,
    {
        proof {
            use_type_invariant(self);
        }
        self.names.len()
    }

    /// The name of the book to resolve.
    pub fn book_name(&self) -> (r: &str)
        ensures
            r@ == self@.book_name,
    {
        self.book_name.as_str()
    }

    /// Takes the result of the book resolution.
    pub fn resolved(self, resolution: Result<i32, BookError>) -> (r: Result<Batch, RunError>)
        ensures
            batch_result_view(r) == lookup_result(
                self@,
                match resolution {
                    Ok(id) => Ok(id),
                    Err(cause) => Err(cause@),
                },
            ),
    {
        proof {
            use_type_invariant(&self);
        }
        match resolution {
            Ok(id) => Ok(Batch { names: self.names, book_id: Some(id), position: 0 }),
            Err(cause) => Err(RunError::Book { cause }),
        }
    }

    /// Takes the answer of the books listing.
    pub fn answered(self, status: u16, body: &str) -> (r: Result<Batch, RunError>)
        ensures
            batch_result_view(r) == lookup_result(
                self@,
                book_resolution(status, body@, self@.book_name),
            ),
    {
        let resolution = resolve_book(status, body, self.book_name.as_str());
        self.resolved(resolution)
    }

    /// Takes note that the books listing could not be asked for or got no
    /// answer: the run ends.
    pub fn unanswered(self, description: &str) -> (r: RunError)
        ensures
            r@ == (RunErrorView::ListingUnreachable { description: description@ }),
    {
        RunError::ListingUnreachable { description: String::from_str(description) }
    }
}

/// Opens a run on the account names found in the ledger file.
pub fn plan(names: Vec<String>, options: &RunOptions) -> (r: Opening)
    ensures
        r@ == opening_of(texts(names@), optional_text(options.book_name), options.dry_run),
{
    let count = names.len();
    let mut reports: Vec<Report> = Vec::new();
    if count == 0 {
        reports.push(Report::NoAccounts);
        assert(report_views(reports@) =~= opening_reports(0, options.dry_run));
        return Opening { reports, next: Next::Finish };
    }
    reports.push(Report::AccountsFound { count });
    if options.dry_run {
        reports.push(Report::DryRun);
        assert(report_views(reports@) =~= opening_reports(count as nat, true));
        return Opening { reports, next: Next::Finish };
    }
    assert(report_views(reports@) =~= opening_reports(count as nat, false));
    let next = match &options.book_name {
        Some(book) => Next::FetchBooks { lookup: BookLookup { names, book_name: book.clone() } },
        None => Next::Create { batch: Batch { names, book_id: None, position: 0 } },
    };
    Opening { reports, next }
}

/// Opens a run on the lines of the ledger file. Fails only where the matching
/// engine rejects the account pattern.
pub fn begin(lines: &Vec<String>, options: &RunOptions) -> (r: Result<Opening, RunError>)
    ensures
        r is Ok <==> regex_compiles(ACCOUNT_PATTERN@),
        r matches Ok(opening) ==> opening@ == opening_of(
            declared_names(texts(lines@)),
            optional_text(options.book_name),
            options.dry_run,
        ),
        r matches Err(error) ==> error@ == RunErrorView::PatternRejected,
{
    match extract_account_names(lines) {
        Ok(names) => Ok(plan(names, options)),
        Err(_) => Err(RunError::PatternRejected),
    }
}

/// A ledger file in which no line declares an account opens with the report
/// that none was found and makes no request, whatever the options.
pub proof fn lemma_nothing_declared_nothing_requested(
    lines: Seq<Seq<char>>,
    book_name: Option<Seq<char>>,
    dry_run: bool,
)
    requires
        forall|i: int| 0 <= i < lines.len() ==> declared_name(#[trigger] lines[i]) is None,
    ensures
        opening_of(declared_names(lines), book_name, dry_run) == (OpeningView {
            reports: seq![ReportView::NoAccounts],
            next: NextView::Finish,
        }),
{
    lemma_no_declaration_no_name(lines);
}

/// A dry run makes no request: where lines declare accounts it reports how
/// many do and that it is a dry run, and ends.
pub proof fn lemma_dry_run_nothing_requested(lines: Seq<Seq<char>>, book_name: Option<Seq<char>>)
    ensures
        opening_of(declared_names(lines), book_name, true).next == NextView::Finish,
        declared_names(lines).len() == lines.filter(|line: Seq<char>| declares(line)).len(),
        declared_names(lines).len() > 0 ==> opening_of(declared_names(lines), book_name, true).reports
            == seq![
            ReportView::AccountsFound { count: declared_names(lines).len() },
            ReportView::DryRun,
        ],
{
    lemma_one_name_per_declaration(lines);
}

} // verus!
