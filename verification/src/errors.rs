//! The errors that Fluent reports while it formats messages.

use crate::lists::push_string;
use crate::nsstring::NsCString;
use fluent::resolver::errors::ReferenceKind;
use fluent::resolver::ResolverError;
use fluent::FluentError;
use fluent_fallback::LocalizationError;
use thin_vec::ThinVec;
use vstd::prelude::*;
use vstd::string::*;

#[allow(unused_imports)]
use crate::lists::strings_in;
#[allow(unused_imports)]
use crate::nsstring::{bytes_of, text_is_read_back, text_of};
#[allow(unused_imports)]
use vstd::utf8::encode_utf8;

verus! {

/// An error of `fluent_fallback`.
#[verifier::external_type_specification]
#[verifier::external_body]
pub struct ExLocalizationError(LocalizationError);

/// An error of `fluent`.
#[verifier::external_type_specification]
#[verifier::external_body]
pub struct ExFluentError(FluentError);

/// An error of the resolver of `fluent`.
#[verifier::external_type_specification]
#[verifier::external_body]
pub struct ExResolverError(ResolverError);

/// What the resolver of `fluent` did not find.
#[verifier::external_type_specification]
#[verifier::external_body]
pub struct ExReferenceKind(ReferenceKind);

/// The kinds of error that `fluent_fallback` reports.
enum LocalizationProblem<'a> {
    Bundle,
    Resolver(&'a Vec<FluentError>),
    MissingMessage,
    MissingValue,
    SyncRequestInAsyncMode,
}

/// The kinds of error that `fluent` reports.
enum FluentProblem<'a> {
    Overriding,
    Parser,
    Resolver(&'a ResolverError),
}

/// The kinds of error that the resolver of `fluent` reports.
enum ResolverProblem<'a> {
    Reference(&'a ReferenceKind),
    NoValue,
    MissingDefault,
    Cyclic,
    TooManyPlaceables,
}

/// The kinds of thing that the resolver of `fluent` may not find.
enum Reference<'a> {
    Function(&'a String),
    Message(&'a String, &'a Option<String>),
    Term(&'a String, &'a Option<String>),
    Variable(&'a String),
}

/// Which error of `fluent_fallback` it is.
pub enum LocalizationProblemView {
    Bundle,
    Resolver(Seq<FluentError>),
    MissingMessage,
    MissingValue,
    SyncRequestInAsyncMode,
}

/// Which error of `fluent` it is.
pub enum FluentProblemView {
    Overriding,
    Parser,
    Resolver(ResolverError),
}

/// Which error of the resolver of `fluent` it is.
pub enum ResolverProblemView {
    Reference(ReferenceKind),
    NoValue,
    MissingDefault,
    Cyclic,
    TooManyPlaceables,
}

/// What it is that the resolver of `fluent` did not find.
pub enum ReferenceView {
    Function { id: Seq<char> },
    Message { id: Seq<char>, attribute: Option<Seq<char>> },
    Term { id: Seq<char>, attribute: Option<Seq<char>> },
    Variable { id: Seq<char> },
}

impl View for LocalizationProblem<'_> {
    type V = LocalizationProblemView;

    closed spec fn view(&self) -> LocalizationProblemView {
        match self {
            LocalizationProblem::Bundle => LocalizationProblemView::Bundle,
            LocalizationProblem::Resolver(errors) => LocalizationProblemView::Resolver(errors@),
            LocalizationProblem::MissingMessage => LocalizationProblemView::MissingMessage,
            LocalizationProblem::MissingValue => LocalizationProblemView::MissingValue,
            LocalizationProblem::SyncRequestInAsyncMode => {
                LocalizationProblemView::SyncRequestInAsyncMode
            },
        }
    }
}

impl View for FluentProblem<'_> {
    type V = FluentProblemView;

    closed spec fn view(&self) -> FluentProblemView {
        match self {
            FluentProblem::Overriding => FluentProblemView::Overriding,
            FluentProblem::Parser => FluentProblemView::Parser,
            FluentProblem::Resolver(error) => FluentProblemView::Resolver(**error),
        }
    }
}

impl View for ResolverProblem<'_> {
    type V = ResolverProblemView;

    closed spec fn view(&self) -> ResolverProblemView {
        match self {
            ResolverProblem::Reference(kind) => ResolverProblemView::Reference(**kind),
            ResolverProblem::NoValue => ResolverProblemView::NoValue,
            ResolverProblem::MissingDefault => ResolverProblemView::MissingDefault,
            ResolverProblem::Cyclic => ResolverProblemView::Cyclic,
            ResolverProblem::TooManyPlaceables => ResolverProblemView::TooManyPlaceables,
        }
    }
}

impl View for Reference<'_> {
    type V = ReferenceView;

    closed spec fn view(&self) -> ReferenceView {
        match self {
            Reference::Function(id) => ReferenceView::Function { id: id@ },
            Reference::Message(id, attribute) => ReferenceView::Message {
                id: id@,
                attribute: optional_text(**attribute),
            },
            Reference::Term(id, attribute) => ReferenceView::Term {
                id: id@,
                attribute: optional_text(**attribute),
            },
            Reference::Variable(id) => ReferenceView::Variable { id: id@ },
        }
    }
}

/// A failure while a message was resolved.
#[derive(Debug)]
pub struct ResolverFailure {
    /// The failure in words.
    pub text: String,
    /// The variable that the message refers to and that no argument gives, where this is the
    /// failure.
    pub unknown_variable: Option<String>,
}

/// An error that Fluent reports.
#[derive(Debug)]
pub struct L10nError {
    /// The error in words.
    pub text: String,
    /// The failures behind it, where the error is that a message was not resolved.
    pub failures: Vec<ResolverFailure>,
}

/// What a developer is told of an argument that is missing.
#[derive(Debug)]
pub struct MissingArgument {
    /// What is printed, line by line.
    pub lines: Vec<String>,
    /// The message that the program stops with.
    pub message: String,
}

/// Which variant of `LocalizationError` an error is, with the `errors` of a `Resolver`.
pub uninterp spec fn localization_problem_of(error: LocalizationError) -> LocalizationProblemView;

/// Which variant of `FluentError` an error is, with the error in a `ResolverError`.
pub uninterp spec fn fluent_problem_of(error: FluentError) -> FluentProblemView;

/// Which variant of `ResolverError` an error is, with the kind in a `Reference`.
pub uninterp spec fn resolver_problem_of(error: ResolverError) -> ResolverProblemView;

/// Which variant of `ReferenceKind` a kind is, with its fields.
pub uninterp spec fn reference_of(kind: ReferenceKind) -> ReferenceView;

/// The errors of `fluent` behind an error: there are such where a message was not resolved.
pub open spec fn resolver_errors_of(error: LocalizationError) -> Option<Seq<FluentError>> {
    match localization_problem_of(error) {
        LocalizationProblemView::Resolver(errors) => Some(errors),
        _ => None,
    }
}

/// The variable that an error is about: there is one where the resolver was referred to a variable
/// and did not find it.
pub open spec fn unknown_variable_of(error: FluentError) -> Option<Seq<char>> {
    match fluent_problem_of(error) {
        FluentProblemView::Resolver(error) => match resolver_problem_of(error) {
            ResolverProblemView::Reference(kind) => match reference_of(kind) {
                ReferenceView::Variable { id } => Some(id),
                _ => None,
            },
            _ => None,
        },
        _ => None,
    }
}

/// What `{:?}` prints for a text.
pub uninterp spec fn debug_text(text: Seq<char>) -> Seq<char>;

/// The text that there may be.
pub open spec fn optional_text(text: Option<String>) -> Option<Seq<char>> {
    match text {
        Some(text) => Some(text@),
        None => None,
    }
}

/// Tells the variants of `LocalizationError` apart.
///
/// Trusted: the result is the variant that the error is, and the `errors` of a `Resolver`.
#[verifier::external_body]
fn localization_problem(error: &LocalizationError) -> (problem: LocalizationProblem<'_>)
    ensures
        problem@ == localization_problem_of(*error),
{
    match error {
        LocalizationError::Bundle { .. } => LocalizationProblem::Bundle,
        LocalizationError::Resolver { errors, .. } => LocalizationProblem::Resolver(errors),
        LocalizationError::MissingMessage { .. } => LocalizationProblem::MissingMessage,
        LocalizationError::MissingValue { .. } => LocalizationProblem::MissingValue,
        LocalizationError::SyncRequestInAsyncMode => LocalizationProblem::SyncRequestInAsyncMode,
    }
}

/// Tells the variants of `FluentError` apart.
///
/// Trusted: the result is the variant that the error is, and the error in a `ResolverError`.
#[verifier::external_body]
fn fluent_problem(error: &FluentError) -> (problem: FluentProblem<'_>)
    ensures
        problem@ == fluent_problem_of(*error),
{
    match error {
        FluentError::Overriding { .. } => FluentProblem::Overriding,
        FluentError::ParserError(_) => FluentProblem::Parser,
        FluentError::ResolverError(error) => FluentProblem::Resolver(error),
    }
}

/// Tells the variants of `ResolverError` apart.
///
/// Trusted: the result is the variant that the error is, and the kind in a `Reference`.
#[verifier::external_body]
fn resolver_problem(error: &ResolverError) -> (problem: ResolverProblem<'_>)
    ensures
        problem@ == resolver_problem_of(*error),
{
    match error {
        ResolverError::Reference(kind) => ResolverProblem::Reference(kind),
        ResolverError::NoValue(_) => ResolverProblem::NoValue,
        ResolverError::MissingDefault => ResolverProblem::MissingDefault,
        ResolverError::Cyclic => ResolverProblem::Cyclic,
        ResolverError::TooManyPlaceables => ResolverProblem::TooManyPlaceables,
    }
}

/// Tells the variants of `ReferenceKind` apart.
///
/// Trusted: the result is the variant that the kind is, with its fields.
#[verifier::external_body]
fn reference(kind: &ReferenceKind) -> (found: Reference<'_>)
    ensures
        found@ == reference_of(*kind),
{
    match kind {
        ReferenceKind::Function { id } => Reference::Function(id),
        ReferenceKind::Message { id, attribute } => Reference::Message(id, attribute),
        ReferenceKind::Term { id, attribute } => Reference::Term(id, attribute),
        ReferenceKind::Variable { id } => Reference::Variable(id),
    }
}

/// What a kind of error is seen as has what the kind has: all errors behind a message that was not
/// resolved, and the whole name of what was not found.
proof fn kinds_of_error_are_seen_whole(
    problem: LocalizationProblem<'_>,
    fluent_problem: FluentProblem<'_>,
    resolver_problem: ResolverProblem<'_>,
    found: Reference<'_>,
)
    ensures
        problem@ is Resolver <==> problem is Resolver,
        problem matches LocalizationProblem::Resolver(errors) ==> problem@->Resolver_0 == errors@,
        fluent_problem@ is Resolver <==> fluent_problem is Resolver,
        fluent_problem matches FluentProblem::Resolver(error) ==> fluent_problem@->Resolver_0
            == *error,
        resolver_problem@ is Reference <==> resolver_problem is Reference,
        resolver_problem matches ResolverProblem::Reference(kind)
            ==> resolver_problem@->Reference_0 == *kind,
        found@ is Variable <==> found is Variable,
        found matches Reference::Variable(id) ==> found@ == (ReferenceView::Variable { id: id@ }),
{
}

/// The errors of `fluent` behind an error, where a message was not resolved.
fn resolver_errors(error: &LocalizationError) -> (errors: Option<&Vec<FluentError>>)
    ensures
        resolver_errors_of(*error) == (match errors {
            Some(errors) => Some(errors@),
            None => None,
        }),
{
    match localization_problem(error) {
        LocalizationProblem::Resolver(errors) => Some(errors),
        _ => None,
    }
}

/// The variable that an error is about, where the resolver did not find it.
fn unknown_variable(error: &FluentError) -> (id: Option<String>)
    ensures
        unknown_variable_of(*error) == optional_text(id),
{
    match fluent_problem(error) {
        FluentProblem::Resolver(error) => match resolver_problem(error) {
            ResolverProblem::Reference(kind) => match reference(kind) {
                Reference::Variable(id) => Some(id.clone()),
                _ => None,
            },
            _ => None,
        },
        _ => None,
    }
}

/// Prints a text by `{:?}`.
///
/// Trusted: the result depends on the text alone.
#[verifier::external_body]
fn debug_format(text: &str) -> (printed: String)
    ensures
        printed@ == debug_text(text@),
{
    format!("{:?}", text)
}

/// The failure is what `fluent` reports as `error`: it has the words of the error and the
/// variable that the error is about.
pub open spec fn is_failure(failure: ResolverFailure, error: FluentError) -> bool {
    &&& to_string_from_display_ensures::<FluentError>(&error, failure.text)
    &&& optional_text(failure.unknown_variable) == unknown_variable_of(error)
}

/// The failures are those of the error, in order.
pub open spec fn are_failures(failures: Seq<ResolverFailure>, errors: Seq<FluentError>) -> bool {
    &&& failures.len() == errors.len()
    &&& forall|i: int| 0 <= i < errors.len() ==> is_failure(#[trigger] failures[i], errors[i])
}

/// The error is what `fluent_fallback` reports as `error`.
pub open spec fn describes(described: L10nError, error: LocalizationError) -> bool {
    &&& to_string_from_display_ensures::<LocalizationError>(&error, described.text)
    &&& are_failures(
        described.failures@,
        match resolver_errors_of(error) {
            Some(errors) => errors,
            None => Seq::empty(),
        },
    )
}

/// The errors are those that `fluent_fallback` reports, in order.
pub open spec fn describe_all(described: Seq<L10nError>, errors: Seq<LocalizationError>) -> bool {
    &&& described.len() == errors.len()
    &&& forall|i: int| 0 <= i < errors.len() ==> describes(#[trigger] described[i], errors[i])
}

/// The strings that the browser gets for errors.
pub open spec fn error_strings(errors: Seq<L10nError>) -> Seq<Option<Seq<u8>>> {
    errors.map_values(|error: L10nError| Some(encode_utf8(error.text@)))
}

/// The failure `j` of the error `i` is that a variable is unknown.
pub open spec fn unknown_at(errors: Seq<L10nError>, i: int, j: int) -> bool {
    &&& 0 <= i < errors.len()
    &&& 0 <= j < errors[i].failures@.len()
    &&& errors[i].failures@[j].unknown_variable is Some
}

/// The failure `j` of the error `i` is the first to say that a variable is unknown.
pub open spec fn first_unknown_at(errors: Seq<L10nError>, i: int, j: int) -> bool {
    &&& unknown_at(errors, i, j)
    &&& forall|k: int, l: int| #[trigger]
        unknown_at(errors, k, l) ==> i < k || (i == k && j <= l)
}

/// The line that names the variable.
pub open spec fn argument_line(variable: Seq<char>) -> Seq<char> {
    "Fluent error, the argument \"$"@ + variable + "\" was not provided a value."@
}

/// The report is about the failure `j` of the error `i`: it names the variable, lists the texts
/// for the keys, and ends with the words of the failure.
pub open spec fn reports<K, F: Fn(&K) -> String>(
    report: MissingArgument,
    errors: Seq<L10nError>,
    i: int,
    j: int,
    keys: Seq<K>,
    to_string: F,
) -> bool {
    &&& report.message@ == errors[i].failures@[j].text@
    &&& report.lines@.len() == 2 + keys.len()
    &&& report.lines@[0]@ == argument_line(errors[i].failures@[j].unknown_variable->0@)
    &&& report.lines@[1]@ == "This error happened while formatting the following messages:"@
    &&& forall|k: int|
        0 <= k < keys.len() ==> is_key_line(#[trigger] report.lines@[2 + k], &keys[k], to_string)
}

/// The line lists the text for a key.
pub open spec fn is_key_line<K, F: Fn(&K) -> String>(line: String, key: &K, to_string: F) -> bool {
    exists|text: String| #[trigger]
        to_string.ensures((key,), text) && line@ == "  "@ + debug_text(text@)
}

/// Describes the failures behind an error.
fn describe_failures(errors: &Vec<FluentError>) -> (failures: Vec<ResolverFailure>)
    ensures
        are_failures(failures@, errors@),
{
    let mut failures: Vec<ResolverFailure> = Vec::new();
    let mut i: usize = 0;
    while i < errors.len()
        invariant
            i <= errors@.len(),
            are_failures(failures@, errors@.take(i as int)),
        decreases errors@.len() - i,
    {
        failures.push(
            ResolverFailure {
                text: errors[i].to_string(),
                unknown_variable: unknown_variable(&errors[i]),
            },
        );
        i += 1;
    }
    assert(errors@.take(i as int) =~= errors@);
    failures
}

/// Describes an error that `fluent_fallback` reports.
pub fn describe_error(error: &LocalizationError) -> (described: L10nError)
    ensures
        describes(described, *error),
{
    let failures = match resolver_errors(error) {
        Some(errors) => describe_failures(errors),
        None => Vec::new(),
    };
    L10nError { text: error.to_string(), failures }
}

/// Describes the errors that `fluent_fallback` reports.
pub fn describe_errors(errors: &Vec<LocalizationError>) -> (described: Vec<L10nError>)
    ensures
        describe_all(described@, errors@),
{
    let mut described: Vec<L10nError> = Vec::new();
    let mut i: usize = 0;
    while i < errors.len()
        invariant
            i <= errors@.len(),
            describe_all(described@, errors@.take(i as int)),
        decreases errors@.len() - i,
    {
        described.push(describe_error(&errors[i]));
        i += 1;
    }
    assert(errors@.take(i as int) =~= errors@);
    described
}

/// The strings that the browser gets for errors, put behind those that it has.
pub(crate) fn push_errors(list: &mut ThinVec<NsCString>, errors: &Vec<L10nError>)
    ensures
        strings_in(*final(list)) == strings_in(*old(list)) + error_strings(errors@),
{
    let ghost before = strings_in(*list);
    let ghost added = error_strings(errors@);
    assert(before + added.take(0) =~= before);
    let mut i: usize = 0;
    while i < errors.len()
        invariant
            i <= errors@.len(),
            added == error_strings(errors@),
            strings_in(*list) == before + added.take(i as int),
        decreases errors@.len() - i,
    {
        push_string(list, NsCString::from_text(errors[i].text.as_str()));
        i += 1;
        assert(before + added.take(i as int) =~= (before + added.take(i - 1)).push(added[i - 1]));
    }
    assert(added.take(i as int) =~= added);
}

/// The line for a key in a report.
fn key_line<K, F: Fn(&K) -> String>(key: &K, to_string: &F) -> (line: String)
    requires
        to_string.requires((key,)),
    ensures
        is_key_line(line, key, *to_string),
{
    let text = to_string(key);
    let mut line = String::from_str("  ");
    line.append(debug_format(text.as_str()).as_str());
    line
}

/// Writes the report on a variable that is unknown.
fn report_missing<K, F: Fn(&K) -> String>(
    failure: &ResolverFailure,
    variable: &String,
    keys: &[K],
    to_string: &F,
) -> (report: MissingArgument)
    requires
        forall|k: int| 0 <= k < keys@.len() ==> to_string.requires((&#[trigger] keys@[k],)),
    ensures
        report.message@ == failure.text@,
        report.lines@.len() == 2 + keys@.len(),
        report.lines@[0]@ == argument_line(variable@),
        report.lines@[1]@ == "This error happened while formatting the following messages:"@,
        forall|k: int|
            0 <= k < keys@.len() ==> is_key_line(
                #[trigger] report.lines@[2 + k],
                &keys@[k],
                *to_string,
            ),
{
    let mut line = String::from_str("Fluent error, the argument \"$");
    line.append(variable.as_str());
    line.append("\" was not provided a value.");
    let mut lines: Vec<String> = Vec::new();
    lines.push(line);
    lines.push(String::from_str("This error happened while formatting the following messages:"));
    let mut k: usize = 0;
    while k < keys.len()
        invariant
            k <= keys@.len(),
            forall|k: int| 0 <= k < keys@.len() ==> to_string.requires((&#[trigger] keys@[k],)),
            lines@.len() == 2 + k,
            lines@[0]@ == argument_line(variable@),
            lines@[1]@ == "This error happened while formatting the following messages:"@,
            forall|l: int|
                0 <= l < k ==> is_key_line(#[trigger] lines@[2 + l], &keys@[l], *to_string),
        decreases keys@.len() - k,
    {
        let ghost written = lines@;
        lines.push(key_line(&keys[k], to_string));
        assert forall|l: int| 0 <= l < k + 1 implies is_key_line(
            #[trigger] lines@[2 + l],
            &keys@[l],
            *to_string,
        ) by {
            if l < k {
                assert(lines@[2 + l] == written[2 + l]);
            }
        }
        k += 1;
    }
    MissingArgument { lines, message: failure.text.clone() }
}

/// Looks for an argument that a message needs and that was not given.
///
/// Such an error is for developers to mend, so a debug build prints the lines of the report and
/// stops with its message; the first such failure counts. `to_string` gives the text by which a
/// key is listed.
pub fn debug_assert_variables_exist<K, F: Fn(&K) -> String>(
    errors: &[L10nError],
    keys: &[K],
    to_string: F,
) -> (report: Option<MissingArgument>)
    requires
        forall|k: int| 0 <= k < keys@.len() ==> to_string.requires((&#[trigger] keys@[k],)),
    ensures
        report is None <==> forall|i: int, j: int| !unknown_at(errors@, i, j),
        report matches Some(report) ==> exists|i: int, j: int| #[trigger]
            first_unknown_at(errors@, i, j) && reports(report, errors@, i, j, keys@, to_string),
{
    let mut i: usize = 0;
    while i < errors.len()
        invariant
            i <= errors@.len(),
            forall|k: int| 0 <= k < keys@.len() ==> to_string.requires((&#[trigger] keys@[k],)),
            forall|k: int, l: int| k < i ==> !(#[trigger] unknown_at(errors@, k, l)),
        decreases errors@.len() - i,
    {
        let failures = &errors[i].failures;
        let mut j: usize = 0;
        while j < failures.len()
            invariant
                i < errors@.len(),
                failures@ == errors@[i as int].failures@,
                j <= failures@.len(),
                forall|k: int| 0 <= k < keys@.len() ==> to_string.requires((&#[trigger] keys@[k],)),
                forall|k: int, l: int| k < i ==> !(#[trigger] unknown_at(errors@, k, l)),
                forall|l: int| l < j ==> !(#[trigger] unknown_at(errors@, i as int, l)),
            decreases failures@.len() - j,
        {
            if let Some(variable) = &failures[j].unknown_variable {
                let report = report_missing(&failures[j], variable, keys, &to_string);
                proof {
                    assert(unknown_at(errors@, i as int, j as int));
                    assert(first_unknown_at(errors@, i as int, j as int));
                    assert(reports(report, errors@, i as int, j as int, keys@, to_string));
                }
                return Some(report);
            }
            j += 1;
        }
        i += 1;
    }
    None
}

/// There are errors of `fluent` behind an error exactly where it is that a message was not
/// resolved, and then they are all of them.
pub proof fn unresolved_message_has_its_errors(error: LocalizationError, errors: Seq<FluentError>)
    ensures
        resolver_errors_of(error) is None <==> !(localization_problem_of(error) is Resolver),
        resolver_errors_of(error) == Some(errors) <==> localization_problem_of(error)
            == LocalizationProblemView::Resolver(errors),
{
}

/// An error is about a variable exactly where the resolver was referred to that variable and did
/// not find it.
pub proof fn unknown_variable_is_the_one_referred_to(
    error: FluentError,
    resolver_error: ResolverError,
    kind: ReferenceKind,
    variable: Seq<char>,
)
    ensures
        fluent_problem_of(error) == FluentProblemView::Resolver(resolver_error)
            && resolver_problem_of(resolver_error) == ResolverProblemView::Reference(kind) ==> (
        unknown_variable_of(error) == Some(variable) <==> reference_of(kind)
            == (ReferenceView::Variable { id: variable })),
        fluent_problem_of(error) == FluentProblemView::Resolver(resolver_error) && !(
        resolver_problem_of(resolver_error) is Reference) ==> unknown_variable_of(error) is None,
        !(fluent_problem_of(error) is Resolver) ==> unknown_variable_of(error) is None,
{
}

/// An error is described by its own words and by the failures behind it, each at its place with
/// its own words and the variable that it is about.
pub proof fn description_is_complete(described: L10nError, error: LocalizationError, i: int)
    requires
        describes(described, error),
    ensures
        to_string_from_display_ensures::<LocalizationError>(&error, described.text),
        !(localization_problem_of(error) is Resolver) ==> described.failures@.len() == 0,
        localization_problem_of(error) matches LocalizationProblemView::Resolver(errors) ==> {
            &&& described.failures@.len() == errors.len()
            &&& 0 <= i < errors.len() ==> {
                let failure = described.failures@[i];
                &&& to_string_from_display_ensures::<FluentError>(&errors[i], failure.text)
                &&& failure.unknown_variable is None <==> unknown_variable_of(errors[i]) is None
                &&& failure.unknown_variable matches Some(variable) ==> unknown_variable_of(
                    errors[i],
                ) == Some(variable@)
            }
        },
{
    if localization_problem_of(error) is Resolver && 0 <= i < described.failures@.len() {
        let errors = localization_problem_of(error)->Resolver_0;
        assert(is_failure(described.failures@[i], errors[i]));
    }
}

/// Errors are described one by one, each at its place.
pub proof fn errors_are_described_in_place(
    described: Seq<L10nError>,
    errors: Seq<LocalizationError>,
    i: int,
)
    requires
        describe_all(described, errors),
    ensures
        described.len() == errors.len(),
        0 <= i < errors.len() ==> describes(described[i], errors[i]),
{
}

/// The browser gets a string for each error, at its place, with exactly the words of the error.
pub proof fn errors_are_shown_in_place(errors: Seq<L10nError>, i: int)
    ensures
        error_strings(errors).len() == errors.len(),
        0 <= i < errors.len() ==> {
            &&& error_strings(errors)[i] == Some(encode_utf8(errors[i].text@))
            &&& text_of(bytes_of(error_strings(errors)[i])) == errors[i].text@
        },
{
    if 0 <= i < errors.len() {
        text_is_read_back(errors[i].text@);
    }
}

/// A failure counts exactly where it is there and names a variable that is unknown.
pub proof fn unknown_variable_counts(errors: Seq<L10nError>, i: int, j: int)
    ensures
        unknown_at(errors, i, j) <==> 0 <= i < errors.len() && 0 <= j < errors[i].failures@.len()
            && errors[i].failures@[j].unknown_variable is Some,
{
}

/// The first failure that names a variable has no such failure before it, neither in its own error
/// nor in an earlier one, so that there is at most one such.
pub proof fn first_unknown_variable_has_none_before(
    errors: Seq<L10nError>,
    i: int,
    j: int,
    k: int,
    l: int,
)
    requires
        first_unknown_at(errors, i, j),
    ensures
        0 <= i < errors.len(),
        0 <= j < errors[i].failures@.len(),
        errors[i].failures@[j].unknown_variable is Some,
        0 <= k < i && 0 <= l < errors[k].failures@.len()
            ==> errors[k].failures@[l].unknown_variable is None,
        0 <= l < j ==> errors[i].failures@[l].unknown_variable is None,
        first_unknown_at(errors, k, l) ==> k == i && l == j,
{
    assert(unknown_at(errors, i, j));
    assert(0 <= k < i ==> !unknown_at(errors, k, l));
    assert(0 <= l < j ==> !unknown_at(errors, i, l));
}

/// The line on a variable is the variable between two fixed texts.
pub proof fn line_names_the_variable(variable: Seq<char>)
    ensures
        argument_line(variable) == "Fluent error, the argument \"$"@ + variable
            + "\" was not provided a value."@,
{
}

/// A report has the words of the failure, the variable that the failure
/// names, and a line for each key, in order, which prints the text for the key.
pub proof fn report_is_complete<K, F: Fn(&K) -> String>(
    report: MissingArgument,
    errors: Seq<L10nError>,
    i: int,
    j: int,
    keys: Seq<K>,
    to_string: F,
    k: int,
)
    requires
        reports(report, errors, i, j, keys, to_string),
    ensures
        report.message@ == errors[i].failures@[j].text@,
        report.lines@.len() == 2 + keys.len(),
        report.lines@[0]@ == "Fluent error, the argument \"$"@
            + errors[i].failures@[j].unknown_variable->0@ + "\" was not provided a value."@,
        report.lines@[1]@ == "This error happened while formatting the following messages:"@,
        0 <= k < keys.len() ==> exists|text: String| #[trigger]
            to_string.ensures((&keys[k],), text) && report.lines@[2 + k]@ == "  "@ + debug_text(
                text@,
            ),
{
    if 0 <= k < keys.len() {
        assert(is_key_line(report.lines@[2 + k], &keys[k], to_string));
    }
}

} // verus!
