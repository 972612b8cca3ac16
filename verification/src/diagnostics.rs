//! From parser errors to the diagnostics that are published for a document.

use vstd::prelude::*;
use vstd::string::StringSliceAdditionalSpecFns;
use crate::position::{place_of, position_of, Place, SourcePosition};

verus! {

/// What the parser reports: a message and the half-open range of byte offsets
/// `start .. end` of the source text that it is about.
#[derive(Clone, Debug, PartialEq, Eq)]
pub struct ParseError {
    pub message: String,
    pub start: usize,
    pub end: usize,
}

/// What became of parsing a text: it was accepted, or rejected with errors in
/// the order in which the parser found them.
#[derive(Clone, Debug, PartialEq, Eq)]
pub enum ParseOutcome {
    Parsed,
    Rejected(Vec<ParseError>),
}

/// A span of a text, from `start` up to `end`.
#[derive(Clone, Copy, Debug, PartialEq, Eq, Structural)]
pub struct Range {
    pub start: SourcePosition,
    pub end: SourcePosition,
}

/// A message attached to a span of a document.
#[derive(Clone, Debug, PartialEq, Eq)]
pub struct Diagnostic {
    pub range: Range,
    pub message: String,
}

/// The diagnostics of one document, as they are sent to the client. An empty
/// list is meaningful: it clears what the client shows for the document.
#[derive(Clone, Debug, PartialEq, Eq)]
pub struct DiagnosticsNotification {
    pub uri: String,
    pub diagnostics: Vec<Diagnostic>,
    pub version: Option<i32>,
}

/// What a `ParseError` stands for.
pub struct ParseErrorView {
    pub message: Seq<char>,
    pub start: nat,
    pub end: nat,
}

/// What a `Range` stands for.
pub struct Span {
    pub start: Place,
    pub end: Place,
}

/// What a `Diagnostic` stands for.
pub struct DiagnosticView {
    pub span: Span,
    pub message: Seq<char>,
}

/// What a `DiagnosticsNotification` stands for.
pub struct DiagnosticsNotificationView {
    pub uri: Seq<char>,
    pub diagnostics: Seq<DiagnosticView>,
    pub version: Option<i32>,
}

impl View for ParseError {
    type V = ParseErrorView;

    open spec fn view(&self) -> ParseErrorView {
        ParseErrorView { message: self.message@, start: self.start as nat, end: self.end as nat }
    }
}

impl View for Range {
    type V = Span;

    open spec fn view(&self) -> Span {
        Span { start: self.start@, end: self.end@ }
    }
}

impl View for Diagnostic {
    type V = DiagnosticView;

    open spec fn view(&self) -> DiagnosticView {
        DiagnosticView { span: self.range@, message: self.message@ }
    }
}

impl View for DiagnosticsNotification {
    type V = DiagnosticsNotificationView;

    open spec fn view(&self) -> DiagnosticsNotificationView {
        DiagnosticsNotificationView {
            uri: self.uri@,
            diagnostics: diagnostic_views(self.diagnostics@),
            version: self.version,
        }
    }
}

/// The diagnostics of a list, each as what it stands for.
pub open spec fn diagnostic_views(diagnostics: Seq<Diagnostic>) -> Seq<DiagnosticView> {
    Seq::new(diagnostics.len(), |i: int| diagnostics[i]@)
}

/// The errors of a list, each as what it stands for.
pub open spec fn error_views(errors: Seq<ParseError>) -> Seq<ParseErrorView> {
    Seq::new(errors.len(), |i: int| errors[i]@)
}

impl ParseOutcome {
    /// The errors that the parser reported: none where it accepted the text.
    pub open spec fn errors(self) -> Seq<ParseErrorView> {
        match self {
            ParseOutcome::Parsed => Seq::empty(),
            ParseOutcome::Rejected(errors) => error_views(errors@),
        }
    }
}

/// The diagnostic for one parser error in the text `bytes`: both ends of the
/// error's range as positions, and the error's message as it is.
pub open spec fn diagnostic_of(bytes: Seq<u8>, error: ParseErrorView) -> DiagnosticView {
    DiagnosticView {
        span: Span {
            start: place_of(bytes, error.start as int),
            end: place_of(bytes, error.end as int),
        },
        message: error.message,
    }
}

/// The diagnostics for a list of parser errors: one for each error, in the
/// errors' order.
pub open spec fn diagnostics_of(bytes: Seq<u8>, errors: Seq<ParseErrorView>) -> Seq<
    DiagnosticView,
> {
    Seq::new(errors.len(), |i: int| diagnostic_of(bytes, errors[i]))
}

/// The notification that is published for the document `uri` with the text
/// `bytes`, on which the parser reported `errors`. It carries no version.
pub open spec fn published(
    uri: Seq<char>,
    bytes: Seq<u8>,
    errors: Seq<ParseErrorView>,
) -> DiagnosticsNotificationView {
    DiagnosticsNotificationView {
        uri,
        diagnostics: diagnostics_of(bytes, errors),
        version: None,
    }
}

/// Translates one parser error on `text` into a diagnostic.
pub fn diagnostic_for(text: &str, error: &ParseError) -> (diagnostic: Diagnostic)
    ensures
        diagnostic@ == diagnostic_of(text.spec_bytes(), error@),
{
    let start = position_of(text, error.start);
    let end = position_of(text, error.end);
    Diagnostic { range: Range { start, end }, message: error.message.clone() }
}

/// Translates what the parser reported on `text` into diagnostics: none where
/// the text was accepted, else one for each error, in the parser's order.
pub fn diagnostics_for(text: &str, outcome: &ParseOutcome) -> (diagnostics: Vec<Diagnostic>)
    ensures
        diagnostic_views(diagnostics@) == diagnostics_of(text.spec_bytes(), outcome.errors()),
{
    let mut diagnostics: Vec<Diagnostic> = Vec::new();
    match outcome {
        ParseOutcome::Parsed => {},
        ParseOutcome::Rejected(errors) => {
            let mut i: usize = 0;
            while i < errors.len()
                invariant
                    i <= errors.len(),
                    diagnostics.len() == i,
                    forall|k: int|
                        0 <= k < i ==> (#[trigger] diagnostics[k])@ == diagnostic_of(
                            text.spec_bytes(),
                            errors[k]@,
                        ),
                decreases errors.len() - i,
            {
                let diagnostic = diagnostic_for(text, &errors[i]);
                diagnostics.push(diagnostic);
                i = i + 1;
            }
        },
    }
    assert(diagnostic_views(diagnostics@) =~= diagnostics_of(
        text.spec_bytes(),
        outcome.errors(),
    ));
    diagnostics
}

/// Builds the notification that publishes the diagnostics of the document
/// `uri`, whose text is `text` and on which the parser reported `outcome`.
///
/// The notification names the document by the URI given, lists the
/// diagnostics of `diagnostics_for` and carries no version. Where the text
/// was accepted the list is empty.
pub fn publish(uri: String, text: &str, outcome: &ParseOutcome) -> (notification:
    DiagnosticsNotification)
    ensures
        notification@ == published(uri@, text.spec_bytes(), outcome.errors()),
        notification.uri == uri,
{
    let diagnostics = diagnostics_for(text, outcome);
    DiagnosticsNotification { uri, diagnostics, version: None }
}

/// Every error gives exactly one diagnostic, at the error's place in the
/// list and with the error's message.
pub proof fn lemma_one_diagnostic_per_error(bytes: Seq<u8>, errors: Seq<ParseErrorView>)
    ensures
        diagnostics_of(bytes, errors).len() == errors.len(),
        forall|i: int|
            0 <= i < errors.len() ==> (#[trigger] diagnostics_of(bytes, errors)[i]).message
                == errors[i].message,
{
}

/// Publishing twice for the same text and the same parser outcome gives the
/// same list of diagnostics.
pub proof fn lemma_publishing_is_idempotent(
    uri: Seq<char>,
    bytes: Seq<u8>,
    errors: Seq<ParseErrorView>,
    first: DiagnosticsNotificationView,
    second: DiagnosticsNotificationView,
)
    requires
        first == published(uri, bytes, errors),
        second == published(uri, bytes, errors),
    ensures
        first.diagnostics == second.diagnostics,
{
}

/// A text that the parser accepts gives a notification all the same, for the
/// same document and with an empty list, whatever the document's text and
/// errors were before.
pub proof fn lemma_accepted_text_clears(
    uri: Seq<char>,
    earlier_bytes: Seq<u8>,
    earlier_errors: Seq<ParseErrorView>,
    bytes: Seq<u8>,
)
    ensures
        published(uri, bytes, ParseOutcome::Parsed.errors()).diagnostics.len() == 0,
        published(uri, bytes, ParseOutcome::Parsed.errors()).uri == published(
            uri,
            earlier_bytes,
            earlier_errors,
        ).uri,
{
}

} // verus!
