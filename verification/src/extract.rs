//! Typed extraction: offering a message to the extractor of one method.

use vstd::prelude::*;
use crate::decode::{decode, decode_watched_files, decoded_as, watched_files_decoded};
use crate::message::{Notification, Request, RequestId};
use crate::params::{changes_method, spec_changes_method, FileChange, Method, Params};

verus! {

/// The parameters of a message named the expected method and did not decode.
#[derive(Debug)]
pub struct ExtractError {
    /// The method that the message named.
    pub method: String,
    /// What the decoder reported.
    pub error: serde_json::Error,
}

/// What became of offering a request to the extractor of one method.
#[derive(Debug)]
pub enum ExtractResult {
    /// The request named the method and its parameters decoded.
    Matched(RequestId, Params),
    /// The request named another method. It comes back as it went in, so that
    /// the next extractor can be tried.
    MethodMismatch(Request),
    /// The request named the method and its parameters did not decode.
    MalformedParams(ExtractError),
}

/// What became of offering a notification to the extractor of the changed
/// files.
#[derive(Debug)]
pub enum ChangesExtract {
    /// The notification reports changed files, and they decoded: here they
    /// are, in the order in which they were reported.
    Matched(Vec<FileChange>),
    /// The notification named another method. It comes back as it went in.
    MethodMismatch(Notification),
    /// The notification reports changed files and its parameters did not
    /// decode.
    MalformedParams(ExtractError),
}

/// The outcome of extracting from a request that named the expected method,
/// once the decoder has spoken.
pub open spec fn extraction_of(
    id: RequestId,
    method: String,
    decoded: Result<Params, serde_json::Error>,
) -> ExtractResult {
    match decoded {
        Ok(typed) => ExtractResult::Matched(id, typed),
        Err(error) => ExtractResult::MalformedParams(ExtractError { method, error }),
    }
}

/// The outcome of extracting the changed files from a notification that
/// reports them, once the decoder has spoken.
pub open spec fn changes_extraction_of(
    method: String,
    decoded: Result<Vec<FileChange>, serde_json::Error>,
) -> ChangesExtract {
    match decoded {
        Ok(changes) => ChangesExtract::Matched(changes),
        Err(error) => ChangesExtract::MalformedParams(ExtractError { method, error }),
    }
}

/// What offering `request` to the extractor of `expected` gives: the request
/// itself where it names another method; else a match with the request's
/// identifier where its parameters decode, and the decoder's error with the
/// request's method where they do not.
pub open spec fn extracted(request: Request, expected: Method) -> ExtractResult {
    if request.method@ == expected.spec_name() {
        extraction_of(request.id, request.method, decoded_as(expected, request.params))
    } else {
        ExtractResult::MethodMismatch(request)
    }
}

/// What offering `notification` to the extractor of the changed files gives:
/// the notification itself where it names another method; else the files
/// where its parameters decode, and the decoder's error with the
/// notification's method where they do not.
pub open spec fn changes_extracted(notification: Notification) -> ChangesExtract {
    if notification.method@ == spec_changes_method() {
        changes_extraction_of(notification.method, watched_files_decoded(notification.params))
    } else {
        ChangesExtract::MethodMismatch(notification)
    }
}

/// Tells whether `method` is the name `expected`.
pub fn is_named(method: &String, expected: &str) -> (same: bool)
    ensures
        same == (method@ == expected@),
{
    let name = expected.to_owned();
    *method == name
}

/// Tells whether `method` is the name of `expected`.
pub fn names(method: &String, expected: Method) -> (same: bool)
    ensures
        same == (method@ == expected.spec_name()),
{
    is_named(method, expected.name())
}

/// Settles an extraction whose method matched: a match where the parameters
/// decoded, with the request's identifier, else the decoder's error together
/// with the method.
pub fn settle(id: RequestId, method: String, decoded: Result<Params, serde_json::Error>) -> (outcome:
    ExtractResult)
    ensures
        outcome == extraction_of(id, method, decoded),
{
    match decoded {
        Ok(typed) => ExtractResult::Matched(id, typed),
        Err(error) => ExtractResult::MalformedParams(ExtractError { method, error }),
    }
}

/// Settles the extraction of changed files from a notification that reports
/// them: the files where the parameters decoded, else the decoder's error
/// together with the method.
pub fn settle_changes(method: String, decoded: Result<Vec<FileChange>, serde_json::Error>) -> (outcome:
    ChangesExtract)
    ensures
        outcome == changes_extraction_of(method, decoded),
{
    match decoded {
        Ok(changes) => ChangesExtract::Matched(changes),
        Err(error) => ChangesExtract::MalformedParams(ExtractError { method, error }),
    }
}

/// Offers `request` to the extractor of the method `expected`.
///
/// A request that names another method comes back unchanged, nothing of it
/// decoded or consumed. One that names the method gives a match with the
/// request's own identifier and the decoded parameters where they decode,
/// and else the report that they did not, with the decoder's error. A
/// shutdown, which has no parameters, always matches.
pub fn try_extract(request: Request, expected: Method) -> (outcome: ExtractResult)
    ensures
        outcome == extracted(request, expected),
{
    if !names(&request.method, expected) {
        return ExtractResult::MethodMismatch(request);
    }
    let Request { id, method, params } = request;
    let decoded = decode(expected, params);
    settle(id, method, decoded)
}

/// Offers `notification` to the extractor of the changed files.
///
/// A notification that names another method comes back unchanged. One that
/// reports changed files gives the decoded files where its parameters decode,
/// and else the report that they did not, with the decoder's error.
pub fn try_extract_changes(notification: Notification) -> (outcome: ChangesExtract)
    ensures
        outcome == changes_extracted(notification),
{
    if !is_named(&notification.method, changes_method()) {
        return ChangesExtract::MethodMismatch(notification);
    }
    let Notification { method, params } = notification;
    let decoded = decode_watched_files(params);
    settle_changes(method, decoded)
}

/// An extractor that is offered a request of another method hands the
/// request back as it was, whatever its parameters hold.
pub proof fn lemma_mismatch_is_lossless(request: Request, expected: Method)
    requires
        request.method@ != expected.spec_name(),
    ensures
        extracted(request, expected) == ExtractResult::MethodMismatch(request),
{
}

/// An extraction either passes the request on or keeps to it: a match
/// carries the request's identifier and parameters of the expected method, a
/// failure carries the request's method, and a shutdown always matches.
pub proof fn lemma_extraction_keeps_to_the_request(request: Request, expected: Method)
    requires
        request.method@ == expected.spec_name(),
    ensures
        match extracted(request, expected) {
            ExtractResult::Matched(id, typed) => id == request.id && typed.method() == expected,
            ExtractResult::MethodMismatch(_) => false,
            ExtractResult::MalformedParams(failure) => failure.method == request.method
                && expected != Method::Shutdown,
        },
        expected == Method::Shutdown ==> extracted(request, expected) == ExtractResult::Matched(
            request.id,
            Params::Nothing,
        ),
{
}

} // verus!
