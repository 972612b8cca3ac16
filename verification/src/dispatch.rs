//! The request dispatcher: a request is offered to the extractors of the
//! known methods in a fixed order, and the first that takes it decides.

use vstd::prelude::*;
use crate::decode::decoded_as;
use crate::extract::{try_extract, ExtractError, ExtractResult};
use crate::message::{Outcome, Payload, Request, RequestId, Response};
use crate::params::{Method, Params};

verus! {

/// What the dispatcher made of a request.
#[derive(Debug)]
pub enum Dispatch {
    /// The request asks the server to shut down. Here is its acknowledgment;
    /// no request is to be dispatched after it.
    Shutdown(Response),
    /// The request is answered by this response.
    Answered(Response),
    /// No known method takes the request. It is not answered.
    Unhandled(Request),
    /// The request named a known method and its parameters did not decode.
    /// The server cannot go on.
    Failed(ExtractError),
}

/// What the dispatcher makes of one extractor's outcome.
#[derive(Debug)]
pub enum Offer {
    /// The extractor took the request: the dispatch is decided.
    Taken(Dispatch),
    /// The extractor passed: the request is offered to the next one.
    Passed(Request),
}

impl Dispatch {
    /// The response that this dispatch sends, where it sends one.
    pub open spec fn response(self) -> Option<Response> {
        match self {
            Dispatch::Shutdown(response) => Some(response),
            Dispatch::Answered(response) => Some(response),
            Dispatch::Unhandled(_) => None,
            Dispatch::Failed(_) => None,
        }
    }

    /// The response that this dispatch sends, where it sends one.
    pub fn into_response(self) -> (response: Option<Response>)
        ensures
            response == self.response(),
    {
        match self {
            Dispatch::Shutdown(response) => Some(response),
            Dispatch::Answered(response) => Some(response),
            Dispatch::Unhandled(_) => None,
            Dispatch::Failed(_) => None,
        }
    }
}

/// The acknowledgment of the request `id`.
pub open spec fn acknowledgment(id: RequestId) -> Response {
    Response { id, outcome: Outcome::Result(Payload::Acknowledged) }
}

/// Whether `response` answers the request `id` with an empty list of
/// locations.
pub open spec fn finds_nothing(response: Response, id: RequestId) -> bool {
    &&& response.id == id
    &&& response.outcome matches Outcome::Result(Payload::Locations(found))
    &&& found@.len() == 0
}

/// Whether `offer` is what the dispatcher makes of `outcome`: a shutdown is
/// acknowledged, the other methods are answered with an empty list, both
/// under the identifier that was extracted; parameters that did not decode
/// end the dispatch with the failure; a request that the extractor passed is
/// handed on unchanged.
pub open spec fn concludes(outcome: ExtractResult, offer: Offer) -> bool {
    match outcome {
        ExtractResult::Matched(id, Params::Nothing) => offer == Offer::Taken(
            Dispatch::Shutdown(acknowledgment(id)),
        ),
        ExtractResult::Matched(id, _) => offer matches Offer::Taken(Dispatch::Answered(response))
            && finds_nothing(response, id),
        ExtractResult::MethodMismatch(request) => offer == Offer::Passed(request),
        ExtractResult::MalformedParams(failure) => offer == Offer::Taken(
            Dispatch::Failed(failure),
        ),
    }
}

/// Whether `result` answers `request` as a request of `method` is answered:
/// with an empty list under the request's identifier where the parameters
/// decode, and else with the failure that carries the decoder's error and the
/// request's method.
pub open spec fn answers(request: Request, method: Method, result: Dispatch) -> bool {
    match decoded_as(method, request.params) {
        Ok(_) => result matches Dispatch::Answered(response) && finds_nothing(
            response,
            request.id,
        ),
        Err(error) => result == Dispatch::Failed(
            ExtractError { method: request.method, error },
        ),
    }
}

/// Whether `result` is the dispatch of `request`.
///
/// A shutdown request is acknowledged under its identifier. A request for a
/// definition or for references is answered under its identifier with an
/// empty list exactly where its parameters decode; where they do not, the
/// dispatch fails with the decoder's error. Any other request is left
/// unanswered and comes back unchanged.
pub open spec fn dispatches(request: Request, result: Dispatch) -> bool {
    if request.method@ == Method::Shutdown.spec_name() {
        result == Dispatch::Shutdown(acknowledgment(request.id))
    } else if request.method@ == Method::GotoDefinition.spec_name() {
        answers(request, Method::GotoDefinition, result)
    } else if request.method@ == Method::References.spec_name() {
        answers(request, Method::References, result)
    } else {
        result == Dispatch::Unhandled(request)
    }
}

/// Decides what one extractor's outcome means for the dispatch.
pub fn conclude(outcome: ExtractResult) -> (offer: Offer)
    ensures
        concludes(outcome, offer),
{
    match outcome {
        ExtractResult::Matched(id, Params::Nothing) => Offer::Taken(
            Dispatch::Shutdown(Response::acknowledge(id)),
        ),
        ExtractResult::Matched(id, _) => Offer::Taken(
            Dispatch::Answered(Response::no_locations(id)),
        ),
        ExtractResult::MethodMismatch(request) => Offer::Passed(request),
        ExtractResult::MalformedParams(failure) => Offer::Taken(Dispatch::Failed(failure)),
    }
}

/// Dispatches a request: it is offered to the extractor of the shutdown, then
/// to that of the definitions, then to that of the references, and the first
/// that takes it decides. A request that none takes is left unanswered.
///
/// Whenever a response comes out, it carries the identifier of the request.
pub fn dispatch(request: Request) -> (result: Dispatch)
    ensures
        dispatches(request, result),
        result.response() matches Some(response) ==> response.id == request.id,
{
    let request = match conclude(try_extract(request, Method::Shutdown)) {
        Offer::Taken(result) => {
            return result;
        },
        Offer::Passed(request) => request,
    };
    let request = match conclude(try_extract(request, Method::GotoDefinition)) {
        Offer::Taken(result) => {
            return result;
        },
        Offer::Passed(request) => request,
    };
    let request = match conclude(try_extract(request, Method::References)) {
        Offer::Taken(result) => {
            return result;
        },
        Offer::Passed(request) => request,
    };
    Dispatch::Unhandled(request)
}

/// A request is answered at most once, and under its own identifier: of a
/// dispatch that sends a response, the response carries the request's
/// identifier, and a request of an unknown method gets none.
pub proof fn lemma_response_correlates(request: Request, result: Dispatch)
    requires
        dispatches(request, result),
    ensures
        result.response() matches Some(response) ==> response.id == request.id,
        request.method@ != Method::Shutdown.spec_name() && request.method@
            != Method::GotoDefinition.spec_name() && request.method@
            != Method::References.spec_name() ==> result.response() is None,
{
}

} // verus!
