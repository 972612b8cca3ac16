//! Decoding of untyped parameters into typed ones. The decoding itself is
//! done by `serde_json`, at the parameter types of `lsp_types`. Nothing is
//! proved of it: what it gives for a value has a name here, and the contracts
//! of the library speak of that name.

use vstd::prelude::*;
use crate::params::{DocumentPosition, FileChange, Method, Params, ReferenceQuery};

verus! {

/// `serde_json::Error`, which tells why a JSON value could not be decoded.
/// The library hands such errors on: nothing is known of what one holds.
#[verifier::external_type_specification]
#[verifier::external_body]
pub struct ExJsonError(serde_json::Error);

/// What `serde_json::from_value` at `lsp_types::GotoDefinitionParams` gives
/// for `params`: the document's URI and the position, or the decoder's error.
pub uninterp spec fn definition_decoded(params: serde_json::Value) -> Result<DocumentPosition, serde_json::Error>;

/// What `serde_json::from_value` at `lsp_types::ReferenceParams` gives for
/// `params`: the document's URI, the position and the flag, or the decoder's
/// error.
pub uninterp spec fn references_decoded(params: serde_json::Value) -> Result<ReferenceQuery, serde_json::Error>;

/// What `serde_json::from_value` at `lsp_types::DidChangeWatchedFilesParams`
/// gives for `params`: of each file event, in their order, the URI and its
/// path, or the decoder's error.
pub uninterp spec fn watched_files_decoded(params: serde_json::Value) -> Result<Vec<FileChange>, serde_json::Error>;

/// What decoding `params` as the parameters of `method` gives. A shutdown has
/// no parameters: whatever was sent is accepted. For the other methods the
/// decoder decides, and what it accepts becomes the variant of `method`.
pub open spec fn decoded_as(method: Method, params: serde_json::Value) -> Result<
    Params,
    serde_json::Error,
> {
    match method {
        Method::Shutdown => Ok(Params::Nothing),
        Method::GotoDefinition => match definition_decoded(params) {
            Ok(at) => Ok(Params::Definition(at)),
            Err(error) => Err(error),
        },
        Method::References => match references_decoded(params) {
            Ok(query) => Ok(Params::References(query)),
            Err(error) => Err(error),
        },
    }
}

/// Calls `serde_json::from_value` at `lsp_types::GotoDefinitionParams` and
/// keeps the document's URI and the position of what was decoded. The
/// decoder's result depends on the value alone; it is claimed to be
/// `definition_decoded` of the value, and nothing is claimed of which values
/// decode.
#[verifier::external_body]
fn decode_definition(params: serde_json::Value) -> (decoded: Result<
    DocumentPosition,
    serde_json::Error,
>)
    ensures
        decoded == definition_decoded(params),
{
    let decoded: lsp_types::GotoDefinitionParams = serde_json::from_value(params)?;
    let at = decoded.text_document_position_params;
    Ok(
        DocumentPosition {
            uri: at.text_document.uri.into(),
            line: at.position.line,
            character: at.position.character,
        },
    )
}

/// Calls `serde_json::from_value` at `lsp_types::ReferenceParams` and keeps
/// the document's URI, the position and the flag of what was decoded. The
/// result is claimed to be `references_decoded` of the value, and nothing is
/// claimed of which values decode.
#[verifier::external_body]
fn decode_references(params: serde_json::Value) -> (decoded: Result<
    ReferenceQuery,
    serde_json::Error,
>)
    ensures
        decoded == references_decoded(params),
{
    let decoded: lsp_types::ReferenceParams = serde_json::from_value(params)?;
    let at = decoded.text_document_position;
    let at = DocumentPosition {
        uri: at.text_document.uri.into(),
        line: at.position.line,
        character: at.position.character,
    };
    Ok(ReferenceQuery { at, include_declaration: decoded.context.include_declaration })
}

/// Calls `serde_json::from_value` at `lsp_types::DidChangeWatchedFilesParams`
/// and keeps, of each file event decoded and in their order, the URI and its
/// path component as `Url::path` gives it. The result is claimed to be
/// `watched_files_decoded` of the value, and nothing is claimed of which
/// values decode.
#[verifier::external_body]
pub(crate) fn decode_watched_files(params: serde_json::Value) -> (decoded: Result<
    Vec<FileChange>,
    serde_json::Error,
>)
    ensures
        decoded == watched_files_decoded(params),
{
    let decoded: lsp_types::DidChangeWatchedFilesParams = serde_json::from_value(params)?;
    let changes = decoded.changes.into_iter();
    Ok(changes.map(|e| FileChange { path: e.uri.path().to_owned(), uri: e.uri.into() }).collect())
}

/// Decodes untyped parameters as those of `method`.
///
/// A shutdown has no parameters: whatever was sent is accepted and dropped.
/// For the other methods the decoder decides; what it accepts comes back as
/// the variant of `method`, what it refuses as its error.
pub fn decode(method: Method, params: serde_json::Value) -> (decoded: Result<
    Params,
    serde_json::Error,
>)
    ensures
        decoded == decoded_as(method, params),
{
    match method {
        Method::Shutdown => Ok(Params::Nothing),
        Method::GotoDefinition => match decode_definition(params) {
            Ok(at) => Ok(Params::Definition(at)),
            Err(error) => Err(error),
        },
        Method::References => match decode_references(params) {
            Ok(query) => Ok(Params::References(query)),
            Err(error) => Err(error),
        },
    }
}

/// What decodes as the parameters of a method has that method's variant.
pub proof fn lemma_decoded_variant(method: Method, params: serde_json::Value)
    ensures
        decoded_as(method, params) matches Ok(typed) ==> typed.method() == method,
{
}

} // verus!
