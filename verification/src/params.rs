//! The protocol methods that the server consumes, and the typed parameters
//! that each of them carries.

use vstd::prelude::*;

verus! {

/// A request method that the server answers. Each stands for a name on the
/// wire and for the type that its parameters decode into.
#[derive(Clone, Copy, Debug, PartialEq, Eq, Structural)]
pub enum Method {
    /// `shutdown`: without parameters.
    Shutdown,
    /// `textDocument/definition`: with a document and a position.
    GotoDefinition,
    /// `textDocument/references`: with a document and a position.
    References,
}

/// A position within a document, as a request names it.
#[derive(Clone, Debug, PartialEq, Eq)]
pub struct DocumentPosition {
    pub uri: String,
    pub line: u32,
    pub character: u32,
}

/// What a request for references asks: where, and whether the declaration
/// itself counts as a reference.
#[derive(Clone, Debug, PartialEq, Eq)]
pub struct ReferenceQuery {
    pub at: DocumentPosition,
    pub include_declaration: bool,
}

/// One changed file: its URI, and the path that the URI holds.
#[derive(Clone, Debug, PartialEq, Eq)]
pub struct FileChange {
    pub uri: String,
    pub path: String,
}

/// The typed parameters of a request, one variant for each method.
#[derive(Clone, Debug, PartialEq, Eq)]
pub enum Params {
    Nothing,
    Definition(DocumentPosition),
    References(ReferenceQuery),
}

/// The name on the wire of the notification that reports changed files.
pub open spec fn spec_changes_method() -> Seq<char> {
    "workspace/didChangeWatchedFiles"@
}

/// The name on the wire of the notification that reports changed files.
pub fn changes_method() -> (name: &'static str)
    ensures
        name@ == spec_changes_method(),
{
    "workspace/didChangeWatchedFiles"
}

impl Method {
    /// The method's name on the wire.
    pub open spec fn spec_name(self) -> Seq<char> {
        match self {
            Method::Shutdown => "shutdown"@,
            Method::GotoDefinition => "textDocument/definition"@,
            Method::References => "textDocument/references"@,
        }
    }

    /// The method's name on the wire.
    pub fn name(&self) -> (name: &'static str)
        ensures
            name@ == self.spec_name(),
    {
        match self {
            Method::Shutdown => "shutdown",
            Method::GotoDefinition => "textDocument/definition",
            Method::References => "textDocument/references",
        }
    }
}

impl Params {
    /// The method whose parameters these are.
    pub open spec fn method(self) -> Method {
        match self {
            Params::Nothing => Method::Shutdown,
            Params::Definition(_) => Method::GotoDefinition,
            Params::References(_) => Method::References,
        }
    }
}

/// No two methods share a name, and none shares the name of the notification
/// that reports changed files.
pub proof fn lemma_names_differ(a: Method, b: Method)
    ensures
        a != b ==> a.spec_name() != b.spec_name(),
        a.spec_name() != spec_changes_method(),
{
    reveal_strlit("shutdown");
    reveal_strlit("textDocument/definition");
    reveal_strlit("textDocument/references");
    reveal_strlit("workspace/didChangeWatchedFiles");
    assert("textDocument/definition"@[13] == 'd');
    assert("textDocument/references"@[13] == 'r');
    assert("shutdown"@.len() == 8);
    assert("textDocument/definition"@.len() == 23);
    assert("workspace/didChangeWatchedFiles"@.len() == 31);
}

} // verus!
