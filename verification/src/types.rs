//! The data model: requests, provenance tags, results and errors.

use vstd::prelude::*;

verus! {

/// Where a resolved documentation text came from: the store or the local
/// build tree (`Local`), or the remote documentation host (`Remote`).
#[derive(Clone, Copy, Debug, PartialEq, Eq, Structural)]
pub enum SourceTag {
    Local,
    Remote,
}

/// A request to resolve documentation for one item of one crate.
#[derive(Clone, Debug)]
pub struct LookupRequest {
    /// The crate the item belongs to; never empty once parsed.
    pub crate_name: String,
    /// The nested name segments inside the crate; may be empty, and no
    /// segment contains the path separator.
    pub item_path: Vec<String>,
}

/// A request to crawl the local build output of one crate into the store.
#[derive(Clone, Debug)]
pub struct IndexRequest {
    /// The crate to crawl; never empty once parsed.
    pub crate_name: String,
}

/// What a command argument parses to: a lookup or an index request.
#[derive(Clone, Debug)]
pub enum ParsedCommand {
    Lookup(LookupRequest),
    Index(IndexRequest),
}

/// A resolved documentation text together with its provenance.
#[derive(Clone, Debug)]
pub struct ResolutionResult {
    pub source: SourceTag,
    pub text: String,
}

/// The terminal failures a command invocation can surface.  Store and
/// local-read misses are not here: they are swallowed by the fallback
/// chain and never reach the caller.
#[derive(Clone, Debug, PartialEq, Eq)]
pub enum CommandError {
    /// The command was invoked without an argument, or with one that
    /// yields an empty crate name.
    MissingArgument,
    /// The index flag was not followed by a crate name.
    MissingIndexTarget,
    /// An index dispatch found no workspace root to crawl under.
    WorkspaceRootNotFound,
    /// The markup-to-text collaborator rejected the fetched bytes.
    ConversionFailure { message: String },
    /// The remote host answered with a client-error status.
    RemoteStatusError { code: u16, snippet: Vec<u8> },
    /// The HTTP transport failed, or the response body could not be read.
    TransportError { message: String },
    /// The store's crawl failed.
    StoreIndexError { message: String },
}

} // verus!
