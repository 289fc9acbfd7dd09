//! The ordered fallback chain: store, local build tree, remote host.
//!
//! Resolution is strictly sequential: the store is asked first, a miss
//! falls through to the locally built documentation (when a workspace root
//! is known), and a further miss falls through to the remote host.  The
//! collaborator calls themselves are performed by an unverified driver; the
//! functions here decide, after each answer, what happens next, and are
//! pinned to [`spec_resolution`].

use vstd::prelude::*;
use vstd::string::StrSliceExecFns;
use vstd::string::StringExecFns;
use crate::text::{join_with, spec_join};
use crate::types::{CommandError, LookupRequest, ResolutionResult, SourceTag};

verus! {

/// The item query handed to the store: the path segments joined by `::`.
pub open spec fn spec_store_query(item_path: Seq<Seq<char>>) -> Seq<char> {
    spec_join(item_path, "::"@)
}

/// The candidate file inside the local build output:
/// `<root>/target/doc/<crate>/<segments joined by "/">/index.html`, with
/// the segment component omitted when the item path is empty.
pub open spec fn spec_local_doc_path(
    root: Seq<char>,
    crate_name: Seq<char>,
    item_path: Seq<Seq<char>>,
) -> Seq<char> {
    if item_path.len() == 0 {
        root + "/target/doc/"@ + crate_name + "/index.html"@
    } else {
        root + "/target/doc/"@ + crate_name + "/"@ + spec_join(item_path, "/"@) + "/index.html"@
    }
}

/// The URL asked of the remote host:
/// `https://docs.rs/<crate>/latest/<crate>/<segments joined by "/">`.
pub open spec fn spec_docs_url(crate_name: Seq<char>, item_path: Seq<Seq<char>>) -> Seq<char> {
    "https://docs.rs/"@ + crate_name + "/latest/"@ + crate_name + "/"@ + spec_join(
        item_path,
        "/"@,
    )
}

/// Builds the store query for a request.
pub fn store_query(item_path: &Vec<String>) -> (r: String)
    ensures
        r@ == spec_store_query(item_path.deep_view()),
{
    join_with(item_path, "::")
}

/// Builds the candidate path into the local build output.
pub fn local_doc_path(root: &str, crate_name: &str, item_path: &Vec<String>) -> (r: String)
    ensures
        r@ == spec_local_doc_path(root@, crate_name@, item_path.deep_view()),
{
    let mut out = root.to_owned();
    out.append("/target/doc/");
    out.append(crate_name);
    if !item_path.is_empty() {
        out.append("/");
        let joined = join_with(item_path, "/");
        out.append(joined.as_str());
    }
    out.append("/index.html");
    proof {
        assert(out@ =~~= spec_local_doc_path(root@, crate_name@, item_path.deep_view()));
    }
    out
}

/// Builds the URL of the remote documentation page.
pub fn docs_url(crate_name: &str, item_path: &Vec<String>) -> (r: String)
    ensures
        r@ == spec_docs_url(crate_name@, item_path.deep_view()),
{
    let mut out = "https://docs.rs/".to_owned();
    out.append(crate_name);
    out.append("/latest/");
    out.append(crate_name);
    out.append("/");
    let joined = join_with(item_path, "/");
    out.append(joined.as_str());
    proof {
        assert(out@ =~~= spec_docs_url(crate_name@, item_path.deep_view()));
    }
    out
}

/// What the chain does after the store has answered.
pub enum AfterStore {
    /// The store had the text: resolution is complete, tagged `Local`.
    Resolved { result: ResolutionResult },
    /// The store missed and a workspace root is known: read this file.
    ReadLocal { path: String },
    /// The store missed and no workspace root is known: fetch this URL.
    FetchRemote { url: String },
}

/// Decides the step after the store answered: a hit short-circuits with
/// provenance `Local` and nothing else is ever read or fetched; a miss
/// falls through to the local build tree when a root is known, else
/// straight to the remote host.
pub fn after_store(req: &LookupRequest, root: &Option<String>, store_text: Option<String>) -> (r:
    AfterStore)
    ensures
        ({
            match store_text {
                Option::Some(t) => r matches AfterStore::Resolved { result } && result.source
                    == SourceTag::Local && result.text@ == t@,
                Option::None => match root {
                    Option::Some(rt) => r matches AfterStore::ReadLocal { path } && path@
                        == spec_local_doc_path(
                        rt@,
                        req.crate_name@,
                        req.item_path.deep_view(),
                    ),
                    Option::None => r matches AfterStore::FetchRemote { url } && url@
                        == spec_docs_url(req.crate_name@, req.item_path.deep_view()),
                },
            }
        }),
{
    match store_text {
        Option::Some(t) => AfterStore::Resolved {
            result: ResolutionResult { source: SourceTag::Local, text: t },
        },
        Option::None => match root {
            Option::Some(rt) => AfterStore::ReadLocal {
                path: local_doc_path(rt.as_str(), req.crate_name.as_str(), &req.item_path),
            },
            Option::None => AfterStore::FetchRemote {
                url: docs_url(req.crate_name.as_str(), &req.item_path),
            },
        },
    }
}

/// What the chain does after the local file read was attempted.
pub enum AfterLocal {
    /// The file was there: convert its bytes, provenance `Local`.
    Convert { bytes: Vec<u8> },
    /// The read missed; the miss is swallowed: fetch this URL.
    FetchRemote { url: String },
}

/// Decides the step after the local read: the file's bytes, when present,
/// go to the markup converter unchanged; a read failure is non-fatal and
/// falls through to the remote host.
pub fn after_local_read(req: &LookupRequest, read: Option<Vec<u8>>) -> (r: AfterLocal)
    ensures
        ({
            match read {
                Option::Some(b) => r matches AfterLocal::Convert { bytes } && bytes@ == b@,
                Option::None => r matches AfterLocal::FetchRemote { url } && url@ == spec_docs_url(
                    req.crate_name@,
                    req.item_path.deep_view(),
                ),
            }
        }),
{
    match read {
        Option::Some(b) => AfterLocal::Convert { bytes: b },
        Option::None => AfterLocal::FetchRemote {
            url: docs_url(req.crate_name.as_str(), &req.item_path),
        },
    }
}

/// Whether an HTTP status is in the client-error class.
pub open spec fn is_client_error(code: u16) -> bool {
    400 <= code <= 499
}

/// What the chain does after the remote host has answered.
pub enum AfterRemote {
    /// A usable response: convert its body, provenance `Remote`.
    Convert { bytes: Vec<u8> },
    /// The fetch was terminal: a client-error status or a transport
    /// failure.
    Fail { error: CommandError },
}

/// Decides the step after the remote fetch: a client-error status is
/// terminal and carries that exact code together with the body as snippet;
/// any other status hands the body to the markup converter unchanged; a
/// transport or body-read failure propagates as `TransportError`.
pub fn after_remote_response(outcome: Result<(u16, Vec<u8>), String>) -> (r: AfterRemote)
    ensures
        ({
            match outcome {
                Ok((code, body)) => if is_client_error(code) {
                    r matches AfterRemote::Fail { error } && error
                        == (CommandError::RemoteStatusError { code, snippet: body })
                } else {
                    r matches AfterRemote::Convert { bytes } && bytes@ == body@
                },
                Err(m) => r matches AfterRemote::Fail { error } && error
                    == (CommandError::TransportError { message: m }),
            }
        }),
{
    match outcome {
        Ok((code, body)) => {
            if 400 <= code && code <= 499 {
                AfterRemote::Fail {
                    error: CommandError::RemoteStatusError { code, snippet: body },
                }
            } else {
                AfterRemote::Convert { bytes: body }
            }
        },
        Err(m) => AfterRemote::Fail { error: CommandError::TransportError { message: m } },
    }
}

/// Decides the step after the markup converter has answered: its text
/// becomes the resolution result under the provenance of the bytes'
/// source; its failure is terminal.
pub fn after_convert(source: SourceTag, conversion: Result<String, String>) -> (r: Result<
    ResolutionResult,
    CommandError,
>)
    ensures
        ({
            match conversion {
                Ok(t) => r matches Ok(result) && result.source == source && result.text@ == t@,
                Err(m) => r == Err::<ResolutionResult, CommandError>(
                    CommandError::ConversionFailure { message: m },
                ),
            }
        }),
{
    match conversion {
        Ok(t) => Ok(ResolutionResult { source, text: t }),
        Err(m) => Err(CommandError::ConversionFailure { message: m }),
    }
}

} // verus!
