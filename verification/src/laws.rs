//! The fallback chain as one function of the collaborators' answers, and
//! the laws that hold of it.
//!
//! [`SpecEnv`] fixes what the store, the filesystem, the remote host and
//! the markup converter would answer during one resolution.  Every stage
//! function in [`crate::resolve`] is pinned by its contract to the
//! corresponding branch of [`spec_resolution`], so these laws carry over
//! to any driver that composes the stages in the specified order.

use vstd::prelude::*;
use crate::resolve::{is_client_error, spec_docs_url};
use crate::types::SourceTag;

verus! {

/// What the collaborators would answer during one resolution: the store's
/// text on a hit, the local file's bytes when it exists, the remote
/// response (status and body) or transport failure, and the converter's
/// text or failure for the one byte string it is handed.
pub struct SpecEnv {
    pub store: Option<Seq<char>>,
    pub file: Option<Seq<u8>>,
    pub remote: Result<(u16, Seq<u8>), Seq<char>>,
    pub convert: Result<Seq<char>, Seq<char>>,
}

/// How one resolution ends.
pub enum SpecResolved {
    /// A text was produced, with its provenance.
    Done { source: SourceTag, text: Seq<char> },
    /// The remote host answered with a client-error status.
    RemoteStatus { code: u16, snippet: Seq<u8> },
    /// The HTTP transport failed.
    Transport { message: Seq<char> },
    /// The markup converter rejected the bytes it was handed.
    Conversion { message: Seq<char> },
}

/// How a conversion outcome ends a resolution.
pub open spec fn spec_after_convert(
    source: SourceTag,
    convert: Result<Seq<char>, Seq<char>>,
) -> SpecResolved {
    match convert {
        Ok(t) => SpecResolved::Done { source, text: t },
        Err(m) => SpecResolved::Conversion { message: m },
    }
}

/// Whether the resolution reads the local build tree: only after a store
/// miss, and only when a workspace root is known.
pub open spec fn spec_reads_local(root: Option<Seq<char>>, env: SpecEnv) -> bool {
    env.store is None && root is Some
}

/// Whether the resolution fetches from the remote host: only after both
/// the store and the local build tree have missed.
pub open spec fn spec_fetches_remote(root: Option<Seq<char>>, env: SpecEnv) -> bool {
    env.store is None && !(root is Some && env.file is Some)
}

/// The one byte string handed to the markup converter, if any: the local
/// file's bytes, or the remote body when it is not a client error.
pub open spec fn spec_converted_bytes(root: Option<Seq<char>>, env: SpecEnv) -> Option<Seq<u8>> {
    if env.store is Some {
        Option::None
    } else if root is Some && env.file is Some {
        Option::Some(env.file->0)
    } else {
        match env.remote {
            Ok((code, body)) => if is_client_error(code) {
                Option::None
            } else {
                Option::Some(body)
            },
            Err(m) => Option::None,
        }
    }
}

/// One whole resolution, as a function of the request and of what the
/// collaborators answer: store first, then the local build tree, then the
/// remote host, each stage exactly as the stage functions decide it.
pub open spec fn spec_resolution(root: Option<Seq<char>>, env: SpecEnv) -> SpecResolved {
    match env.store {
        Option::Some(t) => SpecResolved::Done { source: SourceTag::Local, text: t },
        Option::None => if root is Some && env.file is Some {
            spec_after_convert(SourceTag::Local, env.convert)
        } else {
            match env.remote {
                Ok((code, body)) => if is_client_error(code) {
                    SpecResolved::RemoteStatus { code, snippet: body }
                } else {
                    spec_after_convert(SourceTag::Remote, env.convert)
                },
                Err(m) => SpecResolved::Transport { message: m },
            }
        },
    }
}

/// A store hit short-circuits the chain: the result is the store's text
/// tagged `Local`, the filesystem is never read and the remote host is
/// never fetched from.
pub proof fn lemma_store_hit_short_circuits(root: Option<Seq<char>>, env: SpecEnv)
    requires
        env.store is Some,
    ensures
        spec_resolution(root, env) == (SpecResolved::Done {
            source: SourceTag::Local,
            text: env.store->0,
        }),
        !spec_reads_local(root, env),
        !spec_fetches_remote(root, env),
        spec_converted_bytes(root, env) is None,
{
}

/// When the store misses and the local file exists, the result is exactly
/// the conversion of that file's bytes, tagged `Local`, and the remote
/// host is never fetched from.
pub proof fn lemma_local_fallback(root: Option<Seq<char>>, env: SpecEnv)
    requires
        env.store is None,
        root is Some,
        env.file is Some,
    ensures
        spec_converted_bytes(root, env) == Option::Some(env.file->0),
        spec_resolution(root, env) == spec_after_convert(SourceTag::Local, env.convert),
        env.convert matches Ok(t) ==> spec_resolution(root, env) == (SpecResolved::Done {
            source: SourceTag::Local,
            text: t,
        }),
        !spec_fetches_remote(root, env),
{
}

/// The URL of the one remote fetch, when it happens: always the URL
/// derived from the request, as the stage functions build it.
pub open spec fn spec_fetch_url(
    crate_name: Seq<char>,
    item_path: Seq<Seq<char>>,
    root: Option<Seq<char>>,
    env: SpecEnv,
) -> Option<Seq<char>> {
    if spec_fetches_remote(root, env) {
        Option::Some(spec_docs_url(crate_name, item_path))
    } else {
        Option::None
    }
}

/// When both the store and the local lookup miss, exactly one remote fetch
/// happens, to the derived URL, and a client-error status is terminal with
/// that exact code and the body as snippet.
pub proof fn lemma_remote_fallback(
    crate_name: Seq<char>,
    item_path: Seq<Seq<char>>,
    root: Option<Seq<char>>,
    env: SpecEnv,
)
    requires
        env.store is None,
        root is None || env.file is None,
    ensures
        spec_fetches_remote(root, env),
        spec_fetch_url(crate_name, item_path, root, env) == Option::Some(
            spec_docs_url(crate_name, item_path),
        ),
        ({
            match env.remote {
                Ok((code, body)) => if is_client_error(code) {
                    spec_resolution(root, env) == (SpecResolved::RemoteStatus {
                        code,
                        snippet: body,
                    })
                } else {
                    spec_resolution(root, env) == spec_after_convert(
                        SourceTag::Remote,
                        env.convert,
                    )
                },
                Err(m) => spec_resolution(root, env) == (SpecResolved::Transport { message: m }),
            }
        }),
{
}

/// Resolution is a function of the request and the collaborators' state
/// alone: repeating an identical lookup against an unchanged store,
/// filesystem and remote host yields the identical outcome, and so, the
/// stage functions being pinned to it, byte-identical output text.
pub proof fn lemma_resolution_idempotent(
    root1: Option<Seq<char>>,
    env1: SpecEnv,
    root2: Option<Seq<char>>,
    env2: SpecEnv,
)
    requires
        root1 == root2,
        env1 == env2,
    ensures
        spec_resolution(root1, env1) == spec_resolution(root2, env2),
{
}

} // verus!
