//! The indexing dispatcher.
//!
//! Indexing needs a workspace root to crawl under; without one it fails
//! before the store is ever touched.  With one, the dispatcher binds the
//! crawl to (filesystem, root) and the driver hands that plan to the
//! store's asynchronous `index` operation, whose errors propagate
//! unchanged.

use vstd::prelude::*;
use vstd::string::StringExecFns;
use crate::types::CommandError;

verus! {

/// A crawl bound to a crate and a workspace root, ready to be handed to
/// the store.
pub struct IndexPlan {
    pub crate_name: String,
    pub workspace_root: String,
}

/// Decides whether an index request can run: without a workspace root it
/// fails with `WorkspaceRootNotFound` and no store call is planned; with
/// one, the crawl is bound to exactly that root and crate.
pub fn dispatch_index(crate_name: String, workspace_root: Option<String>) -> (r: Result<
    IndexPlan,
    CommandError,
>)
    ensures
        ({
            match workspace_root {
                Option::None => r matches Err(e) && e == CommandError::WorkspaceRootNotFound,
                Option::Some(root) => r matches Ok(plan) && plan.crate_name@ == crate_name@
                    && plan.workspace_root@ == root@,
            }
        }),
{
    match workspace_root {
        Option::None => Err(CommandError::WorkspaceRootNotFound),
        Option::Some(root) => Ok(IndexPlan { crate_name, workspace_root: root }),
    }
}

/// The confirmation text of a finished crawl: `Indexed <crate>`.
pub fn index_confirmation(crate_name: &str) -> (r: String)
    ensures
        r@ == "Indexed "@ + crate_name@,
{
    let mut out = "Indexed ".to_owned();
    out.append(crate_name);
    out
}

/// Decides how a finished store crawl ends the invocation: success becomes
/// the confirmation text, a store failure propagates as `StoreIndexError`
/// with the store's message unchanged.
pub fn after_index(crate_name: &str, outcome: Result<(), String>) -> (r: Result<
    String,
    CommandError,
>)
    ensures
        ({
            match outcome {
                Ok(u) => r matches Ok(t) && t@ == "Indexed "@ + crate_name@,
                Err(m) => r == Err::<String, CommandError>(
                    CommandError::StoreIndexError { message: m },
                ),
            }
        }),
{
    match outcome {
        Ok(u) => Ok(index_confirmation(crate_name)),
        Err(m) => Err(CommandError::StoreIndexError { message: m }),
    }
}

} // verus!
