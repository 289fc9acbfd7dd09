//! Documentation resolution with fallback.
//!
//! Given a crate name and a nested item path, the library resolves
//! human-readable documentation text by trying, in strict order, a persistent
//! store, a locally built documentation tree, and a remote documentation
//! host.  It also parses the command argument grammar (including the
//! reserved index flag), dispatches index crawls, formats search
//! completions, and assembles the final command output.
//!
//! The store, filesystem, HTTP client and markup converter are external
//! collaborators: this crate decides what to ask them and what each of their
//! answers means, while an unverified driver performs the calls.

use vstd::prelude::*;

pub mod index;
pub mod laws;
pub mod orchestrate;
pub mod output;
pub mod parse;
pub mod resolve;
pub mod search;
pub mod text;
pub mod types;

verus! {

/// The name under which the command is registered.
pub fn command_name() -> (r: String)
    ensures
        r@ == "rustdoc"@,
{
    "rustdoc".to_owned()
}

/// The one-line description of the command.
pub fn command_description() -> (r: String)
    ensures
        r@ == "insert Rust docs"@,
{
    "insert Rust docs".to_owned()
}

/// The text shown for the command in a menu.
pub fn command_menu_text() -> (r: String)
    ensures
        r@ == "Insert Rust Documentation"@,
{
    "Insert Rust Documentation".to_owned()
}

/// The command cannot run without an argument.
pub fn command_requires_argument() -> (b: bool)
    ensures
        b,
{
    true
}

} // verus!
