//! The two-stage orchestration of one command invocation.
//!
//! An invocation runs its parsed command's branch — resolution or index
//! dispatch — on a background execution context, and a short foreground
//! step wraps the single value that crosses back into the final
//! [`CommandOutput`].  The phases here make that handoff explicit: the
//! background stage ends in `Succeeded` or `Failed`, and only a succeeded
//! invocation is finalized; a failed one surfaces its error verbatim and
//! produces no output.  An invocation may be abandoned in any phase before
//! `Finalized`; no partial text is ever surfaced.

use vstd::prelude::*;
use vstd::pervasive::unreached;
use vstd::string::StringExecFns;
use crate::output::{make_output, CommandOutput, SectionDescriptor};
use crate::resolve::{spec_store_query, store_query};
use crate::types::{CommandError, ParsedCommand, ResolutionResult, SourceTag};

verus! {

/// Where an invocation stands.
#[derive(Clone, Copy, Debug, PartialEq, Eq, Structural)]
pub enum InvocationPhase {
    Idle,
    BackgroundRunning,
    Succeeded,
    Failed,
    Finalized,
}

/// The single value the background stage hands to the foreground stage.
pub enum StageOutput {
    /// A lookup resolved to a text with its provenance.
    Resolved { result: ResolutionResult },
    /// An index crawl finished with its confirmation text.
    Indexed { text: String },
}

/// One command invocation.
pub struct Invocation {
    pub command: ParsedCommand,
    pub phase: InvocationPhase,
    pub outcome: Option<Result<StageOutput, CommandError>>,
}

impl Invocation {
    /// Phase and handoff value agree: the outcome exists exactly between
    /// `complete` and `finalize`, matches the phase, and a successful
    /// outcome is of the branch the command chose.
    pub open spec fn wf(self) -> bool {
        match self.phase {
            InvocationPhase::Idle => self.outcome is None,
            InvocationPhase::BackgroundRunning => self.outcome is None,
            InvocationPhase::Succeeded => match self.outcome {
                Option::Some(Ok(st)) => match st {
                    StageOutput::Resolved { result } => self.command is Lookup,
                    StageOutput::Indexed { text } => self.command is Index,
                },
                _ => false,
            },
            InvocationPhase::Failed => self.outcome matches Option::Some(Err(_)),
            InvocationPhase::Finalized => self.outcome is None,
        }
    }

    /// Starts a fresh invocation for a parsed command.
    pub fn new(command: ParsedCommand) -> (r: Invocation)
        ensures
            r.command == command,
            r.phase is Idle,
            r.wf(),
    {
        Invocation { command, phase: InvocationPhase::Idle, outcome: Option::None }
    }

    /// Enters the background stage.  The command decides the branch run
    /// there: a lookup runs the resolution chain, an index request runs
    /// the dispatcher — never the resolver.
    pub fn begin(&mut self)
        requires
            old(self).phase is Idle,
            old(self).wf(),
        ensures
            final(self).command == old(self).command,
            final(self).phase is BackgroundRunning,
            final(self).wf(),
    {
        self.phase = InvocationPhase::BackgroundRunning;
    }

    /// Records the background stage's single output value: a success
    /// moves to `Succeeded`, a failure to `Failed`.
    pub fn complete(&mut self, outcome: Result<StageOutput, CommandError>)
        requires
            old(self).phase is BackgroundRunning,
            old(self).wf(),
            ({
                match outcome {
                    Ok(st) => match st {
                        StageOutput::Resolved { result } => old(self).command is Lookup,
                        StageOutput::Indexed { text } => old(self).command is Index,
                    },
                    Err(e) => true,
                }
            }),
        ensures
            final(self).command == old(self).command,
            final(self).outcome == Option::Some(outcome),
            outcome is Ok ==> final(self).phase is Succeeded,
            outcome is Err ==> final(self).phase is Failed,
            final(self).wf(),
    {
        self.phase = if outcome.is_ok() {
            InvocationPhase::Succeeded
        } else {
            InvocationPhase::Failed
        };
        self.outcome = Option::Some(outcome);
    }

    /// The foreground stage: wraps a succeeded invocation's value into
    /// the final output.  The text crosses unchanged, one section spans
    /// all of it, embedded commands stay disabled, and the descriptor
    /// carries the provenance (`Local` for an index confirmation), the
    /// command's crate name and, for a lookup with a non-empty item path,
    /// the `::`-joined item query.
    pub fn finalize(&mut self) -> (out: CommandOutput)
        requires
            old(self).phase is Succeeded,
            old(self).wf(),
        ensures
            final(self).command == old(self).command,
            final(self).phase is Finalized,
            final(self).wf(),
            out.run_commands_in_text == false,
            out.sections@.len() == 1,
            out.sections@[0].start == 0,
            out.sections@[0].end == vstd::utf8::encode_utf8(out.text@).len() as usize,
            ({
                let st = old(self).outcome->0->Ok_0;
                let d = out.sections@[0].descriptor;
                match st {
                    StageOutput::Resolved { result } => {
                        &&& out.text@ == result.text@
                        &&& d.source == result.source
                        &&& d.crate_name@ == old(self).command->Lookup_0.crate_name@
                        &&& if old(self).command->Lookup_0.item_path@.len() == 0 {
                            d.item_query is None
                        } else {
                            d.item_query matches Option::Some(q) && q@ == spec_store_query(
                                old(self).command->Lookup_0.item_path.deep_view(),
                            )
                        }
                    },
                    StageOutput::Indexed { text } => {
                        &&& out.text@ == text@
                        &&& d.source == SourceTag::Local
                        &&& d.crate_name@ == old(self).command->Index_0.crate_name@
                        &&& d.item_query is None
                    },
                }
            }),
    {
        let taken = self.outcome.take();
        self.phase = InvocationPhase::Finalized;
        let st = match taken {
            Option::Some(Ok(st)) => st,
            _ => unreached(),
        };
        match st {
            StageOutput::Resolved { result } => {
                let req = match &self.command {
                    ParsedCommand::Lookup(req) => req,
                    _ => unreached(),
                };
                let item_query: Option<String> = if req.item_path.is_empty() {
                    Option::None
                } else {
                    Option::Some(store_query(&req.item_path))
                };
                let descriptor = SectionDescriptor {
                    source: result.source,
                    crate_name: req.crate_name.as_str().to_owned(),
                    item_query,
                };
                make_output(result.text, descriptor)
            },
            StageOutput::Indexed { text } => {
                let req = match &self.command {
                    ParsedCommand::Index(req) => req,
                    _ => unreached(),
                };
                let descriptor = SectionDescriptor {
                    source: SourceTag::Local,
                    crate_name: req.crate_name.as_str().to_owned(),
                    item_query: Option::None,
                };
                make_output(text, descriptor)
            },
        }
    }
}

} // verus!
