//! The command's output: a text and exactly one section spanning it.

use vstd::prelude::*;
use vstd::string::StrSliceExecFns;
use vstd::string::StringExecFns;
use vstd::utf8::encode_utf8;
use crate::types::SourceTag;

verus! {

/// The render-agnostic description of a section: the provenance of the
/// text, the crate it documents and, for a lookup with a non-empty item
/// path, the `::`-joined item query.  How a renderer turns this into a
/// widget is outside this crate.
#[derive(Debug)]
pub struct SectionDescriptor {
    pub source: SourceTag,
    pub crate_name: String,
    pub item_query: Option<String>,
}

/// A contiguous byte range over the produced text, with its descriptor.
#[derive(Debug)]
pub struct OutputSection {
    pub start: usize,
    pub end: usize,
    pub descriptor: SectionDescriptor,
}

/// What a successful command hands back: the full text, its sections, and
/// whether embedded commands in the text may later run (never, for this
/// command).
#[derive(Debug)]
pub struct CommandOutput {
    pub text: String,
    pub sections: Vec<OutputSection>,
    pub run_commands_in_text: bool,
}

/// Wraps a produced text into the command's output: exactly one section,
/// spanning the whole text as a byte range, embedded commands disabled.
pub fn make_output(text: String, descriptor: SectionDescriptor) -> (out: CommandOutput)
    ensures
        out.text@ == text@,
        out.run_commands_in_text == false,
        out.sections@.len() == 1,
        out.sections@[0].start == 0,
        out.sections@[0].end == encode_utf8(text@).len() as usize,
        out.sections@[0].descriptor == descriptor,
{
    let end = text.as_str().len();
    let section = OutputSection { start: 0, end, descriptor };
    let mut sections: Vec<OutputSection> = Vec::new();
    sections.push(section);
    CommandOutput { text, sections, run_commands_in_text: false }
}

/// How a provenance reads in a placeholder label.
pub open spec fn spec_source_label(source: SourceTag) -> Seq<char> {
    match source {
        SourceTag::Local => "local"@,
        SourceTag::Remote => "docs.rs"@,
    }
}

/// The crate path a placeholder shows: the crate name alone, or
/// `crate::item query` when the lookup had an item path.
pub open spec fn spec_crate_path(d: SectionDescriptor) -> Seq<char> {
    match d.item_query {
        Option::Some(q) => d.crate_name@ + "::"@ + q@,
        Option::None => d.crate_name@,
    }
}

/// The text of the folded placeholder a renderer shows for a resolved
/// lookup: `rustdoc (<source>): <crate path>`.
pub fn placeholder_label(d: &SectionDescriptor) -> (r: String)
    ensures
        r@ == "rustdoc ("@ + spec_source_label(d.source) + "): "@ + spec_crate_path(*d),
{
    let mut out = "rustdoc (".to_owned();
    match d.source {
        SourceTag::Local => out.append("local"),
        SourceTag::Remote => out.append("docs.rs"),
    }
    out.append("): ");
    out.append(d.crate_name.as_str());
    match &d.item_query {
        Option::Some(q) => {
            out.append("::");
            out.append(q.as_str());
        },
        Option::None => {},
    }
    proof {
        assert(out@ =~~= "rustdoc ("@ + spec_source_label(d.source) + "): "@ + spec_crate_path(
            *d,
        ));
    }
    out
}

/// The text of the folded placeholder a renderer shows for a finished
/// index crawl: `rustdoc index (<source>): <crate>`.
pub fn index_placeholder_label(d: &SectionDescriptor) -> (r: String)
    ensures
        r@ == "rustdoc index ("@ + spec_source_label(d.source) + "): "@ + d.crate_name@,
{
    let mut out = "rustdoc index (".to_owned();
    match d.source {
        SourceTag::Local => out.append("local"),
        SourceTag::Remote => out.append("docs.rs"),
    }
    out.append("): ");
    out.append(d.crate_name.as_str());
    proof {
        assert(out@ =~~= "rustdoc index ("@ + spec_source_label(d.source) + "): "@
            + d.crate_name@);
    }
    out
}

} // verus!
