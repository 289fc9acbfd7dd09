//! The command argument grammar.
//!
//! The raw argument is split on spaces into trimmed tokens.  The reserved
//! flag `--index` consumes the following token as the crate to index and
//! switches the invocation into index mode.  All other tokens are
//! concatenated, without reinserting whitespace, into the raw item path,
//! which is then split on `::`: the first segment is the crate name, the
//! remaining segments the item path.

use vstd::prelude::*;
use vstd::string::StringExecFns;
use crate::text::{sep_at, spec_split_char, spec_split_path, spec_trim, split_on_char,
    split_on_path_sep, trim};
use crate::types::{CommandError, IndexRequest, LookupRequest, ParsedCommand};

verus! {

/// What an argument parses to, at the specification level.
pub enum SpecParsed {
    /// No argument, or one whose crate name comes out empty.
    Missing,
    /// The index flag without a crate name after it.
    MissingTarget,
    /// Index mode, with the crate to crawl.
    Index { crate_name: Seq<char> },
    /// Lookup mode, with the crate name and the item path segments.
    Lookup { crate_name: Seq<char>, item_path: Seq<Seq<char>> },
}

/// The trimmed tokens of the raw argument.
pub open spec fn spec_tokens(s: Seq<char>) -> Seq<Seq<char>> {
    spec_split_char(s, ' ').map_values(|t: Seq<char>| spec_trim(t))
}

/// One left-to-right pass over the tokens from position `i` on, carrying
/// the index target seen so far (the last one wins) and the concatenated
/// non-flag tokens.  `None` means the index flag had no following token.
pub open spec fn spec_scan(
    tokens: Seq<Seq<char>>,
    i: int,
    target: Option<Seq<char>>,
    acc: Seq<char>,
) -> Option<(Option<Seq<char>>, Seq<char>)>
    decreases tokens.len() - i,
{
    if i >= tokens.len() {
        Some((target, acc))
    } else if tokens[i] == "--index"@ {
        if i + 1 >= tokens.len() {
            None
        } else {
            spec_scan(tokens, i + 2, Some(tokens[i + 1]), acc)
        }
    } else {
        spec_scan(tokens, i + 1, target, acc + tokens[i])
    }
}

/// The whole grammar: what an optional raw argument parses to.
pub open spec fn spec_parse(arg: Option<Seq<char>>) -> SpecParsed {
    match arg {
        Option::None => SpecParsed::Missing,
        Option::Some(s) => {
            let tokens = spec_tokens(s);
            match spec_scan(tokens, 0, Option::None, Seq::<char>::empty()) {
                Option::None => SpecParsed::MissingTarget,
                Option::Some((target, acc)) => match target {
                    Option::Some(t) => if t.len() == 0 {
                        SpecParsed::MissingTarget
                    } else {
                        SpecParsed::Index { crate_name: t }
                    },
                    Option::None => {
                        let segs = spec_split_path(acc);
                        if segs[0].len() == 0 {
                            SpecParsed::Missing
                        } else {
                            SpecParsed::Lookup {
                                crate_name: segs[0],
                                item_path: segs.drop_first(),
                            }
                        }
                    },
                },
            }
        },
    }
}

/// Invariant of the data model: once an argument parses to a lookup, the
/// crate name is non-empty, and neither it nor any item path segment
/// contains the path separator token.
pub proof fn lemma_parsed_segments_separator_free(arg: Option<Seq<char>>)
    ensures
        ({
            match spec_parse(arg) {
                SpecParsed::Lookup { crate_name, item_path } => {
                    &&& crate_name.len() > 0
                    &&& forall|j: int| !sep_at(crate_name, j)
                    &&& forall|k: int|
                        0 <= k < item_path.len() ==> forall|j: int|
                            !sep_at(#[trigger] item_path[k], j)
                },
                _ => true,
            }
        }),
{
    match arg {
        Option::None => {},
        Option::Some(s) => {
            let tokens = spec_tokens(s);
            match spec_scan(tokens, 0, Option::None, Seq::<char>::empty()) {
                Option::None => {},
                Option::Some((target, acc)) => match target {
                    Option::Some(t) => {},
                    Option::None => {
                        crate::text::lemma_split_path_segments_sep_free(acc);
                        let segs = spec_split_path(acc);
                        assert forall|k: int|
                            0 <= k < segs.drop_first().len() implies forall|j: int|
                            !sep_at(#[trigger] segs.drop_first()[k], j) by {
                            assert(segs.drop_first()[k] == segs[k + 1]);
                        }
                    },
                },
            }
        },
    }
}

/// The view of the optional argument an invocation was given.
pub open spec fn spec_arg(argument: Option<&str>) -> Option<Seq<char>> {
    match argument {
        Option::None => Option::None,
        Option::Some(s) => Option::Some(s@),
    }
}

/// Parses the raw command argument into a lookup or an index request.
///
/// The result is pinned to [`spec_parse`]: a missing argument or an empty
/// crate name fails with `MissingArgument`, an index flag without a
/// non-empty target fails with `MissingIndexTarget`, and a parsed request
/// never carries an empty crate name.
pub fn parse_argument(argument: Option<&str>) -> (r: Result<ParsedCommand, CommandError>)
    ensures
        ({
            let sp = spec_parse(spec_arg(argument));
            match r {
                Ok(cmd) => match cmd {
                    ParsedCommand::Lookup(req) => sp == (SpecParsed::Lookup {
                        crate_name: req.crate_name@,
                        item_path: req.item_path.deep_view(),
                    }) && req.crate_name@.len() > 0,
                    ParsedCommand::Index(req) => sp == (SpecParsed::Index {
                        crate_name: req.crate_name@,
                    }) && req.crate_name@.len() > 0,
                },
                Err(e) => (e == CommandError::MissingArgument && sp == SpecParsed::Missing) || (e
                    == CommandError::MissingIndexTarget && sp == SpecParsed::MissingTarget),
            }
        }),
{
    if argument.is_none() {
        return Err(CommandError::MissingArgument);
    }
    let arg = argument.unwrap();
    let raw_tokens = split_on_char(arg, ' ');
    let mut tokens: Vec<String> = Vec::new();
    let mut k: usize = 0;
    while k < raw_tokens.len()
        invariant
            0 <= k <= raw_tokens@.len(),
            tokens@.len() == k,
            forall|j: int|
                0 <= j < k ==> tokens.deep_view()[j] == spec_trim(raw_tokens.deep_view()[j]),
        decreases raw_tokens@.len() - k,
    {
        let ghost pre = tokens@;
        let t = trim(raw_tokens[k].as_str());
        proof {
            assert(t@ == spec_trim(raw_tokens.deep_view()[k as int]));
        }
        let ghost predv = tokens.deep_view();
        tokens.push(t);
        proof {
            assert forall|j: int|
                0 <= j < k + 1 implies tokens.deep_view()[j] == spec_trim(
                raw_tokens.deep_view()[j],
            ) by {
                assert(tokens@ == pre.push(t));
                if j < k {
                    assert(tokens@[j] == pre[j]);
                    assert(tokens.deep_view()[j] == tokens@[j]@);
                    assert(predv[j] == pre[j]@);
                    assert(predv[j] == spec_trim(raw_tokens.deep_view()[j]));
                } else {
                    assert(tokens@[j] == t);
                    assert(tokens.deep_view()[j] == t@);
                }
            }
        }
        k += 1;
    }
    proof {
        assert(tokens.deep_view() =~~= spec_tokens(arg@));
    }

    let flag: String = "--index".to_owned();
    let ghost toks = tokens.deep_view();
    let mut target: Option<String> = Option::None;
    let mut acc = String::new();
    let mut i: usize = 0;
    while i < tokens.len()
        invariant
            toks == tokens.deep_view(),
            toks == spec_tokens(arg@),
            spec_arg(argument) == Option::Some(arg@),
            0 <= i <= toks.len(),
            flag@ == "--index"@,
            spec_scan(toks, 0, Option::None, Seq::<char>::empty()) == spec_scan(
                toks,
                i as int,
                match target {
                    Option::Some(t) => Option::Some(t@),
                    Option::None => Option::None,
                },
                acc@,
            ),
        decreases toks.len() - i,
    {
        if tokens[i] == flag {
            proof {
                assert(toks[i as int] == "--index"@);
            }
            if i + 1 >= tokens.len() {
                proof {
                    let tv = match target {
                        Option::Some(t) => Option::Some(t@),
                        Option::None => Option::None::<Seq<char>>,
                    };
                    assert(spec_scan(toks, i as int, tv, acc@) == Option::None::<
                        (Option<Seq<char>>, Seq<char>),
                    >);
                    assert(spec_arg(argument) == Option::Some(arg@));
                    assert(spec_parse(spec_arg(argument)) == SpecParsed::MissingTarget);
                }
                return Err(CommandError::MissingIndexTarget);
            }
            target = Option::Some(tokens[i + 1].clone());
            i += 2;
        } else {
            acc.append(tokens[i].as_str());
            i += 1;
        }
    }

    match target {
        Option::Some(t) => {
            if t.as_str().is_empty() {
                Err(CommandError::MissingIndexTarget)
            } else {
                Ok(ParsedCommand::Index(IndexRequest { crate_name: t }))
            }
        },
        Option::None => {
            let mut segs = split_on_path_sep(acc.as_str());
            proof {
                crate::text::lemma_split_path_len(acc@);
            }
            let crate_name = segs.remove(0);
            if crate_name.as_str().is_empty() {
                Err(CommandError::MissingArgument)
            } else {
                proof {
                    assert(segs.deep_view() =~~= spec_split_path(acc@).drop_first());
                }
                Ok(
                    ParsedCommand::Lookup(
                        LookupRequest { crate_name, item_path: segs },
                    ),
                )
            }
        },
    }
}

} // verus!
