//! The resolved command line, and how it combines with the configuration.
//!
//! Flag parsing itself happens outside this library; the plain flag values
//! arrive here and are turned into the session's commands.

use vstd::prelude::*;

verus! {

use crate::config::ReviseConfig;

/// The flag values of one invocation, already parsed.
#[derive(Debug, Clone)]
pub struct Cli {
    pub generate: bool,
    pub translate: Option<String>,
    pub path: Vec<String>,
    pub exclude: Vec<String>,
    /// Files taken back out of the exclusion list (the inclusion flag).
    pub retain: Vec<String>,
    pub message: Option<String>,
}

/// The AI mode asked for, if any.
#[derive(Debug, PartialEq, Eq, Clone)]
pub enum AICommand {
    Generate,
    Translate(String),
}

/// What one session is asked to do.
#[derive(Debug, Clone)]
pub struct ReviseCommands {
    pub ai: Option<AICommand>,
    pub add: Vec<String>,
    pub excludes: Vec<String>,
    pub message: Option<String>,
}

/// The views of the strings in `xs`.
pub open spec fn views(xs: Seq<String>) -> Seq<Seq<char>> {
    Seq::new(xs.len(), |i: int| xs[i]@)
}

/// The first `n` entries of `base` without those named in `drops`, in order.
pub open spec fn spec_kept(base: Seq<Seq<char>>, drops: Seq<Seq<char>>, n: int) -> Seq<Seq<char>>
    decreases n,
{
    if n <= 0 {
        Seq::empty()
    } else {
        spec_kept(base, drops, n - 1) + (if drops.contains(base[n - 1]) {
            Seq::empty()
        } else {
            seq![base[n - 1]]
        })
    }
}

/// The exclusion list of a session: the configured exclusions followed by
/// those given on the command line, minus every file the inclusion flag
/// takes back.
pub open spec fn spec_excludes(cfg: Seq<Seq<char>>, cli: Seq<Seq<char>>, drops: Seq<Seq<char>>) -> Seq<
    Seq<char>,
> {
    spec_kept(cfg + cli, drops, (cfg + cli).len() as int)
}

/// Whether some view in `drops` equals `x`.
fn in_views(drops: &Vec<String>, x: &str) -> (r: bool)
    ensures
        r == views(drops@).contains(x@),
{
    let found = crate::text::index_of_str(drops, x);
    proof {
        match found {
            Some(i) => {
                assert(views(drops@)[i as int] == x@);
            }
            None => {
                if views(drops@).contains(x@) {
                    let i = choose|i: int|
                        0 <= i < views(drops@).len() && views(drops@)[i] == x@;
                    assert(drops@[i]@ == x@);
                }
            }
        }
    }
    found.is_some()
}

/// Turns parsed flags into the session's commands: the generate flag wins
/// over translation; staged paths and the message pass through; and the
/// exclusion list combines the configuration's entries with the command
/// line's, dropping every file the inclusion flag takes back.
pub fn parse_command(cli: Cli, config: &ReviseConfig) -> (r: ReviseCommands)
    ensures
        cli.generate ==> r.ai == Some(AICommand::Generate),
        !cli.generate ==> r.ai == (match cli.translate {
            Some(t) => Some(AICommand::Translate(t)),
            None => None,
        }),
        r.add == cli.path,
        r.message == cli.message,
        views(r.excludes@) == spec_excludes(
            views(config.exclude_files@),
            views(cli.exclude@),
            views(cli.retain@),
        ),
{
    let ghost base = views(config.exclude_files@) + views(cli.exclude@);
    let mut combined: Vec<String> = Vec::new();
    for i in 0..config.exclude_files.len()
        invariant
            base == views(config.exclude_files@) + views(cli.exclude@),
            i <= config.exclude_files@.len(),
            combined@.len() == i,
            views(combined@) =~~= views(config.exclude_files@).subrange(0, i as int),
    {
        combined.push(config.exclude_files[i].as_str().to_owned());
        proof {
            assert(views(combined@) =~~= views(config.exclude_files@).subrange(0, i + 1));
        }
    }
    for i in 0..cli.exclude.len()
        invariant
            base == views(config.exclude_files@) + views(cli.exclude@),
            i <= cli.exclude@.len(),
            combined@.len() == config.exclude_files@.len() + i,
            views(combined@) =~~= base.subrange(
                0,
                views(config.exclude_files@).len() as int + i as int,
            ),
    {
        combined.push(cli.exclude[i].as_str().to_owned());
        proof {
            assert(views(combined@) =~~= base.subrange(
                0,
                views(config.exclude_files@).len() as int + i + 1,
            ));
        }
    }
    proof {
        assert(views(combined@) =~~= base);
    }
    let mut excludes: Vec<String> = Vec::new();
    for i in 0..combined.len()
        invariant
            views(combined@) == base,
            i <= combined@.len(),
            excludes@.len() == spec_kept(base, views(cli.retain@), i as int).len(),
            views(excludes@) =~~= spec_kept(base, views(cli.retain@), i as int),
    {
        if !in_views(&cli.retain, combined[i].as_str()) {
            excludes.push(combined[i].as_str().to_owned());
        }
        proof {
            assert(base[i as int] == combined@[i as int]@);
            assert(views(excludes@) =~~= spec_kept(base, views(cli.retain@), i + 1));
        }
    }
    proof {
        assert(base.len() == combined@.len());
    }
    let ai: Option<AICommand> = if cli.generate {
        Some(AICommand::Generate)
    } else {
        match cli.translate {
            Some(t) => Some(AICommand::Translate(t)),
            None => None,
        }
    };
    ReviseCommands { ai, add: cli.path, excludes, message: cli.message }
}

} // verus!
