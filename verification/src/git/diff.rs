//! Filtering of a staged diff by excluded file name.
//!
//! The version-control collaborator walks the difference between the last
//! recorded tree and the staged index and reports an ordered sequence of
//! records: a boundary for each file it enters, then that file's lines. The
//! filter below drops every line of a file whose basename is excluded and
//! prefixes each kept line with its polarity marker, preserving order. The
//! exclusion flag is reset at each file boundary and nowhere else.

use vstd::prelude::*;

verus! {

use crate::text::index_of_str;

/// One record of a diff walk, in source order.
#[derive(Debug, Clone)]
pub enum DiffRecord {
    /// The walk entered a new file; `name` is its basename when one could be
    /// read from the path.
    File { name: Option<String> },
    /// One line of the current file, tagged with its polarity origin:
    /// `'+'` for added, `'-'` for removed, anything else for context.
    Line { origin: char, content: String },
}

/// Whether some string in `xs` reads `s`.
pub open spec fn contains_str(xs: Seq<String>, s: Seq<char>) -> bool {
    exists|i: int| 0 <= i < xs.len() && (#[trigger] xs[i])@ == s
}

/// The polarity prefix of a line: `+`, `-`, or a single space.
pub open spec fn prefix_of(origin: char) -> Seq<char> {
    if origin == '+' {
        "+"@
    } else if origin == '-' {
        "-"@
    } else {
        " "@
    }
}

/// The exclusion flag after the first `i` records: false at the start, and
/// reset at every named file boundary to whether that basename is excluded.
/// A boundary whose name could not be read leaves the flag as it was.
pub open spec fn excl_after(records: Seq<DiffRecord>, excludes: Seq<String>, i: int) -> bool
    decreases i,
{
    if i <= 0 {
        false
    } else {
        match records[i - 1] {
            DiffRecord::File { name: Some(n) } => contains_str(excludes, n@),
            _ => excl_after(records, excludes, i - 1),
        }
    }
}

/// The file that owns the record at position `i`: the basename given by the
/// most recent boundary before it, or nothing before any named boundary.
pub open spec fn owner_at(records: Seq<DiffRecord>, i: int) -> Option<Seq<char>>
    decreases i,
{
    if i <= 0 {
        None
    } else {
        match records[i - 1] {
            DiffRecord::File { name: Some(n) } => Some(n@),
            DiffRecord::File { name: None } => None,
            DiffRecord::Line { .. } => owner_at(records, i - 1),
        }
    }
}

/// What the record at position `i` adds to the output: a kept line is its
/// prefix and content; a dropped line and a boundary add nothing.
pub open spec fn emitted(records: Seq<DiffRecord>, excludes: Seq<String>, i: int) -> Seq<char> {
    match records[i] {
        DiffRecord::Line { origin, content } => {
            if excl_after(records, excludes, i) {
                Seq::<char>::empty()
            } else {
                prefix_of(origin) + content@
            }
        },
        DiffRecord::File { .. } => Seq::<char>::empty(),
    }
}

/// The filtered text of the first `n` records, in order.
pub open spec fn spec_filter(records: Seq<DiffRecord>, excludes: Seq<String>, n: int) -> Seq<char>
    decreases n,
{
    if n <= 0 {
        Seq::<char>::empty()
    } else {
        spec_filter(records, excludes, n - 1) + emitted(records, excludes, n - 1)
    }
}

/// A line owned by an excluded file is under the exclusion flag.
proof fn lemma_owner_excluded(records: Seq<DiffRecord>, excludes: Seq<String>, i: int)
    requires
        0 <= i <= records.len(),
        owner_at(records, i) matches Some(n) && contains_str(excludes, n),
    ensures
        excl_after(records, excludes, i),
    decreases i,
{
    if i > 0 {
        match records[i - 1] {
            DiffRecord::File { name } => {}
            DiffRecord::Line { .. } => {
                lemma_owner_excluded(records, excludes, i - 1);
            }
        }
    }
}

/// No output line belongs to an excluded file: a line record owned by a file
/// whose basename is excluded contributes nothing to the filtered text, over
/// the file's whole range.
pub proof fn lemma_excluded_line_emits_nothing(
    records: Seq<DiffRecord>,
    excludes: Seq<String>,
    i: int,
)
    requires
        0 <= i < records.len(),
        records[i] matches DiffRecord::Line { .. },
        owner_at(records, i) matches Some(n) && contains_str(excludes, n),
    ensures
        emitted(records, excludes, i) == Seq::<char>::empty(),
{
    lemma_owner_excluded(records, excludes, i);
}

/// Produces the filtered diff text: every line of a file whose basename is
/// in `excludes` is dropped whole; every other line is kept in order, with
/// its polarity prefix.
pub fn filter_diff(records: &Vec<DiffRecord>, excludes: &Vec<String>) -> (r: String)
    ensures
        r@ == spec_filter(records@, excludes@, records@.len() as int),
{
    let mut out = String::new();
    let mut excluded = false;
    for i in 0..records.len()
        invariant
            excluded == excl_after(records@, excludes@, i as int),
            out@ == spec_filter(records@, excludes@, i as int),
    {
        match &records[i] {
            DiffRecord::File { name } => {
                match name {
                    Some(n) => {
                        excluded = index_of_str(excludes, n.as_str()).is_some();
                        proof {
                            if excluded {
                                assert(contains_str(excludes@, n@));
                            }
                        }
                    }
                    None => {}
                }
            }
            DiffRecord::Line { origin, content } => {
                if !excluded {
                    if *origin == '+' {
                        out.append("+");
                    } else if *origin == '-' {
                        out.append("-");
                    } else {
                        out.append(" ");
                    }
                    out.append(content.as_str());
                }
            }
        }
        proof {
            assert(out@ =~= spec_filter(records@, excludes@, i + 1));
        }
    }
    out
}

} // verus!
