//! Materialization: turning a matched record into a plan of file copies.
//!
//! A `local` record whose path is an existing directory is walked
//! recursively; every regular file of the walk becomes one copy into the
//! current working directory, under the file's base name alone. The tree is
//! flattened: two files sharing a base name in different subdirectories
//! collide, and the later copy clobbers the earlier one.
use vstd::prelude::*;

use crate::records::BoilerplateRecord;
use crate::records::SourceKind;

verus! {

/// One entry of the recursive walk of a template directory, as the walk
/// reports it: the entry's path, and whether it is a regular file.
/// Directories are traversed but never copied.
pub struct WalkEntry {
    pub path: String,
    pub is_file: bool,
}

/// One copy the materializer performs: from the full source path to a file
/// of that base name in the current working directory.
pub struct CopyOp {
    pub source: String,
    pub dest: String,
}

/// What the materializer decides for one matched record.
#[derive(Clone, Copy, PartialEq, Eq, Structural, Debug)]
pub enum RecordOutcome {
    /// The record is `remote`-typed: accepted in configuration, but
    /// unimplemented. Nothing is copied; the process goes on.
    NotImplemented,
    /// The record is `local` but its configured path is not an existing
    /// directory: a soft per-record failure. Nothing is copied.
    PathMissing,
    /// The record is `local` and its path is an existing directory: walk it
    /// and copy its files.
    Materialize,
}

/// The last path component of `s`: what follows the final `/`, or all of
/// `s` when it holds none.
pub open spec fn basename_of(s: Seq<char>) -> Seq<char>
    decreases s.len(),
{
    if s.len() == 0 {
        s
    } else if s[s.len() - 1] == '/' {
        Seq::empty()
    } else {
        basename_of(s.drop_last()).push(s[s.len() - 1])
    }
}

/// The paths of the regular files among `entries`, in walk order.
pub open spec fn file_paths(entries: Seq<WalkEntry>) -> Seq<Seq<char>>
    decreases entries.len(),
{
    if entries.len() == 0 {
        Seq::empty()
    } else if entries.last().is_file {
        file_paths(entries.drop_last()).push(entries.last().path@)
    } else {
        file_paths(entries.drop_last())
    }
}

/// Decide what to do for one matched record. Only a `local` record whose
/// path turned out to be an existing directory is materialized; the two
/// other outcomes are soft and leave the filesystem untouched.
pub fn record_outcome(record: &BoilerplateRecord, path_is_dir: bool) -> (o: RecordOutcome)
    ensures
        record.kind is Remote ==> o == RecordOutcome::NotImplemented,
        record.kind is Local && !path_is_dir ==> o == RecordOutcome::PathMissing,
        record.kind is Local && path_is_dir ==> o == RecordOutcome::Materialize,
{
    match record.kind {
        SourceKind::Remote => RecordOutcome::NotImplemented,
        SourceKind::Local => if path_is_dir {
            RecordOutcome::Materialize
        } else {
            RecordOutcome::PathMissing
        },
    }
}

/// The base name of `path`: everything after its last `/`, or all of it
/// when it holds no `/`.
pub fn basename(path: &str) -> (r: String)
    ensures
        r@ == basename_of(path@),
{
    let len = path.unicode_len();
    let mut cut: usize = 0;
    let mut i: usize = 0;
    while i < len
        invariant
            len == path@.len(),
            i <= len,
            cut <= i,
            cut > 0 ==> path@[cut - 1] == '/',
            forall|j: int| cut <= j < i ==> path@[j] != '/',
        decreases len - i,
    {
        if path.get_char(i) == '/' {
            cut = i + 1;
        }
        i = i + 1;
    }
    proof {
        lemma_basename_after_cut(path@, cut as int);
    }
    String::from_str(path.substring_char(cut, len))
}

/// After the last `/` of `s` (or from its start, when it has none), the
/// base name is exactly the remaining suffix.
proof fn lemma_basename_after_cut(s: Seq<char>, cut: int)
    requires
        0 <= cut <= s.len(),
        cut > 0 ==> s[cut - 1] == '/',
        forall|j: int| cut <= j < s.len() ==> s[j] != '/',
    ensures
        basename_of(s) == s.subrange(cut, s.len() as int),
    decreases s.len(),
{
    if s.len() == 0 {
        assert(s.subrange(0, 0) =~= s);
    } else if cut == s.len() {
        assert(s[cut - 1] == '/');
        assert(basename_of(s) =~= s.subrange(cut, s.len() as int));
    } else {
        assert(s[s.len() - 1] != '/');
        let head = s.drop_last();
        assert(forall|j: int| cut <= j < head.len() ==> head[j] == s[j]);
        lemma_basename_after_cut(head, cut);
        assert(head.subrange(cut, head.len() as int).push(s[s.len() - 1]) =~= s.subrange(
            cut,
            s.len() as int,
        ));
    }
}

/// Turn the walk of a template directory into the copy plan: one copy per
/// regular file, in walk order, each destined for the file's base name in
/// the current working directory.
pub fn plan_copies(entries: &Vec<WalkEntry>) -> (plan: Vec<CopyOp>)
    ensures
        plan@.map_values(|op: CopyOp| op.source@) == file_paths(entries@),
        forall|k: int| 0 <= k < plan@.len() ==> plan@[k].dest@ == basename_of(plan@[k].source@),
{
    let mut plan: Vec<CopyOp> = Vec::new();
    let mut i: usize = 0;
    while i < entries.len()
        invariant
            i <= entries@.len(),
            plan@.map_values(|op: CopyOp| op.source@) == file_paths(entries@.take(i as int)),
            forall|k: int|
                0 <= k < plan@.len() ==> plan@[k].dest@ == basename_of(plan@[k].source@),
        decreases entries@.len() - i,
    {
        if entries[i].is_file {
            let source = entries[i].path.clone();
            let dest = basename(entries[i].path.as_str());
            plan.push(CopyOp { source, dest });
        }
        proof {
            assert(entries@.take(i as int + 1).drop_last() =~= entries@.take(i as int));
            assert(entries@.take(i as int + 1).last() == entries@[i as int]);
            assert(plan@.map_values(|op: CopyOp| op.source@) =~= file_paths(
                entries@.take(i as int + 1),
            ));
        }
        i = i + 1;
    }
    proof {
        assert(entries@.take(entries@.len() as int) =~= entries@);
    }
    plan
}

} // verus!
