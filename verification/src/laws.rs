//! Laws of the copy plan.
//!
//! The destination directory is modelled as a map from file name to byte
//! contents; `apply_plan` says what executing a plan does to it. The two
//! laws below pin the flattening semantics down: the last copy aimed at a
//! name wins, and a template without base-name collisions round-trips every
//! file's bytes unchanged.
use vstd::prelude::*;

use crate::materialize::CopyOp;
use crate::materialize::WalkEntry;
use crate::materialize::basename_of;
use crate::materialize::file_paths;

verus! {

/// The destination directory after a plan runs: each copy, in plan order,
/// sets its destination name to the bytes its source holds.
pub open spec fn apply_plan(
    dst: Map<Seq<char>, Seq<u8>>,
    src: Map<Seq<char>, Seq<u8>>,
    plan: Seq<CopyOp>,
) -> Map<Seq<char>, Seq<u8>>
    decreases plan.len(),
{
    if plan.len() == 0 {
        dst
    } else {
        apply_plan(dst, src, plan.drop_last()).insert(
            plan.last().dest@,
            src[plan.last().source@],
        )
    }
}

/// Last write wins: after a plan runs, a destination name holds the bytes
/// of the source of the last copy aimed at it. In particular, when two
/// matched records write the same name in sequence, the later record's
/// bytes remain.
pub proof fn lemma_last_write_wins(
    dst: Map<Seq<char>, Seq<u8>>,
    src: Map<Seq<char>, Seq<u8>>,
    plan: Seq<CopyOp>,
    k: int,
)
    requires
        0 <= k < plan.len(),
        forall|j: int| k < j < plan.len() ==> plan[j].dest@ != plan[k].dest@,
    ensures
        apply_plan(dst, src, plan).contains_key(plan[k].dest@),
        apply_plan(dst, src, plan)[plan[k].dest@] == src[plan[k].source@],
    decreases plan.len(),
{
    if k < plan.len() - 1 {
        assert(forall|j: int| 0 <= j < plan.len() - 1 ==> plan.drop_last()[j] == plan[j]);
        lemma_last_write_wins(dst, src, plan.drop_last(), k);
    }
}

/// Round trip: when no two files of a walked template share a base name,
/// every file's bytes arrive unchanged in the destination directory, under
/// that file's base name.
pub proof fn lemma_round_trip(
    entries: Seq<WalkEntry>,
    plan: Seq<CopyOp>,
    dst: Map<Seq<char>, Seq<u8>>,
    src: Map<Seq<char>, Seq<u8>>,
)
    requires
        plan.map_values(|op: CopyOp| op.source@) == file_paths(entries),
        forall|k: int| 0 <= k < plan.len() ==> plan[k].dest@ == basename_of(plan[k].source@),
        forall|k1: int, k2: int|
            0 <= k1 < k2 < file_paths(entries).len() ==> basename_of(file_paths(entries)[k1])
                != basename_of(file_paths(entries)[k2]),
    ensures
        forall|k: int|
            0 <= k < file_paths(entries).len() ==> apply_plan(dst, src, plan).contains_key(
                basename_of(file_paths(entries)[k]),
            ) && apply_plan(dst, src, plan)[basename_of(file_paths(entries)[k])] == src[file_paths(
                entries,
            )[k]],
{
    let paths = file_paths(entries);
    assert(plan.map_values(|op: CopyOp| op.source@).len() == plan.len());
    assert forall|k: int|
        0 <= k < paths.len() implies apply_plan(dst, src, plan).contains_key(
        basename_of(paths[k]),
    ) && apply_plan(dst, src, plan)[basename_of(paths[k])] == src[paths[k]] by {
        assert(plan.map_values(|op: CopyOp| op.source@)[k] == plan[k].source@);
        assert(plan[k].source@ == paths[k]);
        assert forall|j: int| k < j < plan.len() implies plan[j].dest@ != plan[k].dest@ by {
            assert(plan.map_values(|op: CopyOp| op.source@)[j] == plan[j].source@);
            assert(plan[j].source@ == paths[j]);
        }
        lemma_last_write_wins(dst, src, plan, k);
    }
}

} // verus!
