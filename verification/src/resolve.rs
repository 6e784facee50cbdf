//! Resolution of an access name against the configuration.
//!
//! A record matches when its `access_name` equals the requested name exactly:
//! case-sensitive, no trimming. The scan does not stop at the first match;
//! every matching record is found, in configuration order, and each is later
//! materialized independently.
use vstd::prelude::*;

use crate::records::BoilerplateRecord;

verus! {

broadcast use vstd::seq_lib::lemma_seq_contains_after_push;

/// Find every record whose `access_name` equals `access`, returning their
/// indices in configuration order.
///
/// Zero matches is not an error here; the caller reports it to the user.
pub fn resolve(access: &String, records: &Vec<BoilerplateRecord>) -> (found: Vec<usize>)
    ensures
        forall|j: int|
            0 <= j < found@.len() ==> found@[j] < records@.len() && records@[found@[j] as int].access_name@
                == access@,
        forall|i: int|
            0 <= i < records@.len() && records@[i].access_name@ == access@ ==> found@.contains(
                i as usize,
            ),
        forall|j1: int, j2: int| 0 <= j1 < j2 < found@.len() ==> found@[j1] < found@[j2],
        found@.len() == 0 <==> (forall|i: int|
            0 <= i < records@.len() ==> records@[i].access_name@ != access@),
{
    let mut found: Vec<usize> = Vec::new();
    let mut i: usize = 0;
    while i < records.len()
        invariant
            i <= records@.len(),
            forall|j: int|
                0 <= j < found@.len() ==> found@[j] < i && records@[found@[j] as int].access_name@
                    == access@,
            forall|k: int|
                0 <= k < i && records@[k].access_name@ == access@ ==> found@.contains(k as usize),
            forall|j1: int, j2: int| 0 <= j1 < j2 < found@.len() ==> found@[j1] < found@[j2],
        decreases records@.len() - i,
    {
        if records[i].access_name == *access {
            found.push(i);
        }
        i = i + 1;
    }
    proof {
        if found@.len() > 0 {
            assert(records@[found@[0] as int].access_name@ == access@);
        }
    }
    found
}

} // verus!
