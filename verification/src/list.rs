//! The listing output: one header line, then one entry per record.
use vstd::prelude::*;

use crate::records::BoilerplateRecord;

verus! {

/// Render the listing: a header, then for each record, in configuration
/// order, one entry holding its access name and its display label. Each
/// entry is a single string printed as a pair of lines: the access name
/// indented by four spaces, then the label on its own tab-indented line.
pub fn boiler_ls(records: &Vec<BoilerplateRecord>) -> (lines: Vec<String>)
    ensures
        lines@.len() == records@.len() + 1,
        lines@[0]@ == "The available boilerplates are:"@,
        forall|i: int|
            0 <= i < records@.len() ==> lines@[i + 1]@ == "    "@ + records@[i].access_name@
                + "\n\t"@ + records@[i].name@,
{
    let mut lines: Vec<String> = Vec::new();
    lines.push(String::from_str("The available boilerplates are:"));
    let mut i: usize = 0;
    while i < records.len()
        invariant
            i <= records@.len(),
            lines@.len() == i + 1,
            lines@[0]@ == "The available boilerplates are:"@,
            forall|k: int|
                0 <= k < i ==> lines@[k + 1]@ == "    "@ + records@[k].access_name@ + "\n\t"@
                    + records@[k].name@,
        decreases records@.len() - i,
    {
        let entry = String::from_str("    ").concat(records[i].access_name.as_str()).concat(
            "\n\t",
        ).concat(records[i].name.as_str());
        lines.push(entry);
        i = i + 1;
    }
    lines
}

} // verus!
