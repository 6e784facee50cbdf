//! The lines Boiler reports while materializing.
//!
//! Soft outcomes (remote record, missing path) are reported and the process
//! goes on; a failure to create or copy a destination file is fatal, and the
//! caller terminates the process with a failing status after printing the
//! message built here.
use vstd::prelude::*;

use crate::materialize::RecordOutcome;
use crate::records::BoilerplateRecord;

verus! {

/// The lines reported for one matched record once its outcome is decided:
/// one line for an unimplemented remote record, three for a missing local
/// path (naming the record and hinting at the configuration file), and the
/// opening line of a materialization.
pub fn record_report(record: &BoilerplateRecord, outcome: RecordOutcome) -> (lines: Vec<String>)
    ensures
        outcome == RecordOutcome::NotImplemented ==> lines@.len() == 1 && lines@[0]@
            == "Boiler: Not Implemented"@,
        outcome == RecordOutcome::PathMissing ==> lines@.len() == 3 && lines@[0]@
            == "Boiler: Can't find the required files for "@ + record.access_name@ + " ("@
            + record.name@ + ")"@ && lines@[1]@
            == "Boiler: Make sure the path is correct in boilers.toml"@ && lines@[2]@
            == "Boiler: Boiling Failed"@,
        outcome == RecordOutcome::Materialize ==> lines@.len() == 1 && lines@[0]@
            == "Boiler: Boilerplate path exists"@,
{
    let mut lines: Vec<String> = Vec::new();
    match outcome {
        RecordOutcome::NotImplemented => {
            lines.push(String::from_str("Boiler: Not Implemented"));
        },
        RecordOutcome::PathMissing => {
            let headline = String::from_str("Boiler: Can't find the required files for ").concat(
                record.access_name.as_str(),
            ).concat(" (").concat(record.name.as_str()).concat(")");
            lines.push(headline);
            lines.push(String::from_str("Boiler: Make sure the path is correct in boilers.toml"));
            lines.push(String::from_str("Boiler: Boiling Failed"));
        },
        RecordOutcome::Materialize => {
            lines.push(String::from_str("Boiler: Boilerplate path exists"));
        },
    }
    lines
}

/// The progress line printed before each file is created, quoting the
/// destination file name.
pub fn creating_message(file_name: &String) -> (s: String)
    ensures
        s@ == "Boiler: Creating \""@ + file_name@ + "\""@,
{
    String::from_str("Boiler: Creating \"").concat(file_name.as_str()).concat("\"")
}

/// The closing line of a record whose traversal finished without a fatal
/// error.
pub fn done_message() -> (s: String)
    ensures
        s@ == "Boiler: Boiling done"@,
{
    String::from_str("Boiler: Boiling done")
}

/// The fatal diagnostic for a destination file that could not be created;
/// the process terminates with a failing status after printing it.
pub fn create_error_message(cause: &String) -> (s: String)
    ensures
        s@ == "Boiler: Unable to create file: "@ + cause@,
{
    String::from_str("Boiler: Unable to create file: ").concat(cause.as_str())
}

/// The fatal diagnostic for source bytes that could not be copied; the
/// process terminates with a failing status after printing it.
pub fn copy_error_message(cause: &String) -> (s: String)
    ensures
        s@ == "Boiler: Unable to copy file: "@ + cause@,
{
    String::from_str("Boiler: Unable to copy file: ").concat(cause.as_str())
}

} // verus!
