//! Boiler: a command-line boilerplate scaffolder.
//!
//! Given a named template entry in a configuration file, Boiler copies a
//! directory tree of template files into the current working directory,
//! flattening the tree by base filename. This crate holds the verified core:
//! command dispatch, record resolution, and the materialization plan. The
//! surrounding binary performs the filesystem work the plan calls for.
mod dispatch;
mod laws;
mod list;
mod materialize;
mod records;
mod report;
mod resolve;

pub use dispatch::Command;
pub use dispatch::boiler_command_not_found;
pub use dispatch::boiler_version;
pub use dispatch::dispatch;
pub use laws::apply_plan;
pub use laws::lemma_last_write_wins;
pub use laws::lemma_round_trip;
pub use list::boiler_ls;
pub use materialize::CopyOp;
pub use materialize::RecordOutcome;
pub use materialize::WalkEntry;
pub use materialize::basename;
pub use materialize::basename_of;
pub use materialize::file_paths;
pub use materialize::plan_copies;
pub use materialize::record_outcome;
pub use records::BoilerplateRecord;
pub use records::SourceKind;
pub use report::copy_error_message;
pub use report::create_error_message;
pub use report::creating_message;
pub use report::done_message;
pub use report::record_report;
pub use resolve::resolve;
