//! The configuration model: an ordered list of boilerplate records.
//!
//! The list is loaded once, from a configuration file that travels with the
//! executable, and is immutable afterwards. Order is file order; no
//! uniqueness of `access_name` is enforced, and every record matching a
//! requested access name is processed in turn.
use vstd::prelude::*;

verus! {

/// Where a boilerplate's files live: on the local filesystem (implemented)
/// or somewhere remote (accepted in configuration, but unimplemented).
#[derive(Clone, Copy, PartialEq, Eq, Structural, Debug)]
pub enum SourceKind {
    Local,
    Remote,
}

/// One boilerplate entry of the configuration.
pub struct BoilerplateRecord {
    /// The key a user types on the command line to select this template.
    pub access_name: String,
    /// A human-readable display label.
    pub name: String,
    /// Whether the template's files are local or remote.
    pub kind: SourceKind,
    /// Filesystem path of the template's source directory; meaningful only
    /// when `kind` is `Local`.
    pub path: String,
}

} // verus!
