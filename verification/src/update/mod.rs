//! One update attempt, from the device's identity to the supervised run of
//! the new version.

use vstd::prelude::*;

pub mod archive;
pub mod attempt;
pub mod identity;
pub mod layout;
pub mod location;
pub mod manifest;
pub mod release;
pub mod retention;
pub mod settings;
pub mod status;

verus! {

/// The name of the script, in the application directory, that prints the
/// device's identifier.
pub const ID_SCRIPT: &'static str = "id.sh";

/// The name of the script, in the application directory, that runs the
/// application.
pub const RUN_SCRIPT: &'static str = "run.sh";

/// The name of the file, in the application directory, that tells which
/// version is installed.
pub const VERSION_MARKER: &'static str = ".orm_version";

/// The name of the file, in the local prefix, that lists the versions that
/// failed to start, one to a line.
pub const FAILED_VERSIONS: &'static str = ".orm_failed";

} // verus!
