//! Session logic for comparing two directory-size snapshots: the version
//! label shown to users, the error taxonomy surfaced to callers, the diff
//! request that builds the older snapshot before the newer one, the diff
//! session that holds at most one computed diff and its view cursor, and the
//! command that reveals a file in the platform's file manager.

pub mod error;
pub mod explorer;
pub mod request;
pub mod session;
pub mod version;

pub use error::{Error, ErrorKind};
pub use explorer::{exit_status_error, explorer_launch, Launch, Platform};
pub use request::{BuildStep, BuiltPair, DiffRequest, LoadingMsg};
pub use session::{diff, get_diff_nodes, get_diff_root_nodes, get_diffing_files, BuiltDiff, Cursor, DiffState};
pub use version::get_app_version;
