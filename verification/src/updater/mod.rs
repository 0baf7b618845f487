//! Updates: looking for a newer release, checking what was downloaded, and
//! installing it.
pub mod apply;
pub mod backend;
pub mod error;
pub mod github;
pub mod scheduler;
pub mod status;
pub mod verify;
