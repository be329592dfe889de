//! Self-update of the deno executable: which release to install, where its
//! archive lives, how redirects are followed, how the archive is unpacked,
//! how the new executable is judged, and how it replaces the running one.
//! The caller performs the network, process and filesystem work that these
//! decisions name.

pub mod download;
pub mod error;
pub mod locate;
pub mod plan;
pub mod resolve;
pub mod tag;
pub mod unpack;
pub mod verify_exe;
pub mod version;
