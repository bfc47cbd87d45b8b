//! Console ROM organizer library: classifies ROM files by platform
//! (extension table, directory layout, or binary fingerprints inside
//! optical-disc images) and verifies or identifies files against a
//! reference catalog of known titles (name, size, SHA-1 digest).

pub mod fingerprint;
pub mod text;
pub mod console;
pub mod paths;
pub mod classify;
pub mod digest;
pub mod xml;
pub mod catalog;
pub mod verify;
pub mod organize;
