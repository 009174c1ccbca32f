//! A local-library music player core: the playback worker's state machine,
//! the lock-free playback position it publishes, the now-playing reports it
//! pushes to the operating system, and the file-naming rules of the library
//! tools.
use vstd::prelude::*;

pub mod error;
pub mod cover_cache;
pub mod devices;
pub mod engine;
pub mod library;
pub mod media;
pub mod progress;
pub mod rename;
pub mod text;

verus! {

} // verus!
