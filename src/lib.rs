//! Core of a desktop media-download helper: reading progress out of the
//! downloader's log lines, planning the provisioning of the two external
//! executables, building the downloader's arguments, supervising the single
//! active job, and choosing the muxer inside its archive.

use vstd::prelude::*;

pub mod archive;
pub mod job;
pub mod progress;
pub mod setup;
pub mod stream;

verus! {

} // verus!
