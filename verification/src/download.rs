//! The artifact fetch tool, abstracted behind a trait.
//!
//! The fetch policy's whole point is *which* of the two fetch paths is taken,
//! so the ghost event log distinguishes them: an unconditional fetch and a
//! conditional, only-if-newer refresh are different events.

use vstd::prelude::*;

verus! {

/// The ghost log of fetch tool calls.
pub type DownloadEventLog = Seq<DownloadOp>;

/// One call into the fetch tool, with its outcome.
pub enum DownloadOp {
    /// An unconditional fetch: url, destination, success.
    Fetch(Seq<char>, Seq<char>, bool),
    /// A conditional fetch, taken only when the remote file is newer:
    /// url, destination, success.
    FetchIfNewer(Seq<char>, Seq<char>, bool),
}

/// Fetch tool access.
pub trait DownloadHelper {
    /// The calls made through this helper so far, oldest first.
    spec fn events(&self) -> Seq<DownloadOp>;

    /// Download a file; true on success.
    fn download(&mut self, url: &str, output_filename: &str) -> (r: bool)
        ensures
            final(self).events() == old(self).events().push(
                DownloadOp::Fetch(url@, output_filename@, r),
            ),
    ;

    /// Download a file only if the remote copy is newer; true on success.
    fn download_if_update(&mut self, url: &str, output_filename: &str) -> (r: bool)
        ensures
            final(self).events() == old(self).events().push(
                DownloadOp::FetchIfNewer(url@, output_filename@, r),
            ),
    ;
}

} // verus!
