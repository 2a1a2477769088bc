use vstd::prelude::*;

verus! {

/// The kinds of failure the library reports.
#[derive(Clone, Debug, PartialEq, Eq)]
pub enum HdrError {
    /// The folder to watch is missing or is not a directory.
    InvalidFolder,
    /// A watch was started before a folder was configured.
    NotConfigured,
    /// A watch was started while one is already active.
    AlreadyWatching,
    /// The operating system refused to register the watch.
    WatchSetup(String),
    /// Shared state could not be locked.
    Lock,
    /// An analysis was asked for on no images.
    NoInput,
    /// A merge was asked for on fewer than two or more than five images.
    InvalidArgument,
    /// A source image could not be read or decoded.
    Decode(String),
    /// The images of a merge differ in width or height.
    DimensionMismatch,
    /// No output directory could be derived or created.
    PathError,
    /// An output image could not be encoded or written.
    Encode(String),
}

} // verus!
