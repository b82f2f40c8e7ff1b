//! The conditions under which one item of a batch fails.

use vstd::prelude::*;

verus! {

/// Why an item of a batch could not be processed. A failure is local to
/// its item: the rest of the batch goes on.
#[derive(Clone, Copy, Debug, PartialEq, Eq, Structural)]
pub enum ArchiveError {
    /// The file name does not carry a timestamp in the expected form.
    MalformedTimestamp,
    /// The media of a post could not be listed.
    MediaScanFailure,
    /// The image leaves no room for the watermark and its margins.
    ImageTooSmall,
    /// An image could not be opened, decoded or saved.
    ImageIoFailure,
    /// An output directory could not be created.
    DirectoryCreateFailure,
    /// The document of a post could not be rendered.
    RenderFailure,
}

} // verus!
