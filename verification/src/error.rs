//! The failures that end the processing of one saved post.

use vstd::prelude::*;

verus! {

/// Why the processing of one accepted item stopped.
#[derive(Clone, Copy, Debug, PartialEq, Eq, Structural)]
pub enum ReddSaverError {
    /// The bytes behind the URL could not be retrieved.
    FetchError,
    /// The retrieved bytes are not an image in a supported format.
    CouldNotCreateImageError,
    /// The directory of the item's group could not be created.
    CouldNotCreateDirectory,
    /// The encoded image could not be written to its path.
    CouldNotSaveImageError,
    /// The unit of work that handled the item could not be collected.
    JoinError,
}

} // verus!
