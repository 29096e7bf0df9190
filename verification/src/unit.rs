//! One unit of work: fetch, decode, name and store the image of one request.
//!
//! The unit itself touches neither the network nor the disk. It says which
//! piece of outside work is due, takes the report of how that work went,
//! and moves on: to the next piece of work, or to the outcome of the item.
//! The first piece of work that fails ends the unit with the failure of its
//! kind; nothing is tried again.

use crate::decode::decode;
use crate::error::ReddSaverError;
use crate::filter::MediaRequest;
use crate::naming::{directory, group_directory, image_path, path};
use image::DynamicImage;
use vstd::prelude::*;

verus! {

/// How far the work on one request has come.
pub enum Unit {
    /// The bytes behind the URL are to be fetched.
    Fetching { request: MediaRequest },
    /// The image is decoded; the directory of its group is to be created.
    CreatingDirectory { request: MediaRequest, image: DynamicImage },
    /// The directory exists; the image is to be written to `path`.
    Saving { image: DynamicImage, path: String },
    /// The work is over: the path of the stored image, or the failure.
    Finished { outcome: Result<String, ReddSaverError> },
}

/// The piece of outside work that a unit is waiting for.
pub enum Command<'a> {
    /// Retrieve the bytes behind `url`.
    Fetch { url: &'a str },
    /// Create `directory` with all the directories above it that are missing.
    CreateDirectory { directory: String },
    /// Encode `image` in the format that the extension of `path` names and
    /// write it to `path`, over a file that is already there.
    Save { image: &'a DynamicImage, path: &'a str },
    /// Nothing is left to do.
    Finish { outcome: &'a Result<String, ReddSaverError> },
}

/// The report of how a piece of outside work went.
pub enum Event {
    /// The fetch is over: the bytes, or `None` where they could not be had.
    Fetched(Option<Vec<u8>>),
    /// The directory was asked for; `true` where it now exists.
    DirectoryCreated(bool),
    /// The image was written; `true` where the file now holds it.
    ImageSaved(bool),
}

/// The directory in which the image of `request` is stored.
pub open spec fn target_directory(request: MediaRequest) -> Seq<char> {
    directory(request.subreddit@)
}

/// The path at which the image of `request` is stored.
pub open spec fn target_path(request: MediaRequest) -> Seq<char> {
    path(request.url@, request.subreddit@, request.extension@)
}

/// A unit that ended with `error`.
pub open spec fn failed(error: ReddSaverError) -> Unit {
    Unit::Finished { outcome: Err(error) }
}

impl Unit {
    /// A unit at its start: nothing is fetched yet.
    pub fn new(request: MediaRequest) -> (unit: Unit)
        ensures
            unit == (Unit::Fetching { request }),
    {
        Unit::Fetching { request }
    }

    /// Whether the work is over.
    pub fn is_finished(&self) -> (over: bool)
        ensures
            over == (self is Finished),
    {
        match self {
            Unit::Finished { .. } => true,
            _ => false,
        }
    }

    /// The outside work that is due in this state.
    pub fn command(&self) -> (command: Command<'_>)
        ensures
            match *self {
                Unit::Fetching { request } => command matches Command::Fetch { url } && url@
                    == request.url@,
                Unit::CreatingDirectory { request, image } => command matches Command::CreateDirectory {
                    directory,
                } && directory@ == target_directory(request),
                Unit::Saving { image, path } => command matches Command::Save {
                    image: picture,
                    path: target,
                } && *picture == image && target@ == path@,
                Unit::Finished { outcome } => command matches Command::Finish { outcome: result }
                    && *result == outcome,
            },
    {
        match self {
            Unit::Fetching { request } => Command::Fetch { url: request.url.as_str() },
            Unit::CreatingDirectory { request, .. } => Command::CreateDirectory {
                directory: group_directory(request.subreddit.as_str()),
            },
            Unit::Saving { image, path } => Command::Save { image, path: path.as_str() },
            Unit::Finished { outcome } => Command::Finish { outcome },
        }
    }

    /// The state after an attempt to decode what was fetched for `request`:
    /// with an image the directory is due next, without one the unit is over.
    pub fn with_decoded(request: MediaRequest, decoded: Result<DynamicImage, ReddSaverError>) -> (unit:
        Unit)
        ensures
            decoded matches Ok(image) ==> unit == (Unit::CreatingDirectory { request, image }),
            decoded matches Err(error) ==> unit == failed(error),
    {
        match decoded {
            Ok(image) => Unit::CreatingDirectory { request, image },
            Err(error) => Unit::Finished { outcome: Err(error) },
        }
    }

    /// Takes the report of the work that was due and moves on.
    ///
    /// A report of work that was not due leaves the unit as it is.
    pub fn handle(self, event: Event) -> (next: Unit)
        ensures
            match (self, event) {
                (Unit::Fetching { request }, Event::Fetched(None)) => next == failed(
                    ReddSaverError::FetchError,
                ),
                (Unit::Fetching { request }, Event::Fetched(Some(bytes))) => {
                    ||| next matches Unit::CreatingDirectory { request: same, image } && same
                        == request
                    ||| next == failed(ReddSaverError::CouldNotCreateImageError)
                },
                (Unit::CreatingDirectory { request, image }, Event::DirectoryCreated(created)) => if created {
                    next matches Unit::Saving { image: same, path } && same == image && path@
                        == target_path(request)
                } else {
                    next == failed(ReddSaverError::CouldNotCreateDirectory)
                },
                (Unit::Saving { image, path }, Event::ImageSaved(saved)) => if saved {
                    next == (Unit::Finished { outcome: Ok(path) })
                } else {
                    next == failed(ReddSaverError::CouldNotSaveImageError)
                },
                _ => next == self,
            },
    {
        match (self, event) {
            (Unit::Fetching { request }, Event::Fetched(None)) => Unit::Finished {
                outcome: Err(ReddSaverError::FetchError),
            },
            (Unit::Fetching { request }, Event::Fetched(Some(bytes))) => Unit::with_decoded(
                request,
                decode(bytes.as_slice()),
            ),
            (Unit::CreatingDirectory { request, image }, Event::DirectoryCreated(created)) => {
                if created {
                    let path = image_path(
                        request.url.as_str(),
                        request.subreddit.as_str(),
                        request.extension.as_str(),
                    );
                    Unit::Saving { image, path }
                } else {
                    Unit::Finished { outcome: Err(ReddSaverError::CouldNotCreateDirectory) }
                }
            },
            (Unit::Saving { image, path }, Event::ImageSaved(saved)) => {
                if saved {
                    Unit::Finished { outcome: Ok(path) }
                } else {
                    Unit::Finished { outcome: Err(ReddSaverError::CouldNotSaveImageError) }
                }
            },
            (unit, _) => unit,
        }
    }
}

} // verus!
