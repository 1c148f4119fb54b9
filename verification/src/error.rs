//! The ways in which a download can fail.

use crate::target::Target;
use vstd::prelude::*;

verus! {

/// Why a download stopped.
#[derive(Clone, Copy, Debug, PartialEq, Eq, Structural)]
pub enum DownloadError {
    /// A request failed in transport or was answered with an error status.
    NetworkError,
    /// A selection rule is not a well-formed selector.
    ParseError,
    /// A matched element lacks its source or its title attribute.
    MissingAttribute,
    /// The source of an image has no file extension.
    MissingExtension,
    /// The category has no selection rule yet.
    Unimplemented(Target),
    /// A directory could not be created or a file could not be written.
    IoError,
    /// The source of an image cannot be resolved to an address.
    UrlError,
}

} // verus!
