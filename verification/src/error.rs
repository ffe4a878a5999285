//! What can go wrong on the trusted side, and how each failure is reported.

use vstd::prelude::*;
use vstd::string::StringExecFns;

verus! {

/// A failure met while one file is converted.
#[derive(Eq, PartialEq, Copy, Clone, Debug, Structural)]
pub enum ConvertError {
    /// The worker's stream ended, or a read from it came back short.
    TransportBroken,
    /// The worker announced more pages than the page cap allows.
    MaxPagesExceeded,
    /// The worker announced a page larger than the raster caps allow.
    MaxImageSizeExceeded,
    /// The output kind byte of a file header is neither of the two tags.
    ImpossibleOutputType,
    /// An image output was announced with a page count other than one.
    ImageNotOnePage,
    /// A page could not be stored, or its encoder could not be started or
    /// ended badly.
    PageEncodingFailed,
    /// The tool that merges the per-page documents reported failure.
    MergeFailed,
    /// The trusted output could not be written, or the source could not be
    /// archived or removed.
    Filesystem,
}

impl ConvertError {
    /// Whether the failure leaves the worker's stream in an unknown position,
    /// so that no later file of the session can be converted.
    pub open spec fn spec_is_fatal(self) -> bool {
        match self {
            ConvertError::PageEncodingFailed => false,
            ConvertError::MergeFailed => false,
            ConvertError::Filesystem => false,
            _ => true,
        }
    }

    /// The text shown to the user for this failure.
    pub open spec fn spec_message(self) -> Seq<char> {
        match self {
            ConvertError::TransportBroken => "Connection with the conversion server lost"@,
            ConvertError::MaxPagesExceeded => "Max page number exceeded: Probably DOS attempt"@,
            ConvertError::MaxImageSizeExceeded => "Max image size exceeded: Probably DOS attempt"@,
            ConvertError::ImpossibleOutputType => "Impossible value"@,
            ConvertError::ImageNotOnePage => "Image can only be 1 page. Abording."@,
            ConvertError::PageEncodingFailed => "Unable to convert a page received from the server"@,
            ConvertError::MergeFailed => "pdftk failed. Probable cause is 'out of space'. Check with 'df -h'"@,
            ConvertError::Filesystem => "Unable to write the converted file or to archive the source"@,
        }
    }

    /// Whether the session must end with this failure.
    pub fn is_fatal(self) -> (fatal: bool)
        ensures
            fatal == self.spec_is_fatal(),
    {
        match self {
            ConvertError::PageEncodingFailed => false,
            ConvertError::MergeFailed => false,
            ConvertError::Filesystem => false,
            _ => true,
        }
    }

    /// The text shown to the user for this failure.
    pub fn message(self) -> (text: String)
        ensures
            text@ == self.spec_message(),
    {
        match self {
            ConvertError::TransportBroken => String::from_str(
                "Connection with the conversion server lost",
            ),
            ConvertError::MaxPagesExceeded => String::from_str(
                "Max page number exceeded: Probably DOS attempt",
            ),
            ConvertError::MaxImageSizeExceeded => String::from_str(
                "Max image size exceeded: Probably DOS attempt",
            ),
            ConvertError::ImpossibleOutputType => String::from_str("Impossible value"),
            ConvertError::ImageNotOnePage => String::from_str(
                "Image can only be 1 page. Abording.",
            ),
            ConvertError::PageEncodingFailed => String::from_str(
                "Unable to convert a page received from the server",
            ),
            ConvertError::MergeFailed => String::from_str(
                "pdftk failed. Probable cause is 'out of space'. Check with 'df -h'",
            ),
            ConvertError::Filesystem => String::from_str(
                "Unable to write the converted file or to archive the source",
            ),
        }
    }
}

} // verus!
