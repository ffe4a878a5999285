//! The kind of artifact a converted file becomes, and its one-byte wire tag.

use vstd::prelude::*;
use vstd::std_specs::convert::TryFromSpecImpl;

verus! {

/// Wire tag of [`OutputType::Pdf`].
pub const TAG_PDF: u8 = 0;

/// Wire tag of [`OutputType::Image`].
pub const TAG_IMAGE: u8 = 1;

/// How the pages of one file are assembled into its trusted output.
#[derive(Eq, PartialEq, Copy, Clone, Debug, Structural)]
pub enum OutputType {
    Image,
    Pdf,
}

/// The kind that a wire tag stands for, if any.
pub open spec fn kind_of_tag(tag: u8) -> Option<OutputType> {
    if tag == TAG_IMAGE {
        Some(OutputType::Image)
    } else if tag == TAG_PDF {
        Some(OutputType::Pdf)
    } else {
        None
    }
}

impl OutputType {
    /// The wire tag of this kind.
    pub open spec fn spec_tag(self) -> u8 {
        match self {
            OutputType::Image => TAG_IMAGE,
            OutputType::Pdf => TAG_PDF,
        }
    }

    /// The file extension of the trusted output, as a sequence of characters.
    pub open spec fn spec_extension(self) -> Seq<char> {
        match self {
            OutputType::Pdf => seq!['p', 'd', 'f'],
            OutputType::Image => seq!['p', 'n', 'g'],
        }
    }

    /// File extension of the trusted output: `pdf` or `png`.
    pub fn extension(self) -> (ext: &'static str)
        ensures
            ext@ == self.spec_extension(),
    {
        match self {
            OutputType::Pdf => {
                proof {
                    reveal_strlit("pdf");
                }
                assert("pdf"@ =~= seq!['p', 'd', 'f']);
                "pdf"
            },
            OutputType::Image => {
                proof {
                    reveal_strlit("png");
                }
                assert("png"@ =~= seq!['p', 'n', 'g']);
                "png"
            },
        }
    }

    /// The kind that a wire tag stands for, for a byte that is known to be
    /// one of the two tags.
    pub fn from(orig: u8) -> (kind: OutputType)
        requires
            kind_of_tag(orig) is Some,
        ensures
            kind_of_tag(orig) == Some(kind),
    {
        if orig == TAG_IMAGE {
            OutputType::Image
        } else {
            OutputType::Pdf
        }
    }

    /// The byte that announces this kind in a file header.
    pub fn tag(self) -> (tag: u8)
        ensures
            tag == self.spec_tag(),
            kind_of_tag(tag) == Some(self),
    {
        match self {
            OutputType::Image => TAG_IMAGE,
            OutputType::Pdf => TAG_PDF,
        }
    }
}

impl TryFrom<u8> for OutputType {
    type Error = &'static str;

    /// Decodes a wire tag; any byte but the two tags is an error.
    fn try_from(orig: u8) -> (r: Result<Self, Self::Error>) {
        if orig == TAG_IMAGE {
            return Ok(OutputType::Image);
        }
        if orig == TAG_PDF {
            return Ok(OutputType::Pdf);
        }
        Err("Impossible value")
    }
}

impl TryFromSpecImpl<u8> for OutputType {
    open spec fn obeys_try_from_spec() -> bool {
        true
    }

    open spec fn try_from_spec(orig: u8) -> Result<Self, Self::Error> {
        match kind_of_tag(orig) {
            Some(kind) => Ok(kind),
            None => Err("Impossible value"),
        }
    }
}

} // verus!
