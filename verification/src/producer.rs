//! The worker's side of a file: what kind of input it is, and how an image
//! becomes the reply that the client expects.

use crate::frame::FileHeader;
use crate::output_type::OutputType;
use crate::raster::{
    decode_raster, decoded_raster, page_record, spec_page_record, RasterError, RasterPage,
};
use vstd::prelude::*;
use vstd::string::StringExecFns;

verus! {

/// What a file is taken for, by what its first bytes show.
#[derive(Eq, PartialEq, Copy, Clone, Debug, Structural)]
pub enum InputKind {
    /// A picture: sent as one page, and returned as a picture.
    Image,
    /// A PDF document: split into pages.
    Pdf,
    /// Anything else: handed to the office suite, which makes a PDF of it.
    Office,
    /// Sound, which cannot be converted.
    Audio,
    /// Film, which cannot be converted.
    Video,
}

/// Why the worker gives up.
#[derive(Eq, PartialEq, Copy, Clone, Debug, Structural)]
pub enum ProducerError {
    /// The name of the file's media type is no media type.
    UnknownMediaType,
    /// The file is sound.
    AudioNotSupported,
    /// The file is film.
    VideoNotSupported,
    /// An image is of no format that can be read, even once converted.
    UnreadableImage,
    /// A page cannot be framed for the wire.
    Raster { cause: RasterError },
    /// A document has more pages than the wire's 16 bits can say.
    TooManyPages,
    /// The tool that draws a page of a PDF reported failure.
    RasterizerFailed,
    /// The office suite could not convert a document that it had decrypted.
    ConversionFailed,
    /// A helper could not be started or a file could not be moved.
    Helper,
}

impl ProducerError {
    /// The text with which the worker ends.
    pub open spec fn spec_message(self) -> Seq<char> {
        match self {
            ProducerError::UnknownMediaType => "Incorrect detection of mimetype"@,
            ProducerError::AudioNotSupported => "Audio convert not implemented"@,
            ProducerError::VideoNotSupported => "Video convert not implemented"@,
            ProducerError::UnreadableImage => "Unable to read the image"@,
            ProducerError::Raster { cause } => match cause {
                RasterError::TooLarge => "Image too large to be sent"@,
                RasterError::Malformed => "Image data do not match the image size"@,
            },
            ProducerError::TooManyPages => "Too many pages to be sent"@,
            ProducerError::RasterizerFailed => "pdftocairo process failed"@,
            ProducerError::ConversionFailed => "Conversion should have succeeded ! Abording"@,
            ProducerError::Helper => "process execution unsuccessfull"@,
        }
    }

    /// The text with which the worker ends.
    pub fn message(self) -> (text: String)
        ensures
            text@ == self.spec_message(),
    {
        match self {
            ProducerError::UnknownMediaType => String::from_str("Incorrect detection of mimetype"),
            ProducerError::AudioNotSupported => String::from_str("Audio convert not implemented"),
            ProducerError::VideoNotSupported => String::from_str("Video convert not implemented"),
            ProducerError::UnreadableImage => String::from_str("Unable to read the image"),
            ProducerError::Raster { cause } => match cause {
                RasterError::TooLarge => String::from_str("Image too large to be sent"),
                RasterError::Malformed => String::from_str(
                    "Image data do not match the image size",
                ),
            },
            ProducerError::TooManyPages => String::from_str("Too many pages to be sent"),
            ProducerError::RasterizerFailed => String::from_str("pdftocairo process failed"),
            ProducerError::ConversionFailed => String::from_str(
                "Conversion should have succeeded ! Abording",
            ),
            ProducerError::Helper => String::from_str("process execution unsuccessfull"),
        }
    }
}

/// The type and the subtype that the name of a media type holds, in lower
/// case, or nothing where the text is no such name.
pub uninterp spec fn media_type_parts(name: Seq<char>) -> Option<(Seq<char>, Seq<char>)>;

/// `<mime::Mime as FromStr>::from_str`, then `Mime::type_` and
/// `Mime::subtype` with `Name::as_str`: the two halves of a media type's
/// name, which the parser puts in lower case. The contract claims that they
/// depend on the text alone.
#[verifier::external_body]
fn parse_media_type(name: &str) -> (parts: Option<(String, String)>)
    ensures
        match media_type_parts(name@) {
            Some((kind, subkind)) => parts matches Some(found) && found.0@ == kind && found.1@
                == subkind,
            None => parts is None,
        },
{
    match name.parse::<mime::Mime>() {
        Ok(parsed) => Some(
            (parsed.type_().as_str().to_string(), parsed.subtype().as_str().to_string()),
        ),
        Err(_) => None,
    }
}

/// What a file of the given media type is taken for. Sound and film come
/// first, then pictures; of the rest, what is a PDF by its subtype; all
/// else goes to the office suite.
pub open spec fn spec_classify(kind: Seq<char>, subkind: Seq<char>) -> InputKind {
    if kind == "audio"@ {
        InputKind::Audio
    } else if kind == "video"@ {
        InputKind::Video
    } else if kind == "image"@ {
        InputKind::Image
    } else if subkind == "pdf"@ {
        InputKind::Pdf
    } else {
        InputKind::Office
    }
}

fn same_text(left: &str, right: &str) -> (same: bool)
    ensures
        same == (left@ == right@),
{
    String::from_str(left) == String::from_str(right)
}

/// What a file is taken for, given the two halves of its media type's
/// name.
pub fn classify_parts(kind: &str, subkind: &str) -> (input: InputKind)
    ensures
        input == spec_classify(kind@, subkind@),
{
    if same_text(kind, "audio") {
        InputKind::Audio
    } else if same_text(kind, "video") {
        InputKind::Video
    } else if same_text(kind, "image") {
        InputKind::Image
    } else if same_text(subkind, "pdf") {
        InputKind::Pdf
    } else {
        InputKind::Office
    }
}

/// What a file is taken for, given the name of its media type as the
/// sniffer found it. A text that is no media type's name is an error.
pub fn classify(media_type: &str) -> (input: Result<InputKind, ProducerError>)
    ensures
        input == match media_type_parts(media_type@) {
            Some((kind, subkind)) => Ok::<InputKind, ProducerError>(spec_classify(kind, subkind)),
            None => Err(ProducerError::UnknownMediaType),
        },
{
    match parse_media_type(media_type) {
        Some((kind, subkind)) => Ok(classify_parts(kind.as_str(), subkind.as_str())),
        None => Err(ProducerError::UnknownMediaType),
    }
}

/// Which branch converts an input, or why none does.
pub fn branch_of(input: InputKind) -> (branch: Result<InputKind, ProducerError>)
    ensures
        branch == match input {
            InputKind::Audio => Err::<InputKind, ProducerError>(ProducerError::AudioNotSupported),
            InputKind::Video => Err(ProducerError::VideoNotSupported),
            other => Ok(other),
        },
{
    match input {
        InputKind::Audio => Err(ProducerError::AudioNotSupported),
        InputKind::Video => Err(ProducerError::VideoNotSupported),
        other => Ok(other),
    }
}

/// What to do with an image once the decoder has looked at it.
#[derive(Debug)]
pub enum ImageStep {
    /// Write these bytes to the client: the page, framed.
    Send { record: Vec<u8> },
    /// Have the image converted to PNG by the general converter, and look
    /// at the result.
    Convert,
    /// Give up.
    Fail { error: ProducerError },
}

/// An [`ImageStep`] as mathematics sees it.
pub ghost enum ImageStepView {
    Send { record: Seq<u8> },
    Convert,
    Fail { error: ProducerError },
}

impl View for ImageStep {
    type V = ImageStepView;

    open spec fn view(&self) -> ImageStepView {
        match *self {
            ImageStep::Send { record } => ImageStepView::Send { record: record@ },
            ImageStep::Convert => ImageStepView::Convert,
            ImageStep::Fail { error } => ImageStepView::Fail { error },
        }
    }
}

/// What to do with an image, given what the decoder made of it and whether
/// the image has been through the general converter already: a decoded
/// page is framed and sent; an image that cannot be decoded is converted
/// once, and given up if the result cannot be decoded either.
pub open spec fn spec_image_step(decoded: Option<(u32, u32, Seq<u8>)>, converted: bool)
    -> ImageStepView {
    match decoded {
        Some(page) => match spec_page_record(page) {
            Ok(record) => ImageStepView::Send { record },
            Err(cause) => ImageStepView::Fail { error: ProducerError::Raster { cause } },
        },
        None => if converted {
            ImageStepView::Fail { error: ProducerError::UnreadableImage }
        } else {
            ImageStepView::Convert
        },
    }
}

/// Decides what to do with an image, given what the decoder made of it.
pub fn image_step(decoded: Option<RasterPage>, converted: bool) -> (step: ImageStep)
    ensures
        step@ == spec_image_step(
            match decoded {
                Some(page) => Some(page@),
                None => None,
            },
            converted,
        ),
{
    match decoded {
        Some(page) => match page_record(&page) {
            Ok(record) => ImageStep::Send { record },
            Err(cause) => ImageStep::Fail { error: ProducerError::Raster { cause } },
        },
        None => if converted {
            ImageStep::Fail { error: ProducerError::UnreadableImage }
        } else {
            ImageStep::Convert
        },
    }
}

/// Looks at the bytes of an image file and decides what to do with it.
/// `converted` says whether the bytes come from the general converter.
pub fn send_image(encoded: &[u8], converted: bool) -> (step: ImageStep)
    ensures
        step@ == spec_image_step(decoded_raster(encoded@), converted),
{
    image_step(decode_raster(encoded), converted)
}

/// The header of the reply for an image: one page, to be returned as an
/// image.
pub fn image_header() -> (bytes: Vec<u8>)
    ensures
        bytes@ == (FileHeader { number_pages: 1, output_type: OutputType::Image }).wire(),
        (FileHeader { number_pages: 1, output_type: OutputType::Image }).acceptable(),
{
    FileHeader { number_pages: 1, output_type: OutputType::Image }.encode()
}

/// The header of the reply for a document of `pages` pages, or the reason
/// why there is none: the wire counts pages in 16 bits.
pub fn document_header(pages: usize) -> (bytes: Result<Vec<u8>, ProducerError>)
    ensures
        match bytes {
            Ok(found) => pages <= 0xffff && found@ == (FileHeader {
                number_pages: pages as u16,
                output_type: OutputType::Pdf,
            }).wire(),
            Err(error) => pages > 0xffff && error == ProducerError::TooManyPages,
        },
{
    if pages > 0xffff {
        Err(ProducerError::TooManyPages)
    } else {
        Ok(FileHeader { number_pages: pages as u16, output_type: OutputType::Pdf }.encode())
    }
}

} // verus!
