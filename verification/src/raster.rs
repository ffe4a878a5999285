//! Pages as rasters: the pixels that cross from the worker to the client,
//! how the worker gets them out of an image file, and how the client turns
//! them into an image file of its own making.

use crate::error::ConvertError;
use crate::frame::{lemma_page_size_round_trip, spec_parse_page_size, PageSize};
use vstd::prelude::*;

verus! {

/// A decoded page: its size in pixels and the pixels, four bytes each, row
/// by row.
#[derive(Debug)]
pub struct RasterPage {
    pub width: u32,
    pub height: u32,
    pub pixels: Vec<u8>,
}

impl View for RasterPage {
    type V = (u32, u32, Seq<u8>);

    open spec fn view(&self) -> (u32, u32, Seq<u8>) {
        (self.width, self.height, self.pixels@)
    }
}

/// The PNG file that holds the RGBA pixels of a page of the given size, or
/// nothing where the encoder refuses them.
pub uninterp spec fn png_encoding(width: u32, height: u32, pixels: Seq<u8>) -> Option<Seq<u8>>;

/// The size and the RGBA pixels of the image that an image file holds, or
/// nothing where the file is of no format that the decoder knows, or is
/// damaged.
pub uninterp spec fn decoded_raster(encoded: Seq<u8>) -> Option<(u32, u32, Seq<u8>)>;

/// `image::write_buffer_with_format` with the colour type `Rgba8` and the
/// format `Png`, writing to memory: the PNG encoding of the pixels. The
/// encoder panics unless the buffer holds four bytes for each pixel, which
/// the precondition asks for. The contract claims that what comes out
/// depends on the size and the pixels alone.
#[verifier::external_body]
fn encode_png(width: u32, height: u32, pixels: &[u8]) -> (encoded: Option<Vec<u8>>)
    requires
        pixels@.len() == width as int * height as int * 4,
    ensures
        match png_encoding(width, height, pixels@) {
            Some(bytes) => encoded matches Some(found) && found@ == bytes,
            None => encoded is None,
        },
{
    let mut file = std::io::Cursor::new(Vec::new());
    match image::write_buffer_with_format(
        &mut file,
        pixels,
        width,
        height,
        image::ColorType::Rgba8,
        image::ImageFormat::Png,
    ) {
        Ok(()) => Some(file.into_inner()),
        Err(_) => None,
    }
}

/// `image::load_from_memory`, then `DynamicImage::into_rgba8` and the
/// buffer's `width`, `height` and `into_raw`: the image that the bytes
/// encode, as RGBA pixels. The contract claims that what comes out depends
/// on the bytes alone; it claims nothing of the number of pixels.
#[verifier::external_body]
pub(crate) fn decode_raster(encoded: &[u8]) -> (page: Option<RasterPage>)
    ensures
        match decoded_raster(encoded@) {
            Some(raster) => page matches Some(found) && found@ == raster,
            None => page is None,
        },
{
    match image::load_from_memory(encoded) {
        Ok(decoded) => {
            let rgba = decoded.into_rgba8();
            Some(RasterPage { width: rgba.width(), height: rgba.height(), pixels: rgba.into_raw() })
        },
        Err(_) => None,
    }
}

/// What the client makes of an encoder's answer: the file to store, or the
/// failure of the page.
pub open spec fn spec_stored_page(encoded: Option<Seq<u8>>) -> Result<Seq<u8>, ConvertError> {
    match encoded {
        Some(bytes) => Ok(bytes),
        None => Err(ConvertError::PageEncodingFailed),
    }
}

/// What the client stores for a page of the announced size once its
/// pixels are read: their PNG encoding. A size beyond the caps is refused
/// first, then pixels that are not as many as the size announces.
pub open spec fn spec_render_page(size: PageSize, pixels: Seq<u8>) -> Result<
    Seq<u8>,
    ConvertError,
> {
    if !size.within_caps() {
        Err(ConvertError::MaxImageSizeExceeded)
    } else if pixels.len() != size.spec_byte_len() {
        Err(ConvertError::TransportBroken)
    } else {
        spec_stored_page(png_encoding(size.width as u32, size.height as u32, pixels))
    }
}

/// Whether a result holds the bytes, or the failure, that mathematics
/// expects.
pub open spec fn same_bytes<E>(found: Result<Vec<u8>, E>, expected: Result<Seq<u8>, E>) -> bool {
    match expected {
        Ok(bytes) => found matches Ok(vector) && vector@ == bytes,
        Err(error) => found == Err::<Vec<u8>, E>(error),
    }
}

/// Takes the answer of the PNG encoder for a page: the file to store, or
/// the failure of the page where the encoder gave nothing.
pub fn stored_page(encoded: Option<Vec<u8>>) -> (stored: Result<Vec<u8>, ConvertError>)
    ensures
        same_bytes(
            stored,
            spec_stored_page(
                match encoded {
                    Some(bytes) => Some(bytes@),
                    None => None,
                },
            ),
        ),
{
    match encoded {
        Some(bytes) => Ok(bytes),
        None => Err(ConvertError::PageEncodingFailed),
    }
}

/// Turns the pixels that the worker sent for a page into the file that the
/// client stores for it. Nothing is encoded for a size beyond the caps, nor
/// for pixels that are not as many as the size announces.
pub fn render_page(size: PageSize, pixels: &[u8]) -> (stored: Result<Vec<u8>, ConvertError>)
    ensures
        same_bytes(stored, spec_render_page(size, pixels@)),
{
    if !size.is_within_caps() {
        return Err(ConvertError::MaxImageSizeExceeded);
    }
    if pixels.len() != size.byte_len() {
        return Err(ConvertError::TransportBroken);
    }
    stored_page(encode_png(size.width as u32, size.height as u32, pixels))
}

/// Why the worker cannot send a page.
#[derive(Eq, PartialEq, Copy, Clone, Debug, Structural)]
pub enum RasterError {
    /// A side of the page is longer than the wire's 16 bits can say.
    TooLarge,
    /// The pixels are not four bytes for each pixel of the page.
    Malformed,
}

/// Whether the wire can carry `page`: each side fits in 16 bits.
pub open spec fn fits_the_wire(page: (u32, u32, Seq<u8>)) -> bool {
    page.0 <= 0xffff && page.1 <= 0xffff
}

/// A page on the wire: its width and height in 16 bits each, then its
/// pixels. There is none for a page that the wire cannot carry, nor for
/// one whose pixels do not match its size.
pub open spec fn spec_page_record(page: (u32, u32, Seq<u8>)) -> Result<Seq<u8>, RasterError> {
    if !fits_the_wire(page) {
        Err(RasterError::TooLarge)
    } else if page.2.len() != page.0 as int * page.1 as int * 4 {
        Err(RasterError::Malformed)
    } else {
        Ok(PageSize { width: page.0 as u16, height: page.1 as u16 }.wire() + page.2)
    }
}

/// Frames a page for the wire.
pub fn page_record(page: &RasterPage) -> (record: Result<Vec<u8>, RasterError>)
    ensures
        same_bytes(record, spec_page_record(page@)),
{
    if page.width > 0xffff || page.height > 0xffff {
        return Err(RasterError::TooLarge);
    }
    let width: u64 = page.width as u64;
    let height: u64 = page.height as u64;
    assert(width * height * 4 <= 0xffff * 0xffff * 4) by (nonlinear_arith)
        requires
            width <= 0xffff,
            height <= 0xffff,
    ;
    if page.pixels.len() as u64 != width * height * 4 {
        return Err(RasterError::Malformed);
    }
    let size = PageSize { width: page.width as u16, height: page.height as u16 };
    let mut record = size.encode();
    let mut i: usize = 0;
    while i < page.pixels.len()
        invariant
            i <= page.pixels.len(),
            record@ == size.wire() + page.pixels@.take(i as int),
        decreases page.pixels.len() - i,
    {
        record.push(page.pixels[i]);
        i = i + 1;
        assert(page.pixels@.take(i as int) =~= page.pixels@.take(i - 1).push(
            page.pixels@[i - 1],
        ));
        assert(record@ =~= size.wire() + page.pixels@.take(i as int));
    }
    assert(page.pixels@.take(i as int) =~= page.pixels@);
    Ok(record)
}

/// A page within the client's caps is read back by the client as the
/// worker framed it: the header gives its size, and the pixels that follow
/// are as many as the header announces.
pub proof fn lemma_page_record_is_read_back(page: (u32, u32, Seq<u8>))
    requires
        spec_page_record(page) is Ok,
        page.0 <= crate::frame::MAX_IMG_WIDTH,
        page.1 <= crate::frame::MAX_IMG_HEIGHT,
    ensures
        ({
            let record = spec_page_record(page).unwrap();
            let size = PageSize { width: page.0 as u16, height: page.1 as u16 };
            &&& spec_parse_page_size(record.take(4)) == Ok::<PageSize, ConvertError>(size)
            &&& record.skip(4) == page.2
            &&& page.2.len() == size.spec_byte_len()
        }),
{
    let record = spec_page_record(page).unwrap();
    let size = PageSize { width: page.0 as u16, height: page.1 as u16 };
    assert(size.spec_byte_len() <= 400_000_000) by (nonlinear_arith)
        requires
            size.width <= 10_000,
            size.height <= 10_000,
            size.spec_byte_len() == size.width as int * size.height as int * 4,
    ;
    lemma_page_size_round_trip(size);
    assert(record.take(4) =~= size.wire());
    assert(record.skip(4) =~= page.2);
}

} // verus!
