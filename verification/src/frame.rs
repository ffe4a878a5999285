//! The binary reply stream of the worker: fixed-width little-endian headers
//! in front of explicitly sized payloads, and the caps that every announced
//! number must meet before anything is allocated for it.

use crate::error::ConvertError;
use crate::output_type::{kind_of_tag, OutputType};
use vstd::prelude::*;

verus! {

/// Most pages a single file may announce.
pub const MAX_PAGES: u16 = 10_000;

/// Widest page accepted, in pixels.
pub const MAX_IMG_WIDTH: usize = 10_000;

/// Tallest page accepted, in pixels.
pub const MAX_IMG_HEIGHT: usize = 10_000;

/// Most bytes a single page may hold.
pub const MAX_IMG_SIZE: usize = 400_000_000;

/// Bytes per pixel: red, green, blue, alpha.
pub const BYTES_PER_PIXEL: usize = 4;

/// Bit depth of every colour channel of a pixel.
pub const IMG_DEPTH: u8 = 8;

/// Length of a file header on the wire.
pub const FILE_HEADER_LEN: usize = 3;

/// Length of the header in front of each page's pixels.
pub const PAGE_HEADER_LEN: usize = 4;

/// The number that two bytes stand for, least significant byte first.
pub open spec fn le16(lo: u8, hi: u8) -> int {
    lo as int + 256 * (hi as int)
}

/// The two bytes that stand for `value`, least significant first.
pub open spec fn le16_bytes(value: u16) -> Seq<u8> {
    seq![(value % 256) as u8, (value / 256) as u8]
}

/// What the worker announces before the pages of one file.
#[derive(Eq, PartialEq, Copy, Clone, Debug, Structural)]
pub struct FileHeader {
    pub number_pages: u16,
    pub output_type: OutputType,
}

/// What the worker announces before the pixels of one page.
#[derive(Eq, PartialEq, Copy, Clone, Debug, Structural)]
pub struct PageSize {
    pub width: u16,
    pub height: u16,
}

impl PageSize {
    /// Number of bytes of RGBA pixels that a page of this size holds.
    pub open spec fn spec_byte_len(self) -> int {
        self.width as int * self.height as int * 4
    }

    /// Whether the size is within the raster caps.
    pub open spec fn within_caps(self) -> bool {
        &&& self.height as int <= MAX_IMG_HEIGHT as int
        &&& self.width as int <= MAX_IMG_WIDTH as int
        &&& self.spec_byte_len() <= MAX_IMG_SIZE as int
    }

    /// The bytes that announce this size on the wire.
    pub open spec fn wire(self) -> Seq<u8> {
        le16_bytes(self.width) + le16_bytes(self.height)
    }

    /// Whether the size is within the raster caps.
    pub fn is_within_caps(&self) -> (ok: bool)
        ensures
            ok == self.within_caps(),
    {
        let width: usize = self.width as usize;
        let height: usize = self.height as usize;
        if height > MAX_IMG_HEIGHT || width > MAX_IMG_WIDTH {
            return false;
        }
        assert(width * height * 4 <= 400_000_000) by (nonlinear_arith)
            requires
                width <= 10_000,
                height <= 10_000,
        ;
        width * height * BYTES_PER_PIXEL <= MAX_IMG_SIZE
    }

    /// Number of bytes of pixels that follow this header.
    pub fn byte_len(&self) -> (len: usize)
        requires
            self.within_caps(),
        ensures
            len as int == self.spec_byte_len(),
            len <= MAX_IMG_SIZE,
    {
        let width: usize = self.width as usize;
        let height: usize = self.height as usize;
        assert(width * height <= 100_000_000) by (nonlinear_arith)
            requires
                width <= 10_000,
                height <= 10_000,
        ;
        width * height * BYTES_PER_PIXEL
    }

    /// The four bytes that announce this size.
    pub fn encode(&self) -> (bytes: Vec<u8>)
        ensures
            bytes@ == self.wire(),
    {
        let mut bytes: Vec<u8> = Vec::new();
        bytes.push((self.width % 256) as u8);
        bytes.push((self.width / 256) as u8);
        bytes.push((self.height % 256) as u8);
        bytes.push((self.height / 256) as u8);
        assert(bytes@ =~= self.wire());
        bytes
    }
}

impl FileHeader {
    /// Whether the header is one that a client accepts.
    pub open spec fn acceptable(self) -> bool {
        &&& self.number_pages <= MAX_PAGES
        &&& (self.output_type == OutputType::Image ==> self.number_pages == 1)
    }

    /// The bytes that announce this header on the wire.
    pub open spec fn wire(self) -> Seq<u8> {
        le16_bytes(self.number_pages).push(self.output_type.spec_tag())
    }

    /// The three bytes that announce this header.
    pub fn encode(&self) -> (bytes: Vec<u8>)
        ensures
            bytes@ == self.wire(),
    {
        let mut bytes: Vec<u8> = Vec::new();
        bytes.push((self.number_pages % 256) as u8);
        bytes.push((self.number_pages / 256) as u8);
        bytes.push(self.output_type.tag());
        assert(bytes@ =~= self.wire());
        bytes
    }
}

/// What a client makes of the bytes read where a file header is due.
pub open spec fn spec_parse_file_header(bytes: Seq<u8>) -> Result<FileHeader, ConvertError> {
    if bytes.len() != FILE_HEADER_LEN as nat {
        Err(ConvertError::TransportBroken)
    } else if le16(bytes[0], bytes[1]) > MAX_PAGES as int {
        Err(ConvertError::MaxPagesExceeded)
    } else {
        match kind_of_tag(bytes[2]) {
            None => Err(ConvertError::ImpossibleOutputType),
            Some(kind) => if kind == OutputType::Image && le16(bytes[0], bytes[1]) != 1 {
                Err(ConvertError::ImageNotOnePage)
            } else {
                Ok(FileHeader { number_pages: le16(bytes[0], bytes[1]) as u16, output_type: kind })
            },
        }
    }
}

/// What a client makes of the bytes read where a page header is due.
pub open spec fn spec_parse_page_size(bytes: Seq<u8>) -> Result<PageSize, ConvertError> {
    if bytes.len() != PAGE_HEADER_LEN as nat {
        Err(ConvertError::TransportBroken)
    } else {
        let size = PageSize {
            width: le16(bytes[0], bytes[1]) as u16,
            height: le16(bytes[2], bytes[3]) as u16,
        };
        if size.within_caps() {
            Ok(size)
        } else {
            Err(ConvertError::MaxImageSizeExceeded)
        }
    }
}

/// Reads a 16-bit number from two bytes, least significant first.
pub fn u16_from_le(lo: u8, hi: u8) -> (value: u16)
    ensures
        value as int == le16(lo, hi),
        le16_bytes(value) == seq![lo, hi],
{
    let value: u16 = lo as u16 + 256 * (hi as u16);
    assert(le16_bytes(value) =~= seq![lo, hi]);
    value
}

/// Decodes and checks the header that opens the reply for one file.
///
/// A page count above the cap is refused before the output kind is looked
/// at; an image that does not have exactly one page is refused last.
pub fn parse_file_header(bytes: &[u8]) -> (parsed: Result<FileHeader, ConvertError>)
    ensures
        parsed == spec_parse_file_header(bytes@),
        parsed matches Ok(header) ==> header.acceptable() && header.wire() == bytes@,
{
    if bytes.len() != FILE_HEADER_LEN {
        return Err(ConvertError::TransportBroken);
    }
    let number_pages: u16 = u16_from_le(bytes[0], bytes[1]);
    if number_pages > MAX_PAGES {
        return Err(ConvertError::MaxPagesExceeded);
    }
    let output_type = match OutputType::try_from(bytes[2]) {
        Ok(kind) => kind,
        Err(_) => {
            return Err(ConvertError::ImpossibleOutputType);
        },
    };
    if output_type == OutputType::Image && number_pages != 1 {
        return Err(ConvertError::ImageNotOnePage);
    }
    let header = FileHeader { number_pages, output_type };
    assert(header.wire() =~= bytes@);
    Ok(header)
}

/// Decodes and checks the header that opens one page.
pub fn parse_page_size(bytes: &[u8]) -> (parsed: Result<PageSize, ConvertError>)
    ensures
        parsed == spec_parse_page_size(bytes@),
        parsed matches Ok(size) ==> size.within_caps() && size.wire() == bytes@,
{
    if bytes.len() != PAGE_HEADER_LEN {
        return Err(ConvertError::TransportBroken);
    }
    let size = PageSize {
        width: u16_from_le(bytes[0], bytes[1]),
        height: u16_from_le(bytes[2], bytes[3]),
    };
    if !size.is_within_caps() {
        return Err(ConvertError::MaxImageSizeExceeded);
    }
    assert(size.wire() =~= bytes@);
    Ok(size)
}

/// A header that a client accepts is read back from its own bytes.
pub proof fn lemma_file_header_round_trip(header: FileHeader)
    requires
        header.acceptable(),
    ensures
        spec_parse_file_header(header.wire()) == Ok::<FileHeader, ConvertError>(header),
{
    let bytes = header.wire();
    assert(bytes.len() == 3);
    assert(le16(bytes[0], bytes[1]) == header.number_pages as int);
}

/// A page size within the caps is read back from its own bytes.
pub proof fn lemma_page_size_round_trip(size: PageSize)
    requires
        size.within_caps(),
    ensures
        spec_parse_page_size(size.wire()) == Ok::<PageSize, ConvertError>(size),
{
    let bytes = size.wire();
    assert(bytes.len() == 4);
    assert(le16(bytes[0], bytes[1]) == size.width as int);
    assert(le16(bytes[2], bytes[3]) == size.height as int);
}

/// Whatever the worker announces, a page that is accepted never asks for
/// more bytes than the raster cap.
pub proof fn lemma_accepted_page_is_capped(bytes: Seq<u8>)
    ensures
        spec_parse_page_size(bytes) matches Ok(size) ==> size.spec_byte_len() <= MAX_IMG_SIZE,
{
}

/// Whatever the worker announces, the pages of an accepted file never hold
/// more bytes together than the page cap times the raster cap.
pub proof fn lemma_accepted_file_is_capped(header: Seq<u8>, sizes: Seq<Seq<u8>>)
    requires
        spec_parse_file_header(header) is Ok,
        sizes.len() == spec_parse_file_header(header).unwrap().number_pages,
        forall|i: int| 0 <= i < sizes.len() ==> (#[trigger] spec_parse_page_size(sizes[i])) is Ok,
    ensures
        total_byte_len(sizes) <= MAX_PAGES as int * MAX_IMG_SIZE as int,
{
    lemma_total_byte_len_bound(sizes);
    assert(sizes.len() * (MAX_IMG_SIZE as int) <= MAX_PAGES as int * MAX_IMG_SIZE as int)
        by (nonlinear_arith)
        requires
            sizes.len() <= MAX_PAGES as int,
    ;
}

/// Bytes of pixels announced by a run of page headers.
pub open spec fn total_byte_len(sizes: Seq<Seq<u8>>) -> int
    decreases sizes.len(),
{
    if sizes.len() == 0 {
        0
    } else {
        total_byte_len(sizes.drop_last()) + match spec_parse_page_size(sizes.last()) {
            Ok(size) => size.spec_byte_len(),
            Err(_) => 0,
        }
    }
}

proof fn lemma_total_byte_len_bound(sizes: Seq<Seq<u8>>)
    ensures
        0 <= total_byte_len(sizes) <= sizes.len() * (MAX_IMG_SIZE as int),
    decreases sizes.len(),
{
    if sizes.len() > 0 {
        lemma_total_byte_len_bound(sizes.drop_last());
        assert((sizes.len() - 1) * (MAX_IMG_SIZE as int) + MAX_IMG_SIZE as int == sizes.len() * (
        MAX_IMG_SIZE as int)) by (nonlinear_arith);
    }
}

} // verus!
