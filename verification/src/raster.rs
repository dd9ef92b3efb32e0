//! Rasterising a vector document onto a white bitmap.
//!
//! Parsing and drawing are the work of `usvg` and `resvg`, the pixel buffer
//! is that of `tiny-skia`. The library decides the size of the bitmap from the
//! size of the document, prepares the white canvas and hands it to the
//! renderer; the functions that call those crates are marked as trusted and
//! say in their comments what is taken on trust.

use crate::binary32::{truncate, truncation};
use resvg::tiny_skia::{Color, IntSize, Pixmap, PixmapRef, Transform};
use vstd::prelude::*;

verus! {

#[verifier::external_type_specification]
#[verifier::external_body]
pub struct ExTree(usvg::Tree);

#[verifier::external_type_specification]
#[verifier::external_body]
pub struct ExParseError(usvg::Error);

/// The widest bitmap that can be allocated: a row of pixels takes at most
/// `i32::MAX` bytes.
pub const MAX_WIDTH: u32 = 0x1FFF_FFFF;

/// A bitmap of `width` by `height` pixels can be allocated: neither side is
/// zero, a row takes at most `i32::MAX` bytes, and all rows together at most
/// `isize::MAX` bytes.
pub open spec fn spec_canvas_fits(width: nat, height: nat) -> bool {
    &&& 1 <= width <= MAX_WIDTH
    &&& 1 <= height <= u32::MAX
    &&& 4 * width * height <= isize::MAX
}

/// As many bytes of the given value.
pub open spec fn uniform(len: nat, value: u8) -> Seq<u8> {
    Seq::new(len, |i: int| value)
}

/// A pixel buffer: `height` rows of `width` pixels, row by row from the top,
/// four bytes to a pixel in the order red, green, blue, alpha, the colours
/// premultiplied by the alpha.
#[derive(Debug)]
pub struct Bitmap {
    width: u32,
    height: u32,
    data: Vec<u8>,
}

/// What a [`Bitmap`] stands for.
pub struct BitmapModel {
    pub width: nat,
    pub height: nat,
    pub bytes: Seq<u8>,
}

impl View for Bitmap {
    type V = BitmapModel;

    closed spec fn view(&self) -> BitmapModel {
        BitmapModel { width: self.width as nat, height: self.height as nat, bytes: self.data@ }
    }
}

impl Bitmap {
    /// The bitmap has a size that can be allocated and holds four bytes for
    /// each of its pixels.
    pub open spec fn wf(&self) -> bool {
        &&& spec_canvas_fits(self@.width, self@.height)
        &&& self@.bytes.len() == 4 * self@.width * self@.height
    }

    /// Every pixel is opaque white.
    pub open spec fn is_white(&self) -> bool {
        self@.bytes == uniform(self@.bytes.len(), 255)
    }

    /// Says whether the bitmap has a size that can be allocated and holds
    /// four bytes for each of its pixels.
    pub fn check(&self) -> (valid: bool)
        ensures
            valid == self.wf(),
    {
        if !canvas_fits(self.width, self.height) {
            return false;
        }
        assert(4 * self.width * self.height <= 4 * 0x1FFF_FFFF * 0xFFFF_FFFF) by (nonlinear_arith)
            requires
                0 <= self.width <= 0x1FFF_FFFF,
                0 <= self.height <= 0xFFFF_FFFF,
        ;
        let bytes: u64 = 4 * (self.width as u64) * (self.height as u64);
        self.data.len() as u64 == bytes
    }

    /// The number of pixels in a row.
    pub fn width(&self) -> (width: u32)
        ensures
            width == self@.width,
    {
        self.width
    }

    /// The number of rows.
    pub fn height(&self) -> (height: u32)
        ensures
            height == self@.height,
    {
        self.height
    }

    /// The bytes of the pixels.
    pub fn data(&self) -> (bytes: &Vec<u8>)
        ensures
            bytes@ == self@.bytes,
    {
        &self.data
    }
}

/// A vector document that has been parsed, with its intrinsic width and
/// height as the bit patterns of single-precision numbers.
pub struct ParsedDocument {
    tree: usvg::Tree,
    width_bits: u32,
    height_bits: u32,
}

impl ParsedDocument {
    /// The bit pattern of the intrinsic width.
    pub closed spec fn spec_width_bits(&self) -> u32 {
        self.width_bits
    }

    /// The bit pattern of the intrinsic height.
    pub closed spec fn spec_height_bits(&self) -> u32 {
        self.height_bits
    }

    /// The width of the document in whole pixels: its intrinsic width without
    /// the fractional part.
    pub open spec fn pixel_width(&self) -> nat {
        truncation(self.spec_width_bits())
    }

    /// The height of the document in whole pixels.
    pub open spec fn pixel_height(&self) -> nat {
        truncation(self.spec_height_bits())
    }

    /// The intrinsic size is a number: finite and above zero.
    pub open spec fn wf(&self) -> bool {
        &&& 0 < self.spec_width_bits() < 0x7F80_0000
        &&& 0 < self.spec_height_bits() < 0x7F80_0000
    }

    /// The bit pattern of the intrinsic width.
    pub fn width_bits(&self) -> (bits: u32)
        ensures
            bits == self.spec_width_bits(),
    {
        self.width_bits
    }

    /// The bit pattern of the intrinsic height.
    pub fn height_bits(&self) -> (bits: u32)
        ensures
            bits == self.spec_height_bits(),
    {
        self.height_bits
    }

    /// The size of the document in whole pixels, width first.
    pub fn pixel_size(&self) -> (size: (u32, u32))
        ensures
            size.0 == self.pixel_width(),
            size.1 == self.pixel_height(),
    {
        (truncate(self.width_bits), truncate(self.height_bits))
    }
}

/// What `tiny-skia` makes of a bitmap of the given size and pixels when it
/// encodes it as PNG: the bytes of the file, or nothing where it reports an
/// error.
pub uninterp spec fn png_encoding(width: nat, height: nat, bytes: Seq<u8>) -> Option<Seq<u8>>;

/// `usvg` accepts the text as a vector document under its default options:
/// the text is well-formed XML, its root is an `svg` element with a valid
/// size, and it stays within the limits of the parser.
pub uninterp spec fn is_vector_document(text: Seq<char>) -> bool;

/// Calls `usvg::Tree::from_str` with the default options. Taken on trust:
/// whether a text is accepted depends on the text alone. Nothing is claimed
/// of the tree: an image that the document refers to is read from disk.
#[verifier::external_body]
fn parse_tree(text: &str) -> (parsed: Result<usvg::Tree, usvg::Error>)
    ensures
        parsed is Ok <==> is_vector_document(text@),
{
    usvg::Tree::from_str(text, &usvg::Options::default())
}

/// Calls `usvg::Tree::size` and hands out the bit patterns of the width and
/// the height. Taken on trust: both are finite and above zero, which the type
/// of the size guarantees.
#[verifier::external_body]
fn tree_size_bits(tree: &usvg::Tree) -> (size: (u32, u32))
    ensures
        0 < size.0 < 0x7F80_0000,
        0 < size.1 < 0x7F80_0000,
{
    let size = tree.size();
    (size.width().to_bits(), size.height().to_bits())
}

/// Calls `tiny_skia::Pixmap::new`. Taken on trust: a pixmap is allocated
/// unless a side is zero or a row takes more than `i32::MAX` bytes, it has
/// the size asked for, and all its bytes are zero. Sizes of more than
/// `isize::MAX` bytes, on which the allocation panics, are left out; that
/// the memory for a smaller size is there is not in question here.
#[verifier::external_body]
fn allocate(width: u32, height: u32) -> (canvas: Option<Bitmap>)
    requires
        4 * width * height <= isize::MAX,
    ensures
        canvas is Some <==> (1 <= width <= MAX_WIDTH && 1 <= height),
        canvas matches Some(bitmap) ==> bitmap@.width == width && bitmap@.height == height,
        canvas matches Some(bitmap) ==> bitmap@.bytes == uniform((4 * width * height) as nat, 0),
{
    Pixmap::new(width, height).map(
        |pixmap| Bitmap { width: pixmap.width(), height: pixmap.height(), data: pixmap.take() },
    )
}

/// Calls `tiny_skia::Pixmap::fill` with `Color::WHITE`. Taken on trust: the
/// size stays and every byte becomes 255.
#[verifier::external_body]
fn fill_white(canvas: Bitmap) -> (filled: Bitmap)
    requires
        canvas.wf(),
    ensures
        filled@.width == canvas@.width,
        filled@.height == canvas@.height,
        filled@.bytes == uniform(canvas@.bytes.len(), 255),
{
    let size = IntSize::from_wh(canvas.width, canvas.height).unwrap();
    let mut pixmap = Pixmap::from_vec(canvas.data, size).unwrap();
    pixmap.fill(Color::WHITE);
    Bitmap { width: canvas.width, height: canvas.height, data: pixmap.take() }
}

/// Calls `resvg::render` with the identity transform. Taken on trust: the
/// size of the bitmap and the number of its bytes stay. Nothing is claimed of
/// the pixels.
#[verifier::external_body]
fn draw(tree: &usvg::Tree, canvas: Bitmap) -> (drawn: Bitmap)
    requires
        canvas.wf(),
    ensures
        drawn@.width == canvas@.width,
        drawn@.height == canvas@.height,
        drawn@.bytes.len() == canvas@.bytes.len(),
{
    let size = IntSize::from_wh(canvas.width, canvas.height).unwrap();
    let mut pixmap = Pixmap::from_vec(canvas.data, size).unwrap();
    resvg::render(tree, Transform::identity(), &mut pixmap.as_mut());
    Bitmap { width: canvas.width, height: canvas.height, data: pixmap.take() }
}

/// Calls `tiny_skia::PixmapRef::encode_png`, to which `Pixmap::encode_png`
/// and `Pixmap::save_png` hand on. Taken on trust: whether the encoding
/// succeeds and which bytes it gives depend on the size and the pixels alone,
/// and the bytes are never empty, since the encoder begins with the eight
/// bytes of the PNG signature. An error comes back as its debug text.
#[verifier::external_body]
fn encode_pixels(bitmap: &Bitmap) -> (png: Result<Vec<u8>, String>)
    requires
        bitmap.wf(),
    ensures
        png is Ok <==> (png_encoding(bitmap@.width, bitmap@.height, bitmap@.bytes) is Some),
        png matches Ok(bytes) ==> png_encoding(bitmap@.width, bitmap@.height, bitmap@.bytes)
            == Some(bytes@),
        png matches Ok(bytes) ==> bytes@.len() > 0,
{
    let pixmap = PixmapRef::from_bytes(&bitmap.data, bitmap.width, bitmap.height).unwrap();
    pixmap.encode_png().map_err(|error| format!("{:?}", error))
}

/// Says whether a bitmap of `width` by `height` pixels can be allocated.
pub fn canvas_fits(width: u32, height: u32) -> (fits: bool)
    ensures
        fits == spec_canvas_fits(width as nat, height as nat),
{
    if width == 0 || width > MAX_WIDTH || height == 0 {
        return false;
    }
    assert(4 * width * height <= 4 * 0x1FFF_FFFF * 0xFFFF_FFFF) by (nonlinear_arith)
        requires
            0 <= width <= 0x1FFF_FFFF,
            0 <= height <= 0xFFFF_FFFF,
    ;
    let bytes: u64 = 4 * (width as u64) * (height as u64);
    bytes <= isize::MAX as u64
}

/// A bitmap of `width` by `height` pixels, each of them opaque white;
/// `None` where no bitmap of that size can be allocated.
pub fn white_canvas(width: u32, height: u32) -> (canvas: Option<Bitmap>)
    ensures
        canvas is Some <==> spec_canvas_fits(width as nat, height as nat),
        canvas matches Some(bitmap) ==> {
            &&& bitmap.wf()
            &&& bitmap.is_white()
            &&& bitmap@.width == width
            &&& bitmap@.height == height
        },
{
    if !canvas_fits(width, height) {
        return None;
    }
    match allocate(width, height) {
        None => None,
        Some(blank) => Some(fill_white(blank)),
    }
}

/// Parses a vector document with the default parsing configuration; `None`
/// where the text is not accepted as one. The cause of a rejection is not
/// kept.
pub fn parse(text: &str) -> (document: Option<ParsedDocument>)
    ensures
        document is Some <==> is_vector_document(text@),
        document matches Some(parsed) ==> parsed.wf(),
{
    match parse_tree(text) {
        Err(_) => None,
        Ok(tree) => {
            let (width_bits, height_bits) = tree_size_bits(&tree);
            Some(ParsedDocument { tree, width_bits, height_bits })
        },
    }
}

/// Rasterises a parsed document: a bitmap of exactly the size of the
/// document in whole pixels is made opaque white, and the document is drawn
/// onto it as it is, neither scaled nor moved. `None` where no bitmap of that
/// size can be allocated, as for a width below one pixel.
pub fn rasterize_document(document: &ParsedDocument) -> (bitmap: Option<Bitmap>)
    ensures
        bitmap is Some <==> spec_canvas_fits(document.pixel_width(), document.pixel_height()),
        bitmap matches Some(drawn) ==> {
            &&& drawn.wf()
            &&& drawn@.width == document.pixel_width()
            &&& drawn@.height == document.pixel_height()
        },
{
    let (width, height) = document.pixel_size();
    match white_canvas(width, height) {
        None => None,
        Some(canvas) => Some(draw(&document.tree, canvas)),
    }
}

/// What [`rasterize`] returns for the outcome of the parsing: nothing for a
/// text that did not parse, else what [`rasterize_document`] returns.
pub fn rasterize_parsed(parsed: Option<ParsedDocument>) -> (bitmap: Option<Bitmap>)
    ensures
        parsed is None ==> bitmap is None,
        parsed matches Some(document) ==> {
            &&& bitmap is Some <==> spec_canvas_fits(
                document.pixel_width(),
                document.pixel_height(),
            )
            &&& bitmap matches Some(drawn) ==> {
                &&& drawn.wf()
                &&& drawn@.width == document.pixel_width()
                &&& drawn@.height == document.pixel_height()
            }
        },
{
    match parsed {
        None => None,
        Some(document) => rasterize_document(&document),
    }
}

/// Rasterises the text of a vector document; `None` where the text does not
/// parse or its size allows no bitmap.
pub fn rasterize(text: &str) -> (bitmap: Option<Bitmap>)
    ensures
        !is_vector_document(text@) ==> bitmap is None,
        bitmap matches Some(drawn) ==> drawn.wf(),
{
    rasterize_parsed(parse(text))
}

/// Encodes a bitmap as a PNG file. The file is never empty. Where the
/// encoder reports an error, the error is its diagnostic.
pub fn encode(bitmap: &Bitmap) -> (png: Result<Vec<u8>, String>)
    requires
        bitmap.wf(),
    ensures
        png is Ok <==> (png_encoding(bitmap@.width, bitmap@.height, bitmap@.bytes) is Some),
        png matches Ok(bytes) ==> png_encoding(bitmap@.width, bitmap@.height, bitmap@.bytes)
            == Some(bytes@),
        png matches Ok(bytes) ==> bytes@.len() > 0,
{
    encode_pixels(bitmap)
}

/// What is written as the bitmap file after rasterising: nothing where there
/// is no bitmap, else the PNG file of the bitmap, which is never empty, or
/// the encoder's diagnostic where the bitmap could not be encoded.
pub fn png_file(bitmap: Option<Bitmap>) -> (file: Result<Option<Vec<u8>>, String>)
    requires
        bitmap matches Some(drawn) ==> drawn.wf(),
    ensures
        bitmap is None ==> file matches Ok(None),
        bitmap matches Some(drawn) ==> !(file matches Ok(None)),
        bitmap matches Some(drawn) ==> (file is Ok <==> png_encoding(
            drawn@.width,
            drawn@.height,
            drawn@.bytes,
        ) is Some),
        bitmap matches Some(drawn) ==> (file matches Ok(Some(bytes)) ==> png_encoding(
            drawn@.width,
            drawn@.height,
            drawn@.bytes,
        ) == Some(bytes@)),
        file matches Ok(Some(bytes)) ==> bytes@.len() > 0,
{
    match bitmap {
        None => Ok(None),
        Some(drawn) => match encode(&drawn) {
            Ok(bytes) => Ok(Some(bytes)),
            Err(detail) => Err(detail),
        },
    }
}

/// Rasterises the text of a vector document and encodes the bitmap: the
/// bytes to write as the bitmap file, or nothing where the text gives no
/// bitmap. Bytes that come back are never empty and are the PNG file of a
/// well-formed bitmap; an error is the encoder's, on a well-formed bitmap
/// that it could not encode.
pub fn rasterize_to_png(text: &str) -> (file: Result<Option<Vec<u8>>, String>)
    ensures
        !is_vector_document(text@) ==> file matches Ok(None),
        file matches Ok(Some(bytes)) ==> bytes@.len() > 0,
        file matches Ok(Some(bytes)) ==> exists|width: nat, height: nat, pixels: Seq<u8>|
            spec_canvas_fits(width, height) && pixels.len() == 4 * width * height
                && #[trigger] png_encoding(width, height, pixels) == Some(bytes@),
        file is Err ==> exists|width: nat, height: nat, pixels: Seq<u8>|
            spec_canvas_fits(width, height) && pixels.len() == 4 * width * height
                && #[trigger] png_encoding(width, height, pixels) is None,
{
    let bitmap = rasterize(text);
    let ghost drawn = bitmap;
    let file = png_file(bitmap);
    proof {
        match drawn {
            Some(image) => {
                let model = image@;
                assert(spec_canvas_fits(model.width, model.height));
                assert(model.bytes.len() == 4 * model.width * model.height);
                if file is Err {
                    assert(png_encoding(model.width, model.height, model.bytes) is None);
                }
            },
            None => {},
        }
    }
    file
}

} // verus!
