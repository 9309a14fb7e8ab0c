//! The pixels of an image, as the engine takes them.

use image::DynamicImage;
use vstd::prelude::*;

verus! {

/// The image codec's image: pixels in whatever layout the file had.
#[verifier::external_type_specification]
#[verifier::external_body]
pub struct ExDynamicImage(DynamicImage);

/// The four characters that name the 8-bit grayscale format.
pub open spec fn y800() -> [u8; 4] {
    [89u8, 56u8, 48u8, 48u8]
}

/// The number that stands for a four-character format code: its bytes,
/// the first one lowest.
pub open spec fn spec_fourcc(code: [u8; 4]) -> u64 {
    (code[0] + code[1] * 0x100 + code[2] * 0x1_0000 + code[3] * 0x100_0000) as u64
}

/// The number that stands for a four-character format code.
pub fn zbar_fourcc(code: [u8; 4]) -> (format: u64)
    ensures
        format == spec_fourcc(code),
{
    let b0: u64 = code[0] as u64;
    let b1: u64 = code[1] as u64;
    let b2: u64 = code[2] as u64;
    let b3: u64 = code[3] as u64;
    b0 + b1 * 0x100 + b2 * 0x1_0000 + b3 * 0x100_0000
}

/// An image as rows of 8-bit luma, one byte per pixel, top row first.
#[derive(Debug)]
pub struct PixelBuffer {
    width: u32,
    height: u32,
    data: Vec<u8>,
}

/// What a [`PixelBuffer`] holds.
pub struct PixelBufferView {
    pub width: u32,
    pub height: u32,
    pub data: Seq<u8>,
}

impl PixelBufferView {
    /// There is one byte for each pixel.
    pub open spec fn wf(self) -> bool {
        self.data.len() == self.width * self.height
    }
}

impl View for PixelBuffer {
    type V = PixelBufferView;

    closed spec fn view(&self) -> PixelBufferView {
        PixelBufferView { width: self.width, height: self.height, data: self.data@ }
    }
}

/// The width and the height of `image`, in pixels.
pub uninterp spec fn image_size(image: DynamicImage) -> (u32, u32);

/// The bytes that hold `image` once the codec has reduced it to 8-bit
/// luma: its pixels row by row, and after them whatever else the codec
/// keeps in that place.
pub uninterp spec fn luma8_bytes(image: DynamicImage) -> Seq<u8>;

/// The buffer of an image that the codec opened: the image's size, and of
/// its luma bytes those that are its pixels.
pub open spec fn spec_from_image(image: DynamicImage) -> PixelBufferView {
    let (width, height) = image_size(image);
    PixelBufferView { width, height, data: luma8_bytes(image).take(width * height) }
}

/// `image::DynamicImage::into_luma8`, and of the gray image it gives
/// `width`, `height` and `into_raw`: the image reduced to 8-bit luma, as its
/// width, its height and its bytes. The bytes are at least one per pixel;
/// the codec accepts a container that is longer than the image needs.
#[verifier::external_body]
fn luma8_parts(image: DynamicImage) -> (parts: (u32, u32, Vec<u8>))
    ensures
        (parts.0, parts.1) == image_size(image),
        parts.2@ == luma8_bytes(image),
        parts.0 * parts.1 <= parts.2@.len(),
{
    let gray = image.into_luma8();
    (gray.width(), gray.height(), gray.into_raw())
}

impl PixelBuffer {
    #[verifier::type_invariant]
    spec fn one_byte_per_pixel(self) -> bool {
        self.data@.len() == self.width * self.height
    }

    /// The image whose pixels are the first bytes of `data`.
    fn first_pixels(width: u32, height: u32, data: Vec<u8>) -> (buffer: PixelBuffer)
        requires
            width * height <= data@.len(),
        ensures
            buffer@ == (PixelBufferView { width, height, data: data@.take(width * height) }),
            buffer@.wf(),
    {
        let ghost available: usize = data.len();
        let size: usize = (width as usize) * (height as usize);
        let mut pixels = data;
        pixels.truncate(size);
        assert(pixels@ =~= data@.take(width * height));
        PixelBuffer { width, height, data: pixels }
    }

    /// The image of `width` by `height` pixels whose rows are the first
    /// bytes of `data`; what follows them is dropped. There is none if
    /// `data` is too short.
    pub fn new(width: u32, height: u32, data: Vec<u8>) -> (buffer: Option<PixelBuffer>)
        ensures
            buffer is Some <==> width * height <= data@.len(),
            buffer matches Some(b) ==> b@.wf() && b@ == (PixelBufferView {
                width,
                height,
                data: data@.take(width * height),
            }),
    {
        assert(width * height <= 0xffff_ffff * 0xffff_ffff) by (nonlinear_arith)
            requires
                width <= 0xffff_ffff,
                height <= 0xffff_ffff,
        ;
        let size: u64 = (width as u64) * (height as u64);
        if size > data.len() as u64 {
            None
        } else {
            Some(PixelBuffer::first_pixels(width, height, data))
        }
    }

    /// The image that the codec opened, reduced to 8-bit luma.
    pub fn from_image(image: DynamicImage) -> (buffer: PixelBuffer)
        ensures
            buffer@ == spec_from_image(image),
            buffer@.wf(),
    {
        let (width, height, raw) = luma8_parts(image);
        PixelBuffer::first_pixels(width, height, raw)
    }

    /// The number of pixels in a row.
    pub fn width(&self) -> (width: u32)
        ensures
            width == self@.width,
    {
        self.width
    }

    /// The number of rows.
    pub fn height(&self) -> (height: u32)
        ensures
            height == self@.height,
    {
        self.height
    }

    /// The pixels: one byte each.
    pub fn data(&self) -> (data: &[u8])
        ensures
            data@ == self@.data,
            self@.wf(),
    {
        proof {
            use_type_invariant(self);
        }
        self.data.as_slice()
    }
}

/// An image as it is bound to the engine: the pixels, their layout, and the
/// format code that names how they are to be read.
#[derive(Debug)]
pub struct ZbarImage {
    pub format: u64,
    pub width: u32,
    pub height: u32,
    pub data: Vec<u8>,
}

/// What a [`ZbarImage`] holds.
pub struct ZbarImageView {
    pub format: u64,
    pub width: u32,
    pub height: u32,
    pub data: Seq<u8>,
}

impl View for ZbarImage {
    type V = ZbarImageView;

    open spec fn view(&self) -> ZbarImageView {
        ZbarImageView {
            format: self.format,
            width: self.width,
            height: self.height,
            data: self.data@,
        }
    }
}

/// The image that `buffer` is bound to the engine as: 8-bit grayscale, with
/// the buffer's size and pixels.
pub open spec fn spec_zbar_image(buffer: PixelBufferView) -> ZbarImageView {
    ZbarImageView {
        format: spec_fourcc(y800()),
        width: buffer.width,
        height: buffer.height,
        data: buffer.data,
    }
}

/// Binds `buffer` for the engine.
pub fn zbar_image_new(buffer: PixelBuffer) -> (zimage: ZbarImage)
    ensures
        zimage@ == spec_zbar_image(buffer@),
        zimage@.data.len() == zimage@.width * zimage@.height,
{
    proof {
        use_type_invariant(&buffer);
    }
    let format = zbar_fourcc([89u8, 56u8, 48u8, 48u8]);
    ZbarImage { format, width: buffer.width, height: buffer.height, data: buffer.data }
}

} // verus!
