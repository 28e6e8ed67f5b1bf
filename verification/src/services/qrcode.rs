//! The QR code that sends a student's device to the attendance page.
//!
//! The code is laid out by the `qrcode` crate as a square of modules. Each
//! module becomes a square of pixels, black for a dark module and white for a
//! light one, with no margin around the code; the pixels are written as a
//! greyscale PNG by the `image` crate.

use crate::errors::AppError;
use crate::errors::ErrorView;
use crate::ids::format_uuid;
use crate::ids::uuid_text;
use image::ImageEncoder;
use vstd::prelude::*;
use vstd::string::*;

verus! {

/// Pixels along the side of one module.
pub const MODULE_PIXELS: usize = 6;

/// The modules that `qrcode::QrCode::new` lays out for a text, row by row
/// with `true` for dark, and the number of modules per side; nothing where
/// the text does not fit a QR code.
pub uninterp spec fn qr_matrix(text: Seq<char>) -> Option<(Seq<bool>, usize)>;

/// The PNG file that the `image` crate's `PngEncoder` writes for greyscale
/// pixels of the given width and height, where it writes one.
pub uninterp spec fn png_bytes(pixels: Seq<u8>, width: u32, height: u32) -> Option<Seq<u8>>;

/// Lays out a QR code for the bytes of a text with `qrcode::QrCode::new`
/// and hands back `to_colors`, each colour turned into a boolean by
/// `Color::select`, together with `width`. The result depends on the text
/// alone.
#[verifier::external_body]
pub(crate) fn qr_modules(text: &str) -> (matrix: Option<(Vec<bool>, usize)>)
    ensures
        match qr_matrix(text@) {
            Some((dark, width)) => matrix is Some && matrix->Some_0.0@ == dark
                && matrix->Some_0.1 == width,
            None => matrix is None,
        },
{
    match qrcode::QrCode::new(text.as_bytes()) {
        Ok(code) => Some(
            (
                code.to_colors().iter().map(|color| color.select(true, false)).collect(),
                code.width(),
            ),
        ),
        Err(_) => None,
    }
}

/// Writes greyscale pixels as a PNG file with
/// `image::codecs::png::PngEncoder::write_image`, which needs one byte per
/// pixel. The file depends on the pixels and the dimensions alone.
#[verifier::external_body]
pub(crate) fn encode_png(pixels: &Vec<u8>, width: u32, height: u32) -> (file: Option<Vec<u8>>)
    requires
        pixels@.len() == width * height,
    ensures
        match png_bytes(pixels@, width, height) {
            Some(bytes) => file is Some && file->Some_0@ == bytes,
            None => file is None,
        },
{
    let mut file = Vec::new();
    let encoder = image::codecs::png::PngEncoder::new(&mut file);
    match encoder.write_image(pixels, width, height, image::ExtendedColorType::L8) {
        Ok(_) => Some(file),
        Err(_) => None,
    }
}

/// The shade of a pixel: black for dark, white for light.
pub open spec fn shade(dark: bool) -> u8 {
    if dark {
        0
    } else {
        255
    }
}

/// The modules can be drawn: there are `width` rows of `width` modules, a
/// module has at least one pixel, and the picture is not too large to hold.
pub open spec fn drawable(dark: Seq<bool>, width: nat, scale: nat) -> bool {
    &&& width > 0
    &&& scale > 0
    &&& dark.len() == width * width
    &&& width * scale <= u32::MAX
    &&& (width * scale) * (width * scale) <= usize::MAX
}

/// The picture of the modules, row by row: the pixel in column `x` of row
/// `y` has the shade of the module in column `x / scale` of row `y / scale`.
pub open spec fn picture(dark: Seq<bool>, width: nat, scale: nat) -> Seq<u8> {
    let side = (width * scale) as int;
    Seq::new(
        (side * side) as nat,
        |i: int| shade(dark[((i / side) / (scale as int)) * width + (i % side) / (scale as int)]),
    )
}

proof fn lemma_module_index(i: int, width: int, scale: int)
    requires
        width > 0,
        scale > 0,
        0 <= i < (width * scale) * (width * scale),
    ensures
        0 <= ((i / (width * scale)) / scale) * width + (i % (width * scale)) / scale < width
            * width,
        0 <= ((i / (width * scale)) / scale) * width,
        0 <= i / (width * scale) < width * scale,
        0 <= i % (width * scale) < width * scale,
{
    let side = width * scale;
    assert(side > 0) by (nonlinear_arith)
        requires
            width > 0,
            scale > 0,
            side == width * scale,
    ;
    let y = i / side;
    let x = i % side;
    assert(0 <= y < side && 0 <= x < side) by (nonlinear_arith)
        requires
            side > 0,
            0 <= i < side * side,
            y == i / side,
            x == i % side,
    ;
    let row = y / scale;
    let column = x / scale;
    assert(0 <= row < width && 0 <= column < width) by (nonlinear_arith)
        requires
            scale > 0,
            width > 0,
            0 <= y < width * scale,
            0 <= x < width * scale,
            row == y / scale,
            column == x / scale,
    ;
    assert(0 <= row * width && 0 <= row * width + column < width * width) by (nonlinear_arith)
        requires
            0 <= row < width,
            0 <= column < width,
    ;
}

/// Draws the modules as pixels, `scale` pixels to the side of a module.
/// Nothing is drawn where the modules cannot be drawn.
pub fn render_modules(dark: &Vec<bool>, width: usize, scale: usize) -> (drawn: Option<Vec<u8>>)
    ensures
        match drawn {
            Some(pixels) => drawable(dark@, width as nat, scale as nat) && pixels@ == picture(
                dark@,
                width as nat,
                scale as nat,
            ),
            None => !drawable(dark@, width as nat, scale as nat),
        },
{
    if width == 0 || scale == 0 {
        return None;
    }
    let count: usize = dark.len();
    let modules: usize = match width.checked_mul(width) {
        Some(product) => product,
        None => {
            return None;
        },
    };
    if count != modules {
        return None;
    }
    let side: usize = match width.checked_mul(scale) {
        Some(product) => product,
        None => {
            return None;
        },
    };
    if side > u32::MAX as usize {
        return None;
    }
    let total: usize = match side.checked_mul(side) {
        Some(product) => product,
        None => {
            return None;
        },
    };
    let mut pixels: Vec<u8> = Vec::new();
    let mut i: usize = 0;
    while i < total
        invariant
            width > 0,
            scale > 0,
            side == width * scale,
            total == side * side,
            dark@.len() == width * width,
            dark@.len() == count,
            i <= total,
            pixels@.len() == i,
            forall|k: int|
                0 <= k < i ==> #[trigger] pixels@[k] == picture(
                    dark@,
                    width as nat,
                    scale as nat,
                )[k],
        decreases total - i,
    {
        proof {
            lemma_module_index(i as int, width as int, scale as int);
        }
        let y = i / side;
        let x = i % side;
        let row = y / scale;
        let column = x / scale;
        proof {
            let s = (width * scale) as int;
            assert(side as int == s);
            assert(y as int == (i as int) / s);
            assert(x as int == (i as int) % s);
            assert(row as int == ((i as int) / s) / (scale as int));
            assert(column as int == ((i as int) % s) / (scale as int));
            assert(0 <= row * width);
            assert(row * width + column < width * width);
        }
        let module = dark[row * width + column];
        pixels.push(
            if module {
                0
            } else {
                255
            },
        );
        i += 1;
    }
    assert(pixels@ =~= picture(dark@, width as nat, scale as nat));
    Some(pixels)
}

/// The sentence kept for the log when a text does not fit a QR code.
pub open spec fn qr_failed_message() -> Seq<char> {
    "QR Code generation error"@
}

/// The sentence kept for the log when the picture cannot be written.
pub open spec fn png_failed_message() -> Seq<char> {
    "PNG encoding error"@
}

/// The file for a text: the PNG of the picture of its modules, or the
/// failure that stands in the way.
pub open spec fn qr_file(text: Seq<char>) -> Result<Seq<u8>, ErrorView> {
    match qr_matrix(text) {
        None => Err(ErrorView::InternalError(qr_failed_message())),
        Some((dark, width)) => if !drawable(dark, width as nat, MODULE_PIXELS as nat) {
            Err(ErrorView::InternalError(qr_failed_message()))
        } else {
            match png_bytes(
                picture(dark, width as nat, MODULE_PIXELS as nat),
                (width * MODULE_PIXELS) as u32,
                (width * MODULE_PIXELS) as u32,
            ) {
                Some(bytes) => Ok(bytes),
                None => Err(ErrorView::ImageError(png_failed_message())),
            }
        },
    }
}

/// Makes QR codes.
pub struct QrCodeService;

impl QrCodeService {
    /// A service; it holds nothing.
    pub fn new() -> (service: Self) {
        QrCodeService
    }

    /// The address of the attendance page of a course on the server at
    /// `base_url`: what the QR code of the course encodes.
    pub fn attendance_url(&self, base_url: &str, course_id: u128) -> (url: String)
        ensures
            url@ == base_url@ + "/attendance?course="@ + uuid_text(course_id),
    {
        let id = format_uuid(course_id);
        String::from_str(base_url).concat("/attendance?course=").concat(id.as_str())
    }

    /// Makes the QR code of a text as a PNG file.
    pub fn generate_qr(&self, url: &str) -> (r: Result<Vec<u8>, AppError>)
        ensures
            match qr_file(url@) {
                Ok(bytes) => r is Ok && r->Ok_0@ == bytes,
                Err(error) => r is Err && r->Err_0@ == error,
            },
    {
        let (dark, width) = match qr_modules(url) {
            Some(matrix) => matrix,
            None => {
                return Err(AppError::InternalError(String::from_str("QR Code generation error")));
            },
        };
        let pixels = match render_modules(&dark, width, MODULE_PIXELS) {
            Some(pixels) => pixels,
            None => {
                return Err(AppError::InternalError(String::from_str("QR Code generation error")));
            },
        };
        assert(width * MODULE_PIXELS <= u32::MAX);
        let side: u32 = (width * MODULE_PIXELS) as u32;
        assert(pixels@.len() == side * side);
        match encode_png(&pixels, side, side) {
            Some(file) => Ok(file),
            None => Err(AppError::ImageError(String::from_str("PNG encoding error"))),
        }
    }
}

} // verus!
