use vstd::prelude::*;

use qrcodegen::{DataTooLong, QrCode, QrCodeEcc};

verus! {

/// A QR code symbol as `qrcodegen` builds it.
#[verifier::external_type_specification]
#[verifier::external_body]
pub struct ExQrCode(QrCode);

/// `qrcodegen`'s error for text that does not fit in any QR code version.
#[verifier::external_type_specification]
#[verifier::external_body]
pub struct ExDataTooLong(DataTooLong);

/// The modules that `QrCode::encode_text` lays out for `text` at the medium
/// error-correction level, row by row, `true` for dark; `None` when the text
/// does not fit in any version.
pub uninterp spec fn qr_encoded_medium(text: Seq<char>) -> Option<Seq<bool>>;

/// The modules that a QR code holds, row by row, `true` for dark.
pub uninterp spec fn qr_modules(code: QrCode) -> Seq<bool>;

/// The number of modules along each side of a QR code.
pub uninterp spec fn qr_side(code: QrCode) -> int;

/// Calls `QrCode::encode_text` with `QrCodeEcc::Medium`. The contract claims
/// that it fails exactly when the text does not fit, that on success the code
/// holds the modules named by `qr_encoded_medium`, and what the crate
/// documents and its source shows of a code: its side lies between 21 and 177
/// and it holds one module per place of the square, row by row. Which modules
/// are dark (the QR encoding, masking and error correction) is left to the
/// name `qr_encoded_medium` and not stated.
#[verifier::external_body]
fn encode_text_medium(text: &str) -> (r: Result<QrCode, DataTooLong>)
    ensures
        r is Ok <==> qr_encoded_medium(text@) is Some,
        r matches Ok(code) ==> {
            &&& qr_encoded_medium(text@) == Some(qr_modules(code))
            &&& 21 <= qr_side(code) <= 177
            &&& qr_modules(code).len() == qr_side(code) * qr_side(code)
        },
{
    QrCode::encode_text(text, QrCodeEcc::Medium)
}

/// Calls `QrCode::size`, which returns the side of the code.
#[verifier::external_body]
fn code_size(code: &QrCode) -> (r: i32)
    ensures
        r == qr_side(*code),
{
    code.size()
}

/// Calls `QrCode::get_module`, which tells whether the module at column `x`
/// and row `y` is dark, and answers light outside the square.
#[verifier::external_body]
fn code_module(code: &QrCode, x: i32, y: i32) -> (r: bool)
    ensures
        r == (0 <= x < qr_side(*code) && 0 <= y < qr_side(*code) && qr_modules(*code)[y
            * qr_side(*code) + x]),
{
    code.get_module(x, y)
}

/// The modules of a QR code, row by row, `true` for dark.
pub struct QrGrid {
    pub side: u32,
    pub dark: Vec<bool>,
}

impl QrGrid {
    /// A grid holds one module per place of its square.
    pub open spec fn wf(&self) -> bool {
        self.dark@.len() == self.side * self.side
    }
}

/// Why no QR code could be made.
#[derive(Debug, Clone, Copy, PartialEq, Eq, Structural)]
pub enum QrError {
    /// The text does not fit in any QR code version.
    DataTooLong,
}

/// Reads the modules out of a QR code.
fn read_grid(code: &QrCode) -> (g: QrGrid)
    requires
        21 <= qr_side(*code) <= 177,
        qr_modules(*code).len() == qr_side(*code) * qr_side(*code),
    ensures
        g.side == qr_side(*code),
        g.dark@ == qr_modules(*code),
        g.wf(),
{
    let side = code_size(code);
    let ghost m = qr_modules(*code);
    let mut dark: Vec<bool> = Vec::new();
    let mut y: i32 = 0;
    while y < side
        invariant
            side == qr_side(*code),
            21 <= side <= 177,
            m == qr_modules(*code),
            m.len() == side * side,
            0 <= y <= side,
            dark@ =~= m.take(y * side),
        decreases side - y,
    {
        let mut x: i32 = 0;
        while x < side
            invariant
                side == qr_side(*code),
                21 <= side <= 177,
                m == qr_modules(*code),
                m.len() == side * side,
                0 <= y < side,
                0 <= x <= side,
                dark@ =~= m.take(y * side + x),
            decreases side - x,
        {
            assert(y * side + x < side * side) by (nonlinear_arith)
                requires
                    0 <= y < side,
                    0 <= x < side,
            ;
            let d = code_module(code, x, y);
            dark.push(d);
            x += 1;
        }
        assert(y * side + side == (y + 1) * side) by (nonlinear_arith);
        y += 1;
    }
    assert(m.take(side * side) =~= m);
    QrGrid { side: side as u32, dark }
}

/// Encodes `text` as a QR code at the medium error-correction level.
pub fn encode_qr_grid(text: &str) -> (r: Result<QrGrid, QrError>)
    ensures
        r is Ok <==> qr_encoded_medium(text@) is Some,
        r matches Ok(g) ==> {
            &&& qr_encoded_medium(text@) == Some(g.dark@)
            &&& g.wf()
            &&& 21 <= g.side <= 177
        },
        r matches Err(e) ==> e == QrError::DataTooLong,
{
    match encode_text_medium(text) {
        Ok(code) => Ok(read_grid(&code)),
        Err(_) => Err(QrError::DataTooLong),
    }
}

} // verus!

verus! {

/// A greyscale image, row by row, one byte per pixel, 0 for black and 255
/// for white.
pub struct GrayImage {
    pub width: u32,
    pub height: u32,
    pub pixels: Vec<u8>,
}

impl GrayImage {
    /// An image holds one pixel per place of its rectangle.
    pub open spec fn wf(&self) -> bool {
        self.pixels@.len() == self.width * self.height
    }
}

/// The shade of the pixel at column `px` and row `py` of a QR code drawn with
/// `ms` pixels per module: black for a dark module, white for a light one.
pub open spec fn scaled_pixel(dark: Seq<bool>, side: nat, ms: nat, px: int, py: int) -> u8 {
    if dark[(py / ms as int) * side + px / ms as int] {
        0
    } else {
        255
    }
}

/// The pixels of a QR code of `side` modules drawn with `ms` pixels per
/// module, row by row.
pub open spec fn scaled_pixels(dark: Seq<bool>, side: nat, ms: nat) -> Seq<u8> {
    let w = side * ms;
    Seq::new(w * w, |i: int| scaled_pixel(dark, side, ms, i % (w as int), i / (w as int)))
}

/// A coordinate below `side * ms` falls in a module below `side`.
proof fn lemma_module_of_pixel(x: int, side: int, ms: int)
    requires
        0 <= x < side * ms,
        ms > 0,
    ensures
        0 <= x / ms < side,
{
    assert(0 <= x / ms) by (nonlinear_arith)
        requires
            0 <= x,
            ms > 0,
    ;
    if x / ms >= side {
        assert(x / ms * ms >= side * ms) by (nonlinear_arith)
            requires
                x / ms >= side,
                ms > 0,
        ;
        assert(x / ms * ms <= x) by (nonlinear_arith)
            requires
                0 <= x,
                ms > 0,
        ;
    }
}

/// The place of module (`col`, `row`) in a square of side `side`.
proof fn lemma_grid_index(row: int, col: int, side: int)
    requires
        0 <= row < side,
        0 <= col < side,
    ensures
        0 <= row * side + col < side * side,
{
    assert(0 <= row * side + col < side * side) by (nonlinear_arith)
        requires
            0 <= row < side,
            0 <= col < side,
    ;
}

/// Draws a QR code with `module_size` pixels per module and no margin.
pub fn scale_qr_grid(grid: &QrGrid, module_size: u32) -> (img: GrayImage)
    requires
        grid.wf(),
        grid.side * module_size <= u32::MAX,
        (grid.side * module_size) * (grid.side * module_size) <= usize::MAX,
    ensures
        img.width == grid.side * module_size,
        img.height == grid.side * module_size,
        img.pixels@ == scaled_pixels(grid.dark@, grid.side as nat, module_size as nat),
        img.wf(),
{
    let side = grid.side;
    let ms = module_size;
    let w: u32 = side * ms;
    let ghost wi = w as int;
    let ghost dark = grid.dark@;
    let mut pixels: Vec<u8> = Vec::new();
    let mut py: u32 = 0;
    while py < w
        invariant
            side == grid.side,
            ms == module_size,
            w == side * ms,
            wi == w as int,
            dark == grid.dark@,
            dark.len() == side * side,
            w * w <= usize::MAX,
            0 <= py <= w,
            pixels.len() == py * wi,
            forall|j: int|
                0 <= j < pixels.len() ==> #[trigger] pixels@[j] == scaled_pixel(
                    dark,
                    side as nat,
                    ms as nat,
                    j % wi,
                    j / wi,
                ),
        decreases w - py,
    {
        let mut px: u32 = 0;
        while px < w
            invariant
                side == grid.side,
                ms == module_size,
                w == side * ms,
                wi == w as int,
                dark == grid.dark@,
                dark.len() == side * side,
                w * w <= usize::MAX,
                0 <= py < w,
                0 <= px <= w,
                pixels.len() == py * wi + px,
                forall|j: int|
                    0 <= j < pixels.len() ==> #[trigger] pixels@[j] == scaled_pixel(
                        dark,
                        side as nat,
                        ms as nat,
                        j % wi,
                        j / wi,
                    ),
            decreases w - px,
        {
            assert(ms > 0) by (nonlinear_arith)
                requires
                    w == side * ms,
                    px < w,
            ;
            proof {
                lemma_module_of_pixel(py as int, side as int, ms as int);
                lemma_module_of_pixel(px as int, side as int, ms as int);
                lemma_grid_index((py / ms) as int, (px / ms) as int, side as int);
            }
            let row: usize = (py / ms) as usize;
            let col: usize = (px / ms) as usize;
            let len: usize = grid.dark.len();
            assert(row * side + col < len);
            let index: usize = row * side as usize + col;
            let shade: u8 = if grid.dark[index] {
                0
            } else {
                255
            };
            let ghost j = pixels.len() as int;
            proof {
                vstd::arithmetic::div_mod::lemma_fundamental_div_mod_converse(
                    j,
                    wi,
                    py as int,
                    px as int,
                );
                assert(py * wi + px < w * w) by (nonlinear_arith)
                    requires
                        py < w,
                        px < w,
                        wi == w,
                ;
            }
            pixels.push(shade);
            px += 1;
        }
        assert(py * wi + wi == (py + 1) * wi) by (nonlinear_arith);
        py += 1;
    }
    assert(pixels@ =~= scaled_pixels(dark, side as nat, ms as nat));
    GrayImage { width: w, height: w, pixels }
}

} // verus!

verus! {

/// The pixel at column `px` and row `py` of a QR code drawn one pixel per
/// module, two pixels in from the top and the left: black for a dark module,
/// white elsewhere.
pub open spec fn margin_pixel(dark: Seq<bool>, side: nat, px: int, py: int) -> u8 {
    if px >= 2 && py >= 2 && dark[(py - 2) * side + (px - 2)] {
        0
    } else {
        255
    }
}

/// The pixels, row by row, of a QR code of `side` modules drawn one pixel per
/// module on a white square two pixels wider.
pub open spec fn margin_pixels(dark: Seq<bool>, side: nat) -> Seq<u8> {
    let w = side + 2;
    Seq::new(w * w, |i: int| margin_pixel(dark, side, i % (w as int), i / (w as int)))
}

/// Draws a QR code one pixel per module, shifted two pixels right and down
/// on a white square two pixels wider than the code.
pub fn margin_qr_grid(grid: &QrGrid) -> (img: GrayImage)
    requires
        grid.wf(),
        grid.side <= 177,
    ensures
        img.width == grid.side + 2,
        img.height == grid.side + 2,
        img.pixels@ == margin_pixels(grid.dark@, grid.side as nat),
        img.wf(),
{
    let side = grid.side;
    let w: u32 = side + 2;
    let ghost wi = w as int;
    let ghost dark = grid.dark@;
    let mut pixels: Vec<u8> = Vec::new();
    let mut py: u32 = 0;
    while py < w
        invariant
            side == grid.side,
            side <= 177,
            w == side + 2,
            wi == w as int,
            dark == grid.dark@,
            dark.len() == side * side,
            0 <= py <= w,
            pixels.len() == py * wi,
            forall|j: int|
                0 <= j < pixels.len() ==> #[trigger] pixels@[j] == margin_pixel(
                    dark,
                    side as nat,
                    j % wi,
                    j / wi,
                ),
        decreases w - py,
    {
        let mut px: u32 = 0;
        while px < w
            invariant
                side == grid.side,
                side <= 177,
                w == side + 2,
                wi == w as int,
                dark == grid.dark@,
                dark.len() == side * side,
                0 <= py < w,
                0 <= px <= w,
                pixels.len() == py * wi + px,
                forall|j: int|
                    0 <= j < pixels.len() ==> #[trigger] pixels@[j] == margin_pixel(
                        dark,
                        side as nat,
                        j % wi,
                        j / wi,
                    ),
            decreases w - px,
        {
            let shade: u8 = if px >= 2 && py >= 2 {
                proof {
                    lemma_grid_index((py - 2) as int, (px - 2) as int, side as int);
                }
                let len: usize = grid.dark.len();
                let row: usize = (py - 2) as usize;
                let col: usize = (px - 2) as usize;
                assert(row * side + col < len);
                if grid.dark[row * side as usize + col] {
                    0
                } else {
                    255
                }
            } else {
                255
            };
            let ghost j = pixels.len() as int;
            proof {
                vstd::arithmetic::div_mod::lemma_fundamental_div_mod_converse(
                    j,
                    wi,
                    py as int,
                    px as int,
                );
            }
            pixels.push(shade);
            px += 1;
        }
        assert(py * wi + wi == (py + 1) * wi) by (nonlinear_arith);
        py += 1;
    }
    assert(pixels@ =~= margin_pixels(dark, side as nat));
    GrayImage { width: w, height: w, pixels }
}

/// Whether a square of side `s` has `len` places.
pub open spec fn is_side_of(s: nat, len: nat) -> bool {
    s * s == len
}

/// The side of a square of `len` places.
pub open spec fn grid_side(len: nat) -> nat {
    choose|s: nat| #[trigger] is_side_of(s, len)
}

/// A square of `side * side` places has side `side`.
pub proof fn lemma_grid_side(side: nat)
    ensures
        grid_side(side * side) == side,
{
    let len = side * side;
    assert(is_side_of(side, len));
    let t = grid_side(len);
    assert(t * t == len);
    if t < side {
        assert(t * t < side * side) by (nonlinear_arith)
            requires
                t < side,
        ;
    } else if t > side {
        assert(t * t > side * side) by (nonlinear_arith)
            requires
                t > side,
        ;
    }
}

/// Whether a QR code of `len` modules drawn with `ms` pixels per module has
/// a side that fits in a `u32` and a pixel count that fits in memory.
pub open spec fn scaled_image_fits(len: nat, ms: nat) -> bool {
    let w = grid_side(len) * ms;
    w <= u32::MAX && w * w <= usize::MAX
}

/// The QR code of `text` drawn with `ms` pixels per module.
pub open spec fn qr_image_pixels(text: Seq<char>, ms: nat) -> Seq<u8> {
    let m = qr_encoded_medium(text)->0;
    scaled_pixels(m, grid_side(m.len()), ms)
}

/// Draws the QR code of `url` with `module_size` pixels per module, on a
/// square exactly as wide as the code.
pub fn generate_qr_code_image(url: &str, module_size: u32) -> (img: GrayImage)
    requires
        qr_encoded_medium(url@) is Some,
        scaled_image_fits(qr_encoded_medium(url@)->0.len(), module_size as nat),
    ensures
        img.width == grid_side(qr_encoded_medium(url@)->0.len()) * module_size,
        img.height == img.width,
        img.pixels@ == qr_image_pixels(url@, module_size as nat),
        img.wf(),
{
    match encode_qr_grid(url) {
        Ok(grid) => {
            proof {
                lemma_grid_side(grid.side as nat);
            }
            scale_qr_grid(&grid, module_size)
        },
        Err(_) => {
            proof {
                assert(false);
            }
            GrayImage { width: 0, height: 0, pixels: Vec::new() }
        },
    }
}

/// Draws the QR code of `url` with `module_size` pixels per module, or
/// answers `None` where the text does not fit in a QR code or the image
/// would be too large.
pub fn try_generate_qr_code_image(url: &str, module_size: u32) -> (r: Option<GrayImage>)
    ensures
        r is Some <==> (qr_encoded_medium(url@) is Some && scaled_image_fits(
            qr_encoded_medium(url@)->0.len(),
            module_size as nat,
        )),
        r matches Some(img) ==> {
            &&& img.width == grid_side(qr_encoded_medium(url@)->0.len()) * module_size
            &&& img.height == img.width
            &&& img.pixels@ == qr_image_pixels(url@, module_size as nat)
            &&& img.wf()
        },
        forall|side: nat|
            #![trigger is_side_of(side, qr_encoded_medium(url@)->0.len())]
            qr_encoded_medium(url@) is Some && is_side_of(side, qr_encoded_medium(url@)->0.len())
                && side * module_size <= u32::MAX && (side * module_size) * (side * module_size)
                <= usize::MAX ==> r is Some,
{
    proof {
        assert forall|side: nat|
            #![trigger is_side_of(side, qr_encoded_medium(url@)->0.len())]
            qr_encoded_medium(url@) is Some && is_side_of(side, qr_encoded_medium(url@)->0.len())
                && side * module_size <= u32::MAX && (side * module_size) * (side * module_size)
                <= usize::MAX implies scaled_image_fits(
            qr_encoded_medium(url@)->0.len(),
            module_size as nat,
        ) by {
            lemma_grid_side(side);
        }
    }
    match encode_qr_grid(url) {
        Ok(grid) => {
            proof {
                lemma_grid_side(grid.side as nat);
            }
            assert(grid.side * module_size <= 177 * 0xffff_ffff) by (nonlinear_arith)
                requires
                    grid.side <= 177,
                    module_size <= 0xffff_ffff,
            ;
            let w: u64 = grid.side as u64 * module_size as u64;
            if w > u32::MAX as u64 {
                return None;
            }
            assert(w * w <= 0xffff_ffff * 0xffff_ffff) by (nonlinear_arith)
                requires
                    w <= 0xffff_ffff,
            ;
            let area: u128 = w as u128 * w as u128;
            if area > usize::MAX as u128 {
                return None;
            }
            Some(generate_qr_code_image(url, module_size))
        },
        Err(_) => None,
    }
}

/// Draws the QR code of `url` one pixel per module, two pixels in from the
/// top and the left of a white square two pixels wider than the code. The
/// target size is not used.
pub fn generate_qr_code_image2(url: &str, target_size: u32) -> (img: GrayImage)
    requires
        qr_encoded_medium(url@) is Some,
    ensures
        img.width == grid_side(qr_encoded_medium(url@)->0.len()) + 2,
        img.height == img.width,
        img.pixels@ == margin_pixels(
            qr_encoded_medium(url@)->0,
            grid_side(qr_encoded_medium(url@)->0.len()),
        ),
        img.wf(),
{
    match encode_qr_grid(url) {
        Ok(grid) => {
            proof {
                lemma_grid_side(grid.side as nat);
            }
            margin_qr_grid(&grid)
        },
        Err(_) => {
            proof {
                assert(false);
            }
            GrayImage { width: 0, height: 0, pixels: Vec::new() }
        },
    }
}

/// Draws the QR code of `url` as `generate_qr_code_image2` does, or answers
/// `None` where the text does not fit in a QR code.
pub fn try_generate_qr_code_image2(url: &str, target_size: u32) -> (r: Option<GrayImage>)
    ensures
        r is Some <==> qr_encoded_medium(url@) is Some,
        r matches Some(img) ==> {
            &&& img.width == grid_side(qr_encoded_medium(url@)->0.len()) + 2
            &&& img.height == img.width
            &&& img.pixels@ == margin_pixels(
                qr_encoded_medium(url@)->0,
                grid_side(qr_encoded_medium(url@)->0.len()),
            )
            &&& img.wf()
        },
{
    match encode_qr_grid(url) {
        Ok(_) => Some(generate_qr_code_image2(url, target_size)),
        Err(_) => None,
    }
}

/// The colour model of an image placed in a PDF.
#[derive(Debug, Clone, Copy, PartialEq, Eq, Structural)]
pub enum PdfColorSpace {
    Greyscale,
    Rgb,
}

/// The description of an image object for a PDF page: its size in pixels,
/// its colour model, bits per component, whether it is interpolated, and its
/// samples row by row.
pub struct PdfImage {
    pub width: usize,
    pub height: usize,
    pub color_space: PdfColorSpace,
    pub bits_per_component: u8,
    pub interpolate: bool,
    pub image_data: Vec<u8>,
}

impl PdfImage {
    /// The samples of an 8-bit image: one per pixel in greyscale, three in RGB.
    pub open spec fn wf(&self) -> bool {
        &&& self.bits_per_component == 8
        &&& self.image_data@.len() == (match self.color_space {
            PdfColorSpace::Greyscale => 1nat,
            PdfColorSpace::Rgb => 3nat,
        }) * self.width * self.height
    }
}

/// Describes a greyscale image as an 8-bit greyscale PDF image object,
/// without interpolation, with the pixels as its samples.
pub fn convert_image_for_pdf(image: &GrayImage) -> (r: PdfImage)
    requires
        image.wf(),
    ensures
        r.wf(),
        r.image_data@.len() == r.width * r.height,
        r.width == image.width,
        r.height == image.height,
        r.color_space == PdfColorSpace::Greyscale,
        r.bits_per_component == 8,
        !r.interpolate,
        r.image_data@ == image.pixels@,
{
    let mut buffer: Vec<u8> = Vec::new();
    let mut i: usize = 0;
    while i < image.pixels.len()
        invariant
            i <= image.pixels.len(),
            buffer@ =~= image.pixels@.take(i as int),
        decreases image.pixels.len() - i,
    {
        buffer.push(image.pixels[i]);
        i += 1;
    }
    assert(image.pixels@.take(i as int) =~= image.pixels@);
    PdfImage {
        width: image.width as usize,
        height: image.height as usize,
        color_space: PdfColorSpace::Greyscale,
        bits_per_component: 8,
        interpolate: false,
        image_data: buffer,
    }
}

} // verus!

verus! {

/// Drawn with one pixel per module, a QR code's image is its modules, black
/// for dark and white for light, in the same order.
pub proof fn one_pixel_per_module(dark: Seq<bool>, side: nat)
    requires
        dark.len() == side * side,
    ensures
        scaled_pixels(dark, side, 1) == dark.map_values(|d: bool| if d { 0u8 } else { 255u8 }),
{
    let img = scaled_pixels(dark, side, 1);
    let expected = dark.map_values(|d: bool| if d { 0u8 } else { 255u8 });
    assert(side * 1 == side);
    assert forall|i: int| 0 <= i < img.len() implies #[trigger] img[i] == expected[i] by {
        let w = side as int;
        assert(w > 0) by (nonlinear_arith)
            requires
                0 <= i < w * w,
                w >= 0,
        ;
        vstd::arithmetic::div_mod::lemma_fundamental_div_mod(i, w);
        assert((i / w) * w + i % w == i) by (nonlinear_arith)
            requires
                i == w * (i / w) + i % w,
        ;
        assert((i / w) / 1 == i / w);
        assert((i % w) / 1 == i % w);
    }
    assert(img =~= expected);
}

/// A QR code is drawn with `ms` pixels per module exactly when its image
/// fits: its side, `side * ms` pixels, fits in a `u32`, and its pixel count,
/// the square of that, fits in memory. No smaller bound refuses an image.
pub proof fn qr_image_fits_exactly(side: nat, ms: nat)
    ensures
        scaled_image_fits(side * side, ms) <==> (side * ms <= u32::MAX && (side * ms) * (side
            * ms) <= usize::MAX),
{
    lemma_grid_side(side);
}

/// Drawn with `ms` pixels per module, module (`x`, `y`) of a QR code covers
/// the `ms` by `ms` square of pixels whose corner is (`x * ms`, `y * ms`):
/// each of them is black where the module is dark and white where it is
/// light.
pub proof fn module_covers_its_square(
    dark: Seq<bool>,
    side: nat,
    ms: nat,
    x: nat,
    y: nat,
    dx: nat,
    dy: nat,
)
    requires
        dark.len() == side * side,
        x < side,
        y < side,
        dx < ms,
        dy < ms,
    ensures
        ({
            let w = side * ms;
            let img = scaled_pixels(dark, side, ms);
            &&& img.len() == w * w
            &&& (y * ms + dy) * w + (x * ms + dx) < img.len()
            &&& img[((y * ms + dy) * w + (x * ms + dx)) as int] == if dark[(y * side + x) as int] {
                0u8
            } else {
                255u8
            }
        }),
{
    let w = side * ms;
    let px = x * ms + dx;
    let py = y * ms + dy;
    assert(px < w && py < w) by (nonlinear_arith)
        requires
            px == x * ms + dx,
            py == y * ms + dy,
            x < side,
            y < side,
            dx < ms,
            dy < ms,
            w == side * ms,
    ;
    let i = py * w + px;
    assert(i < w * w) by (nonlinear_arith)
        requires
            i == py * w + px,
            px < w,
            py < w,
    ;
    vstd::arithmetic::div_mod::lemma_fundamental_div_mod_converse(i as int, w as int, py as int, px as int);
    vstd::arithmetic::div_mod::lemma_fundamental_div_mod_converse(px as int, ms as int, x as int, dx as int);
    vstd::arithmetic::div_mod::lemma_fundamental_div_mod_converse(py as int, ms as int, y as int, dy as int);
    assert(scaled_pixels(dark, side, ms)[i as int] == scaled_pixel(dark, side, ms, px as int, py as int));
}

/// Drawn one pixel per module on a square two pixels wider, module (`x`,
/// `y`) of a QR code lands on pixel (`x + 2`, `y + 2`), black where it is
/// dark and white where it is light, and the two first rows and columns
/// stay white.
pub proof fn margin_places_modules(dark: Seq<bool>, side: nat, x: nat, y: nat)
    requires
        dark.len() == side * side,
        x < side,
        y < side,
    ensures
        ({
            let w = side + 2;
            let img = margin_pixels(dark, side);
            &&& img.len() == w * w
            &&& (y + 2) * w + (x + 2) < img.len()
            &&& img[((y + 2) * w + (x + 2)) as int] == if dark[(y * side + x) as int] {
                0u8
            } else {
                255u8
            }
            &&& forall|i: int| 0 <= i < w * w && (i % (w as int) < 2 || i / (w as int) < 2) ==> #[trigger] img[i] == 255u8
        }),
{
    let w = side + 2;
    let i = (y + 2) * w + (x + 2);
    assert(i < w * w) by (nonlinear_arith)
        requires
            i == (y + 2) * w + (x + 2),
            x + 2 < w,
            y + 2 < w,
    ;
    vstd::arithmetic::div_mod::lemma_fundamental_div_mod_converse(i as int, w as int, (y + 2) as int, (x + 2) as int);
    assert(margin_pixels(dark, side)[i as int] == margin_pixel(dark, side, (x + 2) as int, (y + 2) as int));
}

} // verus!
