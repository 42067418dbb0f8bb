//! Grayscale rasters: the picture of a QR symbol, and its PNG bytes.

use vstd::prelude::*;
use crate::failure::EncodeError;
use crate::symbol::{lemma_cell_in_grid, ModuleGrid, QrSymbol, MAX_WIDTH};

verus! {

/// The light modules left free on each side of a symbol.
pub const QUIET_ZONE: u32 = 4;

/// The pixels per side of one module in a rendered symbol.
pub const MODULE_PIXELS: u32 = 8;

/// The gray level of a dark module.
pub const DARK: u8 = 0;

/// The gray level of a light module and of the quiet zone.
pub const LIGHT: u8 = 255;

/// What a raster is: `width` by `height` gray levels, row by row from the
/// top left, one byte each.
pub struct Bitmap {
    pub width: nat,
    pub height: nat,
    pub pixels: Seq<u8>,
}

/// An image with a single channel of eight bits.
#[derive(Clone, Debug, PartialEq, Eq)]
pub struct Raster {
    width: u32,
    height: u32,
    pixels: Vec<u8>,
}

impl View for Raster {
    type V = Bitmap;

    closed spec fn view(&self) -> Bitmap {
        Bitmap { width: self.width as nat, height: self.height as nat, pixels: self.pixels@ }
    }
}

/// A bitmap holds one gray level for each of its pixels.
pub open spec fn bitmap_wf(bitmap: Bitmap) -> bool {
    bitmap.pixels.len() == bitmap.width * bitmap.height
}

/// The pixels per side of the picture of a symbol of `width` modules with
/// `quiet` light modules around it.
pub open spec fn rendered_side(width: nat, quiet: nat) -> nat {
    (width + 2 * quiet) * MODULE_PIXELS as nat
}

/// The gray level at column `x` of row `y` in that picture: dark where the
/// pixel lies in a dark module of the symbol, light elsewhere.
pub open spec fn rendered_pixel(grid: ModuleGrid, quiet: nat, x: int, y: int) -> u8 {
    let column = x / MODULE_PIXELS as int - quiet;
    let row = y / MODULE_PIXELS as int - quiet;
    if 0 <= column < grid.width && 0 <= row < grid.width && grid.dark[row * grid.width + column] {
        DARK
    } else {
        LIGHT
    }
}

/// The picture of a symbol: a square in which each module is a block of
/// `MODULE_PIXELS` by `MODULE_PIXELS` pixels, with `quiet` modules of light
/// on every side.
pub open spec fn rendering(grid: ModuleGrid, quiet: nat) -> Bitmap {
    let side = rendered_side(grid.width, quiet);
    Bitmap {
        width: side,
        height: side,
        pixels: Seq::new(
            side * side,
            |i: int| rendered_pixel(grid, quiet, i % side as int, i / side as int),
        ),
    }
}

#[verifier::external_type_specification]
#[verifier::external_body]
pub struct ExImageError(image::ImageError);

/// The bytes that `image::ImageBuffer::write_to` writes for an eight-bit
/// grayscale image in the format `image::ImageFormat::Png`, or `None` where
/// it reports an error.
pub uninterp spec fn png_encoding(width: nat, height: nat, pixels: Seq<u8>) -> Option<Seq<u8>>;

/// The PNG bytes of a bitmap.
pub open spec fn png_of(bitmap: Bitmap) -> Option<Seq<u8>> {
    png_encoding(bitmap.width, bitmap.height, bitmap.pixels)
}

impl Raster {
    /// The invariant of a raster: see `bitmap_wf`.
    pub open spec fn wf(&self) -> bool {
        bitmap_wf(self@)
    }

    /// A raster of `width` by `height` pixels with the given gray levels, row
    /// by row. `None` unless there are `width * height` of them.
    pub fn from_pixels(width: u32, height: u32, pixels: Vec<u8>) -> (made: Option<Raster>)
        ensures
            match made {
                Some(raster) => raster.wf() && raster@ == (Bitmap {
                    width: width as nat,
                    height: height as nat,
                    pixels: pixels@,
                }),
                None => pixels@.len() != width * height,
            },
    {
        let count: u64 = pixels.len() as u64;
        assert(width * height <= 0xffff_ffff * 0xffff_ffff) by (nonlinear_arith)
            requires
                0 <= width <= 0xffff_ffff,
                0 <= height <= 0xffff_ffff,
        ;
        if count == (width as u64) * (height as u64) {
            Some(Raster { width, height, pixels })
        } else {
            None
        }
    }

    /// The number of pixels in a row.
    pub fn width(&self) -> (width: u32)
        ensures
            width == self@.width,
    {
        self.width
    }

    /// The number of rows.
    pub fn height(&self) -> (height: u32)
        ensures
            height == self@.height,
    {
        self.height
    }

    /// The gray levels, row by row.
    pub fn pixels(&self) -> (pixels: &Vec<u8>)
        ensures
            pixels@ == self@.pixels,
    {
        &self.pixels
    }
}

/// `qrcode::render::Renderer::<image::Luma<u8>>::new(modules, width, quiet_zone)`
/// followed by `build()`, the image handed out as its dimensions and its raw
/// buffer. With the renderer's defaults a module is eight by eight pixels,
/// a dark one of level 0 on a ground of level 255, and `quiet_zone` modules
/// are left light on each side. `new` panics unless there are `width * width`
/// modules, and `build` where the picture's side or its buffer overflows.
#[verifier::external_body]
pub(crate) fn build_picture(symbol: &QrSymbol, quiet_zone: u32) -> (picture: Raster)
    requires
        symbol.wf(),
        rendered_side(symbol@.width, quiet_zone as nat) <= u32::MAX,
        rendered_side(symbol@.width, quiet_zone as nat) * rendered_side(
            symbol@.width,
            quiet_zone as nat,
        ) <= isize::MAX,
    ensures
        picture@ == rendering(symbol@, quiet_zone as nat),
{
    let modules: Vec<qrcode::Color> = symbol.modules().iter().map(
        |dark| if *dark { qrcode::Color::Dark } else { qrcode::Color::Light },
    ).collect();
    let image = qrcode::render::Renderer::<image::Luma<u8>>::new(
        &modules,
        symbol.width(),
        quiet_zone,
    ).build();
    Raster { width: image.width(), height: image.height(), pixels: image.into_raw() }
}

/// `image::ImageBuffer::write_to` with `image::ImageFormat::Png`, into a
/// buffer in memory, on the image that `image::ImageBuffer::from_raw` makes
/// of the raster. The bytes depend on the raster alone. The encoder panics
/// unless the buffer holds one byte for each pixel.
#[verifier::external_body]
pub(crate) fn write_png(raster: &Raster) -> (written: Result<Vec<u8>, image::ImageError>)
    requires
        raster.wf(),
    ensures
        match written {
            Ok(bytes) => png_encoding(raster@.width, raster@.height, raster@.pixels) == Some(
                bytes@,
            ),
            Err(_) => png_encoding(raster@.width, raster@.height, raster@.pixels).is_none(),
        },
{
    let mut bytes = Vec::new();
    let image = image::ImageBuffer::<image::Luma<u8>, &[u8]>::from_raw(
        raster.width,
        raster.height,
        &raster.pixels,
    ).expect("a raster holds one byte for each pixel");
    image.write_to(&mut std::io::Cursor::new(&mut bytes), image::ImageFormat::Png)?;
    Ok(bytes)
}

/// The side of a picture with the standard quiet zone is at most 1480
/// pixels.
pub proof fn lemma_rendered_side_bound(width: nat)
    requires
        width <= MAX_WIDTH,
    ensures
        rendered_side(width, QUIET_ZONE as nat) == (width + 8) * 8,
        rendered_side(width, QUIET_ZONE as nat) <= 1480,
        rendered_side(width, QUIET_ZONE as nat) * rendered_side(width, QUIET_ZONE as nat)
            <= 2190400,
{
    let side = rendered_side(width, QUIET_ZONE as nat);
    assert(side * side <= 1480 * 1480) by (nonlinear_arith)
        requires
            0 <= side <= 1480,
    ;
}

/// The picture of `symbol`: each module eight by eight pixels, dark on
/// light, within a quiet zone of four modules.
pub fn render(symbol: &QrSymbol) -> (picture: Raster)
    requires
        symbol.wf(),
    ensures
        picture@ == rendering(symbol@, QUIET_ZONE as nat),
        picture.wf(),
        picture@.width == (symbol@.width + 2 * QUIET_ZONE) * MODULE_PIXELS,
        picture@.height == picture@.width,
{
    proof {
        lemma_rendered_side_bound(symbol@.width);
    }
    build_picture(symbol, QUIET_ZONE)
}

/// The PNG bytes of `raster`, as an eight-bit grayscale image. Fails exactly
/// where the encoder reports an error.
pub fn png_bytes(raster: &Raster) -> (written: Result<Vec<u8>, EncodeError>)
    requires
        raster.wf(),
    ensures
        match png_of(raster@) {
            Some(bytes) => written.is_ok() && written.unwrap()@ == bytes,
            None => written == Err::<Vec<u8>, EncodeError>(EncodeError::Io),
        },
{
    match write_png(raster) {
        Ok(bytes) => Ok(bytes),
        Err(_) => Err(EncodeError::Io),
    }
}

/// Every pixel of a picture is dark or light, and the pixels of the quiet
/// zone are light.
pub proof fn lemma_rendering_is_two_level(grid: ModuleGrid, quiet: nat, x: int, y: int)
    requires
        0 <= x < rendered_side(grid.width, quiet),
        0 <= y < rendered_side(grid.width, quiet),
    ensures
        rendered_pixel(grid, quiet, x, y) == DARK || rendered_pixel(grid, quiet, x, y) == LIGHT,
        x < quiet * MODULE_PIXELS || y < quiet * MODULE_PIXELS ==> rendered_pixel(
            grid,
            quiet,
            x,
            y,
        ) == LIGHT,
        rendering(grid, quiet).pixels[y * rendered_side(grid.width, quiet) + x] == rendered_pixel(
            grid,
            quiet,
            x,
            y,
        ),
{
    let side = rendered_side(grid.width, quiet) as int;
    lemma_cell_in_grid(side, x, y);
    let i = y * side + x;
    assert(i % side == x && i / side == y) by (nonlinear_arith)
        requires
            i == y * side + x,
            0 <= x < side,
            0 <= y,
    ;
}

} // verus!
