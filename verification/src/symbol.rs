//! QR symbols as square grids of dark and light modules.

use vstd::prelude::*;
use crate::failure::EncodeError;

verus! {

/// The modules per side of the largest QR symbol.
pub const MAX_WIDTH: usize = 177;

/// The characters held by the largest QR symbol in its densest mode. A longer
/// payload fits no symbol.
pub const MAX_PAYLOAD_BYTES: usize = 7089;

/// What a symbol is: `width` modules per side, and for each module whether
/// it is dark, row by row from the top left.
pub struct ModuleGrid {
    pub width: nat,
    pub dark: Seq<bool>,
}

/// A QR symbol, without the quiet zone around it.
#[derive(Clone, Debug, PartialEq, Eq)]
pub struct QrSymbol {
    width: usize,
    dark: Vec<bool>,
}

impl View for QrSymbol {
    type V = ModuleGrid;

    closed spec fn view(&self) -> ModuleGrid {
        ModuleGrid { width: self.width as nat, dark: self.dark@ }
    }
}

/// A grid is square and no wider than the largest QR symbol.
pub open spec fn grid_wf(grid: ModuleGrid) -> bool {
    &&& grid.width <= MAX_WIDTH
    &&& grid.dark.len() == grid.width * grid.width
}

#[verifier::external_type_specification]
#[verifier::external_body]
pub struct ExQrError(qrcode::types::QrError);

/// The symbol that `qrcode::QrCode::new` makes of `data`: its width and its
/// modules, or `None` where it reports an error. It picks the smallest
/// version that holds the data at the medium error correction level, and the
/// best of the eight masks.
pub uninterp spec fn qr_modules(data: Seq<u8>) -> Option<(nat, Seq<bool>)>;

/// The symbol for `data`: none for data longer than any symbol holds,
/// otherwise what the encoder makes of it.
pub open spec fn symbol_of(data: Seq<u8>) -> Option<ModuleGrid> {
    if data.len() > MAX_PAYLOAD_BYTES {
        None
    } else {
        match qr_modules(data) {
            Some((width, dark)) => Some(ModuleGrid { width, dark }),
            None => None,
        }
    }
}

impl QrSymbol {
    /// The invariant of a symbol: see `grid_wf`.
    pub open spec fn wf(&self) -> bool {
        grid_wf(self@)
    }

    /// A symbol of `width` modules per side with the given modules, row by
    /// row. `None` unless there are `width * width` modules and `width` is
    /// at most `MAX_WIDTH`.
    pub fn from_modules(width: usize, dark: Vec<bool>) -> (made: Option<QrSymbol>)
        ensures
            match made {
                Some(symbol) => symbol.wf() && symbol@ == (ModuleGrid {
                    width: width as nat,
                    dark: dark@,
                }),
                None => !grid_wf(ModuleGrid { width: width as nat, dark: dark@ }),
            },
    {
        if width > MAX_WIDTH {
            return None;
        }
        assert(width * width <= 177 * 177) by (nonlinear_arith)
            requires
                0 <= width <= 177,
        ;
        if dark.len() == width * width {
            Some(QrSymbol { width, dark })
        } else {
            None
        }
    }

    /// The number of modules per side.
    pub fn width(&self) -> (width: usize)
        ensures
            width == self@.width,
    {
        self.width
    }

    /// The modules, row by row, dark as `true`.
    pub fn modules(&self) -> (dark: &Vec<bool>)
        ensures
            dark@ == self@.dark,
    {
        &self.dark
    }

    /// Whether the module in column `x` of row `y` is dark.
    pub fn is_dark(&self, x: usize, y: usize) -> (dark: bool)
        requires
            self.wf(),
            x < self@.width,
            y < self@.width,
        ensures
            dark == self@.dark[y * self@.width + x],
    {
        proof {
            lemma_cell_in_grid(self@.width as int, x as int, y as int);
            assert(self@.width * self@.width <= 177 * 177) by (nonlinear_arith)
                requires
                    0 <= self@.width <= 177,
            ;
        }
        self.dark[y * self.width + x]
    }
}

/// A cell of a square grid has its place within the grid's row-by-row
/// sequence.
pub proof fn lemma_cell_in_grid(width: int, x: int, y: int)
    requires
        0 <= x < width,
        0 <= y < width,
    ensures
        0 <= y * width + x < width * width,
        0 <= y * width <= width * width,
{
    assert(y * width <= (width - 1) * width) by (nonlinear_arith)
        requires
            0 <= y <= width - 1,
            0 <= width,
    ;
    assert((width - 1) * width + width == width * width) by (nonlinear_arith);
    assert(0 <= y * width) by (nonlinear_arith)
        requires
            0 <= y,
            0 <= width,
    ;
}

/// `qrcode::QrCode::new`, with the symbol handed out as its width
/// (`QrCode::width`) and its modules (`QrCode::into_colors`, dark as `true`).
/// The result depends on `data` alone. A symbol that it makes has one of the
/// versions 1 to 40, so it is 21 to 177 modules wide, and holds a module for
/// each cell of the square.
#[verifier::external_body]
pub(crate) fn new_symbol(data: &[u8]) -> (made: Result<QrSymbol, qrcode::types::QrError>)
    requires
        data@.len() <= MAX_PAYLOAD_BYTES,
    ensures
        match made {
            Ok(symbol) => symbol.wf() && qr_modules(data@) == Some((symbol@.width, symbol@.dark)),
            Err(_) => qr_modules(data@).is_none(),
        },
{
    match qrcode::QrCode::new(data) {
        Ok(code) => Ok(
            QrSymbol {
                width: code.width(),
                dark: code.into_colors().into_iter().map(|c| c.select(true, false)).collect(),
            },
        ),
        Err(e) => Err(e),
    }
}

/// The QR symbol that carries `payload`: the smallest that holds it at the
/// medium error correction level. Fails exactly where no symbol holds the
/// payload.
pub fn symbol_for(payload: &[u8]) -> (made: Result<QrSymbol, EncodeError>)
    ensures
        match symbol_of(payload@) {
            Some(grid) => made.is_ok() && made.unwrap()@ == grid && made.unwrap().wf(),
            None => made == Err::<QrSymbol, EncodeError>(EncodeError::Encoding),
        },
{
    if payload.len() > MAX_PAYLOAD_BYTES {
        return Err(EncodeError::Encoding);
    }
    match new_symbol(payload) {
        Ok(symbol) => Ok(symbol),
        Err(_) => Err(EncodeError::Encoding),
    }
}

} // verus!
