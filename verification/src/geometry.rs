use vstd::prelude::*;
use vstd::arithmetic::div_mod::lemma_div_multiples_vanish_quotient;
use vstd::arithmetic::div_mod::lemma_div_nonincreasing;
use crate::errors::PipelineError;

verus! {

/// The pixel buffer of a raster image may hold at most this many bytes
/// (a `Vec<u8>` index must fit an `isize` on every platform).
pub const MAX_SHEET_BYTES: u64 = 0x7fff_ffff;

/// Grid configuration for one contact sheet: every field must be positive.
#[derive(Clone, Copy, Debug, PartialEq, Eq, Structural)]
pub struct Layout {
    pub rows: u32,
    pub columns: u32,
    pub spacing: u32,
    pub thumb_width: u32,
}

/// The derived pixel geometry of a contact sheet.
#[derive(Clone, Copy, Debug, PartialEq, Eq, Structural)]
pub struct Geometry {
    pub thumb_height: u32,
    pub canvas_width: u32,
    pub canvas_height: u32,
}

impl Layout {
    /// The layout invariant: rows, columns, spacing and thumbnail width
    /// are all positive.
    pub open spec fn wf(self) -> bool {
        self.rows >= 1 && self.columns >= 1 && self.spacing >= 1 && self.thumb_width >= 1
    }

    /// Number of grid cells, and of planned samples.
    pub open spec fn spec_total(self) -> int {
        self.rows * self.columns
    }

    /// Validates the four grid fields; a layout only exists when all are
    /// positive.
    pub fn new(rows: u32, columns: u32, spacing: u32, thumb_width: u32) -> (r: Result<
        Layout,
        PipelineError,
    >)
        ensures
            r is Ok <==> rows >= 1 && columns >= 1 && spacing >= 1 && thumb_width >= 1,
            r is Ok ==> r->Ok_0 == (Layout { rows, columns, spacing, thumb_width }),
            r is Err ==> r->Err_0 == PipelineError::InvalidLayout,
    {
        if rows == 0 || columns == 0 || spacing == 0 || thumb_width == 0 {
            Err(PipelineError::InvalidLayout)
        } else {
            Ok(Layout { rows, columns, spacing, thumb_width })
        }
    }

    /// Number of grid cells as a machine integer.
    pub fn total(&self) -> (r: u64)
        ensures
            r == self.spec_total(),
    {
        proof {
            let m: int = 0xffff_ffff;
            assert(self.rows * self.columns <= m * m) by (nonlinear_arith)
                requires
                    0 <= self.rows <= m,
                    0 <= self.columns <= m,
            ;
        }
        (self.rows as u64) * (self.columns as u64)
    }

    /// Computes the sheet's pixel geometry from this layout and the source
    /// video's pixel dimensions, rejecting inputs whose sheet cannot exist
    /// as a raster image.
    pub fn geometry(&self, width_px: u32, height_px: u32) -> (r: Result<Geometry, PipelineError>)
        ensures
            r is Ok <==> self.wf() && width_px >= 1 && height_px >= 1 && spec_geometry_fits(
                *self,
                width_px as int,
                height_px as int,
            ),
            !self.wf() ==> r == Err::<Geometry, PipelineError>(PipelineError::InvalidLayout),
            self.wf() && (width_px == 0 || height_px == 0) ==> r == Err::<
                Geometry,
                PipelineError,
            >(PipelineError::InvalidMedia),
            self.wf() && width_px >= 1 && height_px >= 1 && !spec_geometry_fits(
                *self,
                width_px as int,
                height_px as int,
            ) ==> r == Err::<Geometry, PipelineError>(PipelineError::SheetTooLarge),
            r is Ok ==> r->Ok_0.thumb_height == spec_thumb_height(
                self.thumb_width as int,
                width_px as int,
                height_px as int,
            ),
            r is Ok ==> r->Ok_0.canvas_width == spec_canvas_width(*self),
            r is Ok ==> r->Ok_0.canvas_height == spec_canvas_height(
                *self,
                spec_thumb_height(self.thumb_width as int, width_px as int, height_px as int),
            ),
    {
        if self.rows == 0 || self.columns == 0 || self.spacing == 0 || self.thumb_width == 0 {
            return Err(PipelineError::InvalidLayout);
        }
        if width_px == 0 || height_px == 0 {
            return Err(PipelineError::InvalidMedia);
        }
        let tw: u128 = self.thumb_width as u128;
        let w: u128 = width_px as u128;
        let h: u128 = height_px as u128;
        proof {
            let m: int = 0xffff_ffff;
            assert(2 * tw * h + w <= 2 * m * m + m) by (nonlinear_arith)
                requires
                    0 <= tw <= m,
                    0 <= h <= m,
                    0 <= w <= m,
            ;
        }
        let n: u128 = 2 * tw * h + w;
        let th: u128 = n / (2 * w);
        proof {
            lemma_div_nonincreasing(n as int, 2 * (w as int));
            let m: int = 0xffff_ffff;
            assert(self.columns * tw + self.spacing * (self.columns + 1) <= m * m + m * (m + 1))
                by (nonlinear_arith)
                requires
                    0 <= tw <= m,
                    0 <= self.columns <= m,
                    0 <= self.spacing <= m,
            ;
            assert(self.rows * th + self.spacing * (self.rows + 1) <= m * (2 * m * m + m) + m * (m
                + 1)) by (nonlinear_arith)
                requires
                    0 <= th <= 2 * m * m + m,
                    0 <= self.rows <= m,
                    0 <= self.spacing <= m,
            ;
        }
        let cw: u128 = (self.columns as u128) * tw + (self.spacing as u128) * (self.columns as u128
            + 1);
        let ch: u128 = (self.rows as u128) * th + (self.spacing as u128) * (self.rows as u128 + 1);
        if th < 1 || th > 0xffff_ffff || cw > 0xffff_ffff || ch > 0xffff_ffff {
            return Err(PipelineError::SheetTooLarge);
        }
        proof {
            let m: int = 0xffff_ffff;
            assert(3 * cw * ch <= 3 * m * m) by (nonlinear_arith)
                requires
                    0 <= cw <= m,
                    0 <= ch <= m,
            ;
        }
        if 3 * cw * ch > MAX_SHEET_BYTES as u128 {
            return Err(PipelineError::SheetTooLarge);
        }
        Ok(Geometry { thumb_height: th as u32, canvas_width: cw as u32, canvas_height: ch as u32 })
    }
}

/// Thumbnail height preserving the source's aspect ratio: the integer
/// nearest to `thumb_width * height_px / width_px` (halves round up).
pub open spec fn spec_thumb_height(thumb_width: int, width_px: int, height_px: int) -> int {
    (2 * thumb_width * height_px + width_px) / (2 * width_px)
}

/// Canvas width: the columns plus one spacing strip around and between them.
pub open spec fn spec_canvas_width(l: Layout) -> int {
    l.columns * l.thumb_width + l.spacing * (l.columns + 1)
}

/// Canvas height: the rows plus one spacing strip around and between them.
pub open spec fn spec_canvas_height(l: Layout, thumb_height: int) -> int {
    l.rows * thumb_height + l.spacing * (l.rows + 1)
}

/// Left pixel edge of the grid cell in column `col`.
pub open spec fn spec_cell_left(l: Layout, col: int) -> int {
    col * l.thumb_width + (col + 1) * l.spacing
}

/// Top pixel edge of the grid cell in row `row`.
pub open spec fn spec_cell_top(l: Layout, thumb_height: int, row: int) -> int {
    row * thumb_height + (row + 1) * l.spacing
}

/// A sheet of this layout for a source of these pixel dimensions exists as
/// a raster image: the thumbnail is at least one pixel tall, every
/// dimension fits `u32`, and the RGB pixel buffer fits in memory.
pub open spec fn spec_geometry_fits(l: Layout, width_px: int, height_px: int) -> bool {
    let th = spec_thumb_height(l.thumb_width as int, width_px, height_px);
    let cw = spec_canvas_width(l);
    let ch = spec_canvas_height(l, th);
    th >= 1 && th <= u32::MAX && cw <= u32::MAX && ch <= u32::MAX && 3 * cw * ch
        <= MAX_SHEET_BYTES
}

/// The thumbnail height depends only on the source's aspect ratio: scaling
/// the source's width and height by a common positive factor leaves it
/// unchanged.
pub proof fn lemma_thumb_height_scale_invariant(
    thumb_width: int,
    width_px: int,
    height_px: int,
    k: int,
)
    requires
        thumb_width >= 0,
        width_px >= 1,
        height_px >= 0,
        k >= 1,
    ensures
        spec_thumb_height(thumb_width, k * width_px, k * height_px) == spec_thumb_height(
            thumb_width,
            width_px,
            height_px,
        ),
{
    let a = 2 * thumb_width * height_px + width_px;
    let d = 2 * width_px;
    assert(2 * thumb_width * (k * height_px) + k * width_px == k * (2 * thumb_width * height_px
        + width_px) && 2 * (k * width_px) == k * (2 * width_px)) by (nonlinear_arith);
    lemma_div_multiples_vanish_quotient(k, a, d);
}

} // verus!
