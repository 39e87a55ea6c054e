use vstd::prelude::*;
use vstd::arithmetic::div_mod::lemma_multiply_divide_lt;
use crate::errors::PipelineError;
use crate::frames::{
    blit_of, canvas_blit, canvas_height, canvas_new, canvas_pixels, canvas_width, frame_dims,
    frame_height, frame_pixels, frame_width, resize_frame, resized_of, Canvas, Frame,
};
use crate::geometry::{
    spec_canvas_height, spec_canvas_width, spec_cell_left, spec_cell_top, spec_geometry_fits,
    spec_thumb_height, Geometry, Layout, MAX_SHEET_BYTES,
};

verus! {

/// A buffer of `n` zero bytes: the blank canvas every sheet starts from.
pub open spec fn spec_blank(n: int) -> Seq<u8> {
    Seq::new(n as nat, |i: int| 0u8)
}

/// The pixel geometry that a fitting layout and source yield.
pub open spec fn spec_sheet_geometry(l: Layout, width_px: int, height_px: int) -> Geometry {
    let th = spec_thumb_height(l.thumb_width as int, width_px, height_px);
    Geometry {
        thumb_height: th as u32,
        canvas_width: spec_canvas_width(l) as u32,
        canvas_height: spec_canvas_height(l, th) as u32,
    }
}

/// A staged frame the compositor can rescale: it has pixels, and the
/// rescale's working buffer stays under the maximum size of a vector.
pub open spec fn frame_fits(f: Frame, thumb_height: u32) -> bool {
    &&& 1 <= frame_width(f)
    &&& 1 <= frame_height(f)
    &&& 16 * frame_width(f) * thumb_height <= MAX_SHEET_BYTES
}

/// The canvas bytes after the first `n` staged frames are rescaled and
/// pasted, each into its row-major grid cell.
pub open spec fn composed_upto(frames: Seq<Frame>, l: Layout, g: Geometry, n: int) -> Seq<u8>
    decreases n,
{
    if n <= 0 {
        spec_blank(3 * g.canvas_width * g.canvas_height)
    } else {
        let i = n - 1;
        let row = i / (l.columns as int);
        let col = i % (l.columns as int);
        blit_of(
            composed_upto(frames, l, g, i),
            g.canvas_width as int,
            g.canvas_height as int,
            resized_of(
                frame_pixels(frames[i]),
                frame_width(frames[i]) as int,
                frame_height(frames[i]) as int,
                l.thumb_width as int,
                g.thumb_height as int,
            ),
            l.thumb_width as int,
            g.thumb_height as int,
            spec_cell_left(l, col),
            spec_cell_top(l, g.thumb_height as int, row),
        )
    }
}

/// The finished sheet's bytes: every staged frame composited in order.
pub open spec fn spec_sheet_pixels(frames: Seq<Frame>, l: Layout, g: Geometry) -> Seq<u8> {
    composed_upto(frames, l, g, frames.len() as int)
}

/// Composites the staged frames of one run into a contact sheet: a blank
/// canvas of the layout's dimensions, with each frame rescaled to the
/// thumbnail box and pasted into its row-major grid cell.
///
/// The sheet's bytes are a function of the staged frames and the layout
/// alone, so composing the same inputs twice gives byte-identical sheets.
pub fn compose(frames: &Vec<Frame>, layout: &Layout, width_px: u32, height_px: u32) -> (r: Result<
    Canvas,
    PipelineError,
>)
    ensures
        !layout.wf() ==> (r matches Err(e) && e == PipelineError::InvalidLayout),
        layout.wf() && (width_px == 0 || height_px == 0) ==> (r matches Err(e) && e
            == PipelineError::InvalidMedia),
        layout.wf() && width_px >= 1 && height_px >= 1 && !spec_geometry_fits(
            *layout,
            width_px as int,
            height_px as int,
        ) ==> (r matches Err(e) && e == PipelineError::SheetTooLarge),
        layout.wf() && width_px >= 1 && height_px >= 1 && spec_geometry_fits(
            *layout,
            width_px as int,
            height_px as int,
        ) && frames@.len() != layout.spec_total() ==> (r matches Err(e) && e
            == PipelineError::MissingFrame),
        layout.wf() && width_px >= 1 && height_px >= 1 && spec_geometry_fits(
            *layout,
            width_px as int,
            height_px as int,
        ) && frames@.len() == layout.spec_total() ==> {
            let g = spec_sheet_geometry(*layout, width_px as int, height_px as int);
            &&& (r is Ok <==> forall|i: int|
                0 <= i < frames@.len() ==> frame_fits(#[trigger] frames@[i], g.thumb_height))
            &&& (r matches Err(e) ==> e matches PipelineError::BlitFailed { index } && 0 <= index
                < frames@.len() && !frame_fits(frames@[index as int], g.thumb_height) && forall|
                j: int,
            |
                0 <= j < index ==> frame_fits(#[trigger] frames@[j], g.thumb_height))
            &&& (r matches Ok(c) ==> canvas_width(c) == g.canvas_width && canvas_height(c)
                == g.canvas_height && canvas_pixels(c) == spec_sheet_pixels(frames@, *layout, g)
                && canvas_pixels(c).len() == 3 * g.canvas_width * g.canvas_height)
        },
{
    let g: Geometry = match layout.geometry(width_px, height_px) {
        Ok(g) => g,
        Err(e) => { return Err(e) },
    };
    let total: u64 = layout.total();
    if frames.len() as u64 != total {
        return Err(PipelineError::MissingFrame);
    }
    proof {
        let m: int = 0xffff_ffff;
        let thi: int = spec_thumb_height(
            layout.thumb_width as int,
            width_px as int,
            height_px as int,
        );
        assert(layout.thumb_width <= spec_canvas_width(*layout) && thi <= spec_canvas_height(
            *layout,
            thi,
        )) by (nonlinear_arith)
            requires
                layout.wf(),
                thi >= 1,
        ;
        assert(3 * (layout.thumb_width as int) * thi <= 3 * spec_canvas_width(*layout)
            * spec_canvas_height(*layout, thi)) by (nonlinear_arith)
            requires
                1 <= layout.thumb_width as int <= spec_canvas_width(*layout),
                1 <= thi <= spec_canvas_height(*layout, thi),
        ;
    }
    let mut canvas: Canvas = canvas_new(g.canvas_width, g.canvas_height);
    let ghost gspec: Geometry = spec_sheet_geometry(
        *layout,
        width_px as int,
        height_px as int,
    );
    let mut idx: usize = 0;
    while idx < frames.len()
        invariant
            layout.wf(),
            width_px >= 1,
            height_px >= 1,
            spec_geometry_fits(*layout, width_px as int, height_px as int),
            g == gspec,
            gspec == spec_sheet_geometry(*layout, width_px as int, height_px as int),
            frames@.len() == layout.spec_total(),
            3 * (layout.thumb_width as int) * (g.thumb_height as int) <= MAX_SHEET_BYTES,
            0 <= idx <= frames@.len(),
            canvas_width(canvas) == g.canvas_width,
            canvas_height(canvas) == g.canvas_height,
            canvas_pixels(canvas).len() == 3 * g.canvas_width * g.canvas_height,
            canvas_pixels(canvas) == composed_upto(frames@, *layout, g, idx as int),
            forall|j: int| 0 <= j < idx ==> frame_fits(#[trigger] frames@[j], g.thumb_height),
        decreases frames@.len() - idx,
    {
        let f: &Frame = &frames[idx];
        let d = frame_dims(f);
        proof {
            let m: int = 0xffff_ffff;
            assert(16 * (d.0 as int) * (g.thumb_height as int) <= 16 * m * m) by (nonlinear_arith)
                requires
                    0 <= d.0 as int <= m,
                    0 <= g.thumb_height as int <= m,
            ;
        }
        let fits: bool = d.0 >= 1 && d.1 >= 1 && 16u128 * (d.0 as u128) * (g.thumb_height as u128)
            <= MAX_SHEET_BYTES as u128;
        if !fits {
            return Err(PipelineError::BlitFailed { index: idx as u64 });
        }
        let resized: Frame = resize_frame(f, layout.thumb_width, g.thumb_height);
        let col: u64 = (idx as u64) % (layout.columns as u64);
        let row: u64 = (idx as u64) / (layout.columns as u64);
        proof {
            assert((layout.columns as int) * (layout.rows as int) == layout.spec_total())
                by (nonlinear_arith);
            lemma_multiply_divide_lt(idx as int, layout.columns as int, layout.rows as int);
            assert(spec_cell_left(*layout, col as int) + layout.thumb_width <= spec_canvas_width(
                *layout,
            )) by (nonlinear_arith)
                requires
                    0 <= col as int <= layout.columns as int - 1,
                    layout.wf(),
            ;
            assert(spec_cell_top(*layout, g.thumb_height as int, row as int) + g.thumb_height
                <= spec_canvas_height(*layout, g.thumb_height as int)) by (nonlinear_arith)
                requires
                    0 <= row as int <= layout.rows as int - 1,
                    layout.wf(),
            ;
            assert(col * layout.thumb_width + (col + 1) * layout.spacing == spec_cell_left(
                *layout,
                col as int,
            )) by (nonlinear_arith);
            assert(row * g.thumb_height + (row + 1) * layout.spacing == spec_cell_top(
                *layout,
                g.thumb_height as int,
                row as int,
            )) by (nonlinear_arith);
        }
        let left: u32 = ((col * (layout.thumb_width as u64)) + (col + 1) * (layout.spacing as u64))
            as u32;
        let top: u32 = ((row * (g.thumb_height as u64)) + (row + 1) * (layout.spacing as u64))
            as u32;
        let blit_result = canvas_blit(&mut canvas, &resized, left, top);
        proof {
            if blit_result is Err {
                assert(false);
            }
        }
        idx = idx + 1;
        proof {
            assert(canvas_pixels(canvas) == composed_upto(frames@, *layout, g, idx as int));
        }
    }
    Ok(canvas)
}

/// Composing is idempotent: two canvases produced from the same staged
/// frames, layout and geometry hold byte-identical pixels, since the
/// sheet's bytes are a function of those inputs alone.
pub proof fn lemma_compose_idempotent(
    first: Canvas,
    second: Canvas,
    frames: Seq<Frame>,
    l: Layout,
    g: Geometry,
)
    requires
        canvas_pixels(first) == spec_sheet_pixels(frames, l, g),
        canvas_pixels(second) == spec_sheet_pixels(frames, l, g),
    ensures
        canvas_pixels(first) == canvas_pixels(second),
{
}

} // verus!
