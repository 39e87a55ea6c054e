use vstd::prelude::*;
use crate::errors::PipelineError;
use crate::geometry::Layout;

verus! {

/// The persisted settings a run snapshots at its start: the grid shape and
/// thumbnail width the contact sheets are built with.
#[derive(Clone, Copy, Debug, PartialEq, Eq, Structural)]
pub struct Config {
    pub rows_count: u32,
    pub columns_count: u32,
    pub spacing: u32,
    pub thumb_width: u32,
}

impl Default for Config {
    /// A four-by-four grid of 500-pixel-wide thumbnails, ten pixels apart.
    fn default() -> (c: Config)
        ensures
            c == (Config { rows_count: 4u32, columns_count: 4u32, spacing: 10u32, thumb_width: 500u32 }),
    {
        Config { rows_count: 4, columns_count: 4, spacing: 10, thumb_width: 500 }
    }
}

impl Config {
    /// The layout this configuration asks for, if its fields are positive.
    pub fn layout(&self) -> (r: Result<Layout, PipelineError>)
        ensures
            r is Ok <==> self.rows_count >= 1 && self.columns_count >= 1 && self.spacing >= 1
                && self.thumb_width >= 1,
            r is Ok ==> r->Ok_0 == (Layout {
                rows: self.rows_count,
                columns: self.columns_count,
                spacing: self.spacing,
                thumb_width: self.thumb_width,
            }),
            r is Err ==> r->Err_0 == PipelineError::InvalidLayout,
    {
        Layout::new(self.rows_count, self.columns_count, self.spacing, self.thumb_width)
    }
}

} // verus!
