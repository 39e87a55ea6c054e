use image::GenericImageView;
use kagura::compose::compose;
use kagura::errors::PipelineError;
use kagura::frames::Frame;
use kagura::geometry::Layout;

fn solid_frame(w: u32, h: u32, rgb: [u8; 3]) -> Frame {
    let buf = image::ImageBuffer::from_pixel(w, h, image::Rgb(rgb));
    Frame::from_image(image::DynamicImage::ImageRgb8(buf))
}

fn rgb_at(bytes: &[u8], canvas_w: u32, x: u32, y: u32) -> [u8; 3] {
    let i = ((y * canvas_w + x) * 3) as usize;
    [bytes[i], bytes[i + 1], bytes[i + 2]]
}

#[test]
fn compose_places_one_thumbnail() {
    // 1x1 grid, 1px spacing, 2px thumbnails of a square source: 4x4 canvas
    // with a red 2x2 block at (1, 1) and black spacing around it.
    let layout = Layout { rows: 1, columns: 1, spacing: 1, thumb_width: 2 };
    let frames = vec![solid_frame(2, 2, [255, 0, 0])];
    let sheet = compose(&frames, &layout, 2, 2).unwrap();
    assert_eq!(sheet.size(), (4, 4));
    let bytes = sheet.bytes();
    assert_eq!(bytes.len(), 4 * 4 * 3);
    assert_eq!(rgb_at(&bytes, 4, 0, 0), [0, 0, 0]);
    assert_eq!(rgb_at(&bytes, 4, 3, 3), [0, 0, 0]);
    assert_eq!(rgb_at(&bytes, 4, 1, 1), [255, 0, 0]);
    assert_eq!(rgb_at(&bytes, 4, 2, 2), [255, 0, 0]);
    assert_eq!(rgb_at(&bytes, 4, 3, 1), [0, 0, 0]);
}

#[test]
fn compose_rescales_frames_to_the_thumb_box() {
    // The staged frame is larger than the thumbnail box; composing must
    // shrink it to exactly 2x2 or the paste could not land inside the cell.
    let layout = Layout { rows: 1, columns: 1, spacing: 1, thumb_width: 2 };
    let frames = vec![solid_frame(8, 8, [0, 200, 0])];
    let sheet = compose(&frames, &layout, 2, 2).unwrap();
    let bytes = sheet.bytes();
    assert_eq!(rgb_at(&bytes, 4, 1, 1), [0, 200, 0]);
    assert_eq!(rgb_at(&bytes, 4, 2, 1), [0, 200, 0]);
    assert_eq!(rgb_at(&bytes, 4, 0, 0), [0, 0, 0]);
    assert_eq!(rgb_at(&bytes, 4, 3, 3), [0, 0, 0]);
}

#[test]
fn compose_fills_cells_in_row_major_order() {
    // 2x2 grid of distinct colours; check one pixel inside each cell.
    let layout = Layout { rows: 2, columns: 2, spacing: 1, thumb_width: 2 };
    let frames = vec![
        solid_frame(2, 2, [255, 0, 0]),
        solid_frame(2, 2, [0, 255, 0]),
        solid_frame(2, 2, [0, 0, 255]),
        solid_frame(2, 2, [255, 255, 0]),
    ];
    let sheet = compose(&frames, &layout, 2, 2).unwrap();
    // thumb_height == 2, canvas 7x7; cells start at x,y in {1, 4}.
    assert_eq!(sheet.size(), (7, 7));
    let bytes = sheet.bytes();
    assert_eq!(rgb_at(&bytes, 7, 1, 1), [255, 0, 0]);
    assert_eq!(rgb_at(&bytes, 7, 4, 1), [0, 255, 0]);
    assert_eq!(rgb_at(&bytes, 7, 1, 4), [0, 0, 255]);
    assert_eq!(rgb_at(&bytes, 7, 4, 4), [255, 255, 0]);
    assert_eq!(rgb_at(&bytes, 7, 3, 3), [0, 0, 0]);
}

#[test]
fn compose_twice_is_byte_identical() {
    let layout = Layout { rows: 2, columns: 2, spacing: 10, thumb_width: 100 };
    let frames = vec![
        solid_frame(16, 9, [255, 0, 0]),
        solid_frame(16, 9, [0, 255, 0]),
        solid_frame(16, 9, [0, 0, 255]),
        solid_frame(16, 9, [9, 9, 9]),
    ];
    let first = compose(&frames, &layout, 1920, 1080).unwrap();
    let second = compose(&frames, &layout, 1920, 1080).unwrap();
    assert_eq!(first.size(), second.size());
    assert_eq!(first.bytes(), second.bytes());
    assert_eq!(first.bytes().len(), 230 * 142 * 3);
}

#[test]
fn compose_rejects_bad_layout_and_media() {
    let frames: Vec<Frame> = vec![];
    let bad = Layout { rows: 0, columns: 1, spacing: 1, thumb_width: 2 };
    assert!(matches!(compose(&frames, &bad, 2, 2), Err(PipelineError::InvalidLayout)));
    let ok = Layout { rows: 1, columns: 1, spacing: 1, thumb_width: 2 };
    assert!(matches!(compose(&frames, &ok, 0, 2), Err(PipelineError::InvalidMedia)));
    let huge = Layout { rows: 1, columns: 1, spacing: 4_000_000_000, thumb_width: 2 };
    assert!(matches!(compose(&frames, &huge, 2, 2), Err(PipelineError::SheetTooLarge)));
}

#[test]
fn compose_rejects_a_missing_frame() {
    let layout = Layout { rows: 1, columns: 2, spacing: 1, thumb_width: 2 };
    let frames = vec![solid_frame(2, 2, [1, 2, 3])];
    assert!(matches!(compose(&frames, &layout, 2, 2), Err(PipelineError::MissingFrame)));
}

#[test]
fn compose_rejects_an_empty_frame() {
    let layout = Layout { rows: 1, columns: 2, spacing: 1, thumb_width: 2 };
    let frames = vec![solid_frame(2, 2, [1, 2, 3]), solid_frame(0, 0, [0, 0, 0])];
    let r = compose(&frames, &layout, 2, 2);
    assert!(matches!(r, Err(PipelineError::BlitFailed { index: 1 })));
}

#[test]
fn frame_reports_its_dimensions() {
    let f = solid_frame(3, 5, [1, 2, 3]);
    assert_eq!(f.size(), (3, 5));
}

#[test]
fn sheet_image_round_trips_the_pixels() {
    let layout = Layout { rows: 1, columns: 1, spacing: 1, thumb_width: 2 };
    let frames = vec![solid_frame(2, 2, [10, 20, 30])];
    let sheet = compose(&frames, &layout, 2, 2).unwrap();
    let bytes = sheet.bytes();
    let img = sheet.into_image();
    assert_eq!(img.width(), 4);
    assert_eq!(img.height(), 4);
    assert_eq!(img.into_rgb8().into_raw(), bytes);
}
