use kagura::config::Config;
use kagura::errors::PipelineError;
use kagura::geometry::Layout;
use kagura::plan::plan;
use kagura::probe::{parse_duration_ms, parse_u32, MediaDescriptor};

#[test]
fn plan_two_by_two_over_forty_seconds() {
    let samples = plan(40_000, 2, 2).unwrap();
    let ts: Vec<u64> = samples.iter().map(|s| s.timestamp_ms).collect();
    assert_eq!(ts, vec![0, 10_000, 20_000, 30_000]);
    for (i, s) in samples.iter().enumerate() {
        assert_eq!(s.index, i as u64);
    }
}

#[test]
fn plan_is_even_and_monotone() {
    let samples = plan(41_000, 2, 3).unwrap();
    assert_eq!(samples.len(), 6);
    assert_eq!(samples[0].timestamp_ms, 0);
    let expected: Vec<u64> = (0..6u64).map(|i| 41_000 * i / 6).collect();
    let got: Vec<u64> = samples.iter().map(|s| s.timestamp_ms).collect();
    assert_eq!(got, expected);
    for w in samples.windows(2) {
        assert!(w[0].timestamp_ms <= w[1].timestamp_ms);
    }
    assert_eq!(samples[5].timestamp_ms, 41_000 * 5 / 6);
    assert!(samples[5].timestamp_ms < 41_000);
}

#[test]
fn plan_rejects_zero_rows() {
    assert!(matches!(plan(40_000, 0, 2), Err(PipelineError::InvalidLayout)));
    assert!(matches!(plan(40_000, 2, 0), Err(PipelineError::InvalidLayout)));
}

#[test]
fn plan_rejects_zero_duration() {
    assert!(matches!(plan(0, 2, 2), Err(PipelineError::InvalidMedia)));
}

#[test]
fn geometry_example_full_hd() {
    let layout = Layout { rows: 2, columns: 2, spacing: 10, thumb_width: 100 };
    let g = layout.geometry(1920, 1080).unwrap();
    assert_eq!(g.thumb_height, 56);
    assert_eq!(g.canvas_width, 2 * 100 + 10 * 3);
    assert_eq!(g.canvas_width, 230);
    assert_eq!(g.canvas_height, 2 * 56 + 10 * 3);
    assert_eq!(g.canvas_height, 142);
}

#[test]
fn geometry_rounds_the_thumb_height_to_the_nearest_pixel() {
    let layout = Layout { rows: 1, columns: 1, spacing: 1, thumb_width: 100 };
    // 100 * 2 / 3 = 66.67 rounds up.
    assert_eq!(layout.geometry(3, 2).unwrap().thumb_height, 67);
    // 100 * 1 / 3 = 33.33 rounds down.
    assert_eq!(layout.geometry(3, 1).unwrap().thumb_height, 33);
    // A half rounds up: 3 * 1 / 2 = 1.5.
    let narrow = Layout { rows: 1, columns: 1, spacing: 1, thumb_width: 3 };
    assert_eq!(narrow.geometry(2, 1).unwrap().thumb_height, 2);
}

#[test]
fn geometry_is_stable_under_rescaling() {
    let layout = Layout { rows: 3, columns: 4, spacing: 7, thumb_width: 123 };
    let g1 = layout.geometry(1920, 1080).unwrap();
    let g2 = layout.geometry(3840, 2160).unwrap();
    let g3 = layout.geometry(640, 360).unwrap();
    assert_eq!(g1.thumb_height, g2.thumb_height);
    assert_eq!(g1.thumb_height, g3.thumb_height);
}

#[test]
fn geometry_rejects_zero_fields_and_zero_media() {
    let bad = Layout { rows: 0, columns: 2, spacing: 10, thumb_width: 100 };
    assert!(matches!(bad.geometry(1920, 1080), Err(PipelineError::InvalidLayout)));
    let ok = Layout { rows: 2, columns: 2, spacing: 10, thumb_width: 100 };
    assert!(matches!(ok.geometry(0, 1080), Err(PipelineError::InvalidMedia)));
    assert!(matches!(ok.geometry(1920, 0), Err(PipelineError::InvalidMedia)));
}

#[test]
fn geometry_rejects_oversized_sheets() {
    let layout = Layout { rows: 1, columns: 1, spacing: 4_000_000_000, thumb_width: 100 };
    assert!(matches!(layout.geometry(1920, 1080), Err(PipelineError::SheetTooLarge)));
}

#[test]
fn layout_new_validates_fields() {
    assert!(matches!(Layout::new(0, 4, 10, 500), Err(PipelineError::InvalidLayout)));
    assert!(matches!(Layout::new(4, 0, 10, 500), Err(PipelineError::InvalidLayout)));
    assert!(matches!(Layout::new(4, 4, 0, 500), Err(PipelineError::InvalidLayout)));
    assert!(matches!(Layout::new(4, 4, 10, 0), Err(PipelineError::InvalidLayout)));
    let l = Layout::new(4, 4, 10, 500).unwrap();
    assert_eq!(l, Layout { rows: 4, columns: 4, spacing: 10, thumb_width: 500 });
}

#[test]
fn config_defaults_match_the_app() {
    let c = Config::default();
    assert_eq!(c, Config { rows_count: 4, columns_count: 4, spacing: 10, thumb_width: 500 });
    let l = c.layout().unwrap();
    assert_eq!(l, Layout { rows: 4, columns: 4, spacing: 10, thumb_width: 500 });
}

#[test]
fn parse_u32_reads_probe_dimensions() {
    assert_eq!(parse_u32(b"1920"), Some(1920));
    assert_eq!(parse_u32(b"0"), Some(0));
    assert_eq!(parse_u32(b"4294967295"), Some(u32::MAX));
}

#[test]
fn parse_u32_rejects_junk_and_overflow() {
    assert_eq!(parse_u32(b""), None);
    assert_eq!(parse_u32(b"12a"), None);
    assert_eq!(parse_u32(b"-5"), None);
    assert_eq!(parse_u32(b"4294967296"), None);
}

#[test]
fn parse_duration_reads_probe_output() {
    assert_eq!(parse_duration_ms(b"40.000000"), Some(40_000));
    assert_eq!(parse_duration_ms(b"40"), Some(40_000));
    assert_eq!(parse_duration_ms(b"12.3"), Some(12_300));
    assert_eq!(parse_duration_ms(b"0.5"), Some(500));
    assert_eq!(parse_duration_ms(b"1.2345"), Some(1_234));
    assert_eq!(parse_duration_ms(b"7."), Some(7_000));
    assert_eq!(parse_duration_ms(b"0.05"), Some(50));
}

#[test]
fn parse_duration_rejects_junk_and_overflow() {
    assert_eq!(parse_duration_ms(b""), None);
    assert_eq!(parse_duration_ms(b"."), None);
    assert_eq!(parse_duration_ms(b".5"), None);
    assert_eq!(parse_duration_ms(b"abc"), None);
    assert_eq!(parse_duration_ms(b"1.2.3"), None);
    assert_eq!(parse_duration_ms(b"12a.5"), None);
    assert_eq!(parse_duration_ms(b"99999999999999999999"), None);
}

#[test]
fn descriptor_requires_positive_media() {
    let d = MediaDescriptor::new(String::from("a.mkv"), 1920, 1080, 40_000).unwrap();
    assert_eq!(d.width_px, 1920);
    assert_eq!(d.height_px, 1080);
    assert_eq!(d.duration_ms, 40_000);
    assert_eq!(d.path, "a.mkv");
    assert!(matches!(
        MediaDescriptor::new(String::from("a.mkv"), 0, 1080, 40_000),
        Err(PipelineError::InvalidMedia)
    ));
    assert!(matches!(
        MediaDescriptor::new(String::from("a.mkv"), 1920, 1080, 0),
        Err(PipelineError::InvalidMedia)
    ));
}
