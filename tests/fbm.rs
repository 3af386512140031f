use std::cell::RefCell;

use fbm_plot::bounds::{axis_range, limits};
use fbm_plot::canvas::{blank_pixels, Canvas, CANVAS_HEIGHT, CANVAS_WIDTH};
use fbm_plot::error::FbmError;
use fbm_plot::inline::{img_fragment, inline_chart, inline_png};
use fbm_plot::path::generate;
use fbm_plot::png::{encode, png_dimensions};
use plotters::prelude::{BitMapBackend, ChartBuilder, IntoDrawingArea, LineSeries, RED, WHITE};
use rand::Rng;

const PNG_MAGIC: [u8; 8] = [137, 80, 78, 71, 13, 10, 26, 10];

fn sample(n: usize, h: f64) -> Result<Vec<f64>, FbmError> {
    let rng = RefCell::new(rand::thread_rng());
    generate(
        n,
        0.0,
        |lag, j| {
            let scale = if j == 0 { 0.0 } else { (j as f64).powf(h - 0.5) };
            lag as f64 * scale * (rng.borrow_mut().gen::<f64>() - 0.5)
        },
        |a, b| a + b,
    )
}

fn float_limits(series: &Vec<f64>) -> (f64, f64) {
    limits(series, 0.0, |a, b| a < b)
}

fn span(bounds: (f64, f64)) -> (f64, f64) {
    axis_range(bounds, |a, b| a == b, |v| (v - 1.0, v + 1.0))
}

fn draw(series: &Vec<f64>) -> Canvas {
    let (lo, hi) = span(float_limits(series));
    let mut pixels = blank_pixels(CANVAS_WIDTH, CANVAS_HEIGHT).unwrap();
    {
        let root = BitMapBackend::with_buffer(&mut pixels, (CANVAS_WIDTH, CANVAS_HEIGHT)).into_drawing_area();
        root.fill(&WHITE).unwrap();
        let mut chart = ChartBuilder::on(&root)
            .margin(20)
            .build_cartesian_2d(0..series.len(), lo..hi)
            .unwrap();
        chart
            .draw_series(LineSeries::new((0..series.len()).map(|i| (i, series[i])), &RED))
            .unwrap();
        root.present().unwrap();
    }
    Canvas::from_pixels(CANVAS_WIDTH, CANVAS_HEIGHT, pixels).unwrap()
}

fn white_canvas(width: u32, height: u32) -> Canvas {
    let mut pixels = blank_pixels(width, height).unwrap();
    for b in pixels.iter_mut() {
        *b = 255;
    }
    Canvas::from_pixels(width, height, pixels).unwrap()
}

#[test]
fn generate_has_length_n_and_starts_at_zero() {
    for &n in &[1usize, 2, 5, 50] {
        for &h in &[0.1, 0.5, 0.9] {
            let s = sample(n, h).unwrap();
            assert_eq!(s.len(), n);
            assert_eq!(s[0], 0.0);
        }
    }
}

#[test]
fn generate_twice_keeps_length_and_origin() {
    let a = sample(20, 0.7).unwrap();
    let b = sample(20, 0.7).unwrap();
    assert_eq!(a.len(), 20);
    assert_eq!(b.len(), 20);
    assert_eq!(a[0], 0.0);
    assert_eq!(b[0], 0.0);
}

#[test]
fn generate_zero_length_is_invalid() {
    for &h in &[0.0, 0.3, 0.5, 0.8, 1.5] {
        assert_eq!(sample(0, h), Err(FbmError::InvalidLength));
    }
}

#[test]
fn generate_single_point_is_origin() {
    assert_eq!(sample(1, 0.5), Ok(vec![0.0]));
}

#[test]
fn generate_sums_one_term_per_earlier_index() {
    let calls = RefCell::new(0usize);
    let s = generate(
        4,
        0u64,
        |lag, j| {
            *calls.borrow_mut() += 1;
            lag as u64 * 10 + j as u64
        },
        |a, b| a + b,
    )
    .unwrap();
    assert_eq!(s, vec![0, 10, 31, 63]);
    assert_eq!(*calls.borrow(), 6);
}

#[test]
fn generate_with_half_hurst_stays_finite() {
    let s = sample(5, 0.5).unwrap();
    assert_eq!(s.len(), 5);
    assert!(s.iter().all(|v| v.is_finite()));
}

#[test]
fn limits_of_origin_are_zero() {
    assert_eq!(float_limits(&vec![0.0]), (0.0, 0.0));
}

#[test]
fn limits_always_take_in_zero() {
    assert_eq!(float_limits(&vec![1.0, 3.0, 2.0]), (0.0, 3.0));
    assert_eq!(float_limits(&vec![-1.0, -4.0, -2.5]), (-4.0, 0.0));
    assert_eq!(float_limits(&vec![0.5, -2.0, 7.25, -0.5]), (-2.0, 7.25));
    assert_eq!(float_limits(&vec![]), (0.0, 0.0));
}

#[test]
fn limits_of_generated_paths_bracket_zero() {
    for &n in &[1usize, 3, 40] {
        let (lo, hi) = float_limits(&sample(n, 0.6).unwrap());
        assert!(lo <= 0.0 && 0.0 <= hi);
        assert!(lo <= hi);
    }
}

#[test]
fn collapsed_range_is_widened() {
    assert_eq!(span((0.0, 0.0)), (-1.0, 1.0));
    assert_eq!(span((-2.0, 3.5)), (-2.0, 3.5));
}

#[test]
fn blank_pixels_are_black_rgb() {
    let p = blank_pixels(4, 3).unwrap();
    assert_eq!(p.len(), 36);
    assert!(p.iter().all(|&b| b == 0));
}

#[test]
fn canvas_refuses_wrong_pixel_count() {
    assert_eq!(Canvas::from_pixels(2, 2, vec![0u8; 11]).err(), Some(FbmError::RenderFailure));
    let c = Canvas::from_pixels(2, 2, vec![7u8; 12]).unwrap();
    assert_eq!((c.width(), c.height(), c.pixels().len()), (2, 2, 12));
}

#[test]
fn encoded_canvas_is_png_of_canvas_size() {
    let png = encode(&white_canvas(CANVAS_WIDTH, CANVAS_HEIGHT)).unwrap();
    assert_eq!(&png[..8], &PNG_MAGIC);
    assert_eq!(png_dimensions(&png), Some((CANVAS_WIDTH, CANVAS_HEIGHT)));
    let img = image::load_from_memory(&png).unwrap();
    assert_eq!((img.width(), img.height()), (CANVAS_WIDTH, CANVAS_HEIGHT));
}

#[test]
fn render_then_encode_single_point() {
    let s = sample(1, 0.5).unwrap();
    assert_eq!(float_limits(&s), (0.0, 0.0));
    let png = encode(&draw(&s)).unwrap();
    assert_eq!(png_dimensions(&png), Some((CANVAS_WIDTH, CANVAS_HEIGHT)));
    let img = image::load_from_memory(&png).unwrap();
    assert_eq!((img.width(), img.height()), (CANVAS_WIDTH, CANVAS_HEIGHT));
}

#[test]
fn render_then_encode_five_points_starts_with_magic() {
    let s = sample(5, 0.5).unwrap();
    assert_eq!(s.len(), 5);
    let png = encode(&draw(&s)).unwrap();
    assert_eq!(&png[..8], &PNG_MAGIC);
    let img = image::load_from_memory(&png).unwrap();
    assert_eq!((img.width(), img.height()), (CANVAS_WIDTH, CANVAS_HEIGHT));
}

#[test]
fn render_then_encode_for_any_length_and_hurst() {
    for &(n, h) in &[(2usize, 0.2), (30, 0.5), (120, 0.9)] {
        let png = encode(&draw(&sample(n, h).unwrap())).unwrap();
        let img = image::load_from_memory(&png).unwrap();
        assert_eq!((img.width(), img.height()), (CANVAS_WIDTH, CANVAS_HEIGHT));
    }
}

#[test]
fn png_dimensions_reads_header() {
    let mut b = PNG_MAGIC.to_vec();
    b.extend_from_slice(&[0, 0, 0, 13, 73, 72, 68, 82, 0, 0, 1, 2, 0, 1, 0, 0]);
    assert_eq!(png_dimensions(&b), Some((258, 65536)));
    let mut bad = b.clone();
    bad[0] = 0;
    assert_eq!(png_dimensions(&bad), None);
    let mut bad_tag = b.clone();
    bad_tag[12] = b'X';
    assert_eq!(png_dimensions(&bad_tag), None);
    assert_eq!(png_dimensions(&b[..23]), None);
}

#[test]
fn encode_refuses_empty_canvas() {
    let empty = Canvas::from_pixels(0, 5, vec![]).unwrap();
    assert_eq!(encode(&empty), Err(FbmError::RenderFailure));
    assert_eq!(inline_chart(&empty), Err(FbmError::RenderFailure));
    let flat = Canvas::from_pixels(7, 0, vec![]).unwrap();
    assert_eq!(encode(&flat), Err(FbmError::RenderFailure));
}

#[test]
fn encode_small_canvas_declares_its_size() {
    let png = encode(&white_canvas(3, 2)).unwrap();
    assert_eq!(png_dimensions(&png), Some((3, 2)));
    let img = image::load_from_memory(&png).unwrap();
    assert_eq!((img.width(), img.height()), (3, 2));
}

#[test]
fn fragment_wraps_data_url() {
    assert_eq!(img_fragment("QUJD"), "<img src=\"data:image/png;base64,QUJD\" alt=\"fbm\">");
}

#[test]
fn inline_png_uses_unpadded_base64() {
    assert_eq!(inline_png(&vec![1, 2, 3]), "<img src=\"data:image/png;base64,AQID\" alt=\"fbm\">");
    assert_eq!(inline_png(&vec![255]), "<img src=\"data:image/png;base64,/w\" alt=\"fbm\">");
    assert_eq!(inline_png(&vec![]), "<img src=\"data:image/png;base64,\" alt=\"fbm\">");
}

#[test]
fn inline_chart_embeds_png() {
    let html = inline_chart(&white_canvas(8, 4)).unwrap();
    assert!(html.starts_with("<img src=\"data:image/png;base64,iVBORw0KGgo"));
    assert!(html.ends_with("\" alt=\"fbm\">"));
}
