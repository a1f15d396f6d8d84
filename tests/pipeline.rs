use image::{DynamicImage, ImageFormat, RgbImage};
use image_resizer::filter::{area, filter_for_sizes, select_filter, FilterKind};
use image_resizer::pipeline::{finish_encoded, resize, resize_decoded, PipelineError};
use std::io::Cursor;

fn encoded(width: u32, height: u32, format: ImageFormat) -> Vec<u8> {
    let img = DynamicImage::ImageRgb8(RgbImage::from_fn(width, height, |x, y| {
        image::Rgb([(x % 256) as u8, (y % 256) as u8, 7])
    }));
    let mut out = Cursor::new(Vec::new());
    img.write_to(&mut out, format).expect("encoded");
    out.into_inner()
}

#[test]
fn test_resize() {
    let (nwidth, nheight) = (200, 125);
    let file_bytes = encoded(400, 250, ImageFormat::Png);

    let image_bytes = resize(&file_bytes, nwidth, nheight).expect("should resizes");

    let resized_file = image::load_from_memory(&image_bytes.bytes).expect("resized file opened");
    let (width, heigth) = (resized_file.width(), resized_file.height());
    assert_eq!((nwidth as u32, nheight as u32), (width, heigth));
}

#[test]
fn resize_ignores_aspect_ratio() {
    let out = resize(&encoded(40, 40, ImageFormat::Png), 10, 30).expect("resized");
    let img = image::load_from_memory(&out.bytes).expect("decoded");
    assert_eq!((img.width(), img.height()), (10, 30));
    assert_eq!((out.width, out.height), (10, 30));
    assert_eq!((out.source_width, out.source_height), (40, 40));
}

#[test]
fn output_format_follows_input() {
    let png = resize(&encoded(30, 20, ImageFormat::Png), 60, 40).expect("png");
    assert_eq!(png.format, ImageFormat::Png);
    assert_eq!(image::guess_format(&png.bytes).expect("sniffed"), ImageFormat::Png);

    let jpeg = resize(&encoded(30, 20, ImageFormat::Jpeg), 15, 10).expect("jpeg");
    assert_eq!(jpeg.format, ImageFormat::Jpeg);
    assert_eq!(image::guess_format(&jpeg.bytes).expect("sniffed"), ImageFormat::Jpeg);

    let gif = resize(&encoded(8, 8, ImageFormat::Gif), 4, 4).expect("gif");
    assert_eq!(image::guess_format(&gif.bytes).expect("sniffed"), ImageFormat::Gif);
}

#[test]
fn filter_follows_area() {
    let down = resize(&encoded(40, 25, ImageFormat::Png), 20, 10).expect("down");
    assert_eq!(down.filter, FilterKind::Downscale);
    let same = resize(&encoded(40, 25, ImageFormat::Png), 25, 40).expect("same");
    assert_eq!(same.filter, FilterKind::Upscale);
    let up = resize(&encoded(4, 4, ImageFormat::Png), 8, 8).expect("up");
    assert_eq!(up.filter, FilterKind::Upscale);
}

#[test]
fn unknown_and_corrupt_input() {
    assert!(matches!(resize(&[1, 2, 3], 10, 10), Err(PipelineError::UnknownFormat)));
    assert!(matches!(resize(&[], 10, 10), Err(PipelineError::UnknownFormat)));
    let mut broken = encoded(10, 10, ImageFormat::Png);
    broken.truncate(20);
    assert!(matches!(resize(&broken, 5, 5), Err(PipelineError::Decode)));
}

#[test]
fn select_filter_boundaries() {
    assert_eq!(select_filter(100, 99), FilterKind::Downscale);
    assert_eq!(select_filter(100, 100), FilterKind::Upscale);
    assert_eq!(select_filter(100, 101), FilterKind::Upscale);
    assert_eq!(select_filter(0, 0), FilterKind::Upscale);
    assert_eq!(select_filter(u64::MAX, u64::MAX - 1), FilterKind::Downscale);
}

#[test]
fn area_does_not_overflow() {
    assert_eq!(area(u32::MAX, u32::MAX), 18446744065119617025);
    assert_eq!(area(200, 125), 25000);
    assert_eq!(filter_for_sizes(65536, 65536, 65535, 65535), FilterKind::Downscale);
    assert_eq!(filter_for_sizes(400, 250, 200, 125), FilterKind::Downscale);
    assert_eq!(filter_for_sizes(250, 400, 400, 250), FilterKind::Upscale);
}

#[test]
fn failed_decode_gives_decode_error() {
    let err = image::load_from_memory(&[0x89, b'P', b'N', b'G']).unwrap_err();
    assert!(matches!(resize_decoded(Err(err), ImageFormat::Png, 4, 4), Err(PipelineError::Decode)));
}

#[test]
fn decoded_source_is_resized_and_encoded() {
    let img = image::load_from_memory(&encoded(12, 9, ImageFormat::Png)).expect("decoded");
    let out = resize_decoded(Ok(img), ImageFormat::Bmp, 5, 7).expect("resized");
    assert_eq!((out.width, out.height), (5, 7));
    assert_eq!((out.source_width, out.source_height), (12, 9));
    assert_eq!(out.filter, FilterKind::Downscale);
    assert_eq!(image::guess_format(&out.bytes).expect("sniffed"), ImageFormat::Bmp);
}

#[test]
fn encoder_result_is_passed_through() {
    let out = finish_encoded(Ok(vec![9, 8, 7]), ImageFormat::Png, FilterKind::Upscale, 1, 2, 3, 4)
        .expect("built");
    assert_eq!(out.bytes, vec![9, 8, 7]);
    assert_eq!((out.source_width, out.source_height, out.width, out.height), (1, 2, 3, 4));
    assert_eq!(out.format, ImageFormat::Png);
    let err = image::load_from_memory(&[1, 2, 3]).unwrap_err();
    assert!(matches!(
        finish_encoded(Err(err), ImageFormat::Png, FilterKind::Upscale, 1, 2, 3, 4),
        Err(PipelineError::Encode)
    ));
}

#[test]
fn zero_target_cannot_be_encoded_as_jpeg() {
    assert!(matches!(resize(&encoded(4, 4, ImageFormat::Jpeg), 0, 3), Err(PipelineError::Encode)));
}
