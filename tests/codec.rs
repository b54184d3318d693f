use std::io::Cursor;

use image::{DynamicImage, ImageFormat, ImageOutputFormat, Rgb, RgbImage};
use image_api::codec::{convert_image, output_format, transport_response, ConvertError, OutputFormat};
use image_api::container::ImageKind;

fn colourful(w: u32, h: u32, seed: u8) -> DynamicImage {
    let img = RgbImage::from_fn(w, h, |x, y| {
        if (x + y) % 2 == 0 {
            Rgb([200u8.wrapping_add(seed), 30, 60])
        } else {
            Rgb([10, 180u8.wrapping_sub(seed), 240])
        }
    });
    DynamicImage::ImageRgb8(img)
}

fn encoded(img: &DynamicImage, format: ImageOutputFormat) -> Vec<u8> {
    let mut cursor = Cursor::new(Vec::new());
    img.write_to(&mut cursor, format).unwrap();
    cursor.into_inner()
}

fn reply_bytes(body: &[u8]) -> Vec<u8> {
    let resp = convert_image(body).unwrap();
    assert_eq!(resp.status, 200);
    base64::decode(&resp.body).unwrap()
}

fn assert_achromatic(img: &DynamicImage, tolerance: i32) {
    for p in img.to_rgb8().pixels() {
        let [r, g, b] = p.0;
        assert!((r as i32 - g as i32).abs() <= tolerance, "pixel {:?}", p);
        assert!((g as i32 - b as i32).abs() <= tolerance, "pixel {:?}", p);
    }
}

#[test]
fn unrecognized_bytes_get_unknown_format_text() {
    for body in [&b"hello world"[..], &[1u8, 2, 3][..], &b"GIF88a......"[..]] {
        let resp = convert_image(body).unwrap();
        assert_eq!(resp.status, 200);
        assert_eq!(resp.body, "Unknown image format");
    }
}

#[test]
fn empty_upload_gets_unknown_format_text() {
    let resp = convert_image(&[]).unwrap();
    assert_eq!(resp.status, 200);
    assert_eq!(resp.body, "Unknown image format");
}

#[test]
fn png_upload_becomes_gray_png() {
    let input = encoded(&colourful(6, 4, 0), ImageOutputFormat::Png);
    let out = reply_bytes(&input);
    assert_eq!(image::guess_format(&out).unwrap(), ImageFormat::Png);
    let img = image::load_from_memory(&out).unwrap();
    assert_eq!((img.width(), img.height()), (6, 4));
    assert_achromatic(&img, 0);
}

#[test]
fn gif_upload_stays_gif_and_gray() {
    let input = encoded(&colourful(5, 3, 0), ImageOutputFormat::Gif);
    assert_eq!(image::guess_format(&input).unwrap(), ImageFormat::Gif);
    let out = reply_bytes(&input);
    assert_eq!(&out[..6], b"GIF89a");
    assert_eq!(image::guess_format(&out).unwrap(), ImageFormat::Gif);
    let img = image::load_from_memory(&out).unwrap();
    assert_eq!((img.width(), img.height()), (5, 3));
    assert_achromatic(&img, 2);
}

#[test]
fn bmp_upload_becomes_png() {
    let input = encoded(&colourful(3, 3, 0), ImageOutputFormat::Bmp);
    assert_eq!(image::guess_format(&input).unwrap(), ImageFormat::Bmp);
    let out = reply_bytes(&input);
    assert_eq!(image::guess_format(&out).unwrap(), ImageFormat::Png);
    assert_achromatic(&image::load_from_memory(&out).unwrap(), 0);
}

#[test]
fn recognized_but_corrupt_upload_is_a_decode_error() {
    let mut body = b"\x89PNG\r\n\x1a\n".to_vec();
    body.extend_from_slice(b"not really a png");
    assert_eq!(convert_image(&body).unwrap_err(), ConvertError::Decode);
}

#[test]
fn conversions_do_not_share_output() {
    let first = encoded(&colourful(4, 4, 0), ImageOutputFormat::Png);
    let second = encoded(&colourful(7, 2, 40), ImageOutputFormat::Gif);
    let a1 = reply_bytes(&first);
    let b = reply_bytes(&second);
    let a2 = reply_bytes(&first);
    assert_eq!(a1, a2);
    assert_ne!(a1, b);
    let ia = image::load_from_memory(&a1).unwrap();
    let ib = image::load_from_memory(&b).unwrap();
    assert_eq!((ia.width(), ia.height()), (4, 4));
    assert_eq!((ib.width(), ib.height()), (7, 2));
}

#[test]
fn transport_text_is_padded_base64() {
    assert_eq!(transport_response(b"Man").unwrap().body, "TWFu");
    assert_eq!(transport_response(&[0x00, 0xff]).unwrap().body, "AP8=");
    assert_eq!(transport_response(b"M").unwrap().body, "TQ==");
    let resp = transport_response(&[]).unwrap();
    assert_eq!(resp.status, 200);
    assert_eq!(resp.body, "");
}

#[test]
fn gif_keeps_gif_and_others_become_png() {
    assert_eq!(output_format(ImageKind::Gif), OutputFormat::Gif);
    assert_eq!(output_format(ImageKind::Png), OutputFormat::Png);
    assert_eq!(output_format(ImageKind::Other), OutputFormat::Png);
}

#[test]
fn reply_is_base64_of_this_uploads_gray_encoding() {
    let png = encoded(&colourful(5, 5, 7), ImageOutputFormat::Png);
    let gray = image::load_from_memory(&png).unwrap().grayscale();
    let expected = base64::encode(encoded(&gray, ImageOutputFormat::Png));
    assert_eq!(convert_image(&png).unwrap().body, expected);

    let gif = encoded(&colourful(4, 6, 3), ImageOutputFormat::Gif);
    let gray = image::load_from_memory(&gif).unwrap().grayscale();
    let expected = base64::encode(encoded(&gray, ImageOutputFormat::Gif));
    assert_eq!(convert_image(&gif).unwrap().body, expected);
}

#[test]
fn reply_round_trips_to_the_encoded_bytes() {
    let bmp = encoded(&colourful(3, 2, 9), ImageOutputFormat::Bmp);
    let gray = image::load_from_memory(&bmp).unwrap().grayscale();
    let expected = encoded(&gray, ImageOutputFormat::Png);
    assert_eq!(reply_bytes(&bmp), expected);
    assert_ne!(reply_bytes(&bmp), bmp);
}
