//! Image emission.

use rck_core::capabilities::Capabilities;
use rck_core::emit_image;
use rck_core::ImageData;

#[test]
fn text_summary_without_graphics() {
    let img = ImageData::from_png(vec![1, 2, 3], 640, 480, Some("shot.png".to_string()));
    let mut out = Vec::new();
    emit_image(&mut out, &Capabilities::plain(), &img).unwrap();
    assert_eq!(
        String::from_utf8(out).unwrap(),
        "[image: 640x480 shot.png (graphics protocol unavailable)]\n"
    );
    let img = ImageData::from_png(vec![], 1, 2, None);
    let mut out = Vec::new();
    emit_image(&mut out, &Capabilities::plain(), &img).unwrap();
    assert_eq!(
        String::from_utf8(out).unwrap(),
        "[image: 1x2 untitled (graphics protocol unavailable)]\n"
    );
}

#[test]
fn kitty_frames_with_graphics() {
    let mut caps = Capabilities::plain();
    caps.graphics = true;
    let img = ImageData::from_png(b"abc".to_vec(), 1, 1, None);
    let mut out = Vec::new();
    emit_image(&mut out, &caps, &img).unwrap();
    assert_eq!(out, b"\x1b_Ga=T,f=100,q=2;YWJj\x1b\\\n".to_vec());
}

#[test]
fn graphics_output_is_the_png_alone() {
    let mut caps = Capabilities::plain();
    caps.graphics = true;
    let png = vec![0x89, b'P', b'N', b'G', 1, 2, 3, 4, 5];
    let a = ImageData::from_png(png.clone(), 10, 20, Some("a.png".to_string()));
    let b = ImageData::from_png(png.clone(), 99, 1, None);
    let mut oa = Vec::new();
    let mut ob = Vec::new();
    let mut ok = Vec::new();
    emit_image(&mut oa, &caps, &a).unwrap();
    emit_image(&mut ob, &caps, &b).unwrap();
    rck_core::encoder::write_kitty_png(&mut ok, &png).unwrap();
    assert_eq!(oa, ob);
    assert_eq!(oa, ok);
}

fn encoded(w: u32, h: u32, format: image::ImageFormat) -> Vec<u8> {
    let img = image::RgbImage::from_fn(w, h, |x, y| image::Rgb([(x * 40) as u8, (y * 40) as u8, 128]));
    let mut buffer = Vec::new();
    image::DynamicImage::ImageRgb8(img)
        .write_to(&mut std::io::Cursor::new(&mut buffer), format)
        .unwrap();
    buffer
}

#[test]
fn jpeg_is_reencoded_as_png() {
    let jpeg = encoded(3, 2, image::ImageFormat::Jpeg);
    let img = rck_core::image_data::image_data_from_encoded(&jpeg, "JPG", Some("photo.jpg")).unwrap();
    assert_eq!((img.width, img.height), (3, 2));
    assert!(img.png_bytes.starts_with(b"\x89PNG\r\n\x1a\n"));
    assert_ne!(img.png_bytes, jpeg);
    assert_eq!(img.alt_text.as_deref(), Some("photo.jpg"));
    let back = image::load_from_memory_with_format(&img.png_bytes, image::ImageFormat::Png).unwrap();
    assert_eq!((back.width(), back.height()), (3, 2));
}

#[test]
fn png_reencoding_keeps_size_and_refuses_bad_input() {
    let png = encoded(4, 5, image::ImageFormat::Png);
    let img = rck_core::image_data::image_data_from_encoded(&png, "png", None).unwrap();
    assert_eq!((img.width, img.height), (4, 5));
    assert_eq!(img.alt_text, None);
    assert!(rck_core::image_data::image_data_from_encoded(&png, "txt", None).is_err());
    assert!(rck_core::image_data::image_data_from_encoded(&png, "", None).is_err());
    assert!(rck_core::image_data::image_data_from_encoded(b"not an image", "png", None).is_err());
}

#[test]
fn kitty_frames_are_wrapped_inside_tmux() {
    let mut caps = Capabilities::plain();
    caps.graphics = true;
    caps.in_tmux = true;
    let img = ImageData::from_png(b"abc".to_vec(), 1, 1, None);
    let mut out = Vec::new();
    emit_image(&mut out, &caps, &img).unwrap();
    assert_eq!(out, b"\x1bPtmux;\x1b\x1b_Ga=T,f=100,q=2;YWJj\x1b\x1b\\\x1b\\\n".to_vec());

    let png: Vec<u8> = (0..5000u32).map(|i| (i % 251) as u8).collect();
    let big = ImageData::from_png(png.clone(), 1, 1, None);
    let mut wrapped = Vec::new();
    emit_image(&mut wrapped, &caps, &big).unwrap();
    let mut plain = Vec::new();
    rck_core::encoder::write_kitty_png(&mut plain, &png).unwrap();
    let text = String::from_utf8(wrapped).unwrap();
    let unwrapped: String = text
        .trim_end_matches('\n')
        .split("\x1bPtmux;")
        .filter(|f| !f.is_empty())
        .map(|f| f.strip_suffix("\x1b\\").unwrap().replace("\x1b\x1b", "\x1b"))
        .collect();
    assert_eq!(unwrapped + "\n", String::from_utf8(plain).unwrap());
}
