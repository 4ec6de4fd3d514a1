use image::GenericImageView;
use img_processor::jpeg::{decode, ColorLayout};
use img_processor::{
    plan_shrink, DefaultImageProcessorFactory, ImageProcessor, ImageProcessorError,
    ImageProcessorFactory, JpegProcessor, Quality,
};

fn noisy_pixels(width: u32, height: u32, channels: u32) -> Vec<u8> {
    let mut state: u32 = 12345;
    let mut pixels = Vec::new();
    for y in 0..height {
        for x in 0..width {
            for c in 0..channels {
                state = state.wrapping_mul(1103515245).wrapping_add(12345);
                let smooth = (x * 3 + y * 5 + c * 40) % 256;
                let noise = (state >> 16) % 64;
                pixels.push(((smooth + noise) % 256) as u8);
            }
        }
    }
    pixels
}

fn jpeg_of(width: u32, height: u32, color: image::ExtendedColorType, quality: u8) -> Vec<u8> {
    let channels = if color == image::ExtendedColorType::L8 { 1 } else { 3 };
    let pixels = noisy_pixels(width, height, channels);
    let mut out = Vec::new();
    image::codecs::jpeg::JpegEncoder::new_with_quality(&mut out, quality)
        .encode(&pixels, width, height, color)
        .unwrap();
    out
}

fn rgb_jpeg(width: u32, height: u32) -> Vec<u8> {
    jpeg_of(width, height, image::ExtendedColorType::Rgb8, 100)
}

#[test]
fn test_image_processor_factory() {
    let factory = DefaultImageProcessorFactory {};
    let processor = factory.process_image("test.jpg");
    assert!(processor.is_ok());
    let processor = factory.process_image("test.jpeg");
    assert!(processor.is_ok());
    let processor = factory.process_image("test.png");
    assert!(processor.is_err());
}

#[test]
fn factory_refuses_other_extensions() {
    let factory = DefaultImageProcessorFactory {};
    for path in ["a", "a.png", "a.JPG", "a.Jpeg", ".jpg", "dir.jpg/x.png", "a.jpg.png"] {
        assert!(
            matches!(factory.process_image(path), Err(ImageProcessorError::UnsupportedFormat)),
            "{path}"
        );
    }
    assert!(factory.process_image("x.jpg/.").is_ok());
    let p = factory.process_image("some/dir/b.jpeg").unwrap();
    assert_eq!(p.input_path(), "some/dir/b.jpeg");
}

#[test]
fn test_jpeg_processor() {
    let input = rgb_jpeg(64, 48);
    let processor = JpegProcessor::new("test.jpg");
    let quality = Quality::try_from(50).unwrap();
    let result = processor.shrink(&input, quality);
    assert!(result.is_ok());
    assert!(result.unwrap().len() < input.len());
}

#[test]
fn test_jpeg_processor_errors() {
    let quality = Quality::try_from(50).unwrap();
    let processor = JpegProcessor::new("Cargo.toml");
    let not_jpeg = b"[package]\nname = \"x\"\n".to_vec();
    let result = processor.shrink(&not_jpeg, quality);
    assert!(matches!(result, Err(ImageProcessorError::DecodingError(_))));
    let result = processor.shrink(&[], quality);
    assert!(matches!(result, Err(ImageProcessorError::DecodingError(_))));
}

#[test]
fn shrink_keeps_dimensions() {
    let input = rgb_jpeg(40, 30);
    for q in [0u8, 1, 50, 100] {
        let out = JpegProcessor::new("x.jpg").shrink(&input, Quality::try_from(q).unwrap()).unwrap();
        let img = image::load_from_memory_with_format(&out, image::ImageFormat::Jpeg).unwrap();
        assert_eq!(img.dimensions(), (40, 30));
    }
}

#[test]
fn shrink_keeps_gray_layout() {
    let input = jpeg_of(17, 9, image::ExtendedColorType::L8, 95);
    let decoded = decode(&input).unwrap();
    assert_eq!(decoded.color, ColorLayout::L8);
    assert_eq!((decoded.width, decoded.height), (17, 9));
    assert_eq!(decoded.pixels.len(), 17 * 9);
    let out = JpegProcessor::new("g.jpg").shrink(&input, Quality::try_from(30).unwrap()).unwrap();
    let img = image::load_from_memory_with_format(&out, image::ImageFormat::Jpeg).unwrap();
    assert_eq!(img.color(), image::ColorType::L8);
    assert_eq!(img.dimensions(), (17, 9));
}

#[test]
fn decode_gives_rgb_buffer() {
    let decoded = decode(&rgb_jpeg(8, 5)).unwrap();
    assert_eq!(decoded.color, ColorLayout::Rgb8);
    assert_eq!(decoded.pixels.len(), 8 * 5 * 3);
    assert!(matches!(decode(&[0xff, 0xd8, 0xff]), Err(ImageProcessorError::DecodingError(_))));
}

#[test]
fn shrink_is_deterministic() {
    let input = rgb_jpeg(33, 21);
    let q = Quality::try_from(42).unwrap();
    let p = JpegProcessor::new("x.jpg");
    let first = p.shrink(&input, q).unwrap();
    let second = p.shrink(&input, q).unwrap();
    assert_eq!(first, second);
    assert_ne!(first, input);
}

#[test]
fn one_malformed_item_does_not_affect_others() {
    let factory = DefaultImageProcessorFactory {};
    let q = Quality::try_from(60).unwrap();
    let good = rgb_jpeg(20, 20);
    let items: Vec<(&str, Vec<u8>)> = vec![
        ("one.jpg", good.clone()),
        ("broken.jpg", b"not a jpeg".to_vec()),
        ("three.jpg", good.clone()),
        ("four.png", good.clone()),
    ];
    let outcomes: Vec<Result<(String, Vec<u8>), ImageProcessorError>> = items
        .iter()
        .map(|(src, bytes)| {
            let job = plan_shrink(&factory, src, src, "/tmp/out")?;
            let out = job.processor.shrink(bytes, q)?;
            Ok((job.output_path, out))
        })
        .collect();
    assert_eq!(outcomes[0].as_ref().unwrap().0, "/tmp/out/one.jpg");
    assert!(matches!(outcomes[1], Err(ImageProcessorError::DecodingError(_))));
    assert_eq!(outcomes[2].as_ref().unwrap().0, "/tmp/out/three.jpg");
    assert!(matches!(outcomes[3], Err(ImageProcessorError::UnsupportedFormat)));
    assert_eq!(outcomes[0].as_ref().unwrap().1, outcomes[2].as_ref().unwrap().1);
}

#[test]
fn remote_output_named_after_url() {
    let factory = DefaultImageProcessorFactory {};
    let job = plan_shrink(
        &factory,
        "https://example.test/photo2.jpg",
        "/tmp/img_compactor_abc123.jpg",
        "/tmp/out",
    )
    .unwrap();
    assert_eq!(job.output_path, "/tmp/out/photo2.jpg");
    assert_eq!(job.processor.input_path(), "/tmp/img_compactor_abc123.jpg");
    assert!(matches!(
        plan_shrink(&factory, "https://example.test/", "/tmp/s.jpg", "/tmp/out"),
        Ok(_)
    ));
    assert!(matches!(
        plan_shrink(&factory, "/", "/tmp/s.jpg", "/tmp/out"),
        Err(ImageProcessorError::InvalidInputPath)
    ));
    assert!(matches!(
        plan_shrink(&factory, "https://example.test/a.jpg", "/tmp/s.bin", "/tmp/out"),
        Err(ImageProcessorError::UnsupportedFormat)
    ));
}

#[test]
fn end_to_end_two_sources() {
    let factory = DefaultImageProcessorFactory {};
    let q50 = Quality::try_from(50).unwrap();
    let q100 = Quality::try_from(100).unwrap();
    let sources = [
        ("photo1.jpg", "photo1.jpg"),
        ("https://example.test/photo2.jpg", "/tmp/img_compactor_1.jpg"),
    ];
    let mut outputs = Vec::new();
    for (i, (source, staged)) in sources.iter().enumerate() {
        let input = rgb_jpeg(48 + i as u32, 32);
        let job = plan_shrink(&factory, source, staged, "/tmp/out").unwrap();
        let small = job.processor.shrink(&input, q50).unwrap();
        let full = job.processor.shrink(&input, q100).unwrap();
        assert!(small.len() < full.len());
        let img = image::load_from_memory_with_format(&small, image::ImageFormat::Jpeg).unwrap();
        assert_eq!(img.dimensions(), (48 + i as u32, 32));
        outputs.push(job.output_path);
    }
    assert_eq!(outputs, vec!["/tmp/out/photo1.jpg", "/tmp/out/photo2.jpg"]);
}

#[test]
fn shrink_output_is_encoding_of_decoded_pixels() {
    let input = rgb_jpeg(26, 19);
    let q = Quality::try_from(70).unwrap();
    let decoded = decode(&input).unwrap();
    let direct = img_processor::jpeg::encode(&decoded, q).unwrap();
    let shrunk = JpegProcessor::new("x.jpg").shrink(&input, q).unwrap();
    assert_eq!(direct, shrunk);
}

#[test]
fn truncated_input_fails_as_decode_does() {
    let input = rgb_jpeg(64, 64);
    for cut in [2usize, 20, 200, input.len() / 2] {
        let part = &input[..cut];
        let shrunk = JpegProcessor::new("x.jpg").shrink(part, Quality::try_from(50).unwrap());
        match decode(part) {
            Ok(_) => assert!(shrunk.is_ok()),
            Err(_) => assert!(matches!(shrunk, Err(ImageProcessorError::DecodingError(_)))),
        }
    }
}

#[test]
fn gray_with_alpha_layout_is_not_encodable() {
    let img = img_processor::jpeg::DecodedImage {
        width: 2,
        height: 2,
        color: ColorLayout::La8,
        pixels: vec![0u8; 8],
    };
    let r = img_processor::jpeg::encode(&img, Quality::try_from(50).unwrap());
    assert!(matches!(r, Err(ImageProcessorError::DecodingError(_))));
}
