use photoscan::content::{
    make_thumbnail, process_file, read_embedded_dates, FileInfo, ProcessError, THUMB_QUALITY,
    THUMB_SIZE,
};
use photoscan::date::CaptureDate;
use photoscan::fingerprint::fingerprint;
use photoscan::inference::DatePath;
use image::GenericImageView;
use std::io::Cursor;

fn moment(year: u16, month: u8, day: u8, hour: u8, minute: u8, second: u8) -> CaptureDate {
    CaptureDate { year, month, day, hour, minute, second }
}

fn jpeg(width: u32, height: u32) -> Vec<u8> {
    let picture = image::RgbImage::from_fn(width, height, |x, y| {
        image::Rgb([(x % 256) as u8, (y % 256) as u8, ((x + y) % 256) as u8])
    });
    let mut bytes = Vec::new();
    image::DynamicImage::ImageRgb8(picture)
        .write_to(&mut bytes, image::ImageOutputFormat::Jpeg(85))
        .unwrap();
    bytes
}

fn ascii(tag: exif::Tag, text: &str) -> exif::Field {
    exif::Field {
        tag,
        ifd_num: exif::In::PRIMARY,
        value: exif::Value::Ascii(vec![text.as_bytes().to_vec()]),
    }
}

fn with_exif(picture: &[u8], original: Option<&str>, generic: Option<&str>) -> Vec<u8> {
    let original = original.map(|text| ascii(exif::Tag::DateTimeOriginal, text));
    let generic = generic.map(|text| ascii(exif::Tag::DateTime, text));
    let mut writer = exif::experimental::Writer::new();
    if let Some(field) = &original {
        writer.push_field(field);
    }
    if let Some(field) = &generic {
        writer.push_field(field);
    }
    let mut tiff = Cursor::new(Vec::new());
    writer.write(&mut tiff, false).unwrap();
    let tiff = tiff.into_inner();
    let mut bytes = vec![0xff, 0xd8, 0xff, 0xe1];
    bytes.extend_from_slice(&((tiff.len() + 8) as u16).to_be_bytes());
    bytes.extend_from_slice(b"Exif\0\0");
    bytes.extend_from_slice(&tiff);
    bytes.extend_from_slice(&picture[2..]);
    bytes
}

fn dated_directories() -> DatePath {
    DatePath { path: r"^(?P<y>\d{4})/(?P<m>\d{2})/".to_string(), date: "$y-$m-01".to_string() }
}

fn dimensions(thumb: &[u8]) -> (u32, u32) {
    let picture = image::load_from_memory(thumb).unwrap();
    (picture.width(), picture.height())
}

#[test]
fn thumbnail_settings() {
    assert_eq!(THUMB_SIZE, 200);
    assert_eq!(THUMB_QUALITY, 90);
}

#[test]
fn record_holds_fingerprint_date_and_thumbnail() {
    let content = with_exif(&jpeg(400, 300), Some("2017:08:09 10:11:12"), None);
    let info = process_file(&content, "2011/12/a.jpg", &vec![dated_directories()]).unwrap();
    assert_eq!(info.hash, fingerprint(&content));
    assert_eq!(info.date, Some(moment(2017, 8, 9, 10, 11, 12)));
    assert_eq!(&info.thumb[..2], &[0xff, 0xd8]);
    assert_eq!(dimensions(&info.thumb), (200, 150));
}

#[test]
fn thumbnail_fits_the_square_and_keeps_the_shape() {
    let wide = process_file(&jpeg(800, 200), "a.jpg", &vec![]).unwrap();
    assert_eq!(dimensions(&wide.thumb), (200, 50));
    let tall = process_file(&jpeg(100, 400), "a.jpg", &vec![]).unwrap();
    assert_eq!(dimensions(&tall.thumb), (50, 200));
    let small = process_file(&jpeg(20, 10), "a.jpg", &vec![]).unwrap();
    assert_eq!(dimensions(&small.thumb), (200, 100));
}

#[test]
fn metadata_date_wins_over_the_path() {
    let content = with_exif(&jpeg(16, 16), Some("2017:08:09 10:11:12"), Some("2018:01:01 00:00:00"));
    let info = process_file(&content, "2011/12/a.jpg", &vec![dated_directories()]).unwrap();
    assert_eq!(info.date, Some(moment(2017, 8, 9, 10, 11, 12)));
}

#[test]
fn general_field_is_used_without_the_original_one() {
    let content = with_exif(&jpeg(16, 16), None, Some("2018:01:02 03:04:05"));
    let info = process_file(&content, "2011/12/a.jpg", &vec![dated_directories()]).unwrap();
    assert_eq!(info.date, Some(moment(2018, 1, 2, 3, 4, 5)));
}

#[test]
fn file_without_metadata_is_dated_by_its_path() {
    let content = jpeg(16, 16);
    let info = process_file(&content, "2011/12/a.jpg", &vec![dated_directories()]).unwrap();
    assert_eq!(info.date, Some(moment(2011, 12, 1, 0, 0, 0)));
    let info = process_file(&content, "misc/a.jpg", &vec![dated_directories()]).unwrap();
    assert_eq!(info.date, None);
}

#[test]
fn unparseable_metadata_date_falls_back_to_the_path() {
    let content = with_exif(&jpeg(16, 16), Some("2017:02:30 10:11:12"), None);
    let info = process_file(&content, "2011/12/a.jpg", &vec![dated_directories()]).unwrap();
    assert_eq!(info.date, Some(moment(2011, 12, 1, 0, 0, 0)));
}

#[test]
fn corrupt_image_is_a_decode_error() {
    let whole = jpeg(64, 64);
    let truncated = &whole[..whole.len() / 3];
    assert!(matches!(process_file(truncated, "a.jpg", &vec![]), Err(ProcessError::Decode(_))));
    assert!(matches!(process_file(b"not a picture", "a.jpg", &vec![]), Err(ProcessError::Decode(_))));
    assert!(matches!(process_file(b"", "a.jpg", &vec![]), Err(ProcessError::Decode(_))));
}

#[test]
fn same_content_at_two_paths_gives_the_same_hash() {
    let content = jpeg(32, 32);
    let first = process_file(&content, "a/x.jpg", &vec![]).unwrap();
    let second = process_file(&content, "b/x.jpg", &vec![]).unwrap();
    assert_eq!(first.hash, second.hash);
}

#[test]
fn assemble_takes_the_thumbnail_as_given() {
    let content = with_exif(&jpeg(16, 16), Some("2017:08:09 10:11:12"), None);
    let info = FileInfo::assemble(&content, "a.jpg", &vec![], Ok(vec![1, 2, 3])).unwrap();
    assert_eq!(info.thumb, vec![1, 2, 3]);
    assert_eq!(info.hash, fingerprint(&content));
    assert_eq!(info.date, Some(moment(2017, 8, 9, 10, 11, 12)));
    match FileInfo::assemble(&content, "a.jpg", &vec![], Err("broken".to_string())) {
        Err(ProcessError::Decode(reason)) => assert_eq!(reason, "broken"),
        other => panic!("expected a decode error, got {:?}", other),
    }
}

#[test]
fn png_content_is_decoded_by_what_it_holds() {
    let picture = image::RgbImage::from_pixel(300, 100, image::Rgb([1u8, 2, 3]));
    let mut bytes = Vec::new();
    image::DynamicImage::ImageRgb8(picture)
        .write_to(&mut bytes, image::ImageOutputFormat::Png)
        .unwrap();
    let info = process_file(&bytes, "a.jpg", &vec![]).unwrap();
    assert_eq!(dimensions(&info.thumb), (200, 66));
}

fn crc32(bytes: &[u8]) -> u32 {
    let mut crc = 0xffff_ffffu32;
    for &byte in bytes {
        crc ^= byte as u32;
        for _ in 0..8 {
            crc = if crc & 1 == 1 { (crc >> 1) ^ 0xedb8_8320 } else { crc >> 1 };
        }
    }
    !crc
}

fn chunk(kind: &[u8; 4], data: &[u8]) -> Vec<u8> {
    let mut body = kind.to_vec();
    body.extend_from_slice(data);
    let mut bytes = (data.len() as u32).to_be_bytes().to_vec();
    bytes.extend_from_slice(&body);
    bytes.extend_from_slice(&crc32(&body).to_be_bytes());
    bytes
}

/// A PNG file whose header gives the picture this size and which holds no
/// rows.
fn png_without_rows(width: u32, height: u32) -> Vec<u8> {
    let mut header = width.to_be_bytes().to_vec();
    header.extend_from_slice(&height.to_be_bytes());
    header.extend_from_slice(&[8, 2, 0, 0, 0]);
    let mut bytes = vec![0x89, b'P', b'N', b'G', 0x0d, 0x0a, 0x1a, 0x0a];
    bytes.extend(chunk(b"IHDR", &header));
    bytes.extend(chunk(b"IDAT", &[0x78, 0x9c, 0x03, 0x00, 0x00, 0x00, 0x00, 0x01]));
    bytes.extend(chunk(b"IEND", &[]));
    bytes
}

#[test]
fn picture_without_pixels_is_a_decode_error() {
    for (width, height) in [(0, 0), (0, 5), (5, 0)] {
        let content = png_without_rows(width, height);
        match process_file(&content, "a.jpg", &vec![]) {
            Err(ProcessError::Decode(reason)) => assert_eq!(reason, "the picture has no pixels"),
            other => panic!("expected a decode error, got {:?}", other),
        }
        assert_eq!(make_thumbnail(&content), Err("the picture has no pixels".to_string()));
    }
}

#[test]
fn make_thumbnail_scales_into_the_square() {
    let thumb = make_thumbnail(&jpeg(1000, 500)).unwrap();
    assert_eq!(dimensions(&thumb), (200, 100));
    assert_eq!(image::guess_format(&thumb).unwrap(), image::ImageFormat::Jpeg);
    assert!(make_thumbnail(b"no picture").is_err());
}

#[test]
fn first_text_of_a_field_counts() {
    let two = exif::Field {
        tag: exif::Tag::DateTimeOriginal,
        ifd_num: exif::In::PRIMARY,
        value: exif::Value::Ascii(vec![b"2017:08:09 10:11:12".to_vec(), b"other".to_vec()]),
    };
    let mut writer = exif::experimental::Writer::new();
    writer.push_field(&two);
    let mut tiff = Cursor::new(Vec::new());
    writer.write(&mut tiff, false).unwrap();
    let tiff = tiff.into_inner();
    let picture = jpeg(8, 8);
    let mut content = vec![0xff, 0xd8, 0xff, 0xe1];
    content.extend_from_slice(&((tiff.len() + 8) as u16).to_be_bytes());
    content.extend_from_slice(b"Exif\0\0");
    content.extend_from_slice(&tiff);
    content.extend_from_slice(&picture[2..]);
    let dates = read_embedded_dates(&content).unwrap();
    assert_eq!(dates.original, Some(b"2017:08:09 10:11:12".to_vec()));
    assert_eq!(dates.generic, None);
    assert_eq!(read_embedded_dates(&picture), None);
    assert_eq!(read_embedded_dates(b""), None);
}
