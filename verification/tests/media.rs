use pavilion::error::{AppError, MediaError};
use pavilion::media::{
    finish_poster, generate_video_thumbnail, master_key, object_key, poster_keys, process_poster,
    storage_read_status, stored_content_type, takes_poster_part, video_content_type, FilmUpload,
    UploadPart, UppyConfig,
};

fn part(name: &str, file: Option<&str>, size: usize) -> UploadPart {
    UploadPart { name: Some(name.to_string()), file_name: file.map(|f| f.to_string()), size }
}

fn png(width: u32, height: u32) -> Vec<u8> {
    let img = image::DynamicImage::ImageRgb8(image::RgbImage::new(width, height));
    let mut buf = std::io::Cursor::new(Vec::new());
    img.write_to(&mut buf, image::ImageFormat::Png).unwrap();
    buf.into_inner()
}

#[test]
fn upload_widget_settings() {
    let f = UppyConfig::for_film("f1", "https://pav");
    assert_eq!(f.endpoint, "https://pav/films/f1/upload");
    assert_eq!(f.max_file_size_mb, 50_000);
    assert_eq!(f.allowed_types.len(), 5);
    assert_eq!(f.allowed_types[4], "video/webm");
    let p = UppyConfig::for_poster("f1", "https://pav");
    assert_eq!(p.endpoint, "https://pav/films/f1/poster");
    assert_eq!(p.max_file_size_mb, 50);
    assert_eq!(p.allowed_types, vec!["image/jpeg", "image/png", "image/webp"]);
}

#[test]
fn film_content_types() {
    assert_eq!(video_content_type("movie.mp4"), "video/mp4");
    assert_eq!(video_content_type("movie.mov"), "video/quicktime");
    assert_eq!(video_content_type("movie.mkv"), "video/x-matroska");
    assert_eq!(video_content_type("movie.avi"), "video/x-msvideo");
    assert_eq!(video_content_type("movie.webm"), "application/octet-stream");
    assert_eq!(master_key("abc"), "masters/abc.mp4");
}

#[test]
fn film_upload_form() {
    let mut u = FilmUpload::new();
    assert_eq!(u.take_part(&part("title", None, 10)).unwrap(), false);
    assert!(u.finish().is_err());
    assert_eq!(u.take_part(&part("file", None, 1024)).unwrap(), true);
    assert_eq!(u.file_name, "upload.mp4");
    assert!(u.finish().is_ok());
    match u.take_part(&part("file", Some("empty.mov"), 0)) {
        Err(AppError::Validation(m)) => assert_eq!(m, "File is empty."),
        other => panic!("unexpected {other:?}"),
    }
    match FilmUpload::new().finish() {
        Err(AppError::Validation(m)) => assert_eq!(m, "No file provided."),
        other => panic!("unexpected {other:?}"),
    }
}

#[test]
fn poster_upload_form() {
    assert!(takes_poster_part(&part("poster", Some("p.png"), 10)));
    assert!(!takes_poster_part(&part("poster", Some("p.png"), 0)));
    assert!(!takes_poster_part(&part("file", Some("p.png"), 10)));
    match finish_poster(false) {
        Err(AppError::Validation(m)) => assert_eq!(m, "No poster file provided."),
        other => panic!("unexpected {other:?}"),
    }
    let k = poster_keys("f9");
    assert_eq!(
        (k.thumb.as_str(), k.small.as_str(), k.medium.as_str(), k.large.as_str()),
        ("posters/f9/thumb.jpg", "posters/f9/small.jpg", "posters/f9/medium.jpg", "posters/f9/large.jpg")
    );
}

#[test]
fn poster_variants_are_jpegs_of_each_size() {
    let sizes = process_poster(&png(40, 60)).unwrap();
    for (bytes, w, h) in [(&sizes.thumb, 92, 138), (&sizes.small, 185, 278), (&sizes.medium, 370, 556), (&sizes.large, 780, 1170)] {
        let img = image::load_from_memory(bytes).unwrap();
        assert_eq!((img.width(), img.height()), (w, h));
        assert_eq!(&bytes[0..2], &[0xFF, 0xD8]);
    }
    assert!(process_poster(b"definitely not an image").is_err());
    let thumb = generate_video_thumbnail(&png(64, 64)).unwrap();
    let img = image::load_from_memory(&thumb).unwrap();
    assert_eq!((img.width(), img.height()), (320, 180));
}

#[test]
fn storage_helpers() {
    assert_eq!(object_key("videos/f1", "720p"), "videos/f1/720p");
    match storage_read_status(404, "k1") {
        Err(MediaError::NotFound(m)) => assert_eq!(m, "Object not found: k1"),
        other => panic!("unexpected {other:?}"),
    }
    assert!(storage_read_status(200, "k1").is_ok());
    assert_eq!(stored_content_type(None), "application/octet-stream");
    assert_eq!(stored_content_type(Some("video/mp4".to_string())), "video/mp4");
}

#[test]
fn thumbnail_refuses_data_that_is_not_an_image() {
    match generate_video_thumbnail(b"\x00\x01 not an image") {
        Err(MediaError::Internal(m)) => assert!(!m.is_empty()),
        other => panic!("unexpected {other:?}"),
    }
    match process_poster(&[]) {
        Err(MediaError::Internal(_)) => {}
        other => panic!("unexpected {other:?}"),
    }
}
