use ffpipeline::media::{is_image_extension, is_video_extension};

#[test]
fn video_and_image_extensions() {
    assert!(is_video_extension(Some("mkv")));
    assert!(is_video_extension(Some("m2ts")));
    assert!(!is_video_extension(Some("MKV")));
    assert!(!is_video_extension(Some("png")));
    assert!(!is_video_extension(None));
    assert!(is_image_extension(Some("png")));
    assert!(!is_image_extension(Some("jpg")));
    assert!(!is_image_extension(None));
}
