use ffpipeline::format_map::FormatMap;
use ffpipeline::pipeline::VideoFormat;

#[test]
fn insert_replaces_and_counts_formats() {
    let mut map = FormatMap::new();
    assert_eq!(map.len(), 0);
    map.insert(VideoFormat::Hevc, 8u8);
    map.insert(VideoFormat::H264, 10u8);
    map.insert(VideoFormat::Hevc, 10u8);
    assert_eq!(map.len(), 2);
    assert_eq!(map.get(&VideoFormat::Hevc), Some(&10));
    assert_eq!(map.get(&VideoFormat::H264), Some(&10));
    assert_eq!(map.get(&VideoFormat::Av1), None);
}
