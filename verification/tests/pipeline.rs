use ffpipeline::pipeline::{
    generate_pipeline, hw_output_format, FrameState, FrameSurface, GlobalOption, HdrFormat,
    HwPixelFormat, LogLevel, PipelineInput, PixelFormat,
};
use ffpipeline::probe::ProbeResult;

fn probed(path: &str) -> ProbeResult {
    ProbeResult {
        path: String::from(path),
        json: String::from("{}"),
    }
}

#[test]
fn full_pipeline_arguments() {
    let pipeline = generate_pipeline(probed("/media/a b.mkv")).ok().unwrap();
    assert_eq!(
        pipeline.args(),
        vec![
            "-threads",
            "0",
            "-nostdin",
            "-hide_banner",
            "-loglevel",
            "error",
            "-i",
            "/media/a b.mkv"
        ]
    );
    assert_eq!(
        pipeline.to_display_string(),
        "args: -threads 0 -nostdin -hide_banner -loglevel error -i /media/a b.mkv"
    );
}

#[test]
fn global_option_arguments() {
    assert_eq!(GlobalOption::Threads(12).as_arg(), vec!["-threads", "12"]);
    assert_eq!(GlobalOption::NoStdIn.as_arg(), vec!["-nostdin"]);
    assert_eq!(
        GlobalOption::LogLevel(LogLevel::Error).as_arg(),
        vec!["-loglevel", "error"]
    );
}

#[test]
fn inputs_follow_the_global_options() {
    let pipeline = ffpipeline::pipeline::Pipeline {
        global_options: vec![GlobalOption::HideBanner],
        inputs: vec![
            PipelineInput::Video(String::from("one.mp4")),
            PipelineInput::Video(String::from("two.mp4")),
        ],
    };
    assert_eq!(
        pipeline.args(),
        vec!["-hide_banner", "-i", "one.mp4", "-i", "two.mp4"]
    );
}

#[test]
fn pixel_formats() {
    assert_eq!(PixelFormat::parse("p010le"), PixelFormat::P010le);
    assert_eq!(PixelFormat::parse("gray"), PixelFormat::Unknown);
    assert_eq!(PixelFormat::Yuva420p10le.as_arg(), "yuva420p10le");
    assert_eq!(PixelFormat::Nv15.bit_depth(), 10);
    assert_eq!(PixelFormat::Nv12.bit_depth(), 8);
    assert!(PixelFormat::Bgra.has_alpha());
    assert!(!PixelFormat::Yuv420p.has_alpha());
    assert_eq!(hw_output_format(&PixelFormat::Yuv420p10le), HwPixelFormat::P010);
    assert_eq!(hw_output_format(&PixelFormat::Bgra), HwPixelFormat::Nv12);
}

#[test]
fn default_frame_state() {
    let state = FrameState::default();
    assert_eq!(state.surface, FrameSurface::System);
    assert_eq!(state.pixel_format, PixelFormat::Yuv420p);
    assert_eq!(state.hdr_format, HdrFormat::Sdr);
    assert_eq!(state.size.width, 0);
    let copy = state.duplicate();
    assert_eq!(copy.pixel_format, state.pixel_format);
}
