use ffpipeline::error::{ChannelError, FFPipelineError, PlayoutError};

#[test]
fn pipeline_error_messages() {
    assert_eq!(FFPipelineError::ProbeFailed.message(), "ffprobe failed");
    assert_eq!(
        FFPipelineError::FfmpegCapabilitiesError(String::from("hwaccels")).message(),
        "hwaccels"
    );
    assert_eq!(
        FFPipelineError::AmfCapabilitiesError(String::from("no runtime")).message(),
        "no runtime"
    );
    assert_eq!(
        FFPipelineError::QsvCapabilitiesError(String::from("no device")).message(),
        "no device"
    );
}

#[test]
fn playout_error_messages() {
    assert_eq!(
        PlayoutError::PlayoutJsonDoesNotExist.message(),
        "playout json does not exist"
    );
    assert_eq!(
        PlayoutError::PlayoutJsonLoadError(String::from("bad json")).message(),
        "failed to load playout json file: bad json"
    );
}

#[test]
fn channel_error_messages() {
    assert_eq!(
        ChannelError::ChannelConfigRequired.message(),
        "channel config is required as arg"
    );
    assert_eq!(
        ChannelError::ChannelConfigFailure(String::from("missing")).message(),
        "unable to load channel config: missing"
    );
    assert_eq!(
        ChannelError::PlayoutJsonNoItem.message(),
        "unable to find current item in playout JSON"
    );
    assert_eq!(
        ChannelError::PlayoutJsonSingleSourceRequired.message(),
        "only single sources are supported as playout items"
    );
    assert_eq!(
        ChannelError::PlayoutJsonLocalSourceRequired.message(),
        "only local sources are supported as playout items"
    );
}

#[test]
fn wrapped_errors_show_their_own_text() {
    let from_playout = ChannelError::from(PlayoutError::PlayoutJsonDoesNotExist);
    assert!(matches!(
        from_playout,
        ChannelError::PlayoutJsonLoadFailure(PlayoutError::PlayoutJsonDoesNotExist)
    ));
    assert_eq!(from_playout.message(), "playout json does not exist");

    let from_pipeline = ChannelError::from(FFPipelineError::ProbeFailed);
    assert!(matches!(
        from_pipeline,
        ChannelError::PipelineError(FFPipelineError::ProbeFailed)
    ));
    assert_eq!(from_pipeline.message(), "ffprobe failed");
}
