//! Error types of the pipeline, the playout loader and the channel runner.
use vstd::prelude::*;

use crate::text::{owned, push_str};

verus! {

broadcast use vstd::string::group_string_axioms;

#[derive(Debug)]
pub enum FFPipelineError {
    ProbeFailed,
    FfmpegCapabilitiesError(String),
    AmfCapabilitiesError(String),
    QsvCapabilitiesError(String),
}

/// The text of a pipeline error; errors that carry a message show it.
pub open spec fn ffpipeline_error_message(e: FFPipelineError) -> Seq<char> {
    match e {
        FFPipelineError::ProbeFailed => "ffprobe failed"@,
        FFPipelineError::FfmpegCapabilitiesError(what) => what@,
        FFPipelineError::AmfCapabilitiesError(what) => what@,
        FFPipelineError::QsvCapabilitiesError(what) => what@,
    }
}

impl FFPipelineError {
    /// The text shown to the operator.
    pub fn message(&self) -> (r: String)
        ensures
            r@ == ffpipeline_error_message(*self),
    {
        match self {
            FFPipelineError::ProbeFailed => owned("ffprobe failed"),
            FFPipelineError::FfmpegCapabilitiesError(what) => what.clone(),
            FFPipelineError::AmfCapabilitiesError(what) => what.clone(),
            FFPipelineError::QsvCapabilitiesError(what) => what.clone(),
        }
    }
}

#[derive(Debug)]
pub enum PlayoutError {
    PlayoutJsonDoesNotExist,
    PlayoutJsonLoadError(String),
}

/// The text of a playout error.
pub open spec fn playout_error_message(e: PlayoutError) -> Seq<char> {
    match e {
        PlayoutError::PlayoutJsonDoesNotExist => "playout json does not exist"@,
        PlayoutError::PlayoutJsonLoadError(error) => "failed to load playout json file: "@
            + error@,
    }
}

impl PlayoutError {
    /// The text shown to the operator.
    pub fn message(&self) -> (r: String)
        ensures
            r@ == playout_error_message(*self),
    {
        match self {
            PlayoutError::PlayoutJsonDoesNotExist => owned("playout json does not exist"),
            PlayoutError::PlayoutJsonLoadError(error) => {
                let mut r = owned("failed to load playout json file: ");
                push_str(&mut r, error.as_str());
                r
            },
        }
    }
}

#[derive(Debug)]
pub enum ChannelError {
    ChannelConfigRequired,
    ChannelConfigFailure(String),
    PlayoutJsonLoadFailure(PlayoutError),
    PlayoutJsonNoItem,
    PlayoutJsonSingleSourceRequired,
    PlayoutJsonLocalSourceRequired,
    PipelineError(FFPipelineError),
}

/// The text of a channel error; wrapped errors show their own text.
pub open spec fn channel_error_message(e: ChannelError) -> Seq<char> {
    match e {
        ChannelError::ChannelConfigRequired => "channel config is required as arg"@,
        ChannelError::ChannelConfigFailure(err) => "unable to load channel config: "@ + err@,
        ChannelError::PlayoutJsonLoadFailure(err) => playout_error_message(err),
        ChannelError::PlayoutJsonNoItem => "unable to find current item in playout JSON"@,
        ChannelError::PlayoutJsonSingleSourceRequired =>
            "only single sources are supported as playout items"@,
        ChannelError::PlayoutJsonLocalSourceRequired =>
            "only local sources are supported as playout items"@,
        ChannelError::PipelineError(err) => ffpipeline_error_message(err),
    }
}

impl ChannelError {
    /// The text shown to the operator.
    pub fn message(&self) -> (r: String)
        ensures
            r@ == channel_error_message(*self),
    {
        match self {
            ChannelError::ChannelConfigRequired => owned("channel config is required as arg"),
            ChannelError::ChannelConfigFailure(err) => {
                let mut r = owned("unable to load channel config: ");
                push_str(&mut r, err.as_str());
                r
            },
            ChannelError::PlayoutJsonLoadFailure(err) => err.message(),
            ChannelError::PlayoutJsonNoItem => owned("unable to find current item in playout JSON"),
            ChannelError::PlayoutJsonSingleSourceRequired => owned(
                "only single sources are supported as playout items",
            ),
            ChannelError::PlayoutJsonLocalSourceRequired => owned(
                "only local sources are supported as playout items",
            ),
            ChannelError::PipelineError(err) => err.message(),
        }
    }
}

impl From<PlayoutError> for ChannelError {
    fn from(value: PlayoutError) -> (r: ChannelError) {
        ChannelError::PlayoutJsonLoadFailure(value)
    }
}

impl vstd::std_specs::convert::FromSpecImpl<PlayoutError> for ChannelError {
    open spec fn obeys_from_spec() -> bool {
        true
    }

    open spec fn from_spec(v: PlayoutError) -> ChannelError {
        ChannelError::PlayoutJsonLoadFailure(v)
    }
}

impl From<FFPipelineError> for ChannelError {
    fn from(value: FFPipelineError) -> (r: ChannelError) {
        ChannelError::PipelineError(value)
    }
}

impl vstd::std_specs::convert::FromSpecImpl<FFPipelineError> for ChannelError {
    open spec fn obeys_from_spec() -> bool {
        true
    }

    open spec fn from_spec(v: FFPipelineError) -> ChannelError {
        ChannelError::PipelineError(v)
    }
}

} // verus!
