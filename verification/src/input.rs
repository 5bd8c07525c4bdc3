//! The inputs a pipeline reads.
use vstd::prelude::*;

use std::time::Duration;

use crate::probe::ProbeResult;

verus! {

/// The audio and the video input of a pipeline; they may be the same file.
pub struct InputSettings {
    pub audio_input: ProbedInput,
    pub video_input: ProbedInput,
}

/// How to read an HTTP input.
#[derive(Clone, Debug)]
pub struct HttpInputOptions {
    pub headers: Vec<String>,
    pub user_agent: Option<String>,
    pub timeout_us: Option<u64>,
    pub reconnect: bool,
    pub reconnect_delay_max: Option<u32>,
}

/// Where an input comes from.
#[derive(Clone)]
pub enum InputSource {
    Local { path: String },
    Lavfi { params: String },
    Http { uri: String, options: HttpInputOptions },
}

/// An input with its probe report, the part of it to play, and the streams to use.
pub struct ProbedInput {
    pub input_source: InputSource,
    pub probe_result: ProbeResult,
    pub in_point: Duration,
    pub out_point: Duration,
    pub audio_index: Option<u32>,
    pub video_index: Option<u32>,
}

} // verus!
