//! Capabilities that the hardware runtimes report.
pub mod amf;
pub mod qsv;
