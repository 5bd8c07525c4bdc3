pub mod amf;
pub mod qsv;
