//! Extraction of load-test metric series from a time-series database into
//! CSV documents: the metric registry, query construction, lenient record
//! decoding, CSV rendering and the bookkeeping of an extraction run.

pub mod app;
pub mod cli;
pub mod decode;
pub mod export;
pub mod laws;
pub mod metrics;
pub mod query;
pub mod report;
pub mod run;
pub mod text;
pub mod timestamp;
