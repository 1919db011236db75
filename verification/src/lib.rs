//! Verified core of a listening-port inspector: parsing of the socket
//! enumerator's tagged output, process-record enrichment, fixed-format
//! timestamp parsing, and framework classification.

pub mod app_detector;
pub mod error;
pub mod models;
pub mod output;
pub mod port_scanner;
pub mod process_info;
pub mod text;
pub mod timestamp;
