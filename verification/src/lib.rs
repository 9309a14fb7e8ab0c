//! Scan orchestration and result formatting for a barcode image scanner.
//!
//! The decoding engine and the image codec stay outside. A run is a state
//! machine, [`session::Session`]: the caller performs what a
//! [`session::Action`] asks for, reports back with a [`session::Event`],
//! and writes the output of each [`session::Step`] to the result stream.
//! What is decided and formatted in between is in this crate, with its
//! contract; [`laws`] and [`xml_document`] state what follows for whole
//! runs.

pub mod cli_args;
pub mod engine;
pub mod errors;
pub mod laws;
pub mod log_verbosity;
pub mod parse_config;
pub mod report;
pub mod scan_image;
pub mod session;
pub mod text;
pub mod trace;
pub mod xml_document;
pub mod xml_printer;
pub mod zbar_image;

pub use crate::cli_args::Args;
pub use crate::engine::{ZbarConfig, ZbarSymbolType};
pub use crate::errors::{ProgramError, ProgramResult};
pub use crate::log_verbosity::LogVerbosity;
pub use crate::session::{run, scan_image, zbar_processor_parse_config};
pub use crate::xml_printer::XmlPrinter;
