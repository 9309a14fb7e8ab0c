//! The options of a run.

use vstd::prelude::*;
use crate::log_verbosity::LogLevel;

verus! {

/// What the command line asked for.
#[derive(Debug, Clone)]
pub struct Args {
    /// The image file(s) to scan.
    pub images: Vec<String>,
    /// Settings for the decoder/scanner, each `<CONFIG>[=<VALUE>]`.
    pub config: Vec<String>,
    /// Enable display of following images to the screen.
    pub display: bool,
    /// Disable dbus message.
    pub nodbus: bool,
    /// Exit after scanning one bar code.
    pub oneshot: bool,
    /// Output points delimiting code zone with decoded symbol data.
    pub polygon: bool,
    /// Debug output level.
    pub verbosity: LogLevel,
    /// Output decoded symbol data without converting charsets.
    pub raw: bool,
    /// Enable XML output format.
    pub xml: bool,
}

/// What an [`Args`] holds.
pub struct ArgsView {
    pub images: Seq<Seq<char>>,
    pub config: Seq<Seq<char>>,
    pub display: bool,
    pub nodbus: bool,
    pub oneshot: bool,
    pub polygon: bool,
    pub verbosity: LogLevel,
    pub raw: bool,
    pub xml: bool,
}

impl View for Args {
    type V = ArgsView;

    open spec fn view(&self) -> ArgsView {
        ArgsView {
            images: self.images@.map_values(|s: String| s@),
            config: self.config@.map_values(|s: String| s@),
            display: self.display,
            nodbus: self.nodbus,
            oneshot: self.oneshot,
            polygon: self.polygon,
            verbosity: self.verbosity,
            raw: self.raw,
            xml: self.xml,
        }
    }
}

/// The encoding of the result stream. One is in force for a whole run.
#[derive(Debug, Copy, Clone, PartialEq, Eq, Structural)]
pub enum OutputMode {
    /// `<type-name>:<data>`, one line per symbol.
    PlainText,
    /// `<type-name>:<polygon>:<data>`, one line per symbol.
    PlainTextWithPolygon,
    /// The data alone, without the type name.
    Raw,
    /// One XML document for the run.
    Xml,
}

impl ArgsView {
    /// The encoding these options select: XML before raw, raw before the
    /// polygon annotation.
    pub open spec fn output_mode(self) -> OutputMode {
        if self.xml {
            OutputMode::Xml
        } else if self.raw {
            OutputMode::Raw
        } else if self.polygon {
            OutputMode::PlainTextWithPolygon
        } else {
            OutputMode::PlainText
        }
    }

    /// No message about the run itself is wanted.
    pub open spec fn is_quiet(self) -> bool {
        self.verbosity == LogLevel::Off
    }
}

impl Args {
    /// The number of images that are named.
    pub fn image_count(&self) -> (count: usize)
        ensures
            count == self@.images.len(),
    {
        self.images.len()
    }

    /// The encoding of the result stream for this run.
    pub fn output_mode(&self) -> (mode: OutputMode)
        ensures
            mode == self@.output_mode(),
    {
        if self.xml {
            OutputMode::Xml
        } else if self.raw {
            OutputMode::Raw
        } else if self.polygon {
            OutputMode::PlainTextWithPolygon
        } else {
            OutputMode::PlainText
        }
    }

    /// No message about the run itself is wanted.
    pub fn is_quiet(&self) -> (quiet: bool)
        ensures
            quiet == self@.is_quiet(),
    {
        match self.verbosity {
            LogLevel::Off => true,
            _ => false,
        }
    }
}

} // verus!
