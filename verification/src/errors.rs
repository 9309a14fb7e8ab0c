//! The ways a run can fail.

use image::ImageError;
use vstd::prelude::*;
use vstd::string::StringExecFns;

verus! {

/// The image codec's error: why a file could not be opened as an image.
#[verifier::external_type_specification]
#[verifier::external_body]
pub struct ExImageError(ImageError);

/// What a step of the program gives, or why the run ended on it.
pub type ProgramResult<T> = Result<T, ProgramError>;

/// Why a run ended without success.
#[derive(Debug)]
pub enum ProgramError {
    /// No image was named.
    NoImagePassed,
    /// The decoding engine did not come up.
    ProcessorInitFailed,
    /// The engine could not read this setting.
    ConfigParseFailed(String),
    /// The engine read this setting and turned it down.
    ConfigSetFailed(String),
    /// The codec could not open an image file.
    ImageOpenFailed(ImageError),
    /// The engine failed on the image at this path.
    ImageProcessFailed(String),
    /// The image at this path could not be scanned.
    ImageScanFailed(String),
    /// Every image was scanned, and there was no symbol in any.
    NoSymbolDetected,
}

/// What a [`ProgramError`] holds.
pub enum ProgramErrorView {
    NoImagePassed,
    ProcessorInitFailed,
    ConfigParseFailed(Seq<char>),
    ConfigSetFailed(Seq<char>),
    ImageOpenFailed(ImageError),
    ImageProcessFailed(Seq<char>),
    ImageScanFailed(Seq<char>),
    NoSymbolDetected,
}

impl View for ProgramError {
    type V = ProgramErrorView;

    open spec fn view(&self) -> ProgramErrorView {
        match self {
            ProgramError::NoImagePassed => ProgramErrorView::NoImagePassed,
            ProgramError::ProcessorInitFailed => ProgramErrorView::ProcessorInitFailed,
            ProgramError::ConfigParseFailed(setting) => ProgramErrorView::ConfigParseFailed(
                setting@,
            ),
            ProgramError::ConfigSetFailed(setting) => ProgramErrorView::ConfigSetFailed(setting@),
            ProgramError::ImageOpenFailed(error) => ProgramErrorView::ImageOpenFailed(*error),
            ProgramError::ImageProcessFailed(image_path) => ProgramErrorView::ImageProcessFailed(
                image_path@,
            ),
            ProgramError::ImageScanFailed(image_path) => ProgramErrorView::ImageScanFailed(
                image_path@,
            ),
            ProgramError::NoSymbolDetected => ProgramErrorView::NoSymbolDetected,
        }
    }
}

/// The exit code of a run that found at least one symbol.
pub const EXIT_SUCCESS: u8 = 0;

/// The exit code of a run that failed outright.
pub const EXIT_FAILURE: u8 = 1;

/// The exit code of a run that went through and found no symbol.
pub const EXIT_NO_SYMBOL: u8 = 4;

impl ProgramErrorView {
    /// The message shown for this error.
    pub open spec fn message(self) -> Seq<char> {
        match self {
            ProgramErrorView::NoImagePassed => "Specify image file(s) to scan"@,
            ProgramErrorView::ProcessorInitFailed => "Failed to initialize the processor"@,
            ProgramErrorView::ConfigParseFailed(setting) => "Failed to parse the config `"@
                + setting + "`"@,
            ProgramErrorView::ConfigSetFailed(setting) => "Failed to set the config `"@ + setting
                + "` for the processor"@,
            ProgramErrorView::ImageOpenFailed(_) => "Failed to open image"@,
            ProgramErrorView::ImageProcessFailed(image_path) => "Failed to process the image \""@
                + image_path + "\""@,
            ProgramErrorView::ImageScanFailed(image_path) => "Failed to scan the image \""@
                + image_path + "\""@,
            ProgramErrorView::NoSymbolDetected => "No symbol detected"@,
        }
    }

    /// The codec's error behind this one, where there is one.
    pub open spec fn source(self) -> Option<ImageError> {
        match self {
            ProgramErrorView::ImageOpenFailed(error) => Some(error),
            _ => None,
        }
    }

    /// The exit code of a run that ends with this error.
    pub open spec fn report(self) -> u8 {
        match self {
            ProgramErrorView::NoSymbolDetected => EXIT_NO_SYMBOL,
            _ => EXIT_FAILURE,
        }
    }
}

/// The exit code of a run that ends with `result`.
pub open spec fn spec_exit_code(result: Result<(), ProgramErrorView>) -> u8 {
    match result {
        Ok(_) => EXIT_SUCCESS,
        Err(error) => error.report(),
    }
}

impl ProgramError {
    /// The message shown for this error.
    pub fn message(&self) -> (text: String)
        ensures
            text@ == self@.message(),
    {
        match self {
            ProgramError::NoImagePassed => String::from_str("Specify image file(s) to scan"),
            ProgramError::ProcessorInitFailed => String::from_str(
                "Failed to initialize the processor",
            ),
            ProgramError::ConfigParseFailed(setting) => {
                let mut text = String::from_str("Failed to parse the config `");
                text.append(setting.as_str());
                text.append("`");
                text
            },
            ProgramError::ConfigSetFailed(setting) => {
                let mut text = String::from_str("Failed to set the config `");
                text.append(setting.as_str());
                text.append("` for the processor");
                text
            },
            ProgramError::ImageOpenFailed(..) => String::from_str("Failed to open image"),
            ProgramError::ImageProcessFailed(image_path) => {
                let mut text = String::from_str("Failed to process the image \"");
                text.append(image_path.as_str());
                text.append("\"");
                text
            },
            ProgramError::ImageScanFailed(image_path) => {
                let mut text = String::from_str("Failed to scan the image \"");
                text.append(image_path.as_str());
                text.append("\"");
                text
            },
            ProgramError::NoSymbolDetected => String::from_str("No symbol detected"),
        }
    }

    /// The codec's error behind this one, where there is one.
    pub fn source(&self) -> (source: Option<&ImageError>)
        ensures
            self@.source() == match source {
                Some(error) => Some(*error),
                None => None,
            },
    {
        match self {
            ProgramError::NoImagePassed => None,
            ProgramError::ProcessorInitFailed => None,
            ProgramError::ConfigParseFailed(..) => None,
            ProgramError::ConfigSetFailed(..) => None,
            ProgramError::ImageOpenFailed(e) => Some(e),
            ProgramError::ImageProcessFailed(..) => None,
            ProgramError::ImageScanFailed(..) => None,
            ProgramError::NoSymbolDetected => None,
        }
    }

    /// The exit code of a run that ends with this error.
    pub fn report(&self) -> (code: u8)
        ensures
            code == self@.report(),
    {
        match self {
            ProgramError::NoSymbolDetected => EXIT_NO_SYMBOL,
            _ => EXIT_FAILURE,
        }
    }
}

/// The exit code of a run that ends with `result`.
pub fn exit_code(result: &ProgramResult<()>) -> (code: u8)
    ensures
        code == spec_exit_code(
            match result {
                Ok(_) => Ok(()),
                Err(error) => Err(error@),
            },
        ),
{
    match result {
        Ok(_) => EXIT_SUCCESS,
        Err(error) => error.report(),
    }
}

impl From<ImageError> for ProgramError {
    fn from(error: ImageError) -> (converted: ProgramError) {
        ProgramError::ImageOpenFailed(error)
    }
}

impl vstd::std_specs::convert::FromSpecImpl<ImageError> for ProgramError {
    open spec fn obeys_from_spec() -> bool {
        true
    }

    open spec fn from_spec(error: ImageError) -> ProgramError {
        ProgramError::ImageOpenFailed(error)
    }
}

} // verus!
