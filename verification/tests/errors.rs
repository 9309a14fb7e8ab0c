use rsbar_img::errors::{exit_code, EXIT_FAILURE, EXIT_NO_SYMBOL, EXIT_SUCCESS};
use rsbar_img::{ProgramError, ProgramResult};

fn codec_error() -> image::ImageError {
    image::load_from_memory(b"This file is not an image").unwrap_err()
}

#[test]
fn messages_of_all_errors() {
    assert_eq!(ProgramError::NoImagePassed.message(), "Specify image file(s) to scan");
    assert_eq!(ProgramError::ProcessorInitFailed.message(), "Failed to initialize the processor");
    assert_eq!(
        ProgramError::ConfigParseFailed("test".to_string()).message(),
        "Failed to parse the config `test`"
    );
    assert_eq!(
        ProgramError::ConfigSetFailed("qrcode.bogus=1".to_string()).message(),
        "Failed to set the config `qrcode.bogus=1` for the processor"
    );
    assert_eq!(ProgramError::ImageOpenFailed(codec_error()).message(), "Failed to open image");
    assert_eq!(
        ProgramError::ImageProcessFailed("a b.png".to_string()).message(),
        "Failed to process the image \"a b.png\""
    );
    assert_eq!(
        ProgramError::ImageScanFailed("c.png".to_string()).message(),
        "Failed to scan the image \"c.png\""
    );
    assert_eq!(ProgramError::NoSymbolDetected.message(), "No symbol detected");
}

#[test]
fn messages_with_empty_names() {
    assert_eq!(
        ProgramError::ConfigParseFailed(String::new()).message(),
        "Failed to parse the config ``"
    );
    assert_eq!(
        ProgramError::ImageProcessFailed(String::new()).message(),
        "Failed to process the image \"\""
    );
}

#[test]
fn only_a_missing_symbol_exits_with_four() {
    assert_eq!(ProgramError::NoSymbolDetected.report(), 4);
    assert_eq!(ProgramError::NoImagePassed.report(), 1);
    assert_eq!(ProgramError::ProcessorInitFailed.report(), 1);
    assert_eq!(ProgramError::ConfigParseFailed("x".to_string()).report(), 1);
    assert_eq!(ProgramError::ConfigSetFailed("x".to_string()).report(), 1);
    assert_eq!(ProgramError::ImageOpenFailed(codec_error()).report(), 1);
    assert_eq!(ProgramError::ImageProcessFailed("x".to_string()).report(), 1);
    assert_eq!(ProgramError::ImageScanFailed("x".to_string()).report(), 1);
}

#[test]
fn exit_codes_of_results() {
    let fine: ProgramResult<()> = Ok(());
    assert_eq!(exit_code(&fine), 0);
    assert_eq!(exit_code(&Err(ProgramError::NoSymbolDetected)), 4);
    assert_eq!(exit_code(&Err(ProgramError::NoImagePassed)), 1);
    assert_eq!((EXIT_SUCCESS, EXIT_FAILURE, EXIT_NO_SYMBOL), (0, 1, 4));
}

#[test]
fn only_an_unopened_image_has_a_source() {
    assert!(ProgramError::ImageOpenFailed(codec_error()).source().is_some());
    assert!(ProgramError::NoImagePassed.source().is_none());
    assert!(ProgramError::ProcessorInitFailed.source().is_none());
    assert!(ProgramError::ConfigParseFailed("x".to_string()).source().is_none());
    assert!(ProgramError::ConfigSetFailed("x".to_string()).source().is_none());
    assert!(ProgramError::ImageProcessFailed("x".to_string()).source().is_none());
    assert!(ProgramError::ImageScanFailed("x".to_string()).source().is_none());
    assert!(ProgramError::NoSymbolDetected.source().is_none());
}

#[test]
fn codec_errors_become_open_failures() {
    let inner = format!("{:?}", codec_error());
    let error = ProgramError::from(codec_error());
    match &error {
        ProgramError::ImageOpenFailed(source) => assert_eq!(format!("{:?}", source), inner),
        other => panic!("unexpected error: {:?}", other),
    }
    assert_eq!(format!("{:?}", error.source().unwrap()), inner);
}
