use rsbar_img::cli_args::Args;
use rsbar_img::log_verbosity::{engine_verbosity, LogLevel};
use rsbar_img::report::{print_no_symbol_detected_warning, print_scan_result, Symbologies};
use rsbar_img::{LogVerbosity, ProgramError};

const ALL: Symbologies = Symbologies {
    ean: true,
    databar: true,
    code128: true,
    code93: true,
    code39: true,
    codabar: true,
    i25: true,
    qrcode: true,
    sqcode: true,
    pdf417: true,
};

const NONE: Symbologies = Symbologies {
    ean: false,
    databar: false,
    code128: false,
    code93: false,
    code39: false,
    codabar: false,
    i25: false,
    qrcode: false,
    sqcode: false,
    pdf417: false,
};

const HEAD: &str = "WARNING: barcode data was not detected in some image(s)\n\
    Things to check:\n  \
    - is the barcode type supported? Currently supported symbologies are:\n";

const TAIL: &str = "  - is the barcode large enough in the image?\n  \
    - is the barcode mostly in focus?\n  \
    - is there sufficient contrast/illumination?\n  \
    - If the symbol is split in several barcodes, are they combined in one image?\n  \
    - Did you enable the barcode type?\n    \
        some EAN/UPC codes are disabled by default. To enable all, use:\n    \
        $ zbarimg -S*.enable <files>\n    \
        Please also notice that some variants take precedence over others.\n    \
        Due to that, if you want, for example, ISBN-10, you should do:\n    \
        $ zbarimg -Sisbn10.enable <files>\n";

fn options(verbosity: LogLevel) -> Args {
    Args {
        images: vec!["a.png".to_string(), "b.png".to_string()],
        config: Vec::new(),
        display: false,
        nodbus: false,
        oneshot: false,
        polygon: false,
        verbosity,
        raw: false,
        xml: false,
    }
}

fn warning(count: u128, quiet: bool, supported: &Symbologies) -> Option<String> {
    print_no_symbol_detected_warning(count, quiet, supported)
        .map(|bytes| String::from_utf8(bytes).unwrap())
}

#[test]
fn warning_lists_every_supported_symbology() {
    let mut expected = String::from(HEAD);
    expected.push_str("\t- EAN/UPC (EAN-13, EAN-8, EAN-2, EAN-5, UPC-A, UPC-E, ISBN-10, ISBN-13)\n");
    expected.push_str("\t- DataBar, DataBar Expanded\n");
    expected.push_str("\t- Code 128\n");
    expected.push_str("\t- Code 93\n");
    expected.push_str("\t- Code 39\n");
    expected.push_str("\t- Codabar\n");
    expected.push_str("\t- Interleaved 2 of 5\n");
    expected.push_str("\t- QR code\n");
    expected.push_str("\t- SQ code\n");
    expected.push_str("\t- PDF 417\n");
    expected.push_str(TAIL);
    assert_eq!(warning(0, false, &ALL).unwrap(), expected);
}

#[test]
fn warning_leaves_out_what_is_not_supported() {
    assert_eq!(warning(0, false, &NONE).unwrap(), format!("{HEAD}{TAIL}"));
    let some = Symbologies { qrcode: true, code39: true, ..NONE };
    assert_eq!(
        warning(0, false, &some).unwrap(),
        format!("{HEAD}\t- Code 39\n\t- QR code\n{TAIL}")
    );
}

#[test]
fn warning_is_kept_back_when_a_symbol_was_found_or_quiet() {
    assert!(warning(1, false, &ALL).is_none());
    assert!(warning(u128::MAX, false, &ALL).is_none());
    assert!(warning(0, true, &ALL).is_none());
    assert!(warning(3, true, &ALL).is_none());
}

#[test]
fn scan_result_of_a_run_that_found_symbols() {
    let said = print_scan_result(&options(LogLevel::Error), &Ok(()), 3, 2, "0.25", &ALL);
    assert_eq!(
        String::from_utf8(said.summary.unwrap()).unwrap(),
        "scanned 3 barcode symbols from 2 images in 0.25 seconds"
    );
    assert!(said.warning.is_none());
}

#[test]
fn scan_result_of_a_run_that_found_nothing() {
    let said = print_scan_result(
        &options(LogLevel::Info),
        &Err(ProgramError::NoSymbolDetected),
        0,
        12,
        "NaN",
        &NONE,
    );
    assert_eq!(
        String::from_utf8(said.summary.unwrap()).unwrap(),
        "scanned 0 barcode symbols from 12 images in NaN seconds"
    );
    assert_eq!(String::from_utf8(said.warning.unwrap()).unwrap(), format!("{HEAD}{TAIL}"));
}

#[test]
fn scan_result_of_a_quiet_run_is_empty() {
    let said = print_scan_result(
        &options(LogLevel::Off),
        &Err(ProgramError::NoSymbolDetected),
        0,
        1,
        "0.00",
        &ALL,
    );
    assert!(said.summary.is_none());
    assert!(said.warning.is_none());
}

#[test]
fn scan_result_of_a_run_that_was_given_up_is_empty() {
    let failures = [
        ProgramError::NoImagePassed,
        ProgramError::ProcessorInitFailed,
        ProgramError::ConfigParseFailed("x".to_string()),
        ProgramError::ConfigSetFailed("x".to_string()),
        ProgramError::ImageOpenFailed(
            image::load_from_memory(b"This file is not an image").unwrap_err(),
        ),
        ProgramError::ImageProcessFailed("x".to_string()),
        ProgramError::ImageScanFailed("x".to_string()),
    ];
    for failure in failures {
        let result = Err(failure);
        for count in [0, 2] {
            let said = print_scan_result(&options(LogLevel::Info), &result, count, 1, "0.10", &ALL);
            assert!(said.summary.is_none());
            assert!(said.warning.is_none());
        }
    }
}

#[test]
fn only_off_is_quiet() {
    assert!(options(LogLevel::Off).is_quiet());
    for level in [LogLevel::Error, LogLevel::Warn, LogLevel::Info, LogLevel::Debug, LogLevel::Trace]
    {
        assert!(!options(level).is_quiet());
    }
}

#[test]
fn engine_speaks_from_debug_on() {
    assert_eq!(engine_verbosity(LogLevel::Off), 0);
    assert_eq!(engine_verbosity(LogLevel::Error), 0);
    assert_eq!(engine_verbosity(LogLevel::Warn), 0);
    assert_eq!(engine_verbosity(LogLevel::Info), 0);
    assert_eq!(engine_verbosity(LogLevel::Debug), 64);
    assert_eq!(engine_verbosity(LogLevel::Trace), 128);
}

#[test]
fn only_the_quiet_verbosity_is_quiet() {
    assert!(LogVerbosity::Quiet.is_quiet());
    assert!(!LogVerbosity::Minimal.is_quiet());
    assert!(!LogVerbosity::Normal.is_quiet());
    assert!(!LogVerbosity::Detailed.is_quiet());
    assert!(!LogVerbosity::Diagnostic.is_quiet());
}

#[test]
fn image_count_is_the_number_of_paths() {
    assert_eq!(options(LogLevel::Error).image_count(), 2);
    let mut none = options(LogLevel::Error);
    none.images.clear();
    assert_eq!(none.image_count(), 0);
}
