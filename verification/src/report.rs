//! What the program says about a run on its message stream.

use vstd::prelude::*;
use vstd::utf8::encode_utf8;
use crate::cli_args::Args;
use crate::errors::{ProgramError, ProgramErrorView, ProgramResult};
use crate::text::{append_decimal, append_text, decimal};

verus! {

/// The symbologies that the decoding engine was built to read.
#[derive(Debug, Copy, Clone, PartialEq, Eq, Structural)]
pub struct Symbologies {
    pub ean: bool,
    pub databar: bool,
    pub code128: bool,
    pub code93: bool,
    pub code39: bool,
    pub codabar: bool,
    pub i25: bool,
    pub qrcode: bool,
    pub sqcode: bool,
    pub pdf417: bool,
}

/// How the hints begin.
pub const WARNING_HEAD: &'static str =
    "WARNING: barcode data was not detected in some image(s)\nThings to check:\n  - is the barcode type supported? Currently supported symbologies are:\n";

/// The lines that name the symbologies.
pub const WARNING_EAN: &'static str =
    "\t- EAN/UPC (EAN-13, EAN-8, EAN-2, EAN-5, UPC-A, UPC-E, ISBN-10, ISBN-13)\n";

pub const WARNING_DATABAR: &'static str = "\t- DataBar, DataBar Expanded\n";

pub const WARNING_CODE128: &'static str = "\t- Code 128\n";

pub const WARNING_CODE93: &'static str = "\t- Code 93\n";

pub const WARNING_CODE39: &'static str = "\t- Code 39\n";

pub const WARNING_CODABAR: &'static str = "\t- Codabar\n";

pub const WARNING_I25: &'static str = "\t- Interleaved 2 of 5\n";

pub const WARNING_QRCODE: &'static str = "\t- QR code\n";

pub const WARNING_SQCODE: &'static str = "\t- SQ code\n";

pub const WARNING_PDF417: &'static str = "\t- PDF 417\n";

/// What to check, after the symbologies.
pub const WARNING_TAIL: &'static str =
    "  - is the barcode large enough in the image?\n  - is the barcode mostly in focus?\n  - is there sufficient contrast/illumination?\n  - If the symbol is split in several barcodes, are they combined in one image?\n  - Did you enable the barcode type?\n    some EAN/UPC codes are disabled by default. To enable all, use:\n    $ zbarimg -S*.enable <files>\n    Please also notice that some variants take precedence over others.\n    Due to that, if you want, for example, ISBN-10, you should do:\n    $ zbarimg -Sisbn10.enable <files>\n";

/// The line for one symbology, where the engine reads it.
pub open spec fn symbology_line(supported: bool, line: &str) -> Seq<u8> {
    if supported {
        encode_utf8(line@)
    } else {
        Seq::empty()
    }
}

/// The hints given when no barcode was found: the symbologies that are
/// supported, then what to check.
pub open spec fn warning_text(supported: Symbologies) -> Seq<u8> {
    encode_utf8(WARNING_HEAD@)
        + symbology_line(supported.ean, WARNING_EAN)
        + symbology_line(supported.databar, WARNING_DATABAR)
        + symbology_line(supported.code128, WARNING_CODE128)
        + symbology_line(supported.code93, WARNING_CODE93)
        + symbology_line(supported.code39, WARNING_CODE39)
        + symbology_line(supported.codabar, WARNING_CODABAR)
        + symbology_line(supported.i25, WARNING_I25)
        + symbology_line(supported.qrcode, WARNING_QRCODE)
        + symbology_line(supported.sqcode, WARNING_SQCODE)
        + symbology_line(supported.pdf417, WARNING_PDF417)
        + encode_utf8(WARNING_TAIL@)
}

/// The one-line account of a run: how many symbols, from how many images,
/// in what time.
pub open spec fn summary_text(symbols: nat, images: nat, elapsed: Seq<char>) -> Seq<u8> {
    encode_utf8("scanned "@) + decimal(symbols) + encode_utf8(" barcode symbols from "@)
        + decimal(images) + encode_utf8(" images in "@) + encode_utf8(elapsed) + encode_utf8(
        " seconds"@,
    )
}

fn append_symbology_line(out: &mut Vec<u8>, supported: bool, line: &str)
    ensures
        final(out)@ == old(out)@ + symbology_line(supported, line),
{
    if supported {
        append_text(out, line);
    }
}

/// The hints for a run that found no barcode. They are given when symbols
/// were looked for and none was detected, unless the run is to be quiet.
pub fn print_no_symbol_detected_warning(
    detected_symbol_count: u128,
    quiet: bool,
    supported: &Symbologies,
) -> (warning: Option<Vec<u8>>)
    ensures
        warning is Some <==> !quiet && detected_symbol_count == 0,
        warning matches Some(w) ==> w@ == warning_text(*supported),
{
    if quiet || detected_symbol_count != 0 {
        return None;
    }
    let mut warning_str: Vec<u8> = Vec::new();
    append_text(&mut warning_str, WARNING_HEAD);
    append_symbology_line(&mut warning_str, supported.ean, WARNING_EAN);
    append_symbology_line(&mut warning_str, supported.databar, WARNING_DATABAR);
    append_symbology_line(&mut warning_str, supported.code128, WARNING_CODE128);
    append_symbology_line(&mut warning_str, supported.code93, WARNING_CODE93);
    append_symbology_line(&mut warning_str, supported.code39, WARNING_CODE39);
    append_symbology_line(&mut warning_str, supported.codabar, WARNING_CODABAR);
    append_symbology_line(&mut warning_str, supported.i25, WARNING_I25);
    append_symbology_line(&mut warning_str, supported.qrcode, WARNING_QRCODE);
    append_symbology_line(&mut warning_str, supported.sqcode, WARNING_SQCODE);
    append_symbology_line(&mut warning_str, supported.pdf417, WARNING_PDF417);
    append_text(&mut warning_str, WARNING_TAIL);
    assert(warning_str@ =~= warning_text(*supported));
    Some(warning_str)
}

/// What a finished run says about itself.
pub struct ScanResult {
    /// The one-line account of the run.
    pub summary: Option<Vec<u8>>,
    /// The hints for a run that found nothing.
    pub warning: Option<Vec<u8>>,
}

/// The run went through all its images: it ended well, or for want of a
/// symbol. A run that was given up has no account.
pub open spec fn ran_through(result: Result<(), ProgramErrorView>) -> bool {
    match result {
        Ok(_) => true,
        Err(error) => error == ProgramErrorView::NoSymbolDetected,
    }
}

/// The messages of a run that ended with `result`: none if it is to be
/// quiet, or if it was given up; else the summary and, where no symbol was
/// detected, the hints. `elapsed_time` is the time taken in seconds, as it
/// is to be shown.
pub fn print_scan_result(
    args: &Args,
    result: &ProgramResult<()>,
    detected_symbol_count: u128,
    image_count: usize,
    elapsed_time: &str,
    supported: &Symbologies,
) -> (said: ScanResult)
    ensures
        ({
            let shown = !args@.is_quiet() && ran_through(
                match result {
                    Ok(_) => Ok(()),
                    Err(error) => Err(error@),
                },
            );
            &&& said.summary is Some <==> shown
            &&& said.summary matches Some(s) ==> s@ == summary_text(
                detected_symbol_count as nat,
                image_count as nat,
                elapsed_time@,
            )
            &&& said.warning is Some <==> shown && detected_symbol_count == 0
            &&& said.warning matches Some(w) ==> w@ == warning_text(*supported)
        }),
{
    let shown = !args.is_quiet() && match result {
        Ok(_) => true,
        Err(ProgramError::NoSymbolDetected) => true,
        Err(_) => false,
    };
    let warning = print_no_symbol_detected_warning(detected_symbol_count, !shown, supported);
    if !shown {
        return ScanResult { summary: None, warning };
    }
    let mut line: Vec<u8> = Vec::new();
    append_text(&mut line, "scanned ");
    append_decimal(&mut line, detected_symbol_count);
    append_text(&mut line, " barcode symbols from ");
    append_decimal(&mut line, image_count as u128);
    append_text(&mut line, " images in ");
    append_text(&mut line, elapsed_time);
    append_text(&mut line, " seconds");
    assert(line@ =~= summary_text(
        detected_symbol_count as nat,
        image_count as nat,
        elapsed_time@,
    ));
    ScanResult { summary: Some(line), warning }
}

} // verus!
