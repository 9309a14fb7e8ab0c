use rsbar_img::cli_args::Args;
use rsbar_img::engine::{Point, Symbol, ZbarSymbolType};
use rsbar_img::log_verbosity::LogLevel;
use rsbar_img::scan_image::{
    output_result, print_polygon, print_symbol, print_symbol_as_xml, print_symbol_data,
    print_symbol_type, ScanOutcome,
};

fn options() -> Args {
    Args {
        images: vec!["a.png".to_string()],
        config: Vec::new(),
        display: false,
        nodbus: false,
        oneshot: false,
        polygon: false,
        verbosity: LogLevel::Error,
        raw: false,
        xml: false,
    }
}

fn symbol(kind: ZbarSymbolType, name: &str, data: &[u8]) -> Symbol {
    Symbol {
        kind,
        name: name.as_bytes().to_vec(),
        data: data.to_vec(),
        polygon: Vec::new(),
        xml: Some(format!("<symbol type='{}'/>", name).into_bytes()),
    }
}

fn qr(data: &str) -> Symbol {
    symbol(ZbarSymbolType::ZbarQrcode, "QR-Code", data.as_bytes())
}

fn partial() -> Symbol {
    symbol(ZbarSymbolType::ZbarPartial, "PARTIAL", b"half")
}

fn result(symbols: &[Symbol], args: &Args, idx: usize, binary: bool) -> (String, ScanOutcome) {
    let mut out = Vec::new();
    let outcome = output_result(&mut out, &symbols.to_vec(), args, idx, binary);
    (String::from_utf8(out).unwrap(), outcome)
}

fn written(print: impl Fn(&mut Vec<u8>)) -> Vec<u8> {
    let mut out = Vec::new();
    print(&mut out);
    out
}

#[test]
fn type_is_written_with_a_colon() {
    let args = options();
    assert_eq!(written(|out| print_symbol_type(out, &args, &qr("x"))), b"QR-Code:".to_vec());
}

#[test]
fn type_is_left_out_in_raw_mode() {
    let mut args = options();
    args.raw = true;
    assert!(written(|out| print_symbol_type(out, &args, &qr("x"))).is_empty());
}

#[test]
fn type_that_is_no_text_is_written_as_it_is() {
    let mut args = options();
    let mut odd = qr("x");
    odd.name = vec![b'Q', 0xff, b'R'];
    assert_eq!(written(|out| print_symbol_type(out, &args, &odd)), vec![b'Q', 0xff, b'R', b':']);
    odd.name = Vec::new();
    assert_eq!(written(|out| print_symbol_type(out, &args, &odd)), b":".to_vec());
    args.raw = true;
    odd.name = vec![b'Q', 0xff, b'R'];
    assert!(written(|out| print_symbol_type(out, &args, &odd)).is_empty());
}

#[test]
fn polygon_is_written_as_pairs() {
    let mut args = options();
    args.polygon = true;
    let mut boxed = qr("x");
    boxed.polygon = vec![
        Point { x: 1, y: 1 },
        Point { x: 0, y: 98 },
        Point { x: 100, y: 100 },
        Point { x: 98, y: 0 },
    ];
    assert_eq!(
        written(|out| print_polygon(out, &args, &boxed)),
        b"1,1 0,98 100,100 98,0:".to_vec()
    );
    boxed.polygon = vec![Point { x: -5, y: i32::MIN }];
    assert_eq!(written(|out| print_polygon(out, &args, &boxed)), b"-5,-2147483648:".to_vec());
    boxed.polygon = vec![Point { x: 7, y: -7 }, Point { x: i32::MAX, y: 0 }];
    assert_eq!(written(|out| print_polygon(out, &args, &boxed)), b"7,-7 2147483647,0:".to_vec());
}

#[test]
fn polygon_is_left_out_when_empty_or_not_asked_for() {
    let mut args = options();
    let mut boxed = qr("x");
    boxed.polygon = vec![Point { x: 1, y: 2 }];
    assert!(written(|out| print_polygon(out, &args, &boxed)).is_empty());
    args.polygon = true;
    boxed.polygon = Vec::new();
    assert!(written(|out| print_polygon(out, &args, &boxed)).is_empty());
}

#[test]
fn data_ends_its_line() {
    assert_eq!(written(|out| print_symbol_data(out, false, &qr("abc"))), b"abc\n".to_vec());
    assert_eq!(written(|out| print_symbol_data(out, false, &qr(""))), b"\n".to_vec());
    assert_eq!(
        written(|out| print_symbol_data(out, false, &qr("gr\u{fc}n"))),
        "gr\u{fc}n\n".as_bytes().to_vec()
    );
}

#[test]
fn data_that_is_no_text_is_written_with_its_line_end() {
    let odd = symbol(ZbarSymbolType::ZbarQrcode, "QR-Code", &[b'a', 0xc3, b'b']);
    assert_eq!(written(|out| print_symbol_data(out, false, &odd)), vec![b'a', 0xc3, b'b', b'\n']);
    let odder = symbol(ZbarSymbolType::ZbarQrcode, "QR-Code", &[0xff, 0xfe]);
    assert_eq!(written(|out| print_symbol_data(out, false, &odder)), vec![0xff, 0xfe, b'\n']);
    assert_eq!(written(|out| print_symbol_data(out, true, &odder)), vec![0xff, 0xfe]);
}

#[test]
fn records_of_data_that_is_no_text_do_not_run_into_each_other() {
    let symbols = vec![
        symbol(ZbarSymbolType::ZbarQrcode, "QR-Code", &[0xff, 0xfe]),
        symbol(ZbarSymbolType::ZbarEan13, "EAN-13", b"2"),
    ];
    let mut out = Vec::new();
    let outcome = output_result(&mut out, &symbols, &options(), 0, false);
    let mut expected = b"QR-Code:".to_vec();
    expected.extend_from_slice(&[0xff, 0xfe, b'\n']);
    expected.extend_from_slice(b"EAN-13:2\n");
    assert_eq!(out, expected);
    assert_eq!(outcome.count, 2);
}

#[test]
fn binary_data_is_written_as_it_is() {
    let odd = symbol(ZbarSymbolType::ZbarQrcode, "QR-Code", &[b'a', 0xc3, b'\n', 0]);
    assert_eq!(written(|out| print_symbol_data(out, true, &odd)), vec![b'a', 0xc3, b'\n', 0]);
    assert_eq!(written(|out| print_symbol_data(out, true, &qr("abc"))), b"abc".to_vec());
}

#[test]
fn xml_fragment_is_one_indented_line() {
    assert_eq!(
        written(|out| print_symbol_as_xml(out, &qr("x"))),
        b"            <symbol type='QR-Code'/>\n".to_vec()
    );
}

#[test]
fn xml_fragment_that_is_missing_is_left_out() {
    let mut bare = qr("x");
    bare.xml = None;
    assert!(written(|out| print_symbol_as_xml(out, &bare)).is_empty());
}

#[test]
fn xml_fragment_that_is_no_text_is_written_as_it_is() {
    let mut odd = qr("x");
    odd.xml = Some(vec![b'<', 0xff, b'>']);
    let mut expected = b"            ".to_vec();
    expected.extend_from_slice(&[b'<', 0xff, b'>', b'\n']);
    assert_eq!(written(|out| print_symbol_as_xml(out, &odd)), expected);
}

#[test]
fn symbol_in_every_mode() {
    let mut boxed = qr("payload");
    boxed.polygon = vec![Point { x: 3, y: 4 }, Point { x: 5, y: 6 }];
    let mut args = options();
    assert_eq!(written(|out| print_symbol(out, &args, false, &boxed)), b"QR-Code:payload\n".to_vec());
    args.polygon = true;
    assert_eq!(
        written(|out| print_symbol(out, &args, false, &boxed)),
        b"QR-Code:3,4 5,6:payload\n".to_vec()
    );
    args.raw = true;
    assert_eq!(written(|out| print_symbol(out, &args, false, &boxed)), b"3,4 5,6:payload\n".to_vec());
    args.polygon = false;
    assert_eq!(written(|out| print_symbol(out, &args, false, &boxed)), b"payload\n".to_vec());
    assert_eq!(written(|out| print_symbol(out, &args, true, &boxed)), b"payload".to_vec());
    args.xml = true;
    assert_eq!(
        written(|out| print_symbol(out, &args, true, &boxed)),
        b"            <symbol type='QR-Code'/>\n".to_vec()
    );
}

#[test]
fn result_of_an_empty_list() {
    let mut args = options();
    assert_eq!(
        result(&[], &args, 0, false),
        (String::new(), ScanOutcome { count: 0, early_termination: false })
    );
    args.xml = true;
    args.oneshot = true;
    assert_eq!(
        result(&[], &args, 0, false),
        (String::new(), ScanOutcome { count: 0, early_termination: false })
    );
}

#[test]
fn result_keeps_the_order_of_the_engine() {
    let symbols = [qr("first"), symbol(ZbarSymbolType::ZbarEan13, "EAN-13", b"2"), qr("third")];
    assert_eq!(
        result(&symbols, &options(), 0, false),
        (
            "QR-Code:first\nEAN-13:2\nQR-Code:third\n".to_string(),
            ScanOutcome { count: 3, early_termination: false }
        )
    );
}

#[test]
fn result_skips_partial_symbols() {
    let args = options();
    let clean = [qr("a"), qr("b")];
    let noisy = [partial(), qr("a"), partial(), partial(), qr("b"), partial()];
    assert_eq!(result(&noisy, &args, 0, false), result(&clean, &args, 0, false));
    assert_eq!(result(&noisy, &args, 0, false).1.count, 2);
    assert_eq!(
        result(&[partial(), partial()], &args, 0, false),
        (String::new(), ScanOutcome { count: 0, early_termination: false })
    );
}

#[test]
fn result_counts_symbols_of_type_none() {
    let unnamed = symbol(ZbarSymbolType::ZbarNone, "UNKNOWN", b"?");
    assert_eq!(
        result(&[unnamed], &options(), 0, false),
        ("UNKNOWN:?\n".to_string(), ScanOutcome { count: 1, early_termination: false })
    );
}

#[test]
fn oneshot_takes_the_first_complete_symbol() {
    let mut args = options();
    args.oneshot = true;
    assert_eq!(
        result(&[partial(), qr("a"), qr("b"), partial()], &args, 0, false),
        ("QR-Code:a\n".to_string(), ScanOutcome { count: 1, early_termination: true })
    );
    assert_eq!(
        result(&[qr("only")], &args, 0, false),
        ("QR-Code:only\n".to_string(), ScanOutcome { count: 1, early_termination: true })
    );
    assert_eq!(
        result(&[partial()], &args, 0, false),
        (String::new(), ScanOutcome { count: 0, early_termination: false })
    );
}

#[test]
fn xml_result_stands_in_an_index_block() {
    let mut args = options();
    args.xml = true;
    assert_eq!(
        result(&[qr("a"), partial(), qr("b")], &args, 5, false),
        (
            "        <index num=\"5\">\n            <symbol type='QR-Code'/>\n            <symbol type='QR-Code'/>\n        </index>\n"
                .to_string(),
            ScanOutcome { count: 2, early_termination: false }
        )
    );
}

#[test]
fn xml_result_has_no_index_block_without_accepted_symbols() {
    let mut args = options();
    args.xml = true;
    assert_eq!(result(&[], &args, 3, false).0, "");
    assert_eq!(result(&[partial(), partial()], &args, 3, false).0, "");
}

#[test]
fn xml_result_counts_symbols_without_fragment() {
    let mut args = options();
    args.xml = true;
    let mut bare = qr("a");
    bare.xml = None;
    assert_eq!(
        result(&[bare], &args, 1, false),
        (
            "        <index num=\"1\">\n        </index>\n".to_string(),
            ScanOutcome { count: 1, early_termination: false }
        )
    );
}

#[test]
fn xml_result_with_oneshot_holds_one_fragment() {
    let mut args = options();
    args.xml = true;
    args.oneshot = true;
    assert_eq!(
        result(&[qr("a"), qr("b")], &args, 0, true),
        (
            "        <index num=\"0\">\n            <symbol type='QR-Code'/>\n        </index>\n"
                .to_string(),
            ScanOutcome { count: 1, early_termination: true }
        )
    );
}

#[test]
fn binary_result_has_no_separators() {
    let mut args = options();
    args.raw = true;
    let mut out = Vec::new();
    let symbols = vec![
        symbol(ZbarSymbolType::ZbarQrcode, "QR-Code", &[1, 2, b'\n']),
        partial(),
        symbol(ZbarSymbolType::ZbarQrcode, "QR-Code", &[0xff]),
    ];
    let outcome = output_result(&mut out, &symbols, &args, 0, true);
    assert_eq!(out, vec![1, 2, b'\n', 0xff]);
    assert_eq!(outcome.count, 2);
}

#[test]
fn result_is_appended_to_what_was_written() {
    let mut out = b"so far|".to_vec();
    output_result(&mut out, &vec![qr("a")], &options(), 0, false);
    assert_eq!(out, b"so far|QR-Code:a\n".to_vec());
}

#[test]
fn text_result_does_not_depend_on_the_place_of_the_image() {
    let symbols = [qr("a"), qr("b")];
    assert_eq!(result(&symbols, &options(), 0, false), result(&symbols, &options(), 9, false));
}
