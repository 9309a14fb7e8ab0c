use rsbar_img::XmlPrinter;

fn printed(print: impl Fn(&mut Vec<u8>)) -> String {
    let mut out = b"before".to_vec();
    print(&mut out);
    let all = String::from_utf8(out).unwrap();
    assert!(all.starts_with("before"));
    all["before".len()..].to_string()
}

#[test]
fn head_opens_the_document_without_indentation() {
    assert_eq!(
        printed(|out| XmlPrinter::print_head(out)),
        "<barcodes xmlns=\"http://zbar.sourceforge.net/2008/barcode\">\n"
    );
}

#[test]
fn foot_closes_the_document() {
    assert_eq!(printed(|out| XmlPrinter::print_foot(out)), "</barcodes>\n");
}

#[test]
fn source_head_is_indented_one_level() {
    assert_eq!(
        printed(|out| XmlPrinter::print_source_head(out, "a/b.png")),
        "    <source href=\"a/b.png\">\n"
    );
}

#[test]
fn source_head_keeps_the_path_as_it_is() {
    assert_eq!(
        printed(|out| XmlPrinter::print_source_head(out, "d\u{e9}j\u{e0} vu/\"x\".png")),
        "    <source href=\"d\u{e9}j\u{e0} vu/\"x\".png\">\n"
    );
    assert_eq!(printed(|out| XmlPrinter::print_source_head(out, "")), "    <source href=\"\">\n");
}

#[test]
fn source_foot_is_indented_one_level() {
    assert_eq!(printed(|out| XmlPrinter::print_source_foot(out)), "    </source>\n");
}

#[test]
fn index_head_is_indented_two_levels() {
    assert_eq!(printed(|out| XmlPrinter::print_index_head(out, 0)), "        <index num=\"0\">\n");
    assert_eq!(printed(|out| XmlPrinter::print_index_head(out, 7)), "        <index num=\"7\">\n");
}

#[test]
fn index_head_counts_past_a_byte() {
    assert_eq!(
        printed(|out| XmlPrinter::print_index_head(out, 256)),
        "        <index num=\"256\">\n"
    );
    assert_eq!(
        printed(|out| XmlPrinter::print_index_head(out, 1234567)),
        "        <index num=\"1234567\">\n"
    );
}

#[test]
fn index_foot_is_indented_two_levels() {
    assert_eq!(printed(|out| XmlPrinter::print_index_foot(out)), "        </index>\n");
}

#[test]
fn symbol_is_indented_three_levels() {
    assert_eq!(
        printed(|out| XmlPrinter::print_symbol(out, b"<symbol type='QR-Code'/>")),
        "            <symbol type='QR-Code'/>\n"
    );
    assert_eq!(printed(|out| XmlPrinter::print_symbol(out, b"")), "            \n");
}

#[test]
fn symbol_that_is_no_text_is_written_as_it_is() {
    let mut out = Vec::new();
    XmlPrinter::print_symbol(&mut out, &[0xff, 0x00]);
    let mut expected = b"            ".to_vec();
    expected.extend_from_slice(&[0xff, 0x00, b'\n']);
    assert_eq!(out, expected);
}
