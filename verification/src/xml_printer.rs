//! The lines of the XML document that a run in XML mode emits.

use vstd::prelude::*;
use vstd::utf8::encode_utf8;
use crate::text::{append_bytes, append_decimal, append_text, decimal};

verus! {

/// The number of indent characters for each level of nesting.
pub const INDENT_WIDTH: usize = 4;

/// A space.
pub const INDENT_CHARACTER: u8 = 32;

/// The line feed that ends each line.
pub const LINE_END: u8 = 10;

/// A run of `count` indent characters.
pub open spec fn padding(count: nat) -> Seq<u8> {
    Seq::new(count, |i: int| INDENT_CHARACTER)
}

/// The indentation of a line at nesting depth `level`.
pub open spec fn indent(level: nat) -> Seq<u8> {
    padding(level * INDENT_WIDTH as nat)
}

/// One line of the document: `body`, indented for depth `level`.
pub open spec fn xml_line(body: Seq<u8>, level: nat) -> Seq<u8> {
    indent(level) + body + seq![LINE_END]
}

/// The line that opens the document.
pub open spec fn xml_head() -> Seq<u8> {
    xml_line(encode_utf8("<barcodes xmlns=\"http://zbar.sourceforge.net/2008/barcode\">"@), 0)
}

/// The line that closes the document.
pub open spec fn xml_foot() -> Seq<u8> {
    xml_line(encode_utf8("</barcodes>"@), 0)
}

/// The line that opens the block of the image at `file_path`.
pub open spec fn xml_source_head(file_path: Seq<char>) -> Seq<u8> {
    xml_line(
        encode_utf8("<source href=\""@) + encode_utf8(file_path) + encode_utf8("\">"@),
        1,
    )
}

/// The line that closes the block of an image.
pub open spec fn xml_source_foot() -> Seq<u8> {
    xml_line(encode_utf8("</source>"@), 1)
}

/// The line that opens the block of the symbols found in image number `num`.
pub open spec fn xml_index_head(num: nat) -> Seq<u8> {
    xml_line(encode_utf8("<index num=\""@) + decimal(num) + encode_utf8("\">"@), 2)
}

/// The line that closes the block of the symbols of an image.
pub open spec fn xml_index_foot() -> Seq<u8> {
    xml_line(encode_utf8("</index>"@), 2)
}

/// The line for one symbol: the fragment that the engine serialized, as
/// it is.
pub open spec fn xml_symbol(fragment: Seq<u8>) -> Seq<u8> {
    xml_line(fragment, 3)
}

/// Writes the lines of the XML document.
pub struct XmlPrinter {}

impl XmlPrinter {
    /// Writes the line that opens the document.
    pub fn print_head(out: &mut Vec<u8>)
        ensures
            final(out)@ == old(out)@ + xml_head(),
    {
        let mut line: Vec<u8> = Vec::new();
        append_text(&mut line, "<barcodes xmlns=\"http://zbar.sourceforge.net/2008/barcode\">");
        Self::print_xml(out, line.as_slice(), 0);
    }

    /// Writes the line that closes the document.
    pub fn print_foot(out: &mut Vec<u8>)
        ensures
            final(out)@ == old(out)@ + xml_foot(),
    {
        let mut line: Vec<u8> = Vec::new();
        append_text(&mut line, "</barcodes>");
        Self::print_xml(out, line.as_slice(), 0);
    }

    /// Writes `xml` as one line, indented for depth `indent_level`.
    fn print_xml(out: &mut Vec<u8>, xml: &[u8], indent_level: usize)
        ensures
            final(out)@ == old(out)@ + xml_line(xml@, indent_level as nat),
    {
        let mut level: usize = 0;
        while level < indent_level
            invariant
                level <= indent_level,
                out@ == old(out)@ + indent(level as nat),
            decreases indent_level - level,
        {
            let mut column: usize = 0;
            while column < INDENT_WIDTH
                invariant
                    column <= INDENT_WIDTH,
                    level < indent_level,
                    out@ == old(out)@ + padding((level * INDENT_WIDTH + column) as nat),
                decreases INDENT_WIDTH - column,
            {
                out.push(INDENT_CHARACTER);
                column += 1;
                assert(out@ =~= old(out)@ + padding((level * INDENT_WIDTH + column) as nat));
            }
            level += 1;
            assert(out@ =~= old(out)@ + indent(level as nat));
        }
        append_bytes(out, xml);
        out.push(LINE_END);
        assert(out@ =~= old(out)@ + xml_line(xml@, indent_level as nat));
    }

    /// Writes the line that opens the block of the image at `file_path`.
    pub fn print_source_head(out: &mut Vec<u8>, file_path: &str)
        ensures
            final(out)@ == old(out)@ + xml_source_head(file_path@),
    {
        let mut line: Vec<u8> = Vec::new();
        append_text(&mut line, "<source href=\"");
        append_text(&mut line, file_path);
        append_text(&mut line, "\">");
        Self::print_xml(out, line.as_slice(), 1);
    }

    /// Writes the line that closes the block of an image.
    pub fn print_source_foot(out: &mut Vec<u8>)
        ensures
            final(out)@ == old(out)@ + xml_source_foot(),
    {
        let mut line: Vec<u8> = Vec::new();
        append_text(&mut line, "</source>");
        Self::print_xml(out, line.as_slice(), 1);
    }

    /// Writes the line that opens the block of the symbols of image number
    /// `num`.
    pub fn print_index_head(out: &mut Vec<u8>, num: usize)
        ensures
            final(out)@ == old(out)@ + xml_index_head(num as nat),
    {
        let mut line: Vec<u8> = Vec::new();
        append_text(&mut line, "<index num=\"");
        append_decimal(&mut line, num as u128);
        append_text(&mut line, "\">");
        Self::print_xml(out, line.as_slice(), 2);
    }

    /// Writes the line that closes the block of the symbols of an image.
    pub fn print_index_foot(out: &mut Vec<u8>)
        ensures
            final(out)@ == old(out)@ + xml_index_foot(),
    {
        let mut line: Vec<u8> = Vec::new();
        append_text(&mut line, "</index>");
        Self::print_xml(out, line.as_slice(), 2);
    }

    /// Writes the line of one symbol: the fragment that the engine
    /// serialized, byte for byte.
    pub fn print_symbol(out: &mut Vec<u8>, symbol_xml: &[u8])
        ensures
            final(out)@ == old(out)@ + xml_symbol(symbol_xml@),
    {
        Self::print_xml(out, symbol_xml, 3);
    }
}

} // verus!
