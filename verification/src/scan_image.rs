//! What is written for the symbols that the engine found in one image.

use vstd::prelude::*;
use crate::cli_args::{Args, ArgsView, OutputMode};
use crate::engine::{symbols_view, Point, Symbol, SymbolView, ZbarSymbolType};
use crate::text::{append_bytes, append_signed_decimal, signed_decimal};
use crate::xml_printer::{xml_index_foot, xml_index_head, xml_symbol, XmlPrinter, LINE_END};

verus! {

/// The colon behind the type and behind the polygon.
pub const FIELD_SEPARATOR: u8 = 58;

/// The space between two vertices.
pub const VERTEX_SEPARATOR: u8 = 32;

/// The comma between the coordinates of a vertex.
pub const COORDINATE_SEPARATOR: u8 = 44;

/// How the scan of one image ended.
#[derive(Debug, Copy, Clone, PartialEq, Eq, Structural)]
pub struct ScanOutcome {
    /// The number of symbols that were accepted.
    pub count: usize,
    /// The scan stopped before the image was done with: after the first
    /// accepted symbol, or on the user's signal.
    pub early_termination: bool,
}

impl ScanOutcome {
    /// The same outcome, marked as stopped early where `quit` says so.
    pub open spec fn spec_stopped(self, quit: bool) -> ScanOutcome {
        ScanOutcome { early_termination: self.early_termination || quit, ..self }
    }

    /// The same outcome, marked as stopped early where `quit` says so.
    pub fn stopped(self, quit: bool) -> (outcome: ScanOutcome)
        ensures
            outcome == self.spec_stopped(quit),
    {
        ScanOutcome { early_termination: self.early_termination || quit, ..self }
    }
}

/// Tells the complete symbols from the partial ones.
pub open spec fn is_complete() -> spec_fn(SymbolView) -> bool {
    |s: SymbolView| !s.is_partial()
}

/// The symbols of an image that count and are written: the complete ones, in
/// the engine's order; under `oneshot` only the first of them.
pub open spec fn accepted(symbols: Seq<SymbolView>, oneshot: bool) -> Seq<SymbolView> {
    let complete = symbols.filter(is_complete());
    if oneshot && complete.len() > 1 {
        complete.take(1)
    } else {
        complete
    }
}

/// A vertex as `x,y`.
pub open spec fn vertex_text(p: Point) -> Seq<u8> {
    signed_decimal(p.x as int) + seq![COORDINATE_SEPARATOR] + signed_decimal(p.y as int)
}

/// The vertices of a polygon, separated by spaces.
pub open spec fn polygon_text(points: Seq<Point>) -> Seq<u8>
    decreases points.len(),
{
    if points.len() == 0 {
        Seq::empty()
    } else if points.len() == 1 {
        vertex_text(points[0])
    } else {
        polygon_text(points.drop_last()) + seq![VERTEX_SEPARATOR] + vertex_text(points.last())
    }
}

/// The symbology's name, as the engine gave it, and a colon. Left out in
/// raw mode.
pub open spec fn type_field(args: ArgsView, symbol: SymbolView) -> Seq<u8> {
    if args.raw {
        Seq::empty()
    } else {
        symbol.name + seq![FIELD_SEPARATOR]
    }
}

/// The polygon around the symbol and a colon, where polygons are asked for
/// and the symbol has one.
pub open spec fn polygon_field(args: ArgsView, symbol: SymbolView) -> Seq<u8> {
    if args.polygon && symbol.polygon.len() > 0 {
        polygon_text(symbol.polygon) + seq![FIELD_SEPARATOR]
    } else {
        Seq::empty()
    }
}

/// The payload, byte for byte as the engine gave it, whether it is text or
/// not. It ends its line; in binary mode nothing follows it.
pub open spec fn data_field(binary: bool, symbol: SymbolView) -> Seq<u8> {
    if binary {
        symbol.data
    } else {
        symbol.data + seq![LINE_END]
    }
}

/// The line for a symbol in the XML document: the fragment that the engine
/// serialized, byte for byte, where it gave one.
pub open spec fn xml_record(symbol: SymbolView) -> Seq<u8> {
    match symbol.xml {
        Some(fragment) => xml_symbol(fragment),
        None => Seq::empty(),
    }
}

/// What is written for one accepted symbol: in the XML document its line;
/// in the other encodings its type, its polygon and its payload, each as
/// far as the encoding has it.
pub open spec fn symbol_record(args: ArgsView, binary: bool, symbol: SymbolView) -> Seq<u8> {
    match args.output_mode() {
        OutputMode::Xml => xml_record(symbol),
        _ => type_field(args, symbol) + polygon_field(args, symbol) + data_field(binary, symbol),
    }
}

/// The records of `symbols`, one after the other.
pub open spec fn records(args: ArgsView, binary: bool, symbols: Seq<SymbolView>) -> Seq<u8>
    decreases symbols.len(),
{
    if symbols.len() == 0 {
        Seq::empty()
    } else {
        records(args, binary, symbols.drop_last()) + symbol_record(args, binary, symbols.last())
    }
}

/// What is written for the symbols of image number `idx`: the records of
/// the accepted ones. In the XML document they stand in an index block,
/// which is there only if a symbol was accepted.
pub open spec fn scan_output(
    args: ArgsView,
    binary: bool,
    idx: nat,
    symbols: Seq<SymbolView>,
) -> Seq<u8> {
    let found = accepted(symbols, args.oneshot);
    if !args.xml {
        records(args, binary, found)
    } else if found.len() > 0 {
        xml_index_head(idx) + records(args, binary, found) + xml_index_foot()
    } else {
        Seq::empty()
    }
}

/// How the scan of an image with these symbols ends, before the user is
/// asked anything.
pub open spec fn scan_outcome(args: ArgsView, symbols: Seq<SymbolView>) -> ScanOutcome {
    let found = accepted(symbols, args.oneshot);
    ScanOutcome { count: found.len() as usize, early_termination: args.oneshot && found.len() > 0 }
}

/// Writes the symbology's name, where the encoding has it.
pub fn print_symbol_type(out: &mut Vec<u8>, args: &Args, symbol: &Symbol)
    ensures
        final(out)@ == old(out)@ + type_field(args@, symbol@),
{
    if !args.raw {
        append_bytes(out, symbol.name.as_slice());
        out.push(FIELD_SEPARATOR);
    }
    assert(out@ =~= old(out)@ + type_field(args@, symbol@));
}

/// Writes the polygon around the symbol, where polygons are asked for.
pub fn print_polygon(out: &mut Vec<u8>, args: &Args, symbol: &Symbol)
    ensures
        final(out)@ == old(out)@ + polygon_field(args@, symbol@),
{
    if args.polygon && symbol.polygon.len() > 0 {
        let point_count = symbol.polygon.len();
        let mut idx: usize = 0;
        while idx < point_count
            invariant
                idx <= point_count,
                point_count == symbol.polygon@.len(),
                out@ == old(out)@ + polygon_text(symbol.polygon@.take(idx as int)),
            decreases point_count - idx,
        {
            if idx > 0 {
                out.push(VERTEX_SEPARATOR);
            }
            let point = symbol.polygon[idx];
            append_signed_decimal(out, point.x);
            out.push(COORDINATE_SEPARATOR);
            append_signed_decimal(out, point.y);
            idx += 1;
            proof {
                let upto = symbol.polygon@.take(idx as int);
                assert(upto.drop_last() =~= symbol.polygon@.take(idx - 1));
                assert(upto.last() == point);
                assert(out@ =~= old(out)@ + polygon_text(upto));
            }
        }
        assert(symbol.polygon@.take(point_count as int) =~= symbol.polygon@);
        out.push(FIELD_SEPARATOR);
    }
    assert(out@ =~= old(out)@ + polygon_field(args@, symbol@));
}

/// Writes the payload as it is; outside binary mode it ends its line.
pub fn print_symbol_data(out: &mut Vec<u8>, binary: bool, symbol: &Symbol)
    ensures
        final(out)@ == old(out)@ + data_field(binary, symbol@),
{
    append_bytes(out, symbol.data.as_slice());
    if !binary {
        out.push(LINE_END);
    }
    assert(out@ =~= old(out)@ + data_field(binary, symbol@));
}

/// Writes the symbol's line of the XML document.
pub fn print_symbol_as_xml(out: &mut Vec<u8>, symbol: &Symbol)
    ensures
        final(out)@ == old(out)@ + xml_record(symbol@),
{
    if let Some(symbol_xml) = &symbol.xml {
        XmlPrinter::print_symbol(out, symbol_xml.as_slice());
    }
    assert(out@ =~= old(out)@ + xml_record(symbol@));
}

/// Writes the record of one accepted symbol, in the encoding of the run.
pub fn print_symbol(out: &mut Vec<u8>, args: &Args, binary: bool, symbol: &Symbol)
    ensures
        final(out)@ == old(out)@ + symbol_record(args@, binary, symbol@),
{
    match args.output_mode() {
        OutputMode::Xml => print_symbol_as_xml(out, symbol),
        OutputMode::PlainText | OutputMode::PlainTextWithPolygon | OutputMode::Raw => {
            print_symbol_type(out, args, symbol);
            print_polygon(out, args, symbol);
            print_symbol_data(out, binary, symbol);
            assert(out@ =~= old(out)@ + symbol_record(args@, binary, symbol@));
        },
    }
}

/// A list of symbols, up to and with the one at `position`.
proof fn lemma_take_next(all: Seq<SymbolView>, position: int)
    requires
        0 <= position < all.len(),
    ensures
        all.take(position + 1).filter(is_complete()) == if is_complete()(all[position]) {
            all.take(position).filter(is_complete()).push(all[position])
        } else {
            all.take(position).filter(is_complete())
        },
{
    reveal(Seq::filter);
    assert(all.take(position + 1).drop_last() =~= all.take(position));
}

/// Where the first complete symbol of a list stands, it is the first that
/// is accepted.
proof fn lemma_first_complete(all: Seq<SymbolView>, position: int)
    requires
        0 <= position < all.len(),
        all.take(position).filter(is_complete()).len() == 0,
        is_complete()(all[position]),
    ensures
        accepted(all, true) == seq![all[position]],
{
    let before = all.take(position);
    let here = seq![all[position]];
    let after = all.skip(position + 1);
    assert(all =~= before + (here + after));
    Seq::filter_distributes_over_add(before, here + after, is_complete());
    Seq::filter_distributes_over_add(here, after, is_complete());
    assert(here.filter(is_complete()) == here) by {
        reveal_with_fuel(Seq::filter, 2);
        assert(here.drop_last().len() == 0);
        assert(here.drop_last().filter(is_complete()).push(here.last()) =~= here);
    }
    let complete = all.filter(is_complete());
    assert(complete =~= here + after.filter(is_complete()));
    assert(complete.take(1) =~= here);
}

/// Writes the records of the symbols that the engine found in image number
/// `idx`, and says how many were accepted.
pub fn output_result(
    out: &mut Vec<u8>,
    symbols: &Vec<Symbol>,
    args: &Args,
    idx: usize,
    binary: bool,
) -> (outcome: ScanOutcome)
    ensures
        final(out)@ == old(out)@ + scan_output(
            args@,
            binary,
            idx as nat,
            symbols_view(symbols@),
        ),
        outcome == scan_outcome(args@, symbols_view(symbols@)),
{
    let ghost all = symbols_view(symbols@);
    let mut body: Vec<u8> = Vec::new();
    let mut symbol_count: usize = 0;
    let mut position: usize = 0;
    loop
        invariant_except_break
            position <= symbols.len(),
            all == symbols_view(symbols@),
            symbol_count == all.take(position as int).filter(is_complete()).len(),
            args.oneshot ==> symbol_count == 0,
            body@ == records(args@, binary, all.take(position as int).filter(is_complete())),
        ensures
            symbol_count == accepted(all, args.oneshot).len(),
            body@ == records(args@, binary, accepted(all, args.oneshot)),
        decreases symbols.len() - position,
    {
        if position >= symbols.len() {
            assert(all.take(position as int) =~= all);
            break;
        }
        let symbol = &symbols[position];
        let ghost before = all.take(position as int).filter(is_complete());
        proof {
            lemma_take_next(all, position as int);
            all.take(position as int).lemma_filter_len(is_complete());
            assert(all[position as int] == symbol@);
        }
        let partial = match symbol.kind {
            ZbarSymbolType::ZbarPartial => true,
            _ => false,
        };
        if !partial {
            print_symbol(&mut body, args, binary, symbol);
            symbol_count += 1;
            proof {
                assert(before.push(symbol@).drop_last() =~= before);
            }
            if args.oneshot {
                proof {
                    lemma_first_complete(all, position as int);
                    assert(before =~= Seq::<SymbolView>::empty());
                    assert(seq![symbol@].drop_last() =~= before);
                    assert(seq![symbol@].last() == symbol@);
                    assert(body@ =~= records(args@, binary, seq![symbol@]));
                }
                break;
            }
        }
        position += 1;
    }
    if !args.xml {
        append_bytes(out, body.as_slice());
    } else if symbol_count > 0 {
        XmlPrinter::print_index_head(out, idx);
        append_bytes(out, body.as_slice());
        XmlPrinter::print_index_foot(out);
        assert(out@ =~= old(out)@ + (xml_index_head(idx as nat) + body@ + xml_index_foot()));
    } else {
        assert(out@ =~= old(out)@ + Seq::<u8>::empty());
    }
    ScanOutcome { count: symbol_count, early_termination: args.oneshot && symbol_count > 0 }
}

} // verus!
