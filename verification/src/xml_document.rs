//! The XML document of a run, line by line: that it is one document, and
//! that its elements nest.

use vstd::prelude::*;
use crate::cli_args::ArgsView;
use crate::engine::SymbolView;
use crate::laws::lemma_run;
use crate::scan_image::{accepted, records, xml_record};
use crate::session::{Phase, PROCESS_FAILED};
use crate::trace::{
    binary_among, document, image_block, image_blocks, replay, run_events, started,
    ConfigReport, ScanReport,
};
use crate::xml_printer::{
    xml_foot, xml_head, xml_index_foot, xml_index_head, xml_source_foot, xml_source_head,
    xml_symbol,
};

verus! {

/// A line of the document, by what it opens or closes.
pub enum XmlLine {
    /// Opens the document.
    RootOpen,
    /// Opens the block of the image at `path`.
    SourceOpen { path: Seq<char> },
    /// Opens the block of the symbols of image number `num`.
    IndexOpen { num: nat },
    /// A symbol, as the engine serialized it, taken to be an element of its
    /// own.
    Symbol { fragment: Seq<u8> },
    /// Closes the block of the symbols of an image.
    IndexClose,
    /// Closes the block of an image.
    SourceClose,
    /// Closes the document.
    RootClose,
}

/// Where a reader of the document stands.
pub enum Nesting {
    /// Before the document.
    Before,
    /// In the document, in no image's block.
    Root,
    /// In the block of an image.
    Source,
    /// In the block of the symbols of an image.
    Index,
    /// Behind the document.
    After,
}

/// The bytes of a line.
pub open spec fn render(line: XmlLine) -> Seq<u8> {
    match line {
        XmlLine::RootOpen => xml_head(),
        XmlLine::SourceOpen { path } => xml_source_head(path),
        XmlLine::IndexOpen { num } => xml_index_head(num),
        XmlLine::Symbol { fragment } => xml_symbol(fragment),
        XmlLine::IndexClose => xml_index_foot(),
        XmlLine::SourceClose => xml_source_foot(),
        XmlLine::RootClose => xml_foot(),
    }
}

/// The bytes of some lines, one line after the other.
pub open spec fn render_all(lines: Seq<XmlLine>) -> Seq<u8>
    decreases lines.len(),
{
    if lines.len() == 0 {
        Seq::empty()
    } else {
        render_all(lines.drop_last()) + render(lines.last())
    }
}

/// Where a reader who stands at `at` stands after `line`, if the line may
/// stand there: an element is opened inside the one it belongs to, and
/// closed where it is the innermost that is open.
pub open spec fn nest(at: Nesting, line: XmlLine) -> Option<Nesting> {
    match (at, line) {
        (Nesting::Before, XmlLine::RootOpen) => Some(Nesting::Root),
        (Nesting::Root, XmlLine::SourceOpen { .. }) => Some(Nesting::Source),
        (Nesting::Source, XmlLine::IndexOpen { .. }) => Some(Nesting::Index),
        (Nesting::Index, XmlLine::Symbol { .. }) => Some(Nesting::Index),
        (Nesting::Index, XmlLine::IndexClose) => Some(Nesting::Source),
        (Nesting::Source, XmlLine::SourceClose) => Some(Nesting::Root),
        (Nesting::Root, XmlLine::RootClose) => Some(Nesting::After),
        _ => None,
    }
}

/// Where a reader who stands at `at` stands after `lines`, if each line
/// may stand where it does.
pub open spec fn nest_all(at: Nesting, lines: Seq<XmlLine>) -> Option<Nesting>
    decreases lines.len(),
{
    if lines.len() == 0 {
        Some(at)
    } else {
        match nest_all(at, lines.drop_last()) {
            Some(inner) => nest(inner, lines.last()),
            None => None,
        }
    }
}

/// The lines are one whole document: they open it once, close all that
/// they open, innermost first, and end when the document is closed.
///
/// This is about how the lines nest, and about nothing inside a line. The
/// path of an image and the fragment of a symbol are written as they are
/// given: a path with a quote, an angle bracket or an ampersand in it, or
/// a fragment that is no element, still spoils the line it stands in.
pub open spec fn well_formed(lines: Seq<XmlLine>) -> bool {
    nest_all(Nesting::Before, lines) == Some(Nesting::After)
}

/// The lines of the accepted symbols: one for each for which the engine
/// gave a fragment.
pub open spec fn symbol_lines(found: Seq<SymbolView>) -> Seq<XmlLine>
    decreases found.len(),
{
    if found.len() == 0 {
        Seq::empty()
    } else {
        let before = symbol_lines(found.drop_last());
        match found.last().xml {
            Some(fragment) => before.push(XmlLine::Symbol { fragment }),
            None => before,
        }
    }
}

/// The lines of the image at place `idx`: its block, and in it the block of
/// its symbols if one was accepted.
pub open spec fn image_lines(args: ArgsView, idx: int, symbols: Seq<SymbolView>) -> Seq<XmlLine> {
    let found = accepted(symbols, args.oneshot);
    let index = if found.len() > 0 {
        seq![XmlLine::IndexOpen { num: idx as nat }] + symbol_lines(found) + seq![
            XmlLine::IndexClose,
        ]
    } else {
        Seq::empty()
    };
    seq![XmlLine::SourceOpen { path: args.images[idx] }] + index + seq![XmlLine::SourceClose]
}

/// The lines of the first `count` images.
pub open spec fn images_lines(args: ArgsView, scans: Seq<ScanReport>, count: nat) -> Seq<XmlLine>
    decreases count,
{
    if count == 0 {
        Seq::empty()
    } else {
        images_lines(args, scans, (count - 1) as nat) + image_lines(
            args,
            count - 1,
            scans[count - 1].symbols,
        )
    }
}

/// The lines of the document of a run that ends when `count` images are
/// scanned.
pub open spec fn document_lines(args: ArgsView, scans: Seq<ScanReport>, count: nat) -> Seq<
    XmlLine,
> {
    seq![XmlLine::RootOpen] + images_lines(args, scans, count) + seq![XmlLine::RootClose]
}

/// The bytes of two lists of lines are those of the first list and then
/// those of the second.
pub proof fn lemma_render_concat(first: Seq<XmlLine>, second: Seq<XmlLine>)
    ensures
        render_all(first + second) == render_all(first) + render_all(second),
    decreases second.len(),
{
    if second.len() == 0 {
        assert(first + second =~= first);
        assert(render_all(first) + Seq::<u8>::empty() =~= render_all(first));
    } else {
        assert((first + second).drop_last() =~= first + second.drop_last());
        assert((first + second).last() == second.last());
        lemma_render_concat(first, second.drop_last());
        assert(render_all(first + second) =~= render_all(first) + render_all(second));
    }
}

/// Reading two lists of lines is reading the first and, from where that
/// leads, the second.
pub proof fn lemma_nest_concat(at: Nesting, first: Seq<XmlLine>, second: Seq<XmlLine>)
    ensures
        nest_all(at, first + second) == match nest_all(at, first) {
            Some(inner) => nest_all(inner, second),
            None => None,
        },
    decreases second.len(),
{
    if second.len() == 0 {
        assert(first + second =~= first);
    } else {
        assert((first + second).drop_last() =~= first + second.drop_last());
        assert((first + second).last() == second.last());
        lemma_nest_concat(at, first, second.drop_last());
    }
}

/// A list of one line is read as that line.
pub proof fn lemma_one_line(lines: Seq<XmlLine>)
    requires
        lines.len() == 1,
    ensures
        render_all(lines) == render(lines[0]),
        forall|at: Nesting| #[trigger] nest_all(at, lines) == nest(at, lines[0]),
{
    assert(lines.drop_last() =~= Seq::<XmlLine>::empty());
    assert(render_all(lines.drop_last()) =~= Seq::<u8>::empty());
    assert(render_all(lines) =~= render(lines[0]));
    assert forall|at: Nesting| #[trigger] nest_all(at, lines) == nest(at, lines[0]) by {
        assert(nest_all(at, lines.drop_last()) == Some(at));
    }
}

/// The lines of the symbols are their records, and stay inside the block
/// of the symbols.
pub proof fn lemma_symbol_lines(args: ArgsView, binary: bool, found: Seq<SymbolView>)
    requires
        args.xml,
    ensures
        render_all(symbol_lines(found)) == records(args, binary, found),
        nest_all(Nesting::Index, symbol_lines(found)) == Some(Nesting::Index),
    decreases found.len(),
{
    if found.len() > 0 {
        lemma_symbol_lines(args, binary, found.drop_last());
        let before = symbol_lines(found.drop_last());
        if found.last().xml is Some {
            assert(symbol_lines(found).drop_last() =~= before);
        } else {
            assert(xml_record(found.last()) =~= Seq::<u8>::empty());
            assert(records(args, binary, found) =~= records(args, binary, found.drop_last()));
        }
    }
}

/// The lines of an image are its block, and lead from outside the block
/// back to outside the block.
pub proof fn lemma_image_lines(args: ArgsView, binary: bool, idx: int, symbols: Seq<SymbolView>)
    requires
        args.xml,
        0 <= idx < args.images.len(),
    ensures
        render_all(image_lines(args, idx, symbols)) == image_block(args, binary, idx, symbols),
        nest_all(Nesting::Root, image_lines(args, idx, symbols)) == Some(Nesting::Root),
{
    let found = accepted(symbols, args.oneshot);
    let open = seq![XmlLine::SourceOpen { path: args.images[idx] }];
    let close = seq![XmlLine::SourceClose];
    lemma_one_line(open);
    lemma_one_line(close);
    if found.len() > 0 {
        let index_open = seq![XmlLine::IndexOpen { num: idx as nat }];
        let index_close = seq![XmlLine::IndexClose];
        let inner = symbol_lines(found);
        let index = index_open + inner + index_close;
        lemma_one_line(index_open);
        lemma_one_line(index_close);
        lemma_symbol_lines(args, binary, found);
        lemma_render_concat(index_open, inner);
        lemma_render_concat(index_open + inner, index_close);
        lemma_nest_concat(Nesting::Source, index_open, inner);
        lemma_nest_concat(Nesting::Source, index_open + inner, index_close);
        lemma_render_concat(open, index);
        lemma_render_concat(open + index, close);
        lemma_nest_concat(Nesting::Root, open, index);
        lemma_nest_concat(Nesting::Root, open + index, close);
        assert(render_all(image_lines(args, idx, symbols)) =~= image_block(
            args,
            binary,
            idx,
            symbols,
        ));
    } else {
        let index = Seq::<XmlLine>::empty();
        assert(open + index =~= open);
        lemma_render_concat(open, close);
        lemma_nest_concat(Nesting::Root, open, close);
        assert(render_all(image_lines(args, idx, symbols)) =~= image_block(
            args,
            binary,
            idx,
            symbols,
        ));
    }
}

/// The lines of the images are their blocks, and lead from block to
/// block.
pub proof fn lemma_images_lines(args: ArgsView, binary: bool, scans: Seq<ScanReport>, count: nat)
    requires
        args.xml,
        count <= scans.len() == args.images.len(),
    ensures
        render_all(images_lines(args, scans, count)) == image_blocks(args, binary, scans, count),
        nest_all(Nesting::Root, images_lines(args, scans, count)) == Some(Nesting::Root),
    decreases count,
{
    if count > 0 {
        let before = images_lines(args, scans, (count - 1) as nat);
        let last = image_lines(args, count - 1, scans[count - 1].symbols);
        lemma_images_lines(args, binary, scans, (count - 1) as nat);
        lemma_image_lines(args, binary, count - 1, scans[count - 1].symbols);
        lemma_render_concat(before, last);
        lemma_nest_concat(Nesting::Root, before, last);
    }
}

/// In XML mode, what a run writes that scans `count` images and then ends
/// is one whole document, whatever the number of images and of symbols:
/// the root is opened once and closed at the end, each image has its block
/// in it, and in that a block of symbols where a symbol was accepted, and
/// only there. The law is about the nesting of the lines, as
/// [`well_formed`] says it, not about what a path or a fragment holds.
pub proof fn lemma_document_well_formed(
    args: ArgsView,
    binary: bool,
    scans: Seq<ScanReport>,
    count: nat,
)
    requires
        args.xml,
        count <= scans.len() == args.images.len(),
    ensures
        document(args, binary, scans, count) == render_all(document_lines(args, scans, count)),
        well_formed(document_lines(args, scans, count)),
{
    let open = seq![XmlLine::RootOpen];
    let close = seq![XmlLine::RootClose];
    let inner = images_lines(args, scans, count);
    lemma_one_line(open);
    lemma_one_line(close);
    lemma_images_lines(args, binary, scans, count);
    lemma_render_concat(open, inner);
    lemma_render_concat(open + inner, close);
    lemma_nest_concat(Nesting::Before, open, inner);
    lemma_nest_concat(Nesting::Before, open + inner, close);
}

/// A run in XML mode in which nothing fails writes one whole document, and
/// leaves no element of it open: also where it ends early, on the user's
/// signal. The law is about the nesting of the lines, as [`well_formed`]
/// says it: paths and fragments are not escaped, and what they hold is not
/// looked at.
pub proof fn lemma_run_document(
    args: ArgsView,
    configs: Seq<ConfigReport>,
    scans: Seq<ScanReport>,
    count: nat,
)
    requires
        args.xml,
        0 < args.images.len() <= usize::MAX,
        configs.len() == args.config.len() <= usize::MAX,
        scans.len() == args.images.len(),
        0 < count <= scans.len(),
        forall|k: int| 0 <= k < count ==> (#[trigger] scans[k]).rc != PROCESS_FAILED,
        forall|k: int| 0 <= k < count - 1 ==> !(#[trigger] scans[k]).quit(),
        count == scans.len() || scans[count - 1].quit(),
    ensures
        ({
            let run = replay(args, started(args), run_events(configs, scans, count));
            &&& run.state.phase == Phase::Done
            &&& run.state.xml_depth == 0
            &&& run.output == render_all(document_lines(args, scans, count))
            &&& well_formed(document_lines(args, scans, count))
        }),
{
    lemma_run(args, configs, scans, count);
    lemma_document_well_formed(args, binary_among(args, args.config.len()), scans, count);
}

} // verus!
