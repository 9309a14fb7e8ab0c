//! Whole runs: a run replayed from the events that the caller reports, and
//! what a run writes when nothing fails.

use vstd::prelude::*;
use crate::cli_args::ArgsView;
use crate::engine::{SymbolView, ZbarConfig, ZbarSymbolType};
use crate::parse_config::names_binary;
use crate::scan_image::{scan_outcome, scan_output};
use crate::session::{next, start, user_quit, ActionView, EventView, RunAccumulator, RunState};
use crate::xml_printer::{xml_foot, xml_head, xml_source_foot, xml_source_head};
use crate::zbar_image::PixelBufferView;

verus! {

/// A run up to some point: where it stands, all that it has written, and
/// what it asked for last.
pub struct Trace {
    pub state: RunState,
    pub output: Seq<u8>,
    pub action: ActionView,
}

/// A run at its start.
pub open spec fn started(args: ArgsView) -> Trace {
    let (state, step) = start(args);
    Trace { state, output: step.output, action: step.action }
}

/// The run `from`, one event later.
#[verifier::opaque]
pub open spec fn advance(args: ArgsView, from: Trace, event: EventView) -> Trace {
    let (state, step) = next(args, from.state, event);
    Trace { state, output: from.output + step.output, action: step.action }
}

/// The run `from`, after the caller has reported `events`, one after the
/// other.
pub open spec fn replay(args: ArgsView, from: Trace, events: Seq<EventView>) -> Trace
    decreases events.len(),
{
    if events.len() == 0 {
        from
    } else {
        advance(args, replay(args, from, events.drop_last()), events.last())
    }
}

/// What the engine made of one setting that it accepted.
pub struct ConfigReport {
    pub symbology: ZbarSymbolType,
    pub config: ZbarConfig,
    pub value: i32,
}

/// What came of one image that was opened and decoded.
pub struct ScanReport {
    /// The pixels that the codec gave.
    pub buffer: PixelBufferView,
    /// What the engine returned from decoding.
    pub rc: i32,
    /// The symbols that the engine found.
    pub symbols: Seq<SymbolView>,
    /// What the engine returned from waiting for the user, where the image
    /// was on display.
    pub wait: Option<i32>,
}

impl ScanReport {
    /// The user asked to stop at this image.
    pub open spec fn quit(self) -> bool {
        self.wait matches Some(rc) && user_quit(rc)
    }
}

/// The events of a setting that the engine accepts.
pub open spec fn config_events(report: ConfigReport) -> Seq<EventView> {
    seq![
        EventView::ConfigParsed {
            rc: 0,
            symbology: report.symbology,
            config: report.config,
            value: report.value,
        },
        EventView::ConfigSet { rc: 0 },
    ]
}

/// The events of the first `count` settings.
pub open spec fn configs_events(reports: Seq<ConfigReport>, count: nat) -> Seq<EventView>
    decreases count,
{
    if count == 0 {
        Seq::empty()
    } else {
        configs_events(reports, (count - 1) as nat) + config_events(reports[count - 1])
    }
}

/// The events of an image that is opened and decoded.
pub open spec fn scan_events(report: ScanReport) -> Seq<EventView> {
    let decoded = seq![
        EventView::ImageLoaded { image: Ok(report.buffer) },
        EventView::Decoded {
            rc: report.rc,
            symbols: report.symbols,
            visible: report.wait is Some,
        },
    ];
    match report.wait {
        Some(rc) => decoded.push(EventView::UserWait { rc }),
        None => decoded,
    }
}

/// The events of the first `count` images.
pub open spec fn scans_events(reports: Seq<ScanReport>, count: nat) -> Seq<EventView>
    decreases count,
{
    if count == 0 {
        Seq::empty()
    } else {
        scans_events(reports, (count - 1) as nat) + scan_events(reports[count - 1])
    }
}

/// The events of a run in which nothing fails, up to the point where
/// `count` images are scanned: the engine comes up and accepts every
/// setting, each of the images is opened and decoded.
pub open spec fn run_events(configs: Seq<ConfigReport>, scans: Seq<ScanReport>, count: nat) -> Seq<
    EventView,
> {
    seq![EventView::EngineInit { rc: 0 }] + configs_events(configs, configs.len())
        + scans_events(scans, count)
}

/// One of the first `count` settings is about the `binary` key.
pub open spec fn binary_among(args: ArgsView, count: nat) -> bool
    decreases count,
{
    if count == 0 {
        false
    } else {
        binary_among(args, (count - 1) as nat) || names_binary(args.config[count - 1])
    }
}

/// What the first `count` images add up to.
pub open spec fn tally_after(args: ArgsView, scans: Seq<ScanReport>, count: nat) -> RunAccumulator
    decreases count,
{
    if count == 0 {
        RunAccumulator::spec_new()
    } else {
        tally_after(args, scans, (count - 1) as nat).spec_record(
            scan_outcome(args, scans[count - 1].symbols),
        )
    }
}

/// The line that opens the document, where there is a document.
pub open spec fn document_head(args: ArgsView) -> Seq<u8> {
    if args.xml {
        xml_head()
    } else {
        Seq::empty()
    }
}

/// The line that closes the document, where there is a document.
pub open spec fn document_foot(args: ArgsView) -> Seq<u8> {
    if args.xml {
        xml_foot()
    } else {
        Seq::empty()
    }
}

/// The line that opens the block of the image at place `idx`, where there
/// is a document.
pub open spec fn source_head(args: ArgsView, idx: int) -> Seq<u8> {
    if args.xml {
        xml_source_head(args.images[idx])
    } else {
        Seq::empty()
    }
}

/// The line that closes the block of an image, where there is a document.
pub open spec fn source_foot(args: ArgsView) -> Seq<u8> {
    if args.xml {
        xml_source_foot()
    } else {
        Seq::empty()
    }
}

/// What is written for the image at place `idx`, in which the engine found
/// `symbols`: the records of the symbols; in the document, inside the
/// image's block.
pub open spec fn image_block(args: ArgsView, binary: bool, idx: int, symbols: Seq<SymbolView>) -> Seq<
    u8,
> {
    if args.xml {
        xml_source_head(args.images[idx]) + scan_output(args, binary, idx as nat, symbols)
            + xml_source_foot()
    } else {
        scan_output(args, binary, idx as nat, symbols)
    }
}

/// What is written for the first `count` images.
pub open spec fn image_blocks(args: ArgsView, binary: bool, scans: Seq<ScanReport>, count: nat) -> Seq<
    u8,
>
    decreases count,
{
    if count == 0 {
        Seq::empty()
    } else {
        image_blocks(args, binary, scans, (count - 1) as nat) + image_block(
            args,
            binary,
            count - 1,
            scans[count - 1].symbols,
        )
    }
}

/// What a run writes that ends when `count` images are scanned.
pub open spec fn document(args: ArgsView, binary: bool, scans: Seq<ScanReport>, count: nat) -> Seq<
    u8,
> {
    document_head(args) + image_blocks(args, binary, scans, count) + document_foot(args)
}

/// Replaying two lists of events is replaying the first, and from there
/// the second.
pub proof fn lemma_replay_concat(
    args: ArgsView,
    from: Trace,
    first: Seq<EventView>,
    second: Seq<EventView>,
)
    ensures
        replay(args, from, first + second) == replay(args, replay(args, from, first), second),
    decreases second.len(),
{
    if second.len() == 0 {
        assert(first + second =~= first);
    } else {
        assert((first + second).drop_last() =~= first + second.drop_last());
        assert((first + second).last() == second.last());
        lemma_replay_concat(args, from, first, second.drop_last());
    }
}

/// Replaying one event is one step.
pub proof fn lemma_replay_one(args: ArgsView, from: Trace, e0: EventView)
    ensures
        replay(args, from, seq![e0]) == advance(args, from, e0),
{
    assert(seq![e0].drop_last() =~= Seq::<EventView>::empty());
    assert(replay(args, from, Seq::<EventView>::empty()) == from);
}

/// Replaying two events is two steps.
pub proof fn lemma_replay_two(args: ArgsView, from: Trace, e0: EventView, e1: EventView)
    ensures
        replay(args, from, seq![e0, e1]) == advance(args, advance(args, from, e0), e1),
{
    assert(seq![e0, e1].drop_last() =~= seq![e0]);
    lemma_replay_one(args, from, e0);
}

/// Replaying three events is three steps.
pub proof fn lemma_replay_three(
    args: ArgsView,
    from: Trace,
    e0: EventView,
    e1: EventView,
    e2: EventView,
)
    ensures
        replay(args, from, seq![e0, e1, e2]) == advance(
            args,
            advance(args, advance(args, from, e0), e1),
            e2,
        ),
{
    assert(seq![e0, e1, e2].drop_last() =~= seq![e0, e1]);
    lemma_replay_two(args, from, e0, e1);
}

} // verus!
