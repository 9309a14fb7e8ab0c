//! What holds of every run.

use image::ImageError;
use vstd::prelude::*;
use crate::cli_args::ArgsView;
use crate::engine::SymbolView;
use crate::errors::{spec_exit_code, ProgramErrorView, EXIT_FAILURE, EXIT_NO_SYMBOL, EXIT_SUCCESS};
use crate::scan_image::{
    accepted, is_complete, polygon_field, records, scan_outcome, scan_output, symbol_record,
    type_field, ScanOutcome,
};
use crate::session::{
    enter_config, enter_image, finish, initial_state, leave_image, lemma_record_wf, next,
    ActionView, EventView, Phase, RunAccumulator, RunState, PROCESS_FAILED,
};
use crate::trace::{
    advance, binary_among, config_events, configs_events, document, document_foot, document_head,
    image_block, image_blocks, lemma_replay_concat, lemma_replay_one, lemma_replay_three,
    lemma_replay_two, replay, run_events, scan_events, scans_events, source_foot, source_head,
    started, tally_after, ConfigReport, ScanReport, Trace,
};
use crate::xml_printer::{
    xml_index_foot, xml_index_head, xml_source_foot, xml_source_head, LINE_END,
};

verus! {

/// The run after the engine has come up and has accepted the first `count`
/// settings.
spec fn at_config(args: ArgsView, count: nat) -> Trace {
    let (state, step) = enter_config(
        args,
        RunState {
            config: (if count == 0 {
                0
            } else {
                count - 1
            }) as usize,
            binary: binary_among(args, count),
            ..initial_state()
        },
        count as int,
    );
    Trace { state, output: step.output, action: step.action }
}

/// The user asked to stop at the last of the first `count` images, and
/// images are left.
spec fn stopped_after(scans: Seq<ScanReport>, count: nat) -> bool {
    0 < count < scans.len() && scans[count - 1].quit()
}

/// How the scan of the last of the first `count` images ended.
spec fn scan_after(args: ArgsView, scans: Seq<ScanReport>, count: nat) -> ScanOutcome {
    if count == 0 {
        ScanOutcome { count: 0, early_termination: false }
    } else {
        scan_outcome(args, scans[count - 1].symbols).spec_stopped(stopped_after(scans, count))
    }
}

/// The state in which the image at place `count` is turned to.
spec fn image_base(args: ArgsView, scans: Seq<ScanReport>, count: nat) -> RunState {
    RunState {
        phase: Phase::Load,
        config: (if args.config.len() == 0 {
            0
        } else {
            args.config.len() - 1
        }) as usize,
        image: (if count == 0 {
            0
        } else {
            count - 1
        }) as usize,
        binary: binary_among(args, args.config.len()),
        xml_depth: if args.xml {
            1
        } else {
            0
        },
        scan: scan_after(args, scans, count),
        tally: tally_after(args, scans, count),
    }
}

/// The run after every setting was accepted and the first `count` images
/// were scanned.
spec fn after_images(args: ArgsView, scans: Seq<ScanReport>, count: nat) -> Trace {
    let base = image_base(args, scans, count);
    let (state, step) = if stopped_after(scans, count) {
        finish(args, base)
    } else {
        enter_image(args, base, count as int)
    };
    Trace {
        state,
        output: document_head(args) + image_blocks(args, base.binary, scans, count) + step.output,
        action: step.action,
    }
}

/// The events of a run up to the point where `count` settings are
/// accepted.
spec fn events_to_config(configs: Seq<ConfigReport>, count: nat) -> Seq<EventView> {
    seq![EventView::EngineInit { rc: 0 }] + configs_events(configs, count)
}

/// Replaying a run up to the point where `count` settings are accepted
/// leads to the setting that comes next, or to the first image.
proof fn lemma_at_config(args: ArgsView, configs: Seq<ConfigReport>, count: nat)
    requires
        0 < args.images.len() <= usize::MAX,
        configs.len() == args.config.len() <= usize::MAX,
        count <= configs.len(),
    ensures
        replay(args, started(args), events_to_config(configs, count)) == at_config(args, count),
    decreases count,
{
    let init = seq![EventView::EngineInit { rc: 0 }];
    if count == 0 {
        assert(events_to_config(configs, 0) =~= init);
        lemma_replay_one(args, started(args), init[0]);
        reveal(advance);
        assert(Seq::<u8>::empty() + at_config(args, 0).output =~= at_config(args, 0).output);
    } else {
        let before = (count - 1) as nat;
        lemma_at_config(args, configs, before);
        let events = config_events(configs[count - 1]);
        assert(events_to_config(configs, count) =~= events_to_config(configs, before) + events);
        lemma_replay_concat(args, started(args), events_to_config(configs, before), events);
        let from = at_config(args, before);
        lemma_replay_two(args, from, events[0], events[1]);
        reveal(advance);
        let parsed = advance(args, from, events[0]);
        assert(parsed.state.phase == Phase::Apply);
        let applied = advance(args, parsed, events[1]);
        assert(applied.state == at_config(args, count).state);
        assert(applied.action == at_config(args, count).action);
        assert(applied.output =~= at_config(args, count).output);
    }
}

/// An image that the codec opened goes on to the engine.
proof fn lemma_loaded(args: ArgsView, from: Trace, report: ScanReport)
    requires
        from.state.phase == Phase::Load,
    ensures
        advance(args, from, scan_events(report)[0]).state == (RunState {
            phase: Phase::Decode,
            xml_depth: if args.xml {
                2
            } else {
                0
            },
            ..from.state
        }),
        advance(args, from, scan_events(report)[0]).output == from.output + source_head(
            args,
            from.state.image as int,
        ),
{
    reveal(advance);
}

/// An image that the engine decoded, and that is not on display, is left
/// at once.
proof fn lemma_decoded_hidden(args: ArgsView, from: Trace, report: ScanReport)
    requires
        from.state.phase == Phase::Decode,
        report.rc != PROCESS_FAILED,
        report.wait is None,
    ensures
        ({
            let left = leave_image(
                args,
                RunState {
                    scan: scan_outcome(args, report.symbols),
                    tally: from.state.tally.spec_record(scan_outcome(args, report.symbols)),
                    ..from.state
                },
                Seq::empty(),
                false,
            );
            let after = advance(args, from, scan_events(report)[1]);
            &&& after.state == left.0
            &&& after.action == left.1.action
            &&& after.output == from.output + scan_output(
                args,
                from.state.binary,
                from.state.image as nat,
                report.symbols,
            ) + left.1.output
        }),
{
    reveal(advance);
    let scanned = RunState {
        scan: scan_outcome(args, report.symbols),
        tally: from.state.tally.spec_record(scan_outcome(args, report.symbols)),
        ..from.state
    };
    let written = scan_output(args, from.state.binary, from.state.image as nat, report.symbols);
    let left = leave_image(args, scanned, Seq::empty(), false);
    let after = advance(args, from, scan_events(report)[1]);
    assert(leave_image(args, scanned, written, false).1.output =~= written + left.1.output);
    assert(after.output =~= from.output + written + left.1.output);
}

/// An image that the engine decoded, and that is on display, is left when
/// the user is done with it.
proof fn lemma_decoded_shown(args: ArgsView, from: Trace, report: ScanReport)
    requires
        from.state.phase == Phase::Decode,
        report.rc != PROCESS_FAILED,
        report.wait is Some,
    ensures
        ({
            let quit = report.quit() && from.state.image + 1 < args.images.len();
            let scanned = RunState {
                phase: Phase::Wait,
                scan: scan_outcome(args, report.symbols).spec_stopped(quit),
                tally: from.state.tally.spec_record(scan_outcome(args, report.symbols)),
                ..from.state
            };
            let left = leave_image(args, scanned, Seq::empty(), quit);
            let after = advance(
                args,
                advance(args, from, scan_events(report)[1]),
                scan_events(report)[2],
            );
            &&& after.state == left.0
            &&& after.action == left.1.action
            &&& after.output == from.output + scan_output(
                args,
                from.state.binary,
                from.state.image as nat,
                report.symbols,
            ) + left.1.output
        }),
{
    reveal(advance);
}

/// Leaving an image: for the next one, or for the end where it was the
/// last or the user asked to stop there.
proof fn lemma_left_state(args: ArgsView, scans: Seq<ScanReport>, count: nat, state: RunState)
    requires
        0 < args.images.len() <= usize::MAX,
        args.config.len() <= usize::MAX,
        scans.len() == args.images.len(),
        0 < count <= scans.len(),
        state.image == count - 1,
        state.config == image_base(args, scans, count).config,
        state.binary == binary_among(args, args.config.len()),
        state.scan == scan_after(args, scans, count),
        state.tally == tally_after(args, scans, count),
    ensures
        ({
            let left = leave_image(args, state, Seq::empty(), stopped_after(scans, count));
            let goal = after_images(args, scans, count);
            &&& left.0 == goal.state
            &&& left.1.action == goal.action
            &&& left.1.output == source_foot(args) + if count < scans.len()
                && !stopped_after(scans, count) {
                Seq::empty()
            } else {
                document_foot(args)
            }
        }),
{
    let quit = stopped_after(scans, count);
    let left = leave_image(args, state, Seq::empty(), quit);
    let rest = if count < scans.len() && !quit {
        Seq::<u8>::empty()
    } else {
        document_foot(args)
    };
    assert(left.1.output =~= source_foot(args) + rest);
}

/// What is written up to the point where an image is left.
proof fn lemma_left_output(
    args: ArgsView,
    scans: Seq<ScanReport>,
    count: nat,
    binary: bool,
    rest: Seq<u8>,
)
    requires
        0 < count <= scans.len(),
    ensures
        document_head(args) + image_blocks(args, binary, scans, (count - 1) as nat) + source_head(
            args,
            count - 1,
        ) + scan_output(args, binary, (count - 1) as nat, scans[count - 1].symbols) + (source_foot(
            args,
        ) + rest) == document_head(args) + image_blocks(args, binary, scans, count) + rest,
{
    let written = scan_output(args, binary, (count - 1) as nat, scans[count - 1].symbols);
    let block = image_block(args, binary, count - 1, scans[count - 1].symbols);
    assert(block =~= source_head(args, count - 1) + written + source_foot(args));
    let blocks = image_blocks(args, binary, scans, (count - 1) as nat);
    assert(image_blocks(args, binary, scans, count) == blocks + block);
    assert(document_head(args) + blocks + source_head(args, count - 1) + written + (source_foot(
        args,
    ) + rest) =~= document_head(args) + (blocks + block) + rest);
}

/// From the run after `count - 1` images, the events of the next image
/// lead to the run after `count` images.
proof fn lemma_image_step(args: ArgsView, scans: Seq<ScanReport>, count: nat)
    requires
        0 < args.images.len() <= usize::MAX,
        args.config.len() <= usize::MAX,
        scans.len() == args.images.len(),
        0 < count <= scans.len(),
        scans[count - 1].rc != PROCESS_FAILED,
        !stopped_after(scans, (count - 1) as nat),
    ensures
        replay(
            args,
            after_images(args, scans, (count - 1) as nat),
            scan_events(scans[count - 1]),
        ) == after_images(args, scans, count),
{
    let before = (count - 1) as nat;
    let report = scans[count - 1];
    let events = scan_events(report);
    let from = after_images(args, scans, before);
    let binary = binary_among(args, args.config.len());
    assert(from.state.phase == Phase::Load);
    assert(from.state.image == before);
    assert(from.output =~= document_head(args) + image_blocks(args, binary, scans, before));
    lemma_loaded(args, from, report);
    let loaded = advance(args, from, events[0]);
    match report.wait {
        None => {
            assert(events =~= seq![events[0], events[1]]);
            lemma_replay_two(args, from, events[0], events[1]);
            lemma_decoded_hidden(args, loaded, report);
        },
        Some(rc) => {
            assert(events =~= seq![events[0], events[1], events[2]]);
            lemma_replay_three(args, from, events[0], events[1], events[2]);
            lemma_decoded_shown(args, loaded, report);
        },
    }
    let scanned = RunState {
        phase: if report.wait is Some {
            Phase::Wait
        } else {
            Phase::Decode
        },
        scan: scan_after(args, scans, count),
        tally: loaded.state.tally.spec_record(scan_outcome(args, report.symbols)),
        ..loaded.state
    };
    assert(scanned.tally == tally_after(args, scans, count));
    lemma_left_state(args, scans, count, scanned);
    let rest = if count < scans.len() && !stopped_after(scans, count) {
        Seq::<u8>::empty()
    } else {
        document_foot(args)
    };
    lemma_left_output(args, scans, count, binary, rest);
    let goal = after_images(args, scans, count);
    assert(goal.output =~= document_head(args) + image_blocks(args, binary, scans, count) + rest);
}

/// Replaying a run up to the point where `count` images are scanned leads
/// to the image that comes next, or to the end of the run.
proof fn lemma_after_images(
    args: ArgsView,
    configs: Seq<ConfigReport>,
    scans: Seq<ScanReport>,
    count: nat,
)
    requires
        0 < args.images.len() <= usize::MAX,
        configs.len() == args.config.len() <= usize::MAX,
        scans.len() == args.images.len(),
        count <= scans.len(),
        forall|k: int| 0 <= k < count ==> (#[trigger] scans[k]).rc != PROCESS_FAILED,
        forall|k: int| 0 <= k < count - 1 ==> !(#[trigger] scans[k]).quit(),
    ensures
        replay(args, started(args), run_events(configs, scans, count)) == after_images(
            args,
            scans,
            count,
        ),
    decreases count,
{
    let prefix = events_to_config(configs, configs.len());
    if count == 0 {
        assert(prefix + scans_events(scans, 0) =~= prefix);
        lemma_at_config(args, configs, configs.len());
        assert(at_config(args, configs.len()).output =~= after_images(args, scans, 0).output);
    } else {
        let before = (count - 1) as nat;
        lemma_after_images(args, configs, scans, before);
        let events = scan_events(scans[count - 1]);
        assert(prefix + scans_events(scans, count) =~= (prefix + scans_events(scans, before))
            + events);
        lemma_replay_concat(args, started(args), prefix + scans_events(scans, before), events);
        if before > 0 {
            assert(!scans[before - 1].quit());
        }
        lemma_image_step(args, scans, count);
    }
}

/// A run in which nothing fails scans image after image, up to the last
/// one or to the one at which the user asks to stop. Whichever it is, the
/// run is then over: it has written what there is to write for the images
/// that were scanned, and has closed the document; it has counted these
/// images and what was accepted in them, and no others; and it ends well if
/// that was at least one symbol. A signal to stop at the last image changes
/// nothing.
pub proof fn lemma_run(
    args: ArgsView,
    configs: Seq<ConfigReport>,
    scans: Seq<ScanReport>,
    count: nat,
)
    requires
        0 < args.images.len() <= usize::MAX,
        configs.len() == args.config.len() <= usize::MAX,
        scans.len() == args.images.len(),
        0 < count <= scans.len(),
        forall|k: int| 0 <= k < count ==> (#[trigger] scans[k]).rc != PROCESS_FAILED,
        forall|k: int| 0 <= k < count - 1 ==> !(#[trigger] scans[k]).quit(),
        count == scans.len() || scans[count - 1].quit(),
    ensures
        ({
            let run = replay(args, started(args), run_events(configs, scans, count));
            let binary = binary_among(args, args.config.len());
            let tally = tally_after(args, scans, count);
            &&& run.state.phase == Phase::Done
            &&& run.state.binary == binary
            &&& run.state.tally == tally
            &&& run.state.scan == scan_outcome(args, scans[count - 1].symbols).spec_stopped(
                count < scans.len(),
            )
            &&& run.state.xml_depth == 0
            &&& run.output == document(args, binary, scans, count)
            &&& run.action == ActionView::Finish { result: tally.spec_resolve() }
        }),
{
    lemma_after_images(args, configs, scans, count);
    let run = replay(args, started(args), run_events(configs, scans, count));
    let binary = binary_among(args, args.config.len());
    assert(run.output =~= document(args, binary, scans, count));
}

/// A setting that the engine cannot read, or that it turns down, ends the
/// run before any image is touched: nothing is written, nothing is counted,
/// and the run fails with the error that names the setting.
pub proof fn lemma_config_rejected(
    args: ArgsView,
    configs: Seq<ConfigReport>,
    count: nat,
    parse_rc: i32,
    set_rc: i32,
)
    requires
        0 < args.images.len() <= usize::MAX,
        configs.len() == args.config.len() <= usize::MAX,
        count < configs.len(),
        parse_rc != 0 || set_rc != 0,
    ensures
        ({
            let report = configs[count as int];
            let parsed = EventView::ConfigParsed {
                rc: parse_rc,
                symbology: report.symbology,
                config: report.config,
                value: report.value,
            };
            let events = seq![EventView::EngineInit { rc: 0 }] + configs_events(configs, count) + (
            if parse_rc != 0 {
                seq![parsed]
            } else {
                seq![parsed, EventView::ConfigSet { rc: set_rc }]
            });
            let run = replay(args, started(args), events);
            let error = if parse_rc != 0 {
                ProgramErrorView::ConfigParseFailed(args.config[count as int])
            } else {
                ProgramErrorView::ConfigSetFailed(args.config[count as int])
            };
            &&& run.state.phase == Phase::Done
            &&& run.state.tally == RunAccumulator::spec_new()
            &&& run.output == Seq::<u8>::empty()
            &&& run.action == ActionView::Finish { result: Err(error) }
            &&& spec_exit_code(Err(error)) == EXIT_FAILURE
        }),
{
    let report = configs[count as int];
    let parsed = EventView::ConfigParsed {
        rc: parse_rc,
        symbology: report.symbology,
        config: report.config,
        value: report.value,
    };
    let prefix = events_to_config(configs, count);
    let from = at_config(args, count);
    lemma_at_config(args, configs, count);
    reveal(advance);
    if parse_rc != 0 {
        lemma_replay_concat(args, started(args), prefix, seq![parsed]);
        lemma_replay_one(args, from, parsed);
        assert(replay(args, from, seq![parsed]).output =~= Seq::<u8>::empty());
    } else {
        let set = EventView::ConfigSet { rc: set_rc };
        lemma_replay_concat(args, started(args), prefix, seq![parsed, set]);
        lemma_replay_two(args, from, parsed, set);
        assert(replay(args, from, seq![parsed, set]).output =~= Seq::<u8>::empty());
    }
}

/// An image that cannot be opened, or on which the engine fails, ends the
/// run at once, with the error for it. What was written up to then stays
/// written, and that is not a whole document: the root is not closed, nor,
/// where the engine failed, the block of the image.
pub proof fn lemma_image_failed(
    args: ArgsView,
    configs: Seq<ConfigReport>,
    scans: Seq<ScanReport>,
    count: nat,
    failure: Option<ImageError>,
)
    requires
        0 < args.images.len() <= usize::MAX,
        configs.len() == args.config.len() <= usize::MAX,
        scans.len() == args.images.len(),
        count < scans.len(),
        forall|k: int| 0 <= k < count ==> (#[trigger] scans[k]).rc != PROCESS_FAILED,
        forall|k: int| 0 <= k < count ==> !(#[trigger] scans[k]).quit(),
        failure is None ==> scans[count as int].rc == PROCESS_FAILED,
    ensures
        ({
            let report = scans[count as int];
            let last = match failure {
                Some(error) => seq![EventView::ImageLoaded { image: Err(error) }],
                None => seq![
                    EventView::ImageLoaded { image: Ok(report.buffer) },
                    EventView::Decoded {
                        rc: report.rc,
                        symbols: report.symbols,
                        visible: report.wait is Some,
                    },
                ],
            };
            let run = replay(args, started(args), run_events(configs, scans, count) + last);
            let binary = binary_among(args, args.config.len());
            let error = match failure {
                Some(error) => ProgramErrorView::ImageOpenFailed(error),
                None => ProgramErrorView::ImageProcessFailed(args.images[count as int]),
            };
            &&& run.state.phase == Phase::Done
            &&& run.state.tally == tally_after(args, scans, count)
            &&& run.action == ActionView::Finish { result: Err(error) }
            &&& spec_exit_code(Err(error)) == EXIT_FAILURE
            &&& run.output == document_head(args) + image_blocks(args, binary, scans, count) + (
            if failure is None {
                source_head(args, count as int)
            } else {
                Seq::empty()
            })
            &&& args.xml ==> run.state.xml_depth == if failure is None {
                2u8
            } else {
                1u8
            }
        }),
{
    let report = scans[count as int];
    let from = after_images(args, scans, count);
    let binary = binary_among(args, args.config.len());
    lemma_after_images(args, configs, scans, count);
    if count > 0 {
        assert(!scans[count - 1].quit());
    }
    assert(from.output =~= document_head(args) + image_blocks(args, binary, scans, count));
    reveal(advance);
    match failure {
        Some(error) => {
            let last = seq![EventView::ImageLoaded { image: Err(error) }];
            lemma_replay_concat(args, started(args), run_events(configs, scans, count), last);
            lemma_replay_one(args, from, last[0]);
            assert(replay(args, from, last).output =~= from.output + Seq::<u8>::empty());
        },
        None => {
            let last = seq![
                EventView::ImageLoaded { image: Ok(report.buffer) },
                EventView::Decoded {
                    rc: report.rc,
                    symbols: report.symbols,
                    visible: report.wait is Some,
                },
            ];
            lemma_replay_concat(args, started(args), run_events(configs, scans, count), last);
            lemma_replay_two(args, from, last[0], last[1]);
            assert(replay(args, from, last).output =~= from.output + source_head(
                args,
                count as int,
            ));
        },
    }
}

/// The symbols accepted in the first `count` images: image after image,
/// each image's symbols in the engine's order.
pub open spec fn all_accepted(args: ArgsView, scans: Seq<ScanReport>, count: nat) -> Seq<
    SymbolView,
>
    decreases count,
{
    if count == 0 {
        Seq::empty()
    } else {
        all_accepted(args, scans, (count - 1) as nat) + accepted(
            scans[count - 1].symbols,
            args.oneshot,
        )
    }
}

/// One of the first `count` images held no symbol that was accepted.
pub open spec fn empty_among(args: ArgsView, scans: Seq<ScanReport>, count: nat) -> bool {
    exists|k: int| 0 <= k < count && accepted(#[trigger] scans[k].symbols, args.oneshot).len() == 0
}

/// The records of two lists of symbols, one list after the other, are the
/// records of the first list and then those of the second.
pub proof fn lemma_records_concat(
    args: ArgsView,
    binary: bool,
    first: Seq<SymbolView>,
    second: Seq<SymbolView>,
)
    ensures
        records(args, binary, first + second) == records(args, binary, first) + records(
            args,
            binary,
            second,
        ),
    decreases second.len(),
{
    if second.len() == 0 {
        assert(first + second =~= first);
        assert(records(args, binary, first) + Seq::<u8>::empty() =~= records(args, binary, first));
    } else {
        assert((first + second).drop_last() =~= first + second.drop_last());
        assert((first + second).last() == second.last());
        lemma_records_concat(args, binary, first, second.drop_last());
        assert(records(args, binary, first + second) =~= records(args, binary, first) + records(
            args,
            binary,
            second,
        ));
    }
}

/// Outside the XML document, what is written for the images is the records
/// of the accepted symbols and nothing else.
pub proof fn lemma_text_blocks(args: ArgsView, binary: bool, scans: Seq<ScanReport>, count: nat)
    requires
        !args.xml,
        count <= scans.len(),
    ensures
        image_blocks(args, binary, scans, count) == records(
            args,
            binary,
            all_accepted(args, scans, count),
        ),
    decreases count,
{
    if count > 0 {
        lemma_text_blocks(args, binary, scans, (count - 1) as nat);
        lemma_records_concat(
            args,
            binary,
            all_accepted(args, scans, (count - 1) as nat),
            accepted(scans[count - 1].symbols, args.oneshot),
        );
    }
}

/// The tally of a run counts the images that were scanned and the symbols
/// that were accepted in them, and marks whether an image went without.
pub proof fn lemma_tally(args: ArgsView, scans: Seq<ScanReport>, count: nat)
    requires
        count <= scans.len() <= usize::MAX,
        forall|k: int| 0 <= k < count ==> (#[trigger] scans[k]).symbols.len() <= usize::MAX,
    ensures
        tally_after(args, scans, count).total == all_accepted(args, scans, count).len(),
        tally_after(args, scans, count).images == count,
        tally_after(args, scans, count).not_found == empty_among(args, scans, count),
        tally_after(args, scans, count).wf(),
    decreases count,
{
    if count > 0 {
        let before = (count - 1) as nat;
        lemma_tally(args, scans, before);
        let symbols = scans[count - 1].symbols;
        let found = accepted(symbols, args.oneshot);
        symbols.lemma_filter_len(is_complete());
        lemma_record_wf(tally_after(args, scans, before), scan_outcome(args, symbols));
        if empty_among(args, scans, before) {
            let k = choose|k: int|
                0 <= k < before && accepted(#[trigger] scans[k].symbols, args.oneshot).len() == 0;
            assert(accepted(scans[k].symbols, args.oneshot).len() == 0);
        }
        if found.len() == 0 {
            assert(accepted(scans[count - 1].symbols, args.oneshot).len() == 0);
        }
        if empty_among(args, scans, count) {
            let k = choose|k: int|
                0 <= k < count && accepted(#[trigger] scans[k].symbols, args.oneshot).len() == 0;
            if k < before {
                assert(accepted(scans[k].symbols, args.oneshot).len() == 0);
            }
        }
    } else {
        assert(!empty_among(args, scans, 0));
    }
}

/// Where every image that is scanned holds a symbol that can be decoded,
/// the run ends well, with the exit code for success. Outside the XML
/// document it writes one record for each accepted symbol and nothing else:
/// image after image, each image's symbols in the engine's order.
pub proof fn lemma_every_image_found(
    args: ArgsView,
    configs: Seq<ConfigReport>,
    scans: Seq<ScanReport>,
    count: nat,
)
    requires
        0 < args.images.len() <= usize::MAX,
        configs.len() == args.config.len() <= usize::MAX,
        scans.len() == args.images.len(),
        0 < count <= scans.len(),
        count == scans.len() || scans[count - 1].quit(),
        forall|k: int| 0 <= k < count - 1 ==> !(#[trigger] scans[k]).quit(),
        forall|k: int| 0 <= k < count ==> (#[trigger] scans[k]).rc != PROCESS_FAILED,
        forall|k: int| 0 <= k < count ==> (#[trigger] scans[k]).symbols.len() <= usize::MAX,
        forall|k: int|
            0 <= k < count ==> (#[trigger] scans[k]).symbols.filter(is_complete()).len() >= 1,
    ensures
        ({
            let run = replay(args, started(args), run_events(configs, scans, count));
            let binary = binary_among(args, args.config.len());
            let found = all_accepted(args, scans, count);
            &&& run.action == ActionView::Finish { result: Ok(()) }
            &&& spec_exit_code(Ok(())) == EXIT_SUCCESS
            &&& run.state.tally.total == found.len()
            &&& run.state.tally.images == count
            &&& !run.state.tally.not_found
            &&& !args.xml ==> run.output == records(args, binary, found)
        }),
{
    lemma_run(args, configs, scans, count);
    lemma_tally(args, scans, count);
    let last = scans[count - 1];
    assert(last.symbols.filter(is_complete()).len() >= 1);
    assert(accepted(last.symbols, args.oneshot).len() >= 1);
    assert forall|k: int| 0 <= k < count implies accepted(
        #[trigger] scans[k].symbols,
        args.oneshot,
    ).len() != 0 by {
        assert(scans[k].symbols.filter(is_complete()).len() >= 1);
    }
    if !args.xml {
        let binary = binary_among(args, args.config.len());
        lemma_text_blocks(args, binary, scans, count);
        let found = all_accepted(args, scans, count);
        assert(document(args, binary, scans, count) =~= records(args, binary, found));
    }
}

/// Where no symbol is accepted in any image that is scanned, the run still
/// writes all there is to write; it ends with the error and the exit code
/// that are kept for this.
pub proof fn lemma_nothing_found(
    args: ArgsView,
    configs: Seq<ConfigReport>,
    scans: Seq<ScanReport>,
    count: nat,
)
    requires
        0 < args.images.len() <= usize::MAX,
        configs.len() == args.config.len() <= usize::MAX,
        scans.len() == args.images.len(),
        0 < count <= scans.len(),
        count == scans.len() || scans[count - 1].quit(),
        forall|k: int| 0 <= k < count - 1 ==> !(#[trigger] scans[k]).quit(),
        forall|k: int| 0 <= k < count ==> (#[trigger] scans[k]).rc != PROCESS_FAILED,
        forall|k: int| 0 <= k < count ==> (#[trigger] scans[k]).symbols.len() <= usize::MAX,
        all_accepted(args, scans, count).len() == 0,
    ensures
        ({
            let run = replay(args, started(args), run_events(configs, scans, count));
            let binary = binary_among(args, args.config.len());
            &&& run.action == ActionView::Finish { result: Err(ProgramErrorView::NoSymbolDetected) }
            &&& spec_exit_code(Err(ProgramErrorView::NoSymbolDetected)) == EXIT_NO_SYMBOL
            &&& run.state.tally.images == count
            &&& run.output == document(args, binary, scans, count)
        }),
{
    lemma_run(args, configs, scans, count);
    lemma_tally(args, scans, count);
}

/// Where the user asks to stop at an image, no further image is scanned or
/// counted: not for the number of images, not as one without a symbol.
pub proof fn lemma_quit_skips_rest(
    args: ArgsView,
    configs: Seq<ConfigReport>,
    scans: Seq<ScanReport>,
    count: nat,
)
    requires
        0 < args.images.len() <= usize::MAX,
        configs.len() == args.config.len() <= usize::MAX,
        scans.len() == args.images.len(),
        0 < count <= scans.len(),
        forall|k: int| 0 <= k < count ==> (#[trigger] scans[k]).symbols.len() <= usize::MAX,
        forall|k: int| 0 <= k < count ==> (#[trigger] scans[k]).rc != PROCESS_FAILED,
        forall|k: int| 0 <= k < count - 1 ==> !(#[trigger] scans[k]).quit(),
        scans[count - 1].quit(),
    ensures
        ({
            let run = replay(args, started(args), run_events(configs, scans, count));
            let binary = binary_among(args, args.config.len());
            &&& run.state.phase == Phase::Done
            &&& run.state.tally.images == count
            &&& run.state.tally.total == all_accepted(args, scans, count).len()
            &&& run.state.tally.not_found == empty_among(args, scans, count)
            &&& run.output == document(args, binary, scans, count)
            &&& run.action == ActionView::Finish { result: run.state.tally.spec_resolve() }
        }),
{
    lemma_run(args, configs, scans, count);
    lemma_tally(args, scans, count);
}

/// Outside the XML document and outside binary mode, the record of a symbol
/// is one line: it holds the payload, byte for byte, whether that is text
/// or not, and ends with the line end. No record is left without its
/// payload or its line end.
pub proof fn lemma_record_ends_its_line(args: ArgsView, symbol: SymbolView)
    requires
        !args.xml,
    ensures
        symbol_record(args, false, symbol) == type_field(args, symbol) + polygon_field(
            args,
            symbol,
        ) + symbol.data + seq![LINE_END],
        symbol_record(args, false, symbol).len() > symbol.data.len(),
        symbol_record(args, false, symbol).last() == LINE_END,
        symbol_record(args, true, symbol) == type_field(args, symbol) + polygon_field(
            args,
            symbol,
        ) + symbol.data,
{
    let prefix = type_field(args, symbol) + polygon_field(args, symbol);
    assert(symbol_record(args, false, symbol) =~= prefix + symbol.data + seq![LINE_END]);
    assert(symbol_record(args, true, symbol) =~= prefix + symbol.data);
}

/// A list that holds complete symbols only is its own complete part.
pub proof fn lemma_all_complete(symbols: Seq<SymbolView>)
    requires
        forall|i: int| 0 <= i < symbols.len() ==> !(#[trigger] symbols[i]).is_partial(),
    ensures
        symbols.filter(is_complete()) == symbols,
    decreases symbols.len(),
{
    reveal(Seq::filter);
    if symbols.len() > 0 {
        lemma_all_complete(symbols.drop_last());
        assert(symbols.drop_last().push(symbols.last()) =~= symbols);
    }
}

/// Partial entries are never counted nor written, however many the engine
/// leaves in its list: no accepted symbol is partial, and a list leads to
/// the same state, the same output and the same request as the list
/// without its partial entries.
pub proof fn lemma_partials_ignored(
    args: ArgsView,
    state: RunState,
    rc: i32,
    symbols: Seq<SymbolView>,
    visible: bool,
)
    ensures
        forall|i: int|
            0 <= i < accepted(symbols, args.oneshot).len() ==> !(#[trigger] accepted(
                symbols,
                args.oneshot,
            )[i]).is_partial(),
        accepted(symbols.filter(is_complete()), args.oneshot) == accepted(symbols, args.oneshot),
        scan_outcome(args, symbols.filter(is_complete())) == scan_outcome(args, symbols),
        scan_output(args, state.binary, state.image as nat, symbols.filter(is_complete()))
            == scan_output(args, state.binary, state.image as nat, symbols),
        next(
            args,
            state,
            EventView::Decoded { rc, symbols: symbols.filter(is_complete()), visible },
        ) == next(args, state, EventView::Decoded { rc, symbols, visible }),
{
    let complete = symbols.filter(is_complete());
    assert forall|i: int| 0 <= i < complete.len() implies !(#[trigger] complete[i]).is_partial() by {
        symbols.lemma_filter_pred(is_complete(), i);
    }
    lemma_all_complete(complete);
}

/// An image that is named twice is written twice, where the run comes to
/// scan it both times: it does not if it is given up before, or if the
/// user asks to stop before. Outside the XML document the two blocks are
/// the same, byte for byte. In the document they differ in the number of
/// the index line, and in nothing else.
pub proof fn lemma_same_image_twice(
    args: ArgsView,
    binary: bool,
    symbols: Seq<SymbolView>,
    first: int,
    second: int,
)
    requires
        0 <= first < args.images.len(),
        0 <= second < args.images.len(),
        args.images[first] == args.images[second],
    ensures
        ({
            let found = accepted(symbols, args.oneshot);
            let head = xml_source_head(args.images[first]);
            let rest = records(args, binary, found) + xml_index_foot() + xml_source_foot();
            let one = image_block(args, binary, first, symbols);
            let other = image_block(args, binary, second, symbols);
            &&& !args.xml ==> one == other
            &&& args.xml && found.len() == 0 ==> one == other
            &&& args.xml && found.len() > 0 ==> one == head + xml_index_head(first as nat) + rest
                && other == head + xml_index_head(second as nat) + rest
        }),
{
    let found = accepted(symbols, args.oneshot);
    let head = xml_source_head(args.images[first]);
    let rest = records(args, binary, found) + xml_index_foot() + xml_source_foot();
    if args.xml && found.len() > 0 {
        assert(image_block(args, binary, first, symbols) =~= head + xml_index_head(first as nat)
            + rest);
        assert(image_block(args, binary, second, symbols) =~= head + xml_index_head(
            second as nat,
        ) + rest);
    }
}

} // verus!
