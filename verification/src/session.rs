//! A run, as a state machine: the caller does what an [`Action`] asks for,
//! reports what came of it as an [`Event`], and writes the output of each
//! [`Step`] to the result stream.

use image::{DynamicImage, ImageError};
use vstd::prelude::*;
use crate::cli_args::{Args, ArgsView};
use crate::engine::{symbols_view, Symbol, SymbolView, ZbarConfig, ZbarSymbolType};
use crate::errors::{ProgramError, ProgramErrorView, ProgramResult};
use crate::log_verbosity::{engine_verbosity, spec_engine_verbosity};
use crate::parse_config::{names_binary, setting_names_binary};
use crate::scan_image::{output_result, scan_outcome, scan_output, ScanOutcome};
use crate::xml_printer::{xml_foot, xml_head, xml_source_foot, xml_source_head, XmlPrinter};
use crate::zbar_image::{
    spec_from_image, spec_zbar_image, zbar_image_new, PixelBuffer, PixelBufferView, ZbarImage,
    ZbarImageView,
};

verus! {

/// What a run is waiting for.
#[derive(Debug, Copy, Clone, PartialEq, Eq, Structural)]
pub enum Phase {
    /// For the engine to come up.
    Init,
    /// For the engine to read a setting.
    Parse,
    /// For the engine to take a setting over.
    Apply,
    /// For the codec to open an image.
    Load,
    /// For the engine to decode an image.
    Decode,
    /// For the user to be done with the image on display.
    Wait,
    /// For nothing: the run is over.
    Done,
}

/// What a run has found so far.
#[derive(Debug, Copy, Clone, PartialEq, Eq, Structural)]
pub struct RunAccumulator {
    /// The number of symbols accepted.
    pub total: u128,
    /// The number of images scanned.
    pub images: usize,
    /// An image was scanned in which no symbol was accepted.
    pub not_found: bool,
}

impl RunAccumulator {
    /// Before the first image.
    pub open spec fn spec_new() -> RunAccumulator {
        RunAccumulator { total: 0, images: 0, not_found: false }
    }

    /// With one more image scanned, which ended with `outcome`.
    pub open spec fn spec_record(self, outcome: ScanOutcome) -> RunAccumulator {
        RunAccumulator {
            total: (self.total + outcome.count) as u128,
            images: (self.images + 1) as usize,
            not_found: self.not_found || outcome.count == 0,
        }
    }

    /// How the run ends when no more image is scanned: well if a symbol was
    /// accepted in any image.
    pub open spec fn spec_resolve(self) -> Result<(), ProgramErrorView> {
        if self.total >= 1 {
            Ok(())
        } else {
            Err(ProgramErrorView::NoSymbolDetected)
        }
    }

    /// No run can have counted more: each image adds what fits a `usize`.
    pub open spec fn wf(self) -> bool {
        self.total <= self.images * usize::MAX
    }

    /// Before the first image.
    pub fn new() -> (tally: RunAccumulator)
        ensures
            tally == RunAccumulator::spec_new(),
    {
        RunAccumulator { total: 0, images: 0, not_found: false }
    }

    /// With one more image scanned, which ended with `outcome`.
    pub fn record(self, outcome: ScanOutcome) -> (tally: RunAccumulator)
        requires
            self.total + outcome.count <= u128::MAX,
            self.images < usize::MAX,
        ensures
            tally == self.spec_record(outcome),
    {
        RunAccumulator {
            total: self.total + outcome.count as u128,
            images: self.images + 1,
            not_found: self.not_found || outcome.count == 0,
        }
    }

    /// How the run ends when no more image is scanned.
    pub fn resolve(&self) -> (result: ProgramResult<()>)
        ensures
            self.spec_resolve() == match result {
                Ok(_) => Ok::<(), ProgramErrorView>(()),
                Err(error) => Err(error@),
            },
    {
        if self.total >= 1 {
            Ok(())
        } else {
            Err(ProgramError::NoSymbolDetected)
        }
    }
}

/// Where a run stands.
#[derive(Debug, Copy, Clone, PartialEq, Eq, Structural)]
pub struct RunState {
    pub phase: Phase,
    /// The setting that is being applied, by its place among the settings.
    pub config: usize,
    /// The image that is being scanned, by its place among the images.
    pub image: usize,
    /// Payloads are written as they are, not as text.
    pub binary: bool,
    /// How many elements of the XML document are open.
    pub xml_depth: u8,
    /// How the latest scan of an image ended.
    pub scan: ScanOutcome,
    pub tally: RunAccumulator,
}

/// What the caller reports back.
#[derive(Debug)]
pub enum Event {
    /// The engine was asked to come up, and returned `rc`.
    EngineInit { rc: i32 },
    /// The engine was asked to read a setting. It returned `rc`, and read
    /// this much out of the setting.
    ConfigParsed { rc: i32, symbology: ZbarSymbolType, config: ZbarConfig, value: i32 },
    /// The engine was asked to take a setting over, and returned `rc`.
    ConfigSet { rc: i32 },
    /// The codec was asked to open an image.
    ImageLoaded { image: Result<PixelBuffer, ImageError> },
    /// The engine was asked to decode an image. It returned `rc` and left
    /// this list of symbols; `visible` says whether it shows the image.
    Decoded { rc: i32, symbols: Vec<Symbol>, visible: bool },
    /// The engine was asked to wait for the user, and returned `rc`: a key,
    /// or a negative number.
    UserWait { rc: i32 },
}

/// What an [`Event`] holds.
pub enum EventView {
    EngineInit { rc: i32 },
    ConfigParsed { rc: i32, symbology: ZbarSymbolType, config: ZbarConfig, value: i32 },
    ConfigSet { rc: i32 },
    ImageLoaded { image: Result<PixelBufferView, ImageError> },
    Decoded { rc: i32, symbols: Seq<SymbolView>, visible: bool },
    UserWait { rc: i32 },
}

impl View for Event {
    type V = EventView;

    open spec fn view(&self) -> EventView {
        match self {
            Event::EngineInit { rc } => EventView::EngineInit { rc: *rc },
            Event::ConfigParsed { rc, symbology, config, value } => EventView::ConfigParsed {
                rc: *rc,
                symbology: *symbology,
                config: *config,
                value: *value,
            },
            Event::ConfigSet { rc } => EventView::ConfigSet { rc: *rc },
            Event::ImageLoaded { image } => EventView::ImageLoaded {
                image: match image {
                    Ok(buffer) => Ok(buffer@),
                    Err(error) => Err(*error),
                },
            },
            Event::Decoded { rc, symbols, visible } => EventView::Decoded {
                rc: *rc,
                symbols: symbols_view(symbols@),
                visible: *visible,
            },
            Event::UserWait { rc } => EventView::UserWait { rc: *rc },
        }
    }
}

/// What the caller is to do next.
#[derive(Debug)]
pub enum Action {
    /// Bring the engine up, with this verbosity; ask for dbus messages and
    /// for the display as said. Answered by [`Event::EngineInit`].
    InitEngine { verbosity: i32, request_dbus: bool, display: bool },
    /// Have the engine read this setting. Answered by
    /// [`Event::ConfigParsed`].
    ParseConfig { setting: String },
    /// Have the engine take over what it read. Answered by
    /// [`Event::ConfigSet`].
    SetConfig { symbology: ZbarSymbolType, config: ZbarConfig, value: i32 },
    /// Open the image at this path. Answered by [`Event::ImageLoaded`].
    LoadImage { path: String },
    /// Have the engine decode this image. Answered by [`Event::Decoded`].
    Decode { image: ZbarImage },
    /// Wait until the user is done with the image on display. Answered by
    /// [`Event::UserWait`].
    WaitForUser,
    /// End the run with this result.
    Finish { result: ProgramResult<()> },
    /// Nothing: the event answered no request, and changed nothing.
    Ignored,
}

/// What an [`Action`] holds.
pub enum ActionView {
    InitEngine { verbosity: i32, request_dbus: bool, display: bool },
    ParseConfig { setting: Seq<char> },
    SetConfig { symbology: ZbarSymbolType, config: ZbarConfig, value: i32 },
    LoadImage { path: Seq<char> },
    Decode { image: ZbarImageView },
    WaitForUser,
    Finish { result: Result<(), ProgramErrorView> },
    Ignored,
}

impl View for Action {
    type V = ActionView;

    open spec fn view(&self) -> ActionView {
        match self {
            Action::InitEngine { verbosity, request_dbus, display } => ActionView::InitEngine {
                verbosity: *verbosity,
                request_dbus: *request_dbus,
                display: *display,
            },
            Action::ParseConfig { setting } => ActionView::ParseConfig { setting: setting@ },
            Action::SetConfig { symbology, config, value } => ActionView::SetConfig {
                symbology: *symbology,
                config: *config,
                value: *value,
            },
            Action::LoadImage { path } => ActionView::LoadImage { path: path@ },
            Action::Decode { image } => ActionView::Decode { image: image@ },
            Action::WaitForUser => ActionView::WaitForUser,
            Action::Finish { result } => ActionView::Finish {
                result: match result {
                    Ok(_) => Ok(()),
                    Err(error) => Err(error@),
                },
            },
            Action::Ignored => ActionView::Ignored,
        }
    }
}

/// What one event leads to.
#[derive(Debug)]
pub struct Step {
    /// What is to be written to the result stream, before anything else is
    /// done.
    pub output: Vec<u8>,
    /// What is to be done then.
    pub action: Action,
}

/// What a [`Step`] holds.
pub struct StepView {
    pub output: Seq<u8>,
    pub action: ActionView,
}

impl View for Step {
    type V = StepView;

    open spec fn view(&self) -> StepView {
        StepView { output: self.output@, action: self.action@ }
    }
}

/// The return value with which the engine says that it failed on an image.
pub const PROCESS_FAILED: i32 = -1;

/// The key `q`.
pub const QUIT_KEY: i32 = 113;

/// The key `Q`.
pub const QUIT_KEY_SHIFTED: i32 = 81;

/// The user asks to stop: by the key `q`, or by closing the window, which
/// the engine reports as a negative number.
pub open spec fn user_quit(rc: i32) -> bool {
    rc < 0 || rc == QUIT_KEY || rc == QUIT_KEY_SHIFTED
}

/// The user's signal ends the run: it is a signal to stop, and there is an
/// image left to skip. At the last image it is let pass.
pub open spec fn stops_run(args: ArgsView, state: RunState, rc: i32) -> bool {
    user_quit(rc) && state.image + 1 < args.images.len()
}

/// At the start of a run: nothing asked for yet.
pub open spec fn initial_state() -> RunState {
    RunState {
        phase: Phase::Init,
        config: 0,
        image: 0,
        binary: false,
        xml_depth: 0,
        scan: ScanOutcome { count: 0, early_termination: false },
        tally: RunAccumulator::spec_new(),
    }
}

/// The first step of a run: without an image there is nothing to do; else
/// the engine is brought up.
pub open spec fn start(args: ArgsView) -> (RunState, StepView) {
    if args.images.len() == 0 {
        fail(initial_state(), Seq::empty(), ProgramErrorView::NoImagePassed)
    } else {
        (
            initial_state(),
            StepView {
                output: Seq::empty(),
                action: ActionView::InitEngine {
                    verbosity: spec_engine_verbosity(args.verbosity),
                    request_dbus: !args.nodbus,
                    display: args.display,
                },
            },
        )
    }
}

/// The run is given up with `error`. What was written stays written.
pub open spec fn fail(state: RunState, output: Seq<u8>, error: ProgramErrorView) -> (
    RunState,
    StepView,
) {
    (
        RunState { phase: Phase::Done, ..state },
        StepView { output, action: ActionView::Finish { result: Err(error) } },
    )
}

/// No more image is scanned: the document is closed, and the run ends well
/// if it found a symbol.
pub open spec fn finish(args: ArgsView, state: RunState) -> (RunState, StepView) {
    (
        RunState { phase: Phase::Done, xml_depth: 0, ..state },
        StepView {
            output: if args.xml {
                xml_foot()
            } else {
                Seq::empty()
            },
            action: ActionView::Finish { result: state.tally.spec_resolve() },
        },
    )
}

/// On to the image at place `image`, if there is one.
pub open spec fn enter_image(args: ArgsView, state: RunState, image: int) -> (RunState, StepView) {
    if 0 <= image < args.images.len() {
        (
            RunState { phase: Phase::Load, image: image as usize, ..state },
            StepView {
                output: Seq::empty(),
                action: ActionView::LoadImage { path: args.images[image] },
            },
        )
    } else {
        finish(args, state)
    }
}

/// The settings are applied: the document is opened, and the first image
/// is turned to.
pub open spec fn begin_images(args: ArgsView, state: RunState) -> (RunState, StepView) {
    let opened = RunState {
        xml_depth: if args.xml {
            1
        } else {
            0
        },
        ..state
    };
    let (next, step) = enter_image(args, opened, 0);
    (
        next,
        StepView {
            output: (if args.xml {
                xml_head()
            } else {
                Seq::empty()
            }) + step.output,
            action: step.action,
        },
    )
}

/// On to the setting at place `config`, if there is one.
pub open spec fn enter_config(args: ArgsView, state: RunState, config: int) -> (
    RunState,
    StepView,
) {
    if 0 <= config < args.config.len() {
        (
            RunState { phase: Phase::Parse, config: config as usize, ..state },
            StepView {
                output: Seq::empty(),
                action: ActionView::ParseConfig { setting: args.config[config] },
            },
        )
    } else {
        begin_images(args, state)
    }
}

/// The image in hand is done with, `output` was written for it: its block
/// is closed. On the user's signal every further image is skipped.
pub open spec fn leave_image(args: ArgsView, state: RunState, output: Seq<u8>, quit: bool) -> (
    RunState,
    StepView,
) {
    let closed = RunState {
        xml_depth: if args.xml {
            1
        } else {
            0
        },
        ..state
    };
    let (next, step) = if quit {
        finish(args, closed)
    } else {
        enter_image(args, closed, state.image + 1)
    };
    (
        next,
        StepView {
            output: output + (if args.xml {
                xml_source_foot()
            } else {
                Seq::empty()
            }) + step.output,
            action: step.action,
        },
    )
}

/// Nothing happens: the event answers no request.
pub open spec fn ignore(state: RunState) -> (RunState, StepView) {
    (state, StepView { output: Seq::empty(), action: ActionView::Ignored })
}

/// The engine has come up, or has not.
pub open spec fn next_init(args: ArgsView, state: RunState, event: EventView) -> (
    RunState,
    StepView,
) {
    match event {
        EventView::EngineInit { rc } if state.phase == Phase::Init => {
            if rc != 0 {
                fail(state, Seq::empty(), ProgramErrorView::ProcessorInitFailed)
            } else {
                enter_config(args, state, 0)
            }
        },
        _ => ignore(state),
    }
}

/// The engine has read the setting in hand, or has taken it over: a setting
/// that it cannot read or turns down ends the run; one that it takes over
/// and that is about the `binary` key turns binary mode on.
pub open spec fn next_config(args: ArgsView, state: RunState, event: EventView) -> (
    RunState,
    StepView,
) {
    let setting = args.config[state.config as int];
    match event {
        EventView::ConfigParsed { rc, symbology, config, value } if state.phase == Phase::Parse => {
            if rc != 0 {
                fail(state, Seq::empty(), ProgramErrorView::ConfigParseFailed(setting))
            } else {
                (
                    RunState { phase: Phase::Apply, ..state },
                    StepView {
                        output: Seq::empty(),
                        action: ActionView::SetConfig { symbology, config, value },
                    },
                )
            }
        },
        EventView::ConfigSet { rc } if state.phase == Phase::Apply => {
            if rc != 0 {
                fail(state, Seq::empty(), ProgramErrorView::ConfigSetFailed(setting))
            } else {
                enter_config(
                    args,
                    RunState { binary: state.binary || names_binary(setting), ..state },
                    state.config + 1,
                )
            }
        },
        _ => ignore(state),
    }
}

/// The image in hand was opened, decoded, or shown to the user.
pub open spec fn next_image(args: ArgsView, state: RunState, event: EventView) -> (
    RunState,
    StepView,
) {
    let path = args.images[state.image as int];
    match event {
        EventView::ImageLoaded { image } if state.phase == Phase::Load => {
            match image {
                Err(error) => fail(state, Seq::empty(), ProgramErrorView::ImageOpenFailed(error)),
                Ok(buffer) => (
                    RunState {
                        phase: Phase::Decode,
                        xml_depth: if args.xml {
                            2
                        } else {
                            0
                        },
                        ..state
                    },
                    StepView {
                        output: if args.xml {
                            xml_source_head(path)
                        } else {
                            Seq::empty()
                        },
                        action: ActionView::Decode { image: spec_zbar_image(buffer) },
                    },
                ),
            }
        },
        EventView::Decoded { rc, symbols, visible } if state.phase == Phase::Decode => {
            if rc == PROCESS_FAILED {
                fail(state, Seq::empty(), ProgramErrorView::ImageProcessFailed(path))
            } else {
                let outcome = scan_outcome(args, symbols);
                let scanned = RunState {
                    scan: outcome,
                    tally: state.tally.spec_record(outcome),
                    ..state
                };
                let output = scan_output(args, state.binary, state.image as nat, symbols);
                if visible {
                    (
                        RunState { phase: Phase::Wait, ..scanned },
                        StepView { output, action: ActionView::WaitForUser },
                    )
                } else {
                    leave_image(args, scanned, output, false)
                }
            }
        },
        EventView::UserWait { rc } if state.phase == Phase::Wait => {
            let quit = stops_run(args, state, rc);
            leave_image(
                args,
                RunState { scan: state.scan.spec_stopped(quit), ..state },
                Seq::empty(),
                quit,
            )
        },
        _ => ignore(state),
    }
}

/// What `event` leads to in `state`: the state after it, what is written,
/// and what is asked for next.
pub open spec fn next(args: ArgsView, state: RunState, event: EventView) -> (RunState, StepView) {
    match state.phase {
        Phase::Init => next_init(args, state, event),
        Phase::Parse | Phase::Apply => next_config(args, state, event),
        Phase::Load | Phase::Decode | Phase::Wait => next_image(args, state, event),
        Phase::Done => ignore(state),
    }
}

/// What holds of the state of every run.
pub open spec fn wf(args: ArgsView, state: RunState) -> bool {
    &&& args.config.len() <= usize::MAX
    &&& args.images.len() <= usize::MAX
    &&& (state.phase == Phase::Parse || state.phase == Phase::Apply) ==> state.config
        < args.config.len()
    &&& (state.phase == Phase::Load || state.phase == Phase::Decode || state.phase == Phase::Wait)
        ==> state.image < args.images.len()
    &&& (state.phase == Phase::Load || state.phase == Phase::Decode) ==> state.tally.images
        <= state.image
    &&& state.phase == Phase::Wait ==> state.tally.images <= state.image + 1
    &&& (state.phase == Phase::Init || state.phase == Phase::Parse || state.phase == Phase::Apply)
        ==> state.tally.images == 0
    &&& state.tally.wf()
    &&& state.phase != Phase::Done ==> state.xml_depth == open_elements(args, state.phase)
}

/// How many elements of the XML document are open while a run waits: the
/// root from the first image on, and the block of the image in hand once
/// that is opened.
pub open spec fn open_elements(args: ArgsView, phase: Phase) -> u8 {
    if !args.xml {
        0
    } else {
        match phase {
            Phase::Load => 1,
            Phase::Decode | Phase::Wait => 2,
            _ => 0,
        }
    }
}

/// What holds of the state of a run holds after every step.
pub proof fn lemma_next_wf(args: ArgsView, state: RunState, event: EventView)
    requires
        wf(args, state),
    ensures
        wf(args, next(args, state, event).0),
{
    if state.phase == Phase::Decode {
        if let EventView::Decoded { rc, symbols, visible } = event {
            lemma_record_wf(state.tally, scan_outcome(args, symbols));
        }
    }
}

/// A tally that holds fewer images than a `usize` can count has room for
/// what one more image adds.
pub proof fn lemma_record_wf(tally: RunAccumulator, outcome: ScanOutcome)
    requires
        tally.wf(),
        tally.images < usize::MAX,
    ensures
        tally.total + outcome.count <= u128::MAX,
        tally.spec_record(outcome).wf(),
{
    assert(tally.images * usize::MAX + usize::MAX == (tally.images + 1) * usize::MAX)
        by (nonlinear_arith);
    assert((tally.images + 1) * usize::MAX <= 0xffff_ffff_ffff_ffff * 0xffff_ffff_ffff_ffff)
        by (nonlinear_arith)
        requires
            tally.images + 1 <= 0xffff_ffff_ffff_ffff,
            usize::MAX <= 0xffff_ffff_ffff_ffff,
    ;
}

/// A run without an image is turned down.
pub fn check_images(args: &Args) -> (result: ProgramResult<()>)
    ensures
        result is Err <==> args@.images.len() == 0,
        result matches Err(error) ==> error@ == ProgramErrorView::NoImagePassed,
{
    if args.images.is_empty() {
        return Err(ProgramError::NoImagePassed);
    }
    Ok(())
}

/// What the engine returned for an image says whether it failed on it.
pub fn process_image(processing_result: i32, filename: &String) -> (result: ProgramResult<()>)
    ensures
        result is Err <==> processing_result == PROCESS_FAILED,
        result matches Err(error) ==> error@ == ProgramErrorView::ImageProcessFailed(filename@),
{
    if processing_result == PROCESS_FAILED {
        return Err(ProgramError::ImageProcessFailed(filename.clone()));
    }
    Ok(())
}

/// What the engine returned from waiting says whether the user asks to
/// stop.
pub fn wait_for_user_quit_window(rc: i32) -> (quit: bool)
    ensures
        quit == user_quit(rc),
{
    rc < 0 || rc == QUIT_KEY || rc == QUIT_KEY_SHIFTED
}

fn give_up(state: RunState, output: Vec<u8>, error: ProgramError) -> (next: (RunState, Step))
    ensures
        (next.0, next.1@) == fail(state, output@, error@),
{
    (
        RunState { phase: Phase::Done, ..state },
        Step { output, action: Action::Finish { result: Err(error) } },
    )
}

fn ignored(state: RunState) -> (next: (RunState, Step))
    ensures
        (next.0, next.1@) == ignore(state),
{
    (state, Step { output: Vec::new(), action: Action::Ignored })
}

fn end_scan(args: &Args, state: RunState) -> (next: (RunState, Step))
    ensures
        (next.0, next.1@) == finish(args@, state),
{
    let mut output: Vec<u8> = Vec::new();
    if args.xml {
        XmlPrinter::print_foot(&mut output);
    }
    (
        RunState { phase: Phase::Done, xml_depth: 0, ..state },
        Step { output, action: Action::Finish { result: state.tally.resolve() } },
    )
}

fn turn_to_image(args: &Args, state: RunState, image: usize) -> (next: (RunState, Step))
    ensures
        (next.0, next.1@) == enter_image(args@, state, image as int),
{
    if image < args.images.len() {
        (
            RunState { phase: Phase::Load, image, ..state },
            Step {
                output: Vec::new(),
                action: Action::LoadImage { path: args.images[image].clone() },
            },
        )
    } else {
        end_scan(args, state)
    }
}

/// Opens the document and turns to the first image.
fn scan_images(args: &Args, state: RunState) -> (next: (RunState, Step))
    ensures
        (next.0, next.1@) == begin_images(args@, state),
{
    let opened = RunState {
        xml_depth: if args.xml {
            1
        } else {
            0
        },
        ..state
    };
    let (next, step) = turn_to_image(args, opened, 0);
    let mut output: Vec<u8> = Vec::new();
    if args.xml {
        XmlPrinter::print_head(&mut output);
    }
    let mut rest = step.output;
    output.append(&mut rest);
    (next, Step { output, action: step.action })
}

/// Turns to the setting at place `config`; after the last one, to the
/// images.
fn parse_configs(args: &Args, state: RunState, config: usize) -> (next: (RunState, Step))
    ensures
        (next.0, next.1@) == enter_config(args@, state, config as int),
{
    if config < args.config.len() {
        (
            RunState { phase: Phase::Parse, config, ..state },
            Step {
                output: Vec::new(),
                action: Action::ParseConfig { setting: args.config[config].clone() },
            },
        )
    } else {
        scan_images(args, state)
    }
}

fn close_image(args: &Args, state: RunState, output: Vec<u8>, quit: bool) -> (next: (
    RunState,
    Step,
))
    requires
        state.image < usize::MAX,
    ensures
        (next.0, next.1@) == leave_image(args@, state, output@, quit),
{
    let closed = RunState {
        xml_depth: if args.xml {
            1
        } else {
            0
        },
        ..state
    };
    let (next, step) = if quit {
        end_scan(args, closed)
    } else {
        turn_to_image(args, closed, state.image + 1)
    };
    let mut output = output;
    if args.xml {
        XmlPrinter::print_source_foot(&mut output);
    }
    let mut rest = step.output;
    output.append(&mut rest);
    (next, Step { output, action: step.action })
}

/// A run in progress.
#[derive(Debug)]
pub struct Session {
    args: Args,
    state: RunState,
}

/// What a [`Session`] holds.
pub struct SessionView {
    pub args: ArgsView,
    pub state: RunState,
}

impl View for Session {
    type V = SessionView;

    closed spec fn view(&self) -> SessionView {
        SessionView { args: self.args@, state: self.state }
    }
}

impl Session {
    #[verifier::type_invariant]
    spec fn well_formed(self) -> bool {
        wf(self.args@, self.state)
    }

    /// The options of the run.
    pub fn args(&self) -> (args: &Args)
        ensures
            args@ == self@.args,
    {
        &self.args
    }

    /// Where the run stands.
    pub fn state(&self) -> (state: RunState)
        ensures
            state == self@.state,
            wf(self@.args, state),
    {
        proof {
            use_type_invariant(self);
        }
        self.state
    }

    /// Takes the run one step on: from what the caller reports to what is
    /// to be written and done next.
    pub fn step(&mut self, event: Event) -> (step: Step)
        ensures
            final(self)@.args == old(self)@.args,
            (final(self)@.state, step@) == next(old(self)@.args, old(self)@.state, event@),
    {
        match self.state.phase {
            Phase::Init => initialize_processor(self, event),
            Phase::Parse | Phase::Apply => zbar_processor_parse_config(self, event),
            Phase::Load | Phase::Decode | Phase::Wait => scan_image(self, event),
            Phase::Done => Step { output: Vec::new(), action: Action::Ignored },
        }
    }
}

/// What the engine made of a setting, as it is reported. The engine names
/// the symbology and the setting by number; numbers that name none make the
/// setting one that could not be read.
pub open spec fn spec_config_parsed(rc: i32, symbology: u32, config: u32, value: i32) -> EventView {
    match (ZbarSymbolType::spec_from_code(symbology), ZbarConfig::spec_from_code(config)) {
        (Some(symbology), Some(config)) => EventView::ConfigParsed { rc, symbology, config, value },
        _ => EventView::ConfigParsed {
            rc: if rc != 0 {
                rc
            } else {
                1
            },
            symbology: ZbarSymbolType::ZbarNone,
            config: ZbarConfig::Enable,
            value,
        },
    }
}

/// What the engine made of a setting, as it is reported.
pub fn config_parsed(rc: i32, symbology: u32, config: u32, value: i32) -> (event: Event)
    ensures
        event@ == spec_config_parsed(rc, symbology, config, value),
{
    match (ZbarSymbolType::from_code(symbology), ZbarConfig::from_code(config)) {
        (Some(symbology), Some(config)) => Event::ConfigParsed { rc, symbology, config, value },
        _ => Event::ConfigParsed {
            rc: if rc != 0 {
                rc
            } else {
                1
            },
            symbology: ZbarSymbolType::ZbarNone,
            config: ZbarConfig::Enable,
            value,
        },
    }
}

/// What came of opening an image, as it is reported: an image that the
/// codec opened is reduced to 8-bit luma, one byte for each pixel.
pub fn image_loaded(opened: Result<DynamicImage, ImageError>) -> (event: Event)
    ensures
        event@ == (EventView::ImageLoaded {
            image: match opened {
                Ok(image) => Ok(spec_from_image(image)),
                Err(error) => Err(error),
            },
        }),
        opened matches Ok(image) ==> spec_from_image(image).wf(),
{
    match opened {
        Ok(image) => Event::ImageLoaded { image: Ok(PixelBuffer::from_image(image)) },
        Err(error) => Event::ImageLoaded { image: Err(error) },
    }
}

/// Starts a run: it ends at once if no image is named; else the engine is
/// to be brought up.
pub fn run(args: Args) -> (started: (Session, Step))
    ensures
        started.0@.args == args@,
        (started.0@.state, started.1@) == start(args@),
{
    let fresh = RunState {
        phase: Phase::Init,
        config: 0,
        image: 0,
        binary: false,
        xml_depth: 0,
        scan: ScanOutcome { count: 0, early_termination: false },
        tally: RunAccumulator::new(),
    };
    let (state, step) = match check_images(&args) {
        Err(error) => give_up(fresh, Vec::new(), error),
        Ok(_) => (
            fresh,
            Step {
                output: Vec::new(),
                action: Action::InitEngine {
                    verbosity: engine_verbosity(args.verbosity),
                    request_dbus: !args.nodbus,
                    display: args.display,
                },
            },
        ),
    };
    proof {
        assert(args.config.len() == args@.config.len());
        assert(args.images.len() == args@.images.len());
    }
    (Session { args, state }, step)
}

/// Takes the engine's coming up: where it failed the run ends; else the
/// settings are applied, the first one first.
pub fn initialize_processor(session: &mut Session, event: Event) -> (step: Step)
    ensures
        final(session)@.args == old(session)@.args,
        (final(session)@.state, step@) == next_init(
            old(session)@.args,
            old(session)@.state,
            event@,
        ),
{
    proof {
        use_type_invariant(&*session);
        lemma_next_wf(session@.args, session@.state, event@);
    }
    let state = session.state;
    let (next, step) = match (state.phase, event) {
        (Phase::Init, Event::EngineInit { rc }) => {
            if rc != 0 {
                give_up(state, Vec::new(), ProgramError::ProcessorInitFailed)
            } else {
                parse_configs(&session.args, state, 0)
            }
        },
        _ => ignored(state),
    };
    session.state = next;
    step
}

/// Takes what the engine made of the setting in hand. A setting that it
/// cannot read, or that it turns down, ends the run. One that it took over
/// turns binary mode on if it is about the `binary` key; then the next
/// setting is turned to.
pub fn zbar_processor_parse_config(session: &mut Session, event: Event) -> (step: Step)
    ensures
        final(session)@.args == old(session)@.args,
        (final(session)@.state, step@) == next_config(
            old(session)@.args,
            old(session)@.state,
            event@,
        ),
{
    proof {
        use_type_invariant(&*session);
        lemma_next_wf(session@.args, session@.state, event@);
    }
    let state = session.state;
    let (next, step) = match (state.phase, event) {
        (Phase::Parse, Event::ConfigParsed { rc, symbology, config, value }) => {
            if rc != 0 {
                let setting = session.args.config[state.config].clone();
                give_up(state, Vec::new(), ProgramError::ConfigParseFailed(setting))
            } else {
                (
                    RunState { phase: Phase::Apply, ..state },
                    Step {
                        output: Vec::new(),
                        action: Action::SetConfig { symbology, config, value },
                    },
                )
            }
        },
        (Phase::Apply, Event::ConfigSet { rc }) => {
            let config_string = &session.args.config[state.config];
            if rc != 0 {
                give_up(state, Vec::new(), ProgramError::ConfigSetFailed(config_string.clone()))
            } else {
                let binary = state.binary || setting_names_binary(config_string.as_str());
                parse_configs(&session.args, RunState { binary, ..state }, state.config + 1)
            }
        },
        _ => ignored(state),
    };
    session.state = next;
    step
}

/// Takes what came of the image in hand. Opened: its block of the document
/// is opened, and the engine is to decode it. Decoded: the records of its
/// symbols are written and counted, and the user is waited for where the
/// image is on display. Then its block is closed and the next image is
/// turned to, or the run ends. An image that cannot be opened, or on which
/// the engine fails, ends the run at once.
pub fn scan_image(session: &mut Session, event: Event) -> (step: Step)
    ensures
        final(session)@.args == old(session)@.args,
        (final(session)@.state, step@) == next_image(
            old(session)@.args,
            old(session)@.state,
            event@,
        ),
{
    proof {
        use_type_invariant(&*session);
        lemma_next_wf(session@.args, session@.state, event@);
    }
    let state = session.state;
    let args = &session.args;
    let (next, step) = match (state.phase, event) {
        (Phase::Load, Event::ImageLoaded { image }) => {
            match image {
                Err(error) => give_up(state, Vec::new(), ProgramError::from(error)),
                Ok(buffer) => {
                    let mut output: Vec<u8> = Vec::new();
                    if args.xml {
                        XmlPrinter::print_source_head(
                            &mut output,
                            args.images[state.image].as_str(),
                        );
                    }
                    (
                        RunState {
                            phase: Phase::Decode,
                            xml_depth: if args.xml {
                                2
                            } else {
                                0
                            },
                            ..state
                        },
                        Step { output, action: Action::Decode { image: zbar_image_new(buffer) } },
                    )
                },
            }
        },
        (Phase::Decode, Event::Decoded { rc, symbols, visible }) => {
            match process_image(rc, &args.images[state.image]) {
                Err(error) => give_up(state, Vec::new(), error),
                Ok(_) => {
                    let mut output: Vec<u8> = Vec::new();
                    let outcome = output_result(
                        &mut output,
                        &symbols,
                        args,
                        state.image,
                        state.binary,
                    );
                    proof {
                        lemma_record_wf(state.tally, outcome);
                    }
                    let scanned = RunState {
                        scan: outcome,
                        tally: state.tally.record(outcome),
                        ..state
                    };
                    if visible {
                        (
                            RunState { phase: Phase::Wait, ..scanned },
                            Step { output, action: Action::WaitForUser },
                        )
                    } else {
                        close_image(args, scanned, output, false)
                    }
                },
            }
        },
        (Phase::Wait, Event::UserWait { rc }) => {
            let quit = wait_for_user_quit_window(rc) && state.image + 1 < args.images.len();
            close_image(
                args,
                RunState { scan: state.scan.stopped(quit), ..state },
                Vec::new(),
                quit,
            )
        },
        _ => ignored(state),
    };
    session.state = next;
    step
}

} // verus!
