//! The run as a whole: wait for the runtime, open the console, find and
//! load the two libraries, bind the function table, walk the metadata and
//! hand out the two artifacts. The run is a state machine that is resumed
//! with the answer to each request.

use crate::il2cpp::api::{Il2CppApi, Il2CppError, Library};
use crate::il2cpp::functions::{Entry, Il2CppFunctions, TableLayout};
use crate::il2cpp::module::{Module, ModuleError};
use crate::il2cpp::types::MethodLayout;
use crate::outputs::json::{pretty_json, rendered_text};
use crate::outputs::methoddumper::{offset_members, render, report, summary_text, MethodOffsets};
use crate::protocol::{DumpError, Request, RequestView, Response, ResponseView, Step};
use crate::walker::{Mode, Phase, Walker, WalkerView};
use vstd::prelude::*;
use vstd::string::*;

verus! {

/// Which artifacts a run produces.
#[derive(PartialEq, Eq, Structural, Clone, Copy, Debug)]
pub enum Emitters {
    /// The method offsets only.
    OffsetOnly,
    /// The method offsets and, after them, the pseudo-source.
    OffsetAndSource,
}

/// What differs between builds of a game and between uses of the dumper.
#[derive(PartialEq, Eq, Structural, Clone, Copy, Debug)]
pub struct Config {
    /// How long the run waits before it touches the runtime, in seconds.
    pub delay: u64,
    pub emitters: Emitters,
    pub table: TableLayout,
    pub method: MethodLayout,
}

impl Config {
    /// Ten seconds of delay, both artifacts and the layouts of the build
    /// the dumper was made for.
    pub open spec fn standard_config() -> Config {
        Config {
            delay: 10,
            emitters: Emitters::OffsetAndSource,
            table: TableLayout::standard_layout(),
            method: MethodLayout { method_pointer: 8, flags: 0x30 },
        }
    }

    /// The configuration that the dumper runs with unless it is told
    /// otherwise.
    pub fn standard() -> (config: Config)
        ensures
            config == Config::standard_config(),
    {
        Config {
            delay: 10,
            emitters: Emitters::OffsetAndSource,
            table: TableLayout::standard(),
            method: MethodLayout::standard(),
        }
    }
}

/// Where a run stands: the request whose answer it waits for.
#[derive(PartialEq, Eq, Structural, Clone, Copy, Debug)]
pub enum Stage {
    Sleeping,
    Console,
    Banner,
    Root,
    ExistsGame,
    ExistsPlayer,
    PathGame,
    LoadGame,
    ImageGame,
    PathPlayer,
    LoadPlayer,
    ImagePlayer,
    Table,
    Offsets,
    WriteOffsets,
    Summary,
    Images,
    Classes,
    WriteSource,
    Finishing,
    Done,
    Failed,
}

/// A run in progress.
pub struct HonkaiDumper {
    pub config: Config,
    pub stage: Stage,
    /// The handle of the library that is being loaded.
    pub handle: usize,
    pub game_assembly: Module,
    pub unity_player: Module,
    pub il2cpp_api: Il2CppApi,
    /// The walk that is under way, if one is.
    pub walker: Option<Walker>,
    /// The image header of the pseudo-source, once it has been gathered.
    pub header: String,
    /// The line that reports the number of methods, once it is known.
    pub summary: String,
}

/// A run as the contracts see it.
pub struct DumperView {
    pub config: Config,
    pub stage: Stage,
    pub handle: usize,
    pub game_assembly: Module,
    pub unity_player: Module,
    pub il2cpp_api: Il2CppApi,
    pub walker: Option<WalkerView>,
    pub header: Seq<char>,
    pub summary: Seq<char>,
}

impl View for HonkaiDumper {
    type V = DumperView;

    open spec fn view(&self) -> DumperView {
        DumperView {
            config: self.config,
            stage: self.stage,
            handle: self.handle,
            game_assembly: self.game_assembly,
            unity_player: self.unity_player,
            il2cpp_api: self.il2cpp_api,
            walker: match self.walker {
                Some(w) => Some(w@),
                None => None,
            },
            header: self.header@,
            summary: self.summary@,
        }
    }
}

/// The line that tells why a run was given up.
pub open spec fn failure_line(error: DumpError) -> Seq<char> {
    "honkai-dumper encountered an error: "@ + error.message_text()
}

/// The path in an answer, as bytes.
pub open spec fn answer_path(path: Option<Seq<char>>) -> Option<Seq<u8>> {
    match path {
        Some(p) => Some(vstd::utf8::encode_utf8(p)),
        None => None,
    }
}

impl DumperView {
    /// A run that has not begun: no library is loaded and no entry point
    /// is bound.
    pub open spec fn initial(config: Config) -> DumperView {
        DumperView {
            config,
            stage: Stage::Sleeping,
            handle: 0,
            game_assembly: Module { handle: 0, size: 0 },
            unity_player: Module { handle: 0, size: 0 },
            il2cpp_api: Il2CppApi {
                game_assembly: Module { handle: 0, size: 0 },
                unity_player: Module { handle: 0, size: 0 },
                functions: Il2CppFunctions::bind(Seq::empty(), config.table),
            },
            walker: None,
            header: Seq::empty(),
            summary: Seq::empty(),
        }
    }

    pub open spec fn at_stage(self, stage: Stage) -> DumperView {
        DumperView { stage, ..self }
    }

    /// The run is given up: the walk is dropped and the caller is told why.
    pub open spec fn failed(self, error: DumpError) -> (DumperView, RequestView) {
        (
            DumperView { stage: Stage::Failed, walker: None, ..self },
            RequestView::Fail { error, line: failure_line(error) },
        )
    }

    /// A walk is begun and the run waits for it in `stage`.
    pub open spec fn walking(self, mode: Mode, stage: Stage) -> (DumperView, RequestView) {
        let begun = WalkerView::initial(self.il2cpp_api, self.config.method, mode).asked(
            Phase::Domain,
            Entry::DomainGet,
            0,
            0,
        );
        match begun.1 {
            Step::Ask(query) => (
                DumperView { stage, walker: Some(begun.0), ..self },
                RequestView::Ask(query),
            ),
            Step::Failed(error) => self.failed(error),
            Step::Finished => self.failed(DumpError::Protocol),
        }
    }

    /// The offsets are complete: the serialized map goes to its file, or
    /// the run is given up where the serializer failed.
    pub open spec fn offsets_done(self, walker: WalkerView, rendered: Option<Seq<char>>) -> (
        DumperView,
        RequestView,
    ) {
        match rendered {
            Some(contents) => (
                DumperView {
                    stage: Stage::WriteOffsets,
                    walker: None,
                    summary: summary_text(walker.offsets.len()),
                    ..self
                },
                RequestView::Write { file: "methods.json"@, contents },
            ),
            None => self.failed(DumpError::Serialize),
        }
    }

    /// The image header is complete: it is kept and the classes are walked.
    pub open spec fn images_done(self, walker: WalkerView) -> (DumperView, RequestView) {
        DumperView { walker: None, header: walker.text, ..self }.walking(
            Mode::Classes,
            Stage::Classes,
        )
    }

    /// The class blocks are complete: header and blocks go to their file.
    pub open spec fn classes_done(self, walker: WalkerView) -> (DumperView, RequestView) {
        (
            DumperView { stage: Stage::WriteSource, walker: None, ..self },
            RequestView::Write { file: "dump.cs"@, contents: self.header + walker.text },
        )
    }

    /// The walk that is under way takes the answer. What it asks is handed
    /// on, its failure ends the run, and at its end the stage decides.
    pub open spec fn walked(self, response: ResponseView, rendered: Option<Seq<char>>) -> (
        DumperView,
        RequestView,
    ) {
        match self.walker {
            Some(walker) => {
                let next = walker.next(response);
                match next.1 {
                    Step::Ask(query) => (
                        DumperView { walker: Some(next.0), ..self },
                        RequestView::Ask(query),
                    ),
                    Step::Failed(error) => self.failed(error),
                    Step::Finished => match self.stage {
                        Stage::Offsets => self.offsets_done(next.0, rendered),
                        Stage::Images => self.images_done(next.0),
                        _ => self.classes_done(next.0),
                    },
                }
            },
            None => self.failed(DumpError::Protocol),
        }
    }

    /// An answer to the question whether something is there: the next
    /// request where it is, the given error where it is not.
    pub open spec fn found(
        self,
        response: ResponseView,
        missing: Il2CppError,
        stage: Stage,
        request: RequestView,
    ) -> (DumperView, RequestView) {
        match response {
            ResponseView::Flag(present) => if present {
                (self.at_stage(stage), request)
            } else {
                self.failed(DumpError::Runtime(missing))
            },
            _ => self.failed(DumpError::Protocol),
        }
    }

    /// An answer with the path of a library: the library is loaded under
    /// the path's native form.
    pub open spec fn named(self, response: ResponseView, stage: Stage) -> (DumperView, RequestView) {
        match response {
            ResponseView::Path(path) => match Module::native(answer_path(path)) {
                Ok(name) => (self.at_stage(stage), RequestView::Load { name }),
                Err(e) => self.failed(DumpError::Runtime(Il2CppError::Module(e))),
            },
            _ => self.failed(DumpError::Protocol),
        }
    }

    /// An answer with the handle of a library: a null handle is a failed
    /// load, of any other the image is queried.
    pub open spec fn mapped(self, response: ResponseView, stage: Stage) -> (DumperView, RequestView) {
        match response {
            ResponseView::Word(handle) => if handle == 0 {
                self.failed(DumpError::Runtime(Il2CppError::Module(ModuleError::LoadLibrary)))
            } else {
                (DumperView { stage, handle, ..self }, RequestView::Image { handle })
            },
            _ => self.failed(DumpError::Protocol),
        }
    }

    /// An answer to the question whether a file was written: the line is
    /// printed where it was, the run is given up where it was not.
    pub open spec fn written(self, response: ResponseView, stage: Stage, line: Seq<char>) -> (
        DumperView,
        RequestView,
    ) {
        match response {
            ResponseView::Flag(written) => if written {
                (self.at_stage(stage), RequestView::Print { line })
            } else {
                self.failed(DumpError::Io)
            },
            _ => self.failed(DumpError::Protocol),
        }
    }

    /// The run after one answer, and what it asks next. `rendered` is what
    /// the serializer made of the offsets, should the answer complete
    /// them: the text, or nothing where the serializer failed.
    pub open spec fn next(self, response: ResponseView, rendered: Option<Seq<char>>) -> (
        DumperView,
        RequestView,
    ) {
        match self.stage {
            Stage::Sleeping => (self.at_stage(Stage::Console), RequestView::OpenConsole),
            Stage::Console => (
                self.at_stage(Stage::Banner),
                RequestView::Print { line: "honkai-dumper"@ },
            ),
            Stage::Banner => (self.at_stage(Stage::Root), RequestView::Root),
            Stage::Root => self.found(
                response,
                Il2CppError::RootNotFound,
                Stage::ExistsGame,
                RequestView::Exists { library: Library::GameAssembly },
            ),
            Stage::ExistsGame => self.found(
                response,
                Il2CppError::FileNotFound(Library::GameAssembly),
                Stage::ExistsPlayer,
                RequestView::Exists { library: Library::UnityPlayer },
            ),
            Stage::ExistsPlayer => self.found(
                response,
                Il2CppError::FileNotFound(Library::UnityPlayer),
                Stage::PathGame,
                RequestView::Path { library: Library::GameAssembly },
            ),
            Stage::PathGame => self.named(response, Stage::LoadGame),
            Stage::LoadGame => self.mapped(response, Stage::ImageGame),
            Stage::ImageGame => match response {
                ResponseView::Image(image) => match Module::loaded(self.handle, image) {
                    Ok(module) => (
                        DumperView { stage: Stage::PathPlayer, game_assembly: module, ..self },
                        RequestView::Path { library: Library::UnityPlayer },
                    ),
                    Err(e) => self.failed(DumpError::Runtime(Il2CppError::Module(e))),
                },
                _ => self.failed(DumpError::Protocol),
            },
            Stage::PathPlayer => self.named(response, Stage::LoadPlayer),
            Stage::LoadPlayer => self.mapped(response, Stage::ImagePlayer),
            Stage::ImagePlayer => match response {
                ResponseView::Image(image) => match Module::loaded(self.handle, image) {
                    Ok(module) => (
                        DumperView { stage: Stage::Table, unity_player: module, ..self },
                        RequestView::ReadTable {
                            base: module.handle,
                            offset: self.config.table.offset,
                            count: self.config.table.slots(),
                        },
                    ),
                    Err(e) => self.failed(DumpError::Runtime(Il2CppError::Module(e))),
                },
                _ => self.failed(DumpError::Protocol),
            },
            Stage::Table => match response {
                ResponseView::Table(table) => DumperView {
                    il2cpp_api: Il2CppApi {
                        game_assembly: self.game_assembly,
                        unity_player: self.unity_player,
                        functions: Il2CppFunctions::bind(table, self.config.table),
                    },
                    ..self
                }.walking(Mode::Offsets, Stage::Offsets),
                _ => self.failed(DumpError::Protocol),
            },
            Stage::Offsets | Stage::Images | Stage::Classes => self.walked(response, rendered),
            Stage::WriteOffsets => self.written(response, Stage::Summary, self.summary),
            Stage::Summary => if self.config.emitters == Emitters::OffsetOnly {
                (self.at_stage(Stage::Finishing), RequestView::Print { line: "done"@ })
            } else {
                self.walking(Mode::Images, Stage::Images)
            },
            Stage::WriteSource => self.written(response, Stage::Finishing, "done"@),
            Stage::Finishing => (self.at_stage(Stage::Done), RequestView::Finish),
            Stage::Done | Stage::Failed => self.failed(DumpError::Protocol),
        }
    }

    /// What the serializer makes of the offsets that an answer completes.
    pub open spec fn rendering(self, response: ResponseView) -> Option<Seq<char>> {
        pretty_json(offset_members(self.walker->0.next(response).0.offsets))
    }
}

impl HonkaiDumper {
    /// While a walk is under way, the walk is sound.
    pub open spec fn wf(&self) -> bool {
        match self.stage {
            Stage::Offsets | Stage::Images | Stage::Classes => self.walker is Some
                && self.walker->0.wf(),
            _ => true,
        }
    }

    /// Begins a run: the first request is the wait for the runtime.
    pub fn new(config: Config) -> (begun: (HonkaiDumper, Request))
        ensures
            begun.0.wf(),
            begun.0@ == DumperView::initial(config),
            begun.1@ == (RequestView::Sleep { seconds: config.delay }),
    {
        let nowhere = Module { handle: 0, size: 0 };
        let table: Vec<usize> = Vec::new();
        let dumper = HonkaiDumper {
            config,
            stage: Stage::Sleeping,
            handle: 0,
            game_assembly: nowhere,
            unity_player: nowhere,
            il2cpp_api: Il2CppApi::new(nowhere, nowhere, &table, &config.table),
            walker: None,
            header: String::new(),
            summary: String::new(),
        };
        (dumper, Request::Sleep { seconds: config.delay })
    }

    /// Whether the run is over, well or not.
    pub fn is_over(&self) -> (over: bool)
        ensures
            over == (self.stage == Stage::Done || self.stage == Stage::Failed),
    {
        match self.stage {
            Stage::Done | Stage::Failed => true,
            _ => false,
        }
    }

    fn fail(self, error: DumpError) -> (next: (HonkaiDumper, Request))
        ensures
            next.0.wf(),
            (next.0@, next.1@) == self@.failed(error),
    {
        let mut dumper = self;
        dumper.stage = Stage::Failed;
        dumper.walker = None;
        let mut line = String::from_str("honkai-dumper encountered an error: ");
        let message = error.message();
        line.append(message.as_str());
        (dumper, Request::Fail { error, line })
    }

    fn go(self, stage: Stage, request: Request) -> (next: (HonkaiDumper, Request))
        requires
            stage != Stage::Offsets && stage != Stage::Images && stage != Stage::Classes,
        ensures
            next.0.wf(),
            next.0@ == self@.at_stage(stage),
            next.1 == request,
    {
        let mut dumper = self;
        dumper.stage = stage;
        (dumper, request)
    }

    fn walk(self, mode: Mode, stage: Stage) -> (next: (HonkaiDumper, Request))
        requires
            stage == Stage::Offsets || stage == Stage::Images || stage == Stage::Classes,
        ensures
            next.0.wf(),
            (next.0@, next.1@) == self@.walking(mode, stage),
    {
        let (walker, step) = Walker::new(self.il2cpp_api, self.config.method, mode);
        match step {
            Step::Ask(query) => {
                let mut dumper = self;
                dumper.stage = stage;
                dumper.walker = Some(walker);
                (dumper, Request::Ask(query))
            },
            Step::Failed(error) => self.fail(error),
            Step::Finished => self.fail(DumpError::Protocol),
        }
    }

    fn offsets_done(
        self,
        Ghost(walker): Ghost<WalkerView>,
        offsets: &MethodOffsets,
        rendered: Result<String, serde_json::Error>,
    ) -> (next: (HonkaiDumper, Request))
        requires
            offsets.wf(),
            walker.offsets == offsets@,
        ensures
            next.0.wf(),
            (next.0@, next.1@) == self@.offsets_done(walker, rendered_text(rendered)),
    {
        match report(offsets, rendered) {
            Ok(dump) => {
                let mut dumper = self;
                dumper.stage = Stage::WriteOffsets;
                dumper.walker = None;
                dumper.summary = dump.summary;
                (
                    dumper,
                    Request::Write { file: String::from_str("methods.json"), contents: dump.json },
                )
            },
            Err(error) => self.fail(error),
        }
    }

    #[verifier::rlimit(40)]
    fn walked(self, response: Response) -> (next: (HonkaiDumper, Request))
        requires
            self.wf(),
            self.stage == Stage::Offsets || self.stage == Stage::Images || self.stage
                == Stage::Classes,
        ensures
            next.0.wf(),
            (next.0@, next.1@) == self@.walked(response@, self@.rendering(response@)),
    {
        let ghost before = self@;
        let HonkaiDumper {
            config,
            stage,
            handle,
            game_assembly,
            unity_player,
            il2cpp_api,
            walker,
            header,
            summary,
        } = self;
        match walker {
            Some(walker) => {
                let (walker, step) = walker.resume(response);
                match step {
                    Step::Ask(query) => {
                        let dumper = HonkaiDumper {
                            config,
                            stage,
                            handle,
                            game_assembly,
                            unity_player,
                            il2cpp_api,
                            walker: Some(walker),
                            header,
                            summary,
                        };
                        (dumper, Request::Ask(query))
                    },
                    Step::Failed(error) => {
                        let dumper = HonkaiDumper {
                            config,
                            stage,
                            handle,
                            game_assembly,
                            unity_player,
                            il2cpp_api,
                            walker: None,
                            header,
                            summary,
                        };
                        dumper.fail(error)
                    },
                    Step::Finished => {
                        let ghost done = walker@;
                        match stage {
                            Stage::Offsets => {
                                let offsets = walker.into_offsets();
                                let rendered = render(&offsets);
                                let dumper = HonkaiDumper {
                                    config,
                                    stage,
                                    handle,
                                    game_assembly,
                                    unity_player,
                                    il2cpp_api,
                                    walker: None,
                                    header,
                                    summary,
                                };
                                assert(dumper@.offsets_done(done, None) == before.offsets_done(
                                    done,
                                    None,
                                ));
                                assert(forall|text: Seq<char>|
                                    dumper@.offsets_done(done, Some(text)) == before.offsets_done(
                                        done,
                                        Some(text),
                                    ));
                                dumper.offsets_done(Ghost(done), &offsets, rendered)
                            },
                            Stage::Images => {
                                let dumper = HonkaiDumper {
                                    config,
                                    stage,
                                    handle,
                                    game_assembly,
                                    unity_player,
                                    il2cpp_api,
                                    walker: None,
                                    header: walker.into_text(),
                                    summary,
                                };
                                dumper.walk(Mode::Classes, Stage::Classes)
                            },
                            _ => {
                                let mut contents = header.clone();
                                let blocks = walker.into_text();
                                contents.append(blocks.as_str());
                                let dumper = HonkaiDumper {
                                    config,
                                    stage: Stage::WriteSource,
                                    handle,
                                    game_assembly,
                                    unity_player,
                                    il2cpp_api,
                                    walker: None,
                                    header,
                                    summary,
                                };
                                (
                                    dumper,
                                    Request::Write { file: String::from_str("dump.cs"), contents },
                                )
                            },
                        }
                    },
                }
            },
            None => {
                let dumper = HonkaiDumper {
                    config,
                    stage,
                    handle,
                    game_assembly,
                    unity_player,
                    il2cpp_api,
                    walker: None,
                    header,
                    summary,
                };
                dumper.fail(DumpError::Protocol)
            },
        }
    }

    fn found(self, response: Response, missing: Il2CppError, stage: Stage, request: Request) -> (next:
        (HonkaiDumper, Request))
        requires
            stage != Stage::Offsets && stage != Stage::Images && stage != Stage::Classes,
        ensures
            next.0.wf(),
            (next.0@, next.1@) == self@.found(response@, missing, stage, request@),
    {
        match response {
            Response::Flag(present) => if present {
                self.go(stage, request)
            } else {
                self.fail(DumpError::Runtime(missing))
            },
            _ => self.fail(DumpError::Protocol),
        }
    }

    fn named(self, response: Response, stage: Stage) -> (next: (HonkaiDumper, Request))
        requires
            stage != Stage::Offsets && stage != Stage::Images && stage != Stage::Classes,
        ensures
            next.0.wf(),
            (next.0@, next.1@) == self@.named(response@, stage),
    {
        match response {
            Response::Path(path) => {
                let native = match &path {
                    Some(p) => Module::native_name(Some(p.as_str())),
                    None => Module::native_name(None),
                };
                match native {
                    Ok(name) => self.go(stage, Request::Load { name }),
                    Err(e) => self.fail(DumpError::Runtime(Il2CppError::Module(e))),
                }
            },
            _ => self.fail(DumpError::Protocol),
        }
    }

    fn mapped(self, response: Response, stage: Stage) -> (next: (HonkaiDumper, Request))
        requires
            stage != Stage::Offsets && stage != Stage::Images && stage != Stage::Classes,
        ensures
            next.0.wf(),
            (next.0@, next.1@) == self@.mapped(response@, stage),
    {
        match response {
            Response::Word(handle) => if handle == 0 {
                self.fail(DumpError::Runtime(Il2CppError::Module(ModuleError::LoadLibrary)))
            } else {
                let mut dumper = self;
                dumper.stage = stage;
                dumper.handle = handle;
                (dumper, Request::Image { handle })
            },
            _ => self.fail(DumpError::Protocol),
        }
    }

    fn on_image(self, response: Response) -> (next: (HonkaiDumper, Request))
        requires
            self.stage == Stage::ImageGame || self.stage == Stage::ImagePlayer,
        ensures
            next.0.wf(),
            (next.0@, next.1@) == self@.next(response@, None),
    {
        match response {
            Response::Image(image) => {
                match Module::load(self.handle, image) {
                    Ok(module) => self.imaged(module),
                    Err(e) => self.fail(DumpError::Runtime(Il2CppError::Module(e))),
                }
            },
            _ => self.fail(DumpError::Protocol),
        }
    }

    fn imaged(self, module: Module) -> (next: (HonkaiDumper, Request))
        requires
            self.stage == Stage::ImageGame || self.stage == Stage::ImagePlayer,
        ensures
            next.0.wf(),
            self.stage == Stage::ImageGame ==> next.0@ == (DumperView {
                stage: Stage::PathPlayer,
                game_assembly: module,
                ..self@
            }) && next.1@ == (RequestView::Path { library: Library::UnityPlayer }),
            self.stage == Stage::ImagePlayer ==> next.0@ == (DumperView {
                stage: Stage::Table,
                unity_player: module,
                ..self@
            }) && next.1@ == (RequestView::ReadTable {
                base: module.handle,
                offset: self.config.table.offset,
                count: self.config.table.slots(),
            }),
    {
        let mut dumper = self;
        match dumper.stage {
            Stage::ImageGame => {
                dumper.stage = Stage::PathPlayer;
                dumper.game_assembly = module;
                (dumper, Request::Path { library: Library::UnityPlayer })
            },
            _ => {
                dumper.stage = Stage::Table;
                dumper.unity_player = module;
                let request = Request::ReadTable {
                    base: module.handle,
                    offset: dumper.config.table.offset,
                    count: dumper.config.table.span(),
                };
                (dumper, request)
            },
        }
    }

    fn on_table(self, response: Response) -> (next: (HonkaiDumper, Request))
        requires
            self.stage == Stage::Table,
        ensures
            next.0.wf(),
            (next.0@, next.1@) == self@.next(response@, None),
    {
        match response {
            Response::Table(table) => {
                let mut dumper = self;
                dumper.il2cpp_api = Il2CppApi::new(
                    dumper.game_assembly,
                    dumper.unity_player,
                    &table,
                    &dumper.config.table,
                );
                dumper.walk(Mode::Offsets, Stage::Offsets)
            },
            _ => self.fail(DumpError::Protocol),
        }
    }

    fn written(self, response: Response, stage: Stage, line: String) -> (next: (
        HonkaiDumper,
        Request,
    ))
        requires
            stage != Stage::Offsets && stage != Stage::Images && stage != Stage::Classes,
        ensures
            next.0.wf(),
            (next.0@, next.1@) == self@.written(response@, stage, line@),
    {
        match response {
            Response::Flag(written) => if written {
                self.go(stage, Request::Print { line })
            } else {
                self.fail(DumpError::Io)
            },
            _ => self.fail(DumpError::Protocol),
        }
    }

    /// Takes the answer to the request that is open and says what the run
    /// asks next. After `Finish` or `Fail` the run is over.
    pub fn dump(self, response: Response) -> (next: (HonkaiDumper, Request))
        requires
            self.wf(),
        ensures
            next.0.wf(),
            (next.0@, next.1@) == self@.next(response@, self@.rendering(response@)),
    {
        match self.stage {
            Stage::Sleeping => self.go(Stage::Console, Request::OpenConsole),
            Stage::Console => self.go(
                Stage::Banner,
                Request::Print { line: String::from_str("honkai-dumper") },
            ),
            Stage::Banner => self.go(Stage::Root, Request::Root),
            Stage::Root => self.found(
                response,
                Il2CppError::RootNotFound,
                Stage::ExistsGame,
                Request::Exists { library: Library::GameAssembly },
            ),
            Stage::ExistsGame => self.found(
                response,
                Il2CppError::FileNotFound(Library::GameAssembly),
                Stage::ExistsPlayer,
                Request::Exists { library: Library::UnityPlayer },
            ),
            Stage::ExistsPlayer => self.found(
                response,
                Il2CppError::FileNotFound(Library::UnityPlayer),
                Stage::PathGame,
                Request::Path { library: Library::GameAssembly },
            ),
            Stage::PathGame => self.named(response, Stage::LoadGame),
            Stage::LoadGame => self.mapped(response, Stage::ImageGame),
            Stage::ImageGame => self.on_image(response),
            Stage::PathPlayer => self.named(response, Stage::LoadPlayer),
            Stage::LoadPlayer => self.mapped(response, Stage::ImagePlayer),
            Stage::ImagePlayer => self.on_image(response),
            Stage::Table => self.on_table(response),
            Stage::Offsets | Stage::Images | Stage::Classes => self.walked(response),
            Stage::WriteOffsets => {
                let line = self.summary.clone();
                self.written(response, Stage::Summary, line)
            },
            Stage::Summary => match self.config.emitters {
                Emitters::OffsetOnly => self.go(
                    Stage::Finishing,
                    Request::Print { line: String::from_str("done") },
                ),
                Emitters::OffsetAndSource => self.walk(Mode::Images, Stage::Images),
            },
            Stage::WriteSource => self.written(
                response,
                Stage::Finishing,
                String::from_str("done"),
            ),
            Stage::Finishing => self.go(Stage::Done, Request::Finish),
            Stage::Done | Stage::Failed => self.fail(DumpError::Protocol),
        }
    }
}

/// The run after a series of answers and what it asked last. With each
/// answer comes what the serializer made of the offsets at that step.
pub open spec fn replayed(
    start: (DumperView, RequestView),
    answers: Seq<(ResponseView, Option<Seq<char>>)>,
) -> (DumperView, RequestView)
    decreases answers.len(),
{
    if answers.len() == 0 {
        start
    } else {
        replayed(start, answers.drop_last()).0.next(answers.last().0, answers.last().1)
    }
}

/// A run is stable: two runs with the same configuration that are given
/// the same answers ask the same at every step, and so hand out the same
/// files, character for character.
pub proof fn lemma_run_is_stable(
    first: HonkaiDumper,
    second: HonkaiDumper,
    request: RequestView,
    answers: Seq<(ResponseView, Option<Seq<char>>)>,
)
    requires
        first@ == second@,
    ensures
        replayed((first@, request), answers) == replayed((second@, request), answers),
{
}

/// The number that the run reports is the number of keys in the file.
/// When an answer completes the offsets and the serializer yields a text,
/// the run asks for `methods.json` to be written with that text; once that
/// is done it prints the summary line, and the number in the line is the
/// number of members of the object that was serialized.
pub proof fn lemma_summary_counts_file(run: DumperView, answer: ResponseView)
    requires
        run.stage == Stage::Offsets,
        run.walker is Some,
        run.walker->0.next(answer).1 == Step::Finished,
    ensures
        ({
            let filed = run.walker->0.next(answer).0.offsets;
            let wrote = run.next(answer, run.rendering(answer));
            let printed = wrote.0.next(ResponseView::Flag(true), None);
            match pretty_json(offset_members(filed)) {
                Some(text) => {
                    &&& wrote.1 == (RequestView::Write {
                        file: "methods.json"@,
                        contents: text,
                    })
                    &&& printed.1 == (RequestView::Print {
                        line: summary_text(offset_members(filed).len()),
                    })
                },
                None => wrote == run.failed(DumpError::Serialize),
            }
        }),
{
}

} // verus!
