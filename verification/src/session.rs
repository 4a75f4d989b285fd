//! A render in progress.
//!
//! A backend that is an external tool is driven in steps: the session says
//! what is to be done next (an [`Action`]), the caller does it and reports
//! what happened (an [`Event`]). The session never touches the file system
//! or a process itself; it decides. The embedded backend needs no tool and
//! no workspace: its session loads the document and asks for one page after
//! the other to be rendered.

use crate::command::command_line;
use crate::command::join;
use crate::command::spec_command_line;
use crate::command::spec_join;
use crate::command::CommandLine;
use crate::command::CommandView;
use crate::discover::is_read_order;
use crate::discover::lemma_read_order_is_unique;
use crate::discover::order_outputs;
use crate::discover::texts;
use crate::embedded::exported;
use crate::embedded::load_document;
use crate::embedded::loaded_document;
use crate::embedded::outcome_view;
use crate::embedded::page_count;
use crate::embedded::pdf_page_count;
use crate::embedded::spec_exported;
use crate::error::ErrorView;
use crate::error::RenderError;
use crate::renderer::RenderOptions;
use crate::renderer::RenderedDocument;
use crate::renderer::Renderer;
use hayro::hayro_syntax::Pdf;
use vstd::prelude::*;
use vstd::slice::slice_to_vec;

verus! {

/// Where a session stands, named by what it waits for.
#[derive(Copy, Clone, PartialEq, Eq, Structural, Debug)]
pub enum Phase {
    /// The path of the tool is to be looked up.
    Configure,
    /// The workspace is to be created.
    Stage,
    /// The document is to be written into the workspace.
    Write,
    /// The tool is to be run.
    Run,
    /// The entries of the workspace are to be listed.
    Scan,
    /// The next output file is to be read.
    Read,
    /// The workspace is to be destroyed.
    Clean,
    /// The next page of the loaded document is to be rendered.
    Render,
    /// Nothing is left to do.
    Done,
}

/// What the caller is to do next.
#[derive(Debug)]
pub enum Action {
    /// Look up the configuration key and report its value.
    ReadConfig { key: String },
    /// Create a fresh workspace directory and report its path.
    CreateWorkspace,
    /// Write the session's document to the file at `path`.
    WriteInput { path: String },
    /// Run the command to its end and report its standard error, or why
    /// it could not be started.
    Run { command: CommandLine },
    /// List the names of the entries of the directory at `path`.
    ListWorkspace { path: String },
    /// Read the file at `path` and report its contents.
    ReadFile { path: String },
    /// Destroy the workspace with all that is in it.
    DestroyWorkspace,
    /// Render the page at `index` of the session's loaded document at the
    /// scale of the options, encode it as PNG, and report the bytes or why
    /// it could not be encoded.
    RenderPage { index: usize },
    /// Take the outcome of the session.
    Finish,
}

/// The model of an [`Action`].
pub enum ActionView {
    ReadConfig { key: Seq<char> },
    CreateWorkspace,
    WriteInput { path: Seq<char> },
    Run { command: CommandView },
    ListWorkspace { path: Seq<char> },
    ReadFile { path: Seq<char> },
    DestroyWorkspace,
    RenderPage { index: nat },
    Finish,
}

impl View for Action {
    type V = ActionView;

    open spec fn view(&self) -> ActionView {
        match self {
            Action::ReadConfig { key } => ActionView::ReadConfig { key: key@ },
            Action::CreateWorkspace => ActionView::CreateWorkspace,
            Action::WriteInput { path } => ActionView::WriteInput { path: path@ },
            Action::Run { command } => ActionView::Run { command: command@ },
            Action::ListWorkspace { path } => ActionView::ListWorkspace { path: path@ },
            Action::ReadFile { path } => ActionView::ReadFile { path: path@ },
            Action::DestroyWorkspace => ActionView::DestroyWorkspace,
            Action::RenderPage { index } => ActionView::RenderPage { index: *index as nat },
            Action::Finish => ActionView::Finish,
        }
    }
}

/// What happened when the caller did what the session asked for.
#[derive(Debug)]
pub enum Event {
    /// The value of the configuration key, `None` where it is not set.
    Configured { binary: Option<String> },
    /// The workspace exists at `path`.
    WorkspaceCreated { path: String },
    /// The document is in the workspace.
    InputWritten,
    /// The tool ran to its end and wrote `diagnostics` to standard error.
    ProcessExited { diagnostics: Vec<u8> },
    /// The tool could not be started.
    SpawnFailed { reason: String },
    /// The names of the entries of the workspace in the order of listing,
    /// `None` where the workspace could not be listed.
    Listed { names: Option<Vec<String>> },
    /// The contents of the file that was asked for.
    FileRead { contents: Vec<u8> },
    /// The workspace is gone.
    WorkspaceDestroyed,
    /// The page that was asked for as PNG, or the text of the encoder's
    /// error.
    PageRendered { outcome: Result<Vec<u8>, String> },
}

/// The model of an [`Event`].
pub enum EventView {
    Configured { binary: Option<Seq<char>> },
    WorkspaceCreated { path: Seq<char> },
    InputWritten,
    ProcessExited { diagnostics: Seq<u8> },
    SpawnFailed { reason: Seq<char> },
    Listed { names: Option<Seq<Seq<char>>> },
    FileRead { contents: Seq<u8> },
    WorkspaceDestroyed,
    PageRendered { outcome: Result<Seq<u8>, Seq<char>> },
}

impl View for Event {
    type V = EventView;

    open spec fn view(&self) -> EventView {
        match self {
            Event::Configured { binary } => EventView::Configured {
                binary: match binary {
                    Some(path) => Some(path@),
                    None => None,
                },
            },
            Event::WorkspaceCreated { path } => EventView::WorkspaceCreated { path: path@ },
            Event::InputWritten => EventView::InputWritten,
            Event::ProcessExited { diagnostics } => EventView::ProcessExited {
                diagnostics: diagnostics@,
            },
            Event::SpawnFailed { reason } => EventView::SpawnFailed { reason: reason@ },
            Event::Listed { names } => EventView::Listed {
                names: match names {
                    Some(names) => Some(texts(names@)),
                    None => None,
                },
            },
            Event::FileRead { contents } => EventView::FileRead { contents: contents@ },
            Event::WorkspaceDestroyed => EventView::WorkspaceDestroyed,
            Event::PageRendered { outcome } => EventView::PageRendered {
                outcome: outcome_view(*outcome),
            },
        }
    }
}

/// The model of a [`Session`].
pub struct SessionView {
    /// The backend that renders.
    pub renderer: Renderer,
    /// What the session waits for.
    pub phase: Phase,
    /// The scale factor in decimal notation.
    pub scale: Seq<char>,
    /// The resolution in decimal notation.
    pub resolution: Seq<char>,
    /// The bytes of the document.
    pub document: Seq<u8>,
    /// The configured path of the tool.
    pub binary: Seq<char>,
    /// The path of the workspace.
    pub workspace: Seq<char>,
    /// Whether a workspace exists for this session.
    pub workspace_open: bool,
    /// What the tool wrote to standard error.
    pub diagnostics: Seq<u8>,
    /// The names of the output files in the order in which they are read.
    pub queue: Seq<Seq<char>>,
    /// The number of pages of the document that the embedded backend has
    /// loaded; zero for every other backend.
    pub page_total: nat,
    /// The pages read or rendered so far.
    pub pages: Seq<Seq<u8>>,
    /// Why the render failed, if it did.
    pub failure: Option<ErrorView>,
}

/// The views of the byte vectors, in their order.
pub open spec fn page_views(pages: Seq<Vec<u8>>) -> Seq<Seq<u8>> {
    Seq::new(pages.len(), |i: int| pages[i]@)
}

/// The names at the given positions, in the order of the positions.
pub open spec fn selected(names: Seq<Seq<char>>, order: Seq<usize>) -> Seq<Seq<char>> {
    Seq::new(order.len(), |k: int| names[order[k] as int])
}

/// Whether `queue` holds the names of the output files among `names` in the
/// order in which they are read.
pub open spec fn is_queue(pattern: Seq<char>, names: Seq<Seq<char>>, queue: Seq<Seq<char>>) -> bool {
    exists|order: Seq<usize>| #[trigger]
        is_read_order(pattern, names, order) && queue == selected(names, order)
}

impl SessionView {
    /// Whether the session has a workspace by its phase: from the moment
    /// the workspace is created until it is destroyed.
    pub open spec fn in_workspace(self) -> bool {
        self.phase is Write || self.phase is Run || self.phase is Scan || self.phase is Read
            || self.phase is Clean
    }

    /// What holds of every session.
    pub open spec fn wf(self) -> bool {
        &&& self.workspace_open <==> self.in_workspace()
        &&& self.renderer.spec_is_embedded() ==> {
            &&& self.phase is Render || self.phase is Done
            &&& self.pages.len() <= self.page_total
            &&& self.phase is Render ==> self.pages.len() < self.page_total
            &&& self.phase is Done && self.failure is None ==> self.pages.len()
                == self.page_total
        }
        &&& !self.renderer.spec_is_embedded() ==> {
            &&& !(self.phase is Render)
            &&& self.pages.len() <= self.queue.len()
            &&& self.phase is Read ==> self.pages.len() < self.queue.len()
            &&& (self.phase is Clean || self.phase is Done) && self.failure is None
                ==> self.pages.len() == self.queue.len()
            &&& !(self.phase is Read || self.phase is Clean || self.phase is Done)
                ==> self.queue.len() == 0 && self.pages.len() == 0
        }
        &&& !(self.phase is Clean || self.phase is Done) ==> self.failure is None
    }

    /// The session of a backend that is an external tool before anything
    /// was done.
    pub open spec fn initial(
        renderer: Renderer,
        document: Seq<u8>,
        scale: Seq<char>,
        resolution: Seq<char>,
    ) -> SessionView {
        SessionView {
            renderer,
            phase: Phase::Configure,
            scale,
            resolution,
            document,
            binary: Seq::empty(),
            workspace: Seq::empty(),
            workspace_open: false,
            diagnostics: Seq::empty(),
            queue: Seq::empty(),
            page_total: 0,
            pages: Seq::empty(),
            failure: None,
        }
    }

    /// The session of the embedded backend when it is made: the document
    /// is loaded. Where it cannot be loaded the session is finished with
    /// `PdfParseFailed` and the loader's diagnostic. A document without
    /// pages is finished with no page. Any other waits for its first page.
    pub open spec fn embedded_start(
        document: Seq<u8>,
        scale: Seq<char>,
        resolution: Seq<char>,
    ) -> SessionView {
        let blank = SessionView::initial(Renderer::Hayro, document, scale, resolution);
        match loaded_document(document) {
            Ok(count) => SessionView {
                phase: if count > 0 {
                    Phase::Render
                } else {
                    Phase::Done
                },
                page_total: count,
                ..blank
            },
            Err(reason) => SessionView {
                phase: Phase::Done,
                failure: Some(ErrorView::PdfParseFailed { reason }),
                ..blank
            },
        }
    }

    /// The session that a render begins with.
    pub open spec fn start(
        renderer: Renderer,
        document: Seq<u8>,
        scale: Seq<char>,
        resolution: Seq<char>,
    ) -> SessionView {
        if renderer.spec_is_embedded() {
            SessionView::embedded_start(document, scale, resolution)
        } else {
            SessionView::initial(renderer, document, scale, resolution)
        }
    }

    /// The path at which the document is staged.
    pub open spec fn input_path(self) -> Seq<char> {
        spec_join(self.workspace, "file.pdf"@)
    }

    /// The path of the workspace as a directory, ending in a separator.
    pub open spec fn output_dir(self) -> Seq<char> {
        spec_join(self.workspace, ""@)
    }

    /// What the caller is to do next.
    pub open spec fn action(self) -> ActionView {
        match self.phase {
            Phase::Configure => match self.renderer.spec_config_key() {
                Some(key) => ActionView::ReadConfig { key },
                None => ActionView::Finish,
            },
            Phase::Stage => ActionView::CreateWorkspace,
            Phase::Write => ActionView::WriteInput { path: self.input_path() },
            Phase::Run => match spec_command_line(
                self.renderer,
                self.binary,
                self.input_path(),
                self.output_dir(),
                self.scale,
                self.resolution,
            ) {
                Some(command) => ActionView::Run { command },
                None => ActionView::Finish,
            },
            Phase::Scan => ActionView::ListWorkspace { path: self.workspace },
            Phase::Read => ActionView::ReadFile {
                path: spec_join(self.workspace, self.queue[self.pages.len() as int]),
            },
            Phase::Clean => ActionView::DestroyWorkspace,
            Phase::Render => ActionView::RenderPage { index: self.pages.len() },
            Phase::Done => ActionView::Finish,
        }
    }

    /// Whether the event answers what the session waits for.
    pub open spec fn accepts(self, event: EventView) -> bool {
        match event {
            EventView::Configured { .. } => self.phase is Configure,
            EventView::WorkspaceCreated { .. } => self.phase is Stage,
            EventView::InputWritten => self.phase is Write,
            EventView::ProcessExited { .. } => self.phase is Run,
            EventView::SpawnFailed { .. } => self.phase is Run,
            EventView::Listed { .. } => self.phase is Scan,
            EventView::FileRead { .. } => self.phase is Read,
            EventView::WorkspaceDestroyed => self.phase is Clean,
            EventView::PageRendered { .. } => self.phase is Render,
        }
    }

    /// Whether `next` is the session that follows this one on an event that
    /// it accepts.
    ///
    /// A missing configuration ends the session at once. A tool that
    /// cannot be started, or a workspace that cannot be listed, is a
    /// failure that is kept until the workspace is destroyed. What the tool
    /// wrote to standard error is kept and is no failure. The output files
    /// are queued in their reading order, and each file read adds a page.
    /// A page that was rendered and encoded adds a page; one that could
    /// not be encoded ends the session with `ExportFailed` and the
    /// encoder's diagnostic.
    pub open spec fn steps_to(self, event: EventView, next: SessionView) -> bool {
        match event {
            EventView::Configured { binary } => match binary {
                Some(path) => next == (SessionView { binary: path, phase: Phase::Stage, ..self }),
                None => next == (SessionView {
                    phase: Phase::Done,
                    failure: Some(ErrorView::ConfigMissing { renderer: self.renderer }),
                    ..self
                }),
            },
            EventView::WorkspaceCreated { path } => next == (SessionView {
                workspace: path,
                workspace_open: true,
                phase: Phase::Write,
                ..self
            }),
            EventView::InputWritten => next == (SessionView { phase: Phase::Run, ..self }),
            EventView::ProcessExited { diagnostics } => next == (SessionView {
                diagnostics,
                phase: Phase::Scan,
                ..self
            }),
            EventView::SpawnFailed { reason } => next == (SessionView {
                failure: Some(ErrorView::ProcessSpawnFailed { renderer: self.renderer, reason }),
                phase: Phase::Clean,
                ..self
            }),
            EventView::Listed { names } => match names {
                Some(names) => match self.renderer.spec_output_pattern() {
                    Some(pattern) => is_queue(pattern, names, next.queue) && next == (SessionView {
                        queue: next.queue,
                        phase: if next.queue.len() > 0 {
                            Phase::Read
                        } else {
                            Phase::Clean
                        },
                        ..self
                    }),
                    None => next == (SessionView {
                        queue: Seq::empty(),
                        phase: Phase::Clean,
                        ..self
                    }),
                },
                None => next == (SessionView {
                    failure: Some(ErrorView::OutputScanFailed { renderer: self.renderer }),
                    phase: Phase::Clean,
                    ..self
                }),
            },
            EventView::FileRead { contents } => next == (SessionView {
                pages: self.pages.push(contents),
                phase: if self.pages.len() + 1 < self.queue.len() {
                    Phase::Read
                } else {
                    Phase::Clean
                },
                ..self
            }),
            EventView::WorkspaceDestroyed => next == (SessionView {
                workspace_open: false,
                phase: Phase::Done,
                ..self
            }),
            EventView::PageRendered { outcome } => match spec_exported(outcome) {
                Ok(page) => next == (SessionView {
                    pages: self.pages.push(page),
                    phase: if self.pages.len() + 1 < self.page_total {
                        Phase::Render
                    } else {
                        Phase::Done
                    },
                    ..self
                }),
                Err(e) => next == (SessionView { failure: Some(e), phase: Phase::Done, ..self }),
            },
        }
    }

    /// The outcome of a finished session: its failure, or else its pages.
    /// A session that is not finished has none.
    pub open spec fn outcome(self) -> Option<Result<Seq<Seq<u8>>, ErrorView>> {
        if self.phase is Done {
            match self.failure {
                Some(e) => Some(Err(e)),
                None => Some(Ok(self.pages)),
            }
        } else {
            None
        }
    }
}

/// A render in progress.
pub struct Session {
    renderer: Renderer,
    phase: Phase,
    scale: String,
    resolution: String,
    document: Vec<u8>,
    binary: String,
    workspace: String,
    workspace_open: bool,
    diagnostics: Vec<u8>,
    queue: Vec<String>,
    loaded: Option<Pdf>,
    page_total: usize,
    pages: Vec<Vec<u8>>,
    failure: Option<RenderError>,
}

impl View for Session {
    type V = SessionView;

    closed spec fn view(&self) -> SessionView {
        SessionView {
            renderer: self.renderer,
            phase: self.phase,
            scale: self.scale@,
            resolution: self.resolution@,
            document: self.document@,
            binary: self.binary@,
            workspace: self.workspace@,
            workspace_open: self.workspace_open,
            diagnostics: self.diagnostics@,
            queue: texts(self.queue@),
            page_total: self.page_total as nat,
            pages: page_views(self.pages@),
            failure: match self.failure {
                Some(e) => Some(e@),
                None => None,
            },
        }
    }
}

impl Session {
    #[verifier::type_invariant]
    spec fn well_formed(self) -> bool {
        &&& self@.wf()
        &&& self.loaded matches Some(pdf) ==> pdf_page_count(pdf) == self.page_total
        &&& self.phase is Render ==> self.loaded is Some
    }

    /// Begin to render a document with the given backend.
    ///
    /// For a backend that is an external tool the session waits for the
    /// tool's configuration; nothing has been done yet. For the embedded
    /// backend the document is loaded, and the session waits for its first
    /// page or is finished, as [`SessionView::embedded_start`] says.
    fn start(renderer: Renderer, buf: &[u8], options: &RenderOptions) -> (session: Session)
        ensures
            session@.wf(),
            session@ == SessionView::start(renderer, buf@, options.scale@, options.resolution@),
    {
        let mut phase = Phase::Configure;
        let mut loaded: Option<Pdf> = None;
        let mut page_total: usize = 0;
        let mut failure: Option<RenderError> = None;
        if renderer.is_embedded() {
            match load_document(buf) {
                Ok(pdf) => {
                    page_total = page_count(&pdf);
                    phase = if page_total > 0 {
                        Phase::Render
                    } else {
                        Phase::Done
                    };
                    loaded = Some(pdf);
                },
                Err(reason) => {
                    phase = Phase::Done;
                    failure = Some(RenderError::PdfParseFailed { reason });
                },
            }
        }
        let session = Session {
            renderer,
            phase,
            scale: options.scale.clone(),
            resolution: options.resolution.clone(),
            document: slice_to_vec(buf),
            binary: String::new(),
            workspace: String::new(),
            workspace_open: false,
            diagnostics: Vec::new(),
            queue: Vec::new(),
            loaded,
            page_total,
            pages: Vec::new(),
            failure,
        };
        assert(session@.queue =~= Seq::empty());
        assert(session@.pages =~= Seq::empty());
        session
    }

    /// The document that the embedded backend has loaded, of which the
    /// pages are rendered. A session that waits for a page has one.
    pub fn loaded(&self) -> (document: Option<&Pdf>)
        ensures
            self@.phase is Render ==> document is Some,
            document matches Some(pdf) ==> pdf_page_count(*pdf) == self@.page_total,
    {
        proof {
            use_type_invariant(self);
        }
        self.loaded.as_ref()
    }

    /// The backend that renders.
    pub fn renderer(&self) -> (renderer: Renderer)
        ensures
            renderer == self@.renderer,
    {
        self.renderer
    }

    /// What the session waits for.
    pub fn phase(&self) -> (phase: Phase)
        ensures
            phase == self@.phase,
    {
        self.phase
    }

    /// The bytes of the document that is rendered.
    pub fn document(&self) -> (bytes: &Vec<u8>)
        ensures
            bytes@ == self@.document,
    {
        &self.document
    }

    /// What the tool wrote to standard error. It is worth a warning where
    /// it is not empty, and is never a failure.
    pub fn diagnostics(&self) -> (bytes: &Vec<u8>)
        ensures
            bytes@ == self@.diagnostics,
    {
        &self.diagnostics
    }

    /// Whether nothing is left to do.
    pub fn is_done(&self) -> (done: bool)
        ensures
            done == (self@.phase is Done),
            done ==> !self@.workspace_open,
    {
        proof {
            use_type_invariant(self);
        }
        match self.phase {
            Phase::Done => true,
            _ => false,
        }
    }

    /// What the caller is to do next.
    pub fn action(&self) -> (action: Action)
        ensures
            self@.wf(),
            action@ == self@.action(),
    {
        proof {
            use_type_invariant(self);
        }
        match self.phase {
            Phase::Configure => match self.renderer.config_key() {
                Some(key) => Action::ReadConfig { key },
                None => Action::Finish,
            },
            Phase::Stage => Action::CreateWorkspace,
            Phase::Write => Action::WriteInput { path: join(self.workspace.as_str(), "file.pdf") },
            Phase::Run => {
                let input = join(self.workspace.as_str(), "file.pdf");
                let dir = join(self.workspace.as_str(), "");
                match command_line(
                    self.renderer,
                    self.binary.as_str(),
                    input.as_str(),
                    dir.as_str(),
                    self.scale.as_str(),
                    self.resolution.as_str(),
                ) {
                    Some(command) => Action::Run { command },
                    None => Action::Finish,
                }
            },
            Phase::Scan => Action::ListWorkspace { path: self.workspace.clone() },
            Phase::Read => {
                let next: usize = self.pages.len();
                Action::ReadFile { path: join(self.workspace.as_str(), self.queue[next].as_str()) }
            },
            Phase::Clean => Action::DestroyWorkspace,
            Phase::Render => Action::RenderPage { index: self.pages.len() },
            Phase::Done => Action::Finish,
        }
    }

    /// Whether the event answers what the session waits for.
    pub fn accepts(&self, event: &Event) -> (accepted: bool)
        ensures
            accepted == self@.accepts(event@),
    {
        match event {
            Event::Configured { .. } => matches!(self.phase, Phase::Configure),
            Event::WorkspaceCreated { .. } => matches!(self.phase, Phase::Stage),
            Event::InputWritten => matches!(self.phase, Phase::Write),
            Event::ProcessExited { .. } => matches!(self.phase, Phase::Run),
            Event::SpawnFailed { .. } => matches!(self.phase, Phase::Run),
            Event::Listed { .. } => matches!(self.phase, Phase::Scan),
            Event::FileRead { .. } => matches!(self.phase, Phase::Read),
            Event::WorkspaceDestroyed => matches!(self.phase, Phase::Clean),
            Event::PageRendered { .. } => matches!(self.phase, Phase::Render),
        }
    }

    /// Take note of what happened and move on.
    ///
    /// An event that does not answer what the session waits for changes
    /// nothing, and the result is `false`. Otherwise the session becomes
    /// the one that [`SessionView::steps_to`] describes.
    pub fn advance(self, event: Event) -> (result: (Session, bool))
        ensures
            result.1 == self@.accepts(event@),
            result.0@.wf(),
            !result.1 ==> result.0@ == self@,
            result.1 ==> self@.steps_to(event@, result.0@),
    {
        proof {
            use_type_invariant(&self);
        }
        if !self.accepts(&event) {
            return (self, false);
        }
        let ghost before = self@;
        let Session {
            renderer,
            phase: _,
            scale,
            resolution,
            document,
            mut binary,
            mut workspace,
            mut workspace_open,
            mut diagnostics,
            mut queue,
            loaded,
            page_total,
            mut pages,
            mut failure,
        } = self;
        let phase = match event {
            Event::Configured { binary: configured } => match configured {
                Some(path) => {
                    binary = path;
                    Phase::Stage
                },
                None => {
                    failure = Some(RenderError::ConfigMissing { renderer });
                    Phase::Done
                },
            },
            Event::WorkspaceCreated { path } => {
                workspace = path;
                workspace_open = true;
                Phase::Write
            },
            Event::InputWritten => Phase::Run,
            Event::ProcessExited { diagnostics: written } => {
                diagnostics = written;
                Phase::Scan
            },
            Event::SpawnFailed { reason } => {
                failure = Some(RenderError::ProcessSpawnFailed { renderer, reason });
                Phase::Clean
            },
            Event::Listed { names } => match names {
                Some(names) => {
                    queue = queue_outputs(renderer, &names);
                    if queue.len() > 0 {
                        Phase::Read
                    } else {
                        Phase::Clean
                    }
                },
                None => {
                    failure = Some(RenderError::OutputScanFailed { renderer });
                    Phase::Clean
                },
            },
            Event::FileRead { contents } => {
                pages.push(contents);
                assert(page_views(pages@) =~= before.pages.push(contents@));
                if pages.len() < queue.len() {
                    Phase::Read
                } else {
                    Phase::Clean
                }
            },
            Event::WorkspaceDestroyed => {
                workspace_open = false;
                Phase::Done
            },
            Event::PageRendered { outcome } => match exported(outcome) {
                Ok(page) => {
                    pages.push(page);
                    assert(page_views(pages@) =~= before.pages.push(page@));
                    if pages.len() < page_total {
                        Phase::Render
                    } else {
                        Phase::Done
                    }
                },
                Err(e) => {
                    failure = Some(e);
                    Phase::Done
                },
            },
        };
        let session = Session {
            renderer,
            phase,
            scale,
            resolution,
            document,
            binary,
            workspace,
            workspace_open,
            diagnostics,
            queue,
            loaded,
            page_total,
            pages,
            failure,
        };
        (session, true)
    }

    /// Take the outcome of a finished session: the pages in document order,
    /// or the failure. A session that is not finished has no outcome, and
    /// the result is `None`.
    pub fn finish(self) -> (result: Option<Result<RenderedDocument, RenderError>>)
        ensures
            match result {
                Some(Ok(pages)) => self@.outcome() == Some(
                    Ok::<Seq<Seq<u8>>, ErrorView>(page_views(pages@)),
                ),
                Some(Err(e)) => self@.outcome() == Some(Err::<Seq<Seq<u8>>, ErrorView>(e@)),
                None => self@.outcome() is None,
            },
    {
        match self.phase {
            Phase::Done => match self.failure {
                Some(e) => Some(Err(e)),
                None => Some(Ok(self.pages)),
            },
            _ => None,
        }
    }
}

/// The names of the backend's output files among the listed names, in the
/// order in which they are read. A backend that writes no files has none.
fn queue_outputs(renderer: Renderer, names: &Vec<String>) -> (queue: Vec<String>)
    ensures
        renderer.spec_output_pattern() matches Some(pattern) ==> is_queue(
            pattern,
            texts(names@),
            texts(queue@),
        ),
        renderer.spec_output_pattern() is None ==> queue@.len() == 0,
{
    let mut queue: Vec<String> = Vec::new();
    match renderer.output_pattern() {
        Some(pattern) => {
            let order = order_outputs(pattern.as_str(), names);
            let mut k: usize = 0;
            while k < order.len()
                invariant
                    0 <= k <= order.len(),
                    is_read_order(pattern@, texts(names@), order@),
                    queue@.len() == k,
                    forall|j: int| 0 <= j < k ==> queue@[j]@ == names@[order@[j] as int]@,
                decreases order.len() - k,
            {
                queue.push(names[order[k]].clone());
                k = k + 1;
            }
            assert(texts(queue@) =~= selected(texts(names@), order@));
            assert(renderer.spec_output_pattern() == Some(pattern@));
            assert(is_read_order(pattern@, texts(names@), order@));
            assert(is_queue(pattern@, texts(names@), texts(queue@)));
        },
        None => {},
    }
    queue
}

impl Renderer {
    /// Render a PDF file as a sequence of PNG images, using the specified
    /// renderer.
    ///
    /// The result is the session of the render. For an external tool it
    /// waits for the tool's configuration. For the embedded backend the
    /// document is loaded: the session waits for its first page, or is
    /// finished where the document has no page or cannot be loaded.
    pub fn render_as_png(&self, buf: &[u8], options: &RenderOptions) -> (session: Session)
        ensures
            session@.wf(),
            session@ == SessionView::start(*self, buf@, options.scale@, options.resolution@),
    {
        Session::start(*self, buf, options)
    }
}

/// Render a PDF file using hayro.
///
/// The document is loaded at once. The session is finished with
/// `PdfParseFailed` where it cannot be loaded, and with no page where it has
/// none; else it asks for each page in document order, and is finished with
/// all pages or with `ExportFailed` for the first that cannot be encoded.
pub fn render_hayro(buf: &[u8], options: &RenderOptions) -> (session: Session)
    ensures
        session@.wf(),
        session@ == SessionView::embedded_start(buf@, options.scale@, options.resolution@),
{
    Session::start(Renderer::Hayro, buf, options)
}

/// Render a PDF file using pdfium.
pub fn render_pdfium(buf: &[u8], options: &RenderOptions) -> (session: Session)
    ensures
        session@ == SessionView::initial(
            Renderer::Pdfium,
            buf@,
            options.scale@,
            options.resolution@,
        ),
{
    Session::start(Renderer::Pdfium, buf, options)
}

/// Render a PDF file using ghostscript.
pub fn render_ghostscript(buf: &[u8], options: &RenderOptions) -> (session: Session)
    ensures
        session@ == SessionView::initial(
            Renderer::Ghostscript,
            buf@,
            options.scale@,
            options.resolution@,
        ),
{
    Session::start(Renderer::Ghostscript, buf, options)
}

/// Render a PDF file using mupdf.
pub fn render_mupdf(buf: &[u8], options: &RenderOptions) -> (session: Session)
    ensures
        session@ == SessionView::initial(
            Renderer::Mupdf,
            buf@,
            options.scale@,
            options.resolution@,
        ),
{
    Session::start(Renderer::Mupdf, buf, options)
}

/// Render a PDF file using poppler.
pub fn render_poppler(buf: &[u8], options: &RenderOptions) -> (session: Session)
    ensures
        session@ == SessionView::initial(
            Renderer::Poppler,
            buf@,
            options.scale@,
            options.resolution@,
        ),
{
    Session::start(Renderer::Poppler, buf, options)
}

/// Render a PDF file using quartz.
pub fn render_quartz(buf: &[u8], options: &RenderOptions) -> (session: Session)
    ensures
        session@ == SessionView::initial(
            Renderer::Quartz,
            buf@,
            options.scale@,
            options.resolution@,
        ),
{
    Session::start(Renderer::Quartz, buf, options)
}

/// Render a PDF file using pdf.js.
pub fn render_pdfjs(buf: &[u8], options: &RenderOptions) -> (session: Session)
    ensures
        session@ == SessionView::initial(
            Renderer::Pdfjs,
            buf@,
            options.scale@,
            options.resolution@,
        ),
{
    Session::start(Renderer::Pdfjs, buf, options)
}

/// Render a PDF file using pdfbox.
pub fn render_pdfbox(buf: &[u8], options: &RenderOptions) -> (session: Session)
    ensures
        session@ == SessionView::initial(
            Renderer::Pdfbox,
            buf@,
            options.scale@,
            options.resolution@,
        ),
{
    Session::start(Renderer::Pdfbox, buf, options)
}

/// Whether `states` are the sessions that a render goes through on the
/// given events: each event is accepted by the session before it and leads
/// to the session after it.
pub open spec fn is_run(states: Seq<SessionView>, events: Seq<EventView>) -> bool {
    &&& states.len() == events.len() + 1
    &&& forall|i: int|
        #![trigger events[i]]
        0 <= i < events.len() ==> states[i].accepts(events[i]) && states[i].steps_to(
            events[i],
            states[i + 1],
        )
}

/// The session of an external tool is well formed before anything was
/// done.
pub proof fn lemma_initial_is_wf(
    renderer: Renderer,
    document: Seq<u8>,
    scale: Seq<char>,
    resolution: Seq<char>,
)
    requires
        !renderer.spec_is_embedded(),
    ensures
        SessionView::initial(renderer, document, scale, resolution).wf(),
{
}

/// A step keeps a session well formed.
pub proof fn lemma_step_keeps_wf(session: SessionView, event: EventView, next: SessionView)
    requires
        session.wf(),
        session.accepts(event),
        session.steps_to(event, next),
    ensures
        next.wf(),
{
}

/// An event leads a session to one session only: what follows is decided
/// by the session and the event.
pub proof fn lemma_step_is_determined(
    session: SessionView,
    event: EventView,
    next: SessionView,
    other: SessionView,
)
    requires
        session.steps_to(event, next),
        session.steps_to(event, other),
    ensures
        next == other,
{
    if let EventView::Listed { names: Some(names) } = event {
        if let Some(pattern) = session.renderer.spec_output_pattern() {
            let first = choose|order: Seq<usize>| #[trigger]
                is_read_order(pattern, names, order) && next.queue == selected(names, order);
            let second = choose|order: Seq<usize>| #[trigger]
                is_read_order(pattern, names, order) && other.queue == selected(names, order);
            lemma_read_order_is_unique(pattern, names, first, second);
        }
    }
}

/// The sessions of a run are decided by the session it begins with and
/// the events: two runs that begin alike and meet the same events go
/// through the same sessions.
pub proof fn lemma_run_is_determined(
    first: Seq<SessionView>,
    second: Seq<SessionView>,
    events: Seq<EventView>,
)
    requires
        is_run(first, events),
        is_run(second, events),
        first[0] == second[0],
    ensures
        first == second,
{
    assert forall|i: int| 0 <= i < first.len() implies first[i] == second[i] by {
        lemma_run_agrees(first, second, events, i);
    }
    assert(first =~= second);
}

proof fn lemma_run_agrees(
    first: Seq<SessionView>,
    second: Seq<SessionView>,
    events: Seq<EventView>,
    at: int,
)
    requires
        is_run(first, events),
        is_run(second, events),
        first[0] == second[0],
        0 <= at < first.len(),
    ensures
        first[at] == second[at],
    decreases at,
{
    if at > 0 {
        lemma_run_agrees(first, second, events, at - 1);
        let event = events[at - 1];
        lemma_step_is_determined(first[at - 1], event, first[at], second[at]);
    }
}

/// Every session of a run that begins well formed is well formed.
pub proof fn lemma_run_keeps_wf(states: Seq<SessionView>, events: Seq<EventView>, at: int)
    requires
        is_run(states, events),
        states[0].wf(),
        0 <= at < states.len(),
    ensures
        states[at].wf(),
    decreases at,
{
    if at > 0 {
        lemma_run_keeps_wf(states, events, at - 1);
        let event = events[at - 1];
        lemma_step_keeps_wf(states[at - 1], event, states[at]);
    }
}

/// The workspace of a render does not outlive it: whatever happened on the
/// way, a session that is finished has no workspace, and at every moment
/// before a workspace exists exactly from its creation to its destruction.
pub proof fn lemma_finished_run_leaves_no_workspace(
    states: Seq<SessionView>,
    events: Seq<EventView>,
)
    requires
        is_run(states, events),
        states[0].wf(),
    ensures
        forall|i: int|
            0 <= i < states.len() ==> ((#[trigger] states[i]).workspace_open
                <==> states[i].in_workspace()),
        states.last().phase is Done ==> !states.last().workspace_open,
        states.last().outcome() is Some ==> !states.last().workspace_open,
{
    assert forall|i: int| 0 <= i < states.len() implies ((#[trigger] states[i]).workspace_open
        <==> states[i].in_workspace()) by {
        lemma_run_keeps_wf(states, events, i);
    }
}

/// A tool whose path is not configured is never run: the first thing a
/// session asks for is the configuration, and where that is missing the
/// session is finished at once with `ConfigMissing` for its backend, without
/// a workspace having been asked for.
pub proof fn lemma_missing_configuration_ends_session(
    renderer: Renderer,
    document: Seq<u8>,
    scale: Seq<char>,
    resolution: Seq<char>,
    next: SessionView,
)
    requires
        !renderer.spec_is_embedded(),
        SessionView::initial(renderer, document, scale, resolution).steps_to(
            EventView::Configured { binary: None },
            next,
        ),
    ensures
        SessionView::initial(renderer, document, scale, resolution).action()
            is ReadConfig,
        !SessionView::initial(renderer, document, scale, resolution).workspace_open,
        next.outcome() == Some(
            Err::<Seq<Seq<u8>>, ErrorView>(ErrorView::ConfigMissing { renderer }),
        ),
        next.action() is Finish,
        !next.workspace_open,
{
}

/// A render by an external tool that succeeds holds one page for each
/// output file, in the order in which the files were queued.
pub proof fn lemma_success_holds_every_page(session: SessionView)
    requires
        session.wf(),
        !session.renderer.spec_is_embedded(),
        session.outcome() matches Some(Ok(_)),
    ensures
        session.outcome() == Some(Ok::<Seq<Seq<u8>>, ErrorView>(session.pages)),
        session.pages.len() == session.queue.len(),
{
}

/// A step changes neither the backend nor the number of pages of the
/// loaded document, and it never takes a page away.
pub proof fn lemma_step_keeps_document(session: SessionView, event: EventView, next: SessionView)
    requires
        session.accepts(event),
        session.steps_to(event, next),
    ensures
        next.renderer == session.renderer,
        next.page_total == session.page_total,
        next.document == session.document,
        session.pages.len() <= next.pages.len(),
        forall|i: int| 0 <= i < session.pages.len() ==> next.pages[i] == session.pages[i],
{
}

/// The embedded backend renders every page of the document: a run that
/// begins with the loading of a document of `count` pages and ends in
/// success holds exactly `count` pages.
pub proof fn lemma_embedded_success_holds_every_page(
    document: Seq<u8>,
    scale: Seq<char>,
    resolution: Seq<char>,
    states: Seq<SessionView>,
    events: Seq<EventView>,
    count: nat,
)
    requires
        is_run(states, events),
        states[0] == SessionView::embedded_start(document, scale, resolution),
        loaded_document(document) == Ok::<nat, Seq<char>>(count),
        states.last().outcome() matches Some(Ok(_)),
    ensures
        states.last().outcome() == Some(Ok::<Seq<Seq<u8>>, ErrorView>(states.last().pages)),
        states.last().pages.len() == count,
{
    lemma_run_keeps_wf(states, events, states.len() - 1);
    lemma_run_keeps_document(states, events, states.len() - 1);
}

/// Every session of a run is of the backend and the loaded document that
/// the run began with.
pub proof fn lemma_run_keeps_document(states: Seq<SessionView>, events: Seq<EventView>, at: int)
    requires
        is_run(states, events),
        0 <= at < states.len(),
    ensures
        states[at].renderer == states[0].renderer,
        states[at].page_total == states[0].page_total,
    decreases at,
{
    if at > 0 {
        lemma_run_keeps_document(states, events, at - 1);
        let event = events[at - 1];
        lemma_step_keeps_document(states[at - 1], event, states[at]);
    }
}

/// The embedded backend owes success where nothing is rendered: the
/// session of a document without pages is finished when it is made, with no
/// page and no failure.
pub proof fn lemma_embedded_without_pages_succeeds(
    document: Seq<u8>,
    scale: Seq<char>,
    resolution: Seq<char>,
)
    requires
        loaded_document(document) == Ok::<nat, Seq<char>>(0nat),
    ensures
        SessionView::embedded_start(document, scale, resolution).outcome() == Some(
            Ok::<Seq<Seq<u8>>, ErrorView>(Seq::empty()),
        ),
{
}

/// The session of the embedded backend is well formed when it is made.
pub proof fn lemma_embedded_start_is_wf(
    document: Seq<u8>,
    scale: Seq<char>,
    resolution: Seq<char>,
)
    ensures
        SessionView::embedded_start(document, scale, resolution).wf(),
{
}

} // verus!
