use sitro::command::CommandLine;
use sitro::render_ghostscript;
use sitro::render_pdfium;
use sitro::render_poppler;
use sitro::session::Action;
use sitro::session::Event;
use sitro::session::Phase;
use sitro::session::Session;
use sitro::RenderError;
use sitro::RenderOptions;
use sitro::Renderer;

fn options() -> RenderOptions {
    RenderOptions { scale: "1.75".to_string(), resolution: "126".to_string() }
}

fn step(session: Session, event: Event) -> Session {
    let (session, accepted) = session.advance(event);
    assert!(accepted);
    session
}

fn names(list: &[&str]) -> Option<Vec<String>> {
    Some(list.iter().map(|s| s.to_string()).collect())
}

fn staged(session: Session) -> Session {
    let session = step(session, Event::Configured { binary: Some("/bin/tool".to_string()) });
    let session = step(session, Event::WorkspaceCreated { path: "/tmp/sitro.1".to_string() });
    step(session, Event::InputWritten)
}

#[test]
fn a_session_begins_by_asking_for_its_configuration() {
    let session = render_pdfium(b"%PDF", &options());
    assert_eq!(session.renderer(), Renderer::Pdfium);
    assert_eq!(session.phase(), Phase::Configure);
    assert!(!session.is_done());
    assert_eq!(session.document().as_slice(), b"%PDF");
    assert!(matches!(session.action(), Action::ReadConfig { key } if key == "PDFIUM_BIN"));
    assert!(session.loaded().is_none());
    assert!(session.finish().is_none());
}

#[test]
fn a_tool_session_takes_no_rendered_page() {
    let session = render_pdfium(b"%PDF", &options());
    assert!(!session.accepts(&Event::PageRendered { outcome: Ok(vec![1]) }));
    let session = staged(session);
    let (session, accepted) = session.advance(Event::PageRendered { outcome: Ok(vec![1]) });
    assert!(!accepted);
    assert_eq!(session.phase(), Phase::Run);
}

#[test]
fn a_run_of_pdfium_step_by_step() {
    let session = render_pdfium(b"%PDF", &options());
    let session = step(session, Event::Configured { binary: Some("/bin/pdfium".to_string()) });
    assert!(matches!(session.action(), Action::CreateWorkspace));
    let session = step(session, Event::WorkspaceCreated { path: "/tmp/sitro.1".to_string() });
    assert!(
        matches!(session.action(), Action::WriteInput { path } if path == "/tmp/sitro.1/file.pdf")
    );
    let session = step(session, Event::InputWritten);
    match session.action() {
        Action::Run { command: CommandLine { program, args } } => {
            assert_eq!(program, "/bin/pdfium");
            assert_eq!(args, vec!["/tmp/sitro.1/file.pdf", "/tmp/sitro.1/out-%d.png", "1.75"]);
        }
        other => panic!("{:?}", other),
    }
    let session = step(session, Event::ProcessExited { diagnostics: Vec::new() });
    assert!(matches!(session.action(), Action::ListWorkspace { path } if path == "/tmp/sitro.1"));
    let listed = names(&["out-1.png", "file.pdf", "out-0.png"]);
    let session = step(session, Event::Listed { names: listed });
    assert!(
        matches!(session.action(), Action::ReadFile { path } if path == "/tmp/sitro.1/out-0.png")
    );
    let session = step(session, Event::FileRead { contents: vec![10] });
    assert!(
        matches!(session.action(), Action::ReadFile { path } if path == "/tmp/sitro.1/out-1.png")
    );
    let session = step(session, Event::FileRead { contents: vec![11] });
    assert!(matches!(session.action(), Action::DestroyWorkspace));
    assert!(!session.is_done());
    let session = step(session, Event::WorkspaceDestroyed);
    assert!(session.is_done());
    assert!(matches!(session.action(), Action::Finish));
    let pages = session.finish().unwrap().unwrap();
    assert_eq!(pages, vec![vec![10], vec![11]]);
}

#[test]
fn ghostscript_is_given_the_resolution() {
    let session = staged(render_ghostscript(b"x", &options()));
    match session.action() {
        Action::Run { command } => {
            assert_eq!(command.program, "/bin/tool");
            assert_eq!(command.args[6], "-r126");
            assert_eq!(command.args[7], "-sOutputFile=/tmp/sitro.1/out-%d.png");
            assert_eq!(command.args[8], "/tmp/sitro.1/file.pdf");
        }
        other => panic!("{:?}", other),
    }
}

#[test]
fn a_missing_configuration_ends_the_session_before_any_work() {
    let session = render_poppler(b"x", &options());
    let session = step(session, Event::Configured { binary: None });
    assert!(session.is_done());
    assert!(matches!(session.action(), Action::Finish));
    let outcome = session.finish().unwrap();
    assert!(matches!(
        outcome,
        Err(RenderError::ConfigMissing { renderer: Renderer::Poppler })
    ));
}

#[test]
fn every_tool_fails_with_config_missing_for_itself() {
    let tools = [
        Renderer::Pdfium,
        Renderer::Mupdf,
        Renderer::Poppler,
        Renderer::Quartz,
        Renderer::Pdfjs,
        Renderer::Pdfbox,
        Renderer::Ghostscript,
    ];
    for r in tools {
        let session = r.render_as_png(b"x", &options());
        assert!(matches!(session.action(), Action::ReadConfig { .. }));
        let session = step(session, Event::Configured { binary: None });
        match session.finish() {
            Some(Err(RenderError::ConfigMissing { renderer })) => assert_eq!(renderer, r),
            other => panic!("{:?}", other),
        }
    }
}

#[test]
fn a_tool_that_cannot_be_started_fails_after_the_workspace_is_destroyed() {
    let session = staged(render_pdfium(b"x", &options()));
    let session = step(session, Event::SpawnFailed { reason: "not found".to_string() });
    assert!(matches!(session.action(), Action::DestroyWorkspace));
    assert!(!session.is_done());
    assert!(session.finish().is_none());
    let session = staged(render_pdfium(b"x", &options()));
    let session = step(session, Event::SpawnFailed { reason: "not found".to_string() });
    let session = step(session, Event::WorkspaceDestroyed);
    assert!(session.is_done());
    match session.finish() {
        Some(Err(RenderError::ProcessSpawnFailed { renderer, reason })) => {
            assert_eq!(renderer, Renderer::Pdfium);
            assert_eq!(reason, "not found");
        }
        other => panic!("{:?}", other),
    }
}

#[test]
fn what_the_tool_writes_to_standard_error_is_no_failure() {
    let session = staged(render_pdfium(b"x", &options()));
    assert!(session.diagnostics().is_empty());
    let session = step(session, Event::ProcessExited { diagnostics: b"warning: font".to_vec() });
    assert_eq!(session.diagnostics().as_slice(), b"warning: font");
    assert!(matches!(session.action(), Action::ListWorkspace { .. }));
    let session = step(session, Event::Listed { names: names(&["out-0.png"]) });
    let session = step(session, Event::FileRead { contents: vec![1, 2, 3] });
    let session = step(session, Event::WorkspaceDestroyed);
    assert_eq!(session.finish().unwrap().unwrap(), vec![vec![1, 2, 3]]);
}

#[test]
fn a_workspace_that_cannot_be_listed_is_a_failure() {
    let session = staged(render_pdfium(b"x", &options()));
    let session = step(session, Event::ProcessExited { diagnostics: Vec::new() });
    let session = step(session, Event::Listed { names: None });
    assert!(matches!(session.action(), Action::DestroyWorkspace));
    let session = step(session, Event::WorkspaceDestroyed);
    assert!(matches!(
        session.finish(),
        Some(Err(RenderError::OutputScanFailed { renderer: Renderer::Pdfium }))
    ));
}

#[test]
fn no_output_file_is_an_empty_document() {
    let session = staged(render_pdfium(b"x", &options()));
    let session = step(session, Event::ProcessExited { diagnostics: Vec::new() });
    let session = step(session, Event::Listed { names: names(&["file.pdf"]) });
    assert!(matches!(session.action(), Action::DestroyWorkspace));
    let session = step(session, Event::WorkspaceDestroyed);
    assert_eq!(session.finish().unwrap().unwrap(), Vec::<Vec<u8>>::new());
}

#[test]
fn of_files_with_the_same_index_the_one_listed_last_is_the_page() {
    let session = staged(render_poppler(b"x", &options()));
    let session = step(session, Event::ProcessExited { diagnostics: Vec::new() });
    let listed = names(&["b-1.png", "a-1.png", "c-0.png"]);
    let session = step(session, Event::Listed { names: listed });
    let mut read = Vec::new();
    let mut session = session;
    while let Action::ReadFile { path } = session.action() {
        read.push(path.clone());
        session = step(session, Event::FileRead { contents: path.into_bytes() });
    }
    assert_eq!(read, vec!["/tmp/sitro.1/c-0.png", "/tmp/sitro.1/a-1.png"]);
    let session = step(session, Event::WorkspaceDestroyed);
    let pages = session.finish().unwrap().unwrap();
    assert_eq!(pages, vec![b"/tmp/sitro.1/c-0.png".to_vec(), b"/tmp/sitro.1/a-1.png".to_vec()]);
}

#[test]
fn an_event_out_of_turn_changes_nothing() {
    let session = render_pdfium(b"x", &options());
    assert!(!session.accepts(&Event::InputWritten));
    assert!(session.accepts(&Event::Configured { binary: None }));
    let (session, accepted) = session.advance(Event::WorkspaceDestroyed);
    assert!(!accepted);
    assert_eq!(session.phase(), Phase::Configure);
    let (session, accepted) = session.advance(Event::FileRead { contents: vec![1] });
    assert!(!accepted);
    assert!(matches!(session.action(), Action::ReadConfig { .. }));
    let session = staged(session);
    let (session, accepted) = session.advance(Event::Listed { names: names(&["out-0.png"]) });
    assert!(!accepted);
    assert_eq!(session.phase(), Phase::Run);
}

#[test]
fn a_finished_session_accepts_no_event() {
    let session = render_pdfium(b"x", &options());
    let session = step(session, Event::Configured { binary: None });
    for event in [
        Event::Configured { binary: None },
        Event::WorkspaceCreated { path: "/tmp/x".to_string() },
        Event::InputWritten,
        Event::ProcessExited { diagnostics: Vec::new() },
        Event::SpawnFailed { reason: String::new() },
        Event::Listed { names: None },
        Event::FileRead { contents: Vec::new() },
        Event::WorkspaceDestroyed,
        Event::PageRendered { outcome: Ok(Vec::new()) },
    ] {
        assert!(!session.accepts(&event));
    }
}

#[test]
fn the_phases_of_a_run_hold_a_workspace_from_creation_to_destruction() {
    let mut phases = Vec::new();
    let mut session = render_pdfium(b"x", &options());
    let events = vec![
        Event::Configured { binary: Some("bin".to_string()) },
        Event::WorkspaceCreated { path: "/tmp/w".to_string() },
        Event::InputWritten,
        Event::ProcessExited { diagnostics: Vec::new() },
        Event::Listed { names: names(&["out-0.png"]) },
        Event::FileRead { contents: vec![0] },
        Event::WorkspaceDestroyed,
    ];
    phases.push(session.phase());
    for event in events {
        session = step(session, event);
        phases.push(session.phase());
    }
    assert_eq!(
        phases,
        vec![
            Phase::Configure,
            Phase::Stage,
            Phase::Write,
            Phase::Run,
            Phase::Scan,
            Phase::Read,
            Phase::Clean,
            Phase::Done,
        ]
    );
}
