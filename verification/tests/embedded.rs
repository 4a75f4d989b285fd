use sitro::render_hayro;
use sitro::session::Action;
use sitro::session::Event;
use sitro::session::Phase;
use sitro::session::Session;
use sitro::RenderError;
use sitro::RenderOptions;
use sitro::RenderedDocument;
use sitro::Renderer;

fn options(scale: f32) -> RenderOptions {
    RenderOptions { scale: scale.to_string(), resolution: (72.0 * scale).to_string() }
}

fn sample_pdf(pages: usize) -> Vec<u8> {
    let mut objects: Vec<String> = Vec::new();
    objects.push("<< /Type /Catalog /Pages 2 0 R >>".to_string());
    let kids: Vec<String> = (0..pages).map(|i| format!("{} 0 R", 3 + i)).collect();
    objects.push(format!("<< /Type /Pages /Kids [{}] /Count {} >>", kids.join(" "), pages));
    for i in 0..pages {
        objects.push(format!(
            "<< /Type /Page /Parent 2 0 R /MediaBox [0 0 {} 10] /Resources << >> >>",
            20 + i
        ));
    }
    let mut out = String::from("%PDF-1.4\n");
    let mut offsets = Vec::new();
    for (i, body) in objects.iter().enumerate() {
        offsets.push(out.len());
        out.push_str(&format!("{} 0 obj\n{}\nendobj\n", i + 1, body));
    }
    let xref = out.len();
    out.push_str(&format!("xref\n0 {}\n0000000000 65535 f \n", objects.len() + 1));
    for offset in &offsets {
        out.push_str(&format!("{:010} 00000 n \n", offset));
    }
    out.push_str(&format!(
        "trailer\n<< /Size {} /Root 1 0 R >>\nstartxref\n{}\n%%EOF\n",
        objects.len() + 1,
        xref
    ));
    out.into_bytes()
}

fn rasterize(session: &Session, index: usize, scale: f32) -> Result<Vec<u8>, String> {
    let pdf = session.loaded().unwrap();
    let settings = hayro::PixmapSettings { x_scale: scale, y_scale: scale, ..Default::default() };
    let pixmap = hayro::render(
        &pdf.pages()[index],
        &hayro::RenderCache::new(),
        &hayro::hayro_interpret::InterpreterSettings::default(),
        &hayro::RenderSettings::default(),
        &settings,
    );
    pixmap.into_png().map_err(|e| format!("{:?}", e))
}

fn run(document: &[u8], scale: f32) -> Result<RenderedDocument, RenderError> {
    let mut session = render_hayro(document, &options(scale));
    let mut asked = Vec::new();
    while let Action::RenderPage { index } = session.action() {
        asked.push(index);
        let outcome = rasterize(&session, index, scale);
        let (next, accepted) = session.advance(Event::PageRendered { outcome });
        assert!(accepted);
        session = next;
    }
    assert!(session.is_done());
    assert!(asked.iter().enumerate().all(|(i, index)| i == *index));
    session.finish().unwrap()
}

fn size_of(png: &[u8]) -> (u32, u32) {
    let pixmap = tiny_skia::Pixmap::decode_png(png).unwrap();
    (pixmap.width(), pixmap.height())
}

#[test]
fn hayro_renders_one_image_for_each_page() {
    for count in [1usize, 2, 3] {
        let pages = run(&sample_pdf(count), 1.0).unwrap();
        assert_eq!(pages.len(), count);
    }
}

#[test]
fn hayro_renders_the_pages_in_document_order() {
    let pages = run(&sample_pdf(3), 1.0).unwrap();
    let sizes: Vec<(u32, u32)> = pages.iter().map(|p| size_of(p)).collect();
    assert_eq!(sizes, vec![(20, 10), (21, 10), (22, 10)]);
}

#[test]
fn hayro_applies_the_scale_to_both_axes() {
    let pages = run(&sample_pdf(1), 2.0).unwrap();
    assert_eq!(size_of(&pages[0]), (40, 20));
    let pages = run(&sample_pdf(1), 1.5).unwrap();
    assert_eq!(size_of(&pages[0]), (30, 15));
}

#[test]
fn hayro_gives_the_same_bytes_each_time() {
    let document = sample_pdf(2);
    let first = run(&document, 1.75).unwrap();
    let second = run(&document, 1.75).unwrap();
    assert_eq!(first.len(), 2);
    assert_eq!(first, second);
}

#[test]
fn hayro_rejects_what_is_no_document() {
    let session = render_hayro(b"this is not a PDF", &options(1.0));
    assert!(session.is_done());
    assert!(session.loaded().is_none());
    assert!(matches!(session.action(), Action::Finish));
    match session.finish() {
        Some(Err(RenderError::PdfParseFailed { reason })) => assert_eq!(reason, "Invalid"),
        other => panic!("{:?}", other.map(|r| r.map(|pages| pages.len()))),
    }
    assert!(matches!(run(b"", 1.0), Err(RenderError::PdfParseFailed { .. })));
}

#[test]
fn a_document_without_pages_is_rendered_at_once() {
    let session = render_hayro(&sample_pdf(0), &options(1.0));
    assert!(session.is_done());
    assert!(matches!(session.action(), Action::Finish));
    assert_eq!(session.finish().unwrap().unwrap(), Vec::<Vec<u8>>::new());
}

#[test]
fn the_session_asks_for_each_page_in_turn() {
    let session = Renderer::Hayro.render_as_png(&sample_pdf(2), &options(1.0));
    assert_eq!(session.renderer(), Renderer::Hayro);
    assert_eq!(session.phase(), Phase::Render);
    assert_eq!(session.loaded().unwrap().pages().len(), 2);
    assert!(!session.is_done());
    assert!(matches!(session.action(), Action::RenderPage { index: 0 }));
    let (session, accepted) = session.advance(Event::PageRendered { outcome: Ok(vec![1]) });
    assert!(accepted);
    assert!(matches!(session.action(), Action::RenderPage { index: 1 }));
    assert!(session.finish().is_none());
    let session = Renderer::Hayro.render_as_png(&sample_pdf(2), &options(1.0));
    let (session, _) = session.advance(Event::PageRendered { outcome: Ok(vec![1]) });
    let (session, accepted) = session.advance(Event::PageRendered { outcome: Ok(vec![2, 3]) });
    assert!(accepted);
    assert!(session.is_done());
    assert_eq!(session.finish().unwrap().unwrap(), vec![vec![1], vec![2, 3]]);
}

#[test]
fn a_page_that_cannot_be_encoded_ends_the_session() {
    let session = render_hayro(&sample_pdf(3), &options(1.0));
    let (session, _) = session.advance(Event::PageRendered { outcome: Ok(vec![1]) });
    let outcome = Err("LimitsExceeded".to_string());
    let (session, accepted) = session.advance(Event::PageRendered { outcome });
    assert!(accepted);
    assert!(session.is_done());
    assert!(!session.accepts(&Event::PageRendered { outcome: Ok(vec![2]) }));
    match session.finish() {
        Some(Err(RenderError::ExportFailed { reason })) => assert_eq!(reason, "LimitsExceeded"),
        other => panic!("{:?}", other.map(|r| r.map(|pages| pages.len()))),
    }
}

#[test]
fn a_raster_without_pixels_is_refused_by_the_encoder() {
    for scale in [0.0, -1.0, f32::NAN, 0.001] {
        match run(&sample_pdf(2), scale) {
            Err(RenderError::ExportFailed { reason }) => assert!(reason.contains("ZeroWidth")),
            other => panic!("{:?}", other.map(|pages| pages.len())),
        }
    }
}

#[test]
fn the_session_of_hayro_has_no_workspace_and_no_tool() {
    let session = render_hayro(&sample_pdf(1), &options(1.0));
    for event in [
        Event::Configured { binary: Some("bin".to_string()) },
        Event::WorkspaceCreated { path: "/tmp/x".to_string() },
        Event::InputWritten,
        Event::ProcessExited { diagnostics: Vec::new() },
        Event::SpawnFailed { reason: String::new() },
        Event::Listed { names: None },
        Event::FileRead { contents: Vec::new() },
        Event::WorkspaceDestroyed,
    ] {
        assert!(!session.accepts(&event));
    }
    let (session, accepted) = session.advance(Event::WorkspaceDestroyed);
    assert!(!accepted);
    assert_eq!(session.phase(), Phase::Render);
    assert!(matches!(session.action(), Action::RenderPage { index: 0 }));
}
