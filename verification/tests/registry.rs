use sitro::RenderError;
use sitro::Renderer;

const ALL: [Renderer; 8] = [
    Renderer::Pdfium,
    Renderer::Mupdf,
    Renderer::Poppler,
    Renderer::Quartz,
    Renderer::Pdfjs,
    Renderer::Pdfbox,
    Renderer::Ghostscript,
    Renderer::Hayro,
];

#[test]
fn names_of_all_backends() {
    let names: Vec<String> = ALL.iter().map(|r| r.name()).collect();
    assert_eq!(
        names,
        vec!["pdfium", "mupdf", "poppler", "quartz", "pdfjs", "pdfbox", "ghostscript", "hayro"]
    );
}

#[test]
fn colors_of_all_backends() {
    assert_eq!(Renderer::Pdfium.color(), (79, 184, 35));
    assert_eq!(Renderer::Mupdf.color(), (34, 186, 184));
    assert_eq!(Renderer::Poppler.color(), (227, 137, 20));
    assert_eq!(Renderer::Quartz.color(), (234, 250, 60));
    assert_eq!(Renderer::Pdfjs.color(), (48, 17, 207));
    assert_eq!(Renderer::Pdfbox.color(), (237, 38, 98));
    assert_eq!(Renderer::Ghostscript.color(), (235, 38, 218));
    assert_eq!(Renderer::Hayro.color(), (100, 149, 237));
}

#[test]
fn colors_are_distinct() {
    for (i, a) in ALL.iter().enumerate() {
        for b in ALL.iter().skip(i + 1) {
            assert_ne!(a.color(), b.color());
        }
    }
}

#[test]
fn config_keys() {
    assert_eq!(Renderer::Pdfium.config_key().as_deref(), Some("PDFIUM_BIN"));
    assert_eq!(Renderer::Mupdf.config_key().as_deref(), Some("MUPDF_BIN"));
    assert_eq!(Renderer::Poppler.config_key().as_deref(), Some("POPPLER_BIN"));
    assert_eq!(Renderer::Quartz.config_key().as_deref(), Some("QUARTZ_BIN"));
    assert_eq!(Renderer::Pdfjs.config_key().as_deref(), Some("PDFJS_BIN"));
    assert_eq!(Renderer::Pdfbox.config_key().as_deref(), Some("PDFBOX_BIN"));
    assert_eq!(Renderer::Ghostscript.config_key().as_deref(), Some("GHOSTSCRIPT_BIN"));
    assert_eq!(Renderer::Hayro.config_key(), None);
}

#[test]
fn output_patterns() {
    for r in [Renderer::Pdfium, Renderer::Mupdf, Renderer::Ghostscript] {
        assert_eq!(r.output_pattern().as_deref(), Some(r"(?m)out-(\d+).png"));
    }
    for r in [Renderer::Poppler, Renderer::Quartz, Renderer::Pdfjs, Renderer::Pdfbox] {
        assert_eq!(r.output_pattern().as_deref(), Some(r"(?m)-(\d+).png"));
    }
    assert_eq!(Renderer::Hayro.output_pattern(), None);
}

#[test]
fn only_hayro_is_embedded() {
    for r in ALL {
        assert_eq!(r.is_embedded(), r == Renderer::Hayro);
    }
}

#[test]
fn error_messages() {
    let e = RenderError::ConfigMissing { renderer: Renderer::Mupdf };
    assert_eq!(e.message(), "no path is configured for mupdf");
    let e = RenderError::ProcessSpawnFailed {
        renderer: Renderer::Quartz,
        reason: "No such file or directory".to_string(),
    };
    assert_eq!(e.message(), "failed to run quartz: No such file or directory");
    let e = RenderError::OutputScanFailed { renderer: Renderer::Pdfbox };
    assert_eq!(e.message(), "unable to list the output of pdfbox");
    assert_eq!(RenderError::DecodeFailed.message(), "unable to generate pixmap");
    let e = RenderError::PdfParseFailed { reason: "Invalid".to_string() };
    assert_eq!(e.message(), "failed to parse PDF: Invalid");
    let e = RenderError::ExportFailed { reason: "LimitsExceeded".to_string() };
    assert_eq!(e.message(), "PNG encoding failed: LimitsExceeded");
}
