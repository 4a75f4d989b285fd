use sitro::command::command_line;
use sitro::command::ghostscript_command;
use sitro::command::join;
use sitro::command::mupdf_command;
use sitro::command::pdfbox_command;
use sitro::command::pdfium_command;
use sitro::command::pdfjs_command;
use sitro::command::poppler_command;
use sitro::command::quartz_command;
use sitro::Renderer;

const INPUT: &str = "/tmp/w/file.pdf";
const DIR: &str = "/tmp/w/";

#[test]
fn join_adds_one_separator() {
    assert_eq!(join("/tmp/w", "file.pdf"), "/tmp/w/file.pdf");
    assert_eq!(join("/tmp/w/", "file.pdf"), "/tmp/w/file.pdf");
    assert_eq!(join("/tmp/w", ""), "/tmp/w/");
    assert_eq!(join("/tmp/w/", ""), "/tmp/w/");
    assert_eq!(join("", "out"), "out");
    assert_eq!(join("/", "out"), "/out");
}

#[test]
fn join_agrees_with_std_on_relative_names() {
    for dir in ["/tmp/w", "/tmp/w/", "", "/", "rel", "rel/"] {
        for name in ["file.pdf", "out-%d.png", "out", ""] {
            let expected = std::path::Path::new(dir).join(name);
            assert_eq!(join(dir, name), expected.to_str().unwrap());
        }
    }
}

#[test]
fn pdfium_takes_input_pattern_scale() {
    let c = pdfium_command("/bin/pdfium", INPUT, DIR, "1.75");
    assert_eq!(c.program, "/bin/pdfium");
    assert_eq!(c.args, vec![INPUT, "/tmp/w/out-%d.png", "1.75"]);
}

#[test]
fn ghostscript_takes_switches_resolution_pattern_input() {
    let c = ghostscript_command("/bin/gs", INPUT, DIR, "126");
    assert_eq!(c.program, "/bin/gs");
    assert_eq!(
        c.args,
        vec![
            "-dNOPAUSE",
            "-sDEVICE=png16m",
            "-dGraphicsAlphaBits=4",
            "-dTextAlphaBits=4",
            "-sDEVICE=png16m",
            "-dBATCH",
            "-r126",
            "-sOutputFile=/tmp/w/out-%d.png",
            INPUT,
        ]
    );
}

#[test]
fn mupdf_takes_draw_resolution_pattern_input() {
    let c = mupdf_command("/bin/mutool", INPUT, DIR, "72");
    assert_eq!(c.program, "/bin/mutool");
    assert_eq!(c.args, vec!["draw", "-q", "-r", "72", "-o", "/tmp/w/out-%d.png", INPUT]);
}

#[test]
fn poppler_takes_resolution_input_prefix() {
    let c = poppler_command("/bin/pdftoppm", INPUT, DIR, "144");
    assert_eq!(c.program, "/bin/pdftoppm");
    assert_eq!(c.args, vec!["-r", "144", "-png", INPUT, "/tmp/w/out"]);
}

#[test]
fn quartz_takes_input_directory_scale() {
    let c = quartz_command("/bin/quartz_render", INPUT, DIR, "2");
    assert_eq!(c.program, "/bin/quartz_render");
    assert_eq!(c.args, vec![INPUT, DIR, "2"]);
}

#[test]
fn pdfjs_is_run_by_node() {
    let c = pdfjs_command("/opt/pdfjs_render.mjs", INPUT, DIR, "1");
    assert_eq!(c.program, "node");
    assert_eq!(c.args, vec!["/opt/pdfjs_render.mjs", INPUT, DIR, "1"]);
}

#[test]
fn pdfbox_is_run_by_java() {
    let c = pdfbox_command("/opt/pdfbox.jar", INPUT, "72");
    assert_eq!(c.program, "java");
    assert_eq!(
        c.args,
        vec!["-jar", "/opt/pdfbox.jar", "render", "-format", "png", "-i", INPUT, "-dpi", "72"]
    );
}

#[test]
fn each_tool_is_given_the_unit_it_takes() {
    let by_scale = [Renderer::Pdfium, Renderer::Quartz, Renderer::Pdfjs];
    let by_resolution =
        [Renderer::Mupdf, Renderer::Poppler, Renderer::Pdfbox, Renderer::Ghostscript];
    for r in by_scale {
        let c = command_line(r, "bin", INPUT, DIR, "SCALE", "DPI").unwrap();
        assert!(c.args.iter().any(|a| a == "SCALE"));
        assert!(!c.args.iter().any(|a| a.contains("DPI")));
    }
    for r in by_resolution {
        let c = command_line(r, "bin", INPUT, DIR, "SCALE", "DPI").unwrap();
        assert!(c.args.iter().any(|a| a.contains("DPI")));
        assert!(!c.args.iter().any(|a| a == "SCALE"));
    }
}

#[test]
fn the_embedded_backend_has_no_command() {
    assert!(command_line(Renderer::Hayro, "bin", INPUT, DIR, "1", "72").is_none());
}

#[test]
fn dispatch_picks_the_template_of_the_backend() {
    let c = command_line(Renderer::Mupdf, "m", INPUT, DIR, "1", "72").unwrap();
    let d = mupdf_command("m", INPUT, DIR, "72");
    assert_eq!((c.program, c.args), (d.program, d.args));
    let c = command_line(Renderer::Pdfbox, "b", INPUT, DIR, "1", "72").unwrap();
    let d = pdfbox_command("b", INPUT, "72");
    assert_eq!((c.program, c.args), (d.program, d.args));
}
