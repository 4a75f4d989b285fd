//! The command line of each backend's tool: which program is started and
//! with which arguments, given the tool's configured path, the staged input
//! file, the directory for the output and the scale.

use crate::renderer::Renderer;
use vstd::prelude::*;
use vstd::string::StrSliceExecFns;
use vstd::string::StringExecFns;

verus! {

/// A program and the arguments it is started with.
#[derive(Debug)]
pub struct CommandLine {
    /// The program to start.
    pub program: String,
    /// Its arguments, in order.
    pub args: Vec<String>,
}

/// The model of a [`CommandLine`].
pub struct CommandView {
    pub program: Seq<char>,
    pub args: Seq<Seq<char>>,
}

impl View for CommandLine {
    type V = CommandView;

    open spec fn view(&self) -> CommandView {
        CommandView {
            program: self.program@,
            args: Seq::new(self.args@.len(), |i: int| self.args@[i]@),
        }
    }
}

/// The path of the entry `name` in the directory `dir`: the two joined by
/// one `/`, which is left out where `dir` is empty or ends in one.
pub open spec fn spec_join(dir: Seq<char>, name: Seq<char>) -> Seq<char> {
    if dir.len() == 0 || dir.last() == '/' {
        dir + name
    } else {
        dir + "/"@ + name
    }
}

/// Join a directory and the name of an entry in it to one path.
pub fn join(dir: &str, name: &str) -> (path: String)
    ensures
        path@ == spec_join(dir@, name@),
{
    let length: usize = dir.unicode_len();
    let mut path = dir.to_owned();
    if length > 0 && dir.get_char(length - 1) != '/' {
        path.append("/");
    }
    path.append(name);
    path
}

/// The command line of pdfium: the input, the output file pattern, the
/// scale.
pub open spec fn spec_pdfium_command(
    binary: Seq<char>,
    input: Seq<char>,
    dir: Seq<char>,
    scale: Seq<char>,
) -> CommandView {
    CommandView { program: binary, args: seq![input, spec_join(dir, "out-%d.png"@), scale] }
}

/// The command line of ghostscript: its switches, the resolution, the
/// output file pattern, the input.
pub open spec fn spec_ghostscript_command(
    binary: Seq<char>,
    input: Seq<char>,
    dir: Seq<char>,
    resolution: Seq<char>,
) -> CommandView {
    CommandView {
        program: binary,
        args: seq![
            "-dNOPAUSE"@,
            "-sDEVICE=png16m"@,
            "-dGraphicsAlphaBits=4"@,
            "-dTextAlphaBits=4"@,
            "-sDEVICE=png16m"@,
            "-dBATCH"@,
            "-r"@ + resolution,
            "-sOutputFile="@ + spec_join(dir, "out-%d.png"@),
            input,
        ],
    }
}

/// The command line of mupdf: the `draw` command, quiet, the resolution,
/// the output file pattern, the input.
pub open spec fn spec_mupdf_command(
    binary: Seq<char>,
    input: Seq<char>,
    dir: Seq<char>,
    resolution: Seq<char>,
) -> CommandView {
    CommandView {
        program: binary,
        args: seq![
            "draw"@,
            "-q"@,
            "-r"@,
            resolution,
            "-o"@,
            spec_join(dir, "out-%d.png"@),
            input,
        ],
    }
}

/// The command line of poppler: the resolution, the PNG switch, the input,
/// the prefix of the output files.
pub open spec fn spec_poppler_command(
    binary: Seq<char>,
    input: Seq<char>,
    dir: Seq<char>,
    resolution: Seq<char>,
) -> CommandView {
    CommandView {
        program: binary,
        args: seq!["-r"@, resolution, "-png"@, input, spec_join(dir, "out"@)],
    }
}

/// The command line of quartz: the input, the output directory, the scale.
pub open spec fn spec_quartz_command(
    binary: Seq<char>,
    input: Seq<char>,
    dir: Seq<char>,
    scale: Seq<char>,
) -> CommandView {
    CommandView { program: binary, args: seq![input, dir, scale] }
}

/// The command line of pdf.js: `node` runs the configured script with the
/// input, the output directory and the scale.
pub open spec fn spec_pdfjs_command(
    binary: Seq<char>,
    input: Seq<char>,
    dir: Seq<char>,
    scale: Seq<char>,
) -> CommandView {
    CommandView { program: "node"@, args: seq![binary, input, dir, scale] }
}

/// The command line of pdfbox: `java` runs the configured archive with the
/// `render` command, the format, the input and the resolution. The tool
/// writes its output beside the input.
pub open spec fn spec_pdfbox_command(
    binary: Seq<char>,
    input: Seq<char>,
    resolution: Seq<char>,
) -> CommandView {
    CommandView {
        program: "java"@,
        args: seq![
            "-jar"@,
            binary,
            "render"@,
            "-format"@,
            "png"@,
            "-i"@,
            input,
            "-dpi"@,
            resolution,
        ],
    }
}

/// The command line with which a backend's tool renders `input` into
/// `dir`. `scale` is the scale factor and `resolution` the resolution in
/// dots per inch, both in decimal notation; each tool is given the one it
/// takes. The embedded backend has no command line.
pub open spec fn spec_command_line(
    renderer: Renderer,
    binary: Seq<char>,
    input: Seq<char>,
    dir: Seq<char>,
    scale: Seq<char>,
    resolution: Seq<char>,
) -> Option<CommandView> {
    match renderer {
        Renderer::Pdfium => Some(spec_pdfium_command(binary, input, dir, scale)),
        Renderer::Mupdf => Some(spec_mupdf_command(binary, input, dir, resolution)),
        Renderer::Poppler => Some(spec_poppler_command(binary, input, dir, resolution)),
        Renderer::Quartz => Some(spec_quartz_command(binary, input, dir, scale)),
        Renderer::Pdfjs => Some(spec_pdfjs_command(binary, input, dir, scale)),
        Renderer::Pdfbox => Some(spec_pdfbox_command(binary, input, resolution)),
        Renderer::Ghostscript => Some(spec_ghostscript_command(binary, input, dir, resolution)),
        Renderer::Hayro => None,
    }
}

/// Build the command line of pdfium.
pub fn pdfium_command(binary: &str, input: &str, dir: &str, scale: &str) -> (command: CommandLine)
    ensures
        command@ == spec_pdfium_command(binary@, input@, dir@, scale@),
{
    let mut args: Vec<String> = Vec::new();
    args.push(input.to_owned());
    args.push(join(dir, "out-%d.png"));
    args.push(scale.to_owned());
    let command = CommandLine { program: binary.to_owned(), args };
    assert(command@.args =~= spec_pdfium_command(binary@, input@, dir@, scale@).args);
    command
}

/// Build the command line of ghostscript.
pub fn ghostscript_command(binary: &str, input: &str, dir: &str, resolution: &str) -> (command:
    CommandLine)
    ensures
        command@ == spec_ghostscript_command(binary@, input@, dir@, resolution@),
{
    let mut args: Vec<String> = Vec::new();
    args.push("-dNOPAUSE".to_owned());
    args.push("-sDEVICE=png16m".to_owned());
    args.push("-dGraphicsAlphaBits=4".to_owned());
    args.push("-dTextAlphaBits=4".to_owned());
    args.push("-sDEVICE=png16m".to_owned());
    args.push("-dBATCH".to_owned());
    args.push("-r".to_owned().concat(resolution));
    args.push("-sOutputFile=".to_owned().concat(join(dir, "out-%d.png").as_str()));
    args.push(input.to_owned());
    let command = CommandLine { program: binary.to_owned(), args };
    assert(command@.args =~= spec_ghostscript_command(binary@, input@, dir@, resolution@).args);
    command
}

/// Build the command line of mupdf.
pub fn mupdf_command(binary: &str, input: &str, dir: &str, resolution: &str) -> (command:
    CommandLine)
    ensures
        command@ == spec_mupdf_command(binary@, input@, dir@, resolution@),
{
    let mut args: Vec<String> = Vec::new();
    args.push("draw".to_owned());
    args.push("-q".to_owned());
    args.push("-r".to_owned());
    args.push(resolution.to_owned());
    args.push("-o".to_owned());
    args.push(join(dir, "out-%d.png"));
    args.push(input.to_owned());
    let command = CommandLine { program: binary.to_owned(), args };
    assert(command@.args =~= spec_mupdf_command(binary@, input@, dir@, resolution@).args);
    command
}

/// Build the command line of poppler.
pub fn poppler_command(binary: &str, input: &str, dir: &str, resolution: &str) -> (command:
    CommandLine)
    ensures
        command@ == spec_poppler_command(binary@, input@, dir@, resolution@),
{
    let mut args: Vec<String> = Vec::new();
    args.push("-r".to_owned());
    args.push(resolution.to_owned());
    args.push("-png".to_owned());
    args.push(input.to_owned());
    args.push(join(dir, "out"));
    let command = CommandLine { program: binary.to_owned(), args };
    assert(command@.args =~= spec_poppler_command(binary@, input@, dir@, resolution@).args);
    command
}

/// Build the command line of quartz.
pub fn quartz_command(binary: &str, input: &str, dir: &str, scale: &str) -> (command: CommandLine)
    ensures
        command@ == spec_quartz_command(binary@, input@, dir@, scale@),
{
    let mut args: Vec<String> = Vec::new();
    args.push(input.to_owned());
    args.push(dir.to_owned());
    args.push(scale.to_owned());
    let command = CommandLine { program: binary.to_owned(), args };
    assert(command@.args =~= spec_quartz_command(binary@, input@, dir@, scale@).args);
    command
}

/// Build the command line of pdf.js.
pub fn pdfjs_command(binary: &str, input: &str, dir: &str, scale: &str) -> (command: CommandLine)
    ensures
        command@ == spec_pdfjs_command(binary@, input@, dir@, scale@),
{
    let mut args: Vec<String> = Vec::new();
    args.push(binary.to_owned());
    args.push(input.to_owned());
    args.push(dir.to_owned());
    args.push(scale.to_owned());
    let command = CommandLine { program: "node".to_owned(), args };
    assert(command@.args =~= spec_pdfjs_command(binary@, input@, dir@, scale@).args);
    command
}

/// Build the command line of pdfbox.
pub fn pdfbox_command(binary: &str, input: &str, resolution: &str) -> (command: CommandLine)
    ensures
        command@ == spec_pdfbox_command(binary@, input@, resolution@),
{
    let mut args: Vec<String> = Vec::new();
    args.push("-jar".to_owned());
    args.push(binary.to_owned());
    args.push("render".to_owned());
    args.push("-format".to_owned());
    args.push("png".to_owned());
    args.push("-i".to_owned());
    args.push(input.to_owned());
    args.push("-dpi".to_owned());
    args.push(resolution.to_owned());
    let command = CommandLine { program: "java".to_owned(), args };
    assert(command@.args =~= spec_pdfbox_command(binary@, input@, resolution@).args);
    command
}

/// Build the command line with which the backend's tool renders `input`
/// into `dir`; `None` for the embedded backend.
pub fn command_line(
    renderer: Renderer,
    binary: &str,
    input: &str,
    dir: &str,
    scale: &str,
    resolution: &str,
) -> (result: Option<CommandLine>)
    ensures
        result is Some <==> spec_command_line(
            renderer,
            binary@,
            input@,
            dir@,
            scale@,
            resolution@,
        ) is Some,
        result matches Some(command) ==> spec_command_line(
            renderer,
            binary@,
            input@,
            dir@,
            scale@,
            resolution@,
        ) == Some(command@),
{
    match renderer {
        Renderer::Pdfium => Some(pdfium_command(binary, input, dir, scale)),
        Renderer::Mupdf => Some(mupdf_command(binary, input, dir, resolution)),
        Renderer::Poppler => Some(poppler_command(binary, input, dir, resolution)),
        Renderer::Quartz => Some(quartz_command(binary, input, dir, scale)),
        Renderer::Pdfjs => Some(pdfjs_command(binary, input, dir, scale)),
        Renderer::Pdfbox => Some(pdfbox_command(binary, input, resolution)),
        Renderer::Ghostscript => Some(ghostscript_command(binary, input, dir, resolution)),
        Renderer::Hayro => None,
    }
}

} // verus!
