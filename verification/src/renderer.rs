//! The closed set of rendering backends and their identity metadata.

use vstd::prelude::*;

verus! {

/// A page rendered as a PNG image.
pub type RenderedPage = Vec<u8>;

/// A document rendered as PNG images, one for each page, the first page
/// first.
pub type RenderedDocument = Vec<RenderedPage>;

/// The options that are applied when a document is rendered: by how much
/// the native size of a page is scaled. Every tool is given the same
/// factor, in the form in which it takes it.
pub struct RenderOptions {
    /// The scale factor in decimal notation, for the tools that take a
    /// factor.
    pub scale: String,
    /// The resolution in dots per inch in decimal notation, 72 times the
    /// scale factor, for the tools that take a resolution.
    pub resolution: String,
}

/// A backend that can render a PDF document to a sequence of pages.
///
/// Every backend but [`Renderer::Hayro`] is an external tool that is started
/// as a process; `Hayro` renders inside this process.
#[derive(Copy, Clone, PartialEq, Eq, Structural, Debug)]
pub enum Renderer {
    /// The pdfium renderer.
    Pdfium,
    /// The mupdf renderer.
    Mupdf,
    /// The poppler renderer.
    Poppler,
    /// The quartz renderer.
    Quartz,
    /// The pdf.js renderer.
    Pdfjs,
    /// The pdfbox renderer.
    Pdfbox,
    /// The ghostscript renderer.
    Ghostscript,
    /// The hayro renderer, which needs no external tool.
    Hayro,
}

impl Default for RenderOptions {
    /// The options that leave the native size as it is: a scale factor of
    /// one, which is a resolution of 72 dots per inch.
    fn default() -> (options: RenderOptions)
        ensures
            options.scale@ == "1"@,
            options.resolution@ == "72"@,
    {
        RenderOptions { scale: "1".to_owned(), resolution: "72".to_owned() }
    }
}

impl Renderer {
    /// The display name of the backend, as a sequence of characters.
    pub open spec fn spec_name(self) -> Seq<char> {
        match self {
            Renderer::Pdfium => "pdfium"@,
            Renderer::Mupdf => "mupdf"@,
            Renderer::Poppler => "poppler"@,
            Renderer::Quartz => "quartz"@,
            Renderer::Pdfjs => "pdfjs"@,
            Renderer::Pdfbox => "pdfbox"@,
            Renderer::Ghostscript => "ghostscript"@,
            Renderer::Hayro => "hayro"@,
        }
    }

    /// The identity colour of the backend as a red, green, blue triple.
    pub open spec fn spec_color(self) -> (u8, u8, u8) {
        match self {
            Renderer::Pdfium => (79u8, 184u8, 35u8),
            Renderer::Mupdf => (34u8, 186u8, 184u8),
            Renderer::Poppler => (227u8, 137u8, 20u8),
            Renderer::Quartz => (234u8, 250u8, 60u8),
            Renderer::Pdfjs => (48u8, 17u8, 207u8),
            Renderer::Pdfbox => (237u8, 38u8, 98u8),
            Renderer::Ghostscript => (235u8, 38u8, 218u8),
            Renderer::Hayro => (100u8, 149u8, 237u8),
        }
    }

    /// The name of the configuration key that holds the path of the
    /// backend's tool; `None` for the backend that needs no tool.
    pub open spec fn spec_config_key(self) -> Option<Seq<char>> {
        match self {
            Renderer::Pdfium => Some("PDFIUM_BIN"@),
            Renderer::Mupdf => Some("MUPDF_BIN"@),
            Renderer::Poppler => Some("POPPLER_BIN"@),
            Renderer::Quartz => Some("QUARTZ_BIN"@),
            Renderer::Pdfjs => Some("PDFJS_BIN"@),
            Renderer::Pdfbox => Some("PDFBOX_BIN"@),
            Renderer::Ghostscript => Some("GHOSTSCRIPT_BIN"@),
            Renderer::Hayro => None,
        }
    }

    /// The pattern that the names of the backend's output files match. Its
    /// one capture group holds the page index. `None` for the backend that
    /// writes no files.
    pub open spec fn spec_output_pattern(self) -> Option<Seq<char>> {
        match self {
            Renderer::Pdfium | Renderer::Mupdf | Renderer::Ghostscript => Some(
                "(?m)out-(\\d+).png"@,
            ),
            Renderer::Poppler | Renderer::Quartz | Renderer::Pdfjs | Renderer::Pdfbox => Some(
                "(?m)-(\\d+).png"@,
            ),
            Renderer::Hayro => None,
        }
    }

    /// Whether the backend renders inside this process.
    pub open spec fn spec_is_embedded(self) -> bool {
        self == Renderer::Hayro
    }

    /// Whether the backend renders inside this process, without a tool, a
    /// workspace or output files.
    pub fn is_embedded(&self) -> (result: bool)
        ensures
            result == self.spec_is_embedded(),
    {
        match self {
            Renderer::Hayro => true,
            _ => false,
        }
    }

    /// Get the name of the configuration key that holds the path of the
    /// backend's tool.
    pub fn config_key(&self) -> (result: Option<String>)
        ensures
            result is Some <==> self.spec_config_key() is Some,
            result matches Some(key) ==> self.spec_config_key() == Some(key@),
    {
        match self {
            Renderer::Pdfium => Some("PDFIUM_BIN".to_owned()),
            Renderer::Mupdf => Some("MUPDF_BIN".to_owned()),
            Renderer::Poppler => Some("POPPLER_BIN".to_owned()),
            Renderer::Quartz => Some("QUARTZ_BIN".to_owned()),
            Renderer::Pdfjs => Some("PDFJS_BIN".to_owned()),
            Renderer::Pdfbox => Some("PDFBOX_BIN".to_owned()),
            Renderer::Ghostscript => Some("GHOSTSCRIPT_BIN".to_owned()),
            Renderer::Hayro => None,
        }
    }

    /// Get the pattern by which the backend's output files are found.
    pub fn output_pattern(&self) -> (result: Option<String>)
        ensures
            result is Some <==> self.spec_output_pattern() is Some,
            result matches Some(pattern) ==> self.spec_output_pattern() == Some(pattern@),
    {
        match self {
            Renderer::Pdfium | Renderer::Mupdf | Renderer::Ghostscript => Some(
                "(?m)out-(\\d+).png".to_owned(),
            ),
            Renderer::Poppler | Renderer::Quartz | Renderer::Pdfjs | Renderer::Pdfbox => Some(
                "(?m)-(\\d+).png".to_owned(),
            ),
            Renderer::Hayro => None,
        }
    }

    /// Get the name of the renderer.
    pub fn name(&self) -> (result: String)
        ensures
            result@ == self.spec_name(),
    {
        match self {
            Renderer::Pdfium => "pdfium".to_owned(),
            Renderer::Mupdf => "mupdf".to_owned(),
            Renderer::Poppler => "poppler".to_owned(),
            Renderer::Quartz => "quartz".to_owned(),
            Renderer::Pdfjs => "pdfjs".to_owned(),
            Renderer::Pdfbox => "pdfbox".to_owned(),
            Renderer::Ghostscript => "ghostscript".to_owned(),
            Renderer::Hayro => "hayro".to_owned(),
        }
    }

    /// Get the colour that tags this renderer's pages in a comparison image.
    pub fn color(&self) -> (result: (u8, u8, u8))
        ensures
            result == self.spec_color(),
    {
        match self {
            Renderer::Pdfium => (79, 184, 35),
            Renderer::Mupdf => (34, 186, 184),
            Renderer::Poppler => (227, 137, 20),
            Renderer::Quartz => (234, 250, 60),
            Renderer::Pdfjs => (48, 17, 207),
            Renderer::Pdfbox => (237, 38, 98),
            Renderer::Ghostscript => (235, 38, 218),
            Renderer::Hayro => (100, 149, 237),
        }
    }
}

} // verus!
