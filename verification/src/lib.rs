//! Differential rendering of PDF documents: the same document is rendered by
//! several backends and the pages are laid out side by side in one image,
//! so that a difference between the backends shows.
//!
//! A backend is one of a closed set ([`Renderer`]). A render is a
//! [`session::Session`] that decides what is to be done and leaves the doing
//! to the caller: files and processes for the backends that are external
//! tools, the rasterizing of one page after the other for the embedded
//! backend.
//!
//! Rendered pages are decoded and set on a canvas with room for a border in
//! the backend's identity colour ([`raster::annotate`]), and the pages of all
//! backends for one page index are pasted side by side
//! ([`raster::compose`]).

pub mod command;
pub mod compare;
pub mod discover;
pub mod embedded;
pub mod error;
pub mod layout;
pub mod raster;
pub mod renderer;
pub mod session;

pub use session::render_hayro;
pub use error::RenderError;
pub use renderer::RenderOptions;
pub use renderer::RenderedDocument;
pub use renderer::RenderedPage;
pub use renderer::Renderer;
pub use session::render_ghostscript;
pub use session::render_mupdf;
pub use session::render_pdfbox;
pub use session::render_pdfium;
pub use session::render_pdfjs;
pub use session::render_poppler;
pub use session::render_quartz;
