//! The ways in which rendering a document can fail.

use crate::renderer::Renderer;
use vstd::prelude::*;
use vstd::string::StringExecFns;

verus! {

/// Why a render, or the preparation of its pages for comparison, failed.
#[derive(Clone, Debug)]
pub enum RenderError {
    /// The path of the backend's tool is not configured.
    ConfigMissing { renderer: Renderer },
    /// The operating system could not start the backend's tool.
    ProcessSpawnFailed { renderer: Renderer, reason: String },
    /// The entries of the workspace could not be listed after the tool ran.
    OutputScanFailed { renderer: Renderer },
    /// The bytes of a page could not be turned into a raster.
    DecodeFailed,
    /// The embedded backend could not read the document.
    PdfParseFailed { reason: String },
    /// The embedded backend could not encode a rendered page.
    ExportFailed { reason: String },
}

/// The model of a [`RenderError`]: the same cases, with text as sequences
/// of characters.
pub enum ErrorView {
    ConfigMissing { renderer: Renderer },
    ProcessSpawnFailed { renderer: Renderer, reason: Seq<char> },
    OutputScanFailed { renderer: Renderer },
    DecodeFailed,
    PdfParseFailed { reason: Seq<char> },
    ExportFailed { reason: Seq<char> },
}

impl ErrorView {
    /// The text that describes the failure to a reader.
    pub open spec fn message(self) -> Seq<char> {
        match self {
            ErrorView::ConfigMissing { renderer } => "no path is configured for "@
                + renderer.spec_name(),
            ErrorView::ProcessSpawnFailed { renderer, reason } => "failed to run "@
                + renderer.spec_name() + ": "@ + reason,
            ErrorView::OutputScanFailed { renderer } => "unable to list the output of "@
                + renderer.spec_name(),
            ErrorView::DecodeFailed => "unable to generate pixmap"@,
            ErrorView::PdfParseFailed { reason } => "failed to parse PDF: "@ + reason,
            ErrorView::ExportFailed { reason } => "PNG encoding failed: "@ + reason,
        }
    }
}

impl View for RenderError {
    type V = ErrorView;

    open spec fn view(&self) -> ErrorView {
        match self {
            RenderError::ConfigMissing { renderer } => ErrorView::ConfigMissing {
                renderer: *renderer,
            },
            RenderError::ProcessSpawnFailed { renderer, reason } => ErrorView::ProcessSpawnFailed {
                renderer: *renderer,
                reason: reason@,
            },
            RenderError::OutputScanFailed { renderer } => ErrorView::OutputScanFailed {
                renderer: *renderer,
            },
            RenderError::DecodeFailed => ErrorView::DecodeFailed,
            RenderError::PdfParseFailed { reason } => ErrorView::PdfParseFailed { reason: reason@ },
            RenderError::ExportFailed { reason } => ErrorView::ExportFailed { reason: reason@ },
        }
    }
}

impl RenderError {
    /// Describe the failure in words.
    pub fn message(&self) -> (text: String)
        ensures
            text@ == self@.message(),
    {
        match self {
            RenderError::ConfigMissing { renderer } => {
                let text = String::from_str("no path is configured for ");
                text.concat(renderer.name().as_str())
            },
            RenderError::ProcessSpawnFailed { renderer, reason } => {
                let text = String::from_str("failed to run ");
                let text = text.concat(renderer.name().as_str());
                let text = text.concat(": ");
                text.concat(reason.as_str())
            },
            RenderError::OutputScanFailed { renderer } => {
                let text = String::from_str("unable to list the output of ");
                text.concat(renderer.name().as_str())
            },
            RenderError::DecodeFailed => String::from_str("unable to generate pixmap"),
            RenderError::PdfParseFailed { reason } => {
                let text = String::from_str("failed to parse PDF: ");
                text.concat(reason.as_str())
            },
            RenderError::ExportFailed { reason } => {
                let text = String::from_str("PNG encoding failed: ");
                text.concat(reason.as_str())
            },
        }
    }
}

} // verus!
