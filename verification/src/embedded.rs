//! The backend that renders inside this process, with the `hayro` crate:
//! loading a document and counting its pages, and what the encoding of a
//! rendered page comes to.
//!
//! The rasterizer itself is not called from here. The size of its raster is
//! the size of the page times the scale, both fractional numbers held by
//! `hayro`, and it does not return on every raster; the caller makes that
//! call for each page that a session asks for.

use crate::error::ErrorView;
use crate::error::RenderError;
use crate::renderer::RenderedPage;
use hayro::hayro_syntax::Pdf;
use vstd::prelude::*;

verus! {

/// `Pdf` of `hayro`: a loaded document, as an opaque value.
#[verifier::external_type_specification]
#[verifier::external_body]
pub struct ExPdf(hayro::hayro_syntax::Pdf);

/// The number of pages of a loaded document.
pub uninterp spec fn pdf_page_count(pdf: Pdf) -> nat;

/// What `hayro` makes of the given bytes: the number of pages of the
/// document that it loads from them, or the text of the error with which
/// it refuses them.
pub uninterp spec fn loaded_document(bytes: Seq<u8>) -> Result<nat, Seq<char>>;

/// The number of pages that `hayro` finds in the given bytes, or `None`
/// where it cannot load them as a document.
pub open spec fn document_pages(bytes: Seq<u8>) -> Option<nat> {
    match loaded_document(bytes) {
        Ok(count) => Some(count),
        Err(_) => None,
    }
}

/// `Pdf::new` of `hayro`, on a copy of the bytes. The contract only names
/// the outcome: a loaded document has the number of pages that
/// [`loaded_document`] gives for the bytes, and the loader's refusal comes
/// back as the text of its error, which [`loaded_document`] gives too.
#[verifier::external_body]
pub(crate) fn load_document(bytes: &[u8]) -> (result: Result<Pdf, String>)
    ensures
        match result {
            Ok(pdf) => loaded_document(bytes@) == Ok::<nat, Seq<char>>(pdf_page_count(pdf)),
            Err(reason) => loaded_document(bytes@) == Err::<nat, Seq<char>>(reason@),
        },
{
    match Pdf::new(bytes.to_vec()) {
        Ok(pdf) => Ok(pdf),
        Err(e) => Err(format!("{:?}", e)),
    }
}

/// The length of `Pdf::pages` of `hayro`: the number of pages of the
/// document.
#[verifier::external_body]
pub(crate) fn page_count(pdf: &Pdf) -> (count: usize)
    ensures
        count == pdf_page_count(*pdf),
{
    pdf.pages().len()
}

/// What the encoding of a page comes to: the page, or the failure to export
/// it with the encoder's diagnostic.
pub open spec fn spec_exported(outcome: Result<Seq<u8>, Seq<char>>) -> Result<Seq<u8>, ErrorView> {
    match outcome {
        Ok(bytes) => Ok(bytes),
        Err(reason) => Err(ErrorView::ExportFailed { reason }),
    }
}

/// The model of the outcome of encoding a page.
pub open spec fn outcome_view(outcome: Result<Vec<u8>, String>) -> Result<Seq<u8>, Seq<char>> {
    match outcome {
        Ok(bytes) => Ok(bytes@),
        Err(reason) => Err(reason@),
    }
}

/// The model of a page or the failure to have one.
pub open spec fn page_view(page: Result<RenderedPage, RenderError>) -> Result<Seq<u8>, ErrorView> {
    match page {
        Ok(bytes) => Ok(bytes@),
        Err(e) => Err(e@),
    }
}

/// Turn the outcome of encoding a page into the page or an `ExportFailed`
/// error that carries the encoder's diagnostic.
pub fn exported(outcome: Result<Vec<u8>, String>) -> (result: Result<RenderedPage, RenderError>)
    ensures
        page_view(result) == spec_exported(outcome_view(outcome)),
{
    match outcome {
        Ok(bytes) => Ok(bytes),
        Err(reason) => Err(RenderError::ExportFailed { reason }),
    }
}

} // verus!
