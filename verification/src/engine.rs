//! The boundary to the typesetting engine's exporters: rendering the pages
//! of a compiled document to SVG markup, producing the PDF bytes, and
//! composing the outward failure string from a phase name and the
//! engine's diagnostics.

use vstd::prelude::*;

use crate::error::TypstError;
use crate::text::{chars_to_string, string_chars};

verus! {

/// Declares the engine's laid-out page type, opaque to the proofs.
#[verifier::external_type_specification]
#[verifier::external_body]
pub struct ExPage(typst::layout::Page);

/// Declares the engine's compiled document type, opaque to the proofs.
#[verifier::external_type_specification]
#[verifier::external_body]
pub struct ExPagedDocument(typst::layout::PagedDocument);

/// The SVG markup of one laid-out page.
pub uninterp spec fn svg_of(page: typst::layout::Page) -> Seq<char>;

/// Relies on typst_svg::svg: a page's SVG markup is a function of the
/// laid-out page alone.
#[verifier::external_body]
fn page_to_svg(page: &typst::layout::Page) -> (r: String)
    ensures
        r@ == svg_of(*page),
{
    typst_svg::svg(page)
}

/// Renders every page of a compiled document to SVG markup: exactly one
/// string per page, in page order.
pub fn render_pages_svg(pages: &Vec<typst::layout::Page>) -> (r: Vec<String>)
    ensures
        r@.len() == pages@.len(),
        forall|i: int| 0 <= i < pages@.len() ==> r@[i]@ == svg_of(pages@[i]),
{
    let mut out: Vec<String> = Vec::new();
    let mut i: usize = 0;
    while i < pages.len()
        invariant
            i <= pages@.len(),
            out@.len() == i,
            forall|j: int| 0 <= j < i ==> out@[j]@ == svg_of(pages@[j]),
        decreases pages@.len() - i,
    {
        let svg = page_to_svg(&pages[i]);
        out.push(svg);
        i = i + 1;
    }
    out
}

/// The PDF serialization of a compiled document under the exporter's
/// default options, when the exporter accepts it.
pub uninterp spec fn pdf_of(doc: typst::layout::PagedDocument) -> Option<Seq<u8>>;

/// Relies on typst_pdf::pdf with `PdfOptions::default()` (no timestamp,
/// no standards): the bytes are a function of the document alone; on
/// failure the exporter's diagnostics come back as strings.
#[verifier::external_body]
fn pdf_with_default_options(doc: &typst::layout::PagedDocument) -> (r: Result<Vec<u8>, Vec<String>>)
    ensures
        (match r {
            Ok(bytes) => pdf_of(*doc) == Some(bytes@),
            Err(_) => pdf_of(*doc) is None,
        }),
{
    let options = typst_pdf::PdfOptions::default();
    match typst_pdf::pdf(doc, &options) {
        Ok(bytes) => Ok(bytes),
        Err(errors) => Err(errors.iter().map(|e| format!("{:?}", e)).collect()),
    }
}

/// The element-wise view of a list of diagnostic strings.
pub open spec fn spec_msgs_view(ms: Seq<String>) -> Seq<Seq<char>> {
    Seq::new(ms.len(), |i: int| ms[i]@)
}

/// The first `k` diagnostics, joined with a comma and space.
pub open spec fn spec_join_msgs(msgs: Seq<Seq<char>>, k: int) -> Seq<char>
    decreases k,
{
    if k <= 0 || k > msgs.len() {
        Seq::empty()
    } else if k == 1 {
        msgs[0]
    } else {
        spec_join_msgs(msgs, k - 1) + ", "@ + msgs[k - 1]
    }
}

/// The outward failure string for a phase: the phase name, then
/// ` failed: `, then the diagnostics joined with a comma and space.
pub open spec fn spec_failure(phase: Seq<char>, msgs: Seq<Seq<char>>) -> Seq<char> {
    phase + " failed: "@ + spec_join_msgs(msgs, msgs.len() as int)
}

/// Composes the outward failure string from a phase name and the
/// underlying diagnostics.
#[verifier::loop_isolation(false)]
pub fn join_failure(phase: &str, msgs: &Vec<String>) -> (r: String)
    ensures
        r@ == spec_failure(phase@, spec_msgs_view(msgs@)),
{
    let ghost mv = spec_msgs_view(msgs@);
    let mut out = string_chars(phase);
    let mut tail = string_chars(" failed: ");
    out.append(&mut tail);
    let mut i: usize = 0;
    while i < msgs.len()
        invariant
            i <= msgs@.len(),
            out@ == phase@ + " failed: "@ + spec_join_msgs(mv, i as int),
        decreases msgs@.len() - i,
    {
        if i > 0 {
            let mut sep = string_chars(", ");
            out.append(&mut sep);
        }
        let mut m = string_chars(msgs[i].as_str());
        out.append(&mut m);
        proof {
            assert(mv[i as int] == msgs@[i as int]@);
        }
        i = i + 1;
    }
    chars_to_string(&out)
}

/// Produces the PDF bytes of a compiled document, or a render error whose
/// message joins the exporter's diagnostics behind the phase name.
pub fn pdf_bytes(doc: &typst::layout::PagedDocument) -> (r: Result<Vec<u8>, TypstError>)
    ensures
        (match r {
            Ok(bytes) => pdf_of(*doc) == Some(bytes@),
            Err(e) => ({
                &&& pdf_of(*doc) is None
                &&& e matches TypstError::RenderError(m) && (exists|msgs: Seq<Seq<char>>|
                    m@ == spec_failure("PDF generation"@, msgs))
            }),
        }),
{
    match pdf_with_default_options(doc) {
        Ok(bytes) => Ok(bytes),
        Err(msgs) => {
            let message = join_failure("PDF generation", &msgs);
            proof {
                assert(message@ == spec_failure("PDF generation"@, spec_msgs_view(msgs@)));
            }
            Err(TypstError::RenderError(message))
        },
    }
}

} // verus!
