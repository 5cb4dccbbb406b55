//! The trusted boundary to the `pdf` crate: type declarations for the outside
//! values that flow through extraction, and one wrapper per outside call the
//! driver makes. Everything past this boundary is verified against the
//! contracts stated here.

use vstd::prelude::*;

use std::sync::Arc;

use pdf::content::{Op, TextDrawAdjusted};
use pdf::error::PdfError;
use pdf::file::{File, NoCache};
use pdf::font::{Font, ToUnicodeMap};
use pdf::object::{PageRc, Ref, Resolve};

use crate::decode::TextEncoding;
use crate::page::{OpView, PdfOp, TextItem};

verus! {

/// A parsed PDF document, as the `pdf` crate holds it.
#[verifier::external_type_specification]
#[verifier::external_body]
#[verifier::reject_recursive_types(B)]
#[verifier::reject_recursive_types(OC)]
#[verifier::reject_recursive_types(SC)]
pub struct ExFile<B, OC, SC>(File<B, OC, SC>);

/// The `pdf` crate's marker for a document held without object caches.
#[verifier::external_type_specification]
#[verifier::external_body]
pub struct ExNoCache(NoCache);

/// The `pdf` crate's error type; extraction failures carry it as the reason.
#[verifier::external_type_specification]
#[verifier::external_body]
pub struct ExPdfError(PdfError);

/// One materialized page of a document.
#[verifier::external_type_specification]
#[verifier::external_body]
pub struct ExPageRc(PageRc);

/// One font object of a document.
#[verifier::external_type_specification]
#[verifier::external_body]
pub struct ExFont(Font);

/// A not-yet-dereferenced typed reference to a document object.
#[verifier::external_type_specification]
#[verifier::external_body]
#[verifier::reject_recursive_types(T)]
pub struct ExRef<T>(Ref<T>);

/// A tokenized content-stream operator, as the `pdf` crate parses it.
#[verifier::external_type_specification]
#[verifier::external_body]
pub struct ExOp(Op);

/// One element of a `pdf` adjusted text-draw array.
#[verifier::external_type_specification]
#[verifier::external_body]
pub struct ExTextDrawAdjusted(TextDrawAdjusted);

/// The parsed document this library reads: byte-backed, without caches.
pub type DocFile = File<Vec<u8>, NoCache, NoCache>;

// What the `pdf` crate computes here is a function of the document value (and
// of the raw bytes, for parsing): loading is deterministic, and so are page
// lookup, reference resolution, table parsing and content-stream
// tokenization. Only the iteration order of the two resource dictionaries
// varies from process to process, so the names below state order-independent
// facts only: whether each phase succeeds, the page count, the reduced
// operator stream, and the values behind a reference. The wrappers' contracts
// apply these names; the extraction driver's contracts are proved from them.

/// Whether a byte string parses as a PDF document.
pub uninterp spec fn load_ok(data: Seq<u8>) -> bool;

/// The document a byte string parses to, when it parses.
pub uninterp spec fn doc_of(data: Seq<u8>) -> DocFile;

/// The page count the document's catalog declares.
pub uninterp spec fn doc_page_count(f: DocFile) -> u32;

/// Whether the page at a position can be materialized.
pub uninterp spec fn doc_page_ok(f: DocFile, n: u32) -> bool;

/// The page at a position, when it materializes.
pub uninterp spec fn doc_page_at(f: DocFile, n: u32) -> PageRc;

/// Whether every font the page's resource dictionary names either embeds no
/// code-to-Unicode table or embeds one that parses.
pub uninterp spec fn page_fonts_ok(f: DocFile, p: PageRc) -> bool;

/// Whether every font reference the page's graphics states carry resolves,
/// and each resolved font either embeds no table or embeds one that parses.
pub uninterp spec fn page_gs_fonts_ok(f: DocFile, p: PageRc) -> bool;

/// Whether the page's content stream can be read and tokenized.
pub uninterp spec fn page_content_ok(f: DocFile, p: PageRc) -> bool;

/// The page's operators, reduced to this library's model, when the content
/// stream reads; a page without content has the empty sequence.
pub uninterp spec fn page_ops_of(f: DocFile, p: PageRc) -> Seq<OpView>;

/// Whether one font either embeds no code-to-Unicode table or embeds one
/// that parses.
pub uninterp spec fn font_cmap_ok(f: DocFile, ft: Arc<Font>) -> bool;

/// Whether a font reference dereferences.
pub uninterp spec fn ref_resolves(f: DocFile, r: Ref<Font>) -> bool;

/// The font a reference dereferences to, when it does.
pub uninterp spec fn font_of_ref(f: DocFile, r: Ref<Font>) -> Arc<Font>;

/// One graphics-state font entry is in order: it is absent, or its reference
/// resolves to a font whose table situation is readable.
pub open spec fn gs_entry_ok(f: DocFile, e: Option<Ref<Font>>) -> bool {
    match e {
        Some(rf) => ref_resolves(f, rf) && font_cmap_ok(f, font_of_ref(f, rf)),
        None => true,
    }
}

/// The page at position `n` materializes, and all three of its per-page
/// phases (resource-font tables, graphics-state fonts, content stream) read.
pub open spec fn page_resolves(f: DocFile, n: u32) -> bool {
    &&& doc_page_ok(f, n)
    &&& page_fonts_ok(f, doc_page_at(f, n))
    &&& page_gs_fonts_ok(f, doc_page_at(f, n))
    &&& page_content_ok(f, doc_page_at(f, n))
}

/// Every page of the document materializes and resolves: extraction is owed
/// success exactly here.
pub open spec fn doc_resolves(f: DocFile) -> bool {
    forall|n: u32| n < doc_page_count(f) ==> page_resolves(f, n)
}

/// Relies on `pdf::file::FileOptions::uncached` and `FileOptions::load`:
/// parses a whole PDF document from raw bytes, or reports why it cannot.
/// Parsing is a function of the bytes alone.
#[verifier::external_body]
pub(crate) fn load_document(data: &[u8]) -> (r: Result<DocFile, PdfError>)
    ensures
        r is Ok <==> load_ok(data@),
        r matches Ok(f) ==> f == doc_of(data@),
{
    pdf::file::FileOptions::uncached().load(data.to_vec())
}

/// Relies on `pdf::file::File::num_pages`: the page count the document
/// catalog declares.
#[verifier::external_body]
pub(crate) fn document_page_count(file: &DocFile) -> (r: u32)
    ensures
        r == doc_page_count(*file),
{
    file.num_pages()
}

/// Relies on `pdf::file::File::get_page`: materializes the page at the given
/// position, or reports why it cannot.
#[verifier::external_body]
pub(crate) fn document_page(file: &DocFile, n: u32) -> (r: Result<PageRc, PdfError>)
    ensures
        r is Ok <==> doc_page_ok(*file, n),
        r matches Ok(p) ==> p == doc_page_at(*file, n),
{
    file.get_page(n)
}

/// Relies on `Page::resources` and `MaybeRef::data`: every font the page's
/// resource dictionary names, each resource name with its font object. The
/// dictionary is a map, so no name repeats; the order is not fixed, so the
/// contract ties only the order-independent conjunction over the entries to
/// the page's name.
#[verifier::external_body]
#[allow(unused_variables)]
pub(crate) fn page_resource_fonts(file: &DocFile, page: &PageRc) -> (r: Vec<(String, Arc<Font>)>)
    ensures
        page_fonts_ok(*file, *page) <==> (forall|i: int|
            0 <= i < r@.len() ==> font_cmap_ok(*file, r@[i].1)),
{
    match &page.resources {
        Some(res) => res.data().fonts.iter().map(
            |(n, f)| (n.as_str().to_owned(), f.data().clone()),
        ).collect(),
        None => Vec::new(),
    }
}

/// Relies on `Resources::graphics_states` and `GraphicsStateParameters::font`:
/// every graphics state of the page, as its name and its font reference, when
/// the state carries one. The layout-only font size beside the reference is
/// dropped. The dictionary is a map, so no name repeats; the order is not
/// fixed, so the contract ties only the order-independent conjunction over
/// the entries to the page's name.
#[verifier::external_body]
#[allow(unused_variables)]
pub(crate) fn page_gs_entries(file: &DocFile, page: &PageRc) -> (r: Vec<
    (String, Option<Ref<Font>>),
>)
    ensures
        page_gs_fonts_ok(*file, *page) <==> (forall|i: int|
            0 <= i < r@.len() ==> gs_entry_ok(*file, r@[i].1)),
{
    match &page.resources {
        Some(res) => res.data().graphics_states.iter().map(
            |(n, gs)| (n.as_str().to_owned(), gs.font.map(|(f, _)| f)),
        ).collect(),
        None => Vec::new(),
    }
}

/// Relies on `pdf::object::Resolve::get`: dereferences a font reference into
/// the font object it names, or reports why it cannot.
#[verifier::external_body]
pub(crate) fn resolve_font(file: &DocFile, r: &Ref<Font>) -> (res: Result<Arc<Font>, PdfError>)
    ensures
        res is Ok <==> ref_resolves(*file, *r),
        res matches Ok(a) ==> a == font_of_ref(*file, *r),
{
    file.get(*r).map(|rc| rc.data().clone())
}

/// Relies on `Font::name`: the font object's own name, if it has one.
#[verifier::external_body]
pub(crate) fn font_name(f: &Arc<Font>) -> (r: Option<String>) {
    f.name.as_ref().map(|n| n.as_str().to_owned())
}

/// Relies on `Font::encoding`: absent when the font exposes no encoding
/// descriptor; the double-byte tag when its base encoding is Identity-H; the
/// single-byte tag for every other base encoding.
#[verifier::external_body]
pub(crate) fn font_encoding_tag(f: &Arc<Font>) -> (r: Option<TextEncoding>) {
    f.encoding().map(|e| match e.base {
        pdf::encoding::BaseEncoding::IdentityH => TextEncoding::DoubleByteIdentity,
        _ => TextEncoding::SingleByte,
    })
}

/// Relies on `Font::to_unicode`: absent when the font embeds no
/// code-to-Unicode table; otherwise the parsed table, or why parsing failed.
#[verifier::external_body]
pub(crate) fn font_cmap(file: &DocFile, f: &Arc<Font>) -> (r: Option<
    Result<ToUnicodeMap, PdfError>,
>)
    ensures
        (r matches Some(Err(_))) <==> !font_cmap_ok(*file, *f),
{
    f.to_unicode(file)
}

/// Relies on `Page::contents` and `Content::operations`: the page's tokenized
/// content-stream operators in stream order, each reduced by `op_model`; a
/// page without content has none. The stream and its tokenization are a
/// function of the document and the page.
#[verifier::external_body]
pub(crate) fn page_ops(file: &DocFile, page: &PageRc) -> (r: Result<Vec<PdfOp>, PdfError>)
    ensures
        r is Ok <==> page_content_ok(*file, *page),
        r matches Ok(ops) ==> ops.deep_view() == page_ops_of(*file, *page),
{
    match &page.contents {
        Some(c) => Ok(c.operations(file)?.iter().map(op_model).collect()),
        None => Ok(Vec::new()),
    }
}

/// Relies on `pdf::content::Op`: reduces one operator to the cases text
/// extraction reacts to, keeping names and raw string bytes and dropping
/// layout-only operands.
#[verifier::external_body]
fn op_model(op: &Op) -> (r: PdfOp) {
    match op {
        Op::GraphicsState { name } => PdfOp::SetGraphicsState { name: name.as_str().to_owned() },
        Op::TextFont { name, .. } => PdfOp::SetTextFont { name: name.as_str().to_owned() },
        Op::TextDraw { text } => PdfOp::DrawText { bytes: text.data.as_slice().to_vec() },
        Op::TextDrawAdjusted { array } => PdfOp::DrawTextAdjusted {
            items: array.iter().map(item_model).collect(),
        },
        Op::TextNewline => PdfOp::NewLine,
        _ => PdfOp::Other,
    }
}

/// Relies on `pdf::content::TextDrawAdjusted`: keeps a string element's raw
/// bytes, drops a numeric spacing element's layout-only value.
#[verifier::external_body]
fn item_model(it: &TextDrawAdjusted) -> (r: TextItem) {
    match it {
        TextDrawAdjusted::Text(text) => TextItem::Text { bytes: text.data.as_slice().to_vec() },
        TextDrawAdjusted::Spacing(_) => TextItem::Spacing,
    }
}

} // verus!
